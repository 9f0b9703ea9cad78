//! Mock registration and management: the registry of configured behaviors,
//! the priority-ordered selection algorithm, per-mock quotas, and the
//! append-only logs of received requests.

use vstd::prelude::*;

use crate::action::Action;
use crate::matcher::{spec_action_matches, Matcher, SoapRequest, SoapRequestBody};
use crate::responder::{spec_respond, Responder, ResponseOutcome};

verus! {

/// A received protocol request with metadata.
#[derive(Debug)]
pub struct ReceivedRequest {
    /// The action name (e.g., "GetExternalIPAddress", "AddPortMapping").
    pub action_name: String,
    /// The service type from the SOAPAction header.
    pub service_type: String,
    /// The parsed request body.
    pub body: SoapRequestBody,
    /// Milliseconds elapsed since server start when the request arrived.
    pub timestamp_millis: u64,
}

impl Clone for ReceivedRequest {
    fn clone(&self) -> (res: Self)
        ensures
            res == *self,
    {
        ReceivedRequest {
            action_name: self.action_name.clone(),
            service_type: self.service_type.clone(),
            body: self.body.clone(),
            timestamp_millis: self.timestamp_millis,
        }
    }
}

/// The record that dispatching `request` at `timestamp_millis` appends to
/// the received-request log.
pub open spec fn spec_record_of(request: SoapRequest, timestamp_millis: u64) -> ReceivedRequest {
    ReceivedRequest {
        action_name: request.action_name,
        service_type: request.service_type,
        body: request.body,
        timestamp_millis,
    }
}

impl ReceivedRequest {
    pub fn from_soap_request(request: &SoapRequest, elapsed_millis: u64) -> (r: Self)
        ensures
            r == spec_record_of(*request, elapsed_millis),
    {
        ReceivedRequest {
            action_name: request.action_name.clone(),
            service_type: request.service_type.clone(),
            body: request.body.clone(),
            timestamp_millis: elapsed_millis,
        }
    }
}

/// A received discovery probe with metadata.
#[derive(Debug)]
pub struct ReceivedSsdpRequest {
    /// The canonical textual form of the source socket address.
    pub source: String,
    /// The requested search target (the ST header).
    pub search_target: String,
    /// The advertise-mechanism header value (the MAN header).
    pub man: String,
    /// The maximum wait value (the MX header), when present and numeric.
    pub mx: Option<u32>,
    /// The raw request text.
    pub raw: String,
    /// Milliseconds elapsed since server start when the probe arrived.
    pub timestamp_millis: u64,
}

impl Clone for ReceivedSsdpRequest {
    fn clone(&self) -> (res: Self)
        ensures
            res == *self,
    {
        ReceivedSsdpRequest {
            source: self.source.clone(),
            search_target: self.search_target.clone(),
            man: self.man.clone(),
            mx: self.mx,
            raw: self.raw.clone(),
            timestamp_millis: self.timestamp_millis,
        }
    }
}

/// A registered mock that matches requests and generates responses.
#[derive(Debug)]
pub struct Mock {
    /// The action matcher.
    pub action: Action,
    /// The responder to use when matched.
    pub responder: Responder,
    /// Priority for matching (higher = checked first).
    pub priority: u32,
    /// Maximum number of times this mock may answer (None = unlimited).
    pub max_times: Option<u32>,
    /// Number of times this mock has answered.
    pub match_count: u64,
}

/// A mock may still answer: it has no quota, or its count is below it.
pub open spec fn spec_eligible(m: Mock) -> bool {
    match m.max_times {
        Some(max) => m.match_count < max,
        None => true,
    }
}

/// A mock answers a request: it is still eligible and its criteria accept
/// the request.
pub open spec fn spec_mock_matches(m: Mock, request: SoapRequest) -> bool {
    spec_eligible(m) && spec_action_matches(m.action, request)
}

/// The mock after answering once: its count advances by exactly one.  (The
/// counter saturates at the top of its type, which a quota can never reach.)
pub open spec fn spec_bump(m: Mock) -> Mock {
    Mock {
        match_count: if m.match_count < u64::MAX {
            (m.match_count + 1) as u64
        } else {
            m.match_count
        },
        ..m
    }
}

impl Mock {
    /// Create a new mock with the given action and responder, at priority 0
    /// and with no quota.
    pub fn new(action: Action, responder: Responder) -> (r: Self)
        ensures
            r == (Mock { action, responder, priority: 0, max_times: None, match_count: 0 }),
    {
        Mock { action, responder, priority: 0, max_times: None, match_count: 0 }
    }

    /// Set the priority of this mock (higher = checked first).
    pub fn with_priority(self, priority: u32) -> (r: Self)
        ensures
            r == (Mock { priority, ..self }),
    {
        Mock { priority, ..self }
    }

    /// Limit the number of times this mock can answer.
    pub fn times(self, n: u32) -> (r: Self)
        ensures
            r == (Mock { max_times: Some(n), ..self }),
    {
        Mock { max_times: Some(n), ..self }
    }

    /// Check if this mock is still eligible and matches the given request.
    /// Does not mutate state: the count advances only in `respond`.
    pub fn matches(&self, request: &SoapRequest) -> (r: bool)
        ensures
            r == spec_mock_matches(*self, *request),
    {
        if let Some(max) = self.max_times {
            if self.match_count >= max as u64 {
                return false;
            }
        }
        self.action.matches(request)
    }

    /// Generate a response for the given request and advance the match
    /// count by one.
    pub fn respond(&mut self, request: &SoapRequest) -> (r: ResponseOutcome)
        ensures
            *final(self) == spec_bump(*old(self)),
            r@ == spec_respond(old(self).responder, *request),
    {
        if self.match_count < u64::MAX {
            self.match_count = self.match_count + 1;
        }
        self.responder.respond(request)
    }

    /// Get the priority of this mock.
    pub fn priority(&self) -> (r: u32)
        ensures
            r == self.priority,
    {
        self.priority
    }
}

// =============================================================================
// Registry
// =============================================================================

/// The mock list is ordered by priority, highest first; among equal
/// priorities, earlier-registered mocks come first.
pub open spec fn sorted_by_priority(s: Seq<Mock>) -> bool {
    forall|i: int, j: int| 0 <= i < j < s.len() ==> s[i].priority >= s[j].priority
}

/// Where a mock of the given priority is inserted: directly after every
/// mock of equal or higher priority, so equal-priority mocks keep their
/// registration order.
pub open spec fn insertion_index(s: Seq<Mock>, priority: u32) -> int
    decreases s.len(),
{
    if s.len() == 0 {
        0
    } else if s[0].priority < priority {
        0
    } else {
        1 + insertion_index(s.drop_first(), priority)
    }
}

pub proof fn lemma_insertion_index(s: Seq<Mock>, priority: u32)
    ensures
        0 <= insertion_index(s, priority) <= s.len(),
        forall|k: int| 0 <= k < insertion_index(s, priority) ==> s[k].priority >= priority,
        insertion_index(s, priority) < s.len() ==> s[insertion_index(s, priority)].priority
            < priority,
    decreases s.len(),
{
    if s.len() == 0 {
    } else if s[0].priority < priority {
    } else {
        let tail = s.drop_first();
        lemma_insertion_index(tail, priority);
        let idx = insertion_index(s, priority);
        assert forall|k: int| 0 <= k < idx implies s[k].priority >= priority by {
            if k >= 1 {
                assert(tail[k - 1] == s[k]);
            }
        }
        if idx < s.len() {
            assert(tail[idx - 1] == s[idx]);
        }
    }
}

/// The position of the first mock that answers the request, or -1 when no
/// eligible mock matches.
pub open spec fn first_match(s: Seq<Mock>, request: SoapRequest) -> int
    decreases s.len(),
{
    if s.len() == 0 {
        -1
    } else if spec_mock_matches(s[0], request) {
        0
    } else {
        let r = first_match(s.drop_first(), request);
        if r == -1 {
            -1
        } else {
            1 + r
        }
    }
}

pub proof fn lemma_first_match(s: Seq<Mock>, request: SoapRequest)
    ensures
        first_match(s, request) == -1 ==> forall|i: int|
            0 <= i < s.len() ==> !spec_mock_matches(s[i], request),
        first_match(s, request) != -1 ==> {
            let f = first_match(s, request);
            &&& 0 <= f < s.len()
            &&& spec_mock_matches(s[f], request)
            &&& forall|j: int| 0 <= j < f ==> !spec_mock_matches(s[j], request)
        },
    decreases s.len(),
{
    if s.len() == 0 {
    } else if spec_mock_matches(s[0], request) {
    } else {
        let tail = s.drop_first();
        lemma_first_match(tail, request);
        let r = first_match(tail, request);
        if r == -1 {
            assert forall|i: int| 0 <= i < s.len() implies !spec_mock_matches(s[i], request) by {
                if i >= 1 {
                    assert(tail[i - 1] == s[i]);
                }
            }
        } else {
            assert(tail[r] == s[r + 1]);
            assert forall|j: int| 0 <= j < r + 1 implies !spec_mock_matches(s[j], request) by {
                if j >= 1 {
                    assert(tail[j - 1] == s[j]);
                }
            }
        }
    }
}

// =============================================================================
// Selection laws
// =============================================================================

/// Law: registration is stable.  Inserting a mock leaves every
/// already-registered mock in place or shifted right, preserving their
/// relative order, and places the new mock after every registered mock of
/// equal or higher priority.  With `first_match` scanning positions in
/// ascending order, equal-priority mocks are therefore always evaluated in
/// registration order, however many registrations follow.
pub proof fn lemma_register_stable(s: Seq<Mock>, mock: Mock)
    requires
        sorted_by_priority(s),
    ensures
        ({
            let idx = insertion_index(s, mock.priority);
            let t = s.insert(idx, mock);
            &&& 0 <= idx <= s.len()
            &&& t.len() == s.len() + 1
            &&& forall|k: int| 0 <= k < idx ==> #[trigger] t[k] == s[k]
            &&& t[idx] == mock
            &&& forall|k: int| idx <= k < s.len() ==> #[trigger] t[k + 1] == s[k]
            &&& forall|k: int|
                0 <= k < s.len() && #[trigger] s[k].priority >= mock.priority ==> k < idx
        }),
{
    lemma_insertion_index(s, mock.priority);
    let idx = insertion_index(s, mock.priority);
    s.insert_ensures(idx, mock);
    assert forall|k: int| 0 <= k < s.len() && #[trigger] s[k].priority >= mock.priority implies k
        < idx by {
        if k >= idx {
            assert(s[idx].priority < mock.priority);
            if k > idx {
                assert(s[idx].priority >= s[k].priority);
            }
        }
    }
}

/// Law: a mock whose quota is exhausted never answers.  Dispatch skips it:
/// the selected position, if any, is never an ineligible mock's.
pub proof fn lemma_exhausted_mock_skipped(s: Seq<Mock>, request: SoapRequest, i: int)
    requires
        0 <= i < s.len(),
        !spec_eligible(s[i]),
    ensures
        first_match(s, request) != i,
{
    lemma_first_match(s, request);
}

/// Law: the selected mock has the highest priority among all mocks that
/// match the request, and stands before every other match in list order —
/// so a specific behavior registered at a higher priority wins over a
/// catch-all, whatever the registration order.
pub proof fn lemma_highest_priority_wins(s: Seq<Mock>, request: SoapRequest)
    requires
        sorted_by_priority(s),
    ensures
        ({
            let f = first_match(s, request);
            f >= 0 ==> forall|j: int|
                0 <= j < s.len() && #[trigger] spec_mock_matches(s[j], request) ==> f <= j
                    && s[f].priority >= s[j].priority
        }),
{
    lemma_first_match(s, request);
}

/// Every mock's count stays within its quota.
pub open spec fn counts_within_quota(s: Seq<Mock>) -> bool {
    forall|k: int|
        0 <= k < s.len() ==> (#[trigger] s[k].max_times matches Some(max) ==> s[k].match_count
            <= max)
}

/// Law: a mock with quota N answers at most N dispatches.  Dispatch only
/// advances the selected mock's count, only selects eligible mocks, and so
/// keeps every count within its quota: once a count reaches the quota the
/// mock is permanently ineligible.
pub proof fn lemma_quota_never_exceeded(s: Seq<Mock>, request: SoapRequest)
    requires
        counts_within_quota(s),
    ensures
        ({
            let f = first_match(s, request);
            f >= 0 ==> counts_within_quota(s.update(f, spec_bump(s[f])))
        }),
{
    lemma_first_match(s, request);
    let f = first_match(s, request);
    if f >= 0 {
        let t = s.update(f, spec_bump(s[f]));
        assert(spec_eligible(s[f]));
        assert forall|k: int|
            0 <= k < t.len() implies (#[trigger] t[k].max_times matches Some(max)
            ==> t[k].match_count <= max) by {
            if k != f {
                assert(t[k] == s[k]);
            }
        }
    }
}

/// Registry of mocks for matching requests, plus the append-only logs of
/// received protocol requests and received discovery probes.
pub struct MockRegistry {
    mocks: Vec<Mock>,
    received_requests: Vec<ReceivedRequest>,
    received_ssdp_requests: Vec<ReceivedSsdpRequest>,
}

impl MockRegistry {
    /// The registered mocks, in the order the selection scan visits them.
    pub closed spec fn spec_mocks(&self) -> Seq<Mock> {
        self.mocks@
    }

    /// The received-request log, in arrival order.
    pub closed spec fn spec_received(&self) -> Seq<ReceivedRequest> {
        self.received_requests@
    }

    /// The received-discovery log, in arrival order.
    pub closed spec fn spec_received_ssdp(&self) -> Seq<ReceivedSsdpRequest> {
        self.received_ssdp_requests@
    }

    /// The mock list is sorted by priority, highest first.
    pub open spec fn wf(&self) -> bool {
        sorted_by_priority(self.spec_mocks())
    }

    /// Create a new empty registry.
    pub fn new() -> (r: Self)
        ensures
            r.wf(),
            r.spec_mocks() == Seq::<Mock>::empty(),
            r.spec_received() == Seq::<ReceivedRequest>::empty(),
            r.spec_received_ssdp() == Seq::<ReceivedSsdpRequest>::empty(),
    {
        let r = MockRegistry {
            mocks: Vec::new(),
            received_requests: Vec::new(),
            received_ssdp_requests: Vec::new(),
        };
        proof {
            assert(r.spec_mocks() =~= Seq::<Mock>::empty());
            assert(r.spec_received() =~= Seq::<ReceivedRequest>::empty());
            assert(r.spec_received_ssdp() =~= Seq::<ReceivedSsdpRequest>::empty());
        }
        r
    }

    /// Register a new mock.  It is inserted after every mock of equal or
    /// higher priority, so equal-priority mocks keep registration order.
    pub fn register(&mut self, mock: Mock)
        requires
            old(self).wf(),
        ensures
            final(self).wf(),
            final(self).spec_mocks() == old(self).spec_mocks().insert(
                insertion_index(old(self).spec_mocks(), mock.priority),
                mock,
            ),
            final(self).spec_received() == old(self).spec_received(),
            final(self).spec_received_ssdp() == old(self).spec_received_ssdp(),
    {
        proof {
            lemma_insertion_index(self.mocks@, mock.priority);
        }
        let ghost s = self.mocks@;
        let ghost spec_idx = insertion_index(s, mock.priority);
        let mut idx: usize = 0;
        while idx < self.mocks.len() && self.mocks[idx].priority >= mock.priority
            invariant
                self.mocks@ == s,
                idx <= s.len(),
                forall|k: int| 0 <= k < idx ==> s[k].priority >= mock.priority,
            decreases s.len() - idx,
    {
            idx = idx + 1;
        }
        proof {
            if idx < s.len() {
                if spec_idx < idx {
                    assert(s[spec_idx].priority >= mock.priority);
                }
                if spec_idx > idx {
                    assert(s[idx as int].priority >= mock.priority);
                }
            } else {
                if spec_idx < s.len() {
                    assert(s[spec_idx].priority >= mock.priority);
                }
            }
            assert(spec_idx == idx);
        }
        self.mocks.insert(idx, mock);
        proof {
            let t = self.mocks@;
            assert forall|i: int, j: int| 0 <= i < j < t.len() implies t[i].priority
                >= t[j].priority by {
                if j < spec_idx {
                    assert(t[i] == s[i] && t[j] == s[j]);
                } else if i > spec_idx {
                    assert(t[i] == s[i - 1] && t[j] == s[j - 1]);
                } else if i < spec_idx && j == spec_idx {
                    assert(t[i] == s[i] && t[j] == mock);
                } else if i < spec_idx && j > spec_idx {
                    assert(t[i] == s[i] && t[j] == s[j - 1]);
                } else if i == spec_idx && j > spec_idx {
                    assert(t[i] == mock && t[j] == s[j - 1]);
                    if spec_idx < s.len() {
                        assert(s[spec_idx].priority < mock.priority);
                        if j - 1 > spec_idx {
                            assert(s[spec_idx].priority >= s[j - 1].priority);
                        }
                    }
                }
            }
        }
    }

    /// Find the first eligible mock that matches the request and let it
    /// answer; record the request first, whether or not anything matches.
    pub fn find_response(&mut self, request: &SoapRequest, elapsed_millis: u64) -> (r: Option<
        ResponseOutcome,
    >)
        requires
            old(self).wf(),
        ensures
            final(self).wf(),
            final(self).spec_received() == old(self).spec_received().push(
                spec_record_of(*request, elapsed_millis),
            ),
            final(self).spec_received_ssdp() == old(self).spec_received_ssdp(),
            ({
                let i = first_match(old(self).spec_mocks(), *request);
                if i == -1 {
                    r is None && final(self).spec_mocks() == old(self).spec_mocks()
                } else {
                    &&& r matches Some(resp) && resp@ == spec_respond(
                        old(self).spec_mocks()[i].responder,
                        *request,
                    )
                    &&& final(self).spec_mocks() == old(self).spec_mocks().update(
                        i,
                        spec_bump(old(self).spec_mocks()[i]),
                    )
                }
            }),
    {
        let record = ReceivedRequest::from_soap_request(request, elapsed_millis);
        self.received_requests.push(record);
        let ghost s = self.mocks@;
        proof {
            lemma_first_match(s, *request);
        }
        let n = self.mocks.len();
        let mut i: usize = 0;
        while i < n
            invariant
                old(self).wf(),
                n == s.len(),
                i <= n,
                self.mocks@ == s,
                s == old(self).spec_mocks(),
                self.received_requests@ == old(self).spec_received().push(
                    spec_record_of(*request, elapsed_millis),
                ),
                self.received_ssdp_requests@ == old(self).spec_received_ssdp(),
                forall|j: int| 0 <= j < i ==> !spec_mock_matches(s[j], *request),
            decreases n - i,
        {
            if self.mocks[i].matches(request) {
                proof {
                    lemma_first_match(s, *request);
                    assert(first_match(s, *request) == i);
                }
                let resp = self.mocks[i].respond(request);
                return Some(resp);
            }
            i = i + 1;
        }
        proof {
            lemma_first_match(s, *request);
            assert(first_match(s, *request) == -1);
        }
        None
    }

    /// Get a copy of all received protocol requests, in arrival order.
    pub fn received_requests(&self) -> (r: Vec<ReceivedRequest>)
        ensures
            r@ == self.spec_received(),
    {
        let r = self.received_requests.clone();
        proof {
            assert(r@ =~= self.received_requests@);
        }
        r
    }

    /// Get a copy of all received discovery probes, in arrival order.
    pub fn received_ssdp_requests(&self) -> (r: Vec<ReceivedSsdpRequest>)
        ensures
            r@ == self.spec_received_ssdp(),
    {
        let r = self.received_ssdp_requests.clone();
        proof {
            assert(r@ =~= self.received_ssdp_requests@);
        }
        r
    }

    /// Record a received discovery probe.
    pub fn record_ssdp_request(&mut self, record: ReceivedSsdpRequest)
        requires
            old(self).wf(),
        ensures
            final(self).wf(),
            final(self).spec_received_ssdp() == old(self).spec_received_ssdp().push(record),
            final(self).spec_mocks() == old(self).spec_mocks(),
            final(self).spec_received() == old(self).spec_received(),
    {
        self.received_ssdp_requests.push(record);
    }

    /// Clear all registered mocks.  Both logs are left untouched.
    pub fn clear(&mut self)
        ensures
            final(self).wf(),
            final(self).spec_mocks() == Seq::<Mock>::empty(),
            final(self).spec_received() == old(self).spec_received(),
            final(self).spec_received_ssdp() == old(self).spec_received_ssdp(),
    {
        self.mocks.clear();
        proof {
            assert(self.spec_mocks() =~= Seq::<Mock>::empty());
        }
    }

    /// Clear all received protocol requests.  The mock list and the
    /// discovery log are left untouched.
    pub fn clear_received_requests(&mut self)
        requires
            old(self).wf(),
        ensures
            final(self).wf(),
            final(self).spec_received() == Seq::<ReceivedRequest>::empty(),
            final(self).spec_mocks() == old(self).spec_mocks(),
            final(self).spec_received_ssdp() == old(self).spec_received_ssdp(),
    {
        self.received_requests.clear();
        proof {
            assert(self.spec_received() =~= Seq::<ReceivedRequest>::empty());
        }
    }

    /// Clear all received discovery probes.  The mock list and the
    /// protocol-request log are left untouched.
    pub fn clear_received_ssdp_requests(&mut self)
        requires
            old(self).wf(),
        ensures
            final(self).wf(),
            final(self).spec_received_ssdp() == Seq::<ReceivedSsdpRequest>::empty(),
            final(self).spec_mocks() == old(self).spec_mocks(),
            final(self).spec_received() == old(self).spec_received(),
    {
        self.received_ssdp_requests.clear();
        proof {
            assert(self.spec_received_ssdp() =~= Seq::<ReceivedSsdpRequest>::empty());
        }
    }
}

} // verus!
