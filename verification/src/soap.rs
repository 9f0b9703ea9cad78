//! SOAP request decoding: turning an action header and an XML body into a
//! normalized request, and choosing the HTTP reply for a dispatch outcome.

use vstd::prelude::*;
use vstd::string::*;

use crate::matcher::{
    AddPortMappingRequest, DeletePortMappingRequest, GetGenericPortMappingEntryRequest,
    GetSpecificPortMappingEntryRequest, SoapRequest, SoapRequestBody,
};
use crate::responder::ResponseBody;
use crate::templates::{generate_soap_fault, spec_soap_fault};
use crate::text::{
    dec_val, eq_ci_seq, find_seq, find_sub, is_valid_dec, lemma_find_seq, parse_dec, str_eq,
    str_eq_ci, strip_plus, subvec, to_chars, trim_quotes_range, trim_quotes_spec,
};

verus! {

// ---------------------------------------------------------------------------
// XML field extraction
// ---------------------------------------------------------------------------

/// The text between the first opening tag named `tag` (everything from
/// `<tag` to the next `>`) and the next matching closing tag, if both are
/// present.
pub open spec fn spec_extract_xml_value(body: Seq<char>, tag: Seq<char>) -> Option<Seq<char>> {
    let start_tag = seq!['<'] + tag;
    let end_tag = seq!['<', '/'] + tag + seq!['>'];
    let start = find_seq(body, start_tag);
    if start < 0 {
        None
    } else {
        let after = body.subrange(start, body.len() as int);
        let tag_end = find_seq(after, seq!['>']);
        if tag_end < 0 {
            None
        } else {
            let content_start = start + tag_end + 1;
            let rest = body.subrange(content_start, body.len() as int);
            let e = find_seq(rest, end_tag);
            if e < 0 {
                None
            } else {
                Some(body.subrange(content_start, content_start + e))
            }
        }
    }
}

/// Extract a value from XML by tag name (simple implementation).
pub fn extract_xml_value(body: &str, tag: &str) -> (r: Option<String>)
    ensures
        match r {
            Some(s) => spec_extract_xml_value(body@, tag@) == Some(s@),
            None => spec_extract_xml_value(body@, tag@) is None,
        },
{
    let chars = to_chars(body);
    let mut start_tag: Vec<char> = Vec::new();
    start_tag.push('<');
    let mut tag_chars = to_chars(tag);
    start_tag.append(&mut tag_chars);
    proof {
        assert(start_tag@ =~= seq!['<'] + tag@);
    }
    let mut end_tag: Vec<char> = Vec::new();
    end_tag.push('<');
    end_tag.push('/');
    let mut tag_chars2 = to_chars(tag);
    end_tag.append(&mut tag_chars2);
    end_tag.push('>');
    proof {
        assert(end_tag@ =~= seq!['<', '/'] + tag@ + seq!['>']);
    }
    let start = match find_sub(&chars, &start_tag) {
        Some(i) => i,
        None => {
            return None;
        },
    };
    proof {
        lemma_find_seq(chars@, start_tag@);
    }
    let after = subvec(&chars, start, chars.len());
    let gt: Vec<char> = vec!['>'];
    proof {
        assert(gt@ =~= seq!['>']);
    }
    let tag_end = match find_sub(&after, &gt) {
        Some(i) => i,
        None => {
            return None;
        },
    };
    proof {
        lemma_find_seq(after@, gt@);
    }
    let content_start = start + tag_end + 1;
    let rest = subvec(&chars, content_start, chars.len());
    let e = match find_sub(&rest, &end_tag) {
        Some(i) => i,
        None => {
            return None;
        },
    };
    proof {
        lemma_find_seq(rest@, end_tag@);
    }
    Some(body.substring_char(content_start, content_start + e).to_owned())
}

// ---------------------------------------------------------------------------
// Field readings with protocol defaults
// ---------------------------------------------------------------------------

/// The extracted field text, or empty when the tag is absent.
pub open spec fn xml_text(body: Seq<char>, tag: Seq<char>) -> Seq<char> {
    match spec_extract_xml_value(body, tag) {
        Some(v) => v,
        None => Seq::empty(),
    }
}

/// The extracted field text, or `default` when the tag is absent.
pub open spec fn xml_text_or(body: Seq<char>, tag: Seq<char>, default: Seq<char>) -> Seq<char> {
    match spec_extract_xml_value(body, tag) {
        Some(v) => v,
        None => default,
    }
}

/// The field text read as a number, or zero when it is absent, malformed,
/// or out of range.
pub open spec fn spec_u16_or_zero(v: Seq<char>) -> u16 {
    if is_valid_dec(v) && dec_val(strip_plus(v)) <= u16::MAX {
        dec_val(strip_plus(v)) as u16
    } else {
        0
    }
}

pub open spec fn spec_u32_or_zero(v: Seq<char>) -> u32 {
    if is_valid_dec(v) && dec_val(strip_plus(v)) <= u32::MAX {
        dec_val(strip_plus(v)) as u32
    } else {
        0
    }
}

pub open spec fn xml_u16(body: Seq<char>, tag: Seq<char>) -> u16 {
    match spec_extract_xml_value(body, tag) {
        Some(v) => spec_u16_or_zero(v),
        None => 0,
    }
}

pub open spec fn xml_u32(body: Seq<char>, tag: Seq<char>) -> u32 {
    match spec_extract_xml_value(body, tag) {
        Some(v) => spec_u32_or_zero(v),
        None => 0,
    }
}

/// The enabled flag: `1` or a case-insensitive `true`; enabled when absent.
pub open spec fn xml_enabled(body: Seq<char>, tag: Seq<char>) -> bool {
    match spec_extract_xml_value(body, tag) {
        Some(v) => v == "1"@ || eq_ci_seq(v, "true"@),
        None => true,
    }
}

fn string_or_empty(v: Option<String>) -> (r: String)
    ensures
        r@ == (match v {
            Some(s) => s@,
            None => Seq::<char>::empty(),
        }),
{
    match v {
        Some(s) => s,
        None => String::new(),
    }
}

fn u16_or_zero(s: &String) -> (r: u16)
    ensures
        r == spec_u16_or_zero(s@),
{
    let chars = to_chars(s.as_str());
    proof {
        assert(chars@.subrange(0, chars@.len() as int) =~= s@);
        if is_valid_dec(s@) {
            crate::text::lemma_dec_val_nonneg(strip_plus(s@));
        }
    }
    match parse_dec(&chars, 0, chars.len(), 65535) {
        Some(x) => x as u16,
        None => 0,
    }
}

fn u32_or_zero(s: &String) -> (r: u32)
    ensures
        r == spec_u32_or_zero(s@),
{
    let chars = to_chars(s.as_str());
    proof {
        assert(chars@.subrange(0, chars@.len() as int) =~= s@);
        if is_valid_dec(s@) {
            crate::text::lemma_dec_val_nonneg(strip_plus(s@));
        }
    }
    match parse_dec(&chars, 0, chars.len(), u32::MAX) {
        Some(x) => x,
        None => 0,
    }
}

// ---------------------------------------------------------------------------
// Per-action body parsers
// ---------------------------------------------------------------------------

/// How an AddPortMapping body is read: each field from its tag, with the
/// protocol defaulting to TCP, ports and durations to zero, text to empty,
/// and the enabled flag to true.
pub open spec fn spec_parsed_add_port_mapping(body: Seq<char>, req: AddPortMappingRequest) -> bool {
    &&& req.remote_host@ == xml_text(body, "NewRemoteHost"@)
    &&& req.external_port == xml_u16(body, "NewExternalPort"@)
    &&& req.protocol@ == xml_text_or(body, "NewProtocol"@, "TCP"@)
    &&& req.internal_port == xml_u16(body, "NewInternalPort"@)
    &&& req.internal_client@ == xml_text(body, "NewInternalClient"@)
    &&& req.enabled == xml_enabled(body, "NewEnabled"@)
    &&& req.description@ == xml_text(body, "NewPortMappingDescription"@)
    &&& req.lease_duration == xml_u32(body, "NewLeaseDuration"@)
}

pub fn parse_add_port_mapping(body: &str) -> (r: Result<SoapRequestBody, String>)
    ensures
        r matches Ok(b) && b matches SoapRequestBody::AddPortMapping(req)
            && spec_parsed_add_port_mapping(body@, req),
{
    let remote_host = string_or_empty(extract_xml_value(body, "NewRemoteHost"));
    let external_port = match extract_xml_value(body, "NewExternalPort") {
        Some(s) => u16_or_zero(&s),
        None => 0,
    };
    let protocol = match extract_xml_value(body, "NewProtocol") {
        Some(s) => s,
        None => String::from_str("TCP"),
    };
    let internal_port = match extract_xml_value(body, "NewInternalPort") {
        Some(s) => u16_or_zero(&s),
        None => 0,
    };
    let internal_client = string_or_empty(extract_xml_value(body, "NewInternalClient"));
    let enabled = match extract_xml_value(body, "NewEnabled") {
        Some(s) => str_eq(s.as_str(), "1") || str_eq_ci(s.as_str(), "true"),
        None => true,
    };
    let description = string_or_empty(extract_xml_value(body, "NewPortMappingDescription"));
    let lease_duration = match extract_xml_value(body, "NewLeaseDuration") {
        Some(s) => u32_or_zero(&s),
        None => 0,
    };
    Ok(
        SoapRequestBody::AddPortMapping(
            AddPortMappingRequest {
                remote_host,
                external_port,
                protocol,
                internal_port,
                internal_client,
                enabled,
                description,
                lease_duration,
            },
        ),
    )
}

/// How a DeletePortMapping body is read.
pub open spec fn spec_parsed_delete_port_mapping(
    body: Seq<char>,
    req: DeletePortMappingRequest,
) -> bool {
    &&& req.remote_host@ == xml_text(body, "NewRemoteHost"@)
    &&& req.external_port == xml_u16(body, "NewExternalPort"@)
    &&& req.protocol@ == xml_text_or(body, "NewProtocol"@, "TCP"@)
}

pub fn parse_delete_port_mapping(body: &str) -> (r: Result<SoapRequestBody, String>)
    ensures
        r matches Ok(b) && b matches SoapRequestBody::DeletePortMapping(req)
            && spec_parsed_delete_port_mapping(body@, req),
{
    let remote_host = string_or_empty(extract_xml_value(body, "NewRemoteHost"));
    let external_port = match extract_xml_value(body, "NewExternalPort") {
        Some(s) => u16_or_zero(&s),
        None => 0,
    };
    let protocol = match extract_xml_value(body, "NewProtocol") {
        Some(s) => s,
        None => String::from_str("TCP"),
    };
    Ok(
        SoapRequestBody::DeletePortMapping(
            DeletePortMappingRequest { remote_host, external_port, protocol },
        ),
    )
}

/// How a GetGenericPortMappingEntry body is read.
pub open spec fn spec_parsed_get_generic(
    body: Seq<char>,
    req: GetGenericPortMappingEntryRequest,
) -> bool {
    req.index == xml_u32(body, "NewPortMappingIndex"@)
}

pub fn parse_get_generic_port_mapping_entry(body: &str) -> (r: Result<SoapRequestBody, String>)
    ensures
        r matches Ok(b) && b matches SoapRequestBody::GetGenericPortMappingEntry(req)
            && spec_parsed_get_generic(body@, req),
{
    let index = match extract_xml_value(body, "NewPortMappingIndex") {
        Some(s) => u32_or_zero(&s),
        None => 0,
    };
    Ok(
        SoapRequestBody::GetGenericPortMappingEntry(
            GetGenericPortMappingEntryRequest { index },
        ),
    )
}

/// How a GetSpecificPortMappingEntry body is read.
pub open spec fn spec_parsed_get_specific(
    body: Seq<char>,
    req: GetSpecificPortMappingEntryRequest,
) -> bool {
    &&& req.remote_host@ == xml_text(body, "NewRemoteHost"@)
    &&& req.external_port == xml_u16(body, "NewExternalPort"@)
    &&& req.protocol@ == xml_text_or(body, "NewProtocol"@, "TCP"@)
}

pub fn parse_get_specific_port_mapping_entry(body: &str) -> (r: Result<SoapRequestBody, String>)
    ensures
        r matches Ok(b) && b matches SoapRequestBody::GetSpecificPortMappingEntry(req)
            && spec_parsed_get_specific(body@, req),
{
    let remote_host = string_or_empty(extract_xml_value(body, "NewRemoteHost"));
    let external_port = match extract_xml_value(body, "NewExternalPort") {
        Some(s) => u16_or_zero(&s),
        None => 0,
    };
    let protocol = match extract_xml_value(body, "NewProtocol") {
        Some(s) => s,
        None => String::from_str("TCP"),
    };
    Ok(
        SoapRequestBody::GetSpecificPortMappingEntry(
            GetSpecificPortMappingEntryRequest { remote_host, external_port, protocol },
        ),
    )
}

// ---------------------------------------------------------------------------
// Whole-request parsing
// ---------------------------------------------------------------------------

/// Which body a given action name and body text parse to: nullary actions
/// by name alone, parameterized actions through their field readings, and
/// any other name as the unknown-operation variant carrying that name.
pub open spec fn spec_parsed_body(name: Seq<char>, body: Seq<char>, b: SoapRequestBody) -> bool {
    if name == "GetExternalIPAddress"@ {
        b is GetExternalIPAddress
    } else if name == "GetStatusInfo"@ {
        b is GetStatusInfo
    } else if name == "AddPortMapping"@ {
        b matches SoapRequestBody::AddPortMapping(req) && spec_parsed_add_port_mapping(body, req)
    } else if name == "DeletePortMapping"@ {
        b matches SoapRequestBody::DeletePortMapping(req) && spec_parsed_delete_port_mapping(
            body,
            req,
        )
    } else if name == "GetGenericPortMappingEntry"@ {
        b matches SoapRequestBody::GetGenericPortMappingEntry(req) && spec_parsed_get_generic(
            body,
            req,
        )
    } else if name == "GetSpecificPortMappingEntry"@ {
        b matches SoapRequestBody::GetSpecificPortMappingEntry(req) && spec_parsed_get_specific(
            body,
            req,
        )
    } else if name == "GetCommonLinkProperties"@ {
        b is GetCommonLinkProperties
    } else if name == "GetTotalBytesReceived"@ {
        b is GetTotalBytesReceived
    } else if name == "GetTotalBytesSent"@ {
        b is GetTotalBytesSent
    } else {
        b matches SoapRequestBody::Unknown(u) && u@ == name
    }
}

/// Parse the SOAP body into a structured request.
pub fn parse_soap_body(action_name: &str, body: &str) -> (r: Result<SoapRequestBody, String>)
    ensures
        r matches Ok(b) && spec_parsed_body(action_name@, body@, b),
{
    if str_eq(action_name, "GetExternalIPAddress") {
        Ok(SoapRequestBody::GetExternalIPAddress)
    } else if str_eq(action_name, "GetStatusInfo") {
        Ok(SoapRequestBody::GetStatusInfo)
    } else if str_eq(action_name, "AddPortMapping") {
        parse_add_port_mapping(body)
    } else if str_eq(action_name, "DeletePortMapping") {
        parse_delete_port_mapping(body)
    } else if str_eq(action_name, "GetGenericPortMappingEntry") {
        parse_get_generic_port_mapping_entry(body)
    } else if str_eq(action_name, "GetSpecificPortMappingEntry") {
        parse_get_specific_port_mapping_entry(body)
    } else if str_eq(action_name, "GetCommonLinkProperties") {
        Ok(SoapRequestBody::GetCommonLinkProperties)
    } else if str_eq(action_name, "GetTotalBytesReceived") {
        Ok(SoapRequestBody::GetTotalBytesReceived)
    } else if str_eq(action_name, "GetTotalBytesSent") {
        Ok(SoapRequestBody::GetTotalBytesSent)
    } else {
        Ok(SoapRequestBody::Unknown(action_name.to_owned()))
    }
}

/// The action name carried in a SOAPAction header value: the part after the
/// last `#` of the header with surrounding quotes removed, or all of it
/// when there is no `#`.
pub open spec fn spec_action_name(soap_action: Seq<char>) -> Seq<char> {
    let t = trim_quotes_spec(soap_action);
    match t.index_of_last('#') {
        Some(i) => t.subrange(i + 1, t.len() as int),
        None => t,
    }
}

/// The service type carried in a SOAPAction header value: the part before
/// the first `#`, or all of it when there is no `#`.
pub open spec fn spec_service_type(soap_action: Seq<char>) -> Seq<char> {
    let t = trim_quotes_spec(soap_action);
    match t.index_of_first('#') {
        Some(i) => t.subrange(0, i),
        None => t,
    }
}

/// Parse a SOAP request from the action header and body.
pub fn parse_soap_request(soap_action: &str, body: &str) -> (r: Result<SoapRequest, String>)
    ensures
        r matches Ok(req) && req.action_name@ == spec_action_name(soap_action@)
            && req.service_type@ == spec_service_type(soap_action@) && spec_parsed_body(
            spec_action_name(soap_action@),
            body@,
            req.body,
        ),
{
    let chars = to_chars(soap_action);
    let (lo, hi) = trim_quotes_range(&chars, 0, chars.len());
    let ghost t = trim_quotes_spec(soap_action@);
    proof {
        assert(chars@.subrange(0, chars@.len() as int) =~= soap_action@);
        assert(t == chars@.subrange(lo as int, hi as int));
    }
    // Last '#', for the action name.
    let mut i = hi;
    while i > lo && chars[i - 1] != '#'
        invariant
            lo <= i <= hi <= chars@.len(),
            forall|j: int| i <= j < hi ==> chars@[j] != '#',
        decreases i,
    {
        i = i - 1;
    }
    let action_name: String = if i > lo {
        proof {
            t.index_of_last_ensures('#');
            assert(t[i - 1 - lo] == chars@[i - 1]);
            match t.index_of_last('#') {
                Some(k) => {
                    if k > i - 1 - lo {
                        assert(chars@[lo + k] == t[k]);
                    }
                    if k < i - 1 - lo {
                    }
                    assert(k == i - 1 - lo);
                },
                None => {
                    assert(t[i - 1 - lo] == '#');
                    assert(false);
                },
            }
            assert(t.subrange(i - lo, t.len() as int) =~= soap_action@.subrange(
                i as int,
                hi as int,
            ));
        }
        str_substring_string(soap_action, i, hi)
    } else {
        proof {
            t.index_of_last_ensures('#');
            match t.index_of_last('#') {
                Some(k) => {
                    assert(chars@[lo + k] == t[k]);
                    assert(false);
                },
                None => {},
            }
            assert(t.subrange(0, t.len() as int) =~= t);
            assert(t =~= soap_action@.subrange(lo as int, hi as int));
        }
        str_substring_string(soap_action, lo, hi)
    };
    // First '#', for the service type.
    let mut f = lo;
    while f < hi && chars[f] != '#'
        invariant
            lo <= f <= hi <= chars@.len(),
            forall|j: int| lo <= j < f ==> chars@[j] != '#',
        decreases hi - f,
    {
        f = f + 1;
    }
    let service_type: String = if f < hi {
        proof {
            t.index_of_first_ensures('#');
            assert(t[f - lo] == chars@[f as int]);
            match t.index_of_first('#') {
                Some(k) => {
                    if k < f - lo {
                        assert(chars@[lo + k] == t[k]);
                    }
                    assert(k == f - lo);
                },
                None => {
                    assert(t[f - lo] == '#');
                    assert(false);
                },
            }
            assert(t.subrange(0, f - lo) =~= soap_action@.subrange(lo as int, f as int));
        }
        str_substring_string(soap_action, lo, f)
    } else {
        proof {
            t.index_of_first_ensures('#');
            match t.index_of_first('#') {
                Some(k) => {
                    assert(chars@[lo + k] == t[k]);
                    assert(false);
                },
                None => {},
            }
            assert(t =~= soap_action@.subrange(lo as int, hi as int));
        }
        str_substring_string(soap_action, lo, hi)
    };
    let request_body = match parse_soap_body(action_name.as_str(), body) {
        Ok(b) => b,
        Err(e) => {
            return Err(e);
        },
    };
    Ok(SoapRequest { action_name, service_type, body: request_body })
}

/// An owned copy of the character range `s[from..to]`.
fn str_substring_string(s: &str, from: usize, to: usize) -> (r: String)
    requires
        from <= to <= s@.len(),
    ensures
        r@ == s@.subrange(from as int, to as int),
{
    s.substring_char(from, to).to_owned()
}

// ---------------------------------------------------------------------------
// HTTP replies
// ---------------------------------------------------------------------------

pub const XML_CONTENT_TYPE: &'static str = "text/xml; charset=\"utf-8\"";

/// Generate a SOAP error reply: status, content type, and fault document.
pub fn soap_error_response(code: u16, description: &str) -> (r: (u16, String, String))
    ensures
        r.0 == 500,
        r.1@ == XML_CONTENT_TYPE@,
        r.2@ == spec_soap_fault(code, description@),
{
    (500, String::from_str(XML_CONTENT_TYPE), generate_soap_fault(code, description))
}

/// The HTTP reply for a dispatch outcome: a rendered success document is
/// served as-is with status 200, a configured fault becomes a SOAP fault
/// with status 500, a raw body keeps its own content type, and "no mock
/// matched" becomes the protocol's invalid-action fault.
pub fn soap_http_reply(response: Option<ResponseBody>) -> (r: (u16, String, String))
    ensures
        response matches Some(ResponseBody::Soap(xml)) ==> r.0 == 200 && r.1@ == XML_CONTENT_TYPE@
            && r.2@ == xml@,
        response matches Some(ResponseBody::SoapFault { code, description }) ==> r.0 == 500
            && r.1@ == XML_CONTENT_TYPE@ && r.2@ == spec_soap_fault(code, description@),
        response matches Some(ResponseBody::Raw { content_type, body }) ==> r.0 == 200 && r.1@
            == content_type@ && r.2@ == body@,
        response is None ==> r.0 == 500 && r.1@ == XML_CONTENT_TYPE@ && r.2@ == spec_soap_fault(
            401,
            "Invalid Action"@,
        ),
{
    match response {
        Some(ResponseBody::Soap(xml)) => (200, String::from_str(XML_CONTENT_TYPE), xml),
        Some(ResponseBody::SoapFault { code, description }) => {
            soap_error_response(code, description.as_str())
        },
        Some(ResponseBody::Raw { content_type, body }) => (200, content_type, body),
        None => soap_error_response(401, "Invalid Action"),
    }
}

} // verus!
