//! SSDP discovery handling: recognizing M-SEARCH probes, extracting their
//! headers, recording them, and rendering the discovery response.

use vstd::prelude::*;
use vstd::string::*;

use crate::mock::ReceivedSsdpRequest;
use crate::text::{
    chars_eq_ci, contains_seq, dec_val, eq_ci_seq, find_seq, is_valid_dec, lemma_dec_val_nonneg,
    lemma_find_char, parse_dec, str_contains, str_starts_with, strip_plus, to_chars,
    trim_quotes_range, trim_quotes_spec, trim_range, trim_spec,
};

verus! {

// ---------------------------------------------------------------------------
// Lines and headers
// ---------------------------------------------------------------------------

/// The text split at every newline.  The final line needs no newline; empty
/// text has no lines.
pub open spec fn split_lines(s: Seq<char>) -> Seq<Seq<char>>
    decreases s.len(),
{
    if s.len() == 0 {
        Seq::empty()
    } else {
        let i = find_seq(s, seq!['\n']);
        if 0 <= i < s.len() {
            seq![s.subrange(0, i)] + split_lines(s.subrange(i + 1, s.len() as int))
        } else {
            seq![s]
        }
    }
}

/// The value a line carries for a header name: when the trimmed line starts,
/// case-insensitively, with the name followed by a colon, the rest of the
/// line with whitespace and surrounding quotes removed.
pub open spec fn header_line_value(line: Seq<char>, header: Seq<char>) -> Option<Seq<char>> {
    let t = trim_spec(line);
    if t.len() > header.len() && eq_ci_seq(t.subrange(0, header.len() as int), header) && t[
        header.len() as int
    ] == ':' {
        Some(trim_quotes_spec(trim_spec(t.subrange(header.len() as int + 1, t.len() as int))))
    } else {
        None
    }
}

/// The value of the first line that carries the header, if any.
pub open spec fn find_header_in_lines(lines: Seq<Seq<char>>, header: Seq<char>) -> Option<
    Seq<char>,
>
    decreases lines.len(),
{
    if lines.len() == 0 {
        None
    } else {
        match header_line_value(lines[0], header) {
            Some(v) => Some(v),
            None => find_header_in_lines(lines.drop_first(), header),
        }
    }
}

/// The value of a header in a request, read off the first line that carries
/// it.
pub open spec fn spec_extract_header(request: Seq<char>, header: Seq<char>) -> Option<Seq<char>> {
    find_header_in_lines(split_lines(request), header)
}

fn extract_header_from(request: &str, v: &Vec<char>, pos: usize, header: &str) -> (r: Option<
    String,
>)
    requires
        v@ == request@,
        pos <= v@.len(),
    ensures
        match r {
            Some(s) => find_header_in_lines(
                split_lines(v@.subrange(pos as int, v@.len() as int)),
                header@,
            ) == Some(s@),
            None => find_header_in_lines(
                split_lines(v@.subrange(pos as int, v@.len() as int)),
                header@,
            ) is None,
        },
    decreases v@.len() - pos,
{
    let n = v.len();
    let ghost sub = v@.subrange(pos as int, n as int);
    if pos == n {
        return None;
    }
    let mut nl = pos;
    while nl < n && v[nl] != '\n'
        invariant
            pos <= nl <= n,
            n == v@.len(),
            forall|j: int| pos <= j < nl ==> v@[j] != '\n',
        decreases n - nl,
    {
        nl = nl + 1;
    }
    proof {
        lemma_find_char(sub, '\n');
        let f = find_seq(sub, seq!['\n']);
        if nl < n {
            assert(sub[nl - pos] == v@[nl as int]);
            if f == -1 {
                assert(sub[nl - pos] != '\n');
                assert(false);
            }
            if f < nl - pos {
                assert(v@[pos + f] == sub[f]);
                assert(false);
            }
            if f > nl - pos {
                assert(sub[nl - pos] != '\n');
                assert(false);
            }
            assert(f == nl - pos);
            assert(sub.subrange(0, f) =~= v@.subrange(pos as int, nl as int));
        } else {
            if f != -1 {
                assert(v@[pos + f] == sub[f]);
                assert(false);
            }
            assert(sub =~= v@.subrange(pos as int, nl as int));
        }
    }
    let ghost line0 = v@.subrange(pos as int, nl as int);
    let (tlo, thi) = trim_range(v, pos, nl);
    let ghost t = trim_spec(line0);
    let hlen = header.unicode_len();
    let matched: bool = if thi - tlo > hlen {
        if chars_eq_ci(v, tlo, tlo + hlen, header) {
            v[tlo + hlen] == ':'
        } else {
            false
        }
    } else {
        false
    };
    proof {
        assert(t == v@.subrange(tlo as int, thi as int));
        if thi - tlo > hlen {
            assert(t.subrange(0, header@.len() as int) =~= v@.subrange(
                tlo as int,
                tlo + hlen as int,
            ));
            assert(t[header@.len() as int] == v@[tlo + hlen]);
        }
        assert(matched == (header_line_value(line0, header@) is Some));
    }
    if matched {
        let (wlo, whi) = trim_range(v, tlo + hlen + 1, thi);
        let (qlo, qhi) = trim_quotes_range(v, wlo, whi);
        let value = request.substring_char(qlo, qhi).to_owned();
        proof {
            assert(t.subrange(header@.len() as int + 1, t.len() as int) =~= v@.subrange(
                tlo + hlen + 1,
                thi as int,
            ));
            assert(header_line_value(line0, header@) == Some(v@.subrange(qlo as int, qhi as int)));
            if nl < n {
                assert(split_lines(sub)[0] == line0);
            } else {
                assert(split_lines(sub)[0] == sub);
                assert(sub == line0);
            }
        }
        return Some(value);
    }
    if nl >= n {
        proof {
            assert(split_lines(sub) =~= seq![sub]);
            assert(split_lines(sub)[0] == sub && sub == line0);
            assert(split_lines(sub).drop_first() =~= Seq::<Seq<char>>::empty());
        }
        return None;
    }
    let r = extract_header_from(request, v, nl + 1, header);
    proof {
        let f = find_seq(sub, seq!['\n']);
        assert(split_lines(sub)[0] == line0);
        assert(sub.subrange(f + 1, sub.len() as int) =~= v@.subrange(nl + 1, n as int));
        assert(split_lines(sub).drop_first() =~= split_lines(v@.subrange(nl + 1, n as int)));
    }
    r
}

/// Extract a header value from an SSDP request.  Header names compare
/// case-insensitively; the value is trimmed and stripped of surrounding
/// quotes.
pub fn extract_header(request: &str, header: &str) -> (r: Option<String>)
    ensures
        match r {
            Some(s) => spec_extract_header(request@, header@) == Some(s@),
            None => spec_extract_header(request@, header@) is None,
        },
{
    let chars = to_chars(request);
    proof {
        assert(chars@.subrange(0, chars@.len() as int) =~= request@);
    }
    extract_header_from(request, &chars, 0, header)
}

// ---------------------------------------------------------------------------
// M-SEARCH probes
// ---------------------------------------------------------------------------

/// A discovery probe this device answers: an M-SEARCH whose text names one
/// of the search targets the device represents.
pub open spec fn spec_is_msearch(s: Seq<char>) -> bool {
    &&& "M-SEARCH"@.len() <= s.len() && s.subrange(0, "M-SEARCH"@.len() as int) == "M-SEARCH"@
    &&& {
        ||| contains_seq(s, "ssdp:all"@)
        ||| contains_seq(s, "upnp:rootdevice"@)
        ||| contains_seq(s, "urn:schemas-upnp-org:device:InternetGatewayDevice"@)
        ||| contains_seq(s, "urn:schemas-upnp-org:service:WANIPConnection"@)
    }
}

/// Check if the request is an M-SEARCH request for an Internet gateway.
pub fn is_msearch_request(request: &str) -> (r: bool)
    ensures
        r == spec_is_msearch(request@),
{
    str_starts_with(request, "M-SEARCH") && (str_contains(request, "ssdp:all") || str_contains(
        request,
        "upnp:rootdevice",
    ) || str_contains(request, "urn:schemas-upnp-org:device:InternetGatewayDevice")
        || str_contains(request, "urn:schemas-upnp-org:service:WANIPConnection"))
}

/// The value of a header, or empty text when the request lacks it.
pub open spec fn header_or_empty(request: Seq<char>, header: Seq<char>) -> Seq<char> {
    match spec_extract_header(request, header) {
        Some(v) => v,
        None => Seq::empty(),
    }
}

/// The MX header read as a number, when present and well formed.
pub open spec fn spec_mx(request: Seq<char>) -> Option<u32> {
    match spec_extract_header(request, "MX"@) {
        Some(v) => if is_valid_dec(v) && dec_val(strip_plus(v)) <= u32::MAX {
            Some(dec_val(strip_plus(v)) as u32)
        } else {
            None
        },
        None => None,
    }
}

fn parse_u32_opt(s: &String) -> (r: Option<u32>)
    ensures
        r == (if is_valid_dec(s@) && dec_val(strip_plus(s@)) <= u32::MAX {
            Some(dec_val(strip_plus(s@)) as u32)
        } else {
            None::<u32>
        }),
{
    let chars = to_chars(s.as_str());
    proof {
        assert(chars@.subrange(0, chars@.len() as int) =~= s@);
        if is_valid_dec(s@) {
            lemma_dec_val_nonneg(strip_plus(s@));
        }
    }
    parse_dec(&chars, 0, chars.len(), u32::MAX)
}

/// Parse an SSDP M-SEARCH request into a structured record.  The source
/// address arrives in its canonical textual form, and the elapsed time is
/// supplied by the transport layer.
pub fn parse_ssdp_request(request: &str, source: String, elapsed_millis: u64) -> (r:
    ReceivedSsdpRequest)
    ensures
        r.source == source,
        r.search_target@ == header_or_empty(request@, "ST"@),
        r.man@ == header_or_empty(request@, "MAN"@),
        r.mx == spec_mx(request@),
        r.raw@ == request@,
        r.timestamp_millis == elapsed_millis,
{
    let search_target = match extract_header(request, "ST") {
        Some(s) => s,
        None => String::new(),
    };
    let man = match extract_header(request, "MAN") {
        Some(s) => s,
        None => String::new(),
    };
    let mx = match extract_header(request, "MX") {
        Some(s) => parse_u32_opt(&s),
        None => None,
    };
    ReceivedSsdpRequest {
        source,
        search_target,
        man,
        mx,
        raw: request.to_owned(),
        timestamp_millis: elapsed_millis,
    }
}

// ---------------------------------------------------------------------------
// The discovery response
// ---------------------------------------------------------------------------

pub const MSEARCH_RESPONSE_HEAD: &'static str =
    "HTTP/1.1 200 OK\r\nCACHE-CONTROL: max-age=1800\r\nST: urn:schemas-upnp-org:device:InternetGatewayDevice:1\r\nUSN: uuid:mock-igd-001::urn:schemas-upnp-org:device:InternetGatewayDevice:1\r\nEXT:\r\nSERVER: mock-igd/0.1 UPnP/1.0\r\nLOCATION: http://";

pub const MSEARCH_RESPONSE_TAIL: &'static str = "/rootDesc.xml\r\n\r\n";

/// The M-SEARCH response: fixed headers plus the device-description URL at
/// the given HTTP address.
pub fn generate_msearch_response(http_addr: &str) -> (r: String)
    ensures
        r@ == MSEARCH_RESPONSE_HEAD@ + http_addr@ + MSEARCH_RESPONSE_TAIL@,
{
    let mut out = String::new();
    out.append(MSEARCH_RESPONSE_HEAD);
    out.append(http_addr);
    out.append(MSEARCH_RESPONSE_TAIL);
    proof {
        assert(out@ =~= MSEARCH_RESPONSE_HEAD@ + http_addr@ + MSEARCH_RESPONSE_TAIL@);
    }
    out
}

} // verus!
