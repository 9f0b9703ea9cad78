//! SSDP discovery: recognizing probes, reading headers, recording them,
//! and the discovery response.

use mock_igd::{
    extract_header, generate_msearch_response, is_msearch_request, parse_ssdp_request, Mock,
    MockRegistry,
};

fn msearch(search_target: &str) -> String {
    format!(
        "M-SEARCH * HTTP/1.1\r\n\
         HOST: 239.255.255.250:1900\r\n\
         MAN: \"ssdp:discover\"\r\n\
         MX: 3\r\n\
         ST: {}\r\n\
         \r\n",
        search_target
    )
}

#[test]
fn recognizes_igd_msearch_requests() {
    assert!(is_msearch_request(&msearch("ssdp:all")));
    assert!(is_msearch_request(&msearch("upnp:rootdevice")));
    assert!(is_msearch_request(&msearch(
        "urn:schemas-upnp-org:device:InternetGatewayDevice:1"
    )));
    assert!(is_msearch_request(&msearch(
        "urn:schemas-upnp-org:service:WANIPConnection:1"
    )));
    // Not an M-SEARCH at all.
    assert!(!is_msearch_request("NOTIFY * HTTP/1.1\r\nST: ssdp:all\r\n\r\n"));
    // An M-SEARCH for something this device does not represent.
    assert!(!is_msearch_request(&msearch("urn:schemas-upnp-org:device:MediaServer:1")));
}

#[test]
fn extract_header_reads_values() {
    let req = msearch("ssdp:all");
    assert_eq!(extract_header(&req, "ST"), Some("ssdp:all".to_string()));
    assert_eq!(extract_header(&req, "MX"), Some("3".to_string()));
    // Quotes around the value are stripped.
    assert_eq!(extract_header(&req, "MAN"), Some("ssdp:discover".to_string()));
    assert_eq!(extract_header(&req, "HOST"), Some("239.255.255.250:1900".to_string()));
    assert_eq!(extract_header(&req, "USER-AGENT"), None);
}

#[test]
fn extract_header_is_case_insensitive_and_takes_first() {
    let req = "m-search\r\nst: first\r\nST: second\r\n";
    assert_eq!(extract_header(req, "ST"), Some("first".to_string()));
    assert_eq!(extract_header(req, "st"), Some("first".to_string()));
    // Leading whitespace before the name is trimmed before matching.
    assert_eq!(extract_header("  MX:  7  \r\n", "MX"), Some("7".to_string()));
}

#[test]
fn test_ssdp_request_contains_raw_data() {
    let raw_request = msearch("ssdp:all");
    let record = parse_ssdp_request(&raw_request, "192.0.2.50:40000".to_string(), 100);
    assert!(record.raw.starts_with("M-SEARCH"));
    assert!(record.raw.contains("MAN: \"ssdp:discover\""));
    assert!(record.raw.contains("ST: ssdp:all"));
    assert!(record.raw.contains("MX: 3"));
    assert_eq!(record.search_target, "ssdp:all");
    assert_eq!(record.man, "ssdp:discover");
    assert_eq!(record.mx, Some(3));
    assert_eq!(record.source, "192.0.2.50:40000");
    assert_eq!(record.timestamp_millis, 100);
}

#[test]
fn missing_headers_parse_to_defaults() {
    let record = parse_ssdp_request("M-SEARCH * HTTP/1.1\r\n\r\n", "s".to_string(), 0);
    assert_eq!(record.search_target, "");
    assert_eq!(record.man, "");
    assert_eq!(record.mx, None);
    let record = parse_ssdp_request("M-SEARCH\r\nMX: soon\r\n", "s".to_string(), 0);
    assert_eq!(record.mx, None);
}

#[test]
fn test_received_ssdp_requests() {
    let mut registry = MockRegistry::new();
    assert!(registry.received_ssdp_requests().is_empty());
    let record = parse_ssdp_request(&msearch("ssdp:all"), "192.0.2.50:40000".to_string(), 100);
    registry.record_ssdp_request(record);
    let requests = registry.received_ssdp_requests();
    assert_eq!(requests.len(), 1);
    assert_eq!(requests[0].search_target, "ssdp:all");
    assert_eq!(requests[0].man, "ssdp:discover");
    assert_eq!(requests[0].mx, Some(3));
}

#[test]
fn test_received_ssdp_requests_multiple() {
    let mut registry = MockRegistry::new();
    registry.record_ssdp_request(parse_ssdp_request(
        &msearch("ssdp:all"),
        "192.0.2.50:40000".to_string(),
        50,
    ));
    registry.record_ssdp_request(parse_ssdp_request(
        &msearch("urn:schemas-upnp-org:device:InternetGatewayDevice:1"),
        "192.0.2.50:40001".to_string(),
        100,
    ));
    let requests = registry.received_ssdp_requests();
    assert_eq!(requests.len(), 2);
    assert_eq!(requests[0].search_target, "ssdp:all");
    assert_eq!(
        requests[1].search_target,
        "urn:schemas-upnp-org:device:InternetGatewayDevice:1"
    );
}

#[test]
fn test_clear_received_ssdp_requests() {
    let mut registry = MockRegistry::new();
    registry.register(Mock::new(
        mock_igd::Action::any(),
        mock_igd::Responder::error(501, "X"),
    ));
    registry.record_ssdp_request(parse_ssdp_request(
        &msearch("upnp:rootdevice"),
        "192.0.2.50:40000".to_string(),
        100,
    ));
    assert_eq!(registry.received_ssdp_requests().len(), 1);
    registry.clear_received_ssdp_requests();
    assert!(registry.received_ssdp_requests().is_empty());
    registry.record_ssdp_request(parse_ssdp_request(
        &msearch("urn:schemas-upnp-org:service:WANIPConnection:1"),
        "192.0.2.50:40001".to_string(),
        200,
    ));
    let requests = registry.received_ssdp_requests();
    assert_eq!(requests.len(), 1);
    assert_eq!(
        requests[0].search_target,
        "urn:schemas-upnp-org:service:WANIPConnection:1"
    );
}

#[test]
fn msearch_response_points_at_description() {
    let response = generate_msearch_response("127.0.0.1:5000");
    assert!(response.starts_with("HTTP/1.1 200 OK\r\n"));
    assert!(response.contains("ST: urn:schemas-upnp-org:device:InternetGatewayDevice:1"));
    assert!(response.contains("LOCATION: http://127.0.0.1:5000/rootDesc.xml"));
    assert!(response.ends_with("\r\n\r\n"));
}
