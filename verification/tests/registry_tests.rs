//! Registry behavior: selection order, priorities, quotas, and the
//! received-request logs.

use mock_igd::{
    parse_soap_request, soap_http_reply, Action, Mock, MockRegistry, Responder, ResponseBody,
    ResponseOutcome, SoapRequest, SoapRequestBody,
};

fn soap_request(action: &str, body: &str) -> SoapRequest {
    let header = format!("\"urn:schemas-upnp-org:service:WANIPConnection:1#{}\"", action);
    parse_soap_request(&header, body).unwrap()
}

fn get_external_ip_request() -> SoapRequest {
    soap_request(
        "GetExternalIPAddress",
        r#"<u:GetExternalIPAddress xmlns:u="urn:schemas-upnp-org:service:WANIPConnection:1">
        </u:GetExternalIPAddress>"#,
    )
}

fn add_port_mapping_request(port: u16, protocol: &str) -> SoapRequest {
    soap_request(
        "AddPortMapping",
        &format!(
            r#"<u:AddPortMapping xmlns:u="urn:schemas-upnp-org:service:WANIPConnection:1">
            <NewRemoteHost></NewRemoteHost>
            <NewExternalPort>{port}</NewExternalPort>
            <NewProtocol>{protocol}</NewProtocol>
            <NewInternalPort>{port}</NewInternalPort>
            <NewInternalClient>192.168.1.100</NewInternalClient>
            <NewEnabled>1</NewEnabled>
            <NewPortMappingDescription>Test</NewPortMappingDescription>
            <NewLeaseDuration>0</NewLeaseDuration>
        </u:AddPortMapping>"#
        ),
    )
}

fn soap_body(outcome: Option<ResponseOutcome>) -> String {
    match outcome {
        Some(ResponseOutcome::Body(ResponseBody::Soap(xml))) => xml,
        other => panic!("expected a rendered SOAP body, got {:?}", other),
    }
}

#[test]
fn test_get_external_ip_address() {
    let mut registry = MockRegistry::new();
    registry.register(Mock::new(
        Action::GetExternalIPAddress,
        Responder::success().with_external_ip("192.0.2.1".to_string()).build(),
    ));
    let body = soap_body(registry.find_response(&get_external_ip_request(), 0));
    assert!(body.contains("<NewExternalIPAddress>192.0.2.1</NewExternalIPAddress>"));
}

#[test]
fn address_query_renders_configured_address() {
    let mut registry = MockRegistry::new();
    registry.register(Mock::new(
        Action::GetExternalIPAddress,
        Responder::success().with_external_ip("203.0.113.1".to_string()).build(),
    ));
    let body = soap_body(registry.find_response(&get_external_ip_request(), 0));
    assert!(body.contains("203.0.113.1"));
}

#[test]
fn test_get_status_info() {
    let mut registry = MockRegistry::new();
    registry.register(Mock::new(
        Action::GetStatusInfo,
        Responder::success()
            .with_connection_status("Connected".to_string())
            .with_last_connection_error("ERROR_NONE".to_string())
            .with_uptime(86400)
            .build(),
    ));
    let request = soap_request(
        "GetStatusInfo",
        r#"<u:GetStatusInfo xmlns:u="urn:schemas-upnp-org:service:WANIPConnection:1">
        </u:GetStatusInfo>"#,
    );
    let body = soap_body(registry.find_response(&request, 0));
    assert!(body.contains("<NewConnectionStatus>Connected</NewConnectionStatus>"));
    assert!(body.contains("<NewLastConnectionError>ERROR_NONE</NewLastConnectionError>"));
    assert!(body.contains("<NewUptime>86400</NewUptime>"));
}

#[test]
fn test_get_external_ip_address_error() {
    let mut registry = MockRegistry::new();
    registry.register(Mock::new(
        Action::GetExternalIPAddress,
        Responder::error(501, "ActionFailed"),
    ));
    let outcome = registry.find_response(&get_external_ip_request(), 0);
    let body = match &outcome {
        Some(ResponseOutcome::Body(b)) => b.clone(),
        other => panic!("expected a body, got {:?}", other),
    };
    let (status, _content_type, text) = soap_http_reply(Some(body));
    assert_eq!(status, 500);
    assert!(text.contains("<errorCode>501</errorCode>"));
    assert!(text.contains("<errorDescription>ActionFailed</errorDescription>"));
}

#[test]
fn test_add_port_mapping_success() {
    let mut registry = MockRegistry::new();
    registry.register(Mock::new(
        Action::add_port_mapping()
            .with_external_port(8080)
            .with_protocol(mock_igd::Protocol::TCP)
            .build(),
        Responder::success().build(),
    ));
    let body = soap_body(registry.find_response(&add_port_mapping_request(8080, "TCP"), 0));
    assert!(body.contains("AddPortMappingResponse"));
}

#[test]
fn test_add_port_mapping_conflict_error() {
    let mut registry = MockRegistry::new();
    registry.register(Mock::new(
        Action::add_port_mapping().with_external_port(80).build(),
        Responder::error(718, "ConflictInMappingEntry"),
    ));
    // Port 80 hits the configured fault.
    let outcome = registry.find_response(&add_port_mapping_request(80, "TCP"), 0);
    match outcome {
        Some(ResponseOutcome::Body(ResponseBody::SoapFault { code, description })) => {
            assert_eq!(code, 718);
            assert_eq!(description, "ConflictInMappingEntry");
        },
        other => panic!("expected the configured fault, got {:?}", other),
    }
    // Port 81 matches nothing.
    let outcome = registry.find_response(&add_port_mapping_request(81, "TCP"), 1);
    assert!(outcome.is_none());
    let (status, _ct, text) = soap_http_reply(None);
    assert_eq!(status, 500);
    assert!(text.contains("<errorCode>401</errorCode>"));
}

#[test]
fn test_add_port_mapping_match_by_protocol() {
    let mut registry = MockRegistry::new();
    registry.register(Mock::new(
        Action::add_port_mapping()
            .with_external_port(5000)
            .with_protocol(mock_igd::Protocol::TCP)
            .build(),
        Responder::success().build(),
    ));
    registry.register(Mock::new(
        Action::add_port_mapping()
            .with_external_port(5000)
            .with_protocol(mock_igd::Protocol::UDP)
            .build(),
        Responder::error(718, "ConflictInMappingEntry"),
    ));
    let tcp = registry.find_response(&add_port_mapping_request(5000, "TCP"), 0);
    assert!(matches!(
        tcp,
        Some(ResponseOutcome::Body(ResponseBody::Soap(_)))
    ));
    let udp = registry.find_response(&add_port_mapping_request(5000, "UDP"), 1);
    match udp {
        Some(ResponseOutcome::Body(ResponseBody::SoapFault { code, .. })) => assert_eq!(code, 718),
        other => panic!("expected the configured fault, got {:?}", other),
    }
}

#[test]
fn test_delete_port_mapping_success() {
    let mut registry = MockRegistry::new();
    registry.register(Mock::new(
        Action::delete_port_mapping()
            .with_external_port(8080)
            .with_protocol(mock_igd::Protocol::TCP)
            .build(),
        Responder::success().build(),
    ));
    let request = soap_request(
        "DeletePortMapping",
        r#"<u:DeletePortMapping xmlns:u="urn:schemas-upnp-org:service:WANIPConnection:1">
            <NewRemoteHost></NewRemoteHost>
            <NewExternalPort>8080</NewExternalPort>
            <NewProtocol>TCP</NewProtocol>
        </u:DeletePortMapping>"#,
    );
    let body = soap_body(registry.find_response(&request, 0));
    assert!(body.contains("DeletePortMappingResponse"));
}

#[test]
fn test_delete_port_mapping_not_found() {
    let mut registry = MockRegistry::new();
    registry.register(Mock::new(
        Action::delete_port_mapping().with_external_port(9999).build(),
        Responder::error(714, "NoSuchEntryInArray"),
    ));
    let request = soap_request(
        "DeletePortMapping",
        r#"<u:DeletePortMapping xmlns:u="urn:schemas-upnp-org:service:WANIPConnection:1">
            <NewRemoteHost></NewRemoteHost>
            <NewExternalPort>9999</NewExternalPort>
            <NewProtocol>TCP</NewProtocol>
        </u:DeletePortMapping>"#,
    );
    match registry.find_response(&request, 0) {
        Some(ResponseOutcome::Body(ResponseBody::SoapFault { code, description })) => {
            assert_eq!(code, 714);
            assert_eq!(description, "NoSuchEntryInArray");
        },
        other => panic!("expected the configured fault, got {:?}", other),
    }
}

#[test]
fn test_mock_priority() {
    let mut registry = MockRegistry::new();
    // Lower priority - catch-all error, registered first.
    registry.register(Mock::new(
        Action::GetExternalIPAddress,
        Responder::error(501, "DefaultError"),
    ));
    // Higher priority - specific success.
    registry.register(
        Mock::new(
            Action::GetExternalIPAddress,
            Responder::success().with_external_ip("10.0.0.1".to_string()).build(),
        )
        .with_priority(10),
    );
    let body = soap_body(registry.find_response(&get_external_ip_request(), 0));
    assert!(body.contains("<NewExternalIPAddress>10.0.0.1</NewExternalIPAddress>"));
}

#[test]
fn test_mock_times_limit() {
    let mut registry = MockRegistry::new();
    registry.register(
        Mock::new(
            Action::GetExternalIPAddress,
            Responder::success().with_external_ip("1.1.1.1".to_string()).build(),
        )
        .times(1),
    );
    registry.register(Mock::new(
        Action::GetExternalIPAddress,
        Responder::success().with_external_ip("2.2.2.2".to_string()).build(),
    ));
    let first = soap_body(registry.find_response(&get_external_ip_request(), 0));
    assert!(first.contains("1.1.1.1"));
    let second = soap_body(registry.find_response(&get_external_ip_request(), 1));
    assert!(second.contains("2.2.2.2"));
    let third = soap_body(registry.find_response(&get_external_ip_request(), 2));
    assert!(third.contains("2.2.2.2"));
}

#[test]
fn test_any_action_matcher() {
    let mut registry = MockRegistry::new();
    registry.register(Mock::new(
        Action::any(),
        Responder::error(501, "ActionNotImplemented"),
    ));
    match registry.find_response(&get_external_ip_request(), 0) {
        Some(ResponseOutcome::Body(ResponseBody::SoapFault { code, description })) => {
            assert_eq!(code, 501);
            assert_eq!(description, "ActionNotImplemented");
        },
        other => panic!("expected the configured fault, got {:?}", other),
    }
}

#[test]
fn equal_priority_mocks_answer_in_registration_order() {
    let mut registry = MockRegistry::new();
    registry.register(Mock::new(
        Action::GetExternalIPAddress,
        Responder::success().with_external_ip("10.0.0.1".to_string()).build(),
    ));
    registry.register(Mock::new(
        Action::GetExternalIPAddress,
        Responder::success().with_external_ip("10.0.0.2".to_string()).build(),
    ));
    // Registering unrelated mocks at other priorities must not disturb the
    // order of the two equal-priority mocks.
    registry.register(Mock::new(Action::GetStatusInfo, Responder::error(501, "X")).with_priority(7));
    registry.register(Mock::new(Action::GetTotalBytesSent, Responder::error(501, "X")));
    let body = soap_body(registry.find_response(&get_external_ip_request(), 0));
    assert!(body.contains("10.0.0.1"));
}

#[test]
fn quota_answers_at_most_n_times() {
    let mut registry = MockRegistry::new();
    registry.register(
        Mock::new(
            Action::GetExternalIPAddress,
            Responder::success().with_external_ip("1.1.1.1".to_string()).build(),
        )
        .times(2),
    );
    registry.register(Mock::new(
        Action::GetExternalIPAddress,
        Responder::success().with_external_ip("2.2.2.2".to_string()).build(),
    ));
    assert!(soap_body(registry.find_response(&get_external_ip_request(), 0)).contains("1.1.1.1"));
    assert!(soap_body(registry.find_response(&get_external_ip_request(), 1)).contains("1.1.1.1"));
    assert!(soap_body(registry.find_response(&get_external_ip_request(), 2)).contains("2.2.2.2"));
}

#[test]
fn test_received_requests() {
    let mut registry = MockRegistry::new();
    registry.register(Mock::new(
        Action::GetExternalIPAddress,
        Responder::success().with_external_ip("192.0.2.1".to_string()).build(),
    ));
    assert!(registry.received_requests().is_empty());
    let _ = registry.find_response(&get_external_ip_request(), 12);
    let requests = registry.received_requests();
    assert_eq!(requests.len(), 1);
    assert_eq!(requests[0].action_name, "GetExternalIPAddress");
    assert_eq!(requests[0].timestamp_millis, 12);
}

#[test]
fn test_received_requests_multiple() {
    let mut registry = MockRegistry::new();
    registry.register(Mock::new(Action::any(), Responder::success().build()));
    let _ = registry.find_response(&get_external_ip_request(), 0);
    let _ = registry.find_response(&add_port_mapping_request(8080, "TCP"), 1);
    let requests = registry.received_requests();
    assert_eq!(requests.len(), 2);
    assert_eq!(requests[0].action_name, "GetExternalIPAddress");
    assert_eq!(requests[1].action_name, "AddPortMapping");
    if let SoapRequestBody::AddPortMapping(ref req) = requests[1].body {
        assert_eq!(req.external_port, 8080);
        assert_eq!(req.protocol, "TCP");
        assert_eq!(req.internal_client, "192.168.1.100");
    } else {
        panic!("Expected AddPortMapping request body");
    }
}

#[test]
fn test_clear_received_requests() {
    let mut registry = MockRegistry::new();
    registry.register(Mock::new(Action::any(), Responder::success().build()));
    let _ = registry.find_response(&get_external_ip_request(), 0);
    assert_eq!(registry.received_requests().len(), 1);
    registry.clear_received_requests();
    assert!(registry.received_requests().is_empty());
    let request = soap_request(
        "DeletePortMapping",
        r#"<u:DeletePortMapping xmlns:u="urn:schemas-upnp-org:service:WANIPConnection:1">
            <NewRemoteHost></NewRemoteHost>
            <NewExternalPort>8080</NewExternalPort>
            <NewProtocol>TCP</NewProtocol>
        </u:DeletePortMapping>"#,
    );
    let _ = registry.find_response(&request, 1);
    let requests = registry.received_requests();
    assert_eq!(requests.len(), 1);
    assert_eq!(requests[0].action_name, "DeletePortMapping");
}

#[test]
fn every_dispatch_logs_exactly_one_record() {
    let mut registry = MockRegistry::new();
    // No mock matches, yet each dispatch appends exactly one record.
    let _ = registry.find_response(&get_external_ip_request(), 0);
    assert_eq!(registry.received_requests().len(), 1);
    registry.register(Mock::new(Action::any(), Responder::success().build()));
    let _ = registry.find_response(&get_external_ip_request(), 1);
    assert_eq!(registry.received_requests().len(), 2);
}

#[test]
fn clear_mocks_leaves_logs_untouched() {
    let mut registry = MockRegistry::new();
    registry.register(Mock::new(Action::any(), Responder::success().build()));
    let _ = registry.find_response(&get_external_ip_request(), 0);
    let probe = mock_igd::parse_ssdp_request(
        "M-SEARCH * HTTP/1.1\r\nST: ssdp:all\r\n\r\n",
        "192.0.2.7:1900".to_string(),
        0,
    );
    registry.record_ssdp_request(probe);
    registry.clear();
    // Both logs survive; only the mock list is gone.
    assert_eq!(registry.received_requests().len(), 1);
    assert_eq!(registry.received_ssdp_requests().len(), 1);
    assert!(registry.find_response(&get_external_ip_request(), 1).is_none());
}

#[test]
fn clear_received_requests_leaves_mocks_and_discovery_log() {
    let mut registry = MockRegistry::new();
    registry.register(Mock::new(Action::any(), Responder::success().build()));
    let probe = mock_igd::parse_ssdp_request(
        "M-SEARCH * HTTP/1.1\r\nST: ssdp:all\r\n\r\n",
        "192.0.2.7:1900".to_string(),
        0,
    );
    registry.record_ssdp_request(probe);
    let _ = registry.find_response(&get_external_ip_request(), 0);
    registry.clear_received_requests();
    assert!(registry.received_requests().is_empty());
    assert_eq!(registry.received_ssdp_requests().len(), 1);
    // The mock list is untouched: the wildcard still answers.
    assert!(registry.find_response(&get_external_ip_request(), 1).is_some());
}

#[test]
fn scenario_wildcard_fault_logs_three_names_in_order() {
    let mut registry = MockRegistry::new();
    registry.register(Mock::new(Action::any(), Responder::error(501, "ActionFailed")));
    let requests = [
        get_external_ip_request(),
        add_port_mapping_request(80, "TCP"),
        soap_request(
            "GetTotalBytesSent",
            r#"<u:GetTotalBytesSent xmlns:u="urn:schemas-upnp-org:service:WANCommonInterfaceConfig:1"></u:GetTotalBytesSent>"#,
        ),
    ];
    for (i, r) in requests.iter().enumerate() {
        match registry.find_response(r, i as u64) {
            Some(ResponseOutcome::Body(ResponseBody::SoapFault { code, .. })) => {
                assert_eq!(code, 501)
            },
            other => panic!("expected the configured fault, got {:?}", other),
        }
    }
    let log = registry.received_requests();
    assert_eq!(log.len(), 3);
    assert_eq!(log[0].action_name, "GetExternalIPAddress");
    assert_eq!(log[1].action_name, "AddPortMapping");
    assert_eq!(log[2].action_name, "GetTotalBytesSent");
}

#[test]
fn custom_responder_yields_its_handle() {
    let mut registry = MockRegistry::new();
    registry.register(Mock::new(Action::any(), Responder::custom(42)));
    match registry.find_response(&get_external_ip_request(), 0) {
        Some(ResponseOutcome::Custom { handle }) => assert_eq!(handle, 42),
        other => panic!("expected the custom handle, got {:?}", other),
    }
}
