//! Matching behavior: wildcards, unconstrained criteria, and per-field
//! constraints.

use mock_igd::{
    matches_add_port_mapping, matches_delete_port_mapping, matches_get_generic_port_mapping_entry,
    matches_get_specific_port_mapping_entry, Action, AddPortMappingRequest,
    DeletePortMappingRequest, GetGenericPortMappingEntryRequest, GetSpecificPortMappingEntryRequest,
    Matcher, Protocol, SoapRequest, SoapRequestBody,
};

fn request(action_name: &str, body: SoapRequestBody) -> SoapRequest {
    SoapRequest {
        action_name: action_name.to_string(),
        service_type: "urn:schemas-upnp-org:service:WANIPConnection:1".to_string(),
        body,
    }
}

fn add_port_mapping_request() -> AddPortMappingRequest {
    AddPortMappingRequest {
        remote_host: String::new(),
        external_port: 8080,
        protocol: "TCP".to_string(),
        internal_port: 8080,
        internal_client: "192.168.1.100".to_string(),
        enabled: true,
        description: "Web server".to_string(),
        lease_duration: 0,
    }
}

#[test]
fn wildcard_matches_every_kind() {
    let requests = vec![
        request("GetExternalIPAddress", SoapRequestBody::GetExternalIPAddress),
        request("GetStatusInfo", SoapRequestBody::GetStatusInfo),
        request(
            "AddPortMapping",
            SoapRequestBody::AddPortMapping(add_port_mapping_request()),
        ),
        request("GetCommonLinkProperties", SoapRequestBody::GetCommonLinkProperties),
        request("GetTotalBytesReceived", SoapRequestBody::GetTotalBytesReceived),
        request("GetTotalBytesSent", SoapRequestBody::GetTotalBytesSent),
        request("FooBar", SoapRequestBody::Unknown("FooBar".to_string())),
    ];
    for r in &requests {
        assert!(Action::any().matches(r));
    }
}

#[test]
fn unconstrained_criteria_match_own_kind_only() {
    let add = request(
        "AddPortMapping",
        SoapRequestBody::AddPortMapping(add_port_mapping_request()),
    );
    let del = request(
        "DeletePortMapping",
        SoapRequestBody::DeletePortMapping(DeletePortMappingRequest {
            remote_host: String::new(),
            external_port: 8080,
            protocol: "TCP".to_string(),
        }),
    );
    assert!(Action::add_port_mapping().build().matches(&add));
    assert!(!Action::add_port_mapping().build().matches(&del));
    assert!(Action::delete_port_mapping().build().matches(&del));
    assert!(!Action::delete_port_mapping().build().matches(&add));
    let generic = request(
        "GetGenericPortMappingEntry",
        SoapRequestBody::GetGenericPortMappingEntry(GetGenericPortMappingEntryRequest { index: 3 }),
    );
    assert!(Action::get_generic_port_mapping_entry().build().matches(&generic));
    assert!(!Action::get_generic_port_mapping_entry().build().matches(&add));
    let specific = request(
        "GetSpecificPortMappingEntry",
        SoapRequestBody::GetSpecificPortMappingEntry(GetSpecificPortMappingEntryRequest {
            remote_host: String::new(),
            external_port: 8080,
            protocol: "UDP".to_string(),
        }),
    );
    assert!(Action::get_specific_port_mapping_entry().build().matches(&specific));
    assert!(!Action::get_specific_port_mapping_entry().build().matches(&del));
}

#[test]
fn nullary_actions_match_their_body_kind() {
    let ip = request("GetExternalIPAddress", SoapRequestBody::GetExternalIPAddress);
    let status = request("GetStatusInfo", SoapRequestBody::GetStatusInfo);
    assert!(Action::GetExternalIPAddress.matches(&ip));
    assert!(!Action::GetExternalIPAddress.matches(&status));
    assert!(Action::GetStatusInfo.matches(&status));
    assert!(!Action::GetStatusInfo.matches(&ip));
}

#[test]
fn add_port_mapping_field_constraints() {
    let req = add_port_mapping_request();
    let ok = Action::add_port_mapping()
        .with_external_port(8080)
        .with_protocol(Protocol::TCP)
        .with_internal_port(8080)
        .with_internal_client("192.168.1.100".to_string())
        .with_description("Web".to_string());
    assert!(matches_add_port_mapping(&ok.params, &req));

    let wrong_port = Action::add_port_mapping().with_external_port(8081);
    assert!(!matches_add_port_mapping(&wrong_port.params, &req));

    let wrong_protocol = Action::add_port_mapping().with_protocol(Protocol::UDP);
    assert!(!matches_add_port_mapping(&wrong_protocol.params, &req));

    let wrong_client = Action::add_port_mapping().with_internal_client("10.0.0.1".to_string());
    assert!(!matches_add_port_mapping(&wrong_client.params, &req));

    // The description constraint is substring containment, case-sensitive.
    let contained = Action::add_port_mapping().with_description("server".to_string());
    assert!(matches_add_port_mapping(&contained.params, &req));
    let wrong_case = Action::add_port_mapping().with_description("web".to_string());
    assert!(!matches_add_port_mapping(&wrong_case.params, &req));
}

#[test]
fn protocol_comparison_is_case_insensitive() {
    let mut req = add_port_mapping_request();
    req.protocol = "tcp".to_string();
    let tcp = Action::add_port_mapping().with_protocol(Protocol::TCP);
    assert!(matches_add_port_mapping(&tcp.params, &req));
    let udp = Action::add_port_mapping().with_protocol(Protocol::UDP);
    assert!(!matches_add_port_mapping(&udp.params, &req));

    let del = DeletePortMappingRequest {
        remote_host: String::new(),
        external_port: 22,
        protocol: "Udp".to_string(),
    };
    let del_udp = Action::delete_port_mapping().with_protocol(Protocol::UDP);
    assert!(matches_delete_port_mapping(&del_udp.params, &del));
}

#[test]
fn get_entry_constraints() {
    let generic = GetGenericPortMappingEntryRequest { index: 5 };
    let right = Action::get_generic_port_mapping_entry().with_index(5);
    let wrong = Action::get_generic_port_mapping_entry().with_index(6);
    assert!(matches_get_generic_port_mapping_entry(&right.params, &generic));
    assert!(!matches_get_generic_port_mapping_entry(&wrong.params, &generic));

    let specific = GetSpecificPortMappingEntryRequest {
        remote_host: String::new(),
        external_port: 443,
        protocol: "TCP".to_string(),
    };
    let right = Action::get_specific_port_mapping_entry()
        .with_external_port(443)
        .with_protocol(Protocol::TCP);
    assert!(matches_get_specific_port_mapping_entry(&right.params, &specific));
    let wrong = Action::get_specific_port_mapping_entry().with_external_port(80);
    assert!(!matches_get_specific_port_mapping_entry(&wrong.params, &specific));
}

#[test]
fn protocol_as_str() {
    assert_eq!(Protocol::TCP.as_str(), "TCP");
    assert_eq!(Protocol::UDP.as_str(), "UDP");
}
