//! Response rendering: the success templates with their defaults, the
//! fault document, and the fixed description documents.

use mock_igd::{
    generate_add_port_mapping_response, generate_delete_port_mapping_response,
    generate_device_description, generate_soap_fault, generate_success_response,
    generate_wan_common_ifc_scpd, generate_wan_ip_connection_scpd, Responder,
};

#[test]
fn fault_document_carries_code_and_description() {
    let xml = generate_soap_fault(718, "ConflictInMappingEntry");
    assert!(xml.starts_with("<?xml version=\"1.0\"?>"));
    assert!(xml.contains("<faultcode>s:Client</faultcode>"));
    assert!(xml.contains("<faultstring>UPnPError</faultstring>"));
    assert!(xml.contains("<errorCode>718</errorCode>"));
    assert!(xml.contains("<errorDescription>ConflictInMappingEntry</errorDescription>"));
    assert!(xml.ends_with("</s:Envelope>"));
}

#[test]
fn external_ip_response_renders_supplied_address() {
    let data = Responder::success().with_external_ip("203.0.113.1".to_string());
    let xml = generate_success_response("GetExternalIPAddress", &data.response);
    assert!(xml.contains("<NewExternalIPAddress>203.0.113.1</NewExternalIPAddress>"));
    assert!(xml.contains("<s:Body>"));
    // Omitted address renders as the empty default.
    let xml = generate_success_response("GetExternalIPAddress", &Responder::success().response);
    assert!(xml.contains("<NewExternalIPAddress></NewExternalIPAddress>"));
}

#[test]
fn fixed_responses_for_mapping_changes() {
    assert!(generate_add_port_mapping_response().contains("<u:AddPortMappingResponse"));
    assert!(generate_delete_port_mapping_response().contains("<u:DeletePortMappingResponse"));
}

#[test]
fn port_mapping_entry_defaults() {
    let xml = generate_success_response(
        "GetGenericPortMappingEntry",
        &Responder::success().response,
    );
    assert!(xml.contains("<NewRemoteHost></NewRemoteHost>"));
    assert!(xml.contains("<NewExternalPort>0</NewExternalPort>"));
    assert!(xml.contains("<NewProtocol>TCP</NewProtocol>"));
    assert!(xml.contains("<NewInternalPort>0</NewInternalPort>"));
    assert!(xml.contains("<NewEnabled>1</NewEnabled>"));
    assert!(xml.contains("<NewLeaseDuration>0</NewLeaseDuration>"));
}

#[test]
fn port_mapping_entry_supplied_fields() {
    let data = Responder::success()
        .with_remote_host("example.org".to_string())
        .with_external_port(8080)
        .with_protocol("UDP".to_string())
        .with_internal_port(9090)
        .with_internal_client("192.168.1.9".to_string())
        .with_enabled(false)
        .with_description("Game".to_string())
        .with_lease_duration(3600);
    let xml = generate_success_response("GetSpecificPortMappingEntry", &data.response);
    assert!(xml.contains("<NewRemoteHost>example.org</NewRemoteHost>"));
    assert!(xml.contains("<NewExternalPort>8080</NewExternalPort>"));
    assert!(xml.contains("<NewProtocol>UDP</NewProtocol>"));
    assert!(xml.contains("<NewInternalPort>9090</NewInternalPort>"));
    assert!(xml.contains("<NewInternalClient>192.168.1.9</NewInternalClient>"));
    assert!(xml.contains("<NewEnabled>0</NewEnabled>"));
    assert!(xml.contains("<NewPortMappingDescription>Game</NewPortMappingDescription>"));
    assert!(xml.contains("<NewLeaseDuration>3600</NewLeaseDuration>"));
}

#[test]
fn common_link_properties_defaults() {
    let xml = generate_success_response(
        "GetCommonLinkProperties",
        &Responder::success().response,
    );
    assert!(xml.contains("<NewWANAccessType>Cable</NewWANAccessType>"));
    assert!(xml.contains("<NewLayer1UpstreamMaxBitRate>10000000</NewLayer1UpstreamMaxBitRate>"));
    assert!(
        xml.contains("<NewLayer1DownstreamMaxBitRate>100000000</NewLayer1DownstreamMaxBitRate>")
    );
    assert!(xml.contains("<NewPhysicalLinkStatus>Up</NewPhysicalLinkStatus>"));
}

#[test]
fn byte_counter_responses() {
    let data = Responder::success().with_total_bytes(123456789);
    let xml = generate_success_response("GetTotalBytesReceived", &data.response);
    assert!(xml.contains("<NewTotalBytesReceived>123456789</NewTotalBytesReceived>"));
    let xml = generate_success_response("GetTotalBytesSent", &data.response);
    assert!(xml.contains("<NewTotalBytesSent>123456789</NewTotalBytesSent>"));
    // The default byte count is zero.
    let xml = generate_success_response("GetTotalBytesSent", &Responder::success().response);
    assert!(xml.contains("<NewTotalBytesSent>0</NewTotalBytesSent>"));
}

#[test]
fn status_info_defaults_and_fields() {
    let xml = generate_success_response("GetStatusInfo", &Responder::success().response);
    assert!(xml.contains("<NewConnectionStatus>Connected</NewConnectionStatus>"));
    assert!(xml.contains("<NewLastConnectionError>ERROR_NONE</NewLastConnectionError>"));
    assert!(xml.contains("<NewUptime>0</NewUptime>"));
}

#[test]
fn unrecognized_action_renders_empty_payload() {
    let xml = generate_success_response("FrobnicateMapping", &Responder::success().response);
    assert!(xml.contains(
        "<u:FrobnicateMappingResponse xmlns:u=\"urn:schemas-upnp-org:service:WANIPConnection:1\"></u:FrobnicateMappingResponse>"
    ));
}

#[test]
fn test_device_description() {
    let body = generate_device_description();
    assert!(body.contains("InternetGatewayDevice"));
    assert!(body.contains("WANIPConnection"));
}

#[test]
fn test_wan_ip_connection_scpd() {
    let body = generate_wan_ip_connection_scpd();
    assert!(body.contains("<scpd xmlns=\"urn:schemas-upnp-org:service-1-0\">"));
    assert!(body.contains("<name>GetExternalIPAddress</name>"));
    assert!(body.contains("<name>GetStatusInfo</name>"));
    assert!(body.contains("<name>AddPortMapping</name>"));
    assert!(body.contains("<name>DeletePortMapping</name>"));
    assert!(body.contains("<name>GetGenericPortMappingEntry</name>"));
    assert!(body.contains("<name>GetSpecificPortMappingEntry</name>"));
    assert!(body.contains("<name>ExternalIPAddress</name>"));
    assert!(body.contains("<name>PortMappingProtocol</name>"));
}

#[test]
fn test_wan_common_ifc_scpd() {
    let body = generate_wan_common_ifc_scpd();
    assert!(body.contains("<scpd xmlns=\"urn:schemas-upnp-org:service-1-0\">"));
    assert!(body.contains("<name>GetCommonLinkProperties</name>"));
    assert!(body.contains("<name>GetTotalBytesReceived</name>"));
    assert!(body.contains("<name>GetTotalBytesSent</name>"));
    assert!(body.contains("<name>WANAccessType</name>"));
    assert!(body.contains("<name>PhysicalLinkStatus</name>"));
}

#[test]
fn builder_configuration() {
    let b = mock_igd::MockIgdServerBuilder::new();
    assert_eq!(b.effective_http_port(), 0);
    assert_eq!(b.effective_ssdp_port(), 1900);
    assert!(!b.enable_ssdp);
    let b = b.http_port(8080).ssdp_port(1901);
    assert_eq!(b.effective_http_port(), 8080);
    assert_eq!(b.effective_ssdp_port(), 1901);
    assert!(b.enable_ssdp);
    let b = mock_igd::MockIgdServerBuilder::new().with_ssdp();
    assert!(b.enable_ssdp);
    assert_eq!(b.effective_ssdp_port(), 1900);
}
