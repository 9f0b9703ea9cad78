//! XML/SOAP response templates: rendering success payloads and protocol
//! faults, with documented defaults for omitted template fields.

use vstd::prelude::*;
use vstd::string::*;

use crate::responder::SuccessResponse;
use crate::text::{dec_digits, push_dec, str_eq};

verus! {

pub const SOAP_ENVELOPE_START: &'static str =
    "<?xml version=\"1.0\"?>\n<s:Envelope xmlns:s=\"http://schemas.xmlsoap.org/soap/envelope/\" s:encodingStyle=\"http://schemas.xmlsoap.org/soap/encoding/\">\n<s:Body>";

pub const SOAP_ENVELOPE_END: &'static str = "</s:Body>\n</s:Envelope>";

pub const FAULT_HEAD: &'static str =
    "<?xml version=\"1.0\"?>\n<s:Envelope xmlns:s=\"http://schemas.xmlsoap.org/soap/envelope/\" s:encodingStyle=\"http://schemas.xmlsoap.org/soap/encoding/\">\n<s:Body>\n<s:Fault>\n<faultcode>s:Client</faultcode>\n<faultstring>UPnPError</faultstring>\n<detail>\n<UPnPError xmlns=\"urn:schemas-upnp-org:control-1-0\">\n<errorCode>";

pub const FAULT_MID: &'static str = "</errorCode>\n<errorDescription>";

pub const FAULT_TAIL: &'static str =
    "</errorDescription>\n</UPnPError>\n</detail>\n</s:Fault>\n</s:Body>\n</s:Envelope>";

/// The SOAP fault document for a numeric error code and its description.
pub open spec fn spec_soap_fault(code: u16, description: Seq<char>) -> Seq<char> {
    FAULT_HEAD@ + dec_digits(code as int) + FAULT_MID@ + description + FAULT_TAIL@
}

/// Generate a SOAP fault response.
pub fn generate_soap_fault(code: u16, description: &str) -> (r: String)
    ensures
        r@ == spec_soap_fault(code, description@),
{
    let mut out = String::new();
    out.append(FAULT_HEAD);
    push_dec(&mut out, code as u64);
    out.append(FAULT_MID);
    out.append(description);
    out.append(FAULT_TAIL);
    proof {
        assert(out@ =~= spec_soap_fault(code, description@));
    }
    out
}

/// The text of an optional field, or its default.
pub open spec fn field_or(v: Option<String>, default: Seq<char>) -> Seq<char> {
    match v {
        Some(s) => s@,
        None => default,
    }
}

/// The decimal text of an optional numeric field, or of its default.
pub open spec fn num_or(v: Option<u32>, default: int) -> Seq<char> {
    match v {
        Some(n) => dec_digits(n as int),
        None => dec_digits(default),
    }
}

fn push_field_or(out: &mut String, v: &Option<String>, default: &str)
    ensures
        final(out)@ == old(out)@ + field_or(*v, default@),
{
    match v {
        Some(s) => out.append(s.as_str()),
        None => out.append(default),
    }
}

fn push_num_or(out: &mut String, v: &Option<u32>, default: u32)
    ensures
        final(out)@ == old(out)@ + num_or(*v, default as int),
{
    match v {
        Some(n) => push_dec(out, *n as u64),
        None => push_dec(out, default as u64),
    }
}

// ---------------------------------------------------------------------------
// Per-action success payloads
// ---------------------------------------------------------------------------

pub open spec fn spec_get_external_ip_response(data: SuccessResponse) -> Seq<char> {
    "<u:GetExternalIPAddressResponse xmlns:u=\"urn:schemas-upnp-org:service:WANIPConnection:1\">\n<NewExternalIPAddress>"@
        + field_or(data.external_ip, ""@) + "</NewExternalIPAddress>\n</u:GetExternalIPAddressResponse>"@
}

fn generate_get_external_ip_response(data: &SuccessResponse) -> (r: String)
    ensures
        r@ == spec_get_external_ip_response(*data),
{
    let mut out = String::new();
    out.append(
        "<u:GetExternalIPAddressResponse xmlns:u=\"urn:schemas-upnp-org:service:WANIPConnection:1\">\n<NewExternalIPAddress>",
    );
    push_field_or(&mut out, &data.external_ip, "");
    out.append("</NewExternalIPAddress>\n</u:GetExternalIPAddressResponse>");
    proof {
        assert(out@ =~= spec_get_external_ip_response(*data));
    }
    out
}

pub open spec fn spec_get_status_info_response(data: SuccessResponse) -> Seq<char> {
    "<u:GetStatusInfoResponse xmlns:u=\"urn:schemas-upnp-org:service:WANIPConnection:1\">\n<NewConnectionStatus>"@
        + field_or(data.connection_status, "Connected"@) + "</NewConnectionStatus>\n<NewLastConnectionError>"@
        + field_or(data.last_connection_error, "ERROR_NONE"@) + "</NewLastConnectionError>\n<NewUptime>"@
        + num_or(data.uptime, 0) + "</NewUptime>\n</u:GetStatusInfoResponse>"@
}

fn generate_get_status_info_response(data: &SuccessResponse) -> (r: String)
    ensures
        r@ == spec_get_status_info_response(*data),
{
    let mut out = String::new();
    out.append(
        "<u:GetStatusInfoResponse xmlns:u=\"urn:schemas-upnp-org:service:WANIPConnection:1\">\n<NewConnectionStatus>",
    );
    push_field_or(&mut out, &data.connection_status, "Connected");
    out.append("</NewConnectionStatus>\n<NewLastConnectionError>");
    push_field_or(&mut out, &data.last_connection_error, "ERROR_NONE");
    out.append("</NewLastConnectionError>\n<NewUptime>");
    push_num_or(&mut out, &data.uptime, 0);
    out.append("</NewUptime>\n</u:GetStatusInfoResponse>");
    proof {
        assert(out@ =~= spec_get_status_info_response(*data));
    }
    out
}

pub open spec fn spec_add_port_mapping_response() -> Seq<char> {
    "<u:AddPortMappingResponse xmlns:u=\"urn:schemas-upnp-org:service:WANIPConnection:1\">\n</u:AddPortMappingResponse>"@
}

pub fn generate_add_port_mapping_response() -> (r: String)
    ensures
        r@ == spec_add_port_mapping_response(),
{
    let mut out = String::new();
    out.append(
        "<u:AddPortMappingResponse xmlns:u=\"urn:schemas-upnp-org:service:WANIPConnection:1\">\n</u:AddPortMappingResponse>",
    );
    proof {
        assert(out@ =~= spec_add_port_mapping_response());
    }
    out
}

pub open spec fn spec_delete_port_mapping_response() -> Seq<char> {
    "<u:DeletePortMappingResponse xmlns:u=\"urn:schemas-upnp-org:service:WANIPConnection:1\">\n</u:DeletePortMappingResponse>"@
}

pub fn generate_delete_port_mapping_response() -> (r: String)
    ensures
        r@ == spec_delete_port_mapping_response(),
{
    let mut out = String::new();
    out.append(
        "<u:DeletePortMappingResponse xmlns:u=\"urn:schemas-upnp-org:service:WANIPConnection:1\">\n</u:DeletePortMappingResponse>",
    );
    proof {
        assert(out@ =~= spec_delete_port_mapping_response());
    }
    out
}

pub open spec fn spec_get_port_mapping_entry_response(data: SuccessResponse) -> Seq<char> {
    "<u:GetGenericPortMappingEntryResponse xmlns:u=\"urn:schemas-upnp-org:service:WANIPConnection:1\">\n<NewRemoteHost>"@
        + field_or(data.remote_host, ""@) + "</NewRemoteHost>\n<NewExternalPort>"@
        + (match data.external_port {
        Some(p) => dec_digits(p as int),
        None => dec_digits(0),
    }) + "</NewExternalPort>\n<NewProtocol>"@ + field_or(data.protocol, "TCP"@)
        + "</NewProtocol>\n<NewInternalPort>"@ + (match data.internal_port {
        Some(p) => dec_digits(p as int),
        None => dec_digits(0),
    }) + "</NewInternalPort>\n<NewInternalClient>"@ + field_or(data.internal_client, ""@)
        + "</NewInternalClient>\n<NewEnabled>"@ + (if data.enabled matches Some(false) {
        "0"@
    } else {
        "1"@
    }) + "</NewEnabled>\n<NewPortMappingDescription>"@ + field_or(data.description, ""@)
        + "</NewPortMappingDescription>\n<NewLeaseDuration>"@ + num_or(data.lease_duration, 0)
        + "</NewLeaseDuration>\n</u:GetGenericPortMappingEntryResponse>"@
}

fn generate_get_port_mapping_entry_response(data: &SuccessResponse) -> (r: String)
    ensures
        r@ == spec_get_port_mapping_entry_response(*data),
{
    let mut out = String::new();
    out.append(
        "<u:GetGenericPortMappingEntryResponse xmlns:u=\"urn:schemas-upnp-org:service:WANIPConnection:1\">\n<NewRemoteHost>",
    );
    push_field_or(&mut out, &data.remote_host, "");
    out.append("</NewRemoteHost>\n<NewExternalPort>");
    match &data.external_port {
        Some(p) => push_dec(&mut out, *p as u64),
        None => push_dec(&mut out, 0),
    }
    out.append("</NewExternalPort>\n<NewProtocol>");
    push_field_or(&mut out, &data.protocol, "TCP");
    out.append("</NewProtocol>\n<NewInternalPort>");
    match &data.internal_port {
        Some(p) => push_dec(&mut out, *p as u64),
        None => push_dec(&mut out, 0),
    }
    out.append("</NewInternalPort>\n<NewInternalClient>");
    push_field_or(&mut out, &data.internal_client, "");
    out.append("</NewInternalClient>\n<NewEnabled>");
    let enabled_text = match &data.enabled {
        Some(false) => "0",
        _ => "1",
    };
    out.append(enabled_text);
    out.append("</NewEnabled>\n<NewPortMappingDescription>");
    push_field_or(&mut out, &data.description, "");
    out.append("</NewPortMappingDescription>\n<NewLeaseDuration>");
    push_num_or(&mut out, &data.lease_duration, 0);
    out.append("</NewLeaseDuration>\n</u:GetGenericPortMappingEntryResponse>");
    proof {
        assert(out@ =~= spec_get_port_mapping_entry_response(*data));
    }
    out
}

pub open spec fn spec_get_common_link_properties_response(data: SuccessResponse) -> Seq<char> {
    "<u:GetCommonLinkPropertiesResponse xmlns:u=\"urn:schemas-upnp-org:service:WANCommonInterfaceConfig:1\">\n<NewWANAccessType>"@
        + field_or(data.wan_access_type, "Cable"@) + "</NewWANAccessType>\n<NewLayer1UpstreamMaxBitRate>"@
        + num_or(data.layer1_upstream_max_bit_rate, 10000000) + "</NewLayer1UpstreamMaxBitRate>\n<NewLayer1DownstreamMaxBitRate>"@
        + num_or(data.layer1_downstream_max_bit_rate, 100000000) + "</NewLayer1DownstreamMaxBitRate>\n<NewPhysicalLinkStatus>"@
        + field_or(data.physical_link_status, "Up"@) + "</NewPhysicalLinkStatus>\n</u:GetCommonLinkPropertiesResponse>"@
}

fn generate_get_common_link_properties_response(data: &SuccessResponse) -> (r: String)
    ensures
        r@ == spec_get_common_link_properties_response(*data),
{
    let mut out = String::new();
    out.append(
        "<u:GetCommonLinkPropertiesResponse xmlns:u=\"urn:schemas-upnp-org:service:WANCommonInterfaceConfig:1\">\n<NewWANAccessType>",
    );
    push_field_or(&mut out, &data.wan_access_type, "Cable");
    out.append("</NewWANAccessType>\n<NewLayer1UpstreamMaxBitRate>");
    push_num_or(&mut out, &data.layer1_upstream_max_bit_rate, 10000000);
    out.append("</NewLayer1UpstreamMaxBitRate>\n<NewLayer1DownstreamMaxBitRate>");
    push_num_or(&mut out, &data.layer1_downstream_max_bit_rate, 100000000);
    out.append("</NewLayer1DownstreamMaxBitRate>\n<NewPhysicalLinkStatus>");
    push_field_or(&mut out, &data.physical_link_status, "Up");
    out.append("</NewPhysicalLinkStatus>\n</u:GetCommonLinkPropertiesResponse>");
    proof {
        assert(out@ =~= spec_get_common_link_properties_response(*data));
    }
    out
}

/// The decimal text of the byte-counter field, or its default of zero.
pub open spec fn total_bytes_text(v: Option<u64>) -> Seq<char> {
    match v {
        Some(n) => dec_digits(n as int),
        None => dec_digits(0),
    }
}

pub open spec fn spec_get_total_bytes_received_response(data: SuccessResponse) -> Seq<char> {
    "<u:GetTotalBytesReceivedResponse xmlns:u=\"urn:schemas-upnp-org:service:WANCommonInterfaceConfig:1\">\n<NewTotalBytesReceived>"@
        + total_bytes_text(data.total_bytes) + "</NewTotalBytesReceived>\n</u:GetTotalBytesReceivedResponse>"@
}

fn generate_get_total_bytes_received_response(data: &SuccessResponse) -> (r: String)
    ensures
        r@ == spec_get_total_bytes_received_response(*data),
{
    let mut out = String::new();
    out.append(
        "<u:GetTotalBytesReceivedResponse xmlns:u=\"urn:schemas-upnp-org:service:WANCommonInterfaceConfig:1\">\n<NewTotalBytesReceived>",
    );
    match &data.total_bytes {
        Some(n) => push_dec(&mut out, *n),
        None => push_dec(&mut out, 0),
    }
    out.append("</NewTotalBytesReceived>\n</u:GetTotalBytesReceivedResponse>");
    proof {
        assert(out@ =~= spec_get_total_bytes_received_response(*data));
    }
    out
}

pub open spec fn spec_get_total_bytes_sent_response(data: SuccessResponse) -> Seq<char> {
    "<u:GetTotalBytesSentResponse xmlns:u=\"urn:schemas-upnp-org:service:WANCommonInterfaceConfig:1\">\n<NewTotalBytesSent>"@
        + total_bytes_text(data.total_bytes) + "</NewTotalBytesSent>\n</u:GetTotalBytesSentResponse>"@
}

fn generate_get_total_bytes_sent_response(data: &SuccessResponse) -> (r: String)
    ensures
        r@ == spec_get_total_bytes_sent_response(*data),
{
    let mut out = String::new();
    out.append(
        "<u:GetTotalBytesSentResponse xmlns:u=\"urn:schemas-upnp-org:service:WANCommonInterfaceConfig:1\">\n<NewTotalBytesSent>",
    );
    match &data.total_bytes {
        Some(n) => push_dec(&mut out, *n),
        None => push_dec(&mut out, 0),
    }
    out.append("</NewTotalBytesSent>\n</u:GetTotalBytesSentResponse>");
    proof {
        assert(out@ =~= spec_get_total_bytes_sent_response(*data));
    }
    out
}

/// An empty, well-formed success payload for an action name the template set
/// does not recognize.
pub open spec fn spec_generic_response(name: Seq<char>) -> Seq<char> {
    "<u:"@ + name + "Response xmlns:u=\"urn:schemas-upnp-org:service:WANIPConnection:1\"></u:"@
        + name + "Response>"@
}

fn generate_generic_response(action_name: &str) -> (r: String)
    ensures
        r@ == spec_generic_response(action_name@),
{
    let mut out = String::new();
    out.append("<u:");
    out.append(action_name);
    out.append("Response xmlns:u=\"urn:schemas-upnp-org:service:WANIPConnection:1\"></u:");
    out.append(action_name);
    out.append("Response>");
    proof {
        assert(out@ =~= spec_generic_response(action_name@));
    }
    out
}

// ---------------------------------------------------------------------------
// Full success documents
// ---------------------------------------------------------------------------

/// The success payload rendered for an action name: the operation-specific
/// template where the name is recognized, and an empty well-formed payload
/// otherwise.
pub open spec fn spec_success_body(name: Seq<char>, data: SuccessResponse) -> Seq<char> {
    if name == "GetExternalIPAddress"@ {
        spec_get_external_ip_response(data)
    } else if name == "GetStatusInfo"@ {
        spec_get_status_info_response(data)
    } else if name == "AddPortMapping"@ {
        spec_add_port_mapping_response()
    } else if name == "DeletePortMapping"@ {
        spec_delete_port_mapping_response()
    } else if name == "GetGenericPortMappingEntry"@ {
        spec_get_port_mapping_entry_response(data)
    } else if name == "GetSpecificPortMappingEntry"@ {
        spec_get_port_mapping_entry_response(data)
    } else if name == "GetCommonLinkProperties"@ {
        spec_get_common_link_properties_response(data)
    } else if name == "GetTotalBytesReceived"@ {
        spec_get_total_bytes_received_response(data)
    } else if name == "GetTotalBytesSent"@ {
        spec_get_total_bytes_sent_response(data)
    } else {
        spec_generic_response(name)
    }
}

/// The full SOAP success document for an action name: the payload wrapped in
/// the SOAP envelope.
pub open spec fn spec_success_response(name: Seq<char>, data: SuccessResponse) -> Seq<char> {
    SOAP_ENVELOPE_START@ + "\n"@ + spec_success_body(name, data) + "\n"@ + SOAP_ENVELOPE_END@
}

/// Generate a successful SOAP response for the given action.
pub fn generate_success_response(action_name: &str, data: &SuccessResponse) -> (r: String)
    ensures
        r@ == spec_success_response(action_name@, *data),
{
    let body: String = if str_eq(action_name, "GetExternalIPAddress") {
        generate_get_external_ip_response(data)
    } else if str_eq(action_name, "GetStatusInfo") {
        generate_get_status_info_response(data)
    } else if str_eq(action_name, "AddPortMapping") {
        generate_add_port_mapping_response()
    } else if str_eq(action_name, "DeletePortMapping") {
        generate_delete_port_mapping_response()
    } else if str_eq(action_name, "GetGenericPortMappingEntry") {
        generate_get_port_mapping_entry_response(data)
    } else if str_eq(action_name, "GetSpecificPortMappingEntry") {
        generate_get_port_mapping_entry_response(data)
    } else if str_eq(action_name, "GetCommonLinkProperties") {
        generate_get_common_link_properties_response(data)
    } else if str_eq(action_name, "GetTotalBytesReceived") {
        generate_get_total_bytes_received_response(data)
    } else if str_eq(action_name, "GetTotalBytesSent") {
        generate_get_total_bytes_sent_response(data)
    } else {
        generate_generic_response(action_name)
    };
    let mut out = String::new();
    out.append(SOAP_ENVELOPE_START);
    out.append("\n");
    out.append(body.as_str());
    out.append("\n");
    out.append(SOAP_ENVELOPE_END);
    proof {
        assert(out@ =~= spec_success_response(action_name@, *data));
    }
    out
}

} // verus!
