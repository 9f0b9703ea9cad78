//! A mock UPnP Internet Gateway Device engine for exercising client
//! implementations: a registry of configured behaviors ("mocks"), the
//! selection algorithm that decides which behavior answers an incoming
//! control request, per-mock call quotas, and the bookkeeping of received
//! requests.

pub mod action;
pub mod matcher;
pub mod mock;
pub mod responder;
pub mod scpd;
pub mod server;
pub mod soap;
pub mod ssdp;
pub mod templates;
pub mod text;

pub use action::{
    Action, AddPortMappingBuilder, AddPortMappingParams, DeletePortMappingBuilder,
    DeletePortMappingParams, GetGenericPortMappingEntryBuilder, GetGenericPortMappingEntryParams,
    GetSpecificPortMappingEntryBuilder, GetSpecificPortMappingEntryParams, Protocol,
};
pub use mock::{Mock, MockRegistry, ReceivedRequest, ReceivedSsdpRequest};
pub use responder::{
    Responder, ResponseBody, ResponseOutcome, SuccessResponse, SuccessResponseBuilder,
};
pub use scpd::{
    generate_device_description, generate_wan_common_ifc_scpd, generate_wan_ip_connection_scpd,
};
pub use server::MockIgdServerBuilder;
pub use ssdp::{extract_header, generate_msearch_response, is_msearch_request, parse_ssdp_request};
pub use soap::{
    extract_xml_value, parse_add_port_mapping, parse_delete_port_mapping,
    parse_get_generic_port_mapping_entry, parse_get_specific_port_mapping_entry, parse_soap_body,
    parse_soap_request, soap_error_response, soap_http_reply,
};
pub use templates::{
    generate_add_port_mapping_response, generate_delete_port_mapping_response,
    generate_soap_fault, generate_success_response,
};
pub use matcher::{
    matches_add_port_mapping, matches_delete_port_mapping, matches_get_generic_port_mapping_entry,
    matches_get_specific_port_mapping_entry, AddPortMappingRequest, DeletePortMappingRequest,
    GetGenericPortMappingEntryRequest, GetSpecificPortMappingEntryRequest, Matcher, SoapRequest,
    SoapRequestBody,
};
