//! Response generation for matched requests: templated successes, fixed
//! protocol faults, and handles to caller-supplied custom behaviors.

use vstd::prelude::*;
use vstd::string::*;

use crate::matcher::SoapRequest;
use crate::templates::{generate_success_response, spec_success_response};

verus! {

/// Data for templated success responses.  A `None` field renders as the
/// protocol-defined default of the operation that reads it.
#[derive(Debug, Clone)]
pub struct SuccessResponse {
    pub external_ip: Option<String>,
    pub remote_host: Option<String>,
    pub external_port: Option<u16>,
    pub protocol: Option<String>,
    pub internal_port: Option<u16>,
    pub internal_client: Option<String>,
    pub enabled: Option<bool>,
    pub description: Option<String>,
    pub lease_duration: Option<u32>,
    pub connection_status: Option<String>,
    pub last_connection_error: Option<String>,
    pub uptime: Option<u32>,
    pub wan_access_type: Option<String>,
    pub layer1_upstream_max_bit_rate: Option<u32>,
    pub layer1_downstream_max_bit_rate: Option<u32>,
    pub physical_link_status: Option<String>,
    pub total_bytes: Option<u64>,
}

/// A responder that generates responses for matched requests: a templated
/// success, a fixed fault, or a handle naming a caller-supplied custom
/// behavior that the transport layer runs.
#[derive(Debug, Clone)]
pub enum Responder {
    Success(SuccessResponse),
    Error { code: u16, description: String },
    Custom { handle: u64 },
}

/// The body of a response.
#[derive(Debug, PartialEq)]
pub enum ResponseBody {
    /// A successful SOAP response.
    Soap(String),
    /// An error SOAP response.
    SoapFault { code: u16, description: String },
    /// A raw HTTP response body.
    Raw { content_type: String, body: String },
}

/// The text-level value of a response body.
pub enum SpecResponseBody {
    Soap(Seq<char>),
    SoapFault { code: u16, description: Seq<char> },
    Raw { content_type: Seq<char>, body: Seq<char> },
}

impl View for ResponseBody {
    type V = SpecResponseBody;

    open spec fn view(&self) -> SpecResponseBody {
        match self {
            ResponseBody::Soap(s) => SpecResponseBody::Soap(s@),
            ResponseBody::SoapFault { code, description } => SpecResponseBody::SoapFault {
                code: *code,
                description: description@,
            },
            ResponseBody::Raw { content_type, body } => SpecResponseBody::Raw {
                content_type: content_type@,
                body: body@,
            },
        }
    }
}

impl Clone for ResponseBody {
    fn clone(&self) -> (res: Self)
        ensures
            res == *self,
    {
        match self {
            ResponseBody::Soap(s) => ResponseBody::Soap(s.clone()),
            ResponseBody::SoapFault { code, description } => ResponseBody::SoapFault {
                code: *code,
                description: description.clone(),
            },
            ResponseBody::Raw { content_type, body } => ResponseBody::Raw {
                content_type: content_type.clone(),
                body: body.clone(),
            },
        }
    }
}

/// What a dispatched mock answers: a rendered response body, or the handle
/// of the custom behavior that must be run to produce one.
#[derive(Debug, PartialEq)]
pub enum ResponseOutcome {
    Body(ResponseBody),
    Custom { handle: u64 },
}

/// The text-level value of a response outcome.
pub enum SpecResponseOutcome {
    Body(SpecResponseBody),
    Custom { handle: u64 },
}

impl View for ResponseOutcome {
    type V = SpecResponseOutcome;

    open spec fn view(&self) -> SpecResponseOutcome {
        match self {
            ResponseOutcome::Body(b) => SpecResponseOutcome::Body(b@),
            ResponseOutcome::Custom { handle } => SpecResponseOutcome::Custom { handle: *handle },
        }
    }
}

/// What a responder answers for a request: the success template rendered for
/// the request's action name, the configured fault regardless of request
/// content, or the responder's custom handle.
pub open spec fn spec_respond(responder: Responder, request: SoapRequest) -> SpecResponseOutcome {
    match responder {
        Responder::Success(data) => SpecResponseOutcome::Body(
            SpecResponseBody::Soap(spec_success_response(request.action_name@, data)),
        ),
        Responder::Error { code, description } => SpecResponseOutcome::Body(
            SpecResponseBody::SoapFault { code, description: description@ },
        ),
        Responder::Custom { handle } => SpecResponseOutcome::Custom { handle },
    }
}

impl Responder {
    /// Create a successful response.
    pub fn success() -> (r: SuccessResponseBuilder)
        ensures
            r.response == (SuccessResponse {
                external_ip: None,
                remote_host: None,
                external_port: None,
                protocol: None,
                internal_port: None,
                internal_client: None,
                enabled: None,
                description: None,
                lease_duration: None,
                connection_status: None,
                last_connection_error: None,
                uptime: None,
                wan_access_type: None,
                layer1_upstream_max_bit_rate: None,
                layer1_downstream_max_bit_rate: None,
                physical_link_status: None,
                total_bytes: None,
            }),
    {
        SuccessResponseBuilder {
            response: SuccessResponse {
                external_ip: None,
                remote_host: None,
                external_port: None,
                protocol: None,
                internal_port: None,
                internal_client: None,
                enabled: None,
                description: None,
                lease_duration: None,
                connection_status: None,
                last_connection_error: None,
                uptime: None,
                wan_access_type: None,
                layer1_upstream_max_bit_rate: None,
                layer1_downstream_max_bit_rate: None,
                physical_link_status: None,
                total_bytes: None,
            },
        }
    }

    /// Create an error response with UPnP error code.
    pub fn error(code: u16, description: &str) -> (r: Self)
        ensures
            r matches Responder::Error { code: c, description: d } && c == code && d@
                == description@,
    {
        Responder::Error { code, description: String::from_str(description) }
    }

    /// Create a custom responder.  The handle names a caller-supplied
    /// behavior that the transport layer runs when this responder answers.
    pub fn custom(handle: u64) -> (r: Self)
        ensures
            r == (Responder::Custom { handle }),
    {
        Responder::Custom { handle }
    }

    /// Generate a response for the given request.
    pub fn respond(&self, request: &SoapRequest) -> (r: ResponseOutcome)
        ensures
            r@ == spec_respond(*self, *request),
    {
        match self {
            Responder::Success(data) => {
                let xml = generate_success_response(request.action_name.as_str(), data);
                ResponseOutcome::Body(ResponseBody::Soap(xml))
            },
            Responder::Error { code, description } => {
                ResponseOutcome::Body(
                    ResponseBody::SoapFault { code: *code, description: description.clone() },
                )
            },
            Responder::Custom { handle } => ResponseOutcome::Custom { handle: *handle },
        }
    }
}

/// Builder for creating successful responses.
#[derive(Debug, Clone)]
pub struct SuccessResponseBuilder {
    pub response: SuccessResponse,
}

impl SuccessResponseBuilder {
    /// Set the external IP address, in canonical textual form (for
    /// GetExternalIPAddress).
    pub fn with_external_ip(self, ip: String) -> (r: Self)
        ensures
            r.response == (SuccessResponse { external_ip: Some(ip), ..self.response }),
    {
        SuccessResponseBuilder {
            response: SuccessResponse { external_ip: Some(ip), ..self.response },
        }
    }

    /// Set the remote host (for port mapping responses).
    pub fn with_remote_host(self, host: String) -> (r: Self)
        ensures
            r.response == (SuccessResponse { remote_host: Some(host), ..self.response }),
    {
        SuccessResponseBuilder {
            response: SuccessResponse { remote_host: Some(host), ..self.response },
        }
    }

    /// Set the external port (for port mapping responses).
    pub fn with_external_port(self, port: u16) -> (r: Self)
        ensures
            r.response == (SuccessResponse { external_port: Some(port), ..self.response }),
    {
        SuccessResponseBuilder {
            response: SuccessResponse { external_port: Some(port), ..self.response },
        }
    }

    /// Set the protocol (for port mapping responses).
    pub fn with_protocol(self, protocol: String) -> (r: Self)
        ensures
            r.response == (SuccessResponse { protocol: Some(protocol), ..self.response }),
    {
        SuccessResponseBuilder {
            response: SuccessResponse { protocol: Some(protocol), ..self.response },
        }
    }

    /// Set the internal port (for port mapping responses).
    pub fn with_internal_port(self, port: u16) -> (r: Self)
        ensures
            r.response == (SuccessResponse { internal_port: Some(port), ..self.response }),
    {
        SuccessResponseBuilder {
            response: SuccessResponse { internal_port: Some(port), ..self.response },
        }
    }

    /// Set the internal client (for port mapping responses).
    pub fn with_internal_client(self, client: String) -> (r: Self)
        ensures
            r.response == (SuccessResponse { internal_client: Some(client), ..self.response }),
    {
        SuccessResponseBuilder {
            response: SuccessResponse { internal_client: Some(client), ..self.response },
        }
    }

    /// Set whether the mapping is enabled (for port mapping responses).
    pub fn with_enabled(self, enabled: bool) -> (r: Self)
        ensures
            r.response == (SuccessResponse { enabled: Some(enabled), ..self.response }),
    {
        SuccessResponseBuilder {
            response: SuccessResponse { enabled: Some(enabled), ..self.response },
        }
    }

    /// Set the description (for port mapping responses).
    pub fn with_description(self, description: String) -> (r: Self)
        ensures
            r.response == (SuccessResponse { description: Some(description), ..self.response }),
    {
        SuccessResponseBuilder {
            response: SuccessResponse { description: Some(description), ..self.response },
        }
    }

    /// Set the lease duration (for port mapping responses).
    pub fn with_lease_duration(self, duration: u32) -> (r: Self)
        ensures
            r.response == (SuccessResponse { lease_duration: Some(duration), ..self.response }),
    {
        SuccessResponseBuilder {
            response: SuccessResponse { lease_duration: Some(duration), ..self.response },
        }
    }

    /// Set the connection status (for GetStatusInfo).
    pub fn with_connection_status(self, status: String) -> (r: Self)
        ensures
            r.response == (SuccessResponse { connection_status: Some(status), ..self.response }),
    {
        SuccessResponseBuilder {
            response: SuccessResponse { connection_status: Some(status), ..self.response },
        }
    }

    /// Set the last connection error (for GetStatusInfo).
    pub fn with_last_connection_error(self, error: String) -> (r: Self)
        ensures
            r.response == (SuccessResponse { last_connection_error: Some(error), ..self.response }),
    {
        SuccessResponseBuilder {
            response: SuccessResponse { last_connection_error: Some(error), ..self.response },
        }
    }

    /// Set the uptime in seconds (for GetStatusInfo).
    pub fn with_uptime(self, uptime: u32) -> (r: Self)
        ensures
            r.response == (SuccessResponse { uptime: Some(uptime), ..self.response }),
    {
        SuccessResponseBuilder {
            response: SuccessResponse { uptime: Some(uptime), ..self.response },
        }
    }

    /// Set the WAN access type (for GetCommonLinkProperties).
    pub fn with_wan_access_type(self, access_type: String) -> (r: Self)
        ensures
            r.response == (SuccessResponse { wan_access_type: Some(access_type), ..self.response }),
    {
        SuccessResponseBuilder {
            response: SuccessResponse { wan_access_type: Some(access_type), ..self.response },
        }
    }

    /// Set upstream max bit rate (for GetCommonLinkProperties).
    pub fn with_layer1_upstream_max_bit_rate(self, rate: u32) -> (r: Self)
        ensures
            r.response == (SuccessResponse {
                layer1_upstream_max_bit_rate: Some(rate),
                ..self.response
            }),
    {
        SuccessResponseBuilder {
            response: SuccessResponse { layer1_upstream_max_bit_rate: Some(rate), ..self.response },
        }
    }

    /// Set downstream max bit rate (for GetCommonLinkProperties).
    pub fn with_layer1_downstream_max_bit_rate(self, rate: u32) -> (r: Self)
        ensures
            r.response == (SuccessResponse {
                layer1_downstream_max_bit_rate: Some(rate),
                ..self.response
            }),
    {
        SuccessResponseBuilder {
            response: SuccessResponse {
                layer1_downstream_max_bit_rate: Some(rate),
                ..self.response
            },
        }
    }

    /// Set physical link status (for GetCommonLinkProperties).
    pub fn with_physical_link_status(self, status: String) -> (r: Self)
        ensures
            r.response == (SuccessResponse { physical_link_status: Some(status), ..self.response }),
    {
        SuccessResponseBuilder {
            response: SuccessResponse { physical_link_status: Some(status), ..self.response },
        }
    }

    /// Set total bytes (for GetTotalBytesReceived/Sent).
    pub fn with_total_bytes(self, bytes: u64) -> (r: Self)
        ensures
            r.response == (SuccessResponse { total_bytes: Some(bytes), ..self.response }),
    {
        SuccessResponseBuilder {
            response: SuccessResponse { total_bytes: Some(bytes), ..self.response },
        }
    }

    /// Build the responder.
    pub fn build(self) -> (r: Responder)
        ensures
            r == Responder::Success(self.response),
    {
        Responder::Success(self.response)
    }
}

impl From<SuccessResponseBuilder> for Responder {
    fn from(builder: SuccessResponseBuilder) -> (r: Self)
        ensures
            r == Responder::Success(builder.response),
    {
        builder.build()
    }
}

impl vstd::std_specs::convert::FromSpecImpl<SuccessResponseBuilder> for Responder {
    open spec fn obeys_from_spec() -> bool {
        true
    }

    open spec fn from_spec(builder: SuccessResponseBuilder) -> Responder {
        Responder::Success(builder.response)
    }
}

} // verus!
