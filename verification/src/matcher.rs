//! Request matching: deciding whether a configured action's criteria accept
//! a normalized request.

use vstd::prelude::*;

use crate::action::{
    spec_protocol_str, Action, AddPortMappingParams, DeletePortMappingParams,
    GetGenericPortMappingEntryParams, GetSpecificPortMappingEntryParams,
};
use crate::text::{contains_seq, eq_ci_seq, str_contains, str_eq, str_eq_ci};

verus! {

/// A parsed SOAP request that can be matched against.
#[derive(Debug)]
pub struct SoapRequest {
    pub action_name: String,
    pub service_type: String,
    pub body: SoapRequestBody,
}

/// The body of a SOAP request, parsed into a known action type.
#[derive(Debug, PartialEq)]
pub enum SoapRequestBody {
    GetExternalIPAddress,
    GetStatusInfo,
    AddPortMapping(AddPortMappingRequest),
    DeletePortMapping(DeletePortMappingRequest),
    GetGenericPortMappingEntry(GetGenericPortMappingEntryRequest),
    GetSpecificPortMappingEntry(GetSpecificPortMappingEntryRequest),
    GetCommonLinkProperties,
    GetTotalBytesReceived,
    GetTotalBytesSent,
    Unknown(String),
}

/// Parsed AddPortMapping request.
#[derive(Debug, PartialEq)]
pub struct AddPortMappingRequest {
    pub remote_host: String,
    pub external_port: u16,
    pub protocol: String,
    pub internal_port: u16,
    pub internal_client: String,
    pub enabled: bool,
    pub description: String,
    pub lease_duration: u32,
}

/// Parsed DeletePortMapping request.
#[derive(Debug, PartialEq)]
pub struct DeletePortMappingRequest {
    pub remote_host: String,
    pub external_port: u16,
    pub protocol: String,
}

/// Parsed GetGenericPortMappingEntry request.
#[derive(Debug, PartialEq)]
pub struct GetGenericPortMappingEntryRequest {
    pub index: u32,
}

/// Parsed GetSpecificPortMappingEntry request.
#[derive(Debug, PartialEq)]
pub struct GetSpecificPortMappingEntryRequest {
    pub remote_host: String,
    pub external_port: u16,
    pub protocol: String,
}

impl Clone for AddPortMappingRequest {
    fn clone(&self) -> (res: Self)
        ensures
            res == *self,
    {
        AddPortMappingRequest {
            remote_host: self.remote_host.clone(),
            external_port: self.external_port,
            protocol: self.protocol.clone(),
            internal_port: self.internal_port,
            internal_client: self.internal_client.clone(),
            enabled: self.enabled,
            description: self.description.clone(),
            lease_duration: self.lease_duration,
        }
    }
}

impl Clone for DeletePortMappingRequest {
    fn clone(&self) -> (res: Self)
        ensures
            res == *self,
    {
        DeletePortMappingRequest {
            remote_host: self.remote_host.clone(),
            external_port: self.external_port,
            protocol: self.protocol.clone(),
        }
    }
}

impl Clone for GetGenericPortMappingEntryRequest {
    fn clone(&self) -> (res: Self)
        ensures
            res == *self,
    {
        GetGenericPortMappingEntryRequest { index: self.index }
    }
}

impl Clone for GetSpecificPortMappingEntryRequest {
    fn clone(&self) -> (res: Self)
        ensures
            res == *self,
    {
        GetSpecificPortMappingEntryRequest {
            remote_host: self.remote_host.clone(),
            external_port: self.external_port,
            protocol: self.protocol.clone(),
        }
    }
}

impl Clone for SoapRequestBody {
    fn clone(&self) -> (res: Self)
        ensures
            res == *self,
    {
        match self {
            SoapRequestBody::GetExternalIPAddress => SoapRequestBody::GetExternalIPAddress,
            SoapRequestBody::GetStatusInfo => SoapRequestBody::GetStatusInfo,
            SoapRequestBody::AddPortMapping(r) => SoapRequestBody::AddPortMapping(r.clone()),
            SoapRequestBody::DeletePortMapping(r) => SoapRequestBody::DeletePortMapping(r.clone()),
            SoapRequestBody::GetGenericPortMappingEntry(r) => {
                SoapRequestBody::GetGenericPortMappingEntry(r.clone())
            },
            SoapRequestBody::GetSpecificPortMappingEntry(r) => {
                SoapRequestBody::GetSpecificPortMappingEntry(r.clone())
            },
            SoapRequestBody::GetCommonLinkProperties => SoapRequestBody::GetCommonLinkProperties,
            SoapRequestBody::GetTotalBytesReceived => SoapRequestBody::GetTotalBytesReceived,
            SoapRequestBody::GetTotalBytesSent => SoapRequestBody::GetTotalBytesSent,
            SoapRequestBody::Unknown(s) => SoapRequestBody::Unknown(s.clone()),
        }
    }
}

impl Clone for SoapRequest {
    fn clone(&self) -> (res: Self)
        ensures
            res == *self,
    {
        SoapRequest {
            action_name: self.action_name.clone(),
            service_type: self.service_type.clone(),
            body: self.body.clone(),
        }
    }
}

// =============================================================================
// Matching
// =============================================================================

/// Every constrained criteria field must be satisfied by the request:
/// numeric fields by exact equality, the protocol case-insensitively, the
/// internal client by its canonical textual form, and the description by
/// substring containment.
pub open spec fn spec_matches_add_port_mapping(
    params: AddPortMappingParams,
    req: AddPortMappingRequest,
) -> bool {
    &&& (params.external_port matches Some(port) ==> req.external_port == port)
    &&& (params.protocol matches Some(proto) ==> eq_ci_seq(req.protocol@, spec_protocol_str(proto)))
    &&& (params.internal_port matches Some(port) ==> req.internal_port == port)
    &&& (params.internal_client matches Some(client) ==> req.internal_client@ == client@)
    &&& (params.description matches Some(desc) ==> contains_seq(req.description@, desc@))
}

pub open spec fn spec_matches_delete_port_mapping(
    params: DeletePortMappingParams,
    req: DeletePortMappingRequest,
) -> bool {
    &&& (params.external_port matches Some(port) ==> req.external_port == port)
    &&& (params.protocol matches Some(proto) ==> eq_ci_seq(req.protocol@, spec_protocol_str(proto)))
}

pub open spec fn spec_matches_get_generic_port_mapping_entry(
    params: GetGenericPortMappingEntryParams,
    req: GetGenericPortMappingEntryRequest,
) -> bool {
    params.index matches Some(index) ==> req.index == index
}

pub open spec fn spec_matches_get_specific_port_mapping_entry(
    params: GetSpecificPortMappingEntryParams,
    req: GetSpecificPortMappingEntryRequest,
) -> bool {
    &&& (params.external_port matches Some(port) ==> req.external_port == port)
    &&& (params.protocol matches Some(proto) ==> eq_ci_seq(req.protocol@, spec_protocol_str(proto)))
}

/// Which requests an action's criteria accept: the wildcard accepts every
/// request; criteria of one kind accept exactly the requests of that kind
/// whose constrained fields are all satisfied.
pub open spec fn spec_action_matches(action: Action, request: SoapRequest) -> bool {
    match action {
        Action::Any => true,
        Action::GetExternalIPAddress => request.body is GetExternalIPAddress,
        Action::GetStatusInfo => request.body is GetStatusInfo,
        Action::AddPortMapping(params) => request.body matches SoapRequestBody::AddPortMapping(req)
            && spec_matches_add_port_mapping(params, req),
        Action::DeletePortMapping(params) => request.body matches SoapRequestBody::DeletePortMapping(
            req,
        ) && spec_matches_delete_port_mapping(params, req),
        Action::GetGenericPortMappingEntry(params) => request.body matches SoapRequestBody::GetGenericPortMappingEntry(
            req,
        ) && spec_matches_get_generic_port_mapping_entry(params, req),
        Action::GetSpecificPortMappingEntry(params) => request.body matches SoapRequestBody::GetSpecificPortMappingEntry(
            req,
        ) && spec_matches_get_specific_port_mapping_entry(params, req),
        Action::GetCommonLinkProperties => request.body is GetCommonLinkProperties,
        Action::GetTotalBytesReceived => request.body is GetTotalBytesReceived,
        Action::GetTotalBytesSent => request.body is GetTotalBytesSent,
    }
}

/// Trait for matching requests.
pub trait Matcher {
    /// Which requests this matcher accepts.
    spec fn spec_matches(&self, request: &SoapRequest) -> bool;

    /// Check if this matcher matches the given request.
    fn matches(&self, request: &SoapRequest) -> (r: bool)
        ensures
            r == self.spec_matches(request),
    ;
}

impl Matcher for Action {
    open spec fn spec_matches(&self, request: &SoapRequest) -> bool {
        spec_action_matches(*self, *request)
    }

    fn matches(&self, request: &SoapRequest) -> (r: bool)
        ensures
            r == self.spec_matches(request),
    {
        match self {
            Action::Any => true,
            Action::GetExternalIPAddress => {
                matches!(request.body, SoapRequestBody::GetExternalIPAddress)
            },
            Action::GetStatusInfo => matches!(request.body, SoapRequestBody::GetStatusInfo),
            Action::AddPortMapping(params) => match &request.body {
                SoapRequestBody::AddPortMapping(req) => matches_add_port_mapping(params, req),
                _ => false,
            },
            Action::DeletePortMapping(params) => match &request.body {
                SoapRequestBody::DeletePortMapping(req) => matches_delete_port_mapping(params, req),
                _ => false,
            },
            Action::GetGenericPortMappingEntry(params) => match &request.body {
                SoapRequestBody::GetGenericPortMappingEntry(req) => {
                    matches_get_generic_port_mapping_entry(params, req)
                },
                _ => false,
            },
            Action::GetSpecificPortMappingEntry(params) => match &request.body {
                SoapRequestBody::GetSpecificPortMappingEntry(req) => {
                    matches_get_specific_port_mapping_entry(params, req)
                },
                _ => false,
            },
            Action::GetCommonLinkProperties => {
                matches!(request.body, SoapRequestBody::GetCommonLinkProperties)
            },
            Action::GetTotalBytesReceived => {
                matches!(request.body, SoapRequestBody::GetTotalBytesReceived)
            },
            Action::GetTotalBytesSent => {
                matches!(request.body, SoapRequestBody::GetTotalBytesSent)
            },
        }
    }
}

pub fn matches_add_port_mapping(params: &AddPortMappingParams, req: &AddPortMappingRequest) -> (r:
    bool)
    ensures
        r == spec_matches_add_port_mapping(*params, *req),
{
    if let Some(port) = params.external_port {
        if req.external_port != port {
            return false;
        }
    }
    if let Some(protocol) = params.protocol {
        if !str_eq_ci(req.protocol.as_str(), protocol.as_str()) {
            return false;
        }
    }
    if let Some(port) = params.internal_port {
        if req.internal_port != port {
            return false;
        }
    }
    if let Some(client) = &params.internal_client {
        if !str_eq(req.internal_client.as_str(), client.as_str()) {
            return false;
        }
    }
    if let Some(desc) = &params.description {
        if !str_contains(req.description.as_str(), desc.as_str()) {
            return false;
        }
    }
    true
}

pub fn matches_delete_port_mapping(
    params: &DeletePortMappingParams,
    req: &DeletePortMappingRequest,
) -> (r: bool)
    ensures
        r == spec_matches_delete_port_mapping(*params, *req),
{
    if let Some(port) = params.external_port {
        if req.external_port != port {
            return false;
        }
    }
    if let Some(protocol) = params.protocol {
        if !str_eq_ci(req.protocol.as_str(), protocol.as_str()) {
            return false;
        }
    }
    true
}

pub fn matches_get_generic_port_mapping_entry(
    params: &GetGenericPortMappingEntryParams,
    req: &GetGenericPortMappingEntryRequest,
) -> (r: bool)
    ensures
        r == spec_matches_get_generic_port_mapping_entry(*params, *req),
{
    if let Some(index) = params.index {
        if req.index != index {
            return false;
        }
    }
    true
}

pub fn matches_get_specific_port_mapping_entry(
    params: &GetSpecificPortMappingEntryParams,
    req: &GetSpecificPortMappingEntryRequest,
) -> (r: bool)
    ensures
        r == spec_matches_get_specific_port_mapping_entry(*params, *req),
{
    if let Some(port) = params.external_port {
        if req.external_port != port {
            return false;
        }
    }
    if let Some(protocol) = params.protocol {
        if !str_eq_ci(req.protocol.as_str(), protocol.as_str()) {
            return false;
        }
    }
    true
}

// =============================================================================
// Matching laws
// =============================================================================

/// Law: the wildcard matcher accepts every request, whatever its operation
/// kind and parameters.
pub proof fn lemma_wildcard_matches_all(request: SoapRequest)
    ensures
        spec_action_matches(Action::Any, request),
{
}

/// Law: criteria with every field unconstrained accept exactly the requests
/// of their declared kind, and no request of another kind.
pub proof fn lemma_unconstrained_matches_kind(request: SoapRequest)
    ensures
        spec_action_matches(
            Action::AddPortMapping(
                AddPortMappingParams {
                    external_port: None,
                    protocol: None,
                    internal_port: None,
                    internal_client: None,
                    description: None,
                },
            ),
            request,
        ) <==> request.body is AddPortMapping,
        spec_action_matches(
            Action::DeletePortMapping(
                DeletePortMappingParams { external_port: None, protocol: None },
            ),
            request,
        ) <==> request.body is DeletePortMapping,
        spec_action_matches(
            Action::GetGenericPortMappingEntry(GetGenericPortMappingEntryParams { index: None }),
            request,
        ) <==> request.body is GetGenericPortMappingEntry,
        spec_action_matches(
            Action::GetSpecificPortMappingEntry(
                GetSpecificPortMappingEntryParams { external_port: None, protocol: None },
            ),
            request,
        ) <==> request.body is GetSpecificPortMappingEntry,
{
}

} // verus!
