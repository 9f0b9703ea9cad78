//! UPnP IGD action type definitions: the selection criteria a mock is
//! configured with, and builders for assembling them.

use vstd::prelude::*;

verus! {

/// Protocol token for port mappings.
#[derive(Debug, Clone, Copy, PartialEq, Eq, Hash, Structural)]
pub enum Protocol {
    TCP,
    UDP,
}

/// The wire spelling of a protocol token.
pub open spec fn spec_protocol_str(p: Protocol) -> Seq<char> {
    match p {
        Protocol::TCP => "TCP"@,
        Protocol::UDP => "UDP"@,
    }
}

impl Protocol {
    pub fn as_str(&self) -> (r: &'static str)
        ensures
            r@ == spec_protocol_str(*self),
    {
        match self {
            Protocol::TCP => "TCP",
            Protocol::UDP => "UDP",
        }
    }
}

/// UPnP IGD actions that can be matched against.  Each variant with
/// parameters carries partially-specified criteria: a `None` field is
/// unconstrained and never rejects a match.
#[derive(Debug, Clone)]
pub enum Action {
    /// Get the external IP address of the gateway.
    GetExternalIPAddress,
    /// Get the connection status information.
    GetStatusInfo,
    /// Add a port mapping.
    AddPortMapping(AddPortMappingParams),
    /// Delete a port mapping.
    DeletePortMapping(DeletePortMappingParams),
    /// Get a port mapping entry by index.
    GetGenericPortMappingEntry(GetGenericPortMappingEntryParams),
    /// Get a specific port mapping entry.
    GetSpecificPortMappingEntry(GetSpecificPortMappingEntryParams),
    /// Get common link properties.
    GetCommonLinkProperties,
    /// Get total bytes received.
    GetTotalBytesReceived,
    /// Get total bytes sent.
    GetTotalBytesSent,
    /// Match any action (wildcard).
    Any,
}

impl Action {
    /// Create an AddPortMapping action with matching parameters.
    pub fn add_port_mapping() -> (r: AddPortMappingBuilder)
        ensures
            r.params == (AddPortMappingParams {
                external_port: None,
                protocol: None,
                internal_port: None,
                internal_client: None,
                description: None,
            }),
    {
        AddPortMappingBuilder {
            params: AddPortMappingParams {
                external_port: None,
                protocol: None,
                internal_port: None,
                internal_client: None,
                description: None,
            },
        }
    }

    /// Create a DeletePortMapping action with matching parameters.
    pub fn delete_port_mapping() -> (r: DeletePortMappingBuilder)
        ensures
            r.params == (DeletePortMappingParams { external_port: None, protocol: None }),
    {
        DeletePortMappingBuilder {
            params: DeletePortMappingParams { external_port: None, protocol: None },
        }
    }

    /// Create a GetGenericPortMappingEntry action with matching parameters.
    pub fn get_generic_port_mapping_entry() -> (r: GetGenericPortMappingEntryBuilder)
        ensures
            r.params == (GetGenericPortMappingEntryParams { index: None }),
    {
        GetGenericPortMappingEntryBuilder {
            params: GetGenericPortMappingEntryParams { index: None },
        }
    }

    /// Create a GetSpecificPortMappingEntry action with matching parameters.
    pub fn get_specific_port_mapping_entry() -> (r: GetSpecificPortMappingEntryBuilder)
        ensures
            r.params == (GetSpecificPortMappingEntryParams { external_port: None, protocol: None }),
    {
        GetSpecificPortMappingEntryBuilder {
            params: GetSpecificPortMappingEntryParams { external_port: None, protocol: None },
        }
    }

    /// Match any action.
    pub fn any() -> (r: Self)
        ensures
            r is Any,
    {
        Action::Any
    }
}

// =============================================================================
// AddPortMapping
// =============================================================================

/// Parameters for matching AddPortMapping requests.  The internal client is
/// held in its canonical textual address form.
#[derive(Debug, Clone)]
pub struct AddPortMappingParams {
    pub external_port: Option<u16>,
    pub protocol: Option<Protocol>,
    pub internal_port: Option<u16>,
    pub internal_client: Option<String>,
    pub description: Option<String>,
}

/// Builder for AddPortMapping matching parameters.
#[derive(Debug, Clone)]
pub struct AddPortMappingBuilder {
    pub params: AddPortMappingParams,
}

impl AddPortMappingBuilder {
    pub fn with_external_port(self, port: u16) -> (r: Self)
        ensures
            r.params == (AddPortMappingParams { external_port: Some(port), ..self.params }),
    {
        AddPortMappingBuilder {
            params: AddPortMappingParams { external_port: Some(port), ..self.params },
        }
    }

    pub fn with_protocol(self, protocol: Protocol) -> (r: Self)
        ensures
            r.params == (AddPortMappingParams { protocol: Some(protocol), ..self.params }),
    {
        AddPortMappingBuilder {
            params: AddPortMappingParams { protocol: Some(protocol), ..self.params },
        }
    }

    pub fn with_internal_port(self, port: u16) -> (r: Self)
        ensures
            r.params == (AddPortMappingParams { internal_port: Some(port), ..self.params }),
    {
        AddPortMappingBuilder {
            params: AddPortMappingParams { internal_port: Some(port), ..self.params },
        }
    }

    pub fn with_internal_client(self, client: String) -> (r: Self)
        ensures
            r.params == (AddPortMappingParams { internal_client: Some(client), ..self.params }),
    {
        AddPortMappingBuilder {
            params: AddPortMappingParams { internal_client: Some(client), ..self.params },
        }
    }

    pub fn with_description(self, desc: String) -> (r: Self)
        ensures
            r.params == (AddPortMappingParams { description: Some(desc), ..self.params }),
    {
        AddPortMappingBuilder {
            params: AddPortMappingParams { description: Some(desc), ..self.params },
        }
    }

    pub fn build(self) -> (r: Action)
        ensures
            r == Action::AddPortMapping(self.params),
    {
        Action::AddPortMapping(self.params)
    }
}

impl From<AddPortMappingBuilder> for Action {
    fn from(builder: AddPortMappingBuilder) -> (r: Self)
        ensures
            r == Action::AddPortMapping(builder.params),
    {
        builder.build()
    }
}

impl vstd::std_specs::convert::FromSpecImpl<AddPortMappingBuilder> for Action {
    open spec fn obeys_from_spec() -> bool {
        true
    }

    open spec fn from_spec(builder: AddPortMappingBuilder) -> Action {
        Action::AddPortMapping(builder.params)
    }
}

// =============================================================================
// DeletePortMapping
// =============================================================================

/// Parameters for matching DeletePortMapping requests.
#[derive(Debug, Clone)]
pub struct DeletePortMappingParams {
    pub external_port: Option<u16>,
    pub protocol: Option<Protocol>,
}

/// Builder for DeletePortMapping matching parameters.
#[derive(Debug, Clone)]
pub struct DeletePortMappingBuilder {
    pub params: DeletePortMappingParams,
}

impl DeletePortMappingBuilder {
    pub fn with_external_port(self, port: u16) -> (r: Self)
        ensures
            r.params == (DeletePortMappingParams { external_port: Some(port), ..self.params }),
    {
        DeletePortMappingBuilder {
            params: DeletePortMappingParams { external_port: Some(port), ..self.params },
        }
    }

    pub fn with_protocol(self, protocol: Protocol) -> (r: Self)
        ensures
            r.params == (DeletePortMappingParams { protocol: Some(protocol), ..self.params }),
    {
        DeletePortMappingBuilder {
            params: DeletePortMappingParams { protocol: Some(protocol), ..self.params },
        }
    }

    pub fn build(self) -> (r: Action)
        ensures
            r == Action::DeletePortMapping(self.params),
    {
        Action::DeletePortMapping(self.params)
    }
}

impl From<DeletePortMappingBuilder> for Action {
    fn from(builder: DeletePortMappingBuilder) -> (r: Self)
        ensures
            r == Action::DeletePortMapping(builder.params),
    {
        builder.build()
    }
}

impl vstd::std_specs::convert::FromSpecImpl<DeletePortMappingBuilder> for Action {
    open spec fn obeys_from_spec() -> bool {
        true
    }

    open spec fn from_spec(builder: DeletePortMappingBuilder) -> Action {
        Action::DeletePortMapping(builder.params)
    }
}

// =============================================================================
// GetGenericPortMappingEntry
// =============================================================================

/// Parameters for matching GetGenericPortMappingEntry requests.
#[derive(Debug, Clone)]
pub struct GetGenericPortMappingEntryParams {
    pub index: Option<u32>,
}

/// Builder for GetGenericPortMappingEntry matching parameters.
#[derive(Debug, Clone)]
pub struct GetGenericPortMappingEntryBuilder {
    pub params: GetGenericPortMappingEntryParams,
}

impl GetGenericPortMappingEntryBuilder {
    pub fn with_index(self, index: u32) -> (r: Self)
        ensures
            r.params == (GetGenericPortMappingEntryParams { index: Some(index) }),
    {
        GetGenericPortMappingEntryBuilder {
            params: GetGenericPortMappingEntryParams { index: Some(index) },
        }
    }

    pub fn build(self) -> (r: Action)
        ensures
            r == Action::GetGenericPortMappingEntry(self.params),
    {
        Action::GetGenericPortMappingEntry(self.params)
    }
}

impl From<GetGenericPortMappingEntryBuilder> for Action {
    fn from(builder: GetGenericPortMappingEntryBuilder) -> (r: Self)
        ensures
            r == Action::GetGenericPortMappingEntry(builder.params),
    {
        builder.build()
    }
}

impl vstd::std_specs::convert::FromSpecImpl<GetGenericPortMappingEntryBuilder> for Action {
    open spec fn obeys_from_spec() -> bool {
        true
    }

    open spec fn from_spec(builder: GetGenericPortMappingEntryBuilder) -> Action {
        Action::GetGenericPortMappingEntry(builder.params)
    }
}

// =============================================================================
// GetSpecificPortMappingEntry
// =============================================================================

/// Parameters for matching GetSpecificPortMappingEntry requests.
#[derive(Debug, Clone)]
pub struct GetSpecificPortMappingEntryParams {
    pub external_port: Option<u16>,
    pub protocol: Option<Protocol>,
}

/// Builder for GetSpecificPortMappingEntry matching parameters.
#[derive(Debug, Clone)]
pub struct GetSpecificPortMappingEntryBuilder {
    pub params: GetSpecificPortMappingEntryParams,
}

impl GetSpecificPortMappingEntryBuilder {
    pub fn with_external_port(self, port: u16) -> (r: Self)
        ensures
            r.params == (GetSpecificPortMappingEntryParams {
                external_port: Some(port),
                ..self.params
            }),
    {
        GetSpecificPortMappingEntryBuilder {
            params: GetSpecificPortMappingEntryParams { external_port: Some(port), ..self.params },
        }
    }

    pub fn with_protocol(self, protocol: Protocol) -> (r: Self)
        ensures
            r.params == (GetSpecificPortMappingEntryParams {
                protocol: Some(protocol),
                ..self.params
            }),
    {
        GetSpecificPortMappingEntryBuilder {
            params: GetSpecificPortMappingEntryParams { protocol: Some(protocol), ..self.params },
        }
    }

    pub fn build(self) -> (r: Action)
        ensures
            r == Action::GetSpecificPortMappingEntry(self.params),
    {
        Action::GetSpecificPortMappingEntry(self.params)
    }
}

impl From<GetSpecificPortMappingEntryBuilder> for Action {
    fn from(builder: GetSpecificPortMappingEntryBuilder) -> (r: Self)
        ensures
            r == Action::GetSpecificPortMappingEntry(builder.params),
    {
        builder.build()
    }
}

impl vstd::std_specs::convert::FromSpecImpl<GetSpecificPortMappingEntryBuilder> for Action {
    open spec fn obeys_from_spec() -> bool {
        true
    }

    open spec fn from_spec(builder: GetSpecificPortMappingEntryBuilder) -> Action {
        Action::GetSpecificPortMappingEntry(builder.params)
    }
}

} // verus!
