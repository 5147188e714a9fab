//! Client-side engine for the UPnP Internet Gateway Device (IGD) control
//! protocol: parsing of SSDP discovery replies, streaming extraction of the
//! control endpoint URL from a device description document, the SOAP
//! request/response codec, and translation of gateway-reported UPnP error
//! codes into per-operation error enumerations.
//!
//! The engine itself performs no I/O: callers feed it the bytes they read
//! from the network and send the request strings it builds.

use vstd::prelude::*;

pub mod addr;
pub mod errors;
pub mod gateway;
pub mod search;
pub mod soap;
pub mod text;
pub mod xml_stream;

pub use crate::errors::{
    AddAnyPortError, AddPortError, GetExternalIpError, RemovePortError, RequestError, SearchError,
};
pub use crate::gateway::Gateway;
pub use crate::search::{parse_control_url, parse_result, SEARCH_REQUEST};

verus! {

/// Represents the protocols available for port mapping.
#[derive(Debug, Clone, Copy, PartialEq, Eq, Structural)]
pub enum PortMappingProtocol {
    /// TCP protocol
    TCP,
    /// UDP protocol
    UDP,
}

impl PortMappingProtocol {
    /// The protocol name as it appears in SOAP request bodies.
    pub open spec fn spec_label(self) -> Seq<char> {
        match self {
            PortMappingProtocol::TCP => "TCP"@,
            PortMappingProtocol::UDP => "UDP"@,
        }
    }

    /// The protocol name as it appears in SOAP request bodies.
    pub fn label(&self) -> (r: &'static str)
        ensures
            r@ == self.spec_label(),
    {
        match self {
            PortMappingProtocol::TCP => "TCP",
            PortMappingProtocol::UDP => "UDP",
        }
    }
}

} // verus!
