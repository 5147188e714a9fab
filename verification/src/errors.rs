//! Error enumerations of the engine, one per public operation plus the
//! generic request error they all wrap, and the translation of
//! gateway-reported UPnP fault codes into them.
//!
//! The translation table (fault code, meaning, operations it applies to):
//! 401 and 606 mean the action is not authorized (every operation); 714
//! means no such port mapping (removal); 715 means no free ports (any-port
//! allocation); 716 means an internal port of zero is invalid (both add
//! operations); 717 means a conflicting mapping exists; 724 means the
//! gateway requires equal internal and external ports (both surface as the
//! operation's conflict variant); 725 means only permanent leases are
//! supported; 728 means the description is too long. Codes outside an
//! operation's set surface as the generic code/description pair.
//!
//! Transport- and parse-level failures carry the rendered message of the
//! underlying error: the code that owns the sockets builds them.

use vstd::prelude::*;

verus! {

/// Errors that can occur when sending a request to the gateway.
#[derive(Debug)]
pub enum RequestError {
    /// HTTP error, as its rendered message.
    HttpError(String),
    /// IO error, as its rendered message.
    IoError(String),
    /// The response from the gateway could not be parsed.
    InvalidResponse(String),
    /// The gateway returned an unhandled error code and description.
    ErrorCode(u16, String),
    /// Timer error, as its rendered message.
    TimerError(String),
    /// UTF-8 decoding error, as its rendered message.
    Utf8Error(String),
    /// Invalid URI, as its rendered message.
    InvalidUri(String),
}

/// Errors returned by an external IP query.
#[derive(Debug)]
pub enum GetExternalIpError {
    /// The client is not authorized to perform the operation.
    ActionNotAuthorized,
    /// Some other error occurred performing the request.
    RequestError(RequestError),
}

/// Errors returned by a port mapping removal.
#[derive(Debug)]
pub enum RemovePortError {
    /// The client is not authorized to perform the operation.
    ActionNotAuthorized,
    /// No such port mapping.
    NoSuchPortMapping,
    /// Some other error occurred performing the request.
    RequestError(RequestError),
}

/// Errors returned by an any-port mapping request.
#[derive(Debug)]
pub enum AddAnyPortError {
    /// The client is not authorized to perform the operation.
    ActionNotAuthorized,
    /// Can not add a mapping for local port 0.
    InternalPortZeroInvalid,
    /// The gateway does not have any free ports.
    NoPortsAvailable,
    /// The gateway can only map internal ports to same-numbered external
    /// ports and this external port is in use.
    ExternalPortInUse,
    /// The gateway only supports permanent leases (a lease duration of 0).
    OnlyPermanentLeasesSupported,
    /// The description was too long for the gateway to handle.
    DescriptionTooLong,
    /// Some other error occurred performing the request.
    RequestError(RequestError),
}

/// Errors returned by a port mapping request.
#[derive(Debug)]
pub enum AddPortError {
    /// The client is not authorized to perform the operation.
    ActionNotAuthorized,
    /// Can not add a mapping for local port 0.
    InternalPortZeroInvalid,
    /// External port number 0 (any port) is considered invalid by the
    /// gateway.
    ExternalPortZeroInvalid,
    /// The requested mapping conflicts with a mapping assigned to another
    /// client.
    PortInUse,
    /// The gateway requires that the requested internal and external ports
    /// are the same.
    SamePortValuesRequired,
    /// The gateway only supports permanent leases (a lease duration of 0).
    OnlyPermanentLeasesSupported,
    /// The description was too long for the gateway to handle.
    DescriptionTooLong,
    /// Some other error occurred performing the request.
    RequestError(RequestError),
}

/// Errors that can occur while trying to find the gateway.
#[derive(Debug)]
pub enum SearchError {
    /// HTTP error, as its rendered message.
    HttpError(String),
    /// Invalid URI, as its rendered message.
    InvalidUri(String),
    /// The response from the gateway could not be parsed.
    InvalidResponse,
    /// IO error, as its rendered message. A discovery timeout surfaces
    /// here, distinct from `InvalidResponse`.
    IoError(String),
    /// UTF-8 decoding error, as its rendered message.
    Utf8Error(String),
    /// XML processing error, as its rendered message.
    XmlError(String),
}

/// The fault codes that mean "action not authorized".
pub open spec fn spec_is_auth_code(code: u16) -> bool {
    code == 401 || code == 606
}

/// The external IP query's reading of a gateway fault: `code` and
/// `description` translate to exactly `e`.
pub open spec fn spec_get_external_ip_error(code: u16, description: Seq<char>, e: GetExternalIpError) -> bool {
    match e {
        GetExternalIpError::ActionNotAuthorized => spec_is_auth_code(code),
        GetExternalIpError::RequestError(re) => {
            &&& !spec_is_auth_code(code)
            &&& re matches RequestError::ErrorCode(c, d) && c == code && d@ == description
        },
    }
}

/// The removal operation's reading of a gateway fault.
pub open spec fn spec_remove_port_error(code: u16, description: Seq<char>, e: RemovePortError) -> bool {
    match e {
        RemovePortError::ActionNotAuthorized => spec_is_auth_code(code),
        RemovePortError::NoSuchPortMapping => code == 714,
        RemovePortError::RequestError(re) => {
            &&& !spec_is_auth_code(code)
            &&& code != 714
            &&& re matches RequestError::ErrorCode(c, d) && c == code && d@ == description
        },
    }
}

/// The add-port operation's reading of a gateway fault.
pub open spec fn spec_add_port_error(code: u16, description: Seq<char>, e: AddPortError) -> bool {
    match e {
        AddPortError::ActionNotAuthorized => spec_is_auth_code(code),
        AddPortError::InternalPortZeroInvalid => code == 716,
        AddPortError::PortInUse => code == 717,
        AddPortError::SamePortValuesRequired => code == 724,
        AddPortError::OnlyPermanentLeasesSupported => code == 725,
        AddPortError::DescriptionTooLong => code == 728,
        AddPortError::ExternalPortZeroInvalid => false,
        AddPortError::RequestError(re) => {
            &&& !spec_is_auth_code(code)
            &&& code != 716
            &&& code != 717
            &&& code != 724
            &&& code != 725
            &&& code != 728
            &&& re matches RequestError::ErrorCode(c, d) && c == code && d@ == description
        },
    }
}

/// The any-port operation's reading of a gateway fault. Both conflict
/// codes (717 and 724) surface as `ExternalPortInUse`: the chosen
/// candidate port cannot be used and the caller may retry with another.
pub open spec fn spec_add_any_port_error(code: u16, description: Seq<char>, e: AddAnyPortError) -> bool {
    match e {
        AddAnyPortError::ActionNotAuthorized => spec_is_auth_code(code),
        AddAnyPortError::NoPortsAvailable => code == 715,
        AddAnyPortError::InternalPortZeroInvalid => code == 716,
        AddAnyPortError::ExternalPortInUse => code == 717 || code == 724,
        AddAnyPortError::OnlyPermanentLeasesSupported => code == 725,
        AddAnyPortError::DescriptionTooLong => code == 728,
        AddAnyPortError::RequestError(re) => {
            &&& !spec_is_auth_code(code)
            &&& code != 715
            &&& code != 716
            &&& code != 717
            &&& code != 724
            &&& code != 725
            &&& code != 728
            &&& re matches RequestError::ErrorCode(c, d) && c == code && d@ == description
        },
    }
}

/// Translate a gateway fault for the external IP query.
pub fn get_external_ip_fault(code: u16, description: String) -> (e: GetExternalIpError)
    ensures
        spec_get_external_ip_error(code, description@, e),
{
    if code == 401 || code == 606 {
        GetExternalIpError::ActionNotAuthorized
    } else {
        GetExternalIpError::RequestError(RequestError::ErrorCode(code, description))
    }
}

/// Translate a gateway fault for the removal operation.
pub fn remove_port_fault(code: u16, description: String) -> (e: RemovePortError)
    ensures
        spec_remove_port_error(code, description@, e),
{
    if code == 401 || code == 606 {
        RemovePortError::ActionNotAuthorized
    } else if code == 714 {
        RemovePortError::NoSuchPortMapping
    } else {
        RemovePortError::RequestError(RequestError::ErrorCode(code, description))
    }
}

/// Translate a gateway fault for the add-port operation.
pub fn add_port_fault(code: u16, description: String) -> (e: AddPortError)
    ensures
        spec_add_port_error(code, description@, e),
{
    if code == 401 || code == 606 {
        AddPortError::ActionNotAuthorized
    } else if code == 716 {
        AddPortError::InternalPortZeroInvalid
    } else if code == 717 {
        AddPortError::PortInUse
    } else if code == 724 {
        AddPortError::SamePortValuesRequired
    } else if code == 725 {
        AddPortError::OnlyPermanentLeasesSupported
    } else if code == 728 {
        AddPortError::DescriptionTooLong
    } else {
        AddPortError::RequestError(RequestError::ErrorCode(code, description))
    }
}

/// Translate a gateway fault for the any-port operation.
pub fn add_any_port_fault(code: u16, description: String) -> (e: AddAnyPortError)
    ensures
        spec_add_any_port_error(code, description@, e),
{
    if code == 401 || code == 606 {
        AddAnyPortError::ActionNotAuthorized
    } else if code == 715 {
        AddAnyPortError::NoPortsAvailable
    } else if code == 716 {
        AddAnyPortError::InternalPortZeroInvalid
    } else if code == 717 || code == 724 {
        AddAnyPortError::ExternalPortInUse
    } else if code == 725 {
        AddAnyPortError::OnlyPermanentLeasesSupported
    } else if code == 728 {
        AddAnyPortError::DescriptionTooLong
    } else {
        AddAnyPortError::RequestError(RequestError::ErrorCode(code, description))
    }
}

/// Lift an external IP query error into an any-port error, for the
/// combined external-address operation: the first sub-operation's error is
/// surfaced through the second's enumeration.
pub fn wrap_get_external_ip_error(e: GetExternalIpError) -> (r: AddAnyPortError)
    ensures
        match e {
            GetExternalIpError::ActionNotAuthorized => r is ActionNotAuthorized,
            GetExternalIpError::RequestError(re) => r matches AddAnyPortError::RequestError(x) && x
                == re,
        },
{
    match e {
        GetExternalIpError::ActionNotAuthorized => AddAnyPortError::ActionNotAuthorized,
        GetExternalIpError::RequestError(re) => AddAnyPortError::RequestError(re),
    }
}

} // verus!
