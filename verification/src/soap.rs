//! The SOAP codec: building the envelope and argument list of each control
//! action, and decoding a response body into either a success or a fault
//! carrying a UPnP error code and description.

use vstd::prelude::*;

use crate::addr::SocketAddrV4;
use crate::errors::RequestError;
use crate::text::{spec_dec, spec_parse_u16, parse_u16, u32_to_dec};
use crate::xml_stream::{first_text_of, spec_first_text, XmlEvent};
use crate::PortMappingProtocol;

verus! {

/// Errors of the SOAP transport: connection or IO failure, an invalid
/// URL, or a response body that is not UTF-8. Each carries the rendered
/// message of the underlying error.
pub enum Error {
    /// HTTP error.
    HttpError(String),
    /// IO error.
    IoError(String),
    /// Invalid URI.
    InvalidUri(String),
    /// UTF-8 decoding error.
    Utf8Error(String),
}

impl Error {
    /// Lift a transport error into the generic request error.
    pub fn into_request_error(self) -> (r: RequestError)
        ensures
            match self {
                Error::HttpError(m) => r matches RequestError::HttpError(x) && x == m,
                Error::IoError(m) => r matches RequestError::IoError(x) && x == m,
                Error::InvalidUri(m) => r matches RequestError::InvalidUri(x) && x == m,
                Error::Utf8Error(m) => r matches RequestError::Utf8Error(x) && x == m,
            },
    {
        match self {
            Error::HttpError(m) => RequestError::HttpError(m),
            Error::IoError(m) => RequestError::IoError(m),
            Error::InvalidUri(m) => RequestError::InvalidUri(m),
            Error::Utf8Error(m) => RequestError::Utf8Error(m),
        }
    }
}

/// One SOAP HTTP POST, ready to send: the target URL, the `SOAPAction`
/// header value, and the XML body. The sender also sets
/// `Content-Type: text/xml` and `Content-Length` to the body's byte
/// length.
pub struct SoapRequest {
    /// Where to POST: `http://<gateway address><control url>`.
    pub url: String,
    /// The `SOAPAction` header value.
    pub action_header: String,
    /// The XML body.
    pub body: String,
}

/// The `SOAPAction` header value for an action: the WAN IP connection
/// service URN, a `#`, and the action name, in quotes.
pub open spec fn spec_action_header(action: Seq<char>) -> Seq<char> {
    "\"urn:schemas-upnp-org:service:WANIPConnection:1#"@ + action + "\""@
}

/// Build the `SOAPAction` header value for an action.
pub fn action_header(action: &str) -> (r: String)
    ensures
        r@ == spec_action_header(action@),
{
    let mut s = String::from_str("\"urn:schemas-upnp-org:service:WANIPConnection:1#");
    s.append(action);
    s.append("\"");
    assert(s@ =~= spec_action_header(action@));
    s
}

/// The SOAP envelope for an action: the action's element, holding the
/// arguments, inside the standard envelope and body elements, in the WAN
/// IP connection service namespace.
pub open spec fn spec_envelope(action: Seq<char>, args: Seq<char>) -> Seq<char> {
    "<?xml version=\"1.0\"?><s:Envelope xmlns:s=\"http://schemas.xmlsoap.org/soap/envelope/\" s:encodingStyle=\"http://schemas.xmlsoap.org/soap/encoding/\"><s:Body><u:"@
        + action + " xmlns:u=\"urn:schemas-upnp-org:service:WANIPConnection:1\">"@ + args + "</u:"@
        + action + "></s:Body></s:Envelope>"@
}

/// Build the SOAP envelope for an action and its argument list.
pub fn build_envelope(action: &str, args: &str) -> (r: String)
    ensures
        r@ == spec_envelope(action@, args@),
{
    let mut s = String::from_str(
        "<?xml version=\"1.0\"?><s:Envelope xmlns:s=\"http://schemas.xmlsoap.org/soap/envelope/\" s:encodingStyle=\"http://schemas.xmlsoap.org/soap/encoding/\"><s:Body><u:",
    );
    s.append(action);
    s.append(" xmlns:u=\"urn:schemas-upnp-org:service:WANIPConnection:1\">");
    s.append(args);
    s.append("</u:");
    s.append(action);
    s.append("></s:Body></s:Envelope>");
    assert(s@ =~= spec_envelope(action@, args@));
    s
}

/// The argument list of a port mapping request: remote host (empty),
/// external port, protocol, internal port and client from the local
/// address, enabled flag, description, and lease duration in seconds.
pub open spec fn spec_add_port_args(
    protocol: PortMappingProtocol,
    external_port: u16,
    local_addr: SocketAddrV4,
    lease_duration: u32,
    description: Seq<char>,
) -> Seq<char> {
    "<NewRemoteHost></NewRemoteHost><NewExternalPort>"@ + spec_dec(external_port as nat)
        + "</NewExternalPort><NewProtocol>"@ + protocol.spec_label()
        + "</NewProtocol><NewInternalPort>"@ + spec_dec(local_addr.port as nat)
        + "</NewInternalPort><NewInternalClient>"@ + local_addr.ip.spec_str()
        + "</NewInternalClient><NewEnabled>1</NewEnabled><NewPortMappingDescription>"@
        + description + "</NewPortMappingDescription><NewLeaseDuration>"@ + spec_dec(
        lease_duration as nat,
    ) + "</NewLeaseDuration>"@
}

/// Build the argument list of a port mapping request.
pub fn build_add_port_args(
    protocol: PortMappingProtocol,
    external_port: u16,
    local_addr: SocketAddrV4,
    lease_duration: u32,
    description: &str,
) -> (r: String)
    ensures
        r@ == spec_add_port_args(
            protocol,
            external_port,
            local_addr,
            lease_duration,
            description@,
        ),
{
    let mut s = String::from_str("<NewRemoteHost></NewRemoteHost><NewExternalPort>");
    s.append(u32_to_dec(external_port as u32).as_str());
    s.append("</NewExternalPort><NewProtocol>");
    s.append(protocol.label());
    s.append("</NewProtocol><NewInternalPort>");
    s.append(u32_to_dec(local_addr.port() as u32).as_str());
    s.append("</NewInternalPort><NewInternalClient>");
    s.append(local_addr.ip().to_dotted().as_str());
    s.append("</NewInternalClient><NewEnabled>1</NewEnabled><NewPortMappingDescription>");
    s.append(description);
    s.append("</NewPortMappingDescription><NewLeaseDuration>");
    s.append(u32_to_dec(lease_duration).as_str());
    s.append("</NewLeaseDuration>");
    assert(s@ =~= spec_add_port_args(
        protocol,
        external_port,
        local_addr,
        lease_duration,
        description@,
    ));
    s
}

/// The argument list of a port mapping removal: remote host (empty),
/// external port, and protocol.
pub open spec fn spec_remove_port_args(protocol: PortMappingProtocol, external_port: u16) -> Seq<
    char,
> {
    "<NewRemoteHost></NewRemoteHost><NewExternalPort>"@ + spec_dec(external_port as nat)
        + "</NewExternalPort><NewProtocol>"@ + protocol.spec_label() + "</NewProtocol>"@
}

/// Build the argument list of a port mapping removal.
pub fn build_remove_port_args(protocol: PortMappingProtocol, external_port: u16) -> (r: String)
    ensures
        r@ == spec_remove_port_args(protocol, external_port),
{
    let mut s = String::from_str("<NewRemoteHost></NewRemoteHost><NewExternalPort>");
    s.append(u32_to_dec(external_port as u32).as_str());
    s.append("</NewExternalPort><NewProtocol>");
    s.append(protocol.label());
    s.append("</NewProtocol>");
    assert(s@ =~= spec_remove_port_args(protocol, external_port));
    s
}

/// What a response body's fault section says, at the specification level.
pub enum FaultView {
    /// No `errorCode` element: the action succeeded.
    Absent,
    /// A fault with its code and description (empty if the body names
    /// none).
    Fault(u16, Seq<char>),
    /// An `errorCode` element whose text is not a decimal `u16`: the body
    /// is malformed.
    Garbled,
}

/// What a response body's fault section says: the decoded counterpart of
/// `FaultView`.
pub enum FaultInfo {
    /// No `errorCode` element: the action succeeded.
    Absent,
    /// A fault with its code and description.
    Fault(u16, String),
    /// An `errorCode` element whose text is not a decimal `u16`.
    Garbled,
}

/// The fault description of a response body: the text of its
/// `errorDescription` element, or empty if there is none.
pub open spec fn spec_fault_description(evs: Seq<XmlEvent>) -> Seq<char> {
    match spec_first_text(evs, "errorDescription"@) {
        Some(d) => d,
        None => Seq::empty(),
    }
}

/// The fault section of a response body: a fault is recognized exactly
/// where an `errorCode` element with decimal `u16` text exists; its
/// description is the `errorDescription` text, or empty.
pub open spec fn spec_fault(evs: Seq<XmlEvent>) -> FaultView {
    match spec_first_text(evs, "errorCode"@) {
        None => FaultView::Absent,
        Some(t) => match spec_parse_u16(t) {
            Some(c) => FaultView::Fault(c, spec_fault_description(evs)),
            None => FaultView::Garbled,
        },
    }
}

/// Decode the fault section of a response body's event stream.
pub fn fault_of(events: &Vec<XmlEvent>) -> (r: FaultInfo)
    ensures
        match r {
            FaultInfo::Absent => spec_fault(events@) is Absent,
            FaultInfo::Fault(c, d) => spec_fault(events@) matches FaultView::Fault(cc, dd) && cc
                == c && dd == d@,
            FaultInfo::Garbled => spec_fault(events@) is Garbled,
        },
{
    match first_text_of(events, "errorCode") {
        None => FaultInfo::Absent,
        Some(t) => match parse_u16(t.as_str()) {
            None => FaultInfo::Garbled,
            Some(c) => {
                let d = match first_text_of(events, "errorDescription") {
                    Some(d) => d,
                    None => String::new(),
                };
                FaultInfo::Fault(c, d)
            },
        },
    }
}

} // verus!
