//! The gateway control engine: a discovered gateway, the builders that
//! validate an operation's parameters and produce its SOAP request, and
//! the decoders that interpret a response body as the operation's typed
//! result or error.
//!
//! The engine performs no I/O. For each operation, callers build the
//! request, POST it with the headers named on `SoapRequest`, and hand the
//! response body (whatever the HTTP status: gateways return faults with
//! status 500) to the operation's response decoder.

use vstd::prelude::*;
use vstd::string::StringSliceAdditionalSpecFns;

use crate::addr::{parse_ipv4, spec_parse_ipv4, Ipv4Addr, SocketAddrV4};
use crate::errors::{
    add_any_port_fault, add_port_fault, get_external_ip_fault, remove_port_fault,
    spec_add_any_port_error, spec_add_port_error, spec_get_external_ip_error,
    spec_remove_port_error, AddAnyPortError, AddPortError, GetExternalIpError, RemovePortError,
    RequestError,
};
use crate::soap::{
    action_header, build_add_port_args, build_envelope, build_remove_port_args, fault_of,
    spec_action_header, spec_add_port_args, spec_envelope, spec_fault, spec_remove_port_args,
    FaultInfo, FaultView, SoapRequest,
};
use crate::xml_stream::{
    first_text_of, read_xml_events, spec_first_text, xml_events_of, xml_parses, XmlEvent,
};
use crate::PortMappingProtocol;

verus! {

/// This structure represents a gateway found by the search functions.
#[derive(Debug, Clone, Eq, Hash)]
pub struct Gateway {
    /// Socket address of the gateway.
    pub addr: SocketAddrV4,
    /// Control url of the device.
    pub control_url: String,
}

impl PartialEq for Gateway {
    /// Two gateways are equal when both their address and their control
    /// URL are.
    fn eq(&self, other: &Gateway) -> (r: bool)
        ensures
            r == (self.addr == other.addr && self.control_url@ == other.control_url@),
    {
        self.addr == other.addr && self.control_url == other.control_url
    }
}

impl vstd::std_specs::cmp::PartialEqSpecImpl for Gateway {
    open spec fn obeys_eq_spec() -> bool {
        true
    }

    open spec fn eq_spec(&self, other: &Gateway) -> bool {
        self.addr == other.addr && self.control_url@ == other.control_url@
    }
}

impl Gateway {
    /// Build a gateway from its address and control URL.
    pub fn new(addr: SocketAddrV4, control_url: String) -> (g: Gateway)
        ensures
            g.addr == addr,
            g.control_url == control_url,
    {
        Gateway { addr, control_url }
    }

    /// The URL that accepts the gateway's SOAP requests:
    /// `http://<address><control url>`.
    pub open spec fn spec_url(self) -> Seq<char> {
        "http://"@ + self.addr.spec_str() + self.control_url@
    }

    /// Render the URL that accepts the gateway's SOAP requests.
    pub fn url(&self) -> (r: String)
        ensures
            r@ == self.spec_url(),
    {
        let mut s = String::from_str("http://");
        s.append(self.addr.to_text().as_str());
        s.append(self.control_url.as_str());
        assert(s@ =~= self.spec_url());
        s
    }

    /// Build the request of an external IP query. It takes no arguments.
    pub fn get_external_ip_request(&self) -> (r: SoapRequest)
        ensures
            r.url@ == self.spec_url(),
            r.action_header@ == spec_action_header("GetExternalIPAddress"@),
            r.body@ == spec_envelope("GetExternalIPAddress"@, ""@),
    {
        SoapRequest {
            url: self.url(),
            action_header: action_header("GetExternalIPAddress"),
            body: build_envelope("GetExternalIPAddress", ""),
        }
    }

    /// Build the request of a port mapping. A local address with port 0
    /// and an external port of 0 are rejected here, before anything is
    /// sent.
    pub fn add_port_request(
        &self,
        protocol: PortMappingProtocol,
        external_port: u16,
        local_addr: SocketAddrV4,
        lease_duration: u32,
        description: &str,
    ) -> (r: Result<SoapRequest, AddPortError>)
        ensures
            local_addr.port == 0 ==> r matches Err(AddPortError::InternalPortZeroInvalid),
            local_addr.port != 0 && external_port == 0 ==> r matches Err(
                AddPortError::ExternalPortZeroInvalid,
            ),
            local_addr.port != 0 && external_port != 0 ==> {
                &&& r matches Ok(req)
                &&& req.url@ == self.spec_url()
                &&& req.action_header@ == spec_action_header("AddPortMapping"@)
                &&& req.body@ == spec_envelope(
                    "AddPortMapping"@,
                    spec_add_port_args(
                        protocol,
                        external_port,
                        local_addr,
                        lease_duration,
                        description@,
                    ),
                )
            },
    {
        if local_addr.port() == 0 {
            return Err(AddPortError::InternalPortZeroInvalid);
        }
        if external_port == 0 {
            return Err(AddPortError::ExternalPortZeroInvalid);
        }
        let args = build_add_port_args(
            protocol,
            external_port,
            local_addr,
            lease_duration,
            description,
        );
        Ok(
            SoapRequest {
                url: self.url(),
                action_header: action_header("AddPortMapping"),
                body: build_envelope("AddPortMapping", args.as_str()),
            },
        )
    }

    /// Build the request of an any-port mapping: one candidate external
    /// port is drawn uniformly from 1 to 65534 — never 0 — and requested
    /// exactly once; a conflict is surfaced to the caller, whose retry
    /// policy may draw again. A local address with port 0 is rejected
    /// here, before anything is sent.
    pub fn add_any_port_request(
        &self,
        protocol: PortMappingProtocol,
        local_addr: SocketAddrV4,
        lease_duration: u32,
        description: &str,
    ) -> (r: Result<(SoapRequest, u16), AddAnyPortError>)
        ensures
            local_addr.port == 0 ==> r matches Err(AddAnyPortError::InternalPortZeroInvalid),
            local_addr.port != 0 ==> {
                &&& r matches Ok(p)
                &&& 1 <= p.1 <= 65534
                &&& p.0.url@ == self.spec_url()
                &&& p.0.action_header@ == spec_action_header("AddPortMapping"@)
                &&& p.0.body@ == spec_envelope(
                    "AddPortMapping"@,
                    spec_add_port_args(protocol, p.1, local_addr, lease_duration, description@),
                )
            },
    {
        if local_addr.port() == 0 {
            return Err(AddAnyPortError::InternalPortZeroInvalid);
        }
        let candidate = random_port_candidate();
        let args = build_add_port_args(protocol, candidate, local_addr, lease_duration, description);
        Ok(
            (
                SoapRequest {
                    url: self.url(),
                    action_header: action_header("AddPortMapping"),
                    body: build_envelope("AddPortMapping", args.as_str()),
                },
                candidate,
            ),
        )
    }

    /// Build the request of a port mapping removal.
    pub fn remove_port_request(&self, protocol: PortMappingProtocol, external_port: u16) -> (r:
        SoapRequest)
        ensures
            r.url@ == self.spec_url(),
            r.action_header@ == spec_action_header("DeletePortMapping"@),
            r.body@ == spec_envelope(
                "DeletePortMapping"@,
                spec_remove_port_args(protocol, external_port),
            ),
    {
        let args = build_remove_port_args(protocol, external_port);
        SoapRequest {
            url: self.url(),
            action_header: action_header("DeletePortMapping"),
            body: build_envelope("DeletePortMapping", args.as_str()),
        }
    }
}

/// Relies on `rand::random_range`: returns a uniformly drawn value inside
/// the given (non-empty) range.
#[verifier::external_body]
fn random_port_candidate() -> (p: u16)
    ensures
        1 <= p <= 65534,
{
    rand::random_range(1..=65534u16)
}

/// Decode an external IP query response: on success, the text of the
/// `NewExternalIPAddress` element, parsed as a dotted-quad address.
pub fn get_external_ip_outcome(events: &Vec<XmlEvent>) -> (r: Result<Ipv4Addr, GetExternalIpError>)
    ensures
        match r {
            Ok(ip) => {
                &&& spec_fault(events@) is Absent
                &&& spec_first_text(events@, "NewExternalIPAddress"@) matches Some(t)
                    && spec_parse_ipv4(t) == Some(ip)
            },
            Err(e) => {
                ||| spec_fault(events@) matches FaultView::Fault(c, d)
                    && spec_get_external_ip_error(c, d, e)
                ||| {
                    &&& spec_fault(events@) is Garbled
                    &&& e matches GetExternalIpError::RequestError(RequestError::InvalidResponse(_))
                }
                ||| {
                    &&& spec_fault(events@) is Absent
                    &&& !(spec_first_text(events@, "NewExternalIPAddress"@) matches Some(t)
                        && spec_parse_ipv4(t) is Some)
                    &&& e matches GetExternalIpError::RequestError(RequestError::InvalidResponse(_))
                }
            },
        },
{
    match fault_of(events) {
        FaultInfo::Fault(c, d) => Err(get_external_ip_fault(c, d)),
        FaultInfo::Garbled => Err(
            GetExternalIpError::RequestError(
                RequestError::InvalidResponse(
                    String::from_str("fault error code is not a number"),
                ),
            ),
        ),
        FaultInfo::Absent => match first_text_of(events, "NewExternalIPAddress") {
            Some(t) => match parse_ipv4(t.as_str()) {
                Some(ip) => Ok(ip),
                None => Err(
                    GetExternalIpError::RequestError(
                        RequestError::InvalidResponse(
                            String::from_str("missing or invalid external IP address"),
                        ),
                    ),
                ),
            },
            None => Err(
                GetExternalIpError::RequestError(
                    RequestError::InvalidResponse(
                        String::from_str("missing or invalid external IP address"),
                    ),
                ),
            ),
        },
    }
}

/// Decode a port mapping response: success has an empty payload, so no
/// fault section means the mapping was made.
pub fn add_port_outcome(events: &Vec<XmlEvent>) -> (r: Result<(), AddPortError>)
    ensures
        match r {
            Ok(u) => spec_fault(events@) is Absent,
            Err(e) => {
                ||| spec_fault(events@) matches FaultView::Fault(c, d)
                    && spec_add_port_error(c, d, e)
                ||| {
                    &&& spec_fault(events@) is Garbled
                    &&& e matches AddPortError::RequestError(RequestError::InvalidResponse(_))
                }
            },
        },
{
    match fault_of(events) {
        FaultInfo::Absent => Ok(()),
        FaultInfo::Fault(c, d) => Err(add_port_fault(c, d)),
        FaultInfo::Garbled => Err(
            AddPortError::RequestError(
                RequestError::InvalidResponse(
                    String::from_str("fault error code is not a number"),
                ),
            ),
        ),
    }
}

/// Decode an any-port mapping response for the candidate port that was
/// requested: on success the mapped external port is that candidate.
pub fn add_any_port_outcome(candidate: u16, events: &Vec<XmlEvent>) -> (r: Result<
    u16,
    AddAnyPortError,
>)
    ensures
        match r {
            Ok(p) => p == candidate && spec_fault(events@) is Absent,
            Err(e) => {
                ||| spec_fault(events@) matches FaultView::Fault(c, d)
                    && spec_add_any_port_error(c, d, e)
                ||| {
                    &&& spec_fault(events@) is Garbled
                    &&& e matches AddAnyPortError::RequestError(RequestError::InvalidResponse(_))
                }
            },
        },
{
    match fault_of(events) {
        FaultInfo::Absent => Ok(candidate),
        FaultInfo::Fault(c, d) => Err(add_any_port_fault(c, d)),
        FaultInfo::Garbled => Err(
            AddAnyPortError::RequestError(
                RequestError::InvalidResponse(
                    String::from_str("fault error code is not a number"),
                ),
            ),
        ),
    }
}

/// Decode a port mapping removal response: success has an empty payload,
/// so no fault section means the mapping is gone.
pub fn remove_port_outcome(events: &Vec<XmlEvent>) -> (r: Result<(), RemovePortError>)
    ensures
        match r {
            Ok(u) => spec_fault(events@) is Absent,
            Err(e) => {
                ||| spec_fault(events@) matches FaultView::Fault(c, d)
                    && spec_remove_port_error(c, d, e)
                ||| {
                    &&& spec_fault(events@) is Garbled
                    &&& e matches RemovePortError::RequestError(RequestError::InvalidResponse(_))
                }
            },
        },
{
    match fault_of(events) {
        FaultInfo::Absent => Ok(()),
        FaultInfo::Fault(c, d) => Err(remove_port_fault(c, d)),
        FaultInfo::Garbled => Err(
            RemovePortError::RequestError(
                RequestError::InvalidResponse(
                    String::from_str("fault error code is not a number"),
                ),
            ),
        ),
    }
}

/// The event stream of a response body's text.
pub open spec fn spec_response_events(body: &str) -> Seq<XmlEvent> {
    xml_events_of(body.spec_bytes())
}

/// Interpret the raw response body of an external IP query: on a
/// well-formed, fault-free body naming a valid address, exactly that
/// address; a body that breaks off in a syntax error surfaces as an
/// invalid-response error.
pub fn get_external_ip_response(body: &str) -> (r: Result<Ipv4Addr, GetExternalIpError>)
    ensures
        match r {
            Ok(ip) => {
                &&& xml_parses(body.spec_bytes())
                &&& spec_fault(spec_response_events(body)) is Absent
                &&& spec_first_text(spec_response_events(body), "NewExternalIPAddress"@) matches
                    Some(t) && spec_parse_ipv4(t) == Some(ip)
            },
            Err(e) => {
                ||| {
                    &&& !xml_parses(body.spec_bytes())
                    &&& e matches GetExternalIpError::RequestError(RequestError::InvalidResponse(_))
                }
                ||| {
                    &&& xml_parses(body.spec_bytes())
                    &&& spec_fault(spec_response_events(body)) matches FaultView::Fault(c, d)
                        && spec_get_external_ip_error(c, d, e)
                }
                ||| {
                    &&& xml_parses(body.spec_bytes())
                    &&& spec_fault(spec_response_events(body)) is Garbled
                    &&& e matches GetExternalIpError::RequestError(RequestError::InvalidResponse(_))
                }
                ||| {
                    &&& xml_parses(body.spec_bytes())
                    &&& spec_fault(spec_response_events(body)) is Absent
                    &&& !(spec_first_text(spec_response_events(body), "NewExternalIPAddress"@)
                        matches Some(t) && spec_parse_ipv4(t) is Some)
                    &&& e matches GetExternalIpError::RequestError(RequestError::InvalidResponse(_))
                }
            },
        },
{
    let (events, err) = read_xml_events(body.as_bytes());
    match err {
        Some(m) => Err(GetExternalIpError::RequestError(RequestError::InvalidResponse(m))),
        None => get_external_ip_outcome(&events),
    }
}

/// Interpret the raw response body of a port mapping request: on a
/// well-formed, fault-free body, success.
pub fn add_port_response(body: &str) -> (r: Result<(), AddPortError>)
    ensures
        match r {
            Ok(u) => xml_parses(body.spec_bytes()) && spec_fault(
                spec_response_events(body),
            ) is Absent,
            Err(e) => {
                ||| {
                    &&& !xml_parses(body.spec_bytes())
                    &&& e matches AddPortError::RequestError(RequestError::InvalidResponse(_))
                }
                ||| {
                    &&& xml_parses(body.spec_bytes())
                    &&& spec_fault(spec_response_events(body)) matches FaultView::Fault(c, d)
                        && spec_add_port_error(c, d, e)
                }
                ||| {
                    &&& xml_parses(body.spec_bytes())
                    &&& spec_fault(spec_response_events(body)) is Garbled
                    &&& e matches AddPortError::RequestError(RequestError::InvalidResponse(_))
                }
            },
        },
{
    let (events, err) = read_xml_events(body.as_bytes());
    match err {
        Some(m) => Err(AddPortError::RequestError(RequestError::InvalidResponse(m))),
        None => add_port_outcome(&events),
    }
}

/// Interpret the raw response body of an any-port mapping request made
/// with the given candidate port: on a well-formed, fault-free body,
/// exactly that candidate.
pub fn add_any_port_response(candidate: u16, body: &str) -> (r: Result<u16, AddAnyPortError>)
    ensures
        match r {
            Ok(p) => p == candidate && xml_parses(body.spec_bytes()) && spec_fault(
                spec_response_events(body),
            ) is Absent,
            Err(e) => {
                ||| {
                    &&& !xml_parses(body.spec_bytes())
                    &&& e matches AddAnyPortError::RequestError(RequestError::InvalidResponse(_))
                }
                ||| {
                    &&& xml_parses(body.spec_bytes())
                    &&& spec_fault(spec_response_events(body)) matches FaultView::Fault(c, d)
                        && spec_add_any_port_error(c, d, e)
                }
                ||| {
                    &&& xml_parses(body.spec_bytes())
                    &&& spec_fault(spec_response_events(body)) is Garbled
                    &&& e matches AddAnyPortError::RequestError(RequestError::InvalidResponse(_))
                }
            },
        },
{
    let (events, err) = read_xml_events(body.as_bytes());
    match err {
        Some(m) => Err(AddAnyPortError::RequestError(RequestError::InvalidResponse(m))),
        None => add_any_port_outcome(candidate, &events),
    }
}

/// Interpret the raw response body of a port mapping removal: on a
/// well-formed, fault-free body, success.
pub fn remove_port_response(body: &str) -> (r: Result<(), RemovePortError>)
    ensures
        match r {
            Ok(u) => xml_parses(body.spec_bytes()) && spec_fault(
                spec_response_events(body),
            ) is Absent,
            Err(e) => {
                ||| {
                    &&& !xml_parses(body.spec_bytes())
                    &&& e matches RemovePortError::RequestError(RequestError::InvalidResponse(_))
                }
                ||| {
                    &&& xml_parses(body.spec_bytes())
                    &&& spec_fault(spec_response_events(body)) matches FaultView::Fault(c, d)
                        && spec_remove_port_error(c, d, e)
                }
                ||| {
                    &&& xml_parses(body.spec_bytes())
                    &&& spec_fault(spec_response_events(body)) is Garbled
                    &&& e matches RemovePortError::RequestError(RequestError::InvalidResponse(_))
                }
            },
        },
{
    let (events, err) = read_xml_events(body.as_bytes());
    match err {
        Some(m) => Err(RemovePortError::RequestError(RequestError::InvalidResponse(m))),
        None => remove_port_outcome(&events),
    }
}

/// The external socket address of a completed external-address operation:
/// the queried external IP with the allocated external port.
pub fn external_address(ip: Ipv4Addr, port: u16) -> (r: SocketAddrV4)
    ensures
        r.ip == ip,
        r.port == port,
{
    SocketAddrV4 { ip, port }
}

} // verus!
