use igd::addr::{Ipv4Addr, SocketAddrV4};
use igd::errors::{
    add_any_port_fault, add_port_fault, get_external_ip_fault, remove_port_fault,
    wrap_get_external_ip_error, AddAnyPortError, AddPortError, GetExternalIpError,
    RemovePortError, RequestError,
};
use igd::gateway::{
    add_any_port_response, add_port_response, external_address, get_external_ip_response,
    remove_port_response,
};
use igd::soap::Error;
use igd::Gateway;
use igd::PortMappingProtocol;

fn gateway() -> Gateway {
    Gateway::new(
        SocketAddrV4::new(Ipv4Addr::new(192, 168, 0, 1), 1900),
        String::from("/ctl"),
    )
}

fn fault_body(code: &str) -> String {
    format!(
        "<Envelope><Body><Fault><detail><UPnPError><errorCode>{}</errorCode><errorDescription>why</errorDescription></UPnPError></detail></Fault></Body></Envelope>",
        code
    )
}

#[test]
fn test_gateway_url() {
    assert_eq!(&gateway().url()[..], "http://192.168.0.1:1900/ctl");
}

#[test]
fn test_gateway_equality() {
    let a = gateway();
    let b = gateway();
    assert_eq!(a, b);
    let c = Gateway::new(
        SocketAddrV4::new(Ipv4Addr::new(192, 168, 0, 1), 1900),
        String::from("/other"),
    );
    assert!(a != c);
}

#[test]
fn test_get_external_ip_request_content() {
    let req = gateway().get_external_ip_request();
    assert_eq!(&req.url[..], "http://192.168.0.1:1900/ctl");
    assert_eq!(
        &req.action_header[..],
        "\"urn:schemas-upnp-org:service:WANIPConnection:1#GetExternalIPAddress\""
    );
    assert_eq!(
        &req.body[..],
        "<?xml version=\"1.0\"?><s:Envelope xmlns:s=\"http://schemas.xmlsoap.org/soap/envelope/\" s:encodingStyle=\"http://schemas.xmlsoap.org/soap/encoding/\"><s:Body><u:GetExternalIPAddress xmlns:u=\"urn:schemas-upnp-org:service:WANIPConnection:1\"></u:GetExternalIPAddress></s:Body></s:Envelope>"
    );
}

#[test]
fn test_add_port_request_content() {
    let local = SocketAddrV4::new(Ipv4Addr::new(192, 168, 0, 10), 4000);
    let req = gateway()
        .add_port_request(PortMappingProtocol::TCP, 8080, local, 60, "igd test")
        .unwrap();
    assert_eq!(
        &req.action_header[..],
        "\"urn:schemas-upnp-org:service:WANIPConnection:1#AddPortMapping\""
    );
    assert_eq!(
        &req.body[..],
        "<?xml version=\"1.0\"?><s:Envelope xmlns:s=\"http://schemas.xmlsoap.org/soap/envelope/\" s:encodingStyle=\"http://schemas.xmlsoap.org/soap/encoding/\"><s:Body><u:AddPortMapping xmlns:u=\"urn:schemas-upnp-org:service:WANIPConnection:1\"><NewRemoteHost></NewRemoteHost><NewExternalPort>8080</NewExternalPort><NewProtocol>TCP</NewProtocol><NewInternalPort>4000</NewInternalPort><NewInternalClient>192.168.0.10</NewInternalClient><NewEnabled>1</NewEnabled><NewPortMappingDescription>igd test</NewPortMappingDescription><NewLeaseDuration>60</NewLeaseDuration></u:AddPortMapping></s:Body></s:Envelope>"
    );
}

#[test]
fn test_remove_port_request_content() {
    let req = gateway().remove_port_request(PortMappingProtocol::UDP, 9000);
    assert_eq!(
        &req.action_header[..],
        "\"urn:schemas-upnp-org:service:WANIPConnection:1#DeletePortMapping\""
    );
    assert_eq!(
        &req.body[..],
        "<?xml version=\"1.0\"?><s:Envelope xmlns:s=\"http://schemas.xmlsoap.org/soap/envelope/\" s:encodingStyle=\"http://schemas.xmlsoap.org/soap/encoding/\"><s:Body><u:DeletePortMapping xmlns:u=\"urn:schemas-upnp-org:service:WANIPConnection:1\"><NewRemoteHost></NewRemoteHost><NewExternalPort>9000</NewExternalPort><NewProtocol>UDP</NewProtocol></u:DeletePortMapping></s:Body></s:Envelope>"
    );
}

#[test]
fn test_add_port_rejects_zero_local_port() {
    let local = SocketAddrV4::new(Ipv4Addr::new(192, 168, 0, 10), 0);
    let r = gateway().add_port_request(PortMappingProtocol::TCP, 8080, local, 0, "x");
    assert!(matches!(r, Err(AddPortError::InternalPortZeroInvalid)));
}

#[test]
fn test_add_port_rejects_zero_external_port() {
    let local = SocketAddrV4::new(Ipv4Addr::new(192, 168, 0, 10), 4000);
    let r = gateway().add_port_request(PortMappingProtocol::TCP, 0, local, 0, "x");
    assert!(matches!(r, Err(AddPortError::ExternalPortZeroInvalid)));
}

#[test]
fn test_add_any_port_rejects_zero_local_port() {
    let local = SocketAddrV4::new(Ipv4Addr::new(192, 168, 0, 10), 0);
    let r = gateway().add_any_port_request(PortMappingProtocol::TCP, local, 0, "x");
    assert!(matches!(r, Err(AddAnyPortError::InternalPortZeroInvalid)));
}

#[test]
fn test_add_any_port_never_requests_port_zero() {
    let local = SocketAddrV4::new(Ipv4Addr::new(192, 168, 0, 10), 4000);
    for _ in 0..100 {
        let (req, candidate) = gateway()
            .add_any_port_request(PortMappingProtocol::UDP, local, 0, "x")
            .unwrap();
        assert!(1 <= candidate && candidate <= 65534);
        assert!(req
            .body
            .contains(&format!("<NewExternalPort>{}</NewExternalPort>", candidate)));
    }
}

#[test]
fn test_get_external_ip_fault_table() {
    assert!(matches!(
        get_external_ip_fault(401, String::from("d")),
        GetExternalIpError::ActionNotAuthorized
    ));
    assert!(matches!(
        get_external_ip_fault(606, String::from("d")),
        GetExternalIpError::ActionNotAuthorized
    ));
    match get_external_ip_fault(714, String::from("d")) {
        GetExternalIpError::RequestError(RequestError::ErrorCode(code, desc)) => {
            assert_eq!(code, 714);
            assert_eq!(&desc[..], "d");
        },
        other => panic!("wrong translation: {:?}", other),
    }
}

#[test]
fn test_remove_port_fault_table() {
    assert!(matches!(
        remove_port_fault(401, String::from("d")),
        RemovePortError::ActionNotAuthorized
    ));
    assert!(matches!(
        remove_port_fault(606, String::from("d")),
        RemovePortError::ActionNotAuthorized
    ));
    assert!(matches!(
        remove_port_fault(714, String::from("d")),
        RemovePortError::NoSuchPortMapping
    ));
    assert!(matches!(
        remove_port_fault(715, String::from("d")),
        RemovePortError::RequestError(RequestError::ErrorCode(715, _))
    ));
}

#[test]
fn test_add_port_fault_table() {
    assert!(matches!(
        add_port_fault(401, String::from("d")),
        AddPortError::ActionNotAuthorized
    ));
    assert!(matches!(
        add_port_fault(606, String::from("d")),
        AddPortError::ActionNotAuthorized
    ));
    assert!(matches!(
        add_port_fault(716, String::from("d")),
        AddPortError::InternalPortZeroInvalid
    ));
    assert!(matches!(add_port_fault(717, String::from("d")), AddPortError::PortInUse));
    assert!(matches!(
        add_port_fault(724, String::from("d")),
        AddPortError::SamePortValuesRequired
    ));
    assert!(matches!(
        add_port_fault(725, String::from("d")),
        AddPortError::OnlyPermanentLeasesSupported
    ));
    assert!(matches!(
        add_port_fault(728, String::from("d")),
        AddPortError::DescriptionTooLong
    ));
    assert!(matches!(
        add_port_fault(714, String::from("d")),
        AddPortError::RequestError(RequestError::ErrorCode(714, _))
    ));
    assert!(matches!(
        add_port_fault(715, String::from("d")),
        AddPortError::RequestError(RequestError::ErrorCode(715, _))
    ));
}

#[test]
fn test_add_any_port_fault_table() {
    assert!(matches!(
        add_any_port_fault(401, String::from("d")),
        AddAnyPortError::ActionNotAuthorized
    ));
    assert!(matches!(
        add_any_port_fault(606, String::from("d")),
        AddAnyPortError::ActionNotAuthorized
    ));
    assert!(matches!(
        add_any_port_fault(715, String::from("d")),
        AddAnyPortError::NoPortsAvailable
    ));
    assert!(matches!(
        add_any_port_fault(716, String::from("d")),
        AddAnyPortError::InternalPortZeroInvalid
    ));
    assert!(matches!(
        add_any_port_fault(717, String::from("d")),
        AddAnyPortError::ExternalPortInUse
    ));
    assert!(matches!(
        add_any_port_fault(724, String::from("d")),
        AddAnyPortError::ExternalPortInUse
    ));
    assert!(matches!(
        add_any_port_fault(725, String::from("d")),
        AddAnyPortError::OnlyPermanentLeasesSupported
    ));
    assert!(matches!(
        add_any_port_fault(728, String::from("d")),
        AddAnyPortError::DescriptionTooLong
    ));
    assert!(matches!(
        add_any_port_fault(714, String::from("d")),
        AddAnyPortError::RequestError(RequestError::ErrorCode(714, _))
    ));
}

#[test]
fn test_remove_port_response_714() {
    let r = remove_port_response(&fault_body("714"));
    assert!(matches!(r, Err(RemovePortError::NoSuchPortMapping)));
}

#[test]
fn test_fault_401_on_every_operation() {
    let body = fault_body("401");
    assert!(matches!(
        get_external_ip_response(&body),
        Err(GetExternalIpError::ActionNotAuthorized)
    ));
    assert!(matches!(add_port_response(&body), Err(AddPortError::ActionNotAuthorized)));
    assert!(matches!(
        add_any_port_response(1234, &body),
        Err(AddAnyPortError::ActionNotAuthorized)
    ));
    assert!(matches!(remove_port_response(&body), Err(RemovePortError::ActionNotAuthorized)));
}

#[test]
fn test_fault_description_is_carried() {
    match add_port_response(&fault_body("729")) {
        Err(AddPortError::RequestError(RequestError::ErrorCode(code, desc))) => {
            assert_eq!(code, 729);
            assert_eq!(&desc[..], "why");
        },
        other => panic!("wrong decoding: {:?}", other),
    }
}

#[test]
fn test_garbled_fault_code_is_invalid_response() {
    let r = add_port_response(&fault_body("many"));
    assert!(matches!(
        r,
        Err(AddPortError::RequestError(RequestError::InvalidResponse(_)))
    ));
}

#[test]
fn test_get_external_ip_success() {
    let body = "<Envelope><Body><GetExternalIPAddressResponse><NewExternalIPAddress>203.0.113.7</NewExternalIPAddress></GetExternalIPAddressResponse></Body></Envelope>";
    let ip = get_external_ip_response(body).unwrap();
    assert_eq!(ip, Ipv4Addr::new(203, 0, 113, 7));
}

#[test]
fn test_get_external_ip_missing_field() {
    let body = "<Envelope><Body><GetExternalIPAddressResponse></GetExternalIPAddressResponse></Body></Envelope>";
    let r = get_external_ip_response(body);
    assert!(matches!(
        r,
        Err(GetExternalIpError::RequestError(RequestError::InvalidResponse(_)))
    ));
}

#[test]
fn test_get_external_ip_bad_address() {
    let body = "<Envelope><Body><R><NewExternalIPAddress>300.0.0.1</NewExternalIPAddress></R></Body></Envelope>";
    let r = get_external_ip_response(body);
    assert!(matches!(
        r,
        Err(GetExternalIpError::RequestError(RequestError::InvalidResponse(_)))
    ));
}

#[test]
fn test_empty_success_bodies() {
    let body = "<Envelope><Body><AddPortMappingResponse></AddPortMappingResponse></Body></Envelope>";
    assert!(add_port_response(body).is_ok());
    assert_eq!(add_any_port_response(4321, body).unwrap(), 4321);
    assert!(remove_port_response(body).is_ok());
}

#[test]
fn test_wrap_external_ip_error() {
    assert!(matches!(
        wrap_get_external_ip_error(GetExternalIpError::ActionNotAuthorized),
        AddAnyPortError::ActionNotAuthorized
    ));
    let wrapped = wrap_get_external_ip_error(GetExternalIpError::RequestError(
        RequestError::ErrorCode(799, String::from("d")),
    ));
    assert!(matches!(
        wrapped,
        AddAnyPortError::RequestError(RequestError::ErrorCode(799, _))
    ));
}

#[test]
fn test_external_address_combines() {
    let addr = external_address(Ipv4Addr::new(203, 0, 113, 7), 5555);
    assert_eq!(addr, SocketAddrV4::new(Ipv4Addr::new(203, 0, 113, 7), 5555));
}

#[test]
fn test_soap_error_into_request_error() {
    assert!(matches!(
        Error::HttpError(String::from("m")).into_request_error(),
        RequestError::HttpError(_)
    ));
    assert!(matches!(
        Error::IoError(String::from("m")).into_request_error(),
        RequestError::IoError(_)
    ));
    assert!(matches!(
        Error::InvalidUri(String::from("m")).into_request_error(),
        RequestError::InvalidUri(_)
    ));
    assert!(matches!(
        Error::Utf8Error(String::from("m")).into_request_error(),
        RequestError::Utf8Error(_)
    ));
}

#[test]
fn test_protocol_labels() {
    assert_eq!(PortMappingProtocol::TCP.label(), "TCP");
    assert_eq!(PortMappingProtocol::UDP.label(), "UDP");
    assert_eq!(PortMappingProtocol::TCP, PortMappingProtocol::TCP);
    assert!(PortMappingProtocol::TCP != PortMappingProtocol::UDP);
}
