use igd::addr::Ipv4Addr;
use igd::errors::SearchError;
use igd::search::{extract_control_url, parse_control_url, parse_result};
use igd::xml_stream::XmlEvent;
use igd::SEARCH_REQUEST;

#[test]
fn test_parse_result_case_insensitivity() {
    assert!(parse_result("location:http://0.0.0.0:0/control_url").is_some());
    assert!(parse_result("LOCATION:http://0.0.0.0:0/control_url").is_some());
}

#[test]
fn test_parse_result() {
    let result = parse_result("location:http://0.0.0.0:0/control_url").unwrap();
    assert_eq!(result.0.ip(), Ipv4Addr::new(0, 0, 0, 0));
    assert_eq!(result.0.port(), 0);
    assert_eq!(&result.1[..], "/control_url");
}

#[test]
fn test_parse_result_mixed_case_same_value() {
    let lower = parse_result("location:http://192.168.1.1:5431/dyndev/uuid:x").unwrap();
    let upper = parse_result("LoCaTiOn:http://192.168.1.1:5431/dyndev/uuid:x").unwrap();
    assert_eq!(lower.0, upper.0);
    assert_eq!(lower.1, upper.1);
    assert_eq!(lower.0.ip(), Ipv4Addr::new(192, 168, 1, 1));
    assert_eq!(lower.0.port(), 5431);
    assert_eq!(&lower.1[..], "/dyndev/uuid:x");
}

#[test]
fn test_parse_result_case_insensitive_multiline() {
    // The key's case is immaterial also when the header sits on a later
    // line of a full reply.
    let lower = "HTTP/1.1 200 OK\r\nServer: router\r\nlocation: http://10.0.0.138:80/d.xml\r\n\r\n";
    let upper = "HTTP/1.1 200 OK\r\nServer: router\r\nLOCATION: http://10.0.0.138:80/d.xml\r\n\r\n";
    let a = parse_result(lower).unwrap();
    let b = parse_result(upper).unwrap();
    assert_eq!(a.0, b.0);
    assert_eq!(a.1, b.1);
}

#[test]
fn test_parse_result_full_reply() {
    let reply = "HTTP/1.1 200 OK\r\nCache-Control: max-age=120\r\nST: urn:schemas-upnp-org:device:InternetGatewayDevice:1\r\nLocation: http://10.0.0.138:80/description.xml\r\nServer: router\r\n\r\n";
    let result = parse_result(reply).unwrap();
    assert_eq!(result.0.ip(), Ipv4Addr::new(10, 0, 0, 138));
    assert_eq!(result.0.port(), 80);
    assert_eq!(&result.1[..], "/description.xml");
}

#[test]
fn test_parse_result_whitespace_and_port_limit() {
    // Whitespace after the colon is skipped.
    let r = parse_result("Location: \t http://1.2.3.4:65535/x").unwrap();
    assert_eq!(r.0.port(), 65535);
    // A port beyond 65535 is not a well-formed location.
    assert!(parse_result("Location: http://1.2.3.4:65536/x").is_none());
    // An octet beyond 255 is not a well-formed address.
    assert!(parse_result("Location: http://999.2.3.4:80/x").is_none());
    // No path at all is not a match.
    assert!(parse_result("Location: http://1.2.3.4:80").is_none());
    // Without the key nothing matches.
    assert!(parse_result("Loc: http://1.2.3.4:80/x").is_none());
    assert!(parse_result("").is_none());
}

#[test]
fn test_parse_result_takes_first_header() {
    let reply = "location:http://1.1.1.1:80/a\r\nlocation:http://2.2.2.2:81/b\r\n";
    let result = parse_result(reply).unwrap();
    assert_eq!(result.0.ip(), Ipv4Addr::new(1, 1, 1, 1));
    assert_eq!(&result.1[..], "/a");
}

#[test]
fn test_search_request_content() {
    assert_eq!(
        SEARCH_REQUEST,
        "M-SEARCH * HTTP/1.1\r\nHost:239.255.255.250:1900\r\nST:urn:schemas-upnp-org:device:InternetGatewayDevice:1\r\nMan:\"ssdp:discover\"\r\nMX:3\r\n\r\n"
    );
}

#[test]
fn test_extract_control_url_simple() {
    let body = b"<root><device><serviceList><service><serviceType>urn:schemas-upnp-org:service:WANIPConnection:1</serviceType><controlURL>/ctl</controlURL></service></serviceList></device></root>";
    let url = parse_control_url(body).unwrap();
    assert_eq!(&url[..], "/ctl");
}

#[test]
fn test_extract_control_url_wanppp() {
    let body = b"<root><device><serviceList><service><serviceType>urn:schemas-upnp-org:service:WANPPPConnection:1</serviceType><controlURL>/ppp</controlURL></service></serviceList></device></root>";
    let url = parse_control_url(body).unwrap();
    assert_eq!(&url[..], "/ppp");
}

#[test]
fn test_extract_control_url_first_match_wins() {
    // The first service is not a WAN connection service; inside the
    // matching one, deeper same-named elements belong to a wrapper and are
    // ignored; a later matching sibling loses to the earlier one.
    let body = b"<root><device><serviceList>\
<service><serviceType>urn:schemas-upnp-org:service:Layer3Forwarding:1</serviceType><controlURL>/wrong</controlURL></service>\
<service><serviceType>urn:schemas-upnp-org:service:WANIPConnection:1</serviceType>\
<wrapper><serviceType>ignored</serviceType><controlURL>/deep</controlURL></wrapper>\
<controlURL>/correct</controlURL></service>\
<service><serviceType>urn:schemas-upnp-org:service:WANIPConnection:1</serviceType><controlURL>/second</controlURL></service>\
</serviceList></device></root>";
    let url = parse_control_url(body).unwrap();
    assert_eq!(&url[..], "/correct");
}

#[test]
fn test_extract_control_url_ignores_unrelated_paths() {
    // A controlURL that does not sit under device/serviceList/service is
    // never taken, even with a matching serviceType text elsewhere.
    let body = b"<root><gadget><serviceList><service>\
<serviceType>urn:schemas-upnp-org:service:WANIPConnection:1</serviceType>\
<controlURL>/not-under-device</controlURL>\
</service></serviceList></gadget></root>";
    let r = parse_control_url(body);
    assert!(matches!(r, Err(SearchError::InvalidResponse)));
}

#[test]
fn test_extract_control_url_no_match_is_invalid_response() {
    let body = b"<root><device><serviceList><service><serviceType>urn:schemas-upnp-org:service:Layer3Forwarding:1</serviceType><controlURL>/l3f</controlURL></service></serviceList></device></root>";
    let r = parse_control_url(body);
    assert!(matches!(r, Err(SearchError::InvalidResponse)));
}

#[test]
fn test_extract_control_url_empty_url_skipped() {
    let body = b"<root><device><serviceList><service><serviceType>urn:schemas-upnp-org:service:WANIPConnection:1</serviceType><controlURL></controlURL></service></serviceList></device></root>";
    let r = parse_control_url(body);
    assert!(matches!(r, Err(SearchError::InvalidResponse)));
}

#[test]
fn test_extract_control_url_malformed_xml() {
    let body = b"<root><device><serviceList><service></root>";
    let r = parse_control_url(body);
    assert!(matches!(r, Err(SearchError::XmlError(_))));
}

#[test]
fn test_extract_control_url_survives_trailing_garbage() {
    // The first matching service is complete before the document breaks
    // off in a syntax error; the extractor stops at the service's end tag,
    // so the URL is still returned.
    let body = b"<root><device><serviceList><service><serviceType>urn:schemas-upnp-org:service:WANIPConnection:1</serviceType><controlURL>/ctl</controlURL></service><service><broken</root>";
    let url = parse_control_url(body).unwrap();
    assert_eq!(&url[..], "/ctl");
}

#[test]
fn test_extract_control_url_error_before_match() {
    // The syntax error comes before any matching service block closes, so
    // the error is reported.
    let body = b"<root><device><serviceList><service><serviceType>urn:schemas-upnp-org:service:WANIPConnection:1</serviceType><controlURL>/ctl</controlURL><broken";
    let r = parse_control_url(body);
    assert!(matches!(r, Err(SearchError::XmlError(_))));
}

#[test]
fn test_extract_control_url_from_events() {
    let events = vec![
        XmlEvent::Start(String::from("root")),
        XmlEvent::Other,
        XmlEvent::Start(String::from("device")),
        XmlEvent::Start(String::from("serviceList")),
        XmlEvent::Start(String::from("service")),
        XmlEvent::Start(String::from("serviceType")),
        XmlEvent::Text(String::from("urn:schemas-upnp-org:service:WANIPConnection:1")),
        XmlEvent::End,
        XmlEvent::Start(String::from("controlURL")),
        XmlEvent::Text(String::from("/ctl")),
        XmlEvent::End,
        XmlEvent::End,
        XmlEvent::End,
        XmlEvent::End,
        XmlEvent::End,
    ];
    let url = extract_control_url(&events).unwrap();
    assert_eq!(&url[..], "/ctl");
}

#[test]
fn test_extract_control_url_split_text_accumulates() {
    // Character data split over several chunks is concatenated.
    let events = vec![
        XmlEvent::Start(String::from("device")),
        XmlEvent::Start(String::from("serviceList")),
        XmlEvent::Start(String::from("service")),
        XmlEvent::Start(String::from("serviceType")),
        XmlEvent::Text(String::from("urn:schemas-upnp-org:service:")),
        XmlEvent::Text(String::from("WANIPConnection:1")),
        XmlEvent::End,
        XmlEvent::Start(String::from("controlURL")),
        XmlEvent::Text(String::from("/c")),
        XmlEvent::Text(String::from("tl")),
        XmlEvent::End,
        XmlEvent::End,
        XmlEvent::End,
        XmlEvent::End,
    ];
    let url = extract_control_url(&events).unwrap();
    assert_eq!(&url[..], "/ctl");
}
