use igd::addr::{parse_ipv4, Ipv4Addr};
use igd::errors::SearchError;
use igd::text::{parse_u16, u32_to_dec};

#[test]
fn test_u32_to_dec_values() {
    assert_eq!(&u32_to_dec(0)[..], "0");
    assert_eq!(&u32_to_dec(7)[..], "7");
    assert_eq!(&u32_to_dec(65535)[..], "65535");
    assert_eq!(&u32_to_dec(4294967295)[..], "4294967295");
}

#[test]
fn test_parse_u16_values() {
    assert_eq!(parse_u16("0"), Some(0));
    assert_eq!(parse_u16("714"), Some(714));
    assert_eq!(parse_u16("65535"), Some(65535));
    assert_eq!(parse_u16("00042"), Some(42));
    assert_eq!(parse_u16("65536"), None);
    assert_eq!(parse_u16(""), None);
    assert_eq!(parse_u16("12a"), None);
    assert_eq!(parse_u16(" 12"), None);
}

#[test]
fn test_parse_ipv4_values() {
    assert_eq!(parse_ipv4("0.0.0.0"), Some(Ipv4Addr::new(0, 0, 0, 0)));
    assert_eq!(parse_ipv4("203.0.113.7"), Some(Ipv4Addr::new(203, 0, 113, 7)));
    assert_eq!(parse_ipv4("255.255.255.255"), Some(Ipv4Addr::new(255, 255, 255, 255)));
    assert_eq!(parse_ipv4("256.0.0.1"), None);
    assert_eq!(parse_ipv4("1.2.3"), None);
    assert_eq!(parse_ipv4("1.2.3.4.5"), None);
    assert_eq!(parse_ipv4("1.2.3.x"), None);
    assert_eq!(parse_ipv4(""), None);
}

#[test]
fn test_ipv4_rendering_round_trip() {
    let ip = Ipv4Addr::new(10, 0, 0, 138);
    assert_eq!(&ip.to_dotted()[..], "10.0.0.138");
    assert_eq!(parse_ipv4(&ip.to_dotted()), Some(ip));
}

#[test]
fn test_timeout_error_is_distinct_from_invalid_response() {
    // A discovery timeout surfaces as an IO error, never as the
    // invalid-response parse error.
    let timeout = SearchError::IoError(String::from("search timed out"));
    assert!(matches!(timeout, SearchError::IoError(_)));
    assert!(!matches!(timeout, SearchError::InvalidResponse));
}
