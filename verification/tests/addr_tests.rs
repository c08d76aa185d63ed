use routestack::addr::{parse_authority, Addr, NameAddr, SockAddr};

fn parse(s: &str, default_port: Option<u16>) -> Option<NameAddr> {
    parse_authority(&s.as_bytes().to_vec(), default_port)
}

#[test]
fn parses_host_and_port() {
    let na = parse("baz:8080", None).unwrap();
    assert_eq!(na.name, b"baz".to_vec());
    assert_eq!(na.port, 8080);
}

#[test]
fn parses_bare_host_with_default_port() {
    let na = parse("foo", Some(80)).unwrap();
    assert_eq!(na.name, b"foo".to_vec());
    assert_eq!(na.port, 80);
}

#[test]
fn bare_host_without_default_port_is_rejected() {
    assert!(parse("foo", None).is_none());
}

#[test]
fn empty_input_is_rejected() {
    assert!(parse("", Some(80)).is_none());
    assert!(parse("", None).is_none());
}

#[test]
fn empty_host_is_rejected() {
    assert!(parse(":8080", None).is_none());
}

#[test]
fn missing_port_digits_are_rejected() {
    assert!(parse("foo:", None).is_none());
}

#[test]
fn non_digit_port_is_rejected() {
    assert!(parse("foo:8a0", None).is_none());
    assert!(parse("foo:bar", Some(80)).is_none());
}

#[test]
fn port_above_u16_is_rejected() {
    assert!(parse("foo:65536", None).is_none());
    assert!(parse("foo:99999", None).is_none());
}

#[test]
fn max_port_is_accepted() {
    let na = parse("foo:65535", None).unwrap();
    assert_eq!(na.port, 65535);
}

#[test]
fn leading_zeros_within_five_digits_are_accepted() {
    let na = parse("foo:00080", None).unwrap();
    assert_eq!(na.port, 80);
}

#[test]
fn six_digit_port_is_rejected() {
    assert!(parse("foo:000080", None).is_none());
}

#[test]
fn second_colon_lands_in_port_and_is_rejected() {
    assert!(parse("foo:80:90", None).is_none());
}

#[test]
fn name_addr_same_compares_bytes_and_port() {
    let a = NameAddr { name: b"web".to_vec(), port: 80 };
    let b = NameAddr { name: b"web".to_vec(), port: 80 };
    let c = NameAddr { name: b"web".to_vec(), port: 81 };
    let d = NameAddr { name: b"wee".to_vec(), port: 80 };
    assert!(a.same(&b));
    assert!(!a.same(&c));
    assert!(!a.same(&d));
}

#[test]
fn renders_name_authority() {
    let a = Addr::Name(NameAddr { name: b"svc".to_vec(), port: 8080 });
    assert_eq!(a.authority_bytes(), b"svc:8080".to_vec());
}

#[test]
fn renders_socket_authority() {
    let a = Addr::Sock(SockAddr { ip: 0x0a000001, port: 80 });
    assert_eq!(a.authority_bytes(), b"10.0.0.1:80".to_vec());
}

#[test]
fn rendered_name_authority_parses_back() {
    let na = NameAddr { name: b"backend".to_vec(), port: 65535 };
    let rendered = Addr::Name(na.clone()).authority_bytes();
    let parsed = parse_authority(&rendered, None).unwrap();
    assert_eq!(parsed, na);
}

#[test]
fn addr_same_compares_values() {
    let a = Addr::Name(NameAddr { name: b"svc".to_vec(), port: 80 });
    let b = Addr::Sock(SockAddr { ip: 1, port: 80 });
    assert!(a.same(&a.dup()));
    assert!(b.same(&b.dup()));
    assert!(!a.same(&b));
}

#[test]
fn addr_dup_preserves_value() {
    let a = Addr::Name(NameAddr { name: b"svc".to_vec(), port: 8080 });
    let b = a.dup();
    assert_eq!(a, b);
    let s = Addr::Sock(SockAddr { ip: 0x0a000001, port: 80 });
    assert_eq!(s, s.dup());
}
