use routestack::addr::{Addr, NameAddr, SockAddr};
use routestack::endpoint::{LogicalOrFallbackTarget, PeerIdentity, ProtocolHint};
use routestack::message::{Header, RequestHead, Version};
use routestack::settings::Settings;

fn header(name: &str, value: &str) -> Header {
    Header { name: name.as_bytes().to_vec(), value: value.as_bytes().to_vec() }
}

fn absolute_get(headers: Vec<Header>) -> RequestHead {
    RequestHead {
        version: Version::Http11,
        is_connect: false,
        authority: Some(b"foo".to_vec()),
        was_absolute_form: true,
        keep_alive: true,
        headers,
        upgrade: None,
    }
}

fn accept_target() -> SockAddr {
    SockAddr { ip: 0x0a000001, port: 80 }
}

/// A request with a dst-override, an authority and a host is keyed by
/// the override, with settings derived from the request.
#[test]
fn priority_override_wins() {
    let req = absolute_get(vec![
        header("host", "bar"),
        header("l5d-dst-override", "baz:8080"),
    ]);
    let target = LogicalOrFallbackTarget { target_addr: accept_target() };
    let (logical, fallback) = target.key(&req);
    assert_eq!(
        logical.dst,
        Addr::Name(NameAddr { name: b"baz".to_vec(), port: 8080 })
    );
    assert_eq!(
        logical.settings,
        Settings::Http1 { keep_alive: true, wants_h1_upgrade: false, was_absolute_form: true }
    );
    assert_eq!(fallback.addr, accept_target());
    assert_eq!(fallback.concrete.dst, logical.dst);
    assert_eq!(fallback.concrete.settings, logical.settings);
    assert_eq!(fallback.metadata.protocol_hint, ProtocolHint::Unknown);
    assert!(fallback.metadata.identity.is_none());
    match fallback.identity {
        PeerIdentity::Unknown(_) => {}
        PeerIdentity::Known(_) => panic!("no identity was required"),
    }
}

/// Without an override, the request authority decides, with port 80 as
/// the default.
#[test]
fn authority_is_second() {
    let req = absolute_get(vec![header("host", "bar")]);
    let target = LogicalOrFallbackTarget { target_addr: accept_target() };
    let (logical, _) = target.key(&req);
    assert_eq!(logical.dst, Addr::Name(NameAddr { name: b"foo".to_vec(), port: 80 }));
}

/// Without an override or an authority, the host header decides.
#[test]
fn host_is_third() {
    let mut req = absolute_get(vec![header("host", "bar:9000")]);
    req.authority = None;
    let target = LogicalOrFallbackTarget { target_addr: accept_target() };
    let (logical, _) = target.key(&req);
    assert_eq!(logical.dst, Addr::Name(NameAddr { name: b"bar".to_vec(), port: 9000 }));
}

/// A host header without a port defaults to port 80, like the authority.
#[test]
fn host_without_port_defaults_to_80() {
    let mut req = absolute_get(vec![header("host", "bar")]);
    req.authority = None;
    let target = LogicalOrFallbackTarget { target_addr: accept_target() };
    let (logical, _) = target.key(&req);
    assert_eq!(logical.dst, Addr::Name(NameAddr { name: b"bar".to_vec(), port: 80 }));
}

/// With nothing else, the accepting socket's original target decides.
#[test]
fn socket_target_is_last() {
    let mut req = absolute_get(vec![]);
    req.authority = None;
    let target = LogicalOrFallbackTarget { target_addr: accept_target() };
    let (logical, _) = target.key(&req);
    assert_eq!(logical.dst, Addr::Sock(accept_target()));
}

/// An override that does not parse falls through to the authority.
#[test]
fn unparseable_override_falls_through() {
    let req = absolute_get(vec![header("l5d-dst-override", "baz:not-a-port")]);
    let target = LogicalOrFallbackTarget { target_addr: accept_target() };
    let (logical, _) = target.key(&req);
    assert_eq!(logical.dst, Addr::Name(NameAddr { name: b"foo".to_vec(), port: 80 }));
}

/// The require-id header fixes the fallback endpoint's identity.
#[test]
fn require_id_fixes_identity() {
    let req = absolute_get(vec![header("l5d-require-id", "web.ns.serviceaccount")]);
    let target = LogicalOrFallbackTarget { target_addr: accept_target() };
    let (_, fallback) = target.key(&req);
    match fallback.identity {
        PeerIdentity::Known(id) => assert_eq!(id, b"web.ns.serviceaccount".to_vec()),
        PeerIdentity::Unknown(_) => panic!("identity was required"),
    }
}

/// An HTTP/2 request keys with HTTP/2 settings.
#[test]
fn http2_settings() {
    let mut req = absolute_get(vec![]);
    req.version = Version::Http2;
    assert_eq!(Settings::from_request(&req), Settings::Http2);
}

/// An upgrade header marks the HTTP/1 settings.
#[test]
fn upgrade_header_marks_settings() {
    let req = absolute_get(vec![header("upgrade", "websocket")]);
    assert_eq!(
        Settings::from_request(&req),
        Settings::Http1 { keep_alive: true, wants_h1_upgrade: true, was_absolute_form: true }
    );
}
