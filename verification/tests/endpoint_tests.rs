use routestack::addr::{Addr, NameAddr, SockAddr};
use routestack::endpoint::{
    Concrete, Endpoint, FromMetadata, Logical, Metadata, PeerIdentity, ProtocolHint,
};
use routestack::settings::Settings;

fn name_addr() -> Addr {
    Addr::Name(NameAddr { name: b"svc".to_vec(), port: 8080 })
}

/// Round trip: converting a logical destination to a concrete one keeps
/// the address and the settings.
#[test]
fn concrete_from_logical_round_trips() {
    let logical = Logical { dst: name_addr(), settings: Settings::Http2 };
    let concrete = Concrete::from(logical);
    assert_eq!(concrete.dst, name_addr());
    assert_eq!(concrete.settings, Settings::Http2);
}

/// with_addr redirects the concrete target and keeps the settings.
#[test]
fn with_addr_redirects() {
    let concrete = Concrete { dst: name_addr(), settings: Settings::Http2 };
    let redirected = concrete.with_addr(&NameAddr { name: b"backend".to_vec(), port: 9090 });
    assert_eq!(
        redirected.dst,
        Addr::Name(NameAddr { name: b"backend".to_vec(), port: 9090 })
    );
    assert_eq!(redirected.settings, Settings::Http2);
}

/// map_endpoint: the identity is the one discovery announced, or is
/// marked as not provided.
#[test]
fn map_endpoint_takes_discovery_identity() {
    let concrete = Concrete {
        dst: name_addr(),
        settings: Settings::Http1 {
            keep_alive: true,
            wants_h1_upgrade: false,
            was_absolute_form: false,
        },
    };
    let addr = SockAddr { ip: 0x0a000009, port: 8080 };
    let with_id = Metadata {
        labels: Vec::new(),
        identity: Some(b"web.ns".to_vec()),
        protocol_hint: ProtocolHint::Http2,
    };
    let e = FromMetadata.map_endpoint(&concrete, addr, with_id);
    assert_eq!(e.addr, addr);
    match e.identity {
        PeerIdentity::Known(id) => assert_eq!(id, b"web.ns".to_vec()),
        PeerIdentity::Unknown(_) => panic!("discovery announced an identity"),
    }
    let without_id = Metadata {
        labels: Vec::new(),
        identity: None,
        protocol_hint: ProtocolHint::Unknown,
    };
    let e = FromMetadata.map_endpoint(&concrete, addr, without_id);
    assert!(matches!(e.identity, PeerIdentity::Unknown(_)));
}

/// A bare endpoint at a socket address carries no protocol and no
/// identity.
#[test]
fn bare_endpoint_from_target() {
    let addr = SockAddr { ip: 0x7f000001, port: 4140 };
    let e = Endpoint::from_target(addr);
    assert_eq!(e.addr, addr);
    assert_eq!(e.concrete.dst, Addr::Sock(addr));
    assert_eq!(e.concrete.settings, Settings::NotHttp);
    assert_eq!(e.metadata.protocol_hint, ProtocolHint::Unknown);
}

/// Two endpoints differing only in metadata are the same endpoint for
/// caching purposes.
#[test]
fn cache_identity_ignores_metadata() {
    let concrete = Concrete { dst: name_addr(), settings: Settings::Http2 };
    let a = Endpoint {
        addr: SockAddr { ip: 5, port: 80 },
        identity: PeerIdentity::Known(b"web.ns".to_vec()),
        concrete: concrete.clone(),
        metadata: Metadata {
            labels: vec![(b"zone".to_vec(), b"east".to_vec())],
            identity: None,
            protocol_hint: ProtocolHint::Http2,
        },
    };
    let mut b = a.clone();
    b.metadata = Metadata {
        labels: Vec::new(),
        identity: Some(b"other".to_vec()),
        protocol_hint: ProtocolHint::Unknown,
    };
    assert!(a.cache_eq(&b));

    let mut c = a.clone();
    c.addr = SockAddr { ip: 6, port: 80 };
    assert!(!a.cache_eq(&c));

    let mut d = a.clone();
    d.identity = PeerIdentity::Known(b"api.ns".to_vec());
    assert!(!a.cache_eq(&d));
}

/// The URI is normalized exactly for HTTP/1 targets that were not in
/// absolute form.
#[test]
fn should_normalize_uri_gating() {
    let relative = Endpoint {
        addr: SockAddr { ip: 1, port: 1 },
        identity: PeerIdentity::Unknown(
            routestack::endpoint::NoIdentityReason::NotProvidedByServiceDiscovery,
        ),
        concrete: Concrete {
            dst: name_addr(),
            settings: Settings::Http1 {
                keep_alive: true,
                wants_h1_upgrade: false,
                was_absolute_form: false,
            },
        },
        metadata: Metadata {
            labels: Vec::new(),
            identity: None,
            protocol_hint: ProtocolHint::Unknown,
        },
    };
    assert_eq!(relative.should_normalize_uri(), Some(name_addr()));

    let mut absolute = relative.clone();
    absolute.concrete.settings = Settings::Http1 {
        keep_alive: true,
        wants_h1_upgrade: false,
        was_absolute_form: true,
    };
    assert_eq!(absolute.should_normalize_uri(), None);

    let mut h2 = relative;
    h2.concrete.settings = Settings::Http2;
    assert_eq!(h2.should_normalize_uri(), None);
}
