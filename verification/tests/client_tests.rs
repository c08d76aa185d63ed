use routestack::addr::{Addr, NameAddr, SockAddr};
use routestack::client::{layer, Client, ClientFuture, Http1Config, MakeFuture};
use routestack::endpoint::{
    Concrete, Endpoint, Metadata, NoIdentityReason, PeerIdentity, ProtocolHint,
};
use routestack::message::{Header, RequestHead, ResponseHead, UpgradeToken, Version};
use routestack::settings::Settings;
use routestack::PollReady;

fn client_endpoint(settings: Settings) -> Endpoint {
    Endpoint {
        addr: SockAddr { ip: 0x0a000003, port: 8080 },
        identity: PeerIdentity::Unknown(NoIdentityReason::NotProvidedByServiceDiscovery),
        concrete: Concrete {
            dst: Addr::Name(NameAddr { name: b"svc".to_vec(), port: 8080 }),
            settings,
        },
        metadata: Metadata {
            labels: Vec::new(),
            identity: None,
            protocol_hint: ProtocolHint::Unknown,
        },
    }
}

fn get_request(upgrade: Option<UpgradeToken>, is_connect: bool) -> RequestHead {
    RequestHead {
        version: Version::Http11,
        is_connect,
        authority: None,
        was_absolute_form: false,
        keep_alive: true,
        headers: Vec::new(),
        upgrade,
    }
}

/// HTTP/1 settings configure a synchronous HTTP/1 client that honors
/// keep-alive, never synthesizes the Host header, and keeps the original
/// target form.
#[test]
fn http1_settings_build_an_http1_client() {
    let make = layer().layer(());
    let mut fut = make.call(&client_endpoint(Settings::Http1 {
        keep_alive: false,
        wants_h1_upgrade: false,
        was_absolute_form: true,
    }));
    let client = fut.poll(PollReady::NotReady).expect("an HTTP/1 client is ready at once");
    assert_eq!(
        client,
        Client::Http1(Http1Config { keep_alive: false, set_host: false, absolute_form: true })
    );
}

/// HTTP/2 settings build a client only once the handshake is done.
#[test]
fn http2_client_waits_for_the_handshake() {
    let make = layer().layer(());
    let mut fut = make.call(&client_endpoint(Settings::Http2));
    assert!(matches!(fut, MakeFuture::Http2));
    assert!(fut.poll(PollReady::NotReady).is_none());
    assert_eq!(fut.poll(PollReady::Ready), Some(Client::Http2));
}

/// An HTTP/1 client is always ready; an HTTP/2 one follows its
/// connection.
#[test]
fn client_readiness() {
    let h1 = Client::Http1(Http1Config { keep_alive: true, set_host: false, absolute_form: false });
    assert!(h1.poll_ready(PollReady::NotReady).is_ready());
    assert!(!Client::Http2.poll_ready(PollReady::NotReady).is_ready());
    assert!(Client::Http2.poll_ready(PollReady::Ready).is_ready());
}

/// The HTTP/1 path takes the upgrade token out of the request and tags
/// CONNECT exchanges.
#[test]
fn http1_call_takes_the_upgrade_token() {
    let h1 = Client::Http1(Http1Config { keep_alive: true, set_host: false, absolute_form: false });
    let token = UpgradeToken { id: 9 };
    let (req, fut) = h1.call(get_request(Some(token), true));
    assert!(req.upgrade.is_none());
    match fut {
        ClientFuture::Http1 { upgrade, is_http_connect } => {
            assert_eq!(upgrade, Some(token));
            assert!(is_http_connect);
        }
        ClientFuture::Http2 => panic!("an HTTP/1 client was dispatched"),
    }
}

/// A plain HTTP/1 response has its hop-by-hop connection headers
/// stripped.
#[test]
fn plain_response_loses_connection_headers() {
    let fut = ClientFuture::Http1 { upgrade: None, is_http_connect: false };
    let resp = ResponseHead {
        version: Version::Http11,
        status: 200,
        headers: vec![
            Header { name: b"connection".to_vec(), value: b"close".to_vec() },
            Header { name: b"content-length".to_vec(), value: b"0".to_vec() },
        ],
        connect_marker: false,
    };
    let (out, token) = fut.poll(resp);
    assert_eq!(out.headers.len(), 1);
    assert_eq!(out.headers[0].name, b"content-length".to_vec());
    assert!(!out.connect_marker);
    assert!(token.is_none());
}

/// An upgrade response keeps its connection headers so the switch can be
/// taken over.
#[test]
fn upgrade_response_keeps_connection_headers() {
    let fut = ClientFuture::Http1 { upgrade: Some(UpgradeToken { id: 1 }), is_http_connect: false };
    let resp = ResponseHead {
        version: Version::Http11,
        status: 101,
        headers: vec![Header { name: b"connection".to_vec(), value: b"upgrade".to_vec() }],
        connect_marker: false,
    };
    let (out, token) = fut.poll(resp);
    assert_eq!(out.headers.len(), 1);
    assert_eq!(token, Some(UpgradeToken { id: 1 }));
}

/// A successful CONNECT response is tagged in the extensions.
#[test]
fn connect_response_is_tagged() {
    let fut = ClientFuture::Http1 { upgrade: Some(UpgradeToken { id: 1 }), is_http_connect: true };
    let resp = ResponseHead {
        version: Version::Http11,
        status: 200,
        headers: Vec::new(),
        connect_marker: false,
    };
    let (out, token) = fut.poll(resp);
    assert!(out.connect_marker);
    assert_eq!(token, Some(UpgradeToken { id: 1 }));
}

/// The HTTP/2 path passes responses through unchanged.
#[test]
fn http2_response_passes_through() {
    let resp = ResponseHead {
        version: Version::Http2,
        status: 204,
        headers: vec![Header { name: b"connection".to_vec(), value: b"close".to_vec() }],
        connect_marker: false,
    };
    let (out, token) = ClientFuture::Http2.poll(resp);
    assert_eq!(out.status, 204);
    assert_eq!(out.headers.len(), 1);
    assert!(token.is_none());
}
