//! The HTTP client factory: per endpoint, selects an HTTP/1 or HTTP/2
//! client according to the endpoint's settings, and post-processes HTTP/1
//! responses (hop-by-hop header stripping, CONNECT and upgrade handoff).

use crate::endpoint::Endpoint;
use crate::message::{
    connection_hdr, connection_hdr_bytes, remove_headers, spec_remove_headers, RequestHead,
    ResponseHead, UpgradeToken,
};
use crate::settings::Settings;
use crate::PollReady;
use vstd::prelude::*;

verus! {

/// The layer that builds clients over a connector.
#[derive(Clone, Copy, Debug)]
pub struct Layer;

pub fn layer() -> Layer {
    Layer
}

/// A client maker over a `C`-typed connector.
pub struct MakeClient<C> {
    pub connect: C,
}

impl Layer {
    pub fn layer<C>(&self, connect: C) -> (r: MakeClient<C>)
        ensures
            r.connect == connect,
    {
        MakeClient { connect }
    }
}

/// How an HTTP/1 client is configured.
#[derive(Clone, Copy, Debug, PartialEq, Eq, Structural)]
pub struct Http1Config {
    /// Keep the connection alive between exchanges.
    pub keep_alive: bool,
    /// Whether the client may synthesize the Host header; it never does:
    /// whatever was received is passed on.
    pub set_host: bool,
    /// Send the request target in absolute form.
    pub absolute_form: bool,
}

/// A built client: a synchronous HTTP/1 client or an HTTP/2 connection.
#[derive(Clone, Copy, Debug, PartialEq, Eq, Structural)]
pub enum Client {
    Http1(Http1Config),
    Http2,
}

/// A client construction in progress: HTTP/1 is available at once,
/// HTTP/2 only after its handshake.
pub enum MakeFuture {
    Http1(Option<Client>),
    Http2,
}

impl<C> MakeClient<C> {
    /// Selects the client for an endpoint: HTTP/1 settings configure a
    /// synchronous HTTP/1 client that honors keep-alive, never
    /// synthesizes the Host header, and uses absolute form exactly when
    /// the original target did; HTTP/2 starts a handshake. Endpoints
    /// that are not HTTP never reach the client factory.
    pub fn call(&self, target: &Endpoint) -> (r: MakeFuture)
        requires
            !(target.concrete.settings is NotHttp),
        ensures
            match target.concrete.settings {
                Settings::Http1 { keep_alive, wants_h1_upgrade, was_absolute_form } => r
                    == MakeFuture::Http1(
                    Some(
                        Client::Http1(
                            Http1Config { keep_alive, set_host: false, absolute_form: was_absolute_form },
                        ),
                    ),
                ),
                Settings::Http2 => r is Http2,
                Settings::NotHttp => false,
            },
    {
        match target.concrete.settings {
            Settings::Http1 { keep_alive, wants_h1_upgrade: _, was_absolute_form } => {
                MakeFuture::Http1(
                    Some(
                        Client::Http1(
                            Http1Config { keep_alive, set_host: false, absolute_form: was_absolute_form },
                        ),
                    ),
                )
            },
            Settings::Http2 => MakeFuture::Http2,
            Settings::NotHttp => vstd::pervasive::unreached(),
        }
    }
}

impl MakeFuture {
    /// Drives the construction: an HTTP/1 client is yielded at once (and
    /// only once); an HTTP/2 client is yielded when the handshake is
    /// done.
    pub fn poll(&mut self, handshake: PollReady) -> (r: Option<Client>)
        requires
            !(*old(self) matches MakeFuture::Http1(None)),
        ensures
            match *old(self) {
                MakeFuture::Http1(c) => r == c && *final(self) == MakeFuture::Http1(
                    None::<Client>,
                ),
                MakeFuture::Http2 => *final(self) == *old(self) && r == (if handshake is Ready {
                    Some(Client::Http2)
                } else {
                    None::<Client>
                }),
            },
    {
        match self {
            MakeFuture::Http1(c) => {
                let taken = c.take();
                taken
            },
            MakeFuture::Http2 => match handshake {
                PollReady::Ready => Some(Client::Http2),
                PollReady::NotReady => None,
            },
        }
    }
}

/// The response future of one client exchange, carrying what the HTTP/1
/// path needs for post-processing.
pub enum ClientFuture {
    Http1 { upgrade: Option<UpgradeToken>, is_http_connect: bool },
    Http2,
}

/// The response takes over the connection: a 101 switch, or a successful
/// CONNECT.
pub open spec fn is_upgrade_response(resp: ResponseHead, is_http_connect: bool) -> bool {
    resp.status == 101 || (is_http_connect && 200 <= resp.status < 300)
}

impl Client {
    /// An HTTP/1 client is always ready; an HTTP/2 connection is ready
    /// when the transport says so.
    pub fn poll_ready(&self, h2_ready: PollReady) -> (r: PollReady)
        ensures
            self is Http1 ==> r is Ready,
            self is Http2 ==> r == h2_ready,
    {
        match self {
            Client::Http1(_) => PollReady::Ready,
            Client::Http2 => h2_ready,
        }
    }

    /// Dispatches one request. The HTTP/1 path takes the upgrade token
    /// out of the request's extensions and remembers whether this is a
    /// CONNECT exchange; HTTP/2 passes the request through.
    pub fn call(&self, req: RequestHead) -> (r: (RequestHead, ClientFuture))
        ensures
            r.0.version == req.version,
            r.0.is_connect == req.is_connect,
            r.0.authority == req.authority,
            r.0.was_absolute_form == req.was_absolute_form,
            r.0.keep_alive == req.keep_alive,
            r.0.headers == req.headers,
            match self {
                Client::Http1(_) => r.0.upgrade is None && r.1 == (ClientFuture::Http1 {
                    upgrade: req.upgrade,
                    is_http_connect: req.upgrade is Some && req.is_connect,
                }),
                Client::Http2 => r.0.upgrade == req.upgrade && r.1 is Http2,
            },
    {
        match self {
            Client::Http1(_) => {
                let mut req = req;
                let upgrade = req.upgrade.take();
                let is_http_connect = upgrade.is_some() && req.is_connect;
                (req, ClientFuture::Http1 { upgrade, is_http_connect })
            },
            Client::Http2 => (req, ClientFuture::Http2),
        }
    }
}

impl ClientFuture {
    /// Finishes the exchange. On the HTTP/1 path, a CONNECT response is
    /// tagged in the extensions, hop-by-hop connection headers are
    /// stripped unless the response takes over the connection, and the
    /// stored upgrade token rides out beside the response so higher
    /// layers can take over the byte stream; HTTP/2 responses pass
    /// through unchanged.
    pub fn poll(self, resp: ResponseHead) -> (r: (ResponseHead, Option<UpgradeToken>))
        ensures
            match self {
                ClientFuture::Http2 => r.0 == resp && r.1 is None,
                ClientFuture::Http1 { upgrade, is_http_connect } => {
                    &&& r.0.status == resp.status
                    &&& r.0.version == resp.version
                    &&& r.0.connect_marker == (resp.connect_marker || is_http_connect)
                    &&& (is_upgrade_response(resp, is_http_connect) ==> r.0.headers
                        == resp.headers)
                    &&& (!is_upgrade_response(resp, is_http_connect) ==> r.0.headers@
                        == spec_remove_headers(resp.headers@, connection_hdr()))
                    &&& r.1 == upgrade
                },
            },
    {
        match self {
            ClientFuture::Http2 => (resp, None),
            ClientFuture::Http1 { upgrade, is_http_connect } => {
                let mut resp = resp;
                if is_http_connect {
                    resp.connect_marker = true;
                }
                let upgraded = resp.status == 101 || (is_http_connect && 200 <= resp.status
                    && resp.status < 300);
                if !upgraded {
                    let headers = remove_headers(resp.headers, &connection_hdr_bytes());
                    resp.headers = headers;
                }
                (resp, upgrade)
            },
        }
    }
}

} // verus!
