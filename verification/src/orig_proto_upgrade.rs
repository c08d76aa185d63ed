//! Transparent HTTP/1→HTTP/2 upgrade of hinted endpoints: at build time,
//! an endpoint that can carry original-protocol traffic is switched to
//! HTTP/2 and its service is wrapped in an adapter that rewrites each
//! request to HTTP/2 framing, carrying the original HTTP/1 metadata in a
//! dedicated header, and restores the HTTP/1 shape on the response path.

use crate::concrete::Backend;
use crate::endpoint::Endpoint;
use crate::message::{
    orig_proto_hdr, orig_proto_hdr_bytes, remove_headers, spec_remove_headers, Header,
    RequestHead, ResponseHead, Version,
};
use crate::settings::Settings;
use crate::svc::Either;
use vstd::prelude::*;

verus! {

/// The endpoint can carry HTTP/1 traffic as transparent HTTP/2.
pub open spec fn can_upgrade(e: Endpoint) -> bool {
    !(e.metadata.protocol_hint is Unknown) && (e.concrete.settings matches Settings::Http1 {
        wants_h1_upgrade: false,
        ..
    })
}

/// Builds endpoint services, handing out one fresh handle per call and
/// recording the endpoint it was built for.
pub struct EndpointMaker {
    /// The id the next built service will carry.
    pub next_id: u64,
    /// Which endpoint each handle was built for.
    pub built: Ghost<Map<u64, Endpoint>>,
}

impl EndpointMaker {
    pub fn new() -> (r: EndpointMaker)
        ensures
            r.next_id == 0,
            r.built@ == Map::<u64, Endpoint>::empty(),
    {
        EndpointMaker { next_id: 0, built: Ghost(Map::empty()) }
    }

    /// Builds the service for `endpoint`: the handle is fresh.
    pub fn make(&mut self, endpoint: Endpoint) -> (r: Backend)
        requires
            old(self).next_id < u64::MAX,
        ensures
            r.id == old(self).next_id,
            final(self).next_id == old(self).next_id + 1,
            final(self).built@ == old(self).built@.insert(r.id, endpoint),
    {
        let id = self.next_id;
        self.next_id = self.next_id + 1;
        proof {
            self.built@ = self.built@.insert(id, endpoint);
        }
        Backend { id }
    }
}

/// The layer that wraps an endpoint-service maker with the upgrade.
#[derive(Clone, Copy, Debug)]
pub struct Layer;

pub fn layer() -> Layer {
    Layer
}

/// An endpoint-service maker that applies the original-protocol upgrade
/// where the endpoint supports it.
pub struct MakeSvc<M> {
    pub inner: M,
}

impl Layer {
    pub fn layer<M>(&self, inner: M) -> (r: MakeSvc<M>)
        ensures
            r.inner == inner,
    {
        MakeSvc { inner }
    }
}

/// The upgrade adapter around an endpoint service: rewrites requests to
/// HTTP/2 framing and restores HTTP/1 responses.
pub struct Upgrade {
    pub inner: Backend,
    /// The original request target was in absolute form.
    pub absolute_form: bool,
}

/// What a pending endpoint-service construction will be wrapped in.
pub struct MakeFuture {
    pub can_upgrade: bool,
    pub was_absolute: bool,
}

impl MakeSvc<EndpointMaker> {
    /// Builds the service for an endpoint: when the endpoint supports the
    /// original-protocol upgrade, the inner service is built with the
    /// endpoint forced to HTTP/2 and wrapped in the upgrade adapter;
    /// otherwise the endpoint is built unchanged.
    pub fn make(&mut self, endpoint: Endpoint) -> (r: Either<Upgrade, Backend>)
        requires
            !(endpoint.concrete.settings is NotHttp),
            old(self).inner.next_id < u64::MAX,
        ensures
            final(self).inner.next_id == old(self).inner.next_id + 1,
            can_upgrade(endpoint) ==> match r {
                Either::A(up) => {
                    &&& up.inner.id == old(self).inner.next_id
                    &&& up.absolute_form == (endpoint.concrete.settings
                        matches Settings::Http1 { was_absolute_form: true, .. })
                    &&& {
                        let b = final(self).inner.built@[up.inner.id];
                        b.addr == endpoint.addr && b.identity == endpoint.identity && b.metadata
                            == endpoint.metadata && b.concrete.dst == endpoint.concrete.dst
                            && b.concrete.settings is Http2
                    }
                },
                Either::B(_) => false,
            },
            !can_upgrade(endpoint) ==> match r {
                Either::B(b) => b.id == old(self).inner.next_id && final(self).inner.built@[b.id]
                    == endpoint,
                Either::A(_) => false,
            },
    {
        let can = endpoint.can_use_orig_proto();
        if !can {
            let b = self.inner.make(endpoint);
            return Either::B(b);
        }
        let was_absolute = endpoint.concrete.settings.was_absolute_form();
        let mut endpoint = endpoint;
        endpoint.concrete.settings = Settings::Http2;
        let b = self.inner.make(endpoint);
        Either::A(Upgrade { inner: b, absolute_form: was_absolute })
    }

    /// The maker as a service: decides the upgrade now, mutates the
    /// endpoint accordingly, and leaves the wrapping to the returned
    /// future.
    pub fn call(&self, endpoint: Endpoint) -> (r: (Endpoint, MakeFuture))
        requires
            !(endpoint.concrete.settings is NotHttp),
        ensures
            r.1.can_upgrade == can_upgrade(endpoint),
            r.1.was_absolute == (endpoint.concrete.settings matches Settings::Http1 {
                was_absolute_form: true,
                ..
            }),
            can_upgrade(endpoint) ==> r.0.addr == endpoint.addr && r.0.identity
                == endpoint.identity && r.0.metadata == endpoint.metadata && r.0.concrete.dst
                == endpoint.concrete.dst && r.0.concrete.settings is Http2,
            !can_upgrade(endpoint) ==> r.0 == endpoint,
    {
        let can = endpoint.can_use_orig_proto();
        let was_absolute = endpoint.concrete.settings.was_absolute_form();
        let mut endpoint = endpoint;
        if can {
            endpoint.concrete.settings = Settings::Http2;
        }
        (endpoint, MakeFuture { can_upgrade: can, was_absolute })
    }
}

impl MakeFuture {
    /// Wraps the built service per the decision taken at call time.
    pub fn poll(&self, inner: Backend) -> (r: Either<Upgrade, Backend>)
        ensures
            self.can_upgrade ==> r == Either::<Upgrade, Backend>::A(
                Upgrade { inner, absolute_form: self.was_absolute },
            ),
            !self.can_upgrade ==> r == Either::<Upgrade, Backend>::B(inner),
    {
        if self.can_upgrade {
            Either::A(Upgrade { inner, absolute_form: self.was_absolute })
        } else {
            Either::B(inner)
        }
    }
}

/// The value of the original-protocol header: `version=HTTP/1.1`, with
/// `;absolute-form` appended when the request target was absolute.
pub open spec fn orig_proto_value(absolute_form: bool) -> Seq<u8> {
    if absolute_form {
        seq![118u8, 101u8, 114u8, 115u8, 105u8, 111u8, 110u8, 61u8, 72u8, 84u8, 84u8, 80u8, 47u8, 49u8, 46u8, 49u8, 59u8, 97u8, 98u8, 115u8, 111u8, 108u8, 117u8, 116u8, 101u8, 45u8, 102u8, 111u8, 114u8, 109u8]
    } else {
        seq![118u8, 101u8, 114u8, 115u8, 105u8, 111u8, 110u8, 61u8, 72u8, 84u8, 84u8, 80u8, 47u8, 49u8, 46u8, 49u8]
    }
}

/// Renders the original-protocol header value.
pub fn orig_proto_value_bytes(absolute_form: bool) -> (r: Vec<u8>)
    ensures
        r@ == orig_proto_value(absolute_form),
{
    if absolute_form {
        let r: Vec<u8> = vec![118u8, 101u8, 114u8, 115u8, 105u8, 111u8, 110u8, 61u8, 72u8, 84u8, 84u8, 80u8, 47u8, 49u8, 46u8, 49u8, 59u8, 97u8, 98u8, 115u8, 111u8, 108u8, 117u8, 116u8, 101u8, 45u8, 102u8, 111u8, 114u8, 109u8];
        proof {
            assert(r@ =~= orig_proto_value(true));
        }
        r
    } else {
        let r: Vec<u8> = vec![118u8, 101u8, 114u8, 115u8, 105u8, 111u8, 110u8, 61u8, 72u8, 84u8, 84u8, 80u8, 47u8, 49u8, 46u8, 49u8];
        proof {
            assert(r@ =~= orig_proto_value(false));
        }
        r
    }
}

impl Upgrade {
    /// Rewrites one request to HTTP/2 framing: the version becomes
    /// HTTP/2 and the original HTTP/1 metadata rides in the dedicated
    /// header; everything else is untouched.
    pub fn upgrade_request(&self, req: RequestHead) -> (r: RequestHead)
        ensures
            r.version is Http2,
            r.headers@.len() == req.headers@.len() + 1,
            forall|i: int| 0 <= i < req.headers@.len() ==> r.headers@[i] == req.headers@[i],
            r.headers@.last().name@ == orig_proto_hdr(),
            r.headers@.last().value@ == orig_proto_value(self.absolute_form),
            r.is_connect == req.is_connect,
            r.authority == req.authority,
            r.was_absolute_form == req.was_absolute_form,
            r.keep_alive == req.keep_alive,
            r.upgrade == req.upgrade,
    {
        let mut req = req;
        let value = orig_proto_value_bytes(self.absolute_form);
        req.headers.push(Header { name: orig_proto_hdr_bytes(), value });
        req.version = Version::Http2;
        req
    }

    /// Restores the HTTP/1 shape of one response: the version becomes
    /// HTTP/1.1 and the dedicated header is stripped.
    pub fn downgrade_response(&self, resp: ResponseHead) -> (r: ResponseHead)
        ensures
            r.version is Http11,
            r.headers@ == spec_remove_headers(resp.headers@, orig_proto_hdr()),
            r.status == resp.status,
            r.connect_marker == resp.connect_marker,
    {
        let headers = remove_headers(resp.headers, &orig_proto_hdr_bytes());
        ResponseHead {
            version: Version::Http11,
            status: resp.status,
            headers,
            connect_marker: resp.connect_marker,
        }
    }
}

} // verus!
