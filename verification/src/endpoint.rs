//! The outbound data model: logical and concrete destinations, resolved
//! endpoints, and the per-request key extraction that chooses the logical
//! destination for a request.

use crate::addr::{parse_authority, spec_parse_authority, Addr, AddrV, SockAddr};
use crate::message::{
    dst_override_hdr, dst_override_hdr_bytes, find_header, host_hdr, host_hdr_bytes,
    require_id_hdr, require_id_hdr_bytes, spec_header_value, RequestHead,
};
use crate::settings::Settings;
use vstd::prelude::*;

verus! {

/// A protocol hint discovered for an endpoint.
#[derive(Debug, Clone, Copy, PartialEq, Eq, Structural)]
pub enum ProtocolHint {
    Unknown,
    Http2,
}

/// Why no peer identity is known.
#[derive(Debug, Clone, Copy, PartialEq, Eq, Structural)]
pub enum NoIdentityReason {
    NotHttp,
    Loopback,
    NotProvidedByServiceDiscovery,
}

/// The peer identity of an endpoint, when one is known.
#[derive(Debug, Clone)]
pub enum PeerIdentity {
    Known(Vec<u8>),
    Unknown(NoIdentityReason),
}

/// Mathematical value of a `PeerIdentity`.
pub ghost enum PeerIdentityV {
    Known(Seq<u8>),
    Unknown(NoIdentityReason),
}

impl View for PeerIdentity {
    type V = PeerIdentityV;

    open spec fn view(&self) -> PeerIdentityV {
        match self {
            PeerIdentity::Known(n) => PeerIdentityV::Known(n@),
            PeerIdentity::Unknown(r) => PeerIdentityV::Unknown(*r),
        }
    }
}

/// Discovery-sourced attributes of a resolved endpoint.
#[derive(Debug, Clone)]
pub struct Metadata {
    /// Opaque labels, as key/value byte pairs.
    pub labels: Vec<(Vec<u8>, Vec<u8>)>,
    /// The peer identity service discovery announced, when any.
    pub identity: Option<Vec<u8>>,
    pub protocol_hint: ProtocolHint,
}

impl Metadata {
    /// Metadata carrying nothing.
    pub fn empty() -> (r: Metadata)
        ensures
            r.labels@.len() == 0,
            r.identity is None,
            r.protocol_hint is Unknown,
    {
        Metadata { labels: Vec::new(), identity: None, protocol_hint: ProtocolHint::Unknown }
    }
}

/// The intended destination of a request, as the client expressed it.
#[derive(Debug, Clone)]
pub struct Logical {
    pub dst: Addr,
    pub settings: Settings,
}

/// The backend actually selected after profile-split resolution.
#[derive(Debug, Clone)]
pub struct Concrete {
    pub dst: Addr,
    pub settings: Settings,
}

/// A resolved upstream peer.
#[derive(Debug, Clone)]
pub struct Endpoint {
    pub addr: SockAddr,
    pub identity: PeerIdentity,
    pub concrete: Concrete,
    pub metadata: Metadata,
}

/// Maps a resolved `(Concrete, SockAddr, Metadata)` triple to an endpoint.
#[derive(Debug, Clone, Copy)]
pub struct FromMetadata;

/// The profile key of a logical destination.
#[derive(Debug, Clone)]
pub struct Profile(pub Addr);

/// Extracts the profile key from a logical destination.
#[derive(Debug, Clone, Copy)]
pub struct ProfileTarget;

/// Extracts, per request, the logical destination together with a
/// fallback endpoint at the accepting socket's original target.
#[derive(Debug, Clone, Copy)]
pub struct LogicalOrFallbackTarget {
    /// The accepting socket's original target address.
    pub target_addr: SockAddr,
}

impl Concrete {
    /// The same target redirected at a named backend address.
    pub fn with_addr(&self, a: &crate::addr::NameAddr) -> (r: Concrete)
        ensures
            r.dst@ == AddrV::Name(a.name@, a.port),
            r.settings == self.settings,
    {
        Concrete { dst: Addr::Name(a.dup()), settings: self.settings }
    }
}

impl From<Logical> for Concrete {
    /// A concrete destination that forwards to the logical one unchanged.
    fn from(logical: Logical) -> (r: Concrete) {
        Concrete { dst: logical.dst, settings: logical.settings }
    }
}

impl vstd::std_specs::convert::FromSpecImpl<Logical> for Concrete {
    open spec fn obeys_from_spec() -> bool {
        true
    }

    open spec fn from_spec(logical: Logical) -> Concrete {
        Concrete { dst: logical.dst, settings: logical.settings }
    }
}

/// Converting a logical destination to a concrete one keeps both the
/// destination address and the protocol settings.
pub proof fn lemma_concrete_round_trip(logical: Logical)
    ensures
        <Concrete as vstd::std_specs::convert::FromSpec<Logical>>::from_spec(logical).dst
            == logical.dst,
        <Concrete as vstd::std_specs::convert::FromSpec<Logical>>::from_spec(logical).settings
            == logical.settings,
{
}

impl PeerIdentity {
    /// Equality of two peer identities, by value.
    pub fn same(&self, other: &PeerIdentity) -> (r: bool)
        ensures
            r <==> self@ == other@,
    {
        match (self, other) {
            (PeerIdentity::Known(a), PeerIdentity::Known(b)) => crate::addr::bytes_eq(a, b),
            (PeerIdentity::Unknown(a), PeerIdentity::Unknown(b)) => *a == *b,
            _ => {
                proof {
                    assert(self@ != other@);
                }
                false
            },
        }
    }
}

impl Endpoint {
    /// Cache identity: two endpoints are the same endpoint for caching
    /// exactly when their address, identity and concrete target agree;
    /// metadata is advisory and is ignored, so that label drift does not
    /// churn the cache.
    pub fn cache_eq(&self, other: &Endpoint) -> (r: bool)
        ensures
            r <==> (self.addr == other.addr && self.identity@ == other.identity@
                && self.concrete.dst@ == other.concrete.dst@ && self.concrete.settings
                == other.concrete.settings),
    {
        self.addr == other.addr && self.identity.same(&other.identity) && self.concrete.dst.same(
            &other.concrete.dst,
        ) && self.concrete.settings == other.concrete.settings
    }

    /// A bare endpoint at a socket address, before any discovery.
    pub fn from_target(addr: SockAddr) -> (r: Endpoint)
        ensures
            r.addr == addr,
            r.metadata.labels@.len() == 0,
            r.metadata.identity is None,
            r.metadata.protocol_hint is Unknown,
            r.identity@ == PeerIdentityV::Unknown(NoIdentityReason::NotHttp),
            r.concrete.dst@ == AddrV::Sock(addr.ip, addr.port),
            r.concrete.settings is NotHttp,
    {
        Endpoint {
            addr,
            metadata: Metadata::empty(),
            identity: PeerIdentity::Unknown(NoIdentityReason::NotHttp),
            concrete: Concrete { dst: Addr::Sock(addr), settings: Settings::NotHttp },
        }
    }

    /// Whether this endpoint can carry HTTP/1 traffic as transparent
    /// HTTP/2: discovery hinted at HTTP/2 and the traffic is plain HTTP/1
    /// that does not itself ask for a connection upgrade.
    pub fn can_use_orig_proto(&self) -> (r: bool)
        requires
            !(self.concrete.settings is NotHttp),
        ensures
            r <==> (!(self.metadata.protocol_hint is Unknown) && (self.concrete.settings
                matches Settings::Http1 { wants_h1_upgrade: false, .. })),
    {
        if let ProtocolHint::Unknown = self.metadata.protocol_hint {
            return false;
        }
        match self.concrete.settings {
            Settings::Http2 => false,
            Settings::Http1 { keep_alive: _, wants_h1_upgrade, was_absolute_form: _ } => {
                !wants_h1_upgrade
            },
            Settings::NotHttp => {
                // Ruled out by the precondition.
                proof {
                    assert(false);
                }
                false
            },
        }
    }

    /// The authority requests should be rewritten to carry, when the
    /// original target was not in absolute form.
    pub fn should_normalize_uri(&self) -> (r: Option<Addr>)
        ensures
            match r {
                Some(a) => a@ == self.concrete.dst@ && (self.concrete.settings
                    matches Settings::Http1 { was_absolute_form: false, .. }),
                None => !(self.concrete.settings matches Settings::Http1 {
                    was_absolute_form: false,
                    ..
                }),
            },
    {
        if let Settings::Http1 { was_absolute_form: false, .. } = self.concrete.settings {
            return Some(self.concrete.dst.dup());
        }
        None
    }
}

impl FromMetadata {
    /// Builds the endpoint for a resolved address: the identity is the
    /// one discovery announced, or is marked as not provided.
    pub fn map_endpoint(&self, concrete: &Concrete, addr: SockAddr, metadata: Metadata) -> (r:
        Endpoint)
        ensures
            r.addr == addr,
            r.concrete.dst@ == concrete.dst@,
            r.concrete.settings == concrete.settings,
            match metadata.identity {
                Some(id) => r.identity@ == PeerIdentityV::Known(id@),
                None => r.identity@ == PeerIdentityV::Unknown(
                    NoIdentityReason::NotProvidedByServiceDiscovery,
                ),
            },
            r.metadata == metadata,
    {
        let identity = match &metadata.identity {
            Some(id) => PeerIdentity::Known(crate::addr::clone_bytes(id)),
            None => PeerIdentity::Unknown(NoIdentityReason::NotProvidedByServiceDiscovery),
        };
        Endpoint {
            addr,
            identity,
            concrete: Concrete { dst: concrete.dst.dup(), settings: concrete.settings },
            metadata,
        }
    }
}

impl Logical {
    /// The header value naming this request's destination, as the
    /// destination-override header writes it.
    pub fn dst_header_value(&self) -> (r: Vec<u8>)
        ensures
            r@ == crate::addr::spec_authority(self.dst@),
    {
        self.dst.authority_bytes()
    }

    /// The destination address.
    pub fn addr(&self) -> (r: &Addr)
        ensures
            r == &self.dst,
    {
        &self.dst
    }

    /// The authority requests should be rewritten to carry, when the
    /// original target was not in absolute form.
    pub fn should_normalize_uri(&self) -> (r: Option<Addr>)
        ensures
            match r {
                Some(a) => a@ == self.dst@ && (self.settings matches Settings::Http1 {
                    was_absolute_form: false,
                    ..
                }),
                None => !(self.settings matches Settings::Http1 {
                    was_absolute_form: false,
                    ..
                }),
            },
    {
        if let Settings::Http1 { was_absolute_form: false, .. } = self.settings {
            return Some(self.dst.dup());
        }
        None
    }
}

/// The destination named by the `l5d-dst-override` header, when the
/// header is present and parses as `host:port`.
pub open spec fn spec_override_dst(req: RequestHead) -> Option<(Seq<u8>, u16)> {
    match spec_header_value(req.headers@, dst_override_hdr()) {
        Some(v) => spec_parse_authority(v, None),
        None => None,
    }
}

/// The destination named by the request target's authority, with a
/// default port of 80, when the authority is present and parses.
pub open spec fn spec_authority_dst(req: RequestHead) -> Option<(Seq<u8>, u16)> {
    match req.authority {
        Some(v) => spec_parse_authority(v@, Some(80u16)),
        None => None,
    }
}

/// The destination named by the `host` header, with a default port of
/// 80, when the header is present and parses.
pub open spec fn spec_host_dst(req: RequestHead) -> Option<(Seq<u8>, u16)> {
    match spec_header_value(req.headers@, host_hdr()) {
        Some(v) => spec_parse_authority(v, Some(80u16)),
        None => None,
    }
}

/// The logical destination of a request: the dst-override header, else
/// the request authority, else the host header, else the accepting
/// socket's original target.
pub open spec fn spec_logical_dst(req: RequestHead, target: SockAddr) -> AddrV {
    match spec_override_dst(req) {
        Some((n, p)) => AddrV::Name(n, p),
        None => match spec_authority_dst(req) {
            Some((n, p)) => AddrV::Name(n, p),
            None => match spec_host_dst(req) {
                Some((n, p)) => AddrV::Name(n, p),
                None => AddrV::Sock(target.ip, target.port),
            },
        },
    }
}

impl LogicalOrFallbackTarget {
    /// Extracts the logical destination and the fallback endpoint from a
    /// request; the dst-override header takes priority over the request
    /// authority, the authority over the host header, and the host
    /// header over the accepting socket's target.
    pub fn key(&self, req: &RequestHead) -> (r: (Logical, Endpoint))
        ensures
            r.0.dst@ == spec_logical_dst(*req, self.target_addr),
            r.0.settings == crate::message::spec_settings_of(*req),
            r.1.addr == self.target_addr,
            r.1.metadata.labels@.len() == 0,
            r.1.metadata.identity is None,
            r.1.metadata.protocol_hint is Unknown,
            match spec_header_value(req.headers@, require_id_hdr()) {
                Some(v) => r.1.identity@ == PeerIdentityV::Known(v),
                None => r.1.identity@ == PeerIdentityV::Unknown(
                    NoIdentityReason::NotProvidedByServiceDiscovery,
                ),
            },
            r.1.concrete.dst@ == r.0.dst@,
            r.1.concrete.settings == r.0.settings,
    {
        let dst: Addr = {
            let ov = match find_header(&req.headers, &dst_override_hdr_bytes()) {
                Some(v) => parse_authority(v, None),
                None => None,
            };
            match ov {
                Some(na) => Addr::Name(na),
                None => {
                    let au = match &req.authority {
                        Some(v) => parse_authority(v, Some(80)),
                        None => None,
                    };
                    match au {
                        Some(na) => Addr::Name(na),
                        None => {
                            let ho = match find_header(&req.headers, &host_hdr_bytes()) {
                                Some(v) => parse_authority(v, Some(80)),
                                None => None,
                            };
                            match ho {
                                Some(na) => Addr::Name(na),
                                None => Addr::Sock(self.target_addr),
                            }
                        },
                    }
                },
            }
        };
        let settings = Settings::from_request(req);
        let logical = Logical { dst: dst.dup(), settings };
        let identity = match find_header(&req.headers, &require_id_hdr_bytes()) {
            Some(v) => PeerIdentity::Known(crate::addr::clone_bytes(v)),
            None => PeerIdentity::Unknown(NoIdentityReason::NotProvidedByServiceDiscovery),
        };
        let fallback = Endpoint {
            addr: self.target_addr,
            metadata: Metadata::empty(),
            identity,
            concrete: Concrete { dst, settings },
        };
        (logical, fallback)
    }
}

/// When the `l5d-dst-override` header is present and parses, it decides
/// the logical destination, whatever the authority or host say.
pub proof fn lemma_override_priority(req: RequestHead, target: SockAddr, n: Seq<u8>, p: u16)
    requires
        spec_override_dst(req) == Some((n, p)),
    ensures
        spec_logical_dst(req, target) == AddrV::Name(n, p),
{
}

impl crate::router::Key<RequestHead> for LogicalOrFallbackTarget {
    type Key = (Logical, Endpoint);

    open spec fn key_matches(&self, req: &RequestHead, k: &(Logical, Endpoint)) -> bool {
        &&& k.0.dst@ == spec_logical_dst(*req, self.target_addr)
        &&& k.0.settings == crate::message::spec_settings_of(*req)
        &&& k.1.addr == self.target_addr
        &&& k.1.concrete.dst@ == k.0.dst@
        &&& k.1.concrete.settings == k.0.settings
    }

    fn key(&self, req: &RequestHead) -> (r: (Logical, Endpoint)) {
        self.key(req)
    }
}

impl crate::router::Key<Logical> for ProfileTarget {
    type Key = Profile;

    open spec fn key_matches(&self, t: &Logical, k: &Profile) -> bool {
        k.0@ == t.dst@
    }

    fn key(&self, t: &Logical) -> (r: Profile) {
        self.key(t)
    }
}

impl Profile {
    /// The destination this profile keys on.
    pub fn destination(&self) -> (r: Addr)
        ensures
            r@ == self.0@,
    {
        self.0.dup()
    }
}

impl ProfileTarget {
    /// The profile key of a logical destination: its address alone.
    pub fn key(&self, t: &Logical) -> (r: Profile)
        ensures
            r.0@ == t.dst@,
    {
        Profile(t.dst.dup())
    }
}

} // verus!
