//! A verified model of an outbound request-routing and service-construction
//! stack for a service-mesh sidecar proxy.
//!
//! Per request, the stack extracts a logical destination key, resolves it
//! through profile-driven concrete routing (forward to a single backend or a
//! weighted split across several), optionally upgrades HTTP/1 endpoints to
//! HTTP/2 transport, and selects an HTTP client, all behind readiness-gated
//! service state machines.

pub mod addr;
pub mod client;
pub mod concrete;
pub mod endpoint;
pub mod insert;
pub mod message;
pub mod orig_proto_upgrade;
pub mod pending;
pub mod router;
pub mod settings;
pub mod svc;

use vstd::prelude::*;

verus! {

/// Outcome of polling a service for readiness.
#[derive(Clone, Copy, Debug, PartialEq, Eq, Structural)]
pub enum PollReady {
    /// The service may dispatch exactly one request.
    Ready,
    /// The service cannot accept a request yet.
    NotReady,
}

impl PollReady {
    pub fn is_ready(&self) -> (r: bool)
        ensures
            r <==> *self is Ready,
    {
        match self {
            PollReady::Ready => true,
            PollReady::NotReady => false,
        }
    }
}

} // verus!
