//! Profile-driven concrete routing: forward to a single backend or split
//! traffic across several by weight, hot-reconfigurable over a
//! single-writer / many-reader broadcast channel.
//!
//! The writer side (`Update`) rebuilds the routing state on `set_forward`
//! / `set_split` and broadcasts it; each reader (`Service`) adopts the
//! latest state on its next readiness poll. Weighted selection samples a
//! real weighted-index distribution inside the readiness poll, so that
//! the readiness grant names the backend the next call will use.

use crate::addr::NameAddr;
use crate::endpoint::Concrete;
use crate::settings::Settings;
use crate::PollReady;
use indexmap::IndexMap;
use rand::distributions::Distribution;
use rand::distributions::WeightedIndex;
use rand::rngs::SmallRng;
use std::collections::hash_map::RandomState;
use tokio::sync::watch;
use vstd::prelude::*;

verus! {

/// A named backend address with its split weight.
#[derive(Debug, Clone)]
pub struct WeightedAddr {
    pub addr: NameAddr,
    pub weight: u32,
}

/// A handle to a backend service; the number identifies one construction
/// by the maker, so equal handles are the same backend instance.
#[derive(Debug, Clone, Copy, PartialEq, Eq, Structural)]
pub struct Backend {
    pub id: u64,
}

/// Mathematical value of a `Concrete` target.
pub open spec fn concrete_v(c: Concrete) -> (crate::addr::AddrV, Settings) {
    (c.dst@, c.settings)
}

/// Builds backend services for concrete targets; every call hands out a
/// fresh handle and records the target it was built for.
pub struct Maker {
    /// The id the next built backend will carry.
    pub next_id: u64,
    /// Which target each handle was built for.
    pub targets: Ghost<Map<u64, Concrete>>,
}

impl Maker {
    pub fn new() -> (r: Maker)
        ensures
            r.next_id == 0,
            r.targets@ == Map::<u64, Concrete>::empty(),
    {
        Maker { next_id: 0, targets: Ghost(Map::empty()) }
    }

    /// Builds a backend for `target`: the handle is fresh.
    pub fn make(&mut self, target: &Concrete) -> (r: Backend)
        requires
            old(self).next_id < u64::MAX,
        ensures
            r.id == old(self).next_id,
            final(self).next_id == old(self).next_id + 1,
            final(self).targets@ == old(self).targets@.insert(r.id, *target),
    {
        let id = self.next_id;
        self.next_id = self.next_id + 1;
        proof {
            self.targets@ = self.targets@.insert(id, *target);
        }
        Backend { id }
    }
}

/// The error returned by the writer when every reader is gone.
#[derive(Debug)]
pub struct LostService;

impl LostService {
    /// A human-readable description of the error.
    pub fn message(&self) -> (r: &'static str)
        ensures
            r@ == lost_service_msg(),
    {
        "services lost"
    }
}

/// The text of the lost-service error.
pub open spec fn lost_service_msg() -> Seq<char> {
    "services lost"@
}

/// The sum of a sequence of weights.
pub open spec fn sum_weights(s: Seq<u32>) -> int
    decreases s.len(),
{
    if s.len() == 0 {
        0
    } else {
        sum_weights(s.drop_last()) + s.last()
    }
}

/// The weights of a list of weighted addresses, in order.
pub open spec fn weights_of(a: Seq<WeightedAddr>) -> Seq<u32> {
    a.map_values(|wa: WeightedAddr| wa.weight)
}

// === Trusted view of the outside crates ===

#[verifier::external_type_specification]
#[verifier::external_body]
#[verifier::reject_recursive_types(K)]
#[verifier::reject_recursive_types(V)]
#[verifier::reject_recursive_types(S)]
pub struct ExIndexMap<K, V, S>(IndexMap<K, V, S>);

#[verifier::external_type_specification]
#[verifier::external_body]
pub struct ExSmallRng(SmallRng);

/// Holds rand's weighted-index distribution over `u32` weights. Verus
/// refuses the type's own declaration (its `SampleUniform` bound names an
/// outside trait), so the value is held opaquely.
#[verifier::external_body]
pub struct WeightedDist {
    inner: WeightedIndex<u32>,
}

#[verifier::external_type_specification]
#[verifier::external_body]
#[verifier::reject_recursive_types(T)]
pub struct ExWatchSender<T>(watch::Sender<T>);

#[verifier::external_type_specification]
#[verifier::external_body]
#[verifier::reject_recursive_types(T)]
pub struct ExWatchReceiver<T>(watch::Receiver<T>);

/// The entries a split map holds, in insertion order.
pub uninterp spec fn split_entries(m: IndexMap<NameAddr, Backend, RandomState>) -> Seq<
    (NameAddr, Backend),
>;

/// The weights a weighted-index distribution was built from.
pub uninterp spec fn dist_weights(d: WeightedDist) -> Seq<u32>;

/// Relies on indexmap::IndexMap::clone (keys and values are cloned);
/// nothing is assumed of the result.
pub assume_specification<K: Clone, V: Clone, S: Clone>[ <IndexMap<K, V, S> as Clone>::clone ](
    m: &IndexMap<K, V, S>,
) -> IndexMap<K, V, S>
;

/// Relies on indexmap::IndexMap::with_capacity: the new map is empty.
#[verifier::external_body]
fn split_map_new(capacity: usize) -> (m: IndexMap<NameAddr, Backend>)
    ensures
        split_entries(m) == Seq::<(NameAddr, Backend)>::empty(),
{
    IndexMap::with_capacity(capacity)
}

/// Relies on indexmap::IndexMap::insert: a key that is not yet present
/// is appended at the end, keeping insertion order. `NameAddr` equality
/// and hashing are derived, so keys are equal exactly when their fields
/// are.
#[verifier::external_body]
fn split_map_insert(m: &mut IndexMap<NameAddr, Backend>, key: NameAddr, backend: Backend)
    requires
        forall|i: int|
            0 <= i < split_entries(*old(m)).len() ==> (#[trigger] split_entries(*old(m))[i]).0@
                != key@,
    ensures
        split_entries(*final(m)) == split_entries(*old(m)).push((key, backend)),
{
    m.insert(key, backend);
}

/// Relies on indexmap::IndexMap::get: returns the value stored under an
/// equal key, and nothing when no key is equal.
#[verifier::external_body]
fn split_map_get(m: &IndexMap<NameAddr, Backend>, key: &NameAddr) -> (r: Option<Backend>)
    ensures
        match r {
            Some(b) => exists|i: int|
                0 <= i < split_entries(*m).len() && (#[trigger] split_entries(*m)[i]).0@ == key@
                    && split_entries(*m)[i].1 == b,
            None => forall|i: int|
                0 <= i < split_entries(*m).len() ==> (#[trigger] split_entries(*m)[i]).0@ != key@,
        },
{
    m.get(key).copied()
}

/// Relies on indexmap::IndexMap::get_index: returns the entry at a
/// position, in insertion order.
#[verifier::external_body]
fn split_map_get_index(m: &IndexMap<NameAddr, Backend>, idx: usize) -> (r: Option<Backend>)
    ensures
        idx < split_entries(*m).len() ==> r == Some(split_entries(*m)[idx as int].1),
        idx >= split_entries(*m).len() ==> r is None,
{
    m.get_index(idx).map(|e: (&NameAddr, &Backend)| *e.1)
}

/// Relies on indexmap::IndexMap::len: the number of entries.
#[verifier::external_body]
fn split_map_len(m: &IndexMap<NameAddr, Backend>) -> (r: usize)
    ensures
        r == split_entries(*m).len(),
{
    m.len()
}

/// Relies on rand's WeightedIndex::new: building from one or more `u32`
/// weights whose sum is positive and fits in `u32` succeeds, and the
/// distribution remembers exactly those weights.
#[verifier::external_body]
fn new_weighted(weights: &Vec<u32>) -> (d: WeightedDist)
    requires
        weights@.len() >= 1,
        sum_weights(weights@) > 0,
        sum_weights(weights@) <= u32::MAX,
    ensures
        dist_weights(d) == weights@,
{
    WeightedDist { inner: WeightedIndex::new(weights.iter().cloned()).expect("valid weights") }
}

/// Relies on rand's WeightedIndex::sample: returns the position of one
/// of the distribution's weights, never one whose weight is zero.
#[verifier::external_body]
fn sample_weighted(d: &WeightedDist, rng: &mut SmallRng) -> (i: usize)
    ensures
        i < dist_weights(*d).len(),
        dist_weights(*d)[i as int] > 0,
{
    d.inner.sample(rng)
}

/// Relies on tokio::sync::watch::channel: a linked sender and receiver
/// holding the initial state. Only well-formed states enter a channel.
#[verifier::external_body]
fn routes_channel(init: Routes) -> (watch::Sender<Routes>, watch::Receiver<Routes>)
    requires
        routes_inv(init),
{
    watch::channel(init)
}

/// Relies on tokio::sync::watch::Sender::send: delivers the state to the
/// channel; fails only when every receiver is gone. Only well-formed
/// states enter a channel.
#[verifier::external_body]
fn send_routes(tx: &watch::Sender<Routes>, routes: &Routes) -> (ok: bool)
    requires
        routes_inv(*routes),
{
    tx.send(routes.clone()).is_ok()
}

/// Relies on tokio::sync::watch::Receiver::has_changed: whether a state
/// this receiver has not yet seen was sent.
#[verifier::external_body]
fn routes_changed(rx: &watch::Receiver<Routes>) -> (r: bool) {
    matches!(rx.has_changed(), Ok(true))
}

/// Relies on tokio::sync::watch::Receiver::borrow_and_update: hands back
/// a clone of the latest state sent (or the initial one), marked as
/// seen. Every state that enters a channel is well-formed, and cloning
/// keeps the entries, weights and name bytes, so the clone is
/// well-formed too.
#[verifier::external_body]
fn latest_routes(rx: &mut watch::Receiver<Routes>) -> (r: Routes)
    ensures
        routes_inv(r),
{
    rx.borrow_and_update().clone()
}

/// Relies on tokio::sync::watch::Receiver::clone: a new receiver on the
/// same channel.
#[verifier::external_body]
fn clone_receiver(rx: &watch::Receiver<Routes>) -> (r: watch::Receiver<Routes>) {
    rx.clone()
}

// === The routing state ===

/// The routing state broadcast from the writer to the readers.
#[derive(Debug, Clone)]
pub(crate) enum Routes {
    Forward { addr: Option<NameAddr>, backend: Backend },
    Split { weights: Vec<u32>, services: IndexMap<NameAddr, Backend> },
}

/// Well-formedness of a routing state: a split names at least two
/// distinct backends, one weight per backend, with a positive total
/// weight that fits in `u32`.
pub(crate) open spec fn routes_inv(r: Routes) -> bool {
    match r {
        Routes::Forward { .. } => true,
        Routes::Split { weights, services } => {
            let es = split_entries(services);
            es.len() == weights@.len() && es.len() >= 2 && sum_weights(weights@) > 0
                && sum_weights(weights@) <= u32::MAX && (forall|i: int, j: int|
                0 <= i < j < es.len() ==> (#[trigger] es[i]).0@ != (#[trigger] es[j]).0@)
        },
    }
}

/// Mathematical value of a routing state: addresses as byte names with
/// ports, backends as handles.
pub ghost enum RoutesV {
    Forward { addr: Option<(Seq<u8>, u16)>, backend: Backend },
    Split { weights: Seq<u32>, entries: Seq<((Seq<u8>, u16), Backend)> },
}

pub(crate) open spec fn routes_view(r: Routes) -> RoutesV {
    match r {
        Routes::Forward { addr, backend } => RoutesV::Forward {
            addr: match addr {
                Some(a) => Some(a@),
                None => None,
            },
            backend,
        },
        Routes::Split { weights, services } => RoutesV::Split {
            weights: weights@,
            entries: split_entries(services).map_values(|e: (NameAddr, Backend)| (e.0@, e.1)),
        },
    }
}

/// Well-formedness at the level of the mathematical value.
pub open spec fn routes_v_inv(r: RoutesV) -> bool {
    match r {
        RoutesV::Forward { .. } => true,
        RoutesV::Split { weights, entries } => entries.len() == weights.len() && entries.len() >= 2
            && sum_weights(weights) > 0 && sum_weights(weights) <= u32::MAX && (forall|
            i: int,
            j: int,
        | 0 <= i < j < entries.len() ==> (#[trigger] entries[i]).0 != (#[trigger] entries[j]).0),
    }
}

pub(crate) proof fn lemma_routes_view_inv(r: Routes)
    requires
        routes_inv(r),
    ensures
        routes_v_inv(routes_view(r)),
{
    match r {
        Routes::Forward { .. } => {},
        Routes::Split { weights, services } => {
            let es = split_entries(services);
            let ev = es.map_values(|e: (NameAddr, Backend)| (e.0@, e.1));
            assert forall|i: int, j: int| 0 <= i < j < ev.len() implies (#[trigger] ev[i]).0 != (
            #[trigger] ev[j]).0 by {
                assert(es[i].0@ != es[j].0@);
            }
        },
    }
}

/// The backend a prior split held for `key`, if any.
pub open spec fn prior_backend(state: RoutesV, key: (Seq<u8>, u16)) -> Option<Backend> {
    match state {
        RoutesV::Split { entries, .. } => {
            if exists|i: int| 0 <= i < entries.len() && (#[trigger] entries[i]).0 == key {
                Some(entries[choose|i: int| 0 <= i < entries.len() && (#[trigger] entries[i]).0 == key].1)
            } else {
                None
            }
        },
        _ => None,
    }
}

proof fn lemma_prior_lookup_some(state: RoutesV, key: (Seq<u8>, u16), n: int, b: Backend)
    requires
        routes_v_inv(state),
        state is Split,
        0 <= n < state->Split_entries.len(),
        state->Split_entries[n].0 == key,
        state->Split_entries[n].1 == b,
    ensures
        prior_backend(state, key) == Some(b),
{
    let entries = state->Split_entries;
    let w = choose|i: int| 0 <= i < entries.len() && (#[trigger] entries[i]).0 == key;
    if w != n {
        assert(entries[w].0 != entries[n].0);
    }
}

/// Readiness was granted for the state: a forward's backend is ready, or
/// a split has a stashed position at a ready, positively weighted
/// backend.
pub open spec fn granted(state: RoutesV, stash: Option<usize>, ready: Seq<u64>) -> bool {
    match state {
        RoutesV::Forward { backend, .. } => ready.contains(backend.id),
        RoutesV::Split { weights, entries } => match stash {
            Some(i) => i < entries.len() && ready.contains(entries[i as int].1.id)
                && weights[i as int] > 0,
            None => false,
        },
    }
}

/// Every backend of the split is ready.
pub open spec fn all_ready(entries: Seq<((Seq<u8>, u16), Backend)>, ready: Seq<u64>) -> bool {
    forall|i: int| 0 <= i < entries.len() ==> ready.contains((#[trigger] entries[i]).1.id)
}

/// Whether `v` holds `id`.
fn contains_id(v: &Vec<u64>, id: u64) -> (r: bool)
    ensures
        r <==> v@.contains(id),
{
    let mut i: usize = 0;
    while i < v.len()
        invariant
            i <= v@.len(),
            forall|j: int| 0 <= j < i ==> v@[j] != id,
        decreases v@.len() - i,
    {
        if v[i] == id {
            return true;
        }
        i = i + 1;
    }
    false
}

/// An owned copy of a weight vector.
fn clone_weights(v: &Vec<u32>) -> (r: Vec<u32>)
    ensures
        r@ == v@,
{
    let mut r: Vec<u32> = Vec::new();
    let mut i: usize = 0;
    while i < v.len()
        invariant
            i <= v@.len(),
            r@ == v@.subrange(0, i as int),
        decreases v@.len() - i,
    {
        r.push(v[i]);
        proof {
            assert(r@ =~= v@.subrange(0, i + 1 as int));
        }
        i = i + 1;
    }
    proof {
        assert(r@ =~= v@);
    }
    r
}

// === The reader ===

/// One reader of the profile-concrete state: dispatches each request to
/// the forward backend, or to a weight-sampled backend of the split.
pub struct Service {
    routes: Routes,
    updates: watch::Receiver<Routes>,
    next_split_index: Option<usize>,
    dist: Option<WeightedDist>,
    rng: SmallRng,
}

impl Service {
    /// The routing state this reader currently applies.
    pub closed spec fn state(self) -> RoutesV {
        routes_view(self.routes)
    }

    /// The split position reserved by the last readiness grant.
    pub closed spec fn stashed(self) -> Option<usize> {
        self.next_split_index
    }

    /// Well-formedness: the state is well-formed, any stashed position is
    /// in range, and any cached distribution carries the split's weights.
    pub closed spec fn wf(self) -> bool {
        &&& routes_inv(self.routes)
        &&& match self.next_split_index {
            Some(i) => match &self.routes {
                Routes::Split { services, .. } => i < split_entries(*services).len(),
                _ => false,
            },
            None => true,
        }
        &&& match self.dist {
            Some(d) => match &self.routes {
                Routes::Split { weights, .. } => dist_weights(d) == weights@,
                _ => false,
            },
            None => true,
        }
    }

    /// A split state always names at least two backends, one weight per
    /// backend, with a positive total weight.
    pub proof fn lemma_state_wf(&self)
        requires
            self.wf(),
        ensures
            routes_v_inv(self.state()),
    {
        lemma_routes_view_inv(self.routes);
    }

    /// Adopts a routing state: the reserved position and the cached
    /// distribution are dropped.
    fn install(&mut self, r: Routes)
        requires
            routes_inv(r),
        ensures
            final(self).wf(),
            final(self).state() == routes_view(r),
            final(self).stashed() is None,
    {
        self.routes = r;
        self.next_split_index = None;
        self.dist = None;
    }

    /// Drains the update channel: when the writer has broadcast a new
    /// state, it replaces the local one and clears any reservation.
    fn poll_update(&mut self)
        requires
            old(self).wf(),
        ensures
            final(self).wf(),
            *final(self) == *old(self) || final(self).stashed() is None,
    {
        if routes_changed(&self.updates) {
            let r = latest_routes(&mut self.updates);
            self.install(r);
        }
    }

    /// Polls the current state for readiness. `ready_ids` are the
    /// backends that would report ready this round. A forward is ready
    /// exactly when its backend is; a split samples by weight up to one
    /// position per backend and reserves the first sampled position
    /// whose backend is ready, so with every backend ready it is always
    /// granted.
    pub fn poll_current(&mut self, ready_ids: &Vec<u64>) -> (r: PollReady)
        requires
            old(self).wf(),
        ensures
            final(self).wf(),
            final(self).state() == old(self).state(),
            match old(self).state() {
                RoutesV::Forward { backend, .. } => (r is Ready <==> ready_ids@.contains(
                    backend.id,
                )) && final(self).stashed() == old(self).stashed(),
                RoutesV::Split { entries, .. } => all_ready(entries, ready_ids@) ==> r is Ready,
            },
            r is Ready ==> granted(final(self).state(), final(self).stashed(), ready_ids@),
    {
        let forward_id: Option<u64> = match &self.routes {
            Routes::Forward { backend, .. } => Some(backend.id),
            _ => None,
        };
        if let Some(id) = forward_id {
            return if contains_id(ready_ids, id) {
                PollReady::Ready
            } else {
                PollReady::NotReady
            };
        }
        // A split: make sure the weighted distribution is at hand.
        if self.dist.is_none() {
            let ws: Vec<u32> = match &self.routes {
                Routes::Split { weights, .. } => clone_weights(weights),
                _ => {
                    proof {
                        assert(false);
                    }
                    Vec::new()
                },
            };
            let d = new_weighted(&ws);
            self.dist = Some(d);
        }
        let n = match &self.routes {
            Routes::Split { services, .. } => split_map_len(services),
            _ => {
                proof {
                    assert(false);
                }
                0
            },
        };
        let ghost snap = *self;
        let mut t: usize = 0;
        while t < n
            invariant
                snap.wf(),
                self.routes == snap.routes,
                snap.routes == old(self).routes,
                self.next_split_index == snap.next_split_index,
                snap.next_split_index == old(self).next_split_index,
                self.dist == snap.dist,
                self.dist is Some,
                snap.routes is Split,
                n == split_entries(snap.routes->Split_services).len(),
                t <= n,
                t > 0 ==> exists|i: int|
                    0 <= i < split_entries(snap.routes->Split_services).len() && !(
                    ready_ids@.contains(
                        (#[trigger] split_entries(snap.routes->Split_services)[i]).1.id,
                    )),
            decreases n - t,
        {
            let idx = match &self.dist {
                Some(d) => sample_weighted(d, &mut self.rng),
                None => {
                    proof {
                        assert(false);
                    }
                    0
                },
            };
            proof {
                // The distribution carries one weight per split entry, so
                // the sampled position is within the split.
                assert(idx < split_entries(snap.routes->Split_services).len());
            }
            let picked = match &self.routes {
                Routes::Split { services, .. } => split_map_get_index(services, idx),
                _ => None,
            };
            match picked {
                Some(backend) => {
                    if contains_id(ready_ids, backend.id) {
                        self.next_split_index = Some(idx);
                        return PollReady::Ready;
                    }
                    proof {
                        let es = split_entries(snap.routes->Split_services);
                        assert(backend == es[idx as int].1);
                        assert(!(ready_ids@.contains(es[idx as int].1.id)));
                    }
                },
                None => {
                    proof {
                        assert(false);
                    }
                },
            }
            t = t + 1;
        }
        proof {
            // The loop ran its course, so some sampled backend was not
            // ready; with that witness, not every backend was ready.
            let es = split_entries(snap.routes->Split_services);
            let ev = es.map_values(|e: (NameAddr, Backend)| (e.0@, e.1));
            assert(t > 0);
            let i = choose|i: int|
                0 <= i < es.len() && !(ready_ids@.contains((#[trigger] es[i]).1.id));
            assert(ev[i] == (es[i].0@, es[i].1));
            assert(!all_ready(ev, ready_ids@));
        }
        PollReady::NotReady
    }

    /// One readiness poll: adopt any broadcast update, then poll the
    /// (possibly new) state. Against that state, a forward is granted
    /// exactly when its backend is ready, and a split whose backends are
    /// all ready is always granted.
    pub fn poll_ready(&mut self, ready_ids: &Vec<u64>) -> (r: PollReady)
        requires
            old(self).wf(),
        ensures
            final(self).wf(),
            match final(self).state() {
                RoutesV::Forward { backend, .. } => r is Ready <==> ready_ids@.contains(
                    backend.id,
                ),
                RoutesV::Split { entries, .. } => all_ready(entries, ready_ids@) ==> r is Ready,
            },
            r is Ready ==> granted(final(self).state(), final(self).stashed(), ready_ids@),
    {
        self.poll_update();
        self.poll_current(ready_ids)
    }

    /// Dispatches one request: a forward calls its sole backend; a split
    /// calls the backend reserved by the last readiness grant and
    /// consumes the reservation.
    pub fn call(&mut self) -> (r: Backend)
        requires
            old(self).wf(),
            old(self).state() is Split ==> old(self).stashed() is Some,
        ensures
            final(self).wf(),
            final(self).state() == old(self).state(),
            match old(self).state() {
                RoutesV::Forward { backend, .. } => r == backend && final(self).stashed() == old(self).stashed(),
                RoutesV::Split { entries, .. } => final(self).stashed() is None && match old(self).stashed() {
                    Some(i) => i < entries.len() && r == entries[i as int].1,
                    None => false,
                },
            },
    {
        let forward: Option<Backend> = match &self.routes {
            Routes::Forward { backend, .. } => Some(*backend),
            _ => None,
        };
        if let Some(b) = forward {
            return b;
        }
        let idx = match self.next_split_index {
            Some(i) => i,
            None => {
                proof {
                    assert(false);
                }
                0
            },
        };
        self.next_split_index = None;
        let picked = match &self.routes {
            Routes::Split { services, .. } => split_map_get_index(services, idx),
            _ => None,
        };
        match picked {
            Some(backend) => backend,
            None => {
                proof {
                    assert(false);
                }
                Backend { id: 0 }
            },
        }
    }

    /// A further reader of the same channel, starting from the latest
    /// broadcast state, with its own random source.
    pub fn fork(&self, rng: SmallRng) -> (r: Service)
        ensures
            r.wf(),
            r.stashed() is None,
    {
        let mut rx = clone_receiver(&self.updates);
        let routes = latest_routes(&mut rx);
        Service { routes, updates: rx, next_split_index: None, dist: None, rng }
    }
}

// === The writer ===

/// The single writer: rebuilds the routing state on reconfiguration and
/// broadcasts it to every reader.
pub struct Update {
    target: Concrete,
    maker: Maker,
    routes: Routes,
    tx: watch::Sender<Routes>,
}

impl Update {
    /// The routing state last built by this writer.
    pub closed spec fn state(self) -> RoutesV {
        routes_view(self.routes)
    }

    /// Well-formedness of the writer's state.
    pub closed spec fn wf(self) -> bool {
        routes_inv(self.routes)
    }

    /// The id the next built backend will carry.
    pub closed spec fn maker_next(self) -> u64 {
        self.maker.next_id
    }

    /// Which target each backend handle was built for.
    pub closed spec fn targets(self) -> Map<u64, Concrete> {
        self.maker.targets@
    }

    /// The original (logical) target this writer builds from.
    pub closed spec fn target_v(self) -> (crate::addr::AddrV, Settings) {
        concrete_v(self.target)
    }

    /// A split state always names at least two backends, one weight per
    /// backend, with a positive total weight.
    pub proof fn lemma_state_wf(&self)
        requires
            self.wf(),
        ensures
            routes_v_inv(self.state()),
    {
        lemma_routes_view_inv(self.routes);
    }
}

/// Sets up profile-concrete routing for `target`: the initial state
/// forwards to a backend freshly built for the target itself, with no
/// profile override.
pub fn forward(target: Concrete, maker: Maker, rng: SmallRng) -> (r: (Service, Update))
    requires
        maker.next_id < u64::MAX,
    ensures
        r.0.wf(),
        r.0.stashed() is None,
        r.1.wf(),
        r.0.state() == (RoutesV::Forward { addr: None, backend: Backend { id: maker.next_id } }),
        r.1.state() == r.0.state(),
        r.1.maker_next() == maker.next_id + 1,
        r.1.targets() == maker.targets@.insert(maker.next_id, target),
        r.1.target_v() == concrete_v(target),
{
    let mut mk = maker;
    let backend = mk.make(&target);
    let init = Routes::Forward { addr: None, backend };
    let (tx, rx) = routes_channel(init);
    let service = Service {
        routes: Routes::Forward { addr: None, backend },
        updates: rx,
        next_split_index: None,
        dist: None,
        rng,
    };
    let update = Update {
        target,
        maker: mk,
        routes: Routes::Forward { addr: None, backend },
        tx,
    };
    (service, update)
}

/// The state is a forward with a profile override equal to `key`.
pub open spec fn forwards_to(state: RoutesV, key: (Seq<u8>, u16)) -> bool {
    match state {
        RoutesV::Forward { addr: Some(a), .. } => a == key,
        _ => false,
    }
}

impl Update {
    /// Routes everything to the original target again. A no-op when the
    /// state already forwards without an override; otherwise a backend is
    /// freshly built and the new state is broadcast.
    pub fn set_forward(&mut self) -> (r: Result<(), LostService>)
        requires
            old(self).wf(),
            old(self).maker_next() < u64::MAX,
        ensures
            final(self).wf(),
            final(self).target_v() == old(self).target_v(),
            (old(self).state() matches RoutesV::Forward { addr: None, .. }) ==> *final(self) == *old(self) && r is Ok,
            !(old(self).state() matches RoutesV::Forward { addr: None, .. }) ==> {
                &&& final(self).state() == (RoutesV::Forward {
                    addr: None,
                    backend: Backend { id: old(self).maker_next() },
                })
                &&& final(self).maker_next() == old(self).maker_next() + 1
                &&& final(self).targets() == old(self).targets().insert(
                    old(self).maker_next(),
                    final(self).targets()[old(self).maker_next()],
                )
                &&& concrete_v(final(self).targets()[old(self).maker_next()]) == old(self).target_v()
            },
    {
        let already = match &self.routes {
            Routes::Forward { addr: None, .. } => true,
            _ => false,
        };
        if already {
            return Ok(());
        }
        let backend = self.maker.make(&self.target);
        self.routes = Routes::Forward { addr: None, backend };
        let ok = send_routes(&self.tx, &self.routes);
        if ok {
            Ok(())
        } else {
            Err(LostService)
        }
    }

    /// Reconfigures the routing state from a profile's weighted
    /// addresses. A single address adopts a forward to it (a no-op when
    /// the state already forwards there); several addresses build a
    /// weighted split, reusing the prior split's backend for every
    /// address it already had and building the rest afresh, in the order
    /// given.
    pub fn set_split(&mut self, addrs: Vec<WeightedAddr>) -> (r: Result<(), LostService>)
        requires
            old(self).wf(),
            addrs@.len() >= 1,
            old(self).maker_next() + addrs@.len() <= u64::MAX,
            addrs@.len() >= 2 ==> sum_weights(weights_of(addrs@)) > 0,
            addrs@.len() >= 2 ==> sum_weights(weights_of(addrs@)) <= u32::MAX,
            addrs@.len() >= 2 ==> forall|i: int, j: int|
                0 <= i < j < addrs@.len() ==> (#[trigger] addrs@[i]).addr@ != (
                #[trigger] addrs@[j]).addr@,
        ensures
            final(self).wf(),
            final(self).target_v() == old(self).target_v(),
            (addrs@.len() == 1 && forwards_to(old(self).state(), addrs@[0].addr@)) ==> *final(self)
                == *old(self) && r is Ok,
            (addrs@.len() == 1 && !forwards_to(old(self).state(), addrs@[0].addr@)) ==> {
                &&& final(self).state() == (RoutesV::Forward {
                    addr: Some(addrs@[0].addr@),
                    backend: Backend { id: old(self).maker_next() },
                })
                &&& final(self).maker_next() == old(self).maker_next() + 1
                &&& concrete_v(final(self).targets()[old(self).maker_next()]) == (
                crate::addr::AddrV::Name(addrs@[0].addr@.0, addrs@[0].addr@.1),
                old(self).target_v().1,
                )
            },
            addrs@.len() >= 2 ==> match final(self).state() {
                RoutesV::Split { weights, entries } => {
                    &&& weights == weights_of(addrs@)
                    &&& entries.len() == addrs@.len()
                    &&& (forall|j: int|
                        0 <= j < entries.len() ==> (#[trigger] entries[j]).0 == addrs@[j].addr@)
                    &&& (forall|j: int|
                        0 <= j < entries.len() ==> match prior_backend(
                            old(self).state(),
                            addrs@[j].addr@,
                        ) {
                            Some(b) => (#[trigger] entries[j]).1 == b,
                            None => {
                                &&& old(self).maker_next() <= entries[j].1.id < final(self).maker_next()
                                &&& concrete_v(final(self).targets()[entries[j].1.id]) == (
                                crate::addr::AddrV::Name(addrs@[j].addr@.0, addrs@[j].addr@.1),
                                old(self).target_v().1,
                                )
                            },
                        })
                    &&& old(self).maker_next() <= final(self).maker_next() <= old(self).maker_next() + addrs@.len()
                },
                _ => false,
            },
    {
        let n = addrs.len();
        if n == 1 {
            let mut addrs = addrs;
            let wa = match addrs.pop() {
                Some(w) => w,
                None => {
                    proof {
                        assert(false);
                    }
                    return Ok(());
                },
            };
            let same = match &self.routes {
                Routes::Forward { addr: Some(a), .. } => a.same(&wa.addr),
                _ => false,
            };
            if same {
                return Ok(());
            }
            let t = self.target.with_addr(&wa.addr);
            let backend = self.maker.make(&t);
            self.routes = Routes::Forward { addr: Some(wa.addr), backend };
            let ok = send_routes(&self.tx, &self.routes);
            return if ok {
                Ok(())
            } else {
                Err(LostService)
            };
        }
        // Several addresses: build the split, reusing prior backends.
        let ghost old_state = routes_view(old(self).routes);
        proof {
            lemma_routes_view_inv(self.routes);
        }
        let mut services = split_map_new(n);
        let mut weights: Vec<u32> = Vec::new();
        let mut j: usize = 0;
        while j < n
            invariant
                2 <= n == addrs@.len(),
                j <= n,
                forall|i: int, k: int|
                    0 <= i < k < addrs@.len() ==> (#[trigger] addrs@[i]).addr@ != (
                    #[trigger] addrs@[k]).addr@,
                self.routes == old(self).routes,
                self.target == old(self).target,
                self.tx == old(self).tx,
                old_state == routes_view(old(self).routes),
                routes_inv(self.routes),
                routes_v_inv(old_state),
                old(self).maker.next_id <= self.maker.next_id,
                self.maker.next_id + (n - j) <= u64::MAX,
                self.maker.next_id <= old(self).maker.next_id + j,
                weights@.len() == j,
                forall|k: int| 0 <= k < j ==> weights@[k] == (#[trigger] addrs@[k]).weight,
                split_entries(services).len() == j,
                forall|k: int|
                    0 <= k < j ==> (#[trigger] split_entries(services)[k]).0@ == addrs@[k].addr@,
                forall|k: int|
                    0 <= k < j ==> match prior_backend(old_state, addrs@[k].addr@) {
                        Some(b) => (#[trigger] split_entries(services)[k]).1 == b,
                        None => {
                            &&& old(self).maker.next_id <= split_entries(services)[k].1.id
                                < self.maker.next_id
                            &&& self.maker.targets@.contains_key(split_entries(services)[k].1.id)
                            &&& concrete_v(self.maker.targets@[split_entries(services)[k].1.id])
                                == (
                            crate::addr::AddrV::Name(addrs@[k].addr@.0, addrs@[k].addr@.1),
                            concrete_v(old(self).target).1,
                            )
                        },
                    },
            decreases n - j,
        {
            let prior: Option<Backend> = match &self.routes {
                Routes::Split { services: prior_map, .. } => split_map_get(
                    prior_map,
                    &addrs[j].addr,
                ),
                _ => None,
            };
            let backend = match prior {
                Some(b) => {
                    proof {
                        match &self.routes {
                            Routes::Split { services: pm, .. } => {
                                let es = split_entries(*pm);
                                let i = choose|i: int|
                                    0 <= i < es.len() && (#[trigger] es[i]).0@ == addrs@[j as int].addr@ && es[i].1 == b;
                                let ev = es.map_values(|e: (NameAddr, Backend)| (e.0@, e.1));
                                assert(ev[i] == (es[i].0@, es[i].1));
                                lemma_prior_lookup_some(old_state, addrs@[j as int].addr@, i, b);
                            },
                            _ => {
                                assert(false);
                            },
                        }
                    }
                    b
                },
                None => {
                    proof {
                        match old_state {
                            RoutesV::Split { entries, .. } => {
                                assert forall|i: int|
                                    0 <= i < entries.len() implies (#[trigger] entries[i]).0
                                    != addrs@[j as int].addr@ by {
                                    match &self.routes {
                                        Routes::Split { services: pm, .. } => {
                                            let es = split_entries(*pm);
                                            let ev = es.map_values(
                                                |e: (NameAddr, Backend)| (e.0@, e.1),
                                            );
                                            assert(ev[i] == (es[i].0@, es[i].1));
                                            assert(es[i].0@ != addrs@[j as int].addr@);
                                        },
                                        _ => {
                                            assert(false);
                                        },
                                    }
                                }
                            },
                            _ => {},
                        }
                        assert(prior_backend(old_state, addrs@[j as int].addr@) is None);
                    }
                    let t = self.target.with_addr(&addrs[j].addr);
                    self.maker.make(&t)
                },
            };
            split_map_insert(&mut services, addrs[j].addr.dup(), backend);
            weights.push(addrs[j].weight);
            j = j + 1;
        }
        proof {
            assert(weights@ =~= weights_of(addrs@));
        }
        let new_routes = Routes::Split { weights, services };
        proof {
            let es = split_entries(services);
            assert forall|i: int, k: int| 0 <= i < k < es.len() implies (#[trigger] es[i]).0@ != (
            #[trigger] es[k]).0@ by {
                assert(addrs@[i].addr@ != addrs@[k].addr@);
            }
            assert(routes_inv(new_routes));
        }
        self.routes = new_routes;
        let ok = send_routes(&self.tx, &self.routes);
        proof {
            let es = split_entries(self.routes->Split_services);
            let ev = es.map_values(|e: (NameAddr, Backend)| (e.0@, e.1));
            assert forall|k: int| 0 <= k < ev.len() implies (#[trigger] ev[k]).0 == addrs@[k].addr@
                && ev[k].1 == es[k].1 by {
                assert(ev[k] == (es[k].0@, es[k].1));
            }
        }
        if ok {
            Ok(())
        } else {
            Err(LostService)
        }
    }
}

} // verus!
