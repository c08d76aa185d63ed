use rand::rngs::SmallRng;
use rand::SeedableRng;
use routestack::addr::{Addr, NameAddr, SockAddr};
use routestack::concrete::{forward, Maker, WeightedAddr};
use routestack::endpoint::Concrete;
use routestack::settings::Settings;

fn name(s: &str, port: u16) -> NameAddr {
    NameAddr { name: s.as_bytes().to_vec(), port }
}

fn target() -> Concrete {
    Concrete {
        dst: Addr::Sock(SockAddr { ip: 0x0a000001, port: 80 }),
        settings: Settings::Http1 {
            keep_alive: true,
            wants_h1_upgrade: false,
            was_absolute_form: false,
        },
    }
}

fn weighted(s: &str, weight: u32) -> WeightedAddr {
    WeightedAddr { addr: name(s, 80), weight }
}

/// The initial state forwards to a backend built for the target itself.
#[test]
fn forward_dispatches_to_the_initial_backend() {
    let rng = SmallRng::seed_from_u64(1);
    let (mut svc, _update) = forward(target(), Maker::new(), rng);
    let ready = vec![0u64];
    assert!(svc.poll_ready(&ready).is_ready());
    assert_eq!(svc.call().id, 0);
}

/// A forward is not ready while its backend is not.
#[test]
fn forward_not_ready_without_backend() {
    let rng = SmallRng::seed_from_u64(1);
    let (mut svc, _update) = forward(target(), Maker::new(), rng);
    let ready: Vec<u64> = vec![7u64];
    assert!(!svc.poll_ready(&ready).is_ready());
}

/// Hot reconfigure: readers serving under the initial forward observe a
/// newly broadcast split on their next poll, and route among its
/// backends.
#[test]
fn hot_reconfigure_reaches_every_reader() {
    let rng = SmallRng::seed_from_u64(2);
    let (mut reader_one, mut update) = forward(target(), Maker::new(), rng);
    let mut reader_two = reader_one.fork(SmallRng::seed_from_u64(3));

    // Both readers serve the initial forward (backend 0).
    let ready = vec![0u64, 1, 2];
    assert!(reader_one.poll_ready(&ready).is_ready());
    assert_eq!(reader_one.call().id, 0);
    assert!(reader_two.poll_ready(&ready).is_ready());
    assert_eq!(reader_two.call().id, 0);

    // The writer reconfigures to a split over two fresh backends (1, 2).
    update.set_split(vec![weighted("a", 1), weighted("b", 1)]).unwrap();

    for reader in [&mut reader_one, &mut reader_two] {
        assert!(reader.poll_ready(&ready).is_ready());
        let chosen = reader.call().id;
        assert!(chosen == 1 || chosen == 2, "routed to {chosen}");
    }
}

/// Weighted split: with weights 1000 and 3000 and both backends always
/// ready, about a quarter of 40,000 calls go to the first backend.
#[test]
fn weighted_split_frequencies_converge() {
    let rng = SmallRng::seed_from_u64(42);
    let (mut svc, mut update) = forward(target(), Maker::new(), rng);
    update
        .set_split(vec![weighted("a", 1000), weighted("b", 3000)])
        .unwrap();

    // Backends 1 (a) and 2 (b) are always ready.
    let ready = vec![1u64, 2];
    let mut count_a: u64 = 0;
    let mut count_b: u64 = 0;
    for _ in 0..40_000 {
        assert!(svc.poll_ready(&ready).is_ready());
        match svc.call().id {
            1 => count_a += 1,
            2 => count_b += 1,
            other => panic!("routed to unknown backend {other}"),
        }
    }
    assert_eq!(count_a + count_b, 40_000);
    // Expectation 10,000; more than 5 sigma of slack on either side.
    assert!((9_500..=10_500).contains(&count_a), "a received {count_a}");
}

/// A split only dispatches to ready backends: with one backend down,
/// every grant lands on the other.
#[test]
fn split_skips_unready_backends() {
    let rng = SmallRng::seed_from_u64(7);
    let (mut svc, mut update) = forward(target(), Maker::new(), rng);
    update
        .set_split(vec![weighted("a", 1), weighted("b", 1)])
        .unwrap();
    let only_b = vec![2u64];
    let mut granted = 0;
    for _ in 0..200 {
        if svc.poll_ready(&only_b).is_ready() {
            assert_eq!(svc.call().id, 2);
            granted += 1;
        }
    }
    assert!(granted > 0, "no grant in 200 polls with a ready backend");
}

/// Reuse on reconfigure: a backend kept across two splits is the same
/// instance; dropped addresses lose theirs and new addresses get a fresh
/// one.
#[test]
fn reconfigure_reuses_surviving_backends() {
    let rng = SmallRng::seed_from_u64(11);
    let (mut svc, mut update) = forward(target(), Maker::new(), rng);

    // First split: a -> backend 1, b -> backend 2.
    update
        .set_split(vec![weighted("a", 1), weighted("b", 2)])
        .unwrap();

    // Second split: b kept (still backend 2), c fresh (backend 3).
    update
        .set_split(vec![weighted("b", 2), weighted("c", 1)])
        .unwrap();

    // Readers only ever dispatch to backends 2 and 3 now.
    let ready = vec![1u64, 2, 3];
    for _ in 0..50 {
        assert!(svc.poll_ready(&ready).is_ready());
        let chosen = svc.call().id;
        assert!(chosen == 2 || chosen == 3, "routed to {chosen}");
    }

    // And b's traffic still reaches the instance built for the first
    // split: backend 2.
    let only_b = vec![2u64];
    let mut saw_b = false;
    for _ in 0..200 {
        if svc.poll_ready(&only_b).is_ready() {
            assert_eq!(svc.call().id, 2);
            saw_b = true;
        }
    }
    assert!(saw_b);
}

/// Idempotence: adopting the forward the writer already holds makes no
/// new backend and broadcasts nothing.
#[test]
fn set_forward_when_forwarding_is_a_no_op() {
    let rng = SmallRng::seed_from_u64(5);
    let (mut svc, mut update) = forward(target(), Maker::new(), rng);
    assert!(update.set_forward().is_ok());
    let ready = vec![0u64];
    assert!(svc.poll_ready(&ready).is_ready());
    assert_eq!(svc.call().id, 0);
}

/// Idempotence: a single-address split equal to the current forward
/// override is a no-op.
#[test]
fn set_split_single_same_address_is_a_no_op() {
    let rng = SmallRng::seed_from_u64(6);
    let (mut svc, mut update) = forward(target(), Maker::new(), rng);
    update.set_split(vec![weighted("a", 1)]).unwrap();
    update.set_split(vec![weighted("a", 9)]).unwrap();
    // Only the first set_split built a backend: id 1.
    let ready = vec![1u64];
    assert!(svc.poll_ready(&ready).is_ready());
    assert_eq!(svc.call().id, 1);
}

/// set_forward after an override rebuilds a backend for the original
/// target.
#[test]
fn set_forward_after_override_rebuilds() {
    let rng = SmallRng::seed_from_u64(8);
    let (mut svc, mut update) = forward(target(), Maker::new(), rng);
    update.set_split(vec![weighted("a", 1)]).unwrap();
    assert!(update.set_forward().is_ok());
    let ready = vec![2u64];
    assert!(svc.poll_ready(&ready).is_ready());
    assert_eq!(svc.call().id, 2);
}

/// The writer reports the service lost once every reader is gone.
#[test]
fn lost_readers_surface_as_lost_service() {
    let rng = SmallRng::seed_from_u64(9);
    let (svc, mut update) = forward(target(), Maker::new(), rng);
    drop(svc);
    let err = update.set_split(vec![weighted("a", 1)]).unwrap_err();
    assert_eq!(err.message(), "services lost");
}
