use routestack::addr::{Addr, NameAddr};
use routestack::endpoint::{Logical, Profile, ProfileTarget};
use routestack::pending::{ConstructorPoll, Pending, PendingPoll};
use routestack::router::{Layer, Oneshot, OneshotStep, ResponseFuture};
use routestack::settings::Settings;
use routestack::svc::{stack, Buffer, SvcError, TimeoutPoll};
use routestack::PollReady;

/// A pending handle stays not-ready while its constructor is, becomes
/// made when the constructor delivers, and then never returns to making.
#[test]
fn pending_becomes_made_and_stays_made() {
    let mut p: Pending<(), u32> = Pending::Making(());
    assert_eq!(
        p.poll_ready(ConstructorPoll::NotReady, PollReady::Ready),
        PendingPoll::NotReady
    );
    assert!(matches!(p, Pending::Making(())));
    assert_eq!(
        p.poll_ready(ConstructorPoll::Ready(7), PollReady::NotReady),
        PendingPoll::NotReady
    );
    assert!(matches!(p, Pending::Made(7)));
    // Made stays made, whatever later constructor polls would say.
    assert_eq!(
        p.poll_ready(ConstructorPoll::Failed, PollReady::Ready),
        PendingPoll::Ready
    );
    assert!(matches!(p, Pending::Made(7)));
    assert_eq!(*p.call(), 7);
}

/// A failed construction surfaces as a failed poll, without a service.
#[test]
fn pending_surfaces_construction_failure() {
    let mut p: Pending<(), u32> = Pending::Making(());
    assert_eq!(
        p.poll_ready(ConstructorPoll::Failed, PollReady::Ready),
        PendingPoll::Failed
    );
    assert!(matches!(p, Pending::Making(())));
}

/// A one-shot dispatch hands the request over exactly when the service
/// reported ready.
#[test]
fn oneshot_dispatches_only_on_ready() {
    let shot = Oneshot::new("svc", "req");
    let shot = match shot.poll(PollReady::NotReady) {
        OneshotStep::Pending(s) => s,
        OneshotStep::Dispatch { .. } => panic!("the service was not ready"),
    };
    match shot.poll(PollReady::Ready) {
        OneshotStep::Dispatch { svc, request } => {
            assert_eq!(svc, "svc");
            assert_eq!(request, "req");
        }
        OneshotStep::Pending(_) => panic!("the service was ready"),
    }
}

/// The router extracts the key and dispatches the request once the
/// builder and the built service delivered.
#[test]
fn router_routes_by_key_then_dispatches_once() {
    let logical = Logical {
        dst: Addr::Name(NameAddr { name: b"svc".to_vec(), port: 80 }),
        settings: Settings::Http2,
    };
    let router = Layer::new(ProfileTarget).layer(()).make();
    let (key, fut): (Profile, ResponseFuture<Logical, &str>) = router.call(logical);
    assert_eq!(key.0, Addr::Name(NameAddr { name: b"svc".to_vec(), port: 80 }));
    let fut = fut.service_made("route-svc");
    match fut.poll_respond(PollReady::Ready) {
        OneshotStep::Dispatch { svc, request } => {
            assert_eq!(svc, "route-svc");
            assert_eq!(request.settings, Settings::Http2);
        }
        OneshotStep::Pending(_) => panic!("the service was ready"),
    }
}

/// Load shed under overload: with a concurrency limit of one and one
/// request in flight, a second call fails fast with an overload error.
#[test]
fn load_shed_fails_fast_under_overload() {
    let mut limited = stack(()).push_concurrency_limit(1).into_inner();
    let shed = stack(()).push_load_shed().into_inner();

    // First request: a slot is free, dispatch.
    let first = limited.poll_ready(PollReady::Ready);
    assert!(first.is_ready());
    limited.call();

    // Second request: no slot, the shed fails it at once.
    let second = limited.poll_ready(PollReady::Ready);
    assert!(!second.is_ready());
    assert_eq!(shed.try_call(second), Err(SvcError::Overloaded));

    // The response finishes; the slot frees up again.
    limited.release();
    assert!(limited.poll_ready(PollReady::Ready).is_ready());
}

/// The timeout layer fails a response once its deadline has expired.
#[test]
fn timeout_expires_after_the_deadline() {
    let t = stack(()).push_timeout(100).into_inner();
    assert!(matches!(t.poll_result::<u32>(None, 99), TimeoutPoll::Pending));
    assert!(matches!(
        t.poll_result::<u32>(None, 100),
        TimeoutPoll::Expired(SvcError::DeadlineExceeded)
    ));
    match t.poll_result(Some(5u32), 1000) {
        TimeoutPoll::Done(v) => assert_eq!(v, 5),
        _ => panic!("the response was there"),
    }
}

/// The buffer preserves enqueue order and surfaces backpressure when
/// full.
#[test]
fn buffer_is_fifo_and_bounded() {
    let mut buf: Buffer<u32> = Buffer::new(2);
    assert!(buf.push(1).is_ok());
    assert!(buf.push(2).is_ok());
    assert_eq!(buf.push(3), Err(3));
    assert_eq!(buf.pop(), Some(1));
    assert!(buf.push(3).is_ok());
    assert_eq!(buf.pop(), Some(2));
    assert_eq!(buf.pop(), Some(3));
    assert_eq!(buf.pop(), None);
}

/// Stacks assemble inner-to-outer and hand the assembled service back.
#[test]
fn stack_assembles_and_unwraps() {
    let s = stack(41u32).push_pending();
    assert_eq!(s.into_inner().inner, 41);
    let b = stack(1u32).push_buffer(8);
    let make = b.into_inner();
    assert_eq!(make.bound, 8);
    assert_eq!(make.inner, 1);
}
