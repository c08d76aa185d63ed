use routestack::insert::{layer, target, Insert, Lazy, ValLazy, WithExt};

/// A value-lazy inserter clones its fixed value into each request.
#[test]
fn value_lazy_inserts_the_fixed_value() {
    let svc = Insert::new((), ValLazy(7u32));
    let out = svc.proxy(WithExt::<&str, u32> { inner: "req", ext: None });
    assert_eq!(out.inner, "req");
    assert_eq!(out.ext, Some(7));
}

/// A function-lazy inserter calls its function for each request.
#[test]
fn fn_lazy_inserts_a_produced_value() {
    let make = layer(|| 5u32).layer(());
    let svc = make.make();
    let out = svc.proxy(WithExt::<u8, u32> { inner: 3, ext: None });
    assert_eq!(out.ext, Some(5));
    assert_eq!(out.inner, 3);
}

/// The lazy producers hand out their values directly too.
#[test]
fn lazy_values() {
    assert_eq!(ValLazy(9u64).value(), 9);
}

/// Target insertion rides the construction target into each request.
#[test]
fn target_insertion_carries_the_target() {
    let svc = target::Make(()).make(42u64);
    let out = svc.proxy(WithExt::<&str, u64> { inner: "req", ext: None });
    assert_eq!(out.ext, Some(42));
}

/// An existing extension value is replaced by the produced one.
#[test]
fn insertion_replaces_an_existing_value() {
    let svc = Insert::new((), ValLazy(1u32));
    let out = svc.proxy(WithExt::<u8, u32> { inner: 0, ext: Some(9) });
    assert_eq!(out.ext, Some(1));
}
