use nova_kernel::ffi::{checked_outcome, NovaContext, NovaResult, NOVA_NULL_HANDLE};

#[test]
fn result_codes() {
    let all = [
        NovaResult::Success,
        NovaResult::InvalidHandle,
        NovaResult::InvalidParameter,
        NovaResult::OutOfMemory,
        NovaResult::GeometryError,
        NovaResult::TopologyError,
        NovaResult::NotImplemented,
        NovaResult::UnknownError,
    ];
    for (i, r) in all.iter().enumerate() {
        assert_eq!(r.code(), i as u32);
    }
}

#[test]
fn checks_come_in_order() {
    assert_eq!(checked_outcome(&[0, 5], false, NovaResult::NotImplemented), NovaResult::InvalidHandle);
    assert_eq!(checked_outcome(&[5, NOVA_NULL_HANDLE], true, NovaResult::NotImplemented), NovaResult::InvalidHandle);
    assert_eq!(checked_outcome(&[5, 6], false, NovaResult::NotImplemented), NovaResult::InvalidParameter);
    assert_eq!(checked_outcome(&[5, 6], true, NovaResult::NotImplemented), NovaResult::NotImplemented);
    assert_eq!(checked_outcome(&[], false, NovaResult::Success), NovaResult::InvalidParameter);
    assert_eq!(checked_outcome(&[], true, NovaResult::Success), NovaResult::Success);
}

#[test]
fn context_gives_out_handles() {
    let mut ctx = NovaContext::new();
    assert_eq!(ctx.tolerance(), 1e-6f64.to_bits());
    assert_eq!(ctx.next_handle(), 1);
    let a = ctx.allocate_handle();
    let b = ctx.allocate_handle();
    assert_ne!(a, NOVA_NULL_HANDLE);
    assert_eq!((a, b), (1, 2));
    assert_eq!(ctx.next_handle(), 3);
    ctx.set_tolerance(1e-4f64.to_bits());
    assert_eq!(f64::from_bits(ctx.tolerance()), 1e-4);
    assert_eq!(ctx.release_body(NOVA_NULL_HANDLE), NovaResult::InvalidHandle);
    assert_eq!(ctx.release_body(a), NovaResult::Success);
    assert_eq!(ctx.next_handle(), 3);
}
