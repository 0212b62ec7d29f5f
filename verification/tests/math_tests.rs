use nova_kernel::math::Orientation;

#[test]
fn test_orientation_methods() {
    assert!(Orientation::Positive.is_positive());
    assert!(!Orientation::Positive.is_negative());
    assert!(!Orientation::Positive.is_zero());
    assert!(Orientation::Positive.is_non_zero());

    assert_eq!(Orientation::Positive.reverse(), Orientation::Negative);
    assert_eq!(Orientation::Negative.reverse(), Orientation::Positive);
    assert_eq!(Orientation::Zero.reverse(), Orientation::Zero);
}

#[test]
fn orientation_signs() {
    assert_eq!(Orientation::Positive.as_i32(), 1);
    assert_eq!(Orientation::Zero.as_i32(), 0);
    assert_eq!(Orientation::Negative.as_i32(), -1);
    for o in [Orientation::Positive, Orientation::Zero, Orientation::Negative] {
        assert_eq!(o.reverse().as_i32(), -o.as_i32());
        assert_eq!(o.reverse().reverse(), o);
        assert_eq!(o.is_non_zero(), !o.is_zero());
    }
}
