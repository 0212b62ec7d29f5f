use nova_kernel::{init, version};

#[test]
fn test_version() {
    assert!(!version().is_empty());
}

#[test]
fn version_is_the_package_version() {
    init();
    assert_eq!(version(), "0.1.0");
}
