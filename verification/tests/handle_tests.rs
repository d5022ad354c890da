use jni_utils::handle_is_live;

#[test]
fn zero_handle_is_never_live() {
    assert!(!handle_is_live(0));
}

#[test]
fn nonzero_handles_are_live() {
    assert!(handle_is_live(1));
    assert!(handle_is_live(-1));
    assert!(handle_is_live(i64::MAX));
}
