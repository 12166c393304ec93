use async_foundations::self_referential::{SelfPointer, SelfReferential};

#[test]
fn new_hands_back_data_with_stale_pointer() {
    let sr = SelfReferential::new("first".to_string());
    assert_eq!(sr.data(), "first");
    assert_eq!(sr.self_pointer(), SelfPointer::Stale);
}

#[test]
fn built_value_refuses_read_through_pointer() {
    let sr = SelfReferential::new("first".to_string());
    assert!(sr.pointee().is_none());
}

#[test]
fn plain_move_keeps_data_and_stale_pointer() {
    let first = SelfReferential::new("first".to_string());
    let moved_first = first;
    assert_eq!(moved_first.data(), "first");
    assert_eq!(moved_first.self_pointer(), SelfPointer::Stale);
    assert!(moved_first.pointee().is_none());
}

#[test]
fn moving_twice_stays_stale() {
    let first = SelfReferential::new(String::new());
    let second = first;
    let third = second;
    assert_eq!(third.self_pointer(), SelfPointer::Stale);
    assert!(third.pointee().is_none());
    assert_eq!(third.data(), "");
}
