use runny::result_slot::ResultSlot;

#[test]
fn new_slot_is_empty() {
    let slot = ResultSlot::new();
    assert_eq!(slot.get(), None);
    assert!(!slot.is_resolved());
}

#[test]
fn first_publication_is_taken() {
    let mut slot = ResultSlot::new();
    assert!(slot.publish(7));
    assert_eq!(slot.get(), Some(7));
    assert!(slot.is_resolved());
}

#[test]
fn second_publication_is_dropped() {
    let mut slot = ResultSlot::new();
    assert!(slot.publish(0));
    assert!(!slot.publish(-1));
    assert!(!slot.publish(9));
    assert_eq!(slot.get(), Some(0));
}
