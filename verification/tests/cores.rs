use ritm::cores::{core_entry, CoreEntry, StackSlots, SuspendContexts};

#[test]
fn core_is_given_its_context_alone() {
    assert_eq!(
        core_entry(0x8000, 7),
        CoreEntry { args: [7, 0, 0, 0], entry_point: 0x8000 }
    );
}

#[test]
fn suspended_core_resumes_once_where_it_asked_to() {
    let mut contexts = SuspendContexts::new();
    contexts.save(1, 0x1000, 11);
    contexts.save(2, 0x2000, 12);
    contexts.save(1, 0x3000, 13);
    contexts.discard(3);
    assert_eq!(contexts.take(1), Some(CoreEntry { args: [13, 0, 0, 0], entry_point: 0x3000 }));
    assert_eq!(contexts.take(1), None);
    assert_eq!(contexts.take(2), Some(CoreEntry { args: [12, 0, 0, 0], entry_point: 0x2000 }));
}

#[test]
fn core_that_stayed_up_is_forgotten() {
    let mut contexts = SuspendContexts::new();
    contexts.save(1, 0x1000, 11);
    contexts.discard(1);
    assert_eq!(contexts.take(1), None);
}

#[test]
fn each_core_keeps_its_own_stack() {
    let mut slots = StackSlots::new(2);
    assert_eq!(slots.slot_of(0x8000_0000), Some(0));
    assert_eq!(slots.slot_of(0x8000_0001), Some(1));
    assert_eq!(slots.slot_of(0x8000_0000), Some(0));
    assert_eq!(slots.slot_of(0x8000_0002), None);
    assert_eq!(slots.slot_of(0x8000_0001), Some(1));
}
