use vents::slot::{AlreadySet, Slot};

#[test]
fn new_slot_is_empty() {
    let mut slot: Slot<u32> = Slot::new();
    assert!(!slot.is_set());
    assert_eq!(slot.take(), None);
    assert!(slot.peek_mut().is_none());
}

#[test]
fn install_fills_an_empty_slot() {
    let mut slot = Slot::new();
    assert_eq!(slot.install(7u32), Ok(()));
    assert!(slot.is_set());
    assert_eq!(slot.peek_mut(), Some(&mut 7));
}

#[test]
fn install_refuses_an_occupied_slot_and_keeps_its_value() {
    let mut slot = Slot::new();
    assert_eq!(slot.install(7u32), Ok(()));
    assert_eq!(slot.install(8u32), Err(AlreadySet));
    assert_eq!(slot.take(), Some(7));
}

#[test]
fn take_empties_the_slot() {
    let mut slot = Slot::new();
    slot.install(String::from("held")).unwrap();
    assert_eq!(slot.take(), Some(String::from("held")));
    assert!(!slot.is_set());
    assert_eq!(slot.take(), None);
    assert_eq!(slot.install(String::from("next")), Ok(()));
}

#[test]
fn clear_empties_the_slot() {
    let mut slot = Slot::new();
    slot.install(1u8).unwrap();
    slot.clear();
    assert!(!slot.is_set());
    slot.clear();
    assert!(!slot.is_set());
    assert_eq!(slot.install(2u8), Ok(()));
}

#[test]
fn peek_mut_changes_the_held_value_in_place() {
    let mut slot = Slot::new();
    slot.install(vec![1, 2]).unwrap();
    if let Some(held) = slot.peek_mut() {
        held.push(3);
    }
    assert_eq!(slot.take(), Some(vec![1, 2, 3]));
}

#[test]
fn expect_empty_passes_on_an_empty_slot() {
    let mut slot: Slot<u8> = Slot::new();
    slot.expect_empty("the slot holds a value");
    slot.install(1).unwrap();
    slot.clear();
    slot.expect_empty("the slot holds a value");
}
