use std::sync::{Arc, Mutex};

use vents::dispatch::{Dispatch, Route};
use vents::property::Property;

#[test]
fn new_property_holds_its_value() {
    let property = Property::new(5u32);
    assert_eq!(*property, 5);
}

#[test]
fn default_property_holds_the_default() {
    let property = Property::<String>::default();
    assert_eq!(*property, String::new());
}

#[test]
fn set_stores_and_announces_the_value() {
    let mut property = Property::new(String::from("old"));
    let seen = Arc::new(Mutex::new(Vec::new()));
    let sink = seen.clone();
    property.on_set.val(move |value: String| sink.lock().unwrap().push(value));

    assert_eq!(property.set("new"), Dispatch::Persistent);
    assert_eq!(*property, "new");
    assert_eq!(property.set(String::from("newer")), Dispatch::Persistent);
    assert_eq!(*property, "newer");
    assert_eq!(*seen.lock().unwrap(), vec![String::from("new"), String::from("newer")]);
}

#[test]
fn set_converts_its_argument() {
    let mut property = Property::new(0u64);
    assert_eq!(property.set(7u8), Dispatch::Ignored);
    assert_eq!(*property, 7u64);
}

#[test]
fn set_without_subscriber_still_stores() {
    let mut property = Property::new(1);
    assert_eq!(property.set(2), Dispatch::Ignored);
    assert_eq!(*property, 2);
}

#[test]
fn event_mut_reaches_the_same_event() {
    let mut property = Property::new(1);
    let seen = Arc::new(Mutex::new(Vec::new()));
    let sink = seen.clone();
    property.event_mut().val(move |value| sink.lock().unwrap().push(value));
    property.set(2);
    property.event_mut().remove_subscribers();
    property.set(3);
    assert_eq!(*seen.lock().unwrap(), vec![2]);
    assert_eq!(*property, 3);
}

#[test]
fn store_keeps_the_value_as_given() {
    let mut property = Property::<i32>::new(1);
    assert_eq!(property.store(9), Dispatch::Ignored);
    assert_eq!(*property, 9);
}

#[test]
fn store_and_set_announce_alike() {
    let mut property = Property::new(1);
    let seen = Arc::new(Mutex::new(Vec::new()));
    let sink = seen.clone();
    property.on_set.val(move |value| sink.lock().unwrap().push(value));
    assert_eq!(property.set(2), Dispatch::Persistent);
    assert_eq!(property.store(3), Dispatch::Persistent);
    assert_eq!(*property, 3);
    assert_eq!(*seen.lock().unwrap(), vec![2, 3]);
}

#[test]
fn one_shot_subscriber_gets_the_first_change_only() {
    let mut property = Property::new(0u8);
    let seen = Arc::new(Mutex::new(Vec::new()));
    let sink = seen.clone();
    property.on_set.once(move |value| sink.lock().unwrap().push(value));
    assert_eq!(property.set(4u8), Dispatch::Once);
    assert_eq!(property.set(5u8), Dispatch::Ignored);
    assert_eq!(*property, 5);
    assert_eq!(*seen.lock().unwrap(), vec![4]);
}

#[test]
fn event_shows_the_event_without_changing_it() {
    let mut property = Property::new(1);
    assert_eq!(property.event().route(), Route::Nowhere);
    property.event_mut().sub(|| {});
    assert_eq!(property.event().route(), Route::Persistent);
    assert_eq!(*property, 1);
}
