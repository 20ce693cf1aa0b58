use std::sync::mpsc::SendError;
use std::sync::{Arc, Mutex};

use vents::dispatch::{Dispatch, Route};
use vents::once_event::OnceEvent;

#[test]
fn event_once() {
    let mut event = OnceEvent::<u32>::default();
    let summ = Arc::new(Mutex::new(0));

    let check = summ.clone();

    let sum_2 = summ.clone();
    event.val(move |val| {
        *sum_2.lock().unwrap() += val;
    });

    assert_eq!(*check.lock().unwrap(), 0);
    event.trigger(20);
    assert_eq!(*check.lock().unwrap(), 20);
    event.trigger(20);
    assert_eq!(*check.lock().unwrap(), 20);

    event.val(move |val| {
        *summ.lock().unwrap() += val;
    });

    event.remove_subscribers();

    event.trigger(20);
    assert_eq!(*check.lock().unwrap(), 20);
}

#[test]
fn double_once_subscriber() {
    let mut event = OnceEvent::<()>::const_default();
    event.check_empty();
    event.sub(|| {});
    assert_eq!(event.route(), Route::Callback);
    event.remove_subscribers();
    event.val(|_| {});
    assert_eq!(event.route(), Route::Callback);
}

#[test]
fn once_sub_is_told_of_the_first_trigger_only() {
    let mut event = OnceEvent::<&'static str>::default();
    let count = Arc::new(Mutex::new(0));
    let sink = count.clone();
    event.sub(move || *sink.lock().unwrap() += 1);
    assert_eq!(event.trigger("first"), Dispatch::Once);
    assert_eq!(event.trigger("second"), Dispatch::Ignored);
    assert_eq!(*count.lock().unwrap(), 1);
}

#[test]
fn once_val_takes_a_closure_that_can_run_only_once() {
    let mut event = OnceEvent::<u32>::default();
    let seen = Arc::new(Mutex::new(Vec::new()));
    let sink = seen.clone();
    let owned = String::from("moved into the call");
    event.val(move |v| {
        let text = owned;
        sink.lock().unwrap().push((text, v));
    });
    assert_eq!(event.trigger(4), Dispatch::Once);
    assert_eq!(*seen.lock().unwrap(), vec![(String::from("moved into the call"), 4)]);
}

#[test]
fn receiver_gets_the_triggered_value() {
    let mut event = OnceEvent::<u32>::default();
    let receiver = event.receiver();
    assert_eq!(event.route(), Route::Channel);
    assert_eq!(event.trigger(10), Dispatch::Sent);
    assert_eq!(receiver.recv(), Ok(10));
    event.check_empty();
    assert_eq!(event.trigger(11), Dispatch::Ignored);
    assert!(receiver.recv().is_err());
}

#[test]
fn send_to_a_released_receiver_is_reported_and_harmless() {
    let mut event = OnceEvent::<u32>::default();
    drop(event.receiver());
    assert_eq!(event.trigger(10), Dispatch::Disconnected);
    event.check_empty();
    assert_eq!(event.route(), Route::Nowhere);
}

#[test]
fn removing_the_sender_cancels_the_receive() {
    let mut event = OnceEvent::<u32>::default();
    let receiver = event.receiver();
    event.remove_subscribers();
    assert!(receiver.recv().is_err());
    assert_eq!(event.trigger(10), Dispatch::Ignored);
}

#[test]
fn once_installation_occupies_the_event() {
    let mut event = OnceEvent::<u8>::default();
    event.val(|_| {});
    assert_eq!(event.route(), Route::Callback);

    let mut event = OnceEvent::<u8>::default();
    let _receiver = event.receiver();
    assert_eq!(event.route(), Route::Channel);
}

#[test]
fn reinstallation_after_the_shot_succeeds() {
    let mut event = OnceEvent::<u8>::default();
    event.val(|_| {});
    event.trigger(1);
    event.check_empty();
    event.val(|_| {});
    event.remove_subscribers();
    let receiver = event.receiver();
    assert_eq!(event.trigger(7), Dispatch::Sent);
    assert_eq!(receiver.try_recv(), Ok(7));
}

#[test]
fn dispatch_of_a_send_result() {
    assert_eq!(Dispatch::sent::<u8>(Ok(())), Dispatch::Sent);
    assert_eq!(Dispatch::sent(Err(SendError(5u8))), Dispatch::Disconnected);
}

#[test]
fn once_route_names_the_installed_consumer() {
    let mut event = OnceEvent::<u8>::default();
    assert_eq!(event.route(), Route::Nowhere);
    event.sub(|| {});
    assert_eq!(event.route(), Route::Callback);
    event.remove_subscribers();
    let _receiver = event.receiver();
    assert_eq!(event.route(), Route::Channel);
    event.trigger(0);
    assert_eq!(event.route(), Route::Nowhere);
}
