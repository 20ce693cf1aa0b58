use std::sync::{Arc, Mutex};

use vents::delayed_event::{DelayedEvent, Fired, Ticket, Triggered};

fn recorder(event: &mut DelayedEvent<i32>) -> Arc<Mutex<Vec<i32>>> {
    let data = Arc::new(Mutex::new(Vec::new()));
    let sink = data.clone();
    event.val(move |value| sink.lock().unwrap().push(value));
    data
}

fn scheduled(triggered: Triggered<i32>) -> Ticket<i32> {
    match triggered {
        Triggered::Scheduled(ticket) => ticket,
        Triggered::Delivered => panic!("delivered at once"),
        Triggered::Ignored => panic!("ignored"),
    }
}

#[test]
fn burst_delivers_the_last_value_once() {
    let mut event = DelayedEvent::<i32>::default().with_delay(250);
    let data = recorder(&mut event);

    let t0 = scheduled(event.trigger(1));
    let t1 = scheduled(event.trigger(2));
    let t2 = scheduled(event.trigger(3));
    assert!(data.lock().unwrap().is_empty());

    assert_eq!(event.fire(t0), Fired::Superseded);
    assert_eq!(event.fire(t1), Fired::Superseded);
    assert!(data.lock().unwrap().is_empty());
    assert_eq!(event.fire(t2), Fired::Delivered);
    assert_eq!(*data.lock().unwrap(), vec![3]);
}

#[test]
fn checks_of_a_burst_may_run_in_any_order() {
    let mut event = DelayedEvent::<i32>::default().with_delay(250);
    let data = recorder(&mut event);

    let t0 = scheduled(event.trigger(1));
    let t1 = scheduled(event.trigger(2));
    let t2 = scheduled(event.trigger(3));

    assert_eq!(event.fire(t2), Fired::Delivered);
    assert_eq!(event.fire(t0), Fired::Settled);
    assert_eq!(event.fire(t1), Fired::Settled);
    assert_eq!(*data.lock().unwrap(), vec![3]);
}

#[test]
fn spaced_triggers_each_deliver() {
    let mut event = DelayedEvent::<i32>::default().with_delay(250);
    let data = recorder(&mut event);

    let first = scheduled(event.trigger(10));
    assert_eq!(event.fire(first), Fired::Delivered);
    assert_eq!(*data.lock().unwrap(), vec![10]);

    let second = scheduled(event.trigger(20));
    assert_eq!(event.fire(second), Fired::Delivered);
    assert_eq!(*data.lock().unwrap(), vec![10, 20]);
}

#[test]
fn bursts_and_pauses() {
    let mut event = DelayedEvent::<i32>::default().with_delay(250);
    let data = recorder(&mut event);

    let first = scheduled(event.trigger(10));
    assert_eq!(event.fire(first), Fired::Delivered);

    let mut burst = Vec::new();
    for _ in 0..100 {
        burst.push(scheduled(event.trigger(20)));
    }
    for _ in 0..100 {
        for value in 30..=36 {
            burst.push(scheduled(event.trigger(value)));
        }
    }
    let last = burst.pop().unwrap();
    for ticket in burst {
        assert_eq!(event.fire(ticket), Fired::Superseded);
    }
    assert_eq!(event.fire(last), Fired::Delivered);

    let forty = scheduled(event.trigger(40));
    assert_eq!(event.fire(forty), Fired::Delivered);

    let fifty = scheduled(event.trigger(50));
    let sixty = scheduled(event.trigger(60));
    assert_eq!(event.fire(fifty), Fired::Superseded);
    assert_eq!(event.fire(sixty), Fired::Delivered);

    let seventy = scheduled(event.trigger(70));
    let ninety = scheduled(event.trigger(90));
    event.mark_dropped();
    assert_eq!(event.fire(seventy), Fired::Dropped);
    assert_eq!(event.fire(ninety), Fired::Dropped);

    assert_eq!(*data.lock().unwrap(), vec![10, 36, 40, 60]);
}

#[test]
fn stamps_grow_with_each_scheduled_trigger() {
    let mut event = DelayedEvent::<i32>::default().with_delay(5);
    let _data = recorder(&mut event);
    let t0 = scheduled(event.trigger(1));
    let t1 = scheduled(event.trigger(1));
    let t2 = scheduled(event.trigger(1));
    assert_eq!((t0.stamp(), t1.stamp(), t2.stamp()), (0, 1, 2));
    assert!(!event.exhausted());
}

#[test]
fn ticket_keeps_the_delay_of_its_trigger() {
    let mut event = DelayedEvent::<i32>::default();
    let data = recorder(&mut event);
    event.set_delay(100);
    let slow = scheduled(event.trigger(1));
    event.set_delay(7);
    let quick = scheduled(event.trigger(2));
    assert_eq!(slow.delay(), 100);
    assert_eq!(quick.delay(), 7);
    assert_eq!(event.fire(quick), Fired::Delivered);
    assert_eq!(event.fire(slow), Fired::Settled);
    assert_eq!(*data.lock().unwrap(), vec![2]);
}

#[test]
fn zero_delay_delivers_at_once() {
    let mut event = DelayedEvent::<i32>::default();
    let data = recorder(&mut event);
    assert!(matches!(event.trigger(1), Triggered::Delivered));
    assert_eq!(*data.lock().unwrap(), vec![1]);
    assert!(matches!(event.trigger(2), Triggered::Delivered));
    assert!(matches!(event.trigger(3), Triggered::Delivered));
    assert_eq!(*data.lock().unwrap(), vec![1, 2, 3]);
}

#[test]
fn zero_delay_leaves_a_pending_check_in_charge() {
    let mut event = DelayedEvent::<i32>::default().with_delay(50);
    let data = recorder(&mut event);
    let pending = scheduled(event.trigger(1));
    event.set_delay(0);
    assert!(matches!(event.trigger(2), Triggered::Delivered));
    assert_eq!(event.fire(pending), Fired::Delivered);
    assert_eq!(*data.lock().unwrap(), vec![2, 1]);
}

#[test]
fn trigger_without_subscriber_schedules_nothing() {
    let mut event = DelayedEvent::<i32>::default().with_delay(50);
    assert!(matches!(event.trigger(1), Triggered::Ignored));
    let data = recorder(&mut event);
    let first = scheduled(event.trigger(2));
    assert_eq!(first.stamp(), 0);
    assert_eq!(event.fire(first), Fired::Delivered);
    assert_eq!(*data.lock().unwrap(), vec![2]);
}

#[test]
fn dropped_event_delivers_nothing() {
    let mut event = DelayedEvent::<i32>::default().with_delay(50);
    let data = recorder(&mut event);
    let pending = scheduled(event.trigger(1));
    event.mark_dropped();
    assert_eq!(event.fire(pending), Fired::Dropped);
    assert!(data.lock().unwrap().is_empty());
}

#[test]
fn remove_subscriber() {
    let mut event = DelayedEvent::<i32>::default();
    event.set_delay(100);
    let data = recorder(&mut event);

    let ten = scheduled(event.trigger(10));
    let twenty = scheduled(event.trigger(20));
    assert_eq!(event.fire(ten), Fired::Superseded);
    assert_eq!(event.fire(twenty), Fired::Delivered);

    event.remove_subscribers();

    assert!(matches!(event.trigger(30), Triggered::Ignored));

    assert_eq!(*data.lock().unwrap(), vec![20]);
}

#[test]
fn removed_subscriber_misses_the_pending_check() {
    let mut event = DelayedEvent::<i32>::default().with_delay(100);
    let data = recorder(&mut event);
    let pending = scheduled(event.trigger(10));
    event.remove_subscribers();
    assert_eq!(event.fire(pending), Fired::Unheard);
    assert!(data.lock().unwrap().is_empty());
}

#[test]
fn new_subscriber_gets_the_pending_check() {
    let mut event = DelayedEvent::<i32>::default().with_delay(100);
    let old = recorder(&mut event);
    let pending = scheduled(event.trigger(10));
    event.remove_subscribers();
    let new = recorder(&mut event);
    assert_eq!(event.fire(pending), Fired::Delivered);
    assert!(old.lock().unwrap().is_empty());
    assert_eq!(*new.lock().unwrap(), vec![10]);
}

#[test]
fn double_delayed_subscriber() {
    let mut event = DelayedEvent::<()>::const_default();
    assert!(!event.has_subscriber());
    event.val(|_| {});
    assert!(event.has_subscriber());
    event.remove_subscribers();
    assert!(!event.has_subscriber());
    event.sub(|| {});
    assert!(event.has_subscriber());
}

#[test]
fn delayed_sub_is_told_of_the_delivery() {
    let mut event = DelayedEvent::<i32>::default().with_delay(10);
    let count = Arc::new(Mutex::new(0));
    let sink = count.clone();
    event.sub(move || *sink.lock().unwrap() += 1);
    let a = scheduled(event.trigger(1));
    let b = scheduled(event.trigger(2));
    assert_eq!(event.fire(a), Fired::Superseded);
    assert_eq!(*count.lock().unwrap(), 0);
    assert_eq!(event.fire(b), Fired::Delivered);
    assert_eq!(*count.lock().unwrap(), 1);
}

#[test]
fn stamps_continue_after_a_delivery() {
    let mut event = DelayedEvent::<i32>::default().with_delay(10);
    let data = recorder(&mut event);
    let first = scheduled(event.trigger(1));
    let stamp = first.stamp();
    assert_eq!(event.fire(first), Fired::Delivered);
    let second = scheduled(event.trigger(2));
    assert_eq!(second.stamp(), stamp + 1);
    assert_eq!(event.fire(second), Fired::Delivered);
    assert_eq!(*data.lock().unwrap(), vec![1, 2]);
}
