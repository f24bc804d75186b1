use std::sync::Mutex;

use convex::Value;
use futures::channel::oneshot;

use convex_mobile::results::FunctionOutcome;
use convex_mobile::subscription::{
    subscription_step, QuerySubscriber, SubscriptionEvent, SubscriptionHandle,
};

struct RecordingSubscriber {
    updates: Mutex<Vec<String>>,
    errors: Mutex<Vec<(String, Option<String>)>>,
}

impl RecordingSubscriber {
    fn new() -> Self {
        RecordingSubscriber { updates: Mutex::new(Vec::new()), errors: Mutex::new(Vec::new()) }
    }
}

impl QuerySubscriber for RecordingSubscriber {
    fn on_update(&self, value: String) {
        self.updates.lock().unwrap().push(value);
    }

    fn on_error(&self, message: String, value: Option<String>) {
        self.errors.lock().unwrap().push((message, value));
    }
}

#[test]
fn test_cancel_consumes_the_sender_once() {
    let (sender, mut receiver) = oneshot::channel::<()>();
    let mut handle = SubscriptionHandle::new(sender);
    assert_eq!(receiver.try_recv(), Ok(None));
    handle.cancel();
    assert_eq!(receiver.try_recv(), Ok(Some(())));
    // A second cancel finds the sender consumed and is a no-op.
    handle.cancel();
}

#[test]
fn test_dropping_the_handle_resolves_the_receiver() {
    let (sender, mut receiver) = oneshot::channel::<()>();
    let handle = SubscriptionHandle::new(sender);
    drop(handle);
    // The sender is dropped with the handle, which cancels the receiver.
    assert!(receiver.try_recv().is_err());
}

#[test]
fn test_cancel_after_task_end_is_a_no_op() {
    let (sender, receiver) = oneshot::channel::<()>();
    let mut handle = SubscriptionHandle::new(sender);
    // The background task ended and its receiver is gone; cancel must not
    // panic.
    drop(receiver);
    handle.cancel();
}

#[test]
fn test_step_delivers_stream_items_and_continues() {
    let subscriber = RecordingSubscriber::new();
    let cont = subscription_step(
        &subscriber,
        SubscriptionEvent::Item(FunctionOutcome::Value(Value::Float64(7.0))),
    );
    assert!(cont);
    assert_eq!(subscriber.updates.lock().unwrap().clone(), vec!["7.0"]);
    assert!(subscriber.errors.lock().unwrap().is_empty());
}

#[test]
fn test_step_delivers_errors_through_on_error() {
    let subscriber = RecordingSubscriber::new();
    let cont = subscription_step(
        &subscriber,
        SubscriptionEvent::Item(FunctionOutcome::ErrorMessage(String::from("oops"))),
    );
    assert!(cont);
    assert_eq!(
        subscriber.errors.lock().unwrap().clone(),
        vec![(String::from("oops"), None)]
    );
}

#[test]
fn test_step_stops_on_cancellation_without_callback() {
    let subscriber = RecordingSubscriber::new();
    let cont = subscription_step(&subscriber, SubscriptionEvent::Cancelled);
    assert!(!cont);
    assert!(subscriber.updates.lock().unwrap().is_empty());
    assert!(subscriber.errors.lock().unwrap().is_empty());
}

#[test]
fn test_step_stops_on_stream_end_without_callback() {
    let subscriber = RecordingSubscriber::new();
    let cont = subscription_step(&subscriber, SubscriptionEvent::Closed);
    assert!(!cont);
    assert!(subscriber.updates.lock().unwrap().is_empty());
    assert!(subscriber.errors.lock().unwrap().is_empty());
}

#[test]
fn test_no_deliveries_after_cancel_in_a_full_run() {
    // Drive the loop as the background task would: a delivered item, then a
    // cancellation, then events that must no longer reach the observer.
    let subscriber = RecordingSubscriber::new();
    let events = vec![
        SubscriptionEvent::Item(FunctionOutcome::Value(Value::Boolean(true))),
        SubscriptionEvent::Cancelled,
        SubscriptionEvent::Item(FunctionOutcome::Value(Value::Boolean(false))),
    ];
    for event in events {
        if !subscription_step(&subscriber, event) {
            break;
        }
    }
    assert_eq!(subscriber.updates.lock().unwrap().clone(), vec!["true"]);
    assert!(subscriber.errors.lock().unwrap().is_empty());
}
