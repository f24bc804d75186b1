//! Subscriptions: delivering a stream of backend push-updates to a foreign
//! observer until the stream ends or the caller cancels.
//!
//! The long-lived background task that owns the stream lives outside this
//! crate; on every wakeup it hands the event to [`subscription_step`], which
//! decides what the observer is told and whether the loop goes on. The
//! caller holds a [`SubscriptionHandle`], whose one-shot cancellation sender
//! fires at most once however often `cancel` is called.

use vstd::prelude::*;

use crate::json::{encode_value, json_text_of};
use crate::results::FunctionOutcome;

verus! {

/// A foreign observer of one subscribed query. Implemented outside this
/// crate by the caller; the bridge shares ownership of it with the
/// background task that invokes it.
pub trait QuerySubscriber: Send + Sync {
    /// Called with the JSON-encoded query result, first with the initial
    /// result and then again whenever the underlying data changes.
    fn on_update(&self, value: String);

    /// Called when a subscription update reports an error: a message, and
    /// for application-raised errors the JSON-encoded payload.
    fn on_error(&self, message: String, value: Option<String>);
}

#[verifier::external_type_specification]
#[verifier::external_body]
#[verifier::reject_recursive_types(T)]
pub struct ExOneshotSender<T>(futures::channel::oneshot::Sender<T>);

/// Relies on `futures::channel::oneshot::Sender::send`: consumes the
/// sender, resolving the paired receiver; the result only reports whether
/// the receiver was already gone, and is deliberately ignored — cancelling
/// a subscription whose task already finished is a no-op.
#[verifier::external_body]
fn send_cancel_signal(sender: futures::channel::oneshot::Sender<()>) {
    let _ = sender.send(());
}

/// Owns the cancellation sender of one subscription.
///
/// At most one cancellation signal is ever sent: the first `cancel` call
/// consumes the sender and every later call finds it gone. Dropping the
/// handle without calling `cancel` also resolves the receiver (the sender
/// is dropped with it), so the handle's lifetime bounds the subscription.
pub struct SubscriptionHandle {
    cancel_sender: Option<futures::channel::oneshot::Sender<()>>,
}

impl SubscriptionHandle {
    /// Whether the cancellation signal has not been sent yet.
    pub closed spec fn armed(&self) -> bool {
        self.cancel_sender is Some
    }

    /// Wraps a cancellation sender, ready to fire once.
    pub fn new(cancel_sender: futures::channel::oneshot::Sender<()>) -> (h: SubscriptionHandle)
        ensures
            h.armed(),
    {
        SubscriptionHandle { cancel_sender: Some(cancel_sender) }
    }

    /// Cancels the subscription. Idempotent: only the first call sends the
    /// one-shot signal; later calls find the sender consumed and do
    /// nothing.
    pub fn cancel(&mut self)
        ensures
            !final(self).armed(),
    {
        match self.cancel_sender.take() {
            Some(sender) => send_cancel_signal(sender),
            None => (),
        }
    }
}

/// What the observer of a subscription is told about one stream item.
pub enum UpdateDelivery {
    /// `on_update` with the JSON-encoded query result.
    Update { value: String },
    /// `on_error` with a message and, for application-raised errors, the
    /// JSON-encoded payload.
    Failure { message: String, value: Option<String> },
}

/// Decides what the observer is told about one delivered stream item.
///
/// A success value becomes an update carrying the value re-encoded as
/// JSON. A server-raised error becomes a failure with the original message
/// and no payload. An application-raised error becomes a failure with its
/// message and its payload re-encoded as JSON.
pub fn classify_update(outcome: FunctionOutcome) -> (d: UpdateDelivery)
    ensures
        outcome matches FunctionOutcome::Value(v) ==> (d matches UpdateDelivery::Update { value }
            && value@ == json_text_of(v)),
        outcome matches FunctionOutcome::ErrorMessage(m) ==> (d matches UpdateDelivery::Failure {
            message,
            value,
        } && message@ == m@ && value is None),
        outcome matches FunctionOutcome::ConvexError { message: m, data } ==> (d matches
            UpdateDelivery::Failure { message, value } && message@ == m@ && (value matches Some(t)
            && t@ == json_text_of(data))),
{
    match outcome {
        FunctionOutcome::Value(v) => match encode_value(v) {
            Ok(encoded) => UpdateDelivery::Update { value: encoded },
            Err(e) => UpdateDelivery::Failure { message: e.describe(), value: None },
        },
        FunctionOutcome::ErrorMessage(m) => UpdateDelivery::Failure { message: m, value: None },
        FunctionOutcome::ConvexError { message, data } => match encode_value(data) {
            Ok(encoded) => UpdateDelivery::Failure { message, value: Some(encoded) },
            Err(e) => UpdateDelivery::Failure { message, value: Some(e.describe()) },
        },
    }
}

/// Invokes the observer callback that a delivery calls for.
pub fn deliver<S: QuerySubscriber>(subscriber: &S, delivery: UpdateDelivery) {
    match delivery {
        UpdateDelivery::Update { value } => subscriber.on_update(value),
        UpdateDelivery::Failure { message, value } => subscriber.on_error(message, value),
    }
}

/// One wakeup of the subscription loop.
///
/// The loop races the next stream item against the cancellation signal.
/// The tie-break is fixed: when both are ready in the same scheduling step,
/// the pending stream item wins — the loop is handed `Item` first and the
/// cancellation only on the next wakeup — so cancellation stops future
/// deliveries but never discards an item that was already resolved
/// concurrently with it.
pub enum SubscriptionEvent {
    /// The stream produced another backend result.
    Item(FunctionOutcome),
    /// The stream ended: the backend closed the subscription. A normal
    /// terminal state, not a failure.
    Closed,
    /// The cancellation signal resolved.
    Cancelled,
}

/// Handles one wakeup of the subscription loop: delivers to the observer
/// exactly when the event is a stream item, and decides whether the loop
/// continues.
///
/// The loop continues if and only if the event was a stream item; the
/// stream ending and cancellation both stop it, with no further callback.
pub fn subscription_step<S: QuerySubscriber>(subscriber: &S, event: SubscriptionEvent) -> (cont:
    bool)
    ensures
        cont == (event is Item),
{
    match event {
        SubscriptionEvent::Item(outcome) => {
            let delivery = classify_update(outcome);
            deliver(subscriber, delivery);
            true
        },
        SubscriptionEvent::Closed => false,
        SubscriptionEvent::Cancelled => false,
    }
}

/// The stream items a run of the subscription loop delivers to its
/// observer, given the sequence of wakeups: every item before the first
/// terminal event (stream end or cancellation), and nothing after it.
pub open spec fn delivered_outcomes(events: Seq<SubscriptionEvent>) -> Seq<FunctionOutcome>
    decreases events.len(),
{
    if events.len() == 0 {
        Seq::empty()
    } else {
        match events.first() {
            SubscriptionEvent::Item(outcome) => seq![outcome] + delivered_outcomes(
                events.drop_first(),
            ),
            SubscriptionEvent::Closed => Seq::empty(),
            SubscriptionEvent::Cancelled => Seq::empty(),
        }
    }
}

/// Once a subscription is cancelled (or its stream ends), no further
/// observer callback occurs: whatever wakeups follow a terminal event, the
/// deliveries are exactly those of the wakeups before it.
pub proof fn lemma_no_delivery_after_stop(events: Seq<SubscriptionEvent>, stop: int)
    requires
        0 <= stop < events.len(),
        !(events[stop] is Item),
    ensures
        delivered_outcomes(events) == delivered_outcomes(events.take(stop)),
        delivered_outcomes(events).len() <= stop,
    decreases stop,
{
    if stop == 0 {
        assert(delivered_outcomes(events) =~= Seq::empty());
        assert(delivered_outcomes(events.take(0)) =~= Seq::empty());
    } else {
        match events.first() {
            SubscriptionEvent::Item(outcome) => {
                lemma_no_delivery_after_stop(events.drop_first(), stop - 1);
                assert(events.take(stop).first() == events.first());
                assert(events.take(stop).drop_first() =~= events.drop_first().take(stop - 1));
            },
            SubscriptionEvent::Closed => {
                assert(delivered_outcomes(events.take(stop)) =~= Seq::empty());
            },
            SubscriptionEvent::Cancelled => {
                assert(delivered_outcomes(events.take(stop)) =~= Seq::empty());
            },
        }
    }
}

/// A stream item that arrives before any terminal event is delivered: in
/// particular, an item resolved concurrently with cancellation — ordered
/// before it by the tie-break — still reaches the observer.
pub proof fn lemma_item_before_stop_is_delivered(events: Seq<SubscriptionEvent>, i: int)
    requires
        0 <= i < events.len(),
        forall|j: int| 0 <= j <= i ==> (#[trigger] events[j]) is Item,
    ensures
        delivered_outcomes(events).len() > i,
        events[i] matches SubscriptionEvent::Item(outcome) && delivered_outcomes(events)[i]
            == outcome,
    decreases i,
{
    assert(events[0] is Item);
    if i == 0 {
    } else {
        lemma_item_before_stop_is_delivered(events.drop_first(), i - 1);
        assert forall|j: int| 0 <= j <= i - 1 implies (#[trigger] events.drop_first()[j])
            is Item by {
            assert(events.drop_first()[j] == events[j + 1]);
        }
    }
}

} // verus!
