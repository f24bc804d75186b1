//! The connectivity-state forwarder.
//!
//! The backend reports its connectivity transitions over a bounded relay
//! channel of capacity one, consumed by a single dedicated background task
//! that invokes the foreign observer for each state. States reach the
//! observer strictly in emission order and one at a time: when the observer
//! is slow the producer stalls on the full channel — backpressure — rather
//! than dropping or reordering states. The channel and the task live
//! outside this crate; the model below states and proves the ordering
//! discipline they follow, and [`forward_state`] is the delivery step the
//! task runs.

use vstd::prelude::*;

verus! {

/// A connectivity transition of the backend's underlying connection.
#[derive(Clone, Copy, Debug, PartialEq, Eq, Structural)]
pub enum ConnectivityState {
    /// The connection is established.
    Connected,
    /// The connection is closed and being (re)established.
    Connecting,
}

/// A foreign observer of connectivity transitions. Implemented outside
/// this crate by the caller; shared with the relay task that invokes it.
pub trait WebSocketStateSubscriber: Send + Sync {
    /// Called once per transition, in emission order, with no two calls in
    /// flight at once.
    fn on_state_change(&self, state: ConnectivityState);
}

/// Delivers one relayed state to the observer.
pub fn forward_state<O: WebSocketStateSubscriber>(observer: &O, state: ConnectivityState) {
    observer.on_state_change(state);
}

/// The history of one relay: what the backend emitted, what the observer
/// has been told, and what sits in the capacity-one channel between them.
pub struct RelayHistory {
    /// Every state the backend has emitted, in order.
    pub emitted: Seq<ConnectivityState>,
    /// Every state delivered to the observer so far, in order.
    pub delivered: Seq<ConnectivityState>,
    /// The state sitting in the channel, if any.
    pub buffered: Option<ConnectivityState>,
}

/// The channel's contents as a sequence: empty or a single state.
pub open spec fn buffer_seq(buffered: Option<ConnectivityState>) -> Seq<ConnectivityState> {
    match buffered {
        None => Seq::empty(),
        Some(s) => seq![s],
    }
}

/// The relay invariant: everything emitted has either been delivered, in
/// order, or still sits in the channel.
pub open spec fn relay_wf(h: RelayHistory) -> bool {
    h.emitted == h.delivered + buffer_seq(h.buffered)
}

/// The producer's step: emitting a state into the channel. Only enabled on
/// an empty channel — with a slow observer the channel stays full and the
/// producer stalls here, instead of dropping the state.
pub open spec fn relay_send(h: RelayHistory, s: ConnectivityState) -> RelayHistory
    recommends
        h.buffered is None,
{
    RelayHistory { emitted: h.emitted.push(s), delivered: h.delivered, buffered: Some(s) }
}

/// The relay task's step: taking the buffered state out of the channel and
/// delivering it to the observer.
pub open spec fn relay_deliver(h: RelayHistory) -> RelayHistory
    recommends
        h.buffered is Some,
{
    RelayHistory {
        emitted: h.emitted,
        delivered: h.delivered.push(h.buffered->0),
        buffered: None,
    }
}

/// The freshly created relay, before anything is emitted.
pub open spec fn relay_init() -> RelayHistory {
    RelayHistory { emitted: Seq::empty(), delivered: Seq::empty(), buffered: None }
}

/// The initial relay satisfies the invariant.
pub proof fn lemma_relay_init_wf()
    ensures
        relay_wf(relay_init()),
{
    assert(relay_init().emitted =~= relay_init().delivered + buffer_seq(None));
}

/// Emitting into an empty channel preserves the invariant.
pub proof fn lemma_relay_send_wf(h: RelayHistory, s: ConnectivityState)
    requires
        relay_wf(h),
        h.buffered is None,
    ensures
        relay_wf(relay_send(h, s)),
{
    let h2 = relay_send(h, s);
    assert(h2.emitted =~= h2.delivered + buffer_seq(h2.buffered));
}

/// Delivering the buffered state preserves the invariant and extends the
/// delivered history by exactly that state.
pub proof fn lemma_relay_deliver_wf(h: RelayHistory)
    requires
        relay_wf(h),
        h.buffered is Some,
    ensures
        relay_wf(relay_deliver(h)),
        relay_deliver(h).delivered == h.delivered.push(h.buffered->0),
{
    let h2 = relay_deliver(h);
    assert(h2.emitted =~= h2.delivered + buffer_seq(h2.buffered));
}

/// Under the invariant, the observer has seen exactly a prefix of what the
/// backend emitted: connectivity notifications are neither dropped nor
/// reordered, however slowly they are consumed.
pub proof fn lemma_delivered_is_prefix(h: RelayHistory)
    requires
        relay_wf(h),
    ensures
        h.delivered.len() <= h.emitted.len(),
        h.delivered == h.emitted.take(h.delivered.len() as int),
{
    assert(h.delivered =~= h.emitted.take(h.delivered.len() as int));
}

} // verus!
