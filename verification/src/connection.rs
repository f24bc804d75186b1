//! The connection cell: single-flight, lazily-initialized holder of the one
//! connected backend client shared by all operations of a bridge instance.
//!
//! The first caller to reach an uninitialized cell starts the connection
//! attempt; every caller that races with it awaits the same in-flight
//! attempt instead of starting a second one. A successful attempt is cached
//! for the life of the instance; a failed attempt is not cached, so a later
//! call may retry — a transient network failure must not permanently brick
//! the instance. The async plumbing that carries the attempt lives outside
//! this crate; the decision rules and their guarantees are here.

use vstd::prelude::*;

verus! {

/// The lifecycle of the cell.
pub enum ConnectionState {
    /// No connection attempt has been made, or the last one failed.
    Uninitialized,
    /// One connection attempt is in flight, shared by every waiting caller.
    Connecting,
    /// A connected client is cached for the life of the bridge instance.
    Ready,
}

/// What a caller that needs the connected client does, given the cell's
/// state.
pub enum ConnectAction {
    /// Start the one connection attempt.
    StartConnect,
    /// Await the attempt some earlier caller already started.
    AwaitInFlight,
    /// Clone the cached connected client.
    UseCached,
}

/// The action a request takes in a given cell state.
pub open spec fn request_action(state: ConnectionState) -> ConnectAction {
    match state {
        ConnectionState::Uninitialized => ConnectAction::StartConnect,
        ConnectionState::Connecting => ConnectAction::AwaitInFlight,
        ConnectionState::Ready => ConnectAction::UseCached,
    }
}

/// The cell state after a request is admitted: the first caller moves the
/// cell into its in-flight state; a cached cell stays cached.
pub open spec fn state_after_request(state: ConnectionState) -> ConnectionState {
    match state {
        ConnectionState::Uninitialized => ConnectionState::Connecting,
        ConnectionState::Connecting => ConnectionState::Connecting,
        ConnectionState::Ready => ConnectionState::Ready,
    }
}

/// The cell state after the in-flight attempt resolves: success is cached;
/// failure returns the cell to uninitialized so that a later call retries.
pub open spec fn state_after_resolve(state: ConnectionState, success: bool) -> ConnectionState {
    match state {
        ConnectionState::Connecting => if success {
            ConnectionState::Ready
        } else {
            ConnectionState::Uninitialized
        },
        _ => state,
    }
}

/// Decides what a caller that needs the connected client does.
pub fn connection_request(state: &ConnectionState) -> (a: ConnectAction)
    ensures
        a == request_action(*state),
{
    match state {
        ConnectionState::Uninitialized => ConnectAction::StartConnect,
        ConnectionState::Connecting => ConnectAction::AwaitInFlight,
        ConnectionState::Ready => ConnectAction::UseCached,
    }
}

/// Advances the cell past an admitted request.
pub fn connection_after_request(state: ConnectionState) -> (s: ConnectionState)
    ensures
        s == state_after_request(state),
{
    match state {
        ConnectionState::Uninitialized => ConnectionState::Connecting,
        ConnectionState::Connecting => ConnectionState::Connecting,
        ConnectionState::Ready => ConnectionState::Ready,
    }
}

/// Advances the cell past the resolution of the in-flight attempt.
pub fn connection_resolved(state: ConnectionState, success: bool) -> (s: ConnectionState)
    ensures
        s == state_after_resolve(state, success),
{
    match state {
        ConnectionState::Connecting => if success {
            ConnectionState::Ready
        } else {
            ConnectionState::Uninitialized
        },
        ConnectionState::Uninitialized => ConnectionState::Uninitialized,
        ConnectionState::Ready => ConnectionState::Ready,
    }
}

/// One thing that happens to the cell.
pub enum CellEvent {
    /// A caller asks for the connected client.
    Request,
    /// The in-flight attempt resolves, successfully or not.
    Resolved(bool),
}

/// The cell state after a sequence of events.
pub open spec fn cell_state_after(state: ConnectionState, events: Seq<CellEvent>) -> ConnectionState
    decreases events.len(),
{
    if events.len() == 0 {
        state
    } else {
        let next = match events.first() {
            CellEvent::Request => state_after_request(state),
            CellEvent::Resolved(success) => state_after_resolve(state, success),
        };
        cell_state_after(next, events.drop_first())
    }
}

/// The actions the requests in a sequence of events take, in order.
pub open spec fn cell_actions(state: ConnectionState, events: Seq<CellEvent>) -> Seq<ConnectAction>
    decreases events.len(),
{
    if events.len() == 0 {
        Seq::empty()
    } else {
        match events.first() {
            CellEvent::Request => seq![request_action(state)] + cell_actions(
                state_after_request(state),
                events.drop_first(),
            ),
            CellEvent::Resolved(success) => cell_actions(
                state_after_resolve(state, success),
                events.drop_first(),
            ),
        }
    }
}

/// Single flight: however many callers race to use an unconnected bridge
/// before the attempt resolves, exactly the first starts a connection
/// attempt; every other one awaits that same attempt.
pub proof fn lemma_single_flight(events: Seq<CellEvent>)
    requires
        events.len() > 0,
        forall|i: int| 0 <= i < events.len() ==> (#[trigger] events[i]) is Request,
    ensures
        cell_actions(ConnectionState::Uninitialized, events).len() == events.len(),
        cell_actions(ConnectionState::Uninitialized, events).first() is StartConnect,
        forall|i: int|
            1 <= i < events.len() ==> cell_actions(ConnectionState::Uninitialized, events)[i]
                is AwaitInFlight,
{
    assert(events.first() is Request);
    lemma_all_requests_await(ConnectionState::Connecting, events.drop_first());
}

/// While one attempt is in flight, every further request awaits it.
proof fn lemma_all_requests_await(state: ConnectionState, events: Seq<CellEvent>)
    requires
        state is Connecting,
        forall|i: int| 0 <= i < events.len() ==> (#[trigger] events[i]) is Request,
    ensures
        cell_actions(state, events).len() == events.len(),
        forall|i: int| 0 <= i < events.len() ==> (#[trigger] cell_actions(state, events)[i])
            is AwaitInFlight,
        cell_state_after(state, events) is Connecting,
    decreases events.len(),
{
    if events.len() > 0 {
        assert(events.first() is Request);
        assert forall|i: int| 0 <= i < events.drop_first().len() implies (
        #[trigger] events.drop_first()[i]) is Request by {
            assert(events.drop_first()[i] == events[i + 1]);
        }
        lemma_all_requests_await(ConnectionState::Connecting, events.drop_first());
    }
}

/// Once the shared attempt resolves successfully, the cell is ready and
/// every pending or later request is served from the cache: the racing
/// operations all succeed off the one connection.
pub proof fn lemma_all_succeed_once_resolved(requests: Seq<CellEvent>, later: Seq<CellEvent>)
    requires
        requests.len() > 0,
        forall|i: int| 0 <= i < requests.len() ==> (#[trigger] requests[i]) is Request,
        forall|i: int| 0 <= i < later.len() ==> (#[trigger] later[i]) is Request,
    ensures
        cell_state_after(
            ConnectionState::Uninitialized,
            requests + seq![CellEvent::Resolved(true)],
        ) is Ready,
        forall|i: int|
            0 <= i < later.len() ==> (#[trigger] cell_actions(
                cell_state_after(
                    ConnectionState::Uninitialized,
                    requests + seq![CellEvent::Resolved(true)],
                ),
                later,
            )[i]) is UseCached,
{
    assert(requests.first() is Request);
    assert forall|i: int| 0 <= i < requests.drop_first().len() implies (
    #[trigger] requests.drop_first()[i]) is Request by {
        assert(requests.drop_first()[i] == requests[i + 1]);
    }
    lemma_all_requests_await(ConnectionState::Connecting, requests.drop_first());
    let s = cell_state_after(ConnectionState::Uninitialized, requests);
    assert(s is Connecting);
    assert(requests + seq![CellEvent::Resolved(true)] =~= requests.push(CellEvent::Resolved(true)));
    assert(cell_state_after(ConnectionState::Uninitialized, requests + seq![
            CellEvent::Resolved(true),
        ]) == state_after_resolve(s, true)) by {
        lemma_cell_state_snoc(ConnectionState::Uninitialized, requests, CellEvent::Resolved(true));
    }
    lemma_ready_serves_cache(
        cell_state_after(
            ConnectionState::Uninitialized,
            requests + seq![CellEvent::Resolved(true)],
        ),
        later,
    );
}

/// Processing a trace and then one more event equals processing the
/// extended trace.
proof fn lemma_cell_state_snoc(state: ConnectionState, events: Seq<CellEvent>, e: CellEvent)
    ensures
        cell_state_after(state, events.push(e)) == (match e {
            CellEvent::Request => state_after_request(cell_state_after(state, events)),
            CellEvent::Resolved(success) => state_after_resolve(
                cell_state_after(state, events),
                success,
            ),
        }),
    decreases events.len(),
{
    reveal_with_fuel(cell_state_after, 2);
    if events.len() == 0 {
        assert(events.push(e).first() == e);
        assert(events.push(e).drop_first() =~= Seq::<CellEvent>::empty());
    } else {
        assert(events.push(e).first() == events.first());
        assert(events.push(e).drop_first() =~= events.drop_first().push(e));
        let next = match events.first() {
            CellEvent::Request => state_after_request(state),
            CellEvent::Resolved(success) => state_after_resolve(state, success),
        };
        lemma_cell_state_snoc(next, events.drop_first(), e);
    }
}

/// A ready cell serves every request from the cache.
proof fn lemma_ready_serves_cache(state: ConnectionState, events: Seq<CellEvent>)
    requires
        state is Ready,
        forall|i: int| 0 <= i < events.len() ==> (#[trigger] events[i]) is Request,
    ensures
        cell_actions(state, events).len() == events.len(),
        forall|i: int| 0 <= i < events.len() ==> (#[trigger] cell_actions(state, events)[i])
            is UseCached,
    decreases events.len(),
{
    if events.len() > 0 {
        assert(events.first() is Request);
        assert forall|i: int| 0 <= i < events.drop_first().len() implies (
        #[trigger] events.drop_first()[i]) is Request by {
            assert(events.drop_first()[i] == events[i + 1]);
        }
        lemma_ready_serves_cache(ConnectionState::Ready, events.drop_first());
    }
}

} // verus!
