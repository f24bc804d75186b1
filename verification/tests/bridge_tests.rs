use convex_mobile::auth::{apply_auth_setting, decide_token, AuthPhase, AuthSetting, TokenDecision};
use convex_mobile::connection::{
    connection_after_request, connection_request, connection_resolved, ConnectAction,
    ConnectionState,
};
use convex_mobile::logging::init_logging;
use convex_mobile::relay::{forward_state, ConnectivityState, WebSocketStateSubscriber};

struct NoProvider;

#[test]
fn test_two_racing_operations_share_one_connect_attempt() {
    // Two operations reach an unconnected bridge: the first starts the one
    // attempt, the second awaits it, and once it resolves both are served.
    let state = ConnectionState::Uninitialized;
    let first = connection_request(&state);
    assert!(matches!(first, ConnectAction::StartConnect));
    let state = connection_after_request(state);
    let second = connection_request(&state);
    assert!(matches!(second, ConnectAction::AwaitInFlight));
    let state = connection_after_request(state);
    let state = connection_resolved(state, true);
    assert!(matches!(state, ConnectionState::Ready));
    let third = connection_request(&state);
    assert!(matches!(third, ConnectAction::UseCached));
}

#[test]
fn test_failed_connect_attempt_allows_retry() {
    let state = ConnectionState::Uninitialized;
    let state = connection_after_request(state);
    let state = connection_resolved(state, false);
    // The failure is not cached: the next caller starts a fresh attempt.
    assert!(matches!(state, ConnectionState::Uninitialized));
    assert!(matches!(
        connection_request(&state),
        ConnectAction::StartConnect
    ));
}

#[test]
fn test_clearing_the_auth_callback_logs_out() {
    // A provider was installed before; clearing it leaves the client
    // logged out for subsequent calls.
    let installed: AuthPhase<NoProvider> = apply_auth_setting(AuthSetting::UseProvider(Some(NoProvider)));
    assert!(matches!(installed, AuthPhase::Managed(_)));
    let cleared: AuthPhase<NoProvider> = apply_auth_setting(AuthSetting::UseProvider(None));
    assert!(matches!(cleared, AuthPhase::LoggedOut));
}

#[test]
fn test_clearing_the_static_token_logs_out() {
    let set: AuthPhase<NoProvider> =
        apply_auth_setting(AuthSetting::UseToken(Some(String::from("id-token"))));
    assert!(matches!(set, AuthPhase::StaticToken(_)));
    let cleared: AuthPhase<NoProvider> = apply_auth_setting(AuthSetting::UseToken(None));
    assert!(matches!(cleared, AuthPhase::LoggedOut));
}

#[test]
fn test_token_fetch_outcomes() {
    match decide_token(Ok(Some(String::from("token-123")))) {
        TokenDecision::Authenticate { token } => assert_eq!(token, "token-123"),
        _ => panic!("expected Authenticate"),
    }
    assert!(matches!(decide_token(Ok(None)), TokenDecision::LogOut));
    match decide_token(Err(String::from("fetch failed"))) {
        TokenDecision::Fail { message } => assert_eq!(message, "fetch failed"),
        _ => panic!("expected Fail"),
    }
}

struct LastState(std::sync::Mutex<Vec<ConnectivityState>>);

impl WebSocketStateSubscriber for LastState {
    fn on_state_change(&self, state: ConnectivityState) {
        self.0.lock().unwrap().push(state);
    }
}

#[test]
fn test_states_are_forwarded_in_order() {
    let observer = LastState(std::sync::Mutex::new(Vec::new()));
    forward_state(&observer, ConnectivityState::Connecting);
    forward_state(&observer, ConnectivityState::Connected);
    assert_eq!(
        observer.0.lock().unwrap().clone(),
        vec![ConnectivityState::Connecting, ConnectivityState::Connected]
    );
}

#[test]
fn test_init_logging_is_idempotent() {
    init_logging();
    init_logging();
}
