use convex_mobile::errors::{error_from_anyhow, error_from_join, error_from_serde};
use convex_mobile::ClientError;

#[test]
fn test_anyhow_failures_keep_their_message() {
    let e = error_from_anyhow(anyhow::Error::msg("connect refused"));
    match e {
        ClientError::InternalError { msg } => assert_eq!(msg, "connect refused"),
        other => panic!("expected InternalError, got {other:?}"),
    }
}

#[test]
fn test_serde_failures_are_internal() {
    let parse_failure = serde_json::from_str::<serde_json::Value>("{oops").unwrap_err();
    let e = error_from_serde(parse_failure);
    match e {
        ClientError::InternalError { msg } => assert_eq!(msg, "JSON error"),
        other => panic!("expected InternalError, got {other:?}"),
    }
}

#[test]
fn test_join_failures_are_internal() {
    let rt = tokio::runtime::Builder::new_current_thread().build().unwrap();
    let join_failure = rt.block_on(async {
        let handle = tokio::spawn(std::future::pending::<()>());
        handle.abort();
        handle.await.unwrap_err()
    });
    let e = error_from_join(join_failure);
    match e {
        ClientError::InternalError { msg } => assert_eq!(msg, "join error"),
        other => panic!("expected InternalError, got {other:?}"),
    }
}

#[test]
fn test_describe_renders_each_kind() {
    let internal = ClientError::InternalError { msg: String::from("x") };
    assert_eq!(internal.describe(), "InternalError: x");
    let convex_error = ClientError::ConvexError { data: String::from("[1]") };
    assert_eq!(convex_error.describe(), "ConvexError: [1]");
    let server = ClientError::ServerError { msg: String::from("y") };
    assert_eq!(server.describe(), "ServerError: y");
}
