use convex::{ConvexError, FunctionResult, Value};

use convex_mobile::results::{handle_direct_function_result, handle_function_outcome, FunctionOutcome};
use convex_mobile::subscription::{classify_update, UpdateDelivery};
use convex_mobile::ClientError;

#[test]
fn test_value_result_is_encoded_json() {
    let result = handle_direct_function_result(FunctionResult::Value(Value::Boolean(true)));
    assert_eq!(result.unwrap(), "true");
}

#[test]
fn test_object_result_encoding() {
    let mut obj = std::collections::BTreeMap::new();
    obj.insert(String::from("a"), Value::Float64(1.0));
    obj.insert(String::from("b"), Value::String(String::from("foo")));
    let result = handle_direct_function_result(FunctionResult::Value(Value::Object(obj)));
    assert_eq!(result.unwrap(), "{\"a\":1.0,\"b\":\"foo\"}");
}

#[test]
fn test_convex_error_surfaces_with_reencoded_data() {
    let result = handle_direct_function_result(FunctionResult::ConvexError(ConvexError {
        message: String::from("boom"),
        data: Value::Array(vec![Value::Float64(1.0), Value::String(String::from("x"))]),
    }));
    match result {
        Err(ClientError::ConvexError { data }) => assert_eq!(data, "[1.0,\"x\"]"),
        other => panic!("expected ConvexError, got {other:?}"),
    }
}

#[test]
fn test_error_message_surfaces_as_server_error() {
    let result = handle_direct_function_result(FunctionResult::ErrorMessage(String::from(
        "Server Error",
    )));
    match result {
        Err(ClientError::ServerError { msg }) => assert_eq!(msg, "Server Error"),
        other => panic!("expected ServerError, got {other:?}"),
    }
}

#[test]
fn test_outcome_value_is_ok() {
    let r = handle_function_outcome(FunctionOutcome::Value(Value::Null));
    assert_eq!(r.unwrap(), "null");
}

#[test]
fn test_classify_value_is_update() {
    let d = classify_update(FunctionOutcome::Value(Value::Float64(2.5)));
    match d {
        UpdateDelivery::Update { value } => assert_eq!(value, "2.5"),
        other => panic!("expected Update, got another delivery: {:?}", describe(&other)),
    }
}

#[test]
fn test_classify_error_message_has_no_payload() {
    let d = classify_update(FunctionOutcome::ErrorMessage(String::from("oops")));
    match d {
        UpdateDelivery::Failure { message, value } => {
            assert_eq!(message, "oops");
            assert_eq!(value, None);
        }
        other => panic!("expected Failure, got another delivery: {:?}", describe(&other)),
    }
}

#[test]
fn test_classify_convex_error_keeps_message_and_payload() {
    let d = classify_update(FunctionOutcome::ConvexError {
        message: String::from("bad input"),
        data: Value::String(String::from("why")),
    });
    match d {
        UpdateDelivery::Failure { message, value } => {
            assert_eq!(message, "bad input");
            assert_eq!(value, Some(String::from("\"why\"")));
        }
        other => panic!("expected Failure, got another delivery: {:?}", describe(&other)),
    }
}

fn describe(d: &UpdateDelivery) -> String {
    match d {
        UpdateDelivery::Update { value } => format!("update {value}"),
        UpdateDelivery::Failure { message, .. } => format!("failure {message}"),
    }
}
