use jsonrpcli::capture::{relay, Example, ExamplePairing, ExampleValue};
use jsonrpcli::codec::{encode_request, DecodeError};
use jsonrpcli::replay::{ReplayError, Run};
use jsonrpcli::{Id, Request, RequestParameters, V2};
use serde_json::Value;

fn literal(text: &str) -> Value {
    serde_json::from_str(text).unwrap()
}

fn recorded(method: &str, params: &[&str], result: &str) -> ExamplePairing {
    ExamplePairing {
        name: method.to_string(),
        params: params
            .iter()
            .map(|p| Example { name: None, value: ExampleValue::Embedded(literal(p)) })
            .collect(),
        result: Some(Example { name: None, value: ExampleValue::Embedded(literal(result)) }),
    }
}

#[test]
fn relay_forwards_the_body_and_emits_one_pairing() {
    let upstream = br#"{"jsonrpc":"2.0","result":"pong","id":5}"#.to_vec();
    let r = relay(br#"{"jsonrpc":"2.0","method":"ping","params":[],"id":5}"#, upstream.clone());
    assert_eq!(r.forwarded, upstream);
    assert_eq!(
        r.captured,
        Some(br#"{"name":"ping","params":[],"result":{"value":"pong"}}"#.to_vec())
    );
}

#[test]
fn relay_forwards_the_body_and_emits_nothing_for_an_error() {
    let upstream = br#"{"jsonrpc":"2.0","error":{"code":1,"message":"no"},"id":5}"#.to_vec();
    let r = relay(br#"{"jsonrpc":"2.0","method":"ping","params":[],"id":5}"#, upstream.clone());
    assert_eq!(r.forwarded, upstream);
    assert_eq!(r.captured, None);
}

#[test]
fn relay_forwards_bodies_that_are_no_json() {
    let upstream = b"<html>\xff\x00</html>".to_vec();
    let r = relay(b"GET / HTTP/1.1", upstream.clone());
    assert_eq!(r.forwarded, upstream);
    assert_eq!(r.captured, None);
    let r = relay(b"", Vec::new());
    assert_eq!(r.forwarded, Vec::<u8>::new());
    assert_eq!(r.captured, None);
}

#[test]
fn mismatch_is_reported_once_and_the_run_goes_on() {
    let mut run = Run::new();
    assert!(!run.is_over());
    let first = recorded("answer", &[], "42");
    let (request, expected) = run.begin(&first).unwrap();
    assert_eq!(
        request,
        Request {
            jsonrpc: V2,
            method: "answer".into(),
            params: Some(RequestParameters::ByPosition(vec![])),
            id: Some(Id::Null),
        }
    );
    assert_eq!(
        encode_request(request),
        br#"{"jsonrpc":"2.0","method":"answer","params":[],"id":null}"#.to_vec()
    );
    run.finish("answer", &expected, br#"{"jsonrpc":"2.0","result":43,"id":null}"#);
    assert_eq!(run.diagnostics, vec!["mismatch for answer".to_string()]);
    assert_eq!(run.failure, None);
    assert!(!run.is_over());

    let second = recorded("next", &["1"], "true");
    let (_, expected) = run.begin(&second).unwrap();
    run.finish("next", &expected, br#"{"jsonrpc":"2.0","result":true,"id":null}"#);
    assert_eq!(run.diagnostics, vec!["mismatch for answer".to_string()]);
    assert!(!run.is_over());
}

#[test]
fn error_reply_ends_the_run_and_nothing_more_is_sent() {
    let mut run = Run::new();
    let first = recorded("answer", &[], "42");
    let (_, expected) = run.begin(&first).unwrap();
    run.finish(
        "answer",
        &expected,
        br#"{"jsonrpc":"2.0","error":{"code":-32000,"message":"down"},"id":null}"#,
    );
    assert!(run.is_over());
    let failure = run.failure.clone().unwrap();
    assert_eq!(failure, ReplayError::Server { method: "answer".into(), message: "down".into() });
    assert_eq!(failure.diagnostic(), "error for answer: down");
    assert_eq!(run.diagnostics, Vec::<String>::new());

    let before = run.clone();
    let second = recorded("next", &[], "1");
    assert_eq!(run.begin(&second), None);
    run.finish("next", &literal("1"), br#"{"jsonrpc":"2.0","result":2,"id":null}"#);
    assert_eq!(run, before);
}

#[test]
fn unreplayable_pairing_ends_the_run() {
    let mut run = Run::new();
    let pairing = ExamplePairing {
        name: "m".into(),
        params: vec![Example { name: None, value: ExampleValue::External("ref".into()) }],
        result: None,
    };
    assert_eq!(run.begin(&pairing), None);
    assert_eq!(run.failure, Some(ReplayError::ExternalValue));
    assert!(run.is_over());
}

#[test]
fn pairing_without_result_is_passed_over() {
    let mut run = Run::new();
    let pairing = ExamplePairing { name: "m".into(), params: vec![], result: None };
    assert_eq!(run.begin(&pairing), None);
    assert_eq!(run, Run::new());
}

#[test]
fn reply_that_does_not_decode_ends_the_run() {
    let mut run = Run::new();
    run.finish("m", &literal("1"), b"not json");
    assert_eq!(run.failure, Some(ReplayError::Reply(DecodeError::Syntax)));
}
