use jsonrpcli::capture::{capture, encode_pairing, pairing_of, Example, ExamplePairing, ExampleValue};
use jsonrpcli::codec::DecodeError;
use jsonrpcli::replay::{judge, judge_reply, mismatch_diagnostic, plan, ReplayError, ReplayStep, Verdict};
use jsonrpcli::types::{Error, Id, Request, RequestParameters, Response, V2};
use serde_json::Value;

fn json_value(text: &str) -> Value {
    serde_json::from_str(text).unwrap()
}

fn embedded(name: Option<&str>, text: &str) -> Example {
    Example { name: name.map(String::from), value: ExampleValue::Embedded(json_value(text)) }
}

#[test]
fn exchange_with_a_success_gives_one_pairing() {
    let p = capture(
        br#"{"jsonrpc":"2.0","method":"ping","params":[],"id":5}"#,
        br#"{"jsonrpc":"2.0","result":"pong","id":5}"#,
    )
    .unwrap();
    assert_eq!(
        p,
        ExamplePairing {
            name: "ping".to_string(),
            params: vec![],
            result: Some(embedded(None, "\"pong\"")),
        }
    );
    assert_eq!(
        encode_pairing(p),
        br#"{"name":"ping","params":[],"result":{"value":"pong"}}"#.to_vec()
    );
}

#[test]
fn exchange_with_an_error_gives_no_pairing() {
    assert_eq!(
        capture(
            br#"{"jsonrpc":"2.0","method":"ping","params":[],"id":5}"#,
            br#"{"jsonrpc":"2.0","error":{"code":-32601,"message":"no"},"id":5}"#,
        ),
        None
    );
}

#[test]
fn exchange_that_does_not_decode_gives_no_pairing() {
    let good_request = br#"{"jsonrpc":"2.0","method":"ping","id":5}"#;
    let good_response = br#"{"jsonrpc":"2.0","result":1,"id":5}"#;
    assert!(capture(good_request, good_response).is_some());
    assert_eq!(capture(b"GET /", good_response), None);
    assert_eq!(capture(good_request, b"<html>"), None);
    assert_eq!(capture(br#"[{"jsonrpc":"2.0","method":"ping","id":5}]"#, good_response), None);
    assert_eq!(capture(good_request, br#"[{"jsonrpc":"2.0","result":1,"id":5}]"#), None);
    assert_eq!(capture(good_request, br#"{"jsonrpc":"2.0","result":1,"error":null,"id":5}"#), None);
}

#[test]
fn positional_params_keep_their_order_without_names() {
    let p = capture(
        br#"{"jsonrpc":"2.0","method":"sub","params":[3,1,{"k":null}],"id":1}"#,
        br#"{"jsonrpc":"2.0","result":2,"id":1}"#,
    )
    .unwrap();
    assert_eq!(
        p.params,
        vec![embedded(None, "3"), embedded(None, "1"), embedded(None, r#"{"k":null}"#)]
    );
    assert_eq!(p.result, Some(embedded(None, "2")));
    assert_eq!(
        encode_pairing(p),
        br#"{"name":"sub","params":[{"value":3},{"value":1},{"value":{"k":null}}],"result":{"value":2}}"#
            .to_vec()
    );
}

#[test]
fn named_params_keep_their_names() {
    let p = capture(
        br#"{"jsonrpc":"2.0","method":"sub","params":{"minuend":3,"subtrahend":1}}"#,
        br#"{"jsonrpc":"2.0","result":null,"id":null}"#,
    )
    .unwrap();
    assert_eq!(p.name, "sub");
    assert_eq!(p.params, vec![embedded(Some("minuend"), "3"), embedded(Some("subtrahend"), "1")]);
    assert_eq!(p.result, Some(embedded(None, "null")));
}

#[test]
fn pairing_of_a_request_without_params_has_none() {
    let request = Request { jsonrpc: V2, method: "m".into(), params: None, id: None };
    let p = pairing_of(request, json_value("[1]"));
    assert_eq!(
        p,
        ExamplePairing { name: "m".into(), params: vec![], result: Some(embedded(None, "[1]")) }
    );
}

#[test]
fn external_values_are_written_under_their_own_member() {
    let p = ExamplePairing {
        name: "m".into(),
        params: vec![Example {
            name: Some("a".into()),
            value: ExampleValue::External("http://x/y".into()),
        }],
        result: None,
    };
    assert_eq!(
        encode_pairing(p),
        br#"{"name":"m","params":[{"name":"a","externalValue":"http://x/y"}]}"#.to_vec()
    );
    let e = embedded(Some("n"), "1");
    assert_eq!(e.duplicate(), e);
    assert_eq!(
        serde_json::to_string(&e.into_value()).unwrap(),
        r#"{"name":"n","value":1}"#
    );
}

#[test]
fn replay_sends_positional_params_and_the_null_id() {
    let pairing = ExamplePairing {
        name: "sub".into(),
        params: vec![embedded(Some("minuend"), "3"), embedded(None, "1")],
        result: Some(embedded(None, "2")),
    };
    assert_eq!(
        plan(&pairing),
        Ok(ReplayStep::Send {
            request: Request {
                jsonrpc: V2,
                method: "sub".into(),
                params: Some(RequestParameters::ByPosition(vec![json_value("3"), json_value("1")])),
                id: Some(Id::Null),
            },
            expected: json_value("2"),
        })
    );
}

#[test]
fn replay_skips_a_pairing_without_result() {
    let pairing =
        ExamplePairing { name: "note".into(), params: vec![embedded(None, "3")], result: None };
    assert_eq!(plan(&pairing), Ok(ReplayStep::Skip));
}

#[test]
fn replay_refuses_external_values() {
    let external = Example { name: None, value: ExampleValue::External("u".into()) };
    let in_params = ExamplePairing {
        name: "m".into(),
        params: vec![embedded(None, "1"), external.clone()],
        result: Some(embedded(None, "2")),
    };
    assert_eq!(plan(&in_params), Err(ReplayError::ExternalValue));
    let in_result =
        ExamplePairing { name: "m".into(), params: vec![], result: Some(external.clone()) };
    assert_eq!(plan(&in_result), Err(ReplayError::ExternalValue));
    let without_result = ExamplePairing { name: "m".into(), params: vec![external], result: None };
    assert_eq!(plan(&without_result), Err(ReplayError::ExternalValue));
    assert_eq!(ReplayError::ExternalValue.diagnostic(), "unexpected external example value");
}

#[test]
fn differing_result_is_a_mismatch_that_names_the_method() {
    let expected = json_value("42");
    let verdict = judge_reply("answer", &expected, br#"{"jsonrpc":"2.0","result":43,"id":null}"#);
    assert_eq!(verdict, Ok(Verdict::Mismatch));
    assert_eq!(mismatch_diagnostic("answer"), "mismatch for answer");
}

#[test]
fn equal_result_is_a_match() {
    let expected = json_value(r#"{"a":[1,2],"b":"x"}"#);
    let verdict = judge_reply(
        "m",
        &expected,
        br#"{"jsonrpc":"2.0","result":{"b":"x","a":[1,2]},"id":null}"#,
    );
    assert_eq!(verdict, Ok(Verdict::Match));
    let verdict = judge_reply("m", &expected, br#"{"jsonrpc":"2.0","result":{"a":[2,1],"b":"x"},"id":null}"#);
    assert_eq!(verdict, Ok(Verdict::Mismatch));
    let verdict = judge_reply("m", &json_value("1"), br#"{"jsonrpc":"2.0","result":1.0,"id":null}"#);
    assert_eq!(verdict, Ok(Verdict::Mismatch));
}

#[test]
fn error_reply_is_fatal_and_names_method_and_message() {
    let expected = json_value("42");
    let verdict = judge_reply(
        "answer",
        &expected,
        br#"{"jsonrpc":"2.0","error":{"code":-32603,"message":"it broke"},"id":null}"#,
    );
    let fatal = verdict.unwrap_err();
    assert_eq!(
        fatal,
        ReplayError::Server { method: "answer".into(), message: "it broke".into() }
    );
    assert_eq!(fatal.diagnostic(), "error for answer: it broke");
}

#[test]
fn reply_that_is_no_response_is_fatal() {
    let expected = json_value("42");
    assert_eq!(
        judge_reply("m", &expected, b"oops"),
        Err(ReplayError::Reply(DecodeError::Syntax))
    );
    assert_eq!(
        judge_reply("m", &expected, br#"{"jsonrpc":"2.0","id":1}"#),
        Err(ReplayError::Reply(DecodeError::NoResultOrError))
    );
    assert_eq!(
        ReplayError::Reply(DecodeError::Syntax).diagnostic(),
        "invalid response: malformed JSON"
    );
}

#[test]
fn response_is_held_against_the_recorded_result() {
    let ok = Response { jsonrpc: V2, result: Ok(json_value("[1]")), id: Id::Null };
    assert_eq!(judge("m", &json_value("[1]"), ok.clone()), Ok(Verdict::Match));
    assert_eq!(judge("m", &json_value("[2]"), ok), Ok(Verdict::Mismatch));
    let err = Response { jsonrpc: V2, result: Err(Error::new(1, "no", None)), id: Id::Null };
    assert_eq!(
        judge("m", &json_value("[1]"), err),
        Err(ReplayError::Server { method: "m".into(), message: "no".into() })
    );
}
