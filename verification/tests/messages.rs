use jsonrpcli::batch::{decode_batched_request, decode_batched_response, encode_batched_request};
use jsonrpcli::codec::{
    decode_request, decode_response, encode_request, encode_response, DecodeError,
};
use jsonrpcli::types::{
    Error, Id, MaybeBatchedRequest, MaybeBatchedResponse, Request, RequestParameters, Response, V2,
};
use serde_json::{Number, Value};

fn value(text: &str) -> Value {
    serde_json::from_str(text).unwrap()
}

fn object(text: &str) -> serde_json::Map<String, Value> {
    match value(text) {
        Value::Object(m) => m,
        _ => panic!("not an object"),
    }
}

fn request(method: &str, params: Option<RequestParameters>, id: Option<Id>) -> Request {
    Request { jsonrpc: V2, method: method.to_string(), params, id }
}

#[test]
fn absent_id_is_a_notification() {
    let r = decode_request(br#"{"jsonrpc":"2.0","method":"m"}"#).unwrap();
    assert_eq!(r, request("m", None, None));
    assert!(r.is_notification());
}

#[test]
fn null_id_is_not_a_notification() {
    let r = decode_request(br#"{"jsonrpc":"2.0","method":"m","id":null}"#).unwrap();
    assert_eq!(r.id, Some(Id::Null));
    assert!(!r.is_notification());
}

#[test]
fn id_is_a_string_or_a_number() {
    let r = decode_request(br#"{"jsonrpc":"2.0","method":"m","id":"1"}"#).unwrap();
    assert_eq!(r.id, Some(Id::String("1".to_string())));
    let r = decode_request(br#"{"jsonrpc":"2.0","method":"m","id":1}"#).unwrap();
    assert_eq!(r.id, Some(Id::Number(Number::from(1))));
    assert_ne!(Id::String("1".to_string()), Id::Number(Number::from(1)));
    let r = decode_request(br#"{"jsonrpc":"2.0","method":"m","id":1.5}"#).unwrap();
    assert_eq!(r.id, Some(Id::Number(Number::from_f64(1.5).unwrap())));
}

#[test]
fn id_of_another_shape_is_refused() {
    assert_eq!(
        decode_request(br#"{"jsonrpc":"2.0","method":"m","id":[1]}"#),
        Err(DecodeError::Id)
    );
    assert_eq!(
        decode_request(br#"{"jsonrpc":"2.0","method":"m","id":true}"#),
        Err(DecodeError::Id)
    );
    assert_eq!(
        decode_request(br#"{"jsonrpc":"2.0","method":"m","id":{}}"#),
        Err(DecodeError::Id)
    );
}

#[test]
fn params_array_is_by_position() {
    let r = decode_request(br#"{"jsonrpc":"2.0","method":"m","params":[1,"a",null]}"#).unwrap();
    assert_eq!(
        r.params,
        Some(RequestParameters::ByPosition(vec![value("1"), value("\"a\""), Value::Null]))
    );
    let r = decode_request(br#"{"jsonrpc":"2.0","method":"m","params":[]}"#).unwrap();
    assert_eq!(r.params, Some(RequestParameters::ByPosition(vec![])));
}

#[test]
fn params_object_is_by_name() {
    let r = decode_request(br#"{"jsonrpc":"2.0","method":"m","params":{"a":1,"B":2}}"#).unwrap();
    assert_eq!(r.params, Some(RequestParameters::ByName(object(r#"{"a":1,"B":2}"#))));
}

#[test]
fn params_of_another_shape_are_refused() {
    for text in ["\"x\"", "1", "true", "1.5"] {
        let body = format!(r#"{{"jsonrpc":"2.0","method":"m","params":{}}}"#, text);
        assert_eq!(decode_request(body.as_bytes()), Err(DecodeError::Params));
    }
    assert_eq!(
        DecodeError::Params.message(),
        "expected an Array of by-position parameters, or an Object of by-name parameters"
    );
}

#[test]
fn params_null_stand_for_no_params() {
    let r = decode_request(br#"{"jsonrpc":"2.0","method":"m","params":null}"#).unwrap();
    assert_eq!(r.params, None);
    let r = decode_request(br#"{"jsonrpc":"2.0","method":"m"}"#).unwrap();
    assert_eq!(r.params, None);
}

#[test]
fn request_errors_each_have_their_input() {
    assert_eq!(decode_request(b"{"), Err(DecodeError::Syntax));
    assert_eq!(decode_request(b""), Err(DecodeError::Syntax));
    assert_eq!(decode_request(b"[]"), Err(DecodeError::NotAnObject));
    assert_eq!(decode_request(b"3"), Err(DecodeError::NotAnObject));
    assert_eq!(decode_request(br#"{"method":"m"}"#), Err(DecodeError::Version));
    assert_eq!(
        decode_request(br#"{"jsonrpc":"1.0","method":"m"}"#),
        Err(DecodeError::Version)
    );
    assert_eq!(decode_request(br#"{"jsonrpc":2.0,"method":"m"}"#), Err(DecodeError::Version));
    assert_eq!(decode_request(br#"{"jsonrpc":"2.0"}"#), Err(DecodeError::Method));
    assert_eq!(decode_request(br#"{"jsonrpc":"2.0","method":7}"#), Err(DecodeError::Method));
}

#[test]
fn unknown_members_are_ignored() {
    let r = decode_request(br#"{"jsonrpc":"2.0","method":"m","extra":1,"id":2}"#).unwrap();
    assert_eq!(r, request("m", None, Some(Id::Number(Number::from(2)))));
}

#[test]
fn response_with_result_and_error_is_refused() {
    let body = br#"{"jsonrpc":"2.0","result":1,"error":{"code":1,"message":"x"},"id":1}"#;
    assert_eq!(decode_response(body), Err(DecodeError::ResultAndError));
    let body = br#"{"jsonrpc":"2.0","result":null,"error":null,"id":1}"#;
    assert_eq!(decode_response(body), Err(DecodeError::ResultAndError));
    assert_eq!(
        DecodeError::ResultAndError.message(),
        "only one of error and result may be present"
    );
}

#[test]
fn response_with_neither_result_nor_error_is_refused() {
    assert_eq!(
        decode_response(br#"{"jsonrpc":"2.0","id":1}"#),
        Err(DecodeError::NoResultOrError)
    );
    assert_eq!(DecodeError::NoResultOrError.message(), "must have an error or result member");
}

#[test]
fn response_with_exactly_one_succeeds() {
    let r = decode_response(br#"{"jsonrpc":"2.0","result":"pong","id":5}"#).unwrap();
    assert_eq!(
        r,
        Response { jsonrpc: V2, result: Ok(value("\"pong\"")), id: Id::Number(Number::from(5)) }
    );
    let r = decode_response(br#"{"jsonrpc":"2.0","result":null,"id":null}"#).unwrap();
    assert_eq!(r, Response { jsonrpc: V2, result: Ok(Value::Null), id: Id::Null });
    let r = decode_response(
        br#"{"jsonrpc":"2.0","error":{"code":-32601,"message":"no such method"},"id":"a"}"#,
    )
    .unwrap();
    assert_eq!(
        r,
        Response {
            jsonrpc: V2,
            result: Err(Error { code: -32601, message: "no such method".to_string(), data: None }),
            id: Id::String("a".to_string()),
        }
    );
}

#[test]
fn response_errors_each_have_their_input() {
    assert_eq!(decode_response(b"nul"), Err(DecodeError::Syntax));
    assert_eq!(decode_response(b"\"x\""), Err(DecodeError::NotAnObject));
    assert_eq!(decode_response(br#"{"result":1,"id":1}"#), Err(DecodeError::Version));
    assert_eq!(decode_response(br#"{"jsonrpc":"2.0","result":1}"#), Err(DecodeError::Id));
    assert_eq!(
        decode_response(br#"{"jsonrpc":"2.0","result":1,"id":[]}"#),
        Err(DecodeError::Id)
    );
    assert_eq!(
        decode_response(br#"{"jsonrpc":"2.0","error":7,"id":1}"#),
        Err(DecodeError::NotAnObject)
    );
    assert_eq!(
        decode_response(br#"{"jsonrpc":"2.0","error":{"message":"x"},"id":1}"#),
        Err(DecodeError::ErrorCode)
    );
    assert_eq!(
        decode_response(br#"{"jsonrpc":"2.0","error":{"code":1.5,"message":"x"},"id":1}"#),
        Err(DecodeError::ErrorCode)
    );
    assert_eq!(
        decode_response(
            br#"{"jsonrpc":"2.0","error":{"code":9223372036854775808,"message":"x"},"id":1}"#
        ),
        Err(DecodeError::ErrorCode)
    );
    assert_eq!(
        decode_response(br#"{"jsonrpc":"2.0","error":{"code":1},"id":1}"#),
        Err(DecodeError::ErrorMessage)
    );
    assert_eq!(
        decode_response(br#"{"jsonrpc":"2.0","error":{"code":1,"message":2},"id":1}"#),
        Err(DecodeError::ErrorMessage)
    );
}

#[test]
fn error_data_null_differs_from_absent_data() {
    let with_null = Error::from_value(&value(r#"{"code":1,"message":"x","data":null}"#)).unwrap();
    assert_eq!(with_null.data, Some(Value::Null));
    let without = Error::from_value(&value(r#"{"code":1,"message":"x"}"#)).unwrap();
    assert_eq!(without.data, None);
    assert_ne!(with_null, without);
    assert_eq!(
        serde_json::to_string(&with_null.into_value()).unwrap(),
        r#"{"code":1,"message":"x","data":null}"#
    );
    assert_eq!(
        serde_json::to_string(&without.into_value()).unwrap(),
        r#"{"code":1,"message":"x"}"#
    );
}

#[test]
fn error_code_bounds() {
    let e = Error::from_value(&value(r#"{"code":-9223372036854775808,"message":""}"#)).unwrap();
    assert_eq!(e.code, i64::MIN);
    let e = Error::from_value(&value(r#"{"code":9223372036854775807,"message":""}"#)).unwrap();
    assert_eq!(e.code, i64::MAX);
    let back = Error::from_value(&e.clone().into_value()).unwrap();
    assert_eq!(back, e);
}

#[test]
fn request_is_encoded_member_by_member() {
    let r = request(
        "ping",
        Some(RequestParameters::ByPosition(vec![])),
        Some(Id::Number(Number::from(5))),
    );
    assert_eq!(
        encode_request(r),
        br#"{"jsonrpc":"2.0","method":"ping","params":[],"id":5}"#.to_vec()
    );
    assert_eq!(
        encode_request(request("n", None, None)),
        br#"{"jsonrpc":"2.0","method":"n"}"#.to_vec()
    );
    assert_eq!(
        encode_request(request("n", None, Some(Id::Null))),
        br#"{"jsonrpc":"2.0","method":"n","id":null}"#.to_vec()
    );
    assert_eq!(
        encode_request(request(
            "n",
            Some(RequestParameters::ByName(object(r#"{"a":[1]}"#))),
            Some(Id::String("x".to_string()))
        )),
        br#"{"jsonrpc":"2.0","method":"n","params":{"a":[1]},"id":"x"}"#.to_vec()
    );
}

#[test]
fn response_is_encoded_with_the_matching_member_only() {
    let ok = Response { jsonrpc: V2, result: Ok(value("42")), id: Id::Number(Number::from(1)) };
    assert_eq!(encode_response(ok), br#"{"jsonrpc":"2.0","result":42,"id":1}"#.to_vec());
    let err = Response {
        jsonrpc: V2,
        result: Err(Error::new(-32000, "boom", Some(value("[1]")))),
        id: Id::Null,
    };
    assert_eq!(
        encode_response(err),
        br#"{"jsonrpc":"2.0","error":{"code":-32000,"message":"boom","data":[1]},"id":null}"#
            .to_vec()
    );
}

#[test]
fn requests_survive_a_round_trip() {
    let samples = vec![
        request("", None, None),
        request("a", None, Some(Id::Null)),
        request("a.b", Some(RequestParameters::ByPosition(vec![])), Some(Id::String("".into()))),
        request(
            "rpc.x",
            Some(RequestParameters::ByPosition(vec![Value::Null, value("[1,{\"k\":2.5}]")])),
            Some(Id::Number(Number::from(-7))),
        ),
        request(
            "sum",
            Some(RequestParameters::ByName(object(r#"{"x":1,"y":null,"X":"z"}"#))),
            Some(Id::Number(Number::from_f64(0.5).unwrap())),
        ),
        request("empty", Some(RequestParameters::ByName(serde_json::Map::new())), None),
    ];
    for r in samples {
        assert_eq!(decode_request(&encode_request(r.clone())), Ok(r.clone()));
        assert_eq!(Request::from_value(&r.clone().into_value()), Ok(r));
    }
}

#[test]
fn responses_survive_a_round_trip() {
    let samples = vec![
        Response::default(),
        Response { jsonrpc: V2, result: Ok(value(r#"{"a":[true,false]}"#)), id: Id::Null },
        Response {
            jsonrpc: V2,
            result: Err(Error::parse_error("bad", None)),
            id: Id::String("q".into()),
        },
        Response {
            jsonrpc: V2,
            result: Err(Error::internal_error("bad", Some(Value::Null))),
            id: Id::Number(Number::from(u64::MAX)),
        },
    ];
    for r in samples {
        assert_eq!(decode_response(&encode_response(r.clone())), Ok(r.clone()));
        assert_eq!(Response::from_value(&r.clone().into_value()), Ok(r));
    }
}

#[test]
fn ids_and_params_survive_a_round_trip() {
    for id in [Id::Null, Id::String("s".into()), Id::Number(Number::from(3))] {
        assert_eq!(Id::from_value(&id.clone().into_value()), Ok(id));
    }
    let p = RequestParameters::ByPosition(vec![value("1")]);
    assert_eq!(RequestParameters::from_value(&p.clone().into_value()), Ok(Some(p)));
    let p = RequestParameters::ByName(object(r#"{"a":1}"#));
    assert_eq!(RequestParameters::from_value(&p.clone().into_value()), Ok(Some(p)));
}

#[test]
fn id_is_read_from_text() {
    assert_eq!(Id::from_text("null"), Ok(Id::Null));
    assert_eq!(Id::from_text("\"abc\""), Ok(Id::String("abc".into())));
    assert_eq!(Id::from_text("12"), Ok(Id::Number(Number::from(12))));
    assert_eq!(Id::from_text("[1]"), Err(DecodeError::Id));
    assert_eq!(Id::from_text("abc"), Err(DecodeError::Syntax));
    assert_eq!(Id::default(), Id::Null);
}

#[test]
fn params_are_counted() {
    let p = RequestParameters::ByPosition(vec![value("1"), value("2")]);
    assert_eq!(p.len(), 2);
    assert!(!p.is_empty());
    let p = RequestParameters::ByName(object(r#"{"a":1,"b":2,"c":3}"#));
    assert_eq!(p.len(), 3);
    assert!(!p.is_empty());
    assert!(RequestParameters::ByPosition(vec![]).is_empty());
    assert!(RequestParameters::ByName(serde_json::Map::new()).is_empty());
}

#[test]
fn params_are_handed_out_for_typed_reading() {
    let r = request("m", Some(RequestParameters::ByPosition(vec![value("1"), value("2")])), None);
    let pair: (u8, u8) = serde_json::from_value(r.deserialize_params()).unwrap();
    assert_eq!(pair, (1, 2));
    let r = request("m", Some(RequestParameters::ByName(object(r#"{"a":1}"#))), None);
    let named: std::collections::BTreeMap<String, u8> =
        serde_json::from_value(r.deserialize_params()).unwrap();
    assert_eq!(named.get("a"), Some(&1));
    let r = request("m", None, None);
    let unit: () = serde_json::from_value(r.deserialize_params()).unwrap();
    assert_eq!(unit, ());
}

#[test]
fn error_constructors_carry_the_standard_codes() {
    assert_eq!(Error::PARSE_ERROR, -32700);
    assert_eq!(Error::INVALID_REQUEST, -32600);
    assert_eq!(Error::METHOD_NOT_FOUND, -32601);
    assert_eq!(Error::INVALID_PARAMS, -32602);
    assert_eq!(Error::INTERNAL_ERROR, -32603);
    assert_eq!(Error::parse_error("m", None).code, -32700);
    assert_eq!(Error::invalid_request("m", None).code, -32600);
    assert_eq!(Error::method_not_found("m", None).code, -32601);
    assert_eq!(Error::invalid_params("m", None).code, -32602);
    assert_eq!(Error::internal_error("m", None).code, -32603);
    let e = Error::new(7, "text", Some(value("1")));
    assert_eq!(e, Error { code: 7, message: "text".into(), data: Some(value("1")) });
    assert_eq!(Error::default(), Error { code: 0, message: String::new(), data: None });
    assert_eq!(Request::default(), request("", None, None));
}

#[test]
fn server_error_range_is_closed() {
    assert!(Error::is_server_error(-32099));
    assert!(Error::is_server_error(-32000));
    assert!(Error::is_server_error(-32050));
    assert!(!Error::is_server_error(-32100));
    assert!(!Error::is_server_error(-31999));
    assert!(!Error::is_server_error(0));
}

#[test]
fn array_is_a_batch_of_requests() {
    let b = decode_batched_request(
        br#"[{"jsonrpc":"2.0","method":"a","id":1},{"jsonrpc":"2.0","method":"b"}]"#,
    )
    .unwrap();
    assert_eq!(
        b,
        MaybeBatchedRequest::Batch(vec![
            request("a", None, Some(Id::Number(Number::from(1)))),
            request("b", None, None),
        ])
    );
    assert_eq!(
        encode_batched_request(b),
        br#"[{"jsonrpc":"2.0","method":"a","id":1},{"jsonrpc":"2.0","method":"b"}]"#.to_vec()
    );
    assert_eq!(decode_batched_request(b"[]"), Ok(MaybeBatchedRequest::Batch(vec![])));
    assert_eq!(
        decode_batched_request(br#"{"jsonrpc":"2.0","method":"a"}"#),
        Ok(MaybeBatchedRequest::Single(request("a", None, None)))
    );
}

#[test]
fn first_refused_element_decides_the_error_of_a_batch() {
    assert_eq!(
        decode_batched_request(br#"[{"jsonrpc":"2.0","method":"a"},{"jsonrpc":"2.0"},7]"#),
        Err(DecodeError::Method)
    );
    assert_eq!(
        decode_batched_request(br#"[7,{"jsonrpc":"2.0"}]"#),
        Err(DecodeError::NotAnObject)
    );
    assert_eq!(decode_batched_request(b"7"), Err(DecodeError::NotAnObject));
    assert_eq!(decode_batched_request(b"[7"), Err(DecodeError::Syntax));
}

#[test]
fn array_is_a_batch_of_responses() {
    let text = br#"[{"jsonrpc":"2.0","result":1,"id":1},{"jsonrpc":"2.0","error":{"code":2,"message":"m"},"id":2}]"#;
    let b = decode_batched_response(text).unwrap();
    match &b {
        MaybeBatchedResponse::Batch(rs) => {
            assert_eq!(rs.len(), 2);
            assert_eq!(rs[0].result, Ok(value("1")));
            assert_eq!(rs[1].result, Err(Error::new(2, "m", None)));
        }
        MaybeBatchedResponse::Single(_) => panic!("a batch was expected"),
    }
    assert_eq!(jsonrpcli::batch::encode_batched_response(b), text.to_vec());
    assert_eq!(
        decode_batched_response(br#"[{"jsonrpc":"2.0","id":1}]"#),
        Err(DecodeError::NoResultOrError)
    );
}
