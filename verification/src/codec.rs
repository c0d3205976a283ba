//! Decoding and encoding of requests, responses and error objects.
//!
//! Each direction is first a spec function between [`Json`] documents and the
//! views of the message types; the executable functions are proved to compute
//! exactly those. Optional members are looked up by name in the decoded
//! object, so that an absent member and a member that is `null` stay apart.

use vstd::prelude::*;
use vstd::string::StringSliceAdditionalSpecFns;
use crate::json::Json;
use crate::json::json;
use crate::json::json_i64;
use crate::json::members;
use crate::json::parsed;
use crate::json::rendered;
use crate::json::Num;
use crate::json::object_get;
use crate::json::object_insert;
use crate::json::object_new;
use crate::json::parse_value;
use crate::json::render_value;
use crate::json::value_as_array;
use crate::json::value_as_i64;
use crate::json::value_as_number;
use crate::json::value_as_object;
use crate::json::value_as_text;
use crate::json::value_eq;
use crate::json::value_from_array;
use crate::json::value_from_i64;
use crate::json::value_from_number;
use crate::json::value_from_object;
use crate::json::value_from_text;
use crate::json::value_is_null;
use crate::json::value_null;
use crate::types::Error;
use crate::types::ErrorView;
use crate::types::Id;
use crate::types::IdView;
use crate::types::ParamsView;
use crate::types::Request;
use crate::types::RequestParameters;
use crate::types::RequestView;
use crate::types::Response;
use crate::types::ResponseView;
use crate::types::V2;

verus! {

/// Why a byte string or a document is not the message asked for.
#[derive(Debug, Clone, Copy, PartialEq, Eq)]
pub enum DecodeError {
    /// The bytes are not JSON text.
    Syntax,
    /// The document is not a JSON object.
    NotAnObject,
    /// `jsonrpc` is absent or is not the string "2.0".
    Version,
    /// `method` is absent or is not a string.
    Method,
    /// `params` is present and is neither an array, an object nor null.
    Params,
    /// `id` is not a string, a number or null, or a response has none.
    Id,
    /// A response has both `result` and `error`.
    ResultAndError,
    /// A response has neither `result` nor `error`.
    NoResultOrError,
    /// `code` of an error object is absent or is not a 64-bit integer.
    ErrorCode,
    /// `message` of an error object is absent or is not a string.
    ErrorMessage,
}

impl DecodeError {
    /// The text that describes the error.
    pub open spec fn description(self) -> Seq<char> {
        match self {
            DecodeError::Syntax => "malformed JSON"@,
            DecodeError::NotAnObject => "expected a JSON object"@,
            DecodeError::Version => "`jsonrpc` must be the string \"2.0\""@,
            DecodeError::Method => "`method` must be a string"@,
            DecodeError::Params =>
                "expected an Array of by-position parameters, or an Object of by-name parameters"@,
            DecodeError::Id => "`id` must be a string, a number, or null"@,
            DecodeError::ResultAndError => "only one of error and result may be present"@,
            DecodeError::NoResultOrError => "must have an error or result member"@,
            DecodeError::ErrorCode => "`code` must be a 64-bit integer"@,
            DecodeError::ErrorMessage => "`message` must be a string"@,
        }
    }

    /// A description of the error that names the rule that was broken.
    pub fn message(&self) -> (r: String)
        ensures
            r@ == self.description(),
    {
        match self {
            DecodeError::Syntax => "malformed JSON".to_owned(),
            DecodeError::NotAnObject => "expected a JSON object".to_owned(),
            DecodeError::Version => "`jsonrpc` must be the string \"2.0\"".to_owned(),
            DecodeError::Method => "`method` must be a string".to_owned(),
            DecodeError::Params =>
                "expected an Array of by-position parameters, or an Object of by-name parameters".to_owned(),
            DecodeError::Id => "`id` must be a string, a number, or null".to_owned(),
            DecodeError::ResultAndError => "only one of error and result may be present".to_owned(),
            DecodeError::NoResultOrError => "must have an error or result member".to_owned(),
            DecodeError::ErrorCode => "`code` must be a 64-bit integer".to_owned(),
            DecodeError::ErrorMessage => "`message` must be a string".to_owned(),
        }
    }
}

/// The member of that name, if the object has one.
pub open spec fn field(m: Map<Seq<char>, Json>, name: Seq<char>) -> Option<Json> {
    if m.contains_key(name) {
        Some(m[name])
    } else {
        None
    }
}

/// The object with the member added, where there is one to add.
pub open spec fn with_field(m: Map<Seq<char>, Json>, name: Seq<char>, v: Option<Json>) -> Map<
    Seq<char>,
    Json,
> {
    match v {
        Some(j) => m.insert(name, j),
        None => m,
    }
}

/// Whether the object carries the version member `"jsonrpc": "2.0"`.
pub open spec fn has_version(m: Map<Seq<char>, Json>) -> bool {
    field(m, "jsonrpc"@) == Some(Json::Text("2.0"@))
}

/// The identifier that a document denotes: a string, a number or null.
pub open spec fn id_of_json(j: Json) -> Result<IdView, DecodeError> {
    match j {
        Json::Null => Ok(IdView::Null),
        Json::Text(s) => Ok(IdView::Text(s)),
        Json::Number(n) => Ok(IdView::Number(n)),
        _ => Err(DecodeError::Id),
    }
}

/// The document for an identifier.
pub open spec fn json_of_id(id: IdView) -> Json {
    match id {
        IdView::Null => Json::Null,
        IdView::Text(s) => Json::Text(s),
        IdView::Number(n) => Json::Number(n),
    }
}

/// The parameters that a present `params` member denotes: an array gives
/// parameters by position, an object parameters by name, null none at all.
pub open spec fn params_of_json(j: Json) -> Result<Option<ParamsView>, DecodeError> {
    match j {
        Json::Null => Ok(None),
        Json::Array(items) => Ok(Some(ParamsView::ByPosition(items))),
        Json::Object(m) => Ok(Some(ParamsView::ByName(m))),
        _ => Err(DecodeError::Params),
    }
}

/// The document for parameters.
pub open spec fn json_of_params(p: ParamsView) -> Json {
    match p {
        ParamsView::ByPosition(items) => Json::Array(items),
        ParamsView::ByName(m) => Json::Object(m),
    }
}

/// The parameters of a request object: none where `params` is absent.
pub open spec fn params_of_object(m: Map<Seq<char>, Json>) -> Result<
    Option<ParamsView>,
    DecodeError,
> {
    match field(m, "params"@) {
        Some(j) => params_of_json(j),
        None => Ok(None),
    }
}

/// The identifier of a request object: none where `id` is absent, the null
/// identifier where it is null.
pub open spec fn id_of_object(m: Map<Seq<char>, Json>) -> Result<Option<IdView>, DecodeError> {
    match field(m, "id"@) {
        Some(j) => match id_of_json(j) {
            Ok(id) => Ok(Some(id)),
            Err(e) => Err(e),
        },
        None => Ok(None),
    }
}

/// The request that a document denotes.
pub open spec fn request_of_json(j: Json) -> Result<RequestView, DecodeError> {
    match j {
        Json::Object(m) => if !has_version(m) {
            Err(DecodeError::Version)
        } else {
            match field(m, "method"@) {
                Some(Json::Text(method)) => match params_of_object(m) {
                    Ok(params) => match id_of_object(m) {
                        Ok(id) => Ok(RequestView { method, params, id }),
                        Err(e) => Err(e),
                    },
                    Err(e) => Err(e),
                },
                _ => Err(DecodeError::Method),
            }
        },
        _ => Err(DecodeError::NotAnObject),
    }
}

/// The document for a request: `jsonrpc` and `method`, then `params` and
/// `id` where the request has them.
pub open spec fn json_of_request(r: RequestView) -> Json {
    let base = Map::<Seq<char>, Json>::empty().insert("jsonrpc"@, Json::Text("2.0"@)).insert(
        "method"@,
        Json::Text(r.method),
    );
    let params = match r.params {
        Some(p) => Some(json_of_params(p)),
        None => None,
    };
    let id = match r.id {
        Some(i) => Some(json_of_id(i)),
        None => None,
    };
    Json::Object(with_field(with_field(base, "params"@, params), "id"@, id))
}

/// The error object that a document denotes. A `data` member that is null
/// is kept as null; an absent one is absent.
pub open spec fn error_of_json(j: Json) -> Result<ErrorView, DecodeError> {
    match j {
        Json::Object(m) => match field(m, "code"@) {
            Some(c) => match json_i64(c) {
                Some(code) => match field(m, "message"@) {
                    Some(Json::Text(message)) => Ok(
                        ErrorView { code, message, data: field(m, "data"@) },
                    ),
                    _ => Err(DecodeError::ErrorMessage),
                },
                None => Err(DecodeError::ErrorCode),
            },
            None => Err(DecodeError::ErrorCode),
        },
        _ => Err(DecodeError::NotAnObject),
    }
}

/// The document for an error object.
pub open spec fn json_of_error(e: ErrorView) -> Json {
    let base = Map::<Seq<char>, Json>::empty().insert(
        "code"@,
        Json::Number(Num::Int(e.code as int)),
    ).insert("message"@, Json::Text(e.message));
    Json::Object(with_field(base, "data"@, e.data))
}

/// The response that a document denotes. `result` and `error` are looked up
/// each for itself; exactly one of them has to be there.
pub open spec fn response_of_json(j: Json) -> Result<ResponseView, DecodeError> {
    match j {
        Json::Object(m) => if !has_version(m) {
            Err(DecodeError::Version)
        } else {
            match (field(m, "result"@), field(m, "error"@)) {
                (Some(_), Some(_)) => Err(DecodeError::ResultAndError),
                (None, None) => Err(DecodeError::NoResultOrError),
                (Some(value), None) => match response_id(m) {
                    Ok(id) => Ok(ResponseView { result: Ok(value), id }),
                    Err(e) => Err(e),
                },
                (None, Some(error)) => match response_id(m) {
                    Ok(id) => match error_of_json(error) {
                        Ok(err) => Ok(ResponseView { result: Err(err), id }),
                        Err(e) => Err(e),
                    },
                    Err(e) => Err(e),
                },
            }
        },
        _ => Err(DecodeError::NotAnObject),
    }
}

/// The identifier of a response object, which has to be there.
pub open spec fn response_id(m: Map<Seq<char>, Json>) -> Result<IdView, DecodeError> {
    match field(m, "id"@) {
        Some(j) => id_of_json(j),
        None => Err(DecodeError::Id),
    }
}

/// The document for a response: `result` for a success, `error` for an
/// error, never both.
pub open spec fn json_of_response(r: ResponseView) -> Json {
    let base = Map::<Seq<char>, Json>::empty().insert("jsonrpc"@, Json::Text("2.0"@));
    let body = match r.result {
        Ok(value) => base.insert("result"@, value),
        Err(e) => base.insert("error"@, json_of_error(e)),
    };
    Json::Object(body.insert("id"@, json_of_id(r.id)))
}

/// What a decoded identifier holds.
pub open spec fn id_outcome(r: Result<Id, DecodeError>) -> Result<IdView, DecodeError> {
    match r {
        Ok(x) => Ok(x@),
        Err(e) => Err(e),
    }
}

/// What decoded parameters hold.
pub open spec fn params_outcome(r: Result<Option<RequestParameters>, DecodeError>) -> Result<
    Option<ParamsView>,
    DecodeError,
> {
    match r {
        Ok(Some(p)) => Ok(Some(p@)),
        Ok(None) => Ok(None),
        Err(e) => Err(e),
    }
}

/// What a decoded request holds.
pub open spec fn request_outcome(r: Result<Request, DecodeError>) -> Result<
    RequestView,
    DecodeError,
> {
    match r {
        Ok(x) => Ok(x@),
        Err(e) => Err(e),
    }
}

/// What a decoded error object holds.
pub open spec fn error_outcome(r: Result<Error, DecodeError>) -> Result<ErrorView, DecodeError> {
    match r {
        Ok(x) => Ok(x@),
        Err(e) => Err(e),
    }
}

/// What a decoded response holds.
pub open spec fn response_outcome(r: Result<Response, DecodeError>) -> Result<
    ResponseView,
    DecodeError,
> {
    match r {
        Ok(x) => Ok(x@),
        Err(e) => Err(e),
    }
}

impl Id {
    /// Reads an identifier from a value by its shape.
    pub fn from_value(v: &serde_json::Value) -> (r: Result<Id, DecodeError>)
        ensures
            id_outcome(r) == id_of_json(json(*v)),
    {
        if value_is_null(v) {
            return Ok(Id::Null);
        }
        match value_as_text(v) {
            Some(s) => {
                return Ok(Id::String(s));
            },
            None => {},
        }
        match value_as_number(v) {
            Some(n) => Ok(Id::Number(n)),
            None => Err(DecodeError::Id),
        }
    }

    /// The value for an identifier.
    pub fn into_value(self) -> (r: serde_json::Value)
        ensures
            json(r) == json_of_id(self@),
    {
        match self {
            Id::Null => value_null(),
            Id::String(s) => value_from_text(s),
            Id::Number(n) => value_from_number(n),
        }
    }
}

/// What a string denotes as an identifier.
pub open spec fn id_of_bytes(bytes: Seq<u8>) -> Result<IdView, DecodeError> {
    match parsed(bytes) {
        Some(j) => id_of_json(j),
        None => Err(DecodeError::Syntax),
    }
}

/// The document from which the parameters of a request are read into a
/// type of the caller's: an array for parameters by position, an object for
/// parameters by name, null for none.
pub open spec fn params_document(r: RequestView) -> Json {
    match r.params {
        Some(p) => json_of_params(p),
        None => Json::Null,
    }
}

impl Id {
    /// Reads an identifier from JSON text.
    pub fn from_text(s: &str) -> (r: Result<Id, DecodeError>)
        ensures
            id_outcome(r) == id_of_bytes(s.spec_bytes()),
    {
        match parse_value(s.as_bytes()) {
            Some(v) => Id::from_value(&v),
            None => Err(DecodeError::Syntax),
        }
    }
}

impl RequestParameters {
    /// Reads the value of a `params` member by its shape.
    pub fn from_value(v: &serde_json::Value) -> (r: Result<Option<RequestParameters>, DecodeError>)
        ensures
            params_outcome(r) == params_of_json(json(*v)),
    {
        if value_is_null(v) {
            return Ok(None);
        }
        match value_as_array(v) {
            Some(items) => {
                return Ok(Some(RequestParameters::ByPosition(items)));
            },
            None => {},
        }
        match value_as_object(v) {
            Some(m) => Ok(Some(RequestParameters::ByName(m))),
            None => Err(DecodeError::Params),
        }
    }

    /// The value for parameters: an array or an object.
    pub fn into_value(self) -> (r: serde_json::Value)
        ensures
            json(r) == json_of_params(self@),
    {
        match self {
            RequestParameters::ByPosition(items) => value_from_array(items),
            RequestParameters::ByName(m) => value_from_object(m),
        }
    }
}

impl V2 {
    /// Reads the version marker: the string "2.0" and nothing else.
    pub fn from_value(v: &serde_json::Value) -> (r: Result<V2, DecodeError>)
        ensures
            r == if json(*v) == Json::Text("2.0"@) {
                Ok::<V2, DecodeError>(V2)
            } else {
                Err::<V2, DecodeError>(DecodeError::Version)
            },
    {
        let expected = value_from_text("2.0".to_owned());
        if value_eq(v, &expected) {
            Ok(V2)
        } else {
            Err(DecodeError::Version)
        }
    }

    /// The value for the version marker: the string "2.0".
    pub fn into_value(self) -> (r: serde_json::Value)
        ensures
            json(r) == Json::Text("2.0"@),
    {
        value_from_text("2.0".to_owned())
    }
}

/// Whether the object carries the version member with the value "2.0".
fn check_version(m: &serde_json::Map<String, serde_json::Value>) -> (r: bool)
    ensures
        r == has_version(members(*m)),
{
    match object_get(m, "jsonrpc") {
        Some(v) => V2::from_value(&v).is_ok(),
        None => false,
    }
}

impl Request {
    /// Reads a request from a value.
    pub fn from_value(v: &serde_json::Value) -> (r: Result<Request, DecodeError>)
        ensures
            request_outcome(r) == request_of_json(json(*v)),
    {
        let m = match value_as_object(v) {
            Some(m) => m,
            None => {
                return Err(DecodeError::NotAnObject);
            },
        };
        if !check_version(&m) {
            return Err(DecodeError::Version);
        }
        let method = match object_get(&m, "method") {
            Some(j) => match value_as_text(&j) {
                Some(s) => s,
                None => {
                    return Err(DecodeError::Method);
                },
            },
            None => {
                return Err(DecodeError::Method);
            },
        };
        let params = match object_get(&m, "params") {
            Some(j) => match RequestParameters::from_value(&j) {
                Ok(p) => p,
                Err(e) => {
                    return Err(e);
                },
            },
            None => None,
        };
        let id = match object_get(&m, "id") {
            Some(j) => match Id::from_value(&j) {
                Ok(i) => Some(i),
                Err(e) => {
                    return Err(e);
                },
            },
            None => None,
        };
        Ok(Request { jsonrpc: V2, method, params, id })
    }

    /// Hands out the parameters as the value from which a type of the
    /// caller's is read: a sequence, a map, or the unit value.
    pub fn deserialize_params(self) -> (r: serde_json::Value)
        ensures
            json(r) == params_document(self@),
    {
        match self.params {
            Some(p) => p.into_value(),
            None => value_null(),
        }
    }

    /// The value for a request.
    pub fn into_value(self) -> (r: serde_json::Value)
        ensures
            json(r) == json_of_request(self@),
    {
        let mut m = object_new();
        object_insert(&mut m, "jsonrpc", self.jsonrpc.into_value());
        object_insert(&mut m, "method", value_from_text(self.method));
        match self.params {
            Some(p) => {
                object_insert(&mut m, "params", p.into_value());
            },
            None => {},
        }
        match self.id {
            Some(i) => {
                object_insert(&mut m, "id", i.into_value());
            },
            None => {},
        }
        value_from_object(m)
    }
}

impl Error {
    /// Reads an error object from a value.
    pub fn from_value(v: &serde_json::Value) -> (r: Result<Error, DecodeError>)
        ensures
            error_outcome(r) == error_of_json(json(*v)),
    {
        let m = match value_as_object(v) {
            Some(m) => m,
            None => {
                return Err(DecodeError::NotAnObject);
            },
        };
        let code = match object_get(&m, "code") {
            Some(j) => match value_as_i64(&j) {
                Some(c) => c,
                None => {
                    return Err(DecodeError::ErrorCode);
                },
            },
            None => {
                return Err(DecodeError::ErrorCode);
            },
        };
        let message = match object_get(&m, "message") {
            Some(j) => match value_as_text(&j) {
                Some(s) => s,
                None => {
                    return Err(DecodeError::ErrorMessage);
                },
            },
            None => {
                return Err(DecodeError::ErrorMessage);
            },
        };
        let data = object_get(&m, "data");
        Ok(Error { code, message, data })
    }

    /// The value for an error object.
    pub fn into_value(self) -> (r: serde_json::Value)
        ensures
            json(r) == json_of_error(self@),
    {
        let mut m = object_new();
        object_insert(&mut m, "code", value_from_i64(self.code));
        object_insert(&mut m, "message", value_from_text(self.message));
        match self.data {
            Some(d) => {
                object_insert(&mut m, "data", d);
            },
            None => {},
        }
        value_from_object(m)
    }
}

impl Response {
    /// Reads a response from a value.
    pub fn from_value(v: &serde_json::Value) -> (r: Result<Response, DecodeError>)
        ensures
            response_outcome(r) == response_of_json(json(*v)),
    {
        let m = match value_as_object(v) {
            Some(m) => m,
            None => {
                return Err(DecodeError::NotAnObject);
            },
        };
        if !check_version(&m) {
            return Err(DecodeError::Version);
        }
        let result = object_get(&m, "result");
        let error = object_get(&m, "error");
        match (result, error) {
            (Some(_), Some(_)) => Err(DecodeError::ResultAndError),
            (None, None) => Err(DecodeError::NoResultOrError),
            (Some(value), None) => {
                let id = match object_get(&m, "id") {
                    Some(j) => match Id::from_value(&j) {
                        Ok(i) => i,
                        Err(e) => {
                            return Err(e);
                        },
                    },
                    None => {
                        return Err(DecodeError::Id);
                    },
                };
                Ok(Response { jsonrpc: V2, result: Ok(value), id })
            },
            (None, Some(error)) => {
                let id = match object_get(&m, "id") {
                    Some(j) => match Id::from_value(&j) {
                        Ok(i) => i,
                        Err(e) => {
                            return Err(e);
                        },
                    },
                    None => {
                        return Err(DecodeError::Id);
                    },
                };
                match Error::from_value(&error) {
                    Ok(err) => Ok(Response { jsonrpc: V2, result: Err(err), id }),
                    Err(e) => Err(e),
                }
            },
        }
    }

    /// The value for a response.
    pub fn into_value(self) -> (r: serde_json::Value)
        ensures
            json(r) == json_of_response(self@),
    {
        let mut m = object_new();
        object_insert(&mut m, "jsonrpc", self.jsonrpc.into_value());
        match self.result {
            Ok(value) => {
                object_insert(&mut m, "result", value);
            },
            Err(e) => {
                object_insert(&mut m, "error", e.into_value());
            },
        }
        object_insert(&mut m, "id", self.id.into_value());
        value_from_object(m)
    }
}

/// What a byte string denotes as a request: a syntax error where the bytes
/// are not JSON text, else what the document they hold denotes.
pub open spec fn request_of_bytes(bytes: Seq<u8>) -> Result<RequestView, DecodeError> {
    match parsed(bytes) {
        Some(j) => request_of_json(j),
        None => Err(DecodeError::Syntax),
    }
}

/// What a byte string denotes as a response.
pub open spec fn response_of_bytes(bytes: Seq<u8>) -> Result<ResponseView, DecodeError> {
    match parsed(bytes) {
        Some(j) => response_of_json(j),
        None => Err(DecodeError::Syntax),
    }
}

/// Decodes one request from JSON text.
pub fn decode_request(bytes: &[u8]) -> (r: Result<Request, DecodeError>)
    ensures
        request_outcome(r) == request_of_bytes(bytes@),
{
    match parse_value(bytes) {
        Some(v) => Request::from_value(&v),
        None => Err(DecodeError::Syntax),
    }
}

/// Decodes one response from JSON text.
pub fn decode_response(bytes: &[u8]) -> (r: Result<Response, DecodeError>)
    ensures
        response_outcome(r) == response_of_bytes(bytes@),
{
    match parse_value(bytes) {
        Some(v) => Response::from_value(&v),
        None => Err(DecodeError::Syntax),
    }
}

/// Encodes a request as compact JSON text: the text of a value that holds
/// the request's document.
pub fn encode_request(request: Request) -> (r: Vec<u8>)
    ensures
        exists|v: serde_json::Value|
            json(v) == json_of_request(request@) && r@ == #[trigger] rendered(v),
{
    let v = request.into_value();
    render_value(&v)
}

/// Encodes a response as compact JSON text: the text of a value that holds
/// the response's document.
pub fn encode_response(response: Response) -> (r: Vec<u8>)
    ensures
        exists|v: serde_json::Value|
            json(v) == json_of_response(response@) && r@ == #[trigger] rendered(v),
{
    let v = response.into_value();
    render_value(&v)
}

} // verus!
