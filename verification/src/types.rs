//! The JSON-RPC 2.0 message types and their mathematical views.

use vstd::prelude::*;
use crate::json::Json;
use crate::json::json;
use crate::json::jsons;
use crate::json::members;
use crate::json::num;
use crate::json::Num;

verus! {

/// A witness of the protocol version string "2.0".
#[derive(Debug, Clone, Copy, PartialEq, Eq, PartialOrd, Ord, Hash, Default)]
pub struct V2;

/// A request identifier: a string, a number, or null.
#[derive(Debug, Clone, PartialEq, Eq, Hash)]
pub enum Id {
    String(String),
    Number(serde_json::Number),
    Null,
}

/// What an [`Id`] holds.
pub enum IdView {
    Text(Seq<char>),
    Number(Num),
    Null,
}

impl View for Id {
    type V = IdView;

    open spec fn view(&self) -> IdView {
        match self {
            Id::String(s) => IdView::Text(s@),
            Id::Number(n) => IdView::Number(num(*n)),
            Id::Null => IdView::Null,
        }
    }
}

impl Default for Id {
    fn default() -> (r: Id)
        ensures
            r == Id::Null,
    {
        Id::Null
    }
}

/// The parameters of a call: an ordered list, or members by name.
#[derive(Debug, Clone, PartialEq, Eq)]
pub enum RequestParameters {
    ByPosition(Vec<serde_json::Value>),
    ByName(serde_json::Map<String, serde_json::Value>),
}

/// What a [`RequestParameters`] holds.
pub enum ParamsView {
    ByPosition(Seq<Json>),
    ByName(Map<Seq<char>, Json>),
}

impl View for RequestParameters {
    type V = ParamsView;

    open spec fn view(&self) -> ParamsView {
        match self {
            RequestParameters::ByPosition(items) => ParamsView::ByPosition(jsons(items@)),
            RequestParameters::ByName(m) => ParamsView::ByName(members(*m)),
        }
    }
}

/// A JSON-RPC error object.
#[derive(Debug, Clone, PartialEq, Eq)]
pub struct Error {
    pub code: i64,
    pub message: String,
    pub data: Option<serde_json::Value>,
}

/// What an [`Error`] holds.
pub struct ErrorView {
    pub code: i64,
    pub message: Seq<char>,
    pub data: Option<Json>,
}

impl View for Error {
    type V = ErrorView;

    open spec fn view(&self) -> ErrorView {
        ErrorView {
            code: self.code,
            message: self.message@,
            data: match self.data {
                Some(v) => Some(json(v)),
                None => None,
            },
        }
    }
}

/// A JSON-RPC request object. Without an `id` it is a notification.
#[derive(Debug, Clone, PartialEq, Eq)]
pub struct Request {
    pub jsonrpc: V2,
    pub method: String,
    pub params: Option<RequestParameters>,
    pub id: Option<Id>,
}

/// What a [`Request`] holds.
pub struct RequestView {
    pub method: Seq<char>,
    pub params: Option<ParamsView>,
    pub id: Option<IdView>,
}

impl View for Request {
    type V = RequestView;

    open spec fn view(&self) -> RequestView {
        RequestView {
            method: self.method@,
            params: match self.params {
                Some(p) => Some(p@),
                None => None,
            },
            id: match self.id {
                Some(i) => Some(i@),
                None => None,
            },
        }
    }
}

/// A JSON-RPC response object: a success value or an error, and the id of
/// the request it answers.
#[derive(Debug, Clone, PartialEq, Eq)]
pub struct Response {
    pub jsonrpc: V2,
    pub result: Result<serde_json::Value, Error>,
    pub id: Id,
}

/// What a [`Response`] holds.
pub struct ResponseView {
    pub result: Result<Json, ErrorView>,
    pub id: IdView,
}

impl View for Response {
    type V = ResponseView;

    open spec fn view(&self) -> ResponseView {
        ResponseView {
            result: match self.result {
                Ok(v) => Ok(json(v)),
                Err(e) => Err(e@),
            },
            id: self.id@,
        }
    }
}

/// One request, or a batch of them.
#[derive(Debug, Clone, PartialEq, Eq)]
pub enum MaybeBatchedRequest {
    Single(Request),
    Batch(Vec<Request>),
}

/// One response, or a batch of them.
#[derive(Debug, Clone, PartialEq, Eq)]
pub enum MaybeBatchedResponse {
    Single(Response),
    Batch(Vec<Response>),
}

impl Default for Request {
    /// A notification with an empty method name and no parameters.
    fn default() -> (r: Request)
        ensures
            r@ == (RequestView { method: Seq::empty(), params: None, id: None }),
    {
        Request { jsonrpc: V2, method: String::new(), params: None, id: None }
    }
}

impl Default for Error {
    /// The error object with code 0, an empty message and no data.
    fn default() -> (r: Error)
        ensures
            r@ == (ErrorView { code: 0, message: Seq::empty(), data: None }),
    {
        Error { code: 0, message: String::new(), data: None }
    }
}

impl Default for Response {
    /// The success response with the value null and the null identifier.
    fn default() -> (r: Response)
        ensures
            r@ == (ResponseView { result: Ok(Json::Null), id: IdView::Null }),
    {
        Response { jsonrpc: V2, result: Ok(crate::json::value_null()), id: Id::Null }
    }
}

impl Error {
    /// Invalid JSON was received by the server.
    pub const PARSE_ERROR: i64 = -32700;

    /// The JSON sent is not a valid request object.
    pub const INVALID_REQUEST: i64 = -32600;

    /// The method does not exist or is not available.
    pub const METHOD_NOT_FOUND: i64 = -32601;

    /// Invalid method parameters.
    pub const INVALID_PARAMS: i64 = -32602;

    /// Internal JSON-RPC error.
    pub const INTERNAL_ERROR: i64 = -32603;

    /// The first code of the range kept for server errors that an
    /// implementation defines.
    pub const SERVER_ERROR_FIRST: i64 = -32099;

    /// The last code of that range.
    pub const SERVER_ERROR_LAST: i64 = -32000;

    /// The error object with that code, message and data.
    pub fn new(code: i64, message: &str, data: Option<serde_json::Value>) -> (r: Error)
        ensures
            r.code == code,
            r.message@ == message@,
            r.data == data,
    {
        Error { code, message: message.to_owned(), data }
    }

    /// An error object with the code -32700.
    pub fn parse_error(message: &str, data: Option<serde_json::Value>) -> (r: Error)
        ensures
            r.code == -32700,
            r.message@ == message@,
            r.data == data,
    {
        Error::new(Error::PARSE_ERROR, message, data)
    }

    /// An error object with the code -32600.
    pub fn invalid_request(message: &str, data: Option<serde_json::Value>) -> (r: Error)
        ensures
            r.code == -32600,
            r.message@ == message@,
            r.data == data,
    {
        Error::new(Error::INVALID_REQUEST, message, data)
    }

    /// An error object with the code -32601.
    pub fn method_not_found(message: &str, data: Option<serde_json::Value>) -> (r: Error)
        ensures
            r.code == -32601,
            r.message@ == message@,
            r.data == data,
    {
        Error::new(Error::METHOD_NOT_FOUND, message, data)
    }

    /// An error object with the code -32602.
    pub fn invalid_params(message: &str, data: Option<serde_json::Value>) -> (r: Error)
        ensures
            r.code == -32602,
            r.message@ == message@,
            r.data == data,
    {
        Error::new(Error::INVALID_PARAMS, message, data)
    }

    /// An error object with the code -32603.
    pub fn internal_error(message: &str, data: Option<serde_json::Value>) -> (r: Error)
        ensures
            r.code == -32603,
            r.message@ == message@,
            r.data == data,
    {
        Error::new(Error::INTERNAL_ERROR, message, data)
    }

    /// Whether a code lies in the range kept for server errors that an
    /// implementation defines.
    pub fn is_server_error(code: i64) -> (r: bool)
        ensures
            r == (-32099 <= code <= -32000),
    {
        Error::SERVER_ERROR_FIRST <= code && code <= Error::SERVER_ERROR_LAST
    }
}

impl Request {
    /// Whether the request is a notification: one that carries no `id`.
    pub fn is_notification(&self) -> (r: bool)
        ensures
            r == (self@.id is None),
    {
        self.id.is_none()
    }
}

impl RequestParameters {
    /// The number of parameters.
    pub fn len(&self) -> (r: usize)
        ensures
            r == match self@ {
                ParamsView::ByPosition(items) => items.len(),
                ParamsView::ByName(m) => m.dom().len(),
            },
    {
        match self {
            RequestParameters::ByPosition(items) => items.len(),
            RequestParameters::ByName(m) => crate::json::object_len(m),
        }
    }

    /// Whether there are no parameters.
    pub fn is_empty(&self) -> (r: bool)
        ensures
            r == match self@ {
                ParamsView::ByPosition(items) => items.len() == 0,
                ParamsView::ByName(m) => m.dom().len() == 0,
            },
    {
        self.len() == 0
    }
}

} // verus!
