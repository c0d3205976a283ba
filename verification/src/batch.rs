//! Batches: a message on the wire is one object or an array of them.
//!
//! An array is decoded element by element, and the first element that is
//! refused decides the error; anything else is decoded as a single message.

use vstd::prelude::*;
use crate::codec::json_of_request;
use crate::codec::json_of_response;
use crate::codec::request_of_json;
use crate::codec::response_of_json;
use crate::codec::DecodeError;
use crate::json::Json;
use crate::json::json;
use crate::json::jsons;
use crate::json::parsed;
use crate::json::rendered;
use crate::json::parse_value;
use crate::json::render_value;
use crate::json::value_as_array;
use crate::json::value_from_array;
use crate::laws::lemma_request_round_trip;
use crate::laws::lemma_response_round_trip;
use crate::types::MaybeBatchedRequest;
use crate::types::MaybeBatchedResponse;
use crate::types::Request;
use crate::types::RequestView;
use crate::types::Response;
use crate::types::ResponseView;

verus! {

/// What a [`MaybeBatchedRequest`] holds.
pub enum BatchedRequestView {
    Single(RequestView),
    Batch(Seq<RequestView>),
}

/// The requests held by a sequence, in order.
pub open spec fn request_views(items: Seq<Request>) -> Seq<RequestView> {
    items.map_values(|r: Request| r@)
}

impl View for MaybeBatchedRequest {
    type V = BatchedRequestView;

    open spec fn view(&self) -> BatchedRequestView {
        match self {
            MaybeBatchedRequest::Single(r) => BatchedRequestView::Single(r@),
            MaybeBatchedRequest::Batch(rs) => BatchedRequestView::Batch(request_views(rs@)),
        }
    }
}

/// The requests that the elements of an array denote, in order; where some
/// element is refused, the error of the first such element.
pub open spec fn requests_of_jsons(items: Seq<Json>) -> Result<Seq<RequestView>, DecodeError>
    decreases items.len(),
{
    if items.len() == 0 {
        Ok(Seq::empty())
    } else {
        match requests_of_jsons(items.drop_last()) {
            Ok(rs) => match request_of_json(items.last()) {
                Ok(r) => Ok(rs.push(r)),
                Err(e) => Err(e),
            },
            Err(e) => Err(e),
        }
    }
}

/// The request or batch of requests that a document denotes.
pub open spec fn batched_request_of_json(j: Json) -> Result<BatchedRequestView, DecodeError> {
    match j {
        Json::Array(items) => match requests_of_jsons(items) {
            Ok(rs) => Ok(BatchedRequestView::Batch(rs)),
            Err(e) => Err(e),
        },
        _ => match request_of_json(j) {
            Ok(r) => Ok(BatchedRequestView::Single(r)),
            Err(e) => Err(e),
        },
    }
}

/// The document for a request or a batch of requests.
pub open spec fn json_of_batched_request(b: BatchedRequestView) -> Json {
    match b {
        BatchedRequestView::Single(r) => json_of_request(r),
        BatchedRequestView::Batch(rs) => Json::Array(rs.map_values(|r: RequestView| json_of_request(r))),
    }
}

/// What a byte string denotes as a request or a batch of requests.
pub open spec fn batched_request_of_bytes(bytes: Seq<u8>) -> Result<BatchedRequestView, DecodeError> {
    match parsed(bytes) {
        Some(j) => batched_request_of_json(j),
        None => Err(DecodeError::Syntax),
    }
}

/// What a decoded request or batch holds.
pub open spec fn batched_request_outcome(r: Result<MaybeBatchedRequest, DecodeError>) -> Result<
    BatchedRequestView,
    DecodeError,
> {
    match r {
        Ok(x) => Ok(x@),
        Err(e) => Err(e),
    }
}

/// An error among the first elements of an array is the error of the whole
/// array.
pub proof fn lemma_request_error_in_prefix(items: Seq<Json>, n: int, e: DecodeError)
    requires
        0 <= n <= items.len(),
        requests_of_jsons(items.subrange(0, n)) == Err::<Seq<RequestView>, DecodeError>(e),
    ensures
        requests_of_jsons(items) == Err::<Seq<RequestView>, DecodeError>(e),
    decreases items.len() - n,
{
    if n == items.len() {
        assert(items.subrange(0, n) =~= items);
    } else {
        assert(items.drop_last().subrange(0, n) =~= items.subrange(0, n));
        lemma_request_error_in_prefix(items.drop_last(), n, e);
    }
}

/// Decoding the documents of a sequence of requests gives the requests
/// back.
pub proof fn lemma_requests_round_trip(rs: Seq<RequestView>)
    ensures
        requests_of_jsons(rs.map_values(|r: RequestView| json_of_request(r))) == Ok::<
            Seq<RequestView>,
            DecodeError,
        >(rs),
    decreases rs.len(),
{
    let items = rs.map_values(|r: RequestView| json_of_request(r));
    if rs.len() == 0 {
        assert(rs =~= Seq::empty());
    } else {
        lemma_requests_round_trip(rs.drop_last());
        assert(items.drop_last() =~= rs.drop_last().map_values(|r: RequestView| json_of_request(r)));
        lemma_request_round_trip(rs.last());
        assert(rs.drop_last().push(rs.last()) =~= rs);
    }
}

/// Decoding the document of a request or of a batch of requests gives it
/// back.
pub proof fn lemma_batched_request_round_trip(b: BatchedRequestView)
    ensures
        batched_request_of_json(json_of_batched_request(b)) == Ok::<BatchedRequestView, DecodeError>(b),
{
    match b {
        BatchedRequestView::Single(r) => {
            lemma_request_round_trip(r);
        },
        BatchedRequestView::Batch(rs) => {
            lemma_requests_round_trip(rs);
        },
    }
}

/// The values for a sequence of requests, in order.
fn requests_into_values(rs: Vec<Request>) -> (r: Vec<serde_json::Value>)
    ensures
        jsons(r@) == request_views(rs@).map_values(|r: RequestView| json_of_request(r)),
{
    let ghost all = rs@;
    let mut rest = rs;
    let mut stack: Vec<serde_json::Value> = Vec::new();
    while rest.len() > 0
        invariant
            rest@.len() + stack@.len() == all.len(),
            rest@ == all.subrange(0, rest@.len() as int),
            forall|k: int|
                0 <= k < stack@.len() ==> json(#[trigger] stack@[k]) == json_of_request(
                    all[all.len() - 1 - k]@,
                ),
        decreases rest@.len(),
    {
        let x = rest.pop().unwrap();
        stack.push(x.into_value());
    }
    let ghost turned = stack@;
    let mut out: Vec<serde_json::Value> = Vec::new();
    while stack.len() > 0
        invariant
            turned.len() == all.len(),
            stack@.len() + out@.len() == turned.len(),
            stack@ == turned.subrange(0, stack@.len() as int),
            forall|k: int| 0 <= k < out@.len() ==> #[trigger] out@[k] == turned[turned.len() - 1 - k],
            forall|k: int|
                0 <= k < turned.len() ==> json(#[trigger] turned[k]) == json_of_request(
                    all[all.len() - 1 - k]@,
                ),
        decreases stack@.len(),
    {
        let v = stack.pop().unwrap();
        out.push(v);
    }
    assert(jsons(out@) =~= request_views(all).map_values(|r: RequestView| json_of_request(r)));
    out
}

impl MaybeBatchedRequest {
    /// Reads a request or a batch of requests from a value.
    pub fn from_value(v: &serde_json::Value) -> (r: Result<MaybeBatchedRequest, DecodeError>)
        ensures
            batched_request_outcome(r) == batched_request_of_json(json(*v)),
    {
        match value_as_array(v) {
            Some(items) => {
                let ghost all = jsons(items@);
                let mut out: Vec<Request> = Vec::new();
                let mut i: usize = 0;
                proof {
                    assert(request_views(out@) =~= Seq::empty());
                    assert(all.subrange(0, 0).len() == 0);
                }
                while i < items.len()
                    invariant
                        all == jsons(items@),
                        json(*v) == Json::Array(all),
                        i <= items.len(),
                        requests_of_jsons(all.subrange(0, i as int)) == Ok::<
                            Seq<RequestView>,
                            DecodeError,
                        >(request_views(out@)),
                    decreases items.len() - i,
                {
                    proof {
                        assert(all.subrange(0, i + 1).drop_last() =~= all.subrange(0, i as int));
                        assert(all.subrange(0, i + 1).last() == json(items@[i as int]));
                    }
                    match Request::from_value(&items[i]) {
                        Ok(x) => {
                            proof {
                                assert(request_views(out@.push(x)) =~= request_views(out@).push(x@));
                            }
                            out.push(x);
                        },
                        Err(e) => {
                            proof {
                                assert(requests_of_jsons(all.subrange(0, i + 1)) == Err::<
                                    Seq<RequestView>,
                                    DecodeError,
                                >(e));
                                lemma_request_error_in_prefix(all, i + 1, e);
                            }
                            return Err(e);
                        },
                    }
                    i = i + 1;
                }
                proof {
                    assert(all.subrange(0, i as int) =~= all);
                }
                Ok(MaybeBatchedRequest::Batch(out))
            },
            None => match Request::from_value(v) {
                Ok(x) => Ok(MaybeBatchedRequest::Single(x)),
                Err(e) => Err(e),
            },
        }
    }

    /// The value for a request or a batch of requests.
    pub fn into_value(self) -> (r: serde_json::Value)
        ensures
            json(r) == json_of_batched_request(self@),
    {
        match self {
            MaybeBatchedRequest::Single(x) => x.into_value(),
            MaybeBatchedRequest::Batch(rs) => value_from_array(requests_into_values(rs)),
        }
    }
}

/// Decodes a request or a batch of requests from JSON text.
pub fn decode_batched_request(bytes: &[u8]) -> (r: Result<MaybeBatchedRequest, DecodeError>)
    ensures
        batched_request_outcome(r) == batched_request_of_bytes(bytes@),
{
    match parse_value(bytes) {
        Some(v) => MaybeBatchedRequest::from_value(&v),
        None => Err(DecodeError::Syntax),
    }
}

/// Encodes a request or a batch of requests as compact JSON text: the text
/// of a value that holds its document.
pub fn encode_batched_request(batch: MaybeBatchedRequest) -> (r: Vec<u8>)
    ensures
        exists|v: serde_json::Value|
            json(v) == json_of_batched_request(batch@) && r@ == #[trigger] rendered(v),
{
    let v = batch.into_value();
    render_value(&v)
}

/// What a [`MaybeBatchedResponse`] holds.
pub enum BatchedResponseView {
    Single(ResponseView),
    Batch(Seq<ResponseView>),
}

/// The responses held by a sequence, in order.
pub open spec fn response_views(items: Seq<Response>) -> Seq<ResponseView> {
    items.map_values(|r: Response| r@)
}

impl View for MaybeBatchedResponse {
    type V = BatchedResponseView;

    open spec fn view(&self) -> BatchedResponseView {
        match self {
            MaybeBatchedResponse::Single(r) => BatchedResponseView::Single(r@),
            MaybeBatchedResponse::Batch(rs) => BatchedResponseView::Batch(response_views(rs@)),
        }
    }
}

/// The responses that the elements of an array denote, in order; where some
/// element is refused, the error of the first such element.
pub open spec fn responses_of_jsons(items: Seq<Json>) -> Result<Seq<ResponseView>, DecodeError>
    decreases items.len(),
{
    if items.len() == 0 {
        Ok(Seq::empty())
    } else {
        match responses_of_jsons(items.drop_last()) {
            Ok(rs) => match response_of_json(items.last()) {
                Ok(r) => Ok(rs.push(r)),
                Err(e) => Err(e),
            },
            Err(e) => Err(e),
        }
    }
}

/// The response or batch of responses that a document denotes.
pub open spec fn batched_response_of_json(j: Json) -> Result<BatchedResponseView, DecodeError> {
    match j {
        Json::Array(items) => match responses_of_jsons(items) {
            Ok(rs) => Ok(BatchedResponseView::Batch(rs)),
            Err(e) => Err(e),
        },
        _ => match response_of_json(j) {
            Ok(r) => Ok(BatchedResponseView::Single(r)),
            Err(e) => Err(e),
        },
    }
}

/// The document for a response or a batch of responses.
pub open spec fn json_of_batched_response(b: BatchedResponseView) -> Json {
    match b {
        BatchedResponseView::Single(r) => json_of_response(r),
        BatchedResponseView::Batch(rs) => Json::Array(rs.map_values(|r: ResponseView| json_of_response(r))),
    }
}

/// What a byte string denotes as a response or a batch of responses.
pub open spec fn batched_response_of_bytes(bytes: Seq<u8>) -> Result<BatchedResponseView, DecodeError> {
    match parsed(bytes) {
        Some(j) => batched_response_of_json(j),
        None => Err(DecodeError::Syntax),
    }
}

/// What a decoded response or batch holds.
pub open spec fn batched_response_outcome(r: Result<MaybeBatchedResponse, DecodeError>) -> Result<
    BatchedResponseView,
    DecodeError,
> {
    match r {
        Ok(x) => Ok(x@),
        Err(e) => Err(e),
    }
}

/// An error among the first elements of an array is the error of the whole
/// array.
pub proof fn lemma_response_error_in_prefix(items: Seq<Json>, n: int, e: DecodeError)
    requires
        0 <= n <= items.len(),
        responses_of_jsons(items.subrange(0, n)) == Err::<Seq<ResponseView>, DecodeError>(e),
    ensures
        responses_of_jsons(items) == Err::<Seq<ResponseView>, DecodeError>(e),
    decreases items.len() - n,
{
    if n == items.len() {
        assert(items.subrange(0, n) =~= items);
    } else {
        assert(items.drop_last().subrange(0, n) =~= items.subrange(0, n));
        lemma_response_error_in_prefix(items.drop_last(), n, e);
    }
}

/// Decoding the documents of a sequence of responses gives the responses
/// back.
pub proof fn lemma_responses_round_trip(rs: Seq<ResponseView>)
    ensures
        responses_of_jsons(rs.map_values(|r: ResponseView| json_of_response(r))) == Ok::<
            Seq<ResponseView>,
            DecodeError,
        >(rs),
    decreases rs.len(),
{
    let items = rs.map_values(|r: ResponseView| json_of_response(r));
    if rs.len() == 0 {
        assert(rs =~= Seq::empty());
    } else {
        lemma_responses_round_trip(rs.drop_last());
        assert(items.drop_last() =~= rs.drop_last().map_values(|r: ResponseView| json_of_response(r)));
        lemma_response_round_trip(rs.last());
        assert(rs.drop_last().push(rs.last()) =~= rs);
    }
}

/// Decoding the document of a response or of a batch of responses gives it
/// back.
pub proof fn lemma_batched_response_round_trip(b: BatchedResponseView)
    ensures
        batched_response_of_json(json_of_batched_response(b)) == Ok::<BatchedResponseView, DecodeError>(b),
{
    match b {
        BatchedResponseView::Single(r) => {
            lemma_response_round_trip(r);
        },
        BatchedResponseView::Batch(rs) => {
            lemma_responses_round_trip(rs);
        },
    }
}

/// The values for a sequence of responses, in order.
fn responses_into_values(rs: Vec<Response>) -> (r: Vec<serde_json::Value>)
    ensures
        jsons(r@) == response_views(rs@).map_values(|r: ResponseView| json_of_response(r)),
{
    let ghost all = rs@;
    let mut rest = rs;
    let mut stack: Vec<serde_json::Value> = Vec::new();
    while rest.len() > 0
        invariant
            rest@.len() + stack@.len() == all.len(),
            rest@ == all.subrange(0, rest@.len() as int),
            forall|k: int|
                0 <= k < stack@.len() ==> json(#[trigger] stack@[k]) == json_of_response(
                    all[all.len() - 1 - k]@,
                ),
        decreases rest@.len(),
    {
        let x = rest.pop().unwrap();
        stack.push(x.into_value());
    }
    let ghost turned = stack@;
    let mut out: Vec<serde_json::Value> = Vec::new();
    while stack.len() > 0
        invariant
            turned.len() == all.len(),
            stack@.len() + out@.len() == turned.len(),
            stack@ == turned.subrange(0, stack@.len() as int),
            forall|k: int| 0 <= k < out@.len() ==> #[trigger] out@[k] == turned[turned.len() - 1 - k],
            forall|k: int|
                0 <= k < turned.len() ==> json(#[trigger] turned[k]) == json_of_response(
                    all[all.len() - 1 - k]@,
                ),
        decreases stack@.len(),
    {
        let v = stack.pop().unwrap();
        out.push(v);
    }
    assert(jsons(out@) =~= response_views(all).map_values(|r: ResponseView| json_of_response(r)));
    out
}

impl MaybeBatchedResponse {
    /// Reads a response or a batch of responses from a value.
    pub fn from_value(v: &serde_json::Value) -> (r: Result<MaybeBatchedResponse, DecodeError>)
        ensures
            batched_response_outcome(r) == batched_response_of_json(json(*v)),
    {
        match value_as_array(v) {
            Some(items) => {
                let ghost all = jsons(items@);
                let mut out: Vec<Response> = Vec::new();
                let mut i: usize = 0;
                proof {
                    assert(response_views(out@) =~= Seq::empty());
                    assert(all.subrange(0, 0).len() == 0);
                }
                while i < items.len()
                    invariant
                        all == jsons(items@),
                        json(*v) == Json::Array(all),
                        i <= items.len(),
                        responses_of_jsons(all.subrange(0, i as int)) == Ok::<
                            Seq<ResponseView>,
                            DecodeError,
                        >(response_views(out@)),
                    decreases items.len() - i,
                {
                    proof {
                        assert(all.subrange(0, i + 1).drop_last() =~= all.subrange(0, i as int));
                        assert(all.subrange(0, i + 1).last() == json(items@[i as int]));
                    }
                    match Response::from_value(&items[i]) {
                        Ok(x) => {
                            proof {
                                assert(response_views(out@.push(x)) =~= response_views(out@).push(x@));
                            }
                            out.push(x);
                        },
                        Err(e) => {
                            proof {
                                assert(responses_of_jsons(all.subrange(0, i + 1)) == Err::<
                                    Seq<ResponseView>,
                                    DecodeError,
                                >(e));
                                lemma_response_error_in_prefix(all, i + 1, e);
                            }
                            return Err(e);
                        },
                    }
                    i = i + 1;
                }
                proof {
                    assert(all.subrange(0, i as int) =~= all);
                }
                Ok(MaybeBatchedResponse::Batch(out))
            },
            None => match Response::from_value(v) {
                Ok(x) => Ok(MaybeBatchedResponse::Single(x)),
                Err(e) => Err(e),
            },
        }
    }

    /// The value for a response or a batch of responses.
    pub fn into_value(self) -> (r: serde_json::Value)
        ensures
            json(r) == json_of_batched_response(self@),
    {
        match self {
            MaybeBatchedResponse::Single(x) => x.into_value(),
            MaybeBatchedResponse::Batch(rs) => value_from_array(responses_into_values(rs)),
        }
    }
}

/// Decodes a response or a batch of responses from JSON text.
pub fn decode_batched_response(bytes: &[u8]) -> (r: Result<MaybeBatchedResponse, DecodeError>)
    ensures
        batched_response_outcome(r) == batched_response_of_bytes(bytes@),
{
    match parse_value(bytes) {
        Some(v) => MaybeBatchedResponse::from_value(&v),
        None => Err(DecodeError::Syntax),
    }
}

/// Encodes a response or a batch of responses as compact JSON text: the text
/// of a value that holds its document.
pub fn encode_batched_response(batch: MaybeBatchedResponse) -> (r: Vec<u8>)
    ensures
        exists|v: serde_json::Value|
            json(v) == json_of_batched_response(batch@) && r@ == #[trigger] rendered(v),
{
    let v = batch.into_value();
    render_value(&v)
}

} // verus!
