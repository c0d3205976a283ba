//! Example pairings, and their derivation from one observed exchange.
//!
//! A pairing records a call that succeeded: the method, the parameters as
//! embedded example values, and the result. It is derived only where both
//! bodies decode as single messages and the response carries a success.

use vstd::prelude::*;
use crate::codec::decode_request;
use crate::codec::decode_response;
use crate::codec::request_of_bytes;
use crate::codec::DecodeError;
use crate::codec::response_of_bytes;
use crate::codec::with_field;
use crate::json::Json;
use crate::json::json;
use crate::json::jsons;
use crate::json::members;
use crate::json::rendered;
use crate::json::object_entries;
use crate::json::object_insert;
use crate::json::object_new;
use crate::json::render_value;
use crate::json::value_from_array;
use crate::json::value_from_object;
use crate::json::value_from_text;
use crate::types::ParamsView;
use crate::types::Request;
use crate::types::RequestParameters;
use crate::types::RequestView;
use crate::types::ResponseView;

verus! {

/// An example value: a literal, or a reference to a value kept elsewhere.
#[derive(Debug, Clone, PartialEq, Eq)]
pub enum ExampleValue {
    Embedded(serde_json::Value),
    External(String),
}

/// What an [`ExampleValue`] holds.
pub enum ExampleValueView {
    Embedded(Json),
    External(Seq<char>),
}

impl View for ExampleValue {
    type V = ExampleValueView;

    open spec fn view(&self) -> ExampleValueView {
        match self {
            ExampleValue::Embedded(v) => ExampleValueView::Embedded(json(*v)),
            ExampleValue::External(s) => ExampleValueView::External(s@),
        }
    }
}

/// One example: a value, with the parameter's name where it was given by
/// name.
#[derive(Debug, Clone, PartialEq, Eq)]
pub struct Example {
    pub name: Option<String>,
    pub value: ExampleValue,
}

/// What an [`Example`] holds.
pub struct ExampleView {
    pub name: Option<Seq<char>>,
    pub value: ExampleValueView,
}

impl View for Example {
    type V = ExampleView;

    open spec fn view(&self) -> ExampleView {
        ExampleView {
            name: match self.name {
                Some(s) => Some(s@),
                None => None,
            },
            value: self.value@,
        }
    }
}

/// The examples held by a sequence, in order.
pub open spec fn example_views(items: Seq<Example>) -> Seq<ExampleView> {
    items.map_values(|e: Example| e@)
}

/// One recorded call: the method, example parameters and the example result.
#[derive(Debug, Clone, PartialEq, Eq)]
pub struct ExamplePairing {
    pub name: String,
    pub params: Vec<Example>,
    pub result: Option<Example>,
}

/// What an [`ExamplePairing`] holds.
pub struct PairingView {
    pub name: Seq<char>,
    pub params: Seq<ExampleView>,
    pub result: Option<ExampleView>,
}

impl View for ExamplePairing {
    type V = PairingView;

    open spec fn view(&self) -> PairingView {
        PairingView {
            name: self.name@,
            params: example_views(self.params@),
            result: match self.result {
                Some(e) => Some(e@),
                None => None,
            },
        }
    }
}

/// The example that embeds a document, under a name or without one.
pub open spec fn embedded(name: Option<Seq<char>>, j: Json) -> ExampleView {
    ExampleView { name, value: ExampleValueView::Embedded(j) }
}

/// Whether the examples record the parameters one for one: none for absent
/// parameters; for parameters by position one unnamed example each, in
/// order; for parameters by name one example for each member, under the
/// member's name, in an order that is left open.
pub open spec fn params_recorded(params: Option<ParamsView>, examples: Seq<ExampleView>) -> bool {
    match params {
        None => examples.len() == 0,
        Some(ParamsView::ByPosition(items)) => examples == items.map_values(
            |j: Json| embedded(None, j),
        ),
        Some(ParamsView::ByName(m)) => {
            &&& examples.len() == m.dom().len()
            &&& forall|i: int|
                0 <= i < examples.len() ==> {
                    &&& (#[trigger] examples[i]).name is Some
                    &&& m.contains_key(examples[i].name->0)
                    &&& examples[i].value == ExampleValueView::Embedded(m[examples[i].name->0])
                }
            &&& forall|i: int, j: int|
                0 <= i < j < examples.len() ==> (#[trigger] examples[i]).name
                    != (#[trigger] examples[j]).name
            &&& forall|k: Seq<char>| #[trigger]
                m.contains_key(k) ==> exists|i: int|
                    0 <= i < examples.len() && (#[trigger] examples[i]).name == Some(k)
        },
    }
}

/// Whether a pairing records the call: the request's method as its name, the
/// request's parameters, and the success value as its embedded result.
pub open spec fn records(p: PairingView, request: RequestView, result: Json) -> bool {
    &&& p.name == request.method
    &&& params_recorded(request.params, p.params)
    &&& p.result == Some(embedded(None, result))
}

/// The examples for parameters by position.
fn positional_examples(items: &Vec<serde_json::Value>) -> (r: Vec<Example>)
    ensures
        example_views(r@) == jsons(items@).map_values(|j: Json| embedded(None, j)),
{
    let mut out: Vec<Example> = Vec::new();
    let mut i: usize = 0;
    while i < items.len()
        invariant
            i <= items.len(),
            out@.len() == i,
            forall|k: int| 0 <= k < i ==> (#[trigger] out@[k])@ == embedded(None, json(items@[k])),
        decreases items.len() - i,
    {
        let v = items[i].clone();
        out.push(Example { name: None, value: ExampleValue::Embedded(v) });
        i = i + 1;
    }
    assert(example_views(out@) =~= jsons(items@).map_values(|j: Json| embedded(None, j)));
    out
}

/// The examples for parameters by name.
fn named_examples(m: &serde_json::Map<String, serde_json::Value>) -> (r: Vec<Example>)
    ensures
        params_recorded(Some(ParamsView::ByName(members(*m))), example_views(r@)),
{
    let entries = object_entries(m);
    let mut out: Vec<Example> = Vec::new();
    let mut i: usize = 0;
    while i < entries.len()
        invariant
            i <= entries.len(),
            out@.len() == i,
            forall|k: int|
                0 <= k < i ==> (#[trigger] out@[k])@ == embedded(
                    Some(entries@[k].0@),
                    json(entries@[k].1),
                ),
        decreases entries.len() - i,
    {
        let name = entries[i].0.clone();
        let v = entries[i].1.clone();
        out.push(Example { name: Some(name), value: ExampleValue::Embedded(v) });
        i = i + 1;
    }
    proof {
        let examples = example_views(out@);
        let mm = members(*m);
        assert forall|k: int| 0 <= k < examples.len() implies #[trigger] examples[k] == embedded(
            Some(entries@[k].0@),
            json(entries@[k].1),
        ) by {
            assert(examples[k] == out@[k]@);
        }
        assert forall|k: int| 0 <= k < examples.len() implies {
            &&& (#[trigger] examples[k]).name is Some
            &&& mm.contains_key(examples[k].name->0)
            &&& examples[k].value == ExampleValueView::Embedded(mm[examples[k].name->0])
        } by {
            assert(mm.contains_key(entries@[k].0@));
        }
        assert forall|a: int, b: int| 0 <= a < b < examples.len() implies (#[trigger] examples[a]).name
            != (#[trigger] examples[b]).name by {
            assert(entries@[a].0@ != entries@[b].0@);
        }
        assert forall|key: Seq<char>| #[trigger] mm.contains_key(key) implies exists|k: int|
            0 <= k < examples.len() && (#[trigger] examples[k]).name == Some(key) by {
            let k = choose|k: int| 0 <= k < entries@.len() && #[trigger] entries@[k].0@ == key;
            assert(examples[k].name == Some(key));
        }
    }
    out
}

/// The pairing that records a call and its success value.
pub fn pairing_of(request: Request, result: serde_json::Value) -> (r: ExamplePairing)
    ensures
        records(r@, request@, json(result)),
{
    let params = match &request.params {
        None => Vec::new(),
        Some(RequestParameters::ByPosition(items)) => positional_examples(items),
        Some(RequestParameters::ByName(m)) => named_examples(m),
    };
    ExamplePairing {
        name: request.method,
        params,
        result: Some(Example { name: None, value: ExampleValue::Embedded(result) }),
    }
}

/// Derives a pairing from the bodies of one exchange: there is one exactly
/// when the request body decodes as a request, the response body decodes as
/// a response, and the response carries a success value.
pub fn capture(request_body: &[u8], response_body: &[u8]) -> (r: Option<ExamplePairing>)
    ensures
        match (request_of_bytes(request_body@), response_of_bytes(response_body@)) {
            (Ok(request), Ok(response)) => match response.result {
                Ok(value) => r is Some && records(r->0@, request, value),
                Err(_) => r is None,
            },
            _ => r is None,
        },
{
    let request = match decode_request(request_body) {
        Ok(request) => request,
        Err(_) => {
            return None;
        },
    };
    let response = match decode_response(response_body) {
        Ok(response) => response,
        Err(_) => {
            return None;
        },
    };
    match response.result {
        Ok(value) => Some(pairing_of(request, value)),
        Err(_) => None,
    }
}

/// The document for an example: its name where it has one, and its value
/// under `value` where embedded, under `externalValue` where external.
pub open spec fn json_of_example(e: ExampleView) -> Json {
    let base = with_field(
        Map::<Seq<char>, Json>::empty(),
        "name"@,
        match e.name {
            Some(s) => Some(Json::Text(s)),
            None => None,
        },
    );
    match e.value {
        ExampleValueView::Embedded(j) => Json::Object(base.insert("value"@, j)),
        ExampleValueView::External(s) => Json::Object(
            base.insert("externalValue"@, Json::Text(s)),
        ),
    }
}

/// The document for a pairing: `name`, `params` as an array of examples, and
/// `result` where there is one.
pub open spec fn json_of_pairing(p: PairingView) -> Json {
    let base = Map::<Seq<char>, Json>::empty().insert("name"@, Json::Text(p.name)).insert(
        "params"@,
        Json::Array(p.params.map_values(|e: ExampleView| json_of_example(e))),
    );
    Json::Object(
        with_field(
            base,
            "result"@,
            match p.result {
                Some(e) => Some(json_of_example(e)),
                None => None,
            },
        ),
    )
}

impl Example {
    /// A copy that holds the same example.
    pub fn duplicate(&self) -> (r: Example)
        ensures
            r@ == self@,
    {
        let name = match &self.name {
            Some(s) => Some(s.clone()),
            None => None,
        };
        let value = match &self.value {
            ExampleValue::Embedded(v) => ExampleValue::Embedded(v.clone()),
            ExampleValue::External(s) => ExampleValue::External(s.clone()),
        };
        Example { name, value }
    }

    /// The value for an example.
    pub fn into_value(self) -> (r: serde_json::Value)
        ensures
            json(r) == json_of_example(self@),
    {
        let mut m = object_new();
        match self.name {
            Some(s) => {
                object_insert(&mut m, "name", value_from_text(s));
            },
            None => {},
        }
        match self.value {
            ExampleValue::Embedded(v) => {
                object_insert(&mut m, "value", v);
            },
            ExampleValue::External(s) => {
                object_insert(&mut m, "externalValue", value_from_text(s));
            },
        }
        value_from_object(m)
    }
}

impl ExamplePairing {
    /// The value for a pairing.
    pub fn into_value(self) -> (r: serde_json::Value)
        ensures
            json(r) == json_of_pairing(self@),
    {
        let mut items: Vec<serde_json::Value> = Vec::new();
        let mut i: usize = 0;
        while i < self.params.len()
            invariant
                i <= self.params.len(),
                items@.len() == i,
                forall|k: int|
                    0 <= k < i ==> json(#[trigger] items@[k]) == json_of_example(self.params@[k]@),
            decreases self.params.len() - i,
        {
            let e = self.params[i].duplicate();
            items.push(e.into_value());
            i = i + 1;
        }
        assert(jsons(items@) =~= self@.params.map_values(|e: ExampleView| json_of_example(e)));
        let mut m = object_new();
        object_insert(&mut m, "name", value_from_text(self.name));
        object_insert(&mut m, "params", value_from_array(items));
        match self.result {
            Some(e) => {
                object_insert(&mut m, "result", e.into_value());
            },
            None => {},
        }
        value_from_object(m)
    }
}

/// Encodes a pairing as compact JSON text: the text of a value that holds
/// the pairing's document.
pub fn encode_pairing(pairing: ExamplePairing) -> (r: Vec<u8>)
    ensures
        exists|v: serde_json::Value|
            json(v) == json_of_pairing(pairing@) && r@ == #[trigger] rendered(v),
{
    let v = pairing.into_value();
    render_value(&v)
}

/// What the proxy hands on for one exchange: the body for the caller, and
/// the text of a pairing for the side channel where one was derived.
#[derive(Debug, Clone, PartialEq, Eq)]
pub struct Relayed {
    pub forwarded: Vec<u8>,
    pub captured: Option<Vec<u8>>,
}

/// Whether the bytes are the text of a pairing that records the call.
pub open spec fn is_record_of(bytes: Seq<u8>, request: RequestView, result: Json) -> bool {
    exists|p: PairingView, v: serde_json::Value|
        #![trigger records(p, request, result), rendered(v)]
        records(p, request, result) && json(v) == json_of_pairing(p) && bytes == rendered(v)
}

/// What is written to the side channel for an exchange: the text of a
/// pairing that records it where both bodies decode and the response carries
/// a success value, nothing otherwise.
pub open spec fn side_output(
    request: Result<RequestView, DecodeError>,
    response: Result<ResponseView, DecodeError>,
    captured: Option<Seq<u8>>,
) -> bool {
    match (request, response) {
        (Ok(request), Ok(response)) => match response.result {
            Ok(value) => captured is Some && is_record_of(captured->0, request, value),
            Err(_) => captured is None,
        },
        _ => captured is None,
    }
}

/// Decides what the proxy hands on for one exchange. The response body goes
/// to the caller as it came, whether or not a pairing was derived.
pub fn relay(request_body: &[u8], response_body: Vec<u8>) -> (r: Relayed)
    ensures
        r.forwarded@ == response_body@,
        side_output(
            request_of_bytes(request_body@),
            response_of_bytes(response_body@),
            match r.captured {
                Some(text) => Some(text@),
                None => None,
            },
        ),
{
    let captured = match capture(request_body, response_body.as_slice()) {
        Some(pairing) => {
            let ghost p = pairing@;
            let text = encode_pairing(pairing);
            proof {
                let v = choose|v: serde_json::Value|
                    json(v) == json_of_pairing(p) && text@ == #[trigger] rendered(v);
                let request = request_of_bytes(request_body@)->Ok_0;
                let value = response_of_bytes(response_body@)->Ok_0.result->Ok_0;
                assert(records(p, request, value) && json(v) == json_of_pairing(p) && text@
                    == rendered(v));
            }
            Some(text)
        },
        None => None,
    };
    Relayed { forwarded: response_body, captured }
}

} // verus!
