//! The decisions of a replay run: what to send for a recorded pairing, and
//! what to make of the reply.
//!
//! The run itself sends one request at a time and stops at the first fatal
//! condition; a result that differs from the recorded one is reported and
//! the run goes on.

use vstd::prelude::*;
use crate::capture::ExamplePairing;
use crate::capture::ExampleValue;
use crate::capture::ExampleView;
use crate::capture::PairingView;
use crate::codec::decode_response;
use crate::codec::response_of_bytes;
use crate::codec::DecodeError;
use crate::json::Json;
use crate::json::json;
use crate::json::jsons;
use crate::json::value_eq;
use crate::text::join;
use crate::types::Id;
use crate::types::IdView;
use crate::types::ParamsView;
use crate::types::Request;
use crate::types::RequestParameters;
use crate::types::RequestView;
use crate::types::Response;
use crate::types::ResponseView;
use crate::types::V2;

verus! {

/// A condition that ends a replay run.
#[derive(Debug, Clone, PartialEq, Eq)]
pub enum ReplayError {
    /// The pairing refers to a value that is kept elsewhere.
    ExternalValue,
    /// The reply is not a response.
    Reply(DecodeError),
    /// The server answered the call with an error object.
    Server { method: String, message: String },
}

/// What a [`ReplayError`] holds.
pub enum ReplayErrorView {
    ExternalValue,
    Reply(DecodeError),
    Server { method: Seq<char>, message: Seq<char> },
}

impl View for ReplayError {
    type V = ReplayErrorView;

    open spec fn view(&self) -> ReplayErrorView {
        match self {
            ReplayError::ExternalValue => ReplayErrorView::ExternalValue,
            ReplayError::Reply(e) => ReplayErrorView::Reply(*e),
            ReplayError::Server { method, message } => ReplayErrorView::Server {
                method: method@,
                message: message@,
            },
        }
    }
}

/// What to do for one pairing.
#[derive(Debug, Clone, PartialEq, Eq)]
pub enum ReplayStep {
    /// The pairing records no result: nothing is sent.
    Skip,
    /// Send the request and hold the reply against the recorded result.
    Send { request: Request, expected: serde_json::Value },
}

/// What a [`ReplayStep`] holds.
pub enum ReplayStepView {
    Skip,
    Send { request: RequestView, expected: Json },
}

impl View for ReplayStep {
    type V = ReplayStepView;

    open spec fn view(&self) -> ReplayStepView {
        match self {
            ReplayStep::Skip => ReplayStepView::Skip,
            ReplayStep::Send { request, expected } => ReplayStepView::Send {
                request: request@,
                expected: json(*expected),
            },
        }
    }
}

/// How a reply compares with the recorded result.
#[derive(Debug, Clone, Copy, PartialEq, Eq)]
pub enum Verdict {
    Match,
    Mismatch,
}

/// Whether a pairing refers to an external value, among its parameters or as
/// its result.
pub open spec fn has_external(p: PairingView) -> bool {
    ||| exists|i: int| 0 <= i < p.params.len() && (#[trigger] p.params[i]).value is External
    ||| (p.result is Some && p.result->0.value is External)
}

/// The document that an embedded example holds.
pub open spec fn literal(e: ExampleView) -> Json {
    e.value->Embedded_0
}

/// The request that replays a pairing: its method, its values as parameters
/// by position in their order, whatever names they had, and the null
/// identifier, so that the server has to answer.
pub open spec fn replay_request(p: PairingView) -> RequestView {
    RequestView {
        method: p.name,
        params: Some(ParamsView::ByPosition(p.params.map_values(|e: ExampleView| literal(e)))),
        id: Some(IdView::Null),
    }
}

/// The step for a pairing, or the reason why the run cannot go on.
pub open spec fn plan_of(p: PairingView) -> Result<ReplayStepView, ReplayErrorView> {
    if has_external(p) {
        Err(ReplayErrorView::ExternalValue)
    } else {
        match p.result {
            None => Ok(ReplayStepView::Skip),
            Some(e) => Ok(
                ReplayStepView::Send { request: replay_request(p), expected: literal(e) },
            ),
        }
    }
}

/// What a planned step holds.
pub open spec fn plan_outcome(r: Result<ReplayStep, ReplayError>) -> Result<
    ReplayStepView,
    ReplayErrorView,
> {
    match r {
        Ok(s) => Ok(s@),
        Err(e) => Err(e@),
    }
}

/// Plans the replay of one pairing.
pub fn plan(pairing: &ExamplePairing) -> (r: Result<ReplayStep, ReplayError>)
    ensures
        plan_outcome(r) == plan_of(pairing@),
{
    let ghost p = pairing@;
    let mut values: Vec<serde_json::Value> = Vec::new();
    let mut i: usize = 0;
    while i < pairing.params.len()
        invariant
            p == pairing@,
            i <= pairing.params.len(),
            values@.len() == i,
            forall|k: int| 0 <= k < i ==> !((#[trigger] p.params[k]).value is External),
            forall|k: int| 0 <= k < i ==> json(#[trigger] values@[k]) == literal(p.params[k]),
        decreases pairing.params.len() - i,
    {
        assert(p.params[i as int] == pairing.params@[i as int]@);
        match &pairing.params[i].value {
            ExampleValue::Embedded(v) => {
                values.push(v.clone());
            },
            ExampleValue::External(_) => {
                return Err(ReplayError::ExternalValue);
            },
        }
        i = i + 1;
    }
    assert(jsons(values@) =~= p.params.map_values(|e: ExampleView| literal(e)));
    match &pairing.result {
        None => Ok(ReplayStep::Skip),
        Some(e) => match &e.value {
            ExampleValue::External(_) => Err(ReplayError::ExternalValue),
            ExampleValue::Embedded(v) => {
                let request = Request {
                    jsonrpc: V2,
                    method: pairing.name.clone(),
                    params: Some(RequestParameters::ByPosition(values)),
                    id: Some(Id::Null),
                };
                Ok(ReplayStep::Send { request, expected: v.clone() })
            },
        },
    }
}

/// What follows from a response to the call of a method: an error object
/// ends the run, naming the method and the error's message; a success value
/// matches the recorded result or does not.
pub open spec fn verdict_of(method: Seq<char>, expected: Json, response: ResponseView) -> Result<
    Verdict,
    ReplayErrorView,
> {
    match response.result {
        Ok(value) => if value == expected {
            Ok(Verdict::Match)
        } else {
            Ok(Verdict::Mismatch)
        },
        Err(e) => Err(ReplayErrorView::Server { method, message: e.message }),
    }
}

/// What follows from the body of a reply: a body that is not a response
/// ends the run.
pub open spec fn verdict_of_reply(method: Seq<char>, expected: Json, body: Seq<u8>) -> Result<
    Verdict,
    ReplayErrorView,
> {
    match response_of_bytes(body) {
        Ok(response) => verdict_of(method, expected, response),
        Err(e) => Err(ReplayErrorView::Reply(e)),
    }
}

/// What a verdict or a fatal condition holds.
pub open spec fn verdict_outcome(r: Result<Verdict, ReplayError>) -> Result<
    Verdict,
    ReplayErrorView,
> {
    match r {
        Ok(v) => Ok(v),
        Err(e) => Err(e@),
    }
}

/// Holds a response against the recorded result.
pub fn judge(method: &str, expected: &serde_json::Value, response: Response) -> (r: Result<
    Verdict,
    ReplayError,
>)
    ensures
        verdict_outcome(r) == verdict_of(method@, json(*expected), response@),
{
    match response.result {
        Ok(value) => if value_eq(&value, expected) {
            Ok(Verdict::Match)
        } else {
            Ok(Verdict::Mismatch)
        },
        Err(e) => Err(ReplayError::Server { method: method.to_owned(), message: e.message }),
    }
}

/// Decodes the body of a reply and holds it against the recorded result.
pub fn judge_reply(method: &str, expected: &serde_json::Value, body: &[u8]) -> (r: Result<
    Verdict,
    ReplayError,
>)
    ensures
        verdict_outcome(r) == verdict_of_reply(method@, json(*expected), body@),
{
    match decode_response(body) {
        Ok(response) => judge(method, expected, response),
        Err(e) => Err(ReplayError::Reply(e)),
    }
}

/// The diagnostic for a result that differs from the recorded one.
pub fn mismatch_diagnostic(method: &str) -> (r: String)
    ensures
        r@ == "mismatch for "@ + method@,
{
    join("mismatch for ", method)
}

impl ReplayError {
    /// The diagnostic for a fatal condition. For a server error it names the
    /// method and the error's message.
    pub fn diagnostic(&self) -> (r: String)
        ensures
            r@ == match self@ {
                ReplayErrorView::ExternalValue => "unexpected external example value"@,
                ReplayErrorView::Reply(e) => "invalid response: "@ + e.description(),
                ReplayErrorView::Server { method, message } => "error for "@ + method + ": "@
                    + message,
            },
    {
        match self {
            ReplayError::ExternalValue => "unexpected external example value".to_owned(),
            ReplayError::Reply(e) => {
                let text = e.message();
                join("invalid response: ", text.as_str())
            },
            ReplayError::Server { method, message } => {
                let head = join("error for ", method.as_str());
                let head = join(head.as_str(), ": ");
                join(head.as_str(), message.as_str())
            },
        }
    }
}

/// The state of a replay run: the diagnostics reported so far, in the order
/// of the input, and the condition that ended the run, if one did.
#[derive(Debug, Clone, PartialEq, Eq)]
pub struct Run {
    pub diagnostics: Vec<String>,
    pub failure: Option<ReplayError>,
}

/// What a [`Run`] holds.
pub struct RunView {
    pub diagnostics: Seq<Seq<char>>,
    pub failure: Option<ReplayErrorView>,
}

impl View for Run {
    type V = RunView;

    open spec fn view(&self) -> RunView {
        RunView {
            diagnostics: self.diagnostics@.map_values(|s: String| s@),
            failure: match self.failure {
                Some(e) => Some(e@),
                None => None,
            },
        }
    }
}

/// The run after a pairing was taken up: a pairing that cannot be replayed
/// ends a run that was going on; a run that is over stays as it is.
pub open spec fn after_pairing(run: RunView, p: PairingView) -> RunView {
    if run.failure is Some {
        run
    } else {
        match plan_of(p) {
            Ok(_) => run,
            Err(e) => RunView { diagnostics: run.diagnostics, failure: Some(e) },
        }
    }
}

/// The request to send for a pairing and the result to expect: none once
/// the run is over, and none for a pairing that is skipped or refused.
pub open spec fn to_send(run: RunView, p: PairingView) -> Option<(RequestView, Json)> {
    if run.failure is Some {
        None
    } else {
        match plan_of(p) {
            Ok(ReplayStepView::Send { request, expected }) => Some((request, expected)),
            _ => None,
        }
    }
}

/// The run after the reply to a call came in: a match changes nothing, a
/// mismatch adds one diagnostic that names the method, a fatal condition
/// ends the run; a run that is over stays as it is.
pub open spec fn after_reply(run: RunView, method: Seq<char>, expected: Json, body: Seq<u8>) -> RunView {
    if run.failure is Some {
        run
    } else {
        match verdict_of_reply(method, expected, body) {
            Ok(Verdict::Match) => run,
            Ok(Verdict::Mismatch) => RunView {
                diagnostics: run.diagnostics.push("mismatch for "@ + method),
                failure: None,
            },
            Err(e) => RunView { diagnostics: run.diagnostics, failure: Some(e) },
        }
    }
}

impl Run {
    /// A run at its start.
    pub fn new() -> (r: Run)
        ensures
            r@ == (RunView { diagnostics: Seq::empty(), failure: None }),
    {
        let r = Run { diagnostics: Vec::new(), failure: None };
        assert(r@.diagnostics =~= Seq::empty());
        r
    }

    /// Whether a fatal condition has ended the run.
    pub fn is_over(&self) -> (r: bool)
        ensures
            r == (self@.failure is Some),
    {
        self.failure.is_some()
    }

    /// Takes up the next pairing, and hands out the request to send and the
    /// result to expect where there is something to send.
    pub fn begin(&mut self, pairing: &ExamplePairing) -> (r: Option<(Request, serde_json::Value)>)
        ensures
            final(self)@ == after_pairing(old(self)@, pairing@),
            match r {
                Some((request, expected)) => to_send(old(self)@, pairing@) == Some(
                    (request@, json(expected)),
                ),
                None => to_send(old(self)@, pairing@) is None,
            },
    {
        if self.failure.is_some() {
            return None;
        }
        match plan(pairing) {
            Ok(ReplayStep::Send { request, expected }) => Some((request, expected)),
            Ok(ReplayStep::Skip) => None,
            Err(e) => {
                self.failure = Some(e);
                None
            },
        }
    }

    /// Takes in the body of the reply to the call of a method.
    pub fn finish(&mut self, method: &str, expected: &serde_json::Value, body: &[u8])
        ensures
            final(self)@ == after_reply(old(self)@, method@, json(*expected), body@),
    {
        if self.failure.is_some() {
            return ;
        }
        match judge_reply(method, expected, body) {
            Ok(Verdict::Match) => {},
            Ok(Verdict::Mismatch) => {
                let line = mismatch_diagnostic(method);
                assert(self.diagnostics@.push(line).map_values(|s: String| s@)
                    =~= self.diagnostics@.map_values(|s: String| s@).push(line@));
                self.diagnostics.push(line);
            },
            Err(e) => {
                self.failure = Some(e);
            },
        }
    }
}

/// A run that is over takes up no further pairing: it sends nothing and
/// stays as it is, whatever the pairing and whatever a reply would be.
pub proof fn lemma_run_that_is_over_stays(
    run: RunView,
    p: PairingView,
    method: Seq<char>,
    expected: Json,
    body: Seq<u8>,
)
    requires
        run.failure is Some,
    ensures
        to_send(run, p) is None,
        after_pairing(run, p) == run,
        after_reply(run, method, expected, body) == run,
{
}

/// A reply with an error object ends a run that was going on, with a
/// failure that names the method and the error's message, and adds no
/// diagnostic.
pub proof fn lemma_error_reply_ends_the_run(
    run: RunView,
    method: Seq<char>,
    expected: Json,
    body: Seq<u8>,
)
    requires
        run.failure is None,
        response_of_bytes(body) is Ok,
        response_of_bytes(body)->Ok_0.result is Err,
    ensures
        after_reply(run, method, expected, body) == (RunView {
            diagnostics: run.diagnostics,
            failure: Some(
                ReplayErrorView::Server {
                    method,
                    message: response_of_bytes(body)->Ok_0.result->Err_0.message,
                },
            ),
        }),
{
}

/// A reply with a success value that differs from the recorded result adds
/// exactly one diagnostic, which names the method, and the run goes on.
pub proof fn lemma_mismatch_is_reported_once(
    run: RunView,
    method: Seq<char>,
    expected: Json,
    body: Seq<u8>,
)
    requires
        run.failure is None,
        response_of_bytes(body) is Ok,
        response_of_bytes(body)->Ok_0.result is Ok,
        response_of_bytes(body)->Ok_0.result->Ok_0 != expected,
    ensures
        after_reply(run, method, expected, body).failure is None,
        after_reply(run, method, expected, body).diagnostics == run.diagnostics.push(
            "mismatch for "@ + method,
        ),
{
}

} // verus!
