//! Laws of the message model, proved over the spec functions that the
//! decoders and encoders are verified against.

use vstd::prelude::*;
use crate::codec::error_of_json;
use crate::codec::field;
use crate::codec::has_version;
use crate::codec::id_of_json;
use crate::codec::json_of_error;
use crate::codec::json_of_id;
use crate::codec::json_of_params;
use crate::codec::json_of_request;
use crate::codec::json_of_response;
use crate::codec::params_of_json;
use crate::codec::request_of_json;
use crate::codec::response_id;
use crate::codec::response_of_json;
use crate::codec::DecodeError;
use crate::json::Json;
use crate::types::ErrorView;
use crate::types::IdView;
use crate::types::ParamsView;
use crate::types::RequestView;
use crate::types::ResponseView;

verus! {

/// The member names of the wire format are pairwise different strings.
pub proof fn lemma_member_names_differ()
    ensures
        "jsonrpc"@ != "method"@,
        "jsonrpc"@ != "params"@,
        "jsonrpc"@ != "id"@,
        "jsonrpc"@ != "result"@,
        "jsonrpc"@ != "error"@,
        "method"@ != "params"@,
        "method"@ != "id"@,
        "params"@ != "id"@,
        "result"@ != "error"@,
        "result"@ != "id"@,
        "error"@ != "id"@,
        "code"@ != "message"@,
        "code"@ != "data"@,
        "message"@ != "data"@,
{
    reveal_strlit("jsonrpc");
    reveal_strlit("method");
    reveal_strlit("params");
    reveal_strlit("id");
    reveal_strlit("result");
    reveal_strlit("error");
    reveal_strlit("code");
    reveal_strlit("message");
    reveal_strlit("data");
    assert("jsonrpc"@.len() == 7);
    assert("method"@.len() == 6);
    assert("params"@.len() == 6);
    assert("id"@.len() == 2);
    assert("result"@.len() == 6);
    assert("error"@.len() == 5);
    assert("code"@.len() == 4);
    assert("message"@.len() == 7);
    assert("data"@.len() == 4);
    assert("method"@[0] == 'm');
    assert("params"@[0] == 'p');
    assert("code"@[0] == 'c');
    assert("data"@[0] == 'd');
}

/// Decoding the document of an identifier gives the identifier back.
pub proof fn lemma_id_round_trip(id: IdView)
    ensures
        id_of_json(json_of_id(id)) == Ok::<IdView, DecodeError>(id),
{
}

/// Decoding the document of parameters gives the parameters back.
pub proof fn lemma_params_round_trip(p: ParamsView)
    ensures
        params_of_json(json_of_params(p)) == Ok::<Option<ParamsView>, DecodeError>(Some(p)),
{
}

/// Decoding the document of a request gives the request back, whatever its
/// method, parameters and identifier, absent or not.
pub proof fn lemma_request_round_trip(r: RequestView)
    ensures
        request_of_json(json_of_request(r)) == Ok::<RequestView, DecodeError>(r),
{
    lemma_member_names_differ();
    let j = json_of_request(r);
    let m = j->Object_0;
    assert(has_version(m));
    assert(field(m, "method"@) == Some(Json::Text(r.method)));
    match r.params {
        Some(p) => {
            lemma_params_round_trip(p);
            assert(field(m, "params"@) == Some(json_of_params(p)));
        },
        None => {
            assert(field(m, "params"@) is None);
        },
    }
    match r.id {
        Some(i) => {
            lemma_id_round_trip(i);
            assert(field(m, "id"@) == Some(json_of_id(i)));
        },
        None => {
            assert(field(m, "id"@) is None);
        },
    }
}

/// Decoding the document of an error object gives the error object back;
/// absent data stays absent and null data stays null.
pub proof fn lemma_error_round_trip(e: ErrorView)
    ensures
        error_of_json(json_of_error(e)) == Ok::<ErrorView, DecodeError>(e),
{
    lemma_member_names_differ();
    let m = json_of_error(e)->Object_0;
    assert(field(m, "message"@) == Some(Json::Text(e.message)));
    assert(field(m, "data"@) == e.data);
}

/// Decoding the document of a response gives the response back, for a
/// success and for an error alike.
pub proof fn lemma_response_round_trip(r: ResponseView)
    ensures
        response_of_json(json_of_response(r)) == Ok::<ResponseView, DecodeError>(r),
{
    lemma_member_names_differ();
    let m = json_of_response(r)->Object_0;
    lemma_id_round_trip(r.id);
    assert(has_version(m));
    assert(response_id(m) == Ok::<IdView, DecodeError>(r.id));
    match r.result {
        Ok(value) => {
            assert(field(m, "result"@) == Some(value));
            assert(field(m, "error"@) is None);
        },
        Err(e) => {
            lemma_error_round_trip(e);
            assert(field(m, "error"@) == Some(json_of_error(e)));
            assert(field(m, "result"@) is None);
        },
    }
}

/// A decoded request is a notification exactly when the object has no `id`
/// member; an `id` that is null gives the null identifier instead.
pub proof fn lemma_absent_id_is_not_null_id(m: Map<Seq<char>, Json>)
    requires
        request_of_json(Json::Object(m)) is Ok,
    ensures
        (request_of_json(Json::Object(m))->Ok_0.id is None) <==> !m.contains_key("id"@),
        field(m, "id"@) == Some(Json::Null) ==> request_of_json(Json::Object(m))->Ok_0.id == Some(
            IdView::Null,
        ),
{
}

/// A response object decodes only with exactly one of `result` and `error`:
/// with both it fails for the one reason, with neither for the other, and
/// with `result` alone and a proper identifier it succeeds with that value.
pub proof fn lemma_result_and_error_exclude_each_other(m: Map<Seq<char>, Json>)
    requires
        has_version(m),
    ensures
        m.contains_key("result"@) && m.contains_key("error"@) ==> response_of_json(
            Json::Object(m),
        ) == Err::<ResponseView, DecodeError>(DecodeError::ResultAndError),
        !m.contains_key("result"@) && !m.contains_key("error"@) ==> response_of_json(
            Json::Object(m),
        ) == Err::<ResponseView, DecodeError>(DecodeError::NoResultOrError),
        response_of_json(Json::Object(m)) is Ok ==> (m.contains_key("result"@)
            != m.contains_key("error"@)),
        m.contains_key("result"@) && !m.contains_key("error"@) && response_id(m) is Ok
            ==> response_of_json(Json::Object(m)) == Ok::<ResponseView, DecodeError>(
            ResponseView { result: Ok(m["result"@]), id: response_id(m)->Ok_0 },
        ),
        !m.contains_key("result"@) && m.contains_key("error"@) && response_id(m) is Ok
            && error_of_json(m["error"@]) is Ok ==> response_of_json(Json::Object(m)) == Ok::<
            ResponseView,
            DecodeError,
        >(ResponseView { result: Err(error_of_json(m["error"@])->Ok_0), id: response_id(m)->Ok_0 }),
{
}

/// The shape of a present `params` member decides: an array gives parameters
/// by position, an object parameters by name, and anything else but null is
/// refused. Null stands for no parameters.
pub proof fn lemma_params_follow_shape(j: Json)
    ensures
        j is Array ==> params_of_json(j) == Ok::<Option<ParamsView>, DecodeError>(
            Some(ParamsView::ByPosition(j->Array_0)),
        ),
        j is Object ==> params_of_json(j) == Ok::<Option<ParamsView>, DecodeError>(
            Some(ParamsView::ByName(j->Object_0)),
        ),
        j is Null ==> params_of_json(j) == Ok::<Option<ParamsView>, DecodeError>(None),
        !(j is Array) && !(j is Object) && !(j is Null) ==> params_of_json(j) == Err::<
            Option<ParamsView>,
            DecodeError,
        >(DecodeError::Params),
{
}

} // verus!
