use vstd::prelude::*;
use vstd::string::StringExecFns;

use crate::errors::DecodeError;
use crate::json::{json_get_spec, Json, JsonValue};
use crate::json::{arr1, obj1, obj2};

verus! {

/// The three outcome classes every backend response falls into.
#[derive(Clone, Copy, Debug, PartialEq, Eq, Structural)]
pub enum StatusClass {
    /// Anything that is neither a client nor a server failure.
    Success,
    /// The request itself was at fault.
    ClientError,
    /// The backend failed.
    ServerError,
}

/// A server-side failure status.
pub open spec fn is_server_error(status: u16) -> bool {
    500 <= status <= 599
}

/// A client-side failure status.
pub open spec fn is_client_error(status: u16) -> bool {
    400 <= status <= 499
}

/// A plainly successful status.
pub open spec fn is_http_success(status: u16) -> bool {
    200 <= status <= 299
}

/// Classification policy, in priority order: server failure, client
/// failure, otherwise success.
pub open spec fn classify_spec(status: u16) -> StatusClass {
    if is_server_error(status) {
        StatusClass::ServerError
    } else if is_client_error(status) {
        StatusClass::ClientError
    } else {
        StatusClass::Success
    }
}

/// Maps a raw backend status code to its outcome class.
pub fn classify_status(status: u16) -> (r: StatusClass)
    ensures
        r == classify_spec(status),
{
    if 500 <= status && status <= 599 {
        StatusClass::ServerError
    } else if 400 <= status && status <= 499 {
        StatusClass::ClientError
    } else {
        StatusClass::Success
    }
}

/// The classification is total and exclusive: every status code maps to
/// exactly one class, and a server-error status never maps to success.
pub proof fn lemma_classification_total(status: u16)
    ensures
        classify_spec(status) is ServerError <==> is_server_error(status),
        classify_spec(status) is ClientError <==> is_client_error(status),
        classify_spec(status) is Success <==> !is_server_error(status) && !is_client_error(
            status,
        ),
{
}

/// The uniform failure envelope: `success` false and a single coded error.
pub open spec fn error_envelope_spec(code: Seq<char>, message: Seq<char>) -> Json {
    Json::Obj(
        seq![
            ("success"@, Json::Bool(false)),
            (
                "errors"@,
                Json::Arr(
                    seq![
                        Json::Obj(seq![("code"@, Json::Str(code)), ("message"@, Json::Str(message))]),
                    ],
                ),
            ),
        ],
    )
}

/// Builds the uniform failure envelope.
pub fn error_envelope(code: &str, message: String) -> (r: JsonValue)
    ensures
        r.model() == error_envelope_spec(code@, message@),
{
    let entry = obj2("code", JsonValue::Str(code.to_owned()), "message", JsonValue::Str(message));
    obj2("success", JsonValue::Bool(false), "errors", arr1(entry))
}

/// The successful search envelope: latency and the raw hit objects.
pub open spec fn search_success_spec(took: int, hits: Seq<Json>) -> Json {
    Json::Obj(
        seq![
            ("success"@, Json::Bool(true)),
            (
                "data"@,
                Json::Obj(seq![("took"@, Json::Int(took)), ("data"@, Json::Arr(hits))]),
            ),
        ],
    )
}

/// The reported latency of a search body. `took` is optional: when absent
/// or not integral it defaults to -1.
pub open spec fn took_of(body: Json) -> int {
    match json_get_spec(body, "took"@) {
        Some(Json::Int(i)) => i,
        _ => -1,
    }
}

/// The items of an array value; a present value of the wrong type yields
/// none, as every non-absence fallback in this library does.
pub open spec fn arr_items_or_empty(v: Json) -> Seq<Json> {
    match v {
        Json::Arr(items) => items,
        _ => Seq::empty(),
    }
}

/// What the search error messages say about the failing call.
pub open spec fn server_error_message_spec(index: Seq<char>) -> Seq<char> {
    "Received >500 when requesting to `ES_CLUSTER/"@ + index + "/_search`"@
}

/// The client-error counterpart.
pub open spec fn client_error_message_spec(index: Seq<char>) -> Seq<char> {
    "Received >= 400 <= 500 when requesting to `ES_CLUSTER/"@ + index + "/_search"@
}

/// Classification of a raw search response. A server or client failure
/// status yields the coded failure envelope; otherwise the body must carry
/// a `hits` object with a `hits` member — absence of either is a decode
/// failure — and that member's items (none, when it is not an array) and
/// the body's optional `took` latency fill the success envelope.
pub open spec fn search_outcome_spec(index: Seq<char>, status: u16, body: Json) -> Result<
    Json,
    DecodeError,
> {
    if is_server_error(status) {
        Ok(error_envelope_spec("INTERNAL_SERVER_ERROR"@, server_error_message_spec(index)))
    } else if is_client_error(status) {
        Ok(error_envelope_spec("CLIENT_ERROR"@, client_error_message_spec(index)))
    } else {
        match json_get_spec(body, "hits"@) {
            Some(h) => if h is Obj {
                match json_get_spec(h, "hits"@) {
                    Some(v) => Ok(search_success_spec(took_of(body), arr_items_or_empty(v))),
                    None => Err(DecodeError::HitsMissing),
                }
            } else {
                Err(DecodeError::HitsMissing)
            },
            None => Err(DecodeError::HitsMissing),
        }
    }
}

/// Funnels a raw search response (status code and decoded body) into the
/// outcome envelope returned to the caller.
pub fn search_outcome(index: &String, status: u16, body: &JsonValue) -> (r: Result<
    JsonValue,
    DecodeError,
>)
    ensures
        match r {
            Ok(v) => search_outcome_spec(index@, status, body.model()) == Ok::<Json, DecodeError>(
                v.model(),
            ),
            Err(e) => search_outcome_spec(index@, status, body.model()) == Err::<
                Json,
                DecodeError,
            >(e),
        },
{
    match classify_status(status) {
        StatusClass::ServerError => {
            let message = String::from_str("Received >500 when requesting to `ES_CLUSTER/")
                .concat(index.as_str()).concat("/_search`");
            return Ok(error_envelope("INTERNAL_SERVER_ERROR", message));
        },
        StatusClass::ClientError => {
            let message = String::from_str(
                "Received >= 400 <= 500 when requesting to `ES_CLUSTER/",
            ).concat(index.as_str()).concat("/_search");
            return Ok(error_envelope("CLIENT_ERROR", message));
        },
        StatusClass::Success => {},
    }
    let hits_key = String::from_str("hits");
    let hits_obj = match body.get(&hits_key) {
        Some(h) => {
            if !h.is_object() {
                return Err(DecodeError::HitsMissing);
            }
            h
        },
        None => {
            return Err(DecodeError::HitsMissing);
        },
    };
    let hits_val = match hits_obj.get(&hits_key) {
        Some(v) => v,
        None => {
            return Err(DecodeError::HitsMissing);
        },
    };
    let data_items = if hits_val.is_array() {
        hits_val.duplicate()
    } else {
        JsonValue::Arr(Vec::new())
    };
    let took_key = String::from_str("took");
    let took: i64 = match body.get(&took_key) {
        Some(v) => match v.as_i64() {
            Some(i) => i,
            None => -1,
        },
        None => -1,
    };
    proof {
        assert(data_items.model() == Json::Arr(arr_items_or_empty(hits_val.model())));
    }
    let data = obj2("took", JsonValue::Int(took), "data", data_items);
    Ok(obj2("success", JsonValue::Bool(true), "data", data))
}

/// One numeric leaf of the document statistics: an absent key is a hard
/// decode failure, a present non-integral value defaults to zero — the
/// same policy the search body's `hits` member follows.
pub open spec fn leaf_count_spec(docs: Json, key: Seq<char>) -> Result<int, DecodeError> {
    match json_get_spec(docs, key) {
        Some(Json::Int(i)) => Ok(i),
        Some(_) => Ok(0),
        None => Err(DecodeError::StatsMissing),
    }
}

/// Classification of a raw document-statistics response. Any failure status
/// yields zero counts; otherwise the `_all`/`total`/`docs` chain must be
/// present, and its `count` and `deleted` leaves are read.
pub open spec fn doc_stats_spec(status: u16, body: Json) -> Result<(int, int), DecodeError> {
    if is_server_error(status) || is_client_error(status) {
        Ok((0, 0))
    } else {
        match json_get_spec(body, "_all"@) {
            Some(all) => match json_get_spec(all, "total"@) {
                Some(total) => match json_get_spec(total, "docs"@) {
                    Some(docs) => match (
                        leaf_count_spec(docs, "count"@),
                        leaf_count_spec(docs, "deleted"@),
                    ) {
                        (Ok(c), Ok(d)) => Ok((c, d)),
                        _ => Err(DecodeError::StatsMissing),
                    },
                    None => Err(DecodeError::StatsMissing),
                },
                None => Err(DecodeError::StatsMissing),
            },
            None => Err(DecodeError::StatsMissing),
        }
    }
}

/// Funnels a raw document-statistics response into the `(count, deleted)`
/// pair reported by the HTTP surface.
pub fn doc_stats_outcome(status: u16, body: &JsonValue) -> (r: Result<(i64, i64), DecodeError>)
    ensures
        match r {
            Ok(p) => doc_stats_spec(status, body.model()) == Ok::<(int, int), DecodeError>(
                (p.0 as int, p.1 as int),
            ),
            Err(e) => doc_stats_spec(status, body.model()) == Err::<(int, int), DecodeError>(e),
        },
{
    match classify_status(status) {
        StatusClass::ServerError | StatusClass::ClientError => {
            return Ok((0, 0));
        },
        StatusClass::Success => {},
    }
    let all = match body.get(&String::from_str("_all")) {
        Some(v) => v,
        None => {
            return Err(DecodeError::StatsMissing);
        },
    };
    let total = match all.get(&String::from_str("total")) {
        Some(v) => v,
        None => {
            return Err(DecodeError::StatsMissing);
        },
    };
    let docs = match total.get(&String::from_str("docs")) {
        Some(v) => v,
        None => {
            return Err(DecodeError::StatsMissing);
        },
    };
    let count: i64 = match docs.get(&String::from_str("count")) {
        Some(v) => match v.as_i64() {
            Some(i) => i,
            None => 0,
        },
        None => {
            return Err(DecodeError::StatsMissing);
        },
    };
    let deleted: i64 = match docs.get(&String::from_str("deleted")) {
        Some(v) => match v.as_i64() {
            Some(i) => i,
            None => 0,
        },
        None => {
            return Err(DecodeError::StatsMissing);
        },
    };
    Ok((count, deleted))
}

/// Whether the existence probe (`HEAD /<index>`) reports the index present:
/// only a plainly successful status does.
pub fn exists_outcome(status: u16) -> (r: bool)
    ensures
        r == is_http_success(status),
{
    200 <= status && status <= 299
}

} // verus!
