pub mod result;

use vstd::prelude::*;
use vstd::string::StringExecFns;

use crate::json::{obj2, obj3, Json, JsonValue};

verus! {

/// The closed set of query shapes a caller may ask for.
#[derive(Clone, Copy, Debug, PartialEq, Eq, Structural)]
pub enum MatchType {
    MatchAll,
    Fuzzy,
}

/// The body of a search call: which index-query shape to use and the
/// opaque payload to nest under it.
#[derive(Debug)]
pub struct IndexSearchBody {
    pub match_type: MatchType,
    pub data: JsonValue,
}

/// The greeting body of the service root.
pub open spec fn hello_spec() -> Json {
    Json::Obj(seq![("success"@, Json::Bool(true)), ("message"@, Json::Str("hello world!"@))])
}

/// `GET /`: a constant greeting.
pub fn hello() -> (r: JsonValue)
    ensures
        r.model() == hello_spec(),
{
    obj2("success", JsonValue::Bool(true), "message", JsonValue::Str(String::from_str(
        "hello world!",
    )))
}

/// Liveness probe body: the service reports `"OK"` unconditionally.
pub fn health() -> (r: &'static str)
    ensures
        r@ == "OK"@,
{
    "OK"
}

/// The greeting body of the indexes API root.
pub open spec fn index_get_spec() -> Json {
    Json::Obj(
        seq![
            ("success"@, Json::Bool(true)),
            ("message"@, Json::Str("Welcome to the indexes API!"@)),
        ],
    )
}

/// `GET /index/`: a constant greeting.
pub fn index_get() -> (r: JsonValue)
    ensures
        r.model() == index_get_spec(),
{
    obj2("success", JsonValue::Bool(true), "message", JsonValue::Str(String::from_str(
        "Welcome to the indexes API!",
    )))
}

/// The envelope `GET /index/<name>` returns.
pub open spec fn index_fetch_spec(exists: bool, count: int, deleted: int) -> Json {
    Json::Obj(
        seq![
            ("success"@, Json::Bool(true)),
            (
                "data"@,
                Json::Obj(
                    seq![
                        ("exists"@, Json::Bool(exists)),
                        ("count"@, Json::Int(count)),
                        ("deleted"@, Json::Int(deleted)),
                    ],
                ),
            ),
        ],
    )
}

/// Wraps an index's existence flag and document statistics in the outcome
/// envelope.
pub fn index_fetch_envelope(exists: bool, count: i64, deleted: i64) -> (r: JsonValue)
    ensures
        r.model() == index_fetch_spec(exists, count as int, deleted as int),
{
    let data = obj3(
        "exists",
        JsonValue::Bool(exists),
        "count",
        JsonValue::Int(count),
        "deleted",
        JsonValue::Int(deleted),
    );
    obj2("success", JsonValue::Bool(true), "data", data)
}

} // verus!
