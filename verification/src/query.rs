use vstd::prelude::*;

use crate::json::{obj1, Json, JsonValue};
use crate::routing::MatchType;

verus! {

/// The query node each match type selects.
pub open spec fn match_tag_spec(match_type: MatchType) -> Seq<char> {
    match match_type {
        MatchType::MatchAll => "match_all"@,
        MatchType::Fuzzy => "fuzzy"@,
    }
}

/// The backend query document: the caller's payload nested under the shape
/// the match type dictates, untouched.
pub open spec fn translate_spec(match_type: MatchType, payload: Json) -> Json {
    Json::Obj(seq![("query"@, Json::Obj(seq![(match_tag_spec(match_type), payload)]))])
}

/// Query Translator: a pure, total mapping from a match type and an opaque
/// payload to the backend query document. No branch fails: the match type
/// is closed and exhaustively matched.
pub fn translate(match_type: MatchType, data: JsonValue) -> (r: JsonValue)
    ensures
        r.model() == translate_spec(match_type, data.model()),
{
    let tag: &str = match match_type {
        MatchType::MatchAll => "match_all",
        MatchType::Fuzzy => "fuzzy",
    };
    obj1("query", obj1(tag, data))
}

} // verus!
