use tsubasa::classify::{classify_status, doc_stats_outcome, exists_outcome, search_outcome, StatusClass};
use tsubasa::errors::DecodeError;
use tsubasa::json::JsonValue;

fn obj(fields: Vec<(&str, JsonValue)>) -> JsonValue {
    JsonValue::Obj(fields.into_iter().map(|(k, v)| (k.to_string(), v)).collect())
}

fn search_body(took: i64, ids: Vec<&str>) -> JsonValue {
    let hits: Vec<JsonValue> = ids
        .into_iter()
        .map(|id| obj(vec![("_id", JsonValue::Str(id.to_string()))]))
        .collect();
    obj(vec![
        ("took", JsonValue::Int(took)),
        ("hits", obj(vec![("hits", JsonValue::Arr(hits))])),
    ])
}

#[test]
fn every_status_maps_to_exactly_one_class() {
    for status in 0u16..1000u16 {
        let class = classify_status(status);
        let expected = if (500..=599).contains(&status) {
            StatusClass::ServerError
        } else if (400..=499).contains(&status) {
            StatusClass::ClientError
        } else {
            StatusClass::Success
        };
        assert_eq!(class, expected);
    }
}

#[test]
fn server_error_codes_never_map_to_success() {
    for status in 500u16..600u16 {
        assert_ne!(classify_status(status), StatusClass::Success);
    }
}

#[test]
fn classify_boundaries() {
    assert_eq!(classify_status(199), StatusClass::Success);
    assert_eq!(classify_status(200), StatusClass::Success);
    assert_eq!(classify_status(399), StatusClass::Success);
    assert_eq!(classify_status(400), StatusClass::ClientError);
    assert_eq!(classify_status(499), StatusClass::ClientError);
    assert_eq!(classify_status(500), StatusClass::ServerError);
    assert_eq!(classify_status(599), StatusClass::ServerError);
    assert_eq!(classify_status(600), StatusClass::Success);
}

#[test]
fn search_on_503_yields_internal_server_error_without_data() {
    let body = search_body(5, vec!["1"]);
    let out = search_outcome(&"books".to_string(), 503, &body).unwrap();
    let expected = obj(vec![
        ("success", JsonValue::Bool(false)),
        (
            "errors",
            JsonValue::Arr(vec![obj(vec![
                ("code", JsonValue::Str("INTERNAL_SERVER_ERROR".to_string())),
                (
                    "message",
                    JsonValue::Str(
                        "Received >500 when requesting to `ES_CLUSTER/books/_search`".to_string(),
                    ),
                ),
            ])]),
        ),
    ]);
    assert_eq!(out, expected);
}

#[test]
fn search_on_client_error_yields_client_error_envelope() {
    let body = JsonValue::Null;
    let out = search_outcome(&"idx".to_string(), 404, &body).unwrap();
    let expected = obj(vec![
        ("success", JsonValue::Bool(false)),
        (
            "errors",
            JsonValue::Arr(vec![obj(vec![
                ("code", JsonValue::Str("CLIENT_ERROR".to_string())),
                (
                    "message",
                    JsonValue::Str(
                        "Received >= 400 <= 500 when requesting to `ES_CLUSTER/idx/_search"
                            .to_string(),
                    ),
                ),
            ])]),
        ),
    ]);
    assert_eq!(out, expected);
}

#[test]
fn search_on_200_yields_success_envelope() {
    let body = search_body(5, vec!["1"]);
    let out = search_outcome(&"books".to_string(), 200, &body).unwrap();
    let expected = obj(vec![
        ("success", JsonValue::Bool(true)),
        (
            "data",
            obj(vec![
                ("took", JsonValue::Int(5)),
                (
                    "data",
                    JsonValue::Arr(vec![obj(vec![("_id", JsonValue::Str("1".to_string()))])]),
                ),
            ]),
        ),
    ]);
    assert_eq!(out, expected);
}

#[test]
fn search_without_took_defaults_to_minus_one() {
    let body = obj(vec![("hits", obj(vec![("hits", JsonValue::Arr(vec![]))]))]);
    let out = search_outcome(&"idx".to_string(), 200, &body).unwrap();
    let expected = obj(vec![
        ("success", JsonValue::Bool(true)),
        (
            "data",
            obj(vec![("took", JsonValue::Int(-1)), ("data", JsonValue::Arr(vec![]))]),
        ),
    ]);
    assert_eq!(out, expected);
}

#[test]
fn search_with_non_array_hits_defaults_to_empty() {
    let body = obj(vec![
        ("took", JsonValue::Int(2)),
        ("hits", obj(vec![("hits", JsonValue::Str("nope".to_string()))])),
    ]);
    let out = search_outcome(&"idx".to_string(), 200, &body).unwrap();
    let expected = obj(vec![
        ("success", JsonValue::Bool(true)),
        (
            "data",
            obj(vec![("took", JsonValue::Int(2)), ("data", JsonValue::Arr(vec![]))]),
        ),
    ]);
    assert_eq!(out, expected);
}

#[test]
fn search_missing_hits_is_a_decode_failure() {
    let body = obj(vec![("took", JsonValue::Int(1))]);
    let out = search_outcome(&"idx".to_string(), 200, &body);
    assert_eq!(out, Err(DecodeError::HitsMissing));
}

#[test]
fn search_missing_hits_member_is_a_decode_failure() {
    let body = obj(vec![("took", JsonValue::Int(1)), ("hits", obj(vec![]))]);
    let out = search_outcome(&"idx".to_string(), 200, &body);
    assert_eq!(out, Err(DecodeError::HitsMissing));
}

#[test]
fn search_non_object_hits_is_a_decode_failure() {
    let body = obj(vec![("hits", JsonValue::Arr(vec![]))]);
    let out = search_outcome(&"idx".to_string(), 200, &body);
    assert_eq!(out, Err(DecodeError::HitsMissing));
}

fn stats_body(count: i64, deleted: i64) -> JsonValue {
    obj(vec![(
        "_all",
        obj(vec![(
            "total",
            obj(vec![(
                "docs",
                obj(vec![
                    ("count", JsonValue::Int(count)),
                    ("deleted", JsonValue::Int(deleted)),
                ]),
            )]),
        )]),
    )])
}

#[test]
fn doc_stats_reads_count_and_deleted() {
    let body = stats_body(41, 7);
    assert_eq!(doc_stats_outcome(200, &body), Ok((41, 7)));
}

#[test]
fn doc_stats_on_failure_status_is_zero_pair() {
    let body = stats_body(41, 7);
    assert_eq!(doc_stats_outcome(500, &body), Ok((0, 0)));
    assert_eq!(doc_stats_outcome(404, &body), Ok((0, 0)));
}

#[test]
fn doc_stats_missing_chain_is_a_decode_failure() {
    let body = obj(vec![("_all", obj(vec![]))]);
    assert_eq!(doc_stats_outcome(200, &body), Err(DecodeError::StatsMissing));
    assert_eq!(doc_stats_outcome(200, &JsonValue::Null), Err(DecodeError::StatsMissing));
}

#[test]
fn doc_stats_non_integral_leaf_defaults_to_zero() {
    let body = obj(vec![(
        "_all",
        obj(vec![(
            "total",
            obj(vec![(
                "docs",
                obj(vec![
                    ("count", JsonValue::Str("many".to_string())),
                    ("deleted", JsonValue::Int(3)),
                ]),
            )]),
        )]),
    )]);
    assert_eq!(doc_stats_outcome(204, &body), Ok((0, 3)));
}

#[test]
fn exists_only_on_success_statuses() {
    assert!(exists_outcome(200));
    assert!(exists_outcome(299));
    assert!(!exists_outcome(404));
    assert!(!exists_outcome(500));
    assert!(!exists_outcome(302));
    assert!(!exists_outcome(199));
}
