use cool_admin::es::search::{Json, SearchBuilder, parse_search_result, json_get, clone_json};

fn obj(fields: Vec<(&str, Json)>) -> Json {
    Json::Object(fields.into_iter().map(|(k, v)| (k.to_string(), v)).collect())
}

fn s(t: &str) -> Json {
    Json::Str(t.to_string())
}

#[test]
fn empty_builder_matches_all() {
    let body = SearchBuilder::new().build();
    assert_eq!(body, obj(vec![("query", obj(vec![("match_all", obj(vec![]))]))]));
}

#[test]
fn full_body() {
    let body = SearchBuilder::new()
        .match_query("title", s("rust"))
        .from(10)
        .size(20)
        .sort("created", "desc")
        .source(vec!["title", "id"])
        .aggregation("by_tag", obj(vec![("terms", obj(vec![("field", s("tag"))]))]))
        .aggregation("by_tag", s("second"))
        .aggregation("other", Json::UInt(1))
        .highlight(vec!["title", "body", "title"])
        .build();
    let expected = obj(vec![
        ("query", obj(vec![("match", obj(vec![("title", s("rust"))]))])),
        ("from", Json::UInt(10)),
        ("size", Json::UInt(20)),
        ("sort", Json::Array(vec![obj(vec![("created", obj(vec![("order", s("desc"))]))])])),
        ("_source", Json::Array(vec![s("title"), s("id")])),
        ("aggs", obj(vec![("by_tag", s("second")), ("other", Json::UInt(1))])),
        ("highlight", obj(vec![("fields", obj(vec![("title", obj(vec![])), ("body", obj(vec![]))]))])),
    ]);
    assert_eq!(body, expected);
}

#[test]
fn bool_and_range_queries() {
    let body = SearchBuilder::new()
        .bool_query(vec![s("a")], vec![], vec![s("b"), s("c")])
        .build();
    assert_eq!(
        body,
        obj(vec![("query", obj(vec![("bool", obj(vec![
            ("must", Json::Array(vec![s("a")])),
            ("must_not", Json::Array(vec![s("b"), s("c")])),
        ]))]))])
    );
    let body = SearchBuilder::new().range("age", Some(Json::UInt(18)), None).build();
    assert_eq!(
        body,
        obj(vec![("query", obj(vec![("range", obj(vec![("age", obj(vec![("gte", Json::UInt(18))]))]))]))])
    );
    let body = SearchBuilder::new().term("status", Json::Int(-1)).query(s("raw")).build();
    assert_eq!(body, obj(vec![("query", s("raw"))]));
}

#[test]
fn reads_search_response() {
    let response = obj(vec![
        ("took", Json::UInt(3)),
        ("hits", obj(vec![
            ("total", obj(vec![("value", Json::UInt(2))])),
            ("hits", Json::Array(vec![
                obj(vec![("_index", s("users")), ("_id", s("1")), ("_score", Json::Number("1.5".to_string())), ("_source", obj(vec![("name", s("a"))]))]),
                obj(vec![("_id", s("2"))]),
            ])),
        ])),
        ("aggregations", obj(vec![("n", Json::UInt(7))])),
    ]);
    let r = parse_search_result(response);
    assert_eq!(r.total, 2);
    assert_eq!(r.hits.len(), 2);
    assert_eq!(r.hits[0].index, "users");
    assert_eq!(r.hits[0].id, "1");
    assert_eq!(r.hits[0].score, Some(Json::Number("1.5".to_string())));
    assert_eq!(r.hits[0].source, obj(vec![("name", s("a"))]));
    assert_eq!(r.hits[1].index, "");
    assert_eq!(r.hits[1].score, None);
    assert_eq!(r.hits[1].source, obj(vec![]));
    assert_eq!(r.aggregations, Some(obj(vec![("n", Json::UInt(7))])));

    let empty = parse_search_result(Json::Null);
    assert_eq!(empty.total, 0);
    assert!(empty.hits.is_empty());
    assert!(empty.aggregations.is_none());
}

#[test]
fn get_and_clone() {
    let d = obj(vec![("a", Json::Bool(true)), ("a", Json::Null), ("b", Json::Array(vec![Json::Int(-3)]))]);
    assert_eq!(json_get(&d, "a"), Some(&Json::Bool(true)));
    assert_eq!(json_get(&d, "z"), None);
    assert_eq!(json_get(&Json::UInt(1), "a"), None);
    assert_eq!(clone_json(&d), d);
}
