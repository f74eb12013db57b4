use cool_admin::es::client::{
    connection_settings, create_index_body, create_index_result, delete_index_result, get_result, index_exists_result,
    index_result, ping_result, reindex_body, reindex_result, search_result, update_body, EsError,
};
use cool_admin::es::search::Json;
use cool_admin::es::EsConfig;

fn field(k: &str, v: Json) -> (String, Json) {
    (k.to_string(), v)
}

#[test]
fn connection_from_config() {
    let c = connection_settings(&EsConfig::default()).unwrap();
    assert_eq!(c.url, "http://localhost:9200/");
    assert!(c.credentials.is_none());

    let mut cfg = EsConfig::default();
    cfg.username = Some("u".to_string());
    cfg.password = Some("p".to_string());
    let c = connection_settings(&cfg).unwrap();
    assert_eq!(c.credentials, Some(("u".to_string(), "p".to_string())));

    cfg.password = None;
    assert!(connection_settings(&cfg).unwrap().credentials.is_none());

    cfg.nodes = vec![];
    match connection_settings(&cfg) {
        Err(EsError::Connection(m)) => assert_eq!(m, "节点地址不能为空"),
        other => panic!("unexpected {:?}", other),
    }
    cfg.nodes = vec!["not a url".to_string()];
    match connection_settings(&cfg) {
        Err(e) => assert_eq!(e.message(), "连接错误: 无效的 URL: relative URL without a base"),
        other => panic!("unexpected {:?}", other),
    }
}

#[test]
fn status_outcomes() {
    assert!(ping_result(200));
    assert!(!ping_result(503));
    assert!(index_exists_result(204));
    assert!(!index_exists_result(404));
    assert!(create_index_result("users", 201).is_ok());
    assert_eq!(create_index_result("users", 400).unwrap_err().message(), "索引错误: 创建索引失败: users");
    assert_eq!(delete_index_result("users", 500).unwrap_err().message(), "索引错误: 删除索引失败: users");
    assert_eq!(index_result(500).unwrap_err().message(), "文档错误: 索引文档失败");
    assert_eq!(reindex_result(300).unwrap_err().message(), "索引错误: 重建索引失败");
    assert!(search_result(200, Json::Null).is_ok());
    assert_eq!(search_result(500, Json::Null).unwrap_err().message(), "搜索错误: 搜索失败");
}

#[test]
fn get_reads_source() {
    let body = Json::Object(vec![field("_id", Json::Str("1".to_string())), field("_source", Json::UInt(5))]);
    assert_eq!(get_result(200, &body).unwrap(), Some(Json::UInt(5)));
    assert_eq!(get_result(404, &body).unwrap(), None);
    assert_eq!(get_result(500, &body).unwrap_err().message(), "文档错误: 获取文档失败");
    assert_eq!(get_result(200, &Json::Null).unwrap(), None);
}

#[test]
fn request_bodies() {
    assert_eq!(update_body(Json::Bool(true)), Json::Object(vec![field("doc", Json::Bool(true))]));
    assert_eq!(create_index_body(Json::Null, None), Json::Object(vec![field("mappings", Json::Null)]));
    assert_eq!(
        create_index_body(Json::Null, Some(Json::UInt(1))),
        Json::Object(vec![field("mappings", Json::Null), field("settings", Json::UInt(1))])
    );
    let idx = |n: &str| Json::Object(vec![field("index", Json::Str(n.to_string()))]);
    assert_eq!(reindex_body("a", "b"), Json::Object(vec![field("source", idx("a")), field("dest", idx("b"))]));
}
