use cool_admin::rpc::{
    RpcConfig, RpcService, RpcServiceBuilder, ServiceError, RpcError, ServiceNode, services_key, event_channel,
    new_node_id, call_url, pick_node, check_node, RpcResponse, call_result, missing_service_response,
    handled_response, RpcRegistry, RpcServiceMeta, RpcEventRegistry, RpcEventMeta, TransactionOptions,
    TransactionEvent, transaction_action, RpcTransactionManager, resolve_transaction_id, transaction_outcome,
};
use cool_admin::es::{EsConfig, EsIndexConfig, es_index_config, index_info};

fn node(last: i64) -> ServiceNode {
    ServiceNode { id: "n1".to_string(), name: "user".to_string(), address: "10.0.0.2".to_string(), port: 8080, last_heartbeat: last, services: vec![] }
}

#[test]
fn rpc_settings_and_names() {
    let c = RpcConfig::default();
    assert_eq!((c.name.as_str(), c.heartbeat_interval, c.service_timeout, c.call_timeout), ("cool-service", 5, 30, 10));
    assert_eq!(RpcService::new("a").name, "a");
    assert_eq!(RpcServiceBuilder::new("b").build().name, "b");
    assert_eq!(services_key("user"), "cool:rpc:services:user");
    assert_eq!(event_channel("x"), "cool:rpc:event:x");
    let id = new_node_id("user");
    assert!(id.starts_with("user-") && id.len() == 5 + 36);
    assert_eq!(call_url(&node(0)), "http://10.0.0.2:8080/rpc/call");
    assert_eq!(ServiceError::InvalidParams("p".to_string()).message(), "参数错误: p");
    assert_eq!(RpcError::Timeout.message(), "调用超时");
}

#[test]
fn node_choice_and_liveness() {
    assert!(matches!(pick_node("user", &vec![], 3), Err(RpcError::ServiceNotFound(_))));
    let nodes = vec!["a".to_string(), "b".to_string(), "c".to_string()];
    assert_eq!(pick_node("user", &nodes, 7).unwrap(), 1);
    assert!(check_node("user", node(100), 130, 30).is_ok());
    assert!(matches!(check_node("user", node(100), 131, 30), Err(RpcError::ServiceNotFound(_))));
}

#[test]
fn call_answers() {
    assert_eq!(call_result(RpcResponse { success: true, data: None, error: None }).unwrap(), "null");
    match call_result(RpcResponse { success: false, data: None, error: Some("x".to_string()) }) {
        Err(RpcError::Other(m)) => assert_eq!(m, "x"),
        _ => panic!("expected an error"),
    }
    assert_eq!(missing_service_response("Svc").error.as_deref(), Some("服务未找到: Svc"));
    let r = handled_response(Err(ServiceError::MethodNotFound("m".to_string())));
    assert!(!r.success);
    assert_eq!(r.error.as_deref(), Some("方法未找到: m"));
}

#[test]
fn metadata_registries() {
    let mut r = RpcRegistry::new();
    r.register_service(RpcServiceMeta { name: "user".to_string(), methods: vec!["a".to_string()] });
    r.register_service(RpcServiceMeta { name: "user".to_string(), methods: vec![] });
    assert_eq!(r.services().len(), 1);
    assert!(r.services()[0].1.methods.is_empty());
    let mut e = RpcEventRegistry::new();
    e.register("user", RpcEventMeta { name: "created".to_string(), handler: "on_created".to_string() });
    e.register("user", RpcEventMeta { name: "deleted".to_string(), handler: "on_deleted".to_string() });
    assert_eq!(e.all()[0].1.len(), 2);
}

#[test]
fn distributed_transactions() {
    let mut m = RpcTransactionManager::new();
    let a = m.create_transaction(&TransactionOptions::default(), 0);
    let b = m.create_transaction(&TransactionOptions { connection_name: Some("main".to_string()), isolation: None }, 1_000_000);
    assert_eq!(m.get_transaction(&a).unwrap().connection_name, "default");
    assert_eq!(m.get_transaction(&b).unwrap().connection_name, "main");
    let gone = m.cleanup_expired(1_900_000);
    assert_eq!(gone, vec![a.clone()]);
    assert!(m.get_transaction(&a).is_none());
    assert!(m.finish(&b).is_some());
    assert!(m.finish(&b).is_none());
    let (id, caller) = resolve_transaction_id(None);
    assert!(caller && id.len() == 36);
    let (id2, caller2) = resolve_transaction_id(Some("t".to_string()));
    assert!(!caller2 && id2 == "t");
    let ev = transaction_outcome("t".to_string(), true);
    assert!(ev.commit);
    assert!(transaction_action("other", Some(TransactionEvent { rpc_transaction_id: "t".to_string(), commit: true })).is_none());
    assert!(transaction_action("moleculer.transaction", Some(ev)).is_some());
}

#[test]
fn search_settings() {
    let c = EsConfig::default();
    assert_eq!(c.nodes, vec!["http://localhost:9200"]);
    assert_eq!(c.timeout, 30);
    let d = EsIndexConfig::default();
    assert_eq!((d.shards, d.replicas), (8, 1));
    let a = es_index_config("", "UserIndex");
    assert_eq!(a.name, "userindex");
    let b = es_index_config("\"users\"", "UserIndex");
    assert_eq!(b.name, "users");
    let k = es_index_config("name = \"goods\", shards = 3, replicas = x, analyzers = [\"ik_smart\", \"ik_max_word\"]", "G");
    assert_eq!((k.name.as_str(), k.shards, k.replicas), ("goods", 3, 1));
    assert_eq!(k.analyzers, vec!["ik_smart", "ik_max_word"]);
    assert!(index_info("x", false).is_none());
    let i = index_info("x", true).unwrap();
    assert_eq!((i.docs_count, i.store_size.as_str(), i.health.as_str(), i.status.as_str()), (0, "0b", "green", "open"));
}

#[test]
fn choose_node_picks_an_index() {
    let nodes = vec!["a".to_string(), "b".to_string(), "c".to_string()];
    for _ in 0..20 {
        let i = cool_admin::rpc::choose_node("svc", &nodes).unwrap();
        assert!(i < 3);
    }
    assert!(cool_admin::rpc::choose_node("svc", &Vec::new()).is_err());
}
