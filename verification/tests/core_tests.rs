use cool_admin::application::{CoolApp, CacheFactory};
use cool_admin::cache::{MemoryCache, full_key, strip_key_prefix};
use cool_admin::config::{CrudConfig, JwtConfig, CoolConfig, DatabaseConfig, RedisConfig, ModuleConfig};
use cool_admin::constant::{CrudType, ResCode, DbType};
use cool_admin::controller::{CrudApi, HttpMethod, ControllerOption, controller_option, crud_routes, info_id, missing_crud_service};
use cool_admin::entity::{PageQuery, QueryOption, WhereBuilder, JsonValue};
use cool_admin::eps::{EpsRegistry, EpsScope, ColumnInfo, ModuleInfo};
use cool_admin::error::{CoolError, CoolResponse};
use cool_admin::event::{EventManager, SOFT_DELETE};
use cool_admin::middleware::{AuthorityConfig, auth_step, AuthStep, auth_outcome, AuthOutcome, JwtClaims, filter_error, handle_error, log_skips, log_user, log_success, AdminInfo, missing_token_answer};
use cool_admin::module::{ModuleRegistry, ModuleManager, menu_lock_file_name, should_import_menu};
use cool_admin::service::backend::check_backend;
use cool_admin::service::base::{BaseService, validate_identifier};
use cool_admin::tag::{UrlTagStore, TagType};
use cool_admin::attr::eps_route::parse_eps_route_args;

#[test]
fn crud_types() {
    assert_eq!(CrudType::from_str("PAGE").unwrap().as_str(), "page");
    match CrudType::from_str("nope") {
        Err(CoolError::Validate(m)) => assert_eq!(m, "无效的 CrudType: nope"),
        other => panic!("{:?}", other),
    }
    assert_eq!(CrudType::Info.method(), "GET");
    assert_eq!(CrudType::Add.description(), "新增");
    assert_eq!(ResCode::NotFound.code(), 1007);
}

#[test]
fn errors_and_responses() {
    let e = CoolError::not_found();
    assert_eq!(e.status_code(), 404);
    assert_eq!(e.code().code(), 1007);
    let r: CoolResponse<()> = CoolResponse::from_error(&CoolError::Jwt("bad".to_string()));
    assert_eq!(r.message, "JWT 错误: bad");
    assert_eq!(r.code, 1005);
    let ok = CoolResponse::ok(5);
    assert_eq!((ok.code, ok.data), (1000, Some(5)));
    let h = handle_error(&CoolError::validate("x"));
    assert_eq!((h.code, h.message.as_str()), (1002, "x"));
}

#[test]
fn configuration_defaults_and_urls() {
    let c = CoolConfig::default();
    assert_eq!(c.crud.page_size, 20);
    assert_eq!(JwtConfig::default().expire, 7200);
    assert!(CrudConfig::default().soft_delete);
    let r = RedisConfig { host: "h".to_string(), port: 6379, password: Some("p".to_string()), db: 2 };
    assert_eq!(r.url(), "redis://:p@h:6379/2");
    let d = DatabaseConfig {
        db_type: "mysql".to_string(), host: None, port: None, username: None, password: Some("pw".to_string()),
        database: "cool".to_string(), max_connections: 10, min_connections: 1, connect_timeout: 30, logging: false, synchronize: false,
    };
    assert_eq!(d.url(), "mysql://root:pw@localhost:3306/cool");
}

#[test]
fn page_statements() {
    let svc = BaseService::new("goods");
    let q = PageQuery { page: 2, size: 10, order: None, sort: None, key_word: None };
    assert_eq!(q.offset(), 10);
    let st = svc.page(q, QueryOption::new()).unwrap();
    assert_eq!(st.count.sql, "SELECT COUNT(*) as count FROM goods");
    assert_eq!(st.data.sql, "SELECT * FROM goods LIMIT ? OFFSET ?");
    assert!(validate_identifier("user_name").is_ok());
    assert!(validate_identifier("a;b").is_err());
    let bad = PageQuery { order: Some("id;drop".to_string()), ..PageQuery::default_query() };
    assert!(svc.page(bad, QueryOption::new()).is_err());
}

#[test]
fn where_builder() {
    let w = WhereBuilder::new().eq("status", JsonValue::Int(1)).like("name", "ab");
    let frags = w.build();
    assert_eq!(frags.len(), 2);
}

#[test]
fn memory_cache_get_after_set_and_expiry() {
    let mut c = MemoryCache::new();
    c.set("a", "1".to_string(), Some(100), 1000);
    assert_eq!(c.get("a", 1100).as_deref(), Some("1"));
    assert_eq!(c.get("a", 1101), None);
    c.set("b", "2".to_string(), None, 0);
    assert!(c.key_exists("b", u64::MAX));
    c.del("b");
    assert_eq!(c.get("b", 0), None);
    c.set("user:1", "x".to_string(), None, 0);
    c.set("order:1", "y".to_string(), None, 0);
    assert_eq!(c.keys("user*"), vec!["user:1".to_string()]);
    c.cleanup(5000);
    assert_eq!(c.get("a", 0), None);
    c.clear();
    assert!(c.all_keys().is_empty());
    assert_eq!(full_key("app", "k"), "app:k");
    assert_eq!(full_key("", "k"), "k");
    assert_eq!(strip_key_prefix("app", "app:k:1"), "k:1");
    assert!(CacheFactory::memory().all_keys().is_empty());
}

#[test]
fn tag_store_keeps_unique_urls_per_scope() {
    let mut s = UrlTagStore::new();
    let key = TagType::IgnoreToken.as_key();
    assert_eq!(key, "ignoreToken");
    s.add_class_tag(&key, &vec!["/admin/login".to_string(), "/app/login".to_string(), "/admin/login".to_string()]);
    s.add_method_tag(&key, "/app/login");
    s.add_method_tag(&key, "/open/ping");
    assert_eq!(s.by_key(&key, None), vec!["/admin/login", "/app/login", "/open/ping"]);
    assert_eq!(s.by_key(&key, Some("admin")), vec!["/admin/login"]);
    assert_eq!(s.by_key(&key, Some("app")), vec!["/app/login"]);
    assert!(s.by_key("other", None).is_empty());
    assert_eq!(TagType::Custom("x".to_string()).as_key(), "x");
}

#[test]
fn eps_registration_from_route_arguments() {
    let mut reg = EpsRegistry::new();
    let args = parse_eps_route_args("module=\"user\", scope=\"app\", prefix=\"/app/user\", controller=\"用户\", summary=\"\", ignore_token");
    let cols = vec![ColumnInfo::for_field("nickName", "String")];
    reg.register_route(&args, "login", cols);
    let app = reg.app_eps();
    assert_eq!(app.len(), 1);
    assert_eq!(app[0].0, "user");
    let c = &app[0].1[0];
    assert_eq!(c.prefix, "/app/user");
    assert_eq!(c.api[0].path, "/login");
    assert_eq!(c.api[0].method, "GET");
    assert_eq!(c.api[0].summary, None);
    assert!(c.api[0].ignore_token);
    assert_eq!(c.description.as_deref(), Some("用户"));
    assert_eq!(c.columns[0].column_type, "string");
    assert!(reg.admin_eps().is_empty());
    assert_eq!(reg.modules()[0].1.description, "用户");
    reg.register_module("user", ModuleInfo { name: "user".to_string(), description: "用户模块".to_string() });
    assert_eq!(reg.modules().len(), 1);
    assert_eq!(EpsScope::from_name("APP"), EpsScope::App);
    assert_eq!(EpsScope::from_name("x"), EpsScope::Admin);
}

fn module(name: &str, order: i32) -> ModuleConfig {
    ModuleConfig { name: name.to_string(), description: String::new(), order }
}

#[test]
fn modules_load_higher_order_first() {
    let mut r = ModuleRegistry::new();
    r.register(module("base", 10));
    r.register(module("user", 0));
    r.register(module("space", 10));
    r.register(module("task", 20));
    let names: Vec<String> = r.get_all().into_iter().map(|c| c.name).collect();
    assert_eq!(names, vec!["task", "base", "space", "user"]);
    let infos = r.info_list();
    assert!(infos.iter().all(|i| i.enabled && i.prefix.is_empty()));
    assert_eq!(r.get("user").unwrap().order, 0);
    let mut m = ModuleManager::new();
    m.add_scanned(&vec!["base".to_string(), "user".to_string()]);
    assert_eq!(m.modules().len(), 2);
    assert_eq!(menu_lock_file_name("base"), "base.menu.lock");
    assert!(should_import_menu(true, false));
    assert!(!should_import_menu(true, true));
    let app = CoolApp::new(CoolConfig::default()).register(module("demo", 1));
    assert_eq!(app.modules.get_all().len(), 1);
    assert_eq!(CoolApp::ready_event("0.0.0.0:8001").port, 0);
}

#[test]
fn token_check_steps() {
    let cfg = AuthorityConfig::new("s").ignore_url("/open/*").ignore_url("/login");
    assert!(matches!(auth_step(&cfg, "/login", None, None), AuthStep::Skip));
    assert!(matches!(auth_step(&cfg, "/open/a/b", None, None), AuthStep::Skip));
    assert!(matches!(auth_step(&cfg, "/admin/x", None, None), AuthStep::Missing));
    match auth_step(&cfg, "/admin/x", Some("Bearer abc".to_string()), Some("q".to_string())) {
        AuthStep::Check(t) => assert_eq!(t, "abc"),
        _ => panic!("expected a token"),
    }
    match auth_step(&cfg, "/admin/x", None, Some("q".to_string())) {
        AuthStep::Check(t) => assert_eq!(t, "q"),
        _ => panic!("expected a token"),
    }
    let cfg2 = AuthorityConfig::default().ignore_urls(&vec!["/a".to_string(), "/a".to_string()]);
    assert_eq!(cfg2.ignore_urls.len(), 1);
    assert_eq!(cfg2.token_header, "Authorization");
    let ans = missing_token_answer();
    assert_eq!((ans.code, ans.message.as_str()), (1005, "未授权访问"));
}

#[test]
fn verified_claims_outcomes() {
    let claims = JwtClaims::issued_at(7, Some("bob".to_string()), vec![1], true, None, 100, 1000);
    assert_eq!(claims.exp, 1100);
    match auth_outcome(Ok(claims), 1050) {
        AuthOutcome::Accept(a) => assert_eq!((a.user_id, a.is_admin), (7, true)),
        _ => panic!("expected acceptance"),
    }
    let old = JwtClaims::issued_at(7, None, vec![], false, None, 1, 0);
    match auth_outcome(Ok(old), 5) {
        AuthOutcome::Reject(r) => assert_eq!(r.message, "Token 已过期"),
        _ => panic!("expected refusal"),
    }
    match auth_outcome(Err(CoolError::Jwt("sig".to_string())), 5) {
        AuthOutcome::Reject(r) => assert_eq!(r.message, "JWT 错误: sig"),
        _ => panic!("expected refusal"),
    }
    let now_claims = JwtClaims::new(1, None, vec![], false, None, 60);
    assert_eq!(now_claims.exp, now_claims.iat + 60);
    let a: AdminInfo = AdminInfo::from(JwtClaims::issued_at(3, None, vec![9], false, Some(4), 0, 0));
    assert_eq!((a.user_id, a.tenant_id, a.role_ids), (3, Some(4), vec![9]));
}

#[test]
fn error_filter_and_request_log() {
    assert!(filter_error(200, false, None).is_none());
    assert!(filter_error(404, true, None).is_none());
    let e = filter_error(500, false, None).unwrap();
    assert_eq!((e.code, e.message.as_str()), (1004, "请求处理失败"));
    let e2 = filter_error(403, false, Some("denied".to_string())).unwrap();
    assert_eq!((e2.code, e2.message.as_str()), (403, "denied"));
    assert!(log_skips(&vec!["/health".to_string()], "/health/live"));
    assert!(!log_skips(&vec!["/health".to_string()], "/api"));
    assert_eq!(log_user(None), "anonymous");
    let admin = AdminInfo { user_id: -12, username: None, role_ids: vec![], is_admin: false, tenant_id: None };
    assert_eq!(log_user(Some(&admin)), "-12");
    assert!(log_success(204));
    assert!(!log_success(302));
}

#[test]
fn controller_routes() {
    let o = controller_option("api = \"add,info,bogus\"", "GoodsController");
    assert_eq!(o.prefix.as_deref(), Some("/goods"));
    assert_eq!(o.api, vec![CrudApi::Add, CrudApi::Info]);
    let (prefix, routes) = crud_routes(&o);
    assert_eq!(prefix, "/goods");
    assert_eq!(routes, vec![(CrudApi::Add, "add", HttpMethod::Post), (CrudApi::Info, "info", HttpMethod::Get)]);
    let (p2, r2) = crud_routes(&ControllerOption::default());
    assert_eq!((p2.as_str(), r2.len()), ("/", 0));
    assert_eq!(CrudApi::all().len(), 6);
    assert_eq!(info_id(Some("42")).unwrap(), 42);
    assert_eq!(info_id(Some("x")).unwrap_err().message, "缺少 id 参数");
    assert!(info_id(None).is_err());
    match missing_crud_service() {
        CoolError::Comm(m) => assert!(m.starts_with("未找到 CRUD 服务实例")),
        other => panic!("{:?}", other),
    }
    assert!(check_backend(DbType::Mysql, DbType::Mysql).is_ok());
    match check_backend(DbType::Sqlite, DbType::Postgres) {
        Err(CoolError::Comm(m)) => assert_eq!(m, "当前连接不是 Postgres 后端"),
        other => panic!("{:?}", other),
    }
}

#[test]
fn event_handlers_in_registration_order() {
    let mut m = EventManager::new();
    let a = m.on(SOFT_DELETE);
    let b = m.on("other");
    let c = m.on(SOFT_DELETE);
    assert_eq!(m.emit_order(SOFT_DELETE), vec![a, c]);
    assert_eq!(m.emit_order("other"), vec![b]);
    m.off(SOFT_DELETE);
    assert!(m.emit_order(SOFT_DELETE).is_empty());
    m.clear();
    assert!(m.emit_order("other").is_empty());
}
