use cool_admin::attr::eps_route::parse_eps_route_args;
use cool_admin::attr::simple::{
    parse_controller_args, default_controller_prefix, column_type, parse_cache_ttl, cache_key,
    parse_tag_name, parse_named_arg, event_name, plugin_key, rpc_method_name,
    parse_rpc_service_args, parse_rpc_event_handler_args, rpc_transaction_db_param,
    transaction_db_param, ParamShape,
};
use cool_admin::scan::{trim_ws, trim_matches, parse_u64, parse_u32, parse_i32, parse_i64, split_trimmed};
use cool_admin::util::md5;

const QUOTE: char = '\u{22}';

fn chars(s: &str) -> Vec<char> {
    s.chars().collect()
}

fn text(v: Vec<char>) -> String {
    v.into_iter().collect()
}

#[test]
fn scan_trim_and_quotes() {
    assert_eq!(text(trim_ws(&chars("  a b \t"))), "a b");
    let quoted = format!("{q}{q}x{q}", q = QUOTE);
    assert_eq!(text(trim_matches(&chars(&quoted), QUOTE)), "x");
    assert_eq!(text(trim_ws(&chars("   "))), "");
}

#[test]
fn scan_numbers_as_str_parse() {
    assert_eq!(parse_u64(&chars("120")), Some(120));
    assert_eq!(parse_u64(&chars("+7")), Some(7));
    assert_eq!(parse_u64(&chars("-7")), None);
    assert_eq!(parse_u64(&chars("")), None);
    assert_eq!(parse_u64(&chars("18446744073709551616")), None);
    assert_eq!(parse_u64(&chars("18446744073709551615")), Some(u64::MAX));
    assert_eq!(parse_u32(&chars("4294967296")), None);
    assert_eq!(parse_i32(&chars("-2147483648")), Some(i32::MIN));
    assert_eq!(parse_i32(&chars("2147483648")), None);
    assert_eq!(parse_i64(&chars("-9223372036854775808")), Some(i64::MIN));
    assert_eq!(parse_i64(&chars("12a")), None);
}

#[test]
fn split_trimmed_drops_empty_pieces() {
    assert_eq!(split_trimmed(&chars(" a | b ||c "), '|'), vec!["a", "b", "c"]);
}

#[test]
fn eps_route_arguments() {
    let a = parse_eps_route_args(
        "module = \"user\", scope = \"app\", prefix = \"/app/user\", entity = \"UserEntity\", controller = \"用户管理\", summary = \"登录\", path = \"/login\", method = \"post\", ignore_token, keyWordLikeFields = \"name|nickName\", orderBy = \"createTime:DESC|id\", tag = \"\"",
    );
    assert_eq!(a.module, "user");
    assert_eq!(a.scope, "app");
    assert_eq!(a.prefix, "/app/user");
    assert_eq!(a.entity.as_deref(), Some("UserEntity"));
    assert_eq!(a.controller.as_deref(), Some("用户管理"));
    assert_eq!(a.summary.as_deref(), Some("登录"));
    assert_eq!(a.path.as_deref(), Some("/login"));
    assert_eq!(a.method, "POST");
    assert!(a.ignore_token);
    assert_eq!(a.key_word_like_fields, vec!["name", "nickName"]);
    assert_eq!(a.order_by, vec![("createTime".to_string(), false), ("id".to_string(), true)]);
    assert_eq!(a.tag, None);
    assert_eq!(a.route_path("login"), "/login");
}

#[test]
fn eps_route_defaults() {
    let a = parse_eps_route_args("");
    assert_eq!(a.scope, "admin");
    assert_eq!(a.method, "GET");
    assert!(!a.ignore_token);
    assert_eq!(a.module, "");
    assert_eq!(a.route_path("info"), "/info");
    let b = parse_eps_route_args("module=\"a\", module=\"b\", unknown=1, ignoreToken");
    assert_eq!(b.module, "b");
    assert!(b.ignore_token);
}

#[test]
fn controller_arguments() {
    let a = parse_controller_args("prefix = \"/admin/goods\", api = \"add,delete,update\"");
    assert_eq!(a.prefix.as_deref(), Some("/admin/goods"));
    assert_eq!(a.apis, vec!["add", "delete", "update"]);
    let b = parse_controller_args("api = [\"page\", \"info\", \"\"]");
    assert_eq!(b.prefix, None);
    assert_eq!(b.apis, vec!["page", "info"]);
    let c = parse_controller_args("");
    assert_eq!(c.apis, vec!["add", "delete", "update", "page", "info", "list"]);
}

#[test]
fn controller_default_prefix() {
    assert_eq!(default_controller_prefix("GoodsController"), "/goods");
    assert_eq!(default_controller_prefix("Order"), "/order");
}

#[test]
fn entity_column_types() {
    assert_eq!(column_type("String"), "string");
    assert_eq!(column_type("Option < i64 >"), "number");
    assert_eq!(column_type("Decimal"), "number");
    assert_eq!(column_type("bool"), "boolean");
    assert_eq!(column_type("DateTime < Utc >"), "datetime");
    assert_eq!(column_type("u16"), "number");
    assert_eq!(column_type("Option < i8 >"), "number");
    assert_eq!(column_type("usize"), "number");
    assert_eq!(column_type("Json"), "string");
}

#[test]
fn cache_ttl_and_key() {
    assert_eq!(parse_cache_ttl("ttl = 120"), 120);
    assert_eq!(parse_cache_ttl(""), 60);
    assert_eq!(parse_cache_ttl("ttl = x"), 60);
    let k = cache_key("get_user", Some("[1]"));
    assert_eq!(k, format!("cool_cache:get_user:{}", md5("[1]")));
    assert_eq!(cache_key("get_user", None), "cool_cache:get_user:nokey");
}

#[test]
fn single_name_arguments() {
    assert_eq!(parse_tag_name(""), "default");
    assert_eq!(parse_tag_name("\"ignoreToken\""), "ignoreToken");
    assert_eq!(parse_tag_name("ignoreToken"), "ignoreToken");
    assert_eq!(parse_named_arg("event = \"onReady\"").as_deref(), Some("onReady"));
    assert_eq!(event_name("", "handle_ready"), "handle_ready");
    assert_eq!(event_name("\"onReady\"", "handle_ready"), "onReady");
    assert_eq!(plugin_key("", "MyPlugin"), "myplugin");
    assert_eq!(plugin_key("key = \"up\"", "MyPlugin"), "up");
    assert_eq!(rpc_method_name(" \"getById\" ", "get"), "getById");
    assert_eq!(rpc_method_name("", "get"), "get");
}

#[test]
fn keyed_rpc_arguments() {
    let s = parse_rpc_service_args("name = \"user\", methods = \"add| delete |info\"");
    assert_eq!(s.name.as_deref(), Some("user"));
    assert_eq!(s.list, vec!["add", "delete", "info"]);
    let s2 = parse_rpc_service_args("\"order\"");
    assert_eq!(s2.name.as_deref(), Some("order"));
    let e = parse_rpc_event_handler_args("service = \"user-service\", event = \"user.created\"");
    assert_eq!(e.name.as_deref(), Some("user-service"));
    assert_eq!(e.second.as_deref(), Some("user.created"));
}

#[test]
fn transaction_connection_parameter() {
    let p = |n: Option<&str>, t: Option<&str>, r: bool| ParamShape {
        name: n.map(|s| s.to_string()),
        ty_name: t.map(|s| s.to_string()),
        is_ref: r,
    };
    let params = vec![p(Some("params"), Some("Value"), false), p(Some("conn"), Some("DatabaseConnection"), true)];
    assert_eq!(rpc_transaction_db_param(&params), "conn");
    let none = vec![p(Some("conn"), Some("DatabaseConnection"), true)];
    assert_eq!(rpc_transaction_db_param(&none), "db");
    assert_eq!(transaction_db_param(&none), "conn");
    assert_eq!(transaction_db_param(&vec![]), "db");
}
