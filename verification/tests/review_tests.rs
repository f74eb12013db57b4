use cool_admin::attr::simple::{rpc_event_handler_entry, rpc_service_name};
use cool_admin::cache::{cached_answer, keep_result, MemoryCache};
use cool_admin::entity::mongo::{BaseMongoFields, ObjectId};
use cool_admin::entity::{JoinType, JsonValue, ListQuery, QueryOption, SqlValue};
use cool_admin::plugin::upload::{local_date_dir, PathValidator, UploadError};
use cool_admin::service::base::BaseService;
use cool_admin::util::string::{strip_html, try_strip_html};
use cool_admin::util::{uuid, uuid_simple};

#[test]
fn list_keeps_left_joins() {
    let svc = BaseService::new("user");
    let q = ListQuery { order: None, sort: None, key_word: None };
    let opt = QueryOption::new().add_left_join("dept", "d", "d.id = user.dept_id", JoinType::Left);
    let st = svc.list(q, opt).unwrap();
    assert_eq!(st.sql, "SELECT * FROM user LEFT JOIN dept AS d ON d.id = user.dept_id");
    assert!(st.params.is_empty());
}

#[test]
fn update_statement_text() {
    let svc = BaseService::new("user");
    let data = vec![
        ("id".to_string(), JsonValue::Int(7)),
        ("name".to_string(), JsonValue::Str("a".to_string())),
        ("age".to_string(), JsonValue::Null),
    ];
    let st = svc.update(&data).unwrap().unwrap();
    assert_eq!(st.sql, "UPDATE user SET name = ?, age = ? WHERE id = ?");
    assert_eq!(st.params, vec![SqlValue::Text("a".to_string()), SqlValue::NullText, SqlValue::BigInt(7)]);
}

#[test]
fn target_climbing_out_is_refused() {
    assert!(matches!(
        PathValidator::validate_target_path("/srv/up/new/../../etc/x", "/srv/up"),
        Err(UploadError::PathOutOfRange)
    ));
    assert!(PathValidator::validate_target_path("/srv/up/new/x", "/srv/up").is_ok());
    assert!(PathValidator::validate_target_path("/srv/up/x/../y", "/srv/up").is_ok());
    assert!(PathValidator::validate_target_path("/srv/up/..", "/srv/up").is_err());
    assert!(PathValidator::validate_target_path("/../srv/up/a", "/srv/up").is_ok());
}

#[test]
fn rpc_names_and_event_entries() {
    assert_eq!(rpc_service_name("", "UserService"), "UserService");
    assert_eq!(rpc_service_name("name = \"user\", methods = \"add|delete\"", "UserService"), "user");
    assert_eq!(rpc_service_name("\"user\"", "UserService"), "user");
    let (svc, meta) = rpc_event_handler_entry("service = \"user-service\"", "on_user_created").unwrap();
    assert_eq!(svc, "user-service");
    assert_eq!(meta.name, "on_user_created");
    assert_eq!(meta.handler, "on_user_created");
    let (_, meta) = rpc_event_handler_entry("service = \"s\", event = \"created\"", "f").unwrap();
    assert_eq!(meta.name, "created");
    assert!(rpc_event_handler_entry("", "f").is_none());
    assert!(rpc_event_handler_entry("event = \"created\"", "f").is_none());
}

#[test]
fn mongo_fields_at_given_times() {
    let id = ObjectId::from_bytes([1; 12]);
    let mut f = BaseMongoFields::new_at(id, 1000);
    assert_eq!((f.id, f.create_time, f.update_time), (id, 1000, 1000));
    f.touch_at(2500);
    assert_eq!((f.id, f.create_time, f.update_time), (id, 1000, 2500));
}

#[test]
fn html_tags_removed() {
    assert_eq!(strip_html("<p>Hi <b>there</b></p>"), "Hi there");
    assert_eq!(try_strip_html("a<br/>b").unwrap(), "ab");
}

#[test]
fn date_dir_has_eight_digits() {
    let d = local_date_dir().unwrap();
    assert_eq!(d.len(), 8);
    assert!(d.chars().all(|c| c.is_ascii_digit()));
}

#[test]
fn uuid_variant_digits() {
    for _ in 0..20 {
        let s = uuid_simple();
        assert!(matches!(s.as_bytes()[16], b'8' | b'9' | b'a' | b'b'));
        assert_eq!(s.as_bytes()[12], b'4');
        let h = uuid();
        assert!(matches!(h.as_bytes()[19], b'8' | b'9' | b'a' | b'b'));
    }
}

#[test]
fn cached_calls_keep_only_successes() {
    let mut c = MemoryCache::new();
    let ok: Result<String, String> = Ok("\"v\"".to_string());
    keep_result(&mut c, "cool_cache:foo:k", &ok, 120, 1_000);
    assert_eq!(cached_answer(&c, "cool_cache:foo:k", 121_000).as_deref(), Some("\"v\""));
    assert_eq!(cached_answer(&c, "cool_cache:foo:k", 121_001), None);
    let err: Result<String, String> = Err("boom".to_string());
    keep_result(&mut c, "cool_cache:foo:e", &err, 120, 1_000);
    assert_eq!(cached_answer(&c, "cool_cache:foo:e", 1_000), None);
}

#[test]
fn sanitize_twice_is_sanitize_once() {
    let once = PathValidator::sanitize_path("2024/a.png/").unwrap();
    assert_eq!(once, "2024/a.png");
    assert_eq!(PathValidator::sanitize_path(&once).unwrap(), once);
    let once = PathValidator::sanitize_path("a/b/.").unwrap();
    assert_eq!(once, "a/b");
    assert_eq!(PathValidator::sanitize_path(&once).unwrap(), once);
}

#[test]
fn name_stem_extension_agree() {
    use_paths("dir/archive.tar.gz");
    use_paths("dir/.hidden");
    use_paths("dir/plain");
}

fn use_paths(p: &str) {
    let name = cool_admin::util::location::get_filename(p).unwrap();
    let stem = cool_admin::util::location::get_stem(p).unwrap();
    match cool_admin::util::location::get_extension(p) {
        Some(e) => assert_eq!(name, format!("{}.{}", stem, e)),
        None => assert_eq!(stem, name),
    }
}
