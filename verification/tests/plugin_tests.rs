use cool_admin::es::search::Json;
use cool_admin::plugin::installer::{plugin_document, PluginData};
use std::hash::{Hash, Hasher};
use cool_admin::plugin::{PluginInfo, PluginStatus, PluginError};
use cool_admin::plugin::constant::{ResCode, ResMessage, ErrInfo, Event, GlobalConfig};
use cool_admin::plugin::exception::{BaseException, CoolCommException, CoolCoreException, CoolValidateException};
use cool_admin::plugin::installer::{CheckResult, PluginInstaller, InstallerError};
use cool_admin::plugin::upload::{PathValidator, UploadError, LocalUploadHook, UploadContext, ModeType};
use cool_admin::plugin::hook::{HookManager, HookEntry, HookContext};
use cool_admin::plugin::registry::{PluginRegistry, init_config};
use cool_admin::plugin::service::PluginService;
use cool_admin::plugin::cache::{FsCacheStore, CacheOptions, is_expired, CacheError};

#[test]
fn test_check_result() {
    assert_eq!(CheckResult::Passed.message(), "检查通过");
    assert_eq!(CheckResult::Exists.message(), "插件已存在，继续安装将覆盖");
}

#[test]
fn check_result_codes() {
    assert_eq!(CheckResult::Incomplete.code(), 0);
    assert_eq!(CheckResult::HookExists.code(), 2);
    assert_eq!(CheckResult::Passed.code(), 3);
}

#[test]
fn response_codes_and_messages() {
    assert_eq!(ResCode::Success.as_u32(), 1000);
    assert_eq!(ResCode::CoreFail.as_u32(), 1003);
    assert_eq!(ResMessage::COMM_FAIL, "comm fail");
    assert_eq!(ErrInfo::NO_ID, "查询参数[id]不存在");
    assert_eq!(Event::ES_DATA_CHANGE, "esDataChange");
    let g = GlobalConfig::get_instance();
    assert_eq!(g.res_code().validate_fail(), 1002);
    assert_eq!(g.res_message().core_fail(), "core fail");
}

#[test]
fn exceptions_fall_back_to_configured_messages() {
    let e = CoolCommException::new("");
    assert_eq!(e.status(), 1001);
    assert_eq!(e.message(), "comm fail");
    assert_eq!(e.text(), "CoolCommException: comm fail");
    let c = CoolCoreException::new("disk full");
    assert_eq!((c.status(), c.message()), (1003, "disk full"));
    let v = CoolValidateException::new("");
    assert_eq!((v.status(), v.message()), (1002, "validate fail"));
    let b = BaseException::new("X".to_string(), 7, "m".to_string());
    assert_eq!(b.text(), "X: m");
}

fn info(key: &str, hook: &str) -> PluginInfo {
    PluginInfo { key: key.to_string(), hook: hook.to_string(), name: key.to_string(), ..Default::default() }
}

#[test]
fn installer_checks() {
    let inst = PluginInstaller::new("plugins");
    assert_eq!(inst.plugin_path("wx"), "plugins/wx");
    let existing = vec![
        ("pay".to_string(), (false, true)),
        ("upload".to_string(), (true, true)),
        ("oss".to_string(), (true, false)),
    ];
    assert_eq!(inst.check_plugin(Ok(info("pay", "")), &existing).unwrap(), (CheckResult::Exists, None));
    assert_eq!(inst.check_plugin(Ok(info("upload", "")), &existing).unwrap(), (CheckResult::HookExists, None));
    assert_eq!(inst.check_plugin(Ok(info("oss", "")), &existing).unwrap(), (CheckResult::Passed, None));
    assert_eq!(inst.check_plugin(Ok(info("new", "")), &existing).unwrap(), (CheckResult::Passed, None));
    let bad = inst.check_plugin(Err(InstallerError::Zip("broken".to_string())), &existing).unwrap();
    assert_eq!(bad, (CheckResult::Incomplete, Some("插件信息不完整: ZIP 错误: broken".to_string())));
    match inst.check_plugin(Ok(info("plugin", "")), &existing) {
        Err(InstallerError::Common(e)) => assert_eq!(e.message(), "插件key不能为plugin，请更换其他key"),
        other => panic!("unexpected {:?}", other),
    }
}

#[test]
fn sanitize_paths() {
    assert_eq!(PathValidator::sanitize_path("").unwrap(), "");
    assert_eq!(PathValidator::sanitize_path("a/b.png").unwrap(), "a/b.png");
    assert_eq!(PathValidator::sanitize_path("a/b/").unwrap(), "a/b");
    assert_eq!(PathValidator::sanitize_path("a/.").unwrap(), "a");
    assert_eq!(PathValidator::sanitize_path(".").unwrap(), ".");
    for bad in ["../x", "a/../b", "./a", "a\\b", "a//b", "/etc/passwd", "C:x", "a\0b", ".\\x"] {
        assert!(matches!(PathValidator::sanitize_path(bad), Err(UploadError::InvalidPath)), "{}", bad);
    }
    assert!(PathValidator::is_windows_absolute_path("d:\\"));
    assert!(!PathValidator::is_windows_absolute_path("1:"));
}

#[test]
fn target_paths_must_stay_inside_base() {
    assert!(PathValidator::validate_target_path("/srv/up/2024/a.png", "/srv/up").is_ok());
    assert!(PathValidator::validate_target_path("/srv/up", "/srv/up/").is_ok());
    assert!(matches!(PathValidator::validate_target_path("/srv/upload/a", "/srv/up"), Err(UploadError::PathOutOfRange)));
    assert!(PathValidator::validate_target_path("/etc/a", "/srv/up").is_err());
    assert_eq!(UploadError::PathOutOfRange.message(), "文件路径超出允许范围");
}

#[test]
fn upload_plans() {
    let hook = LocalUploadHook::new(info("upload", "upload"), "/srv/up", "https://cdn".to_string());
    assert_eq!(hook.get_mode().mode, ModeType::Local);
    let ctx = UploadContext { file_data: vec![1, 2, 3], filename: "photo.png".to_string(), key: Some("avatars/me.png".to_string()), fields: vec![] };
    let p = hook.upload_plan(&ctx, "20240101").unwrap();
    assert_eq!(p.name, "20240101/avatars/me.png");
    assert_eq!(p.target, "/srv/up/20240101/avatars/me.png");
    assert_eq!(p.url, "https://cdn/upload/20240101/avatars/me.png");
    let anon = UploadContext { key: None, ..ctx };
    let q = hook.upload_plan(&anon, "20240101").unwrap();
    assert!(q.name.starts_with("20240101/") && q.name.ends_with(".png"));
    assert_eq!(q.name.len(), "20240101/".len() + 36 + 4);
    let empty = UploadContext { file_data: vec![], filename: "x".to_string(), key: None, fields: vec![] };
    assert!(matches!(hook.upload_plan(&empty, "d"), Err(UploadError::EmptyFile)));
    assert!(matches!(hook.down_and_upload_plan("https://x/y.png", None, "d"), Err(UploadError::Http(_))));
    let k = hook.upload_with_key_plan("x/y.txt", "d").unwrap();
    assert_eq!(k.url, "https://cdn/upload/d/x/y.txt");
    let d = hook.down_and_upload_plan("/tmp/a.jpg", Some("dir/b.jpg"), "d").unwrap();
    assert_eq!(d.name, "d/b.jpg");
}

#[test]
fn hooks_run_in_priority_order() {
    let mut m = HookManager::new();
    m.register("beforeUpload", HookEntry { name: "b".to_string(), priority: 5 });
    m.register("beforeUpload", HookEntry { name: "a".to_string(), priority: 1 });
    m.register("beforeUpload", HookEntry { name: "c".to_string(), priority: 5 });
    m.register("beforeUpload", HookEntry { name: "d".to_string(), priority: 0 });
    assert_eq!(m.list("beforeUpload"), vec!["d", "a", "b", "c"]);
    m.remove("beforeUpload");
    assert!(m.list("beforeUpload").is_empty());
    let mut ctx = HookContext::new("beforeUpload", "{}".to_string());
    assert!(ctx.proceed);
    ctx.set_result("1".to_string());
    ctx.stop();
    assert!(!ctx.proceed);
    assert_eq!(ctx.result.as_deref(), Some("1"));
}

#[test]
fn registry_and_service() {
    let mut reg = PluginRegistry::new();
    reg.register(info("pay", "pay"), PluginStatus::Enabled);
    reg.register(info("oss", "upload"), PluginStatus::Enabled);
    reg.register(info("cos", "upload"), PluginStatus::Disabled);
    assert!(reg.contains("oss"));
    let ups: Vec<String> = reg.get_by_hook("upload").into_iter().map(|i| i.key).collect();
    assert_eq!(ups, vec!["oss", "cos"]);
    assert!(matches!(reg.invoke_check("cos"), Err(PluginError::Disabled(_))));
    assert!(matches!(reg.invoke_check("nope"), Err(PluginError::NotFound(_))));
    assert!(reg.invoke_check("pay").is_ok());
    assert_eq!(reg.destroy_order(), vec!["cos", "oss", "pay"]);
    assert_eq!(init_config(&vec![("pay".to_string(), "{\"a\":1}".to_string())], "oss"), "null");
    let mut svc = PluginService::new(reg);
    assert!(svc.check_status("pay").is_ok());
    svc.disable("pay").unwrap();
    assert!(matches!(svc.check_status("pay"), Err(PluginError::Disabled(_))));
    svc.enable("pay").unwrap();
    assert!(svc.check_status("pay").is_ok());
    assert!(matches!(svc.enable("ghost"), Err(PluginError::NotFound(_))));
    svc.set_config("pay", "{\"k\":2}".to_string());
    assert_eq!(svc.get_config("pay").as_deref(), Some("{\"k\":2}"));
    assert_eq!(svc.get_info("pay").unwrap().key, "pay");
    svc.remove("pay").unwrap();
    assert!(matches!(svc.check_status("pay"), Err(PluginError::NotFound(_))));
    assert_eq!(svc.get_config("pay"), None);
    assert_eq!(PluginError::Disabled("x".to_string()).message(), "插件已禁用: x");
}

#[test]
fn file_cache_decisions() {
    let store = FsCacheStore::new(CacheOptions { path: Some("/tmp/c".to_string()), ttl: Some(60) });
    assert_eq!(store.expires_at(None, 100), Some(160));
    assert_eq!(store.expires_at(Some(-1), 100), None);
    assert_eq!(store.expires_at(Some(0), 100), None);
    assert!(!is_expired(Some(160), 159));
    assert!(is_expired(Some(160), 160));
    assert!(!is_expired(None, u64::MAX));
    let forever = FsCacheStore::new(CacheOptions::default());
    assert_eq!(forever.expires_at(None, 5), None);
    let mut h = std::collections::hash_map::DefaultHasher::new();
    "k1".hash(&mut h);
    let expected = format!("{:x}.json", h.finish());
    assert_eq!(FsCacheStore::file_name("k1"), expected);
    assert_eq!(store.file_path("k1"), format!("/tmp/c/{}", expected));
    assert_eq!(CacheError::Io("e".to_string()).message(), "IO 错误: e");
}

#[test]
fn plugin_document_layout() {
    let data = PluginData {
        plugin_json: PluginInfo::default(),
        readme: "r".to_string(),
        logo: "l".to_string(),
        content: "code".to_string(),
        ts_content: "ts code".to_string(),
    };
    let doc = plugin_document(&data);
    let typed = |t: &str, d: &str| {
        Json::Object(vec![("type".to_string(), Json::Str(t.to_string())), ("data".to_string(), Json::Str(d.to_string()))])
    };
    assert_eq!(
        doc,
        Json::Object(vec![("content".to_string(), typed("comm", "code")), ("tsContent".to_string(), typed("ts", "ts code"))])
    );
}

#[test]
fn hook_chain_runs_in_order_until_stopped() {
    let mut ctx = HookContext::new("upload", "{}".to_string());
    assert_eq!(ctx.next_handler(0, 3), Some(0));
    assert_eq!(ctx.next_handler(2, 3), Some(2));
    assert_eq!(ctx.next_handler(3, 3), None);
    ctx.stop();
    assert_eq!(ctx.next_handler(1, 3), None);
}
