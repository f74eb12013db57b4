use cool_admin::entity::mongo::{ObjectId, ObjectIdError, BaseMongoFields};
use cool_admin::cli::{
    default_check_configs, replace_default_key, entities_file_content, entities_file_plan,
    cleared_entities_content, select_entity_files, to_slash_path,
};
use cool_admin::rpc::{TransactionEventHandler, TransactionEvent};

#[test]
fn test_object_id() {
    let id = ObjectId::new();
    let id_str = id.to_string();
    assert_eq!(id_str.len(), 24);

    let parsed = ObjectId::parse(&id_str).unwrap();
    assert_eq!(id, parsed);
}

#[test]
fn object_id_text_of_known_bytes() {
    let id = ObjectId::from_bytes([0x50, 0x7f, 0x1f, 0x77, 0xbc, 0xf8, 0x6c, 0xd7, 0x99, 0x43, 0x90, 0x11]);
    assert_eq!(id.to_string(), "507f1f77bcf86cd799439011");
    let upper = ObjectId::parse("507F1F77BCF86CD799439011").unwrap();
    assert_eq!(upper, id);
    assert_eq!(upper.bytes(), id.bytes());
}

#[test]
fn object_id_parse_errors() {
    match ObjectId::parse("abc") {
        Err(ObjectIdError::InvalidHexStringLength { length, hex }) => {
            assert_eq!(length, 3);
            assert_eq!(hex, "abc");
        }
        other => panic!("unexpected {:?}", other),
    }
    match ObjectId::parse("0123456789abcdef0123456g") {
        Err(ObjectIdError::InvalidHexStringCharacter { c, index, .. }) => {
            assert_eq!(c, 'g');
            assert_eq!(index, 23);
        }
        other => panic!("unexpected {:?}", other),
    }
    match ObjectId::parse("0123456789abcdef01234567ab") {
        Err(ObjectIdError::InvalidHexStringLength { length, .. }) => assert_eq!(length, 26),
        other => panic!("unexpected {:?}", other),
    }
    match ObjectId::parse("x1") {
        Err(ObjectIdError::InvalidHexStringCharacter { c, index, .. }) => {
            assert_eq!(c, 'x');
            assert_eq!(index, 0);
        }
        other => panic!("unexpected {:?}", other),
    }
}

#[test]
fn base_mongo_fields_touch_keeps_id() {
    let mut fields = BaseMongoFields::new();
    assert_eq!(fields.create_time, fields.update_time);
    let id = fields.id;
    let created = fields.create_time;
    let old_update_time = fields.update_time;
    fields.touch();
    assert_eq!(fields.id, id);
    assert_eq!(fields.create_time, created);
    assert!(fields.update_time >= old_update_time);
}

#[test]
fn check_configs_and_key_replacement() {
    let configs = default_check_configs();
    assert_eq!(configs.len(), 3);
    assert_eq!(configs[1].path(), "src/modules/base/config.ts");
    assert_eq!(configs[1].pattern(), "cool-admin-xxxxxx");
    assert!(replace_default_key(&configs[1], "keys: 'abc'").is_none());
    let replaced = replace_default_key(&configs[1], "a cool-admin-xxxxxx b cool-admin-xxxxxx").unwrap();
    assert!(!replaced.contains("cool-admin-xxxxxx"));
    assert_eq!(replaced.len(), "a  b ".len() + 2 * 36);
    assert_eq!(&replaced[2..38], &replaced[41..77]);
}

#[test]
fn entities_file_texts() {
    assert!(entities_file_plan(0).is_none());
    let c = entities_file_content(2);
    assert!(c.contains("mod entity_0;\nmod entity_1;\n\n"));
    assert_eq!(entities_file_plan(2).unwrap(), c);
    assert!(c.starts_with("// 自动生成的文件，请勿手动修改\n"));
    assert!(cleared_entities_content().ends_with("// 请根据实际情况调整导出语句\n"));
}

#[test]
fn entity_file_selection() {
    assert_eq!(to_slash_path("base\\entity\\user.rs"), "base/entity/user.rs");
    let files = vec![
        ("/p/src/modules/base/entity/user.rs".to_string(), "base\\entity\\user.rs".to_string()),
        ("/p/src/modules/base/service/user.rs".to_string(), "base/service/user.rs".to_string()),
        ("/p/src/modules/dict/entity/sub/type.rs".to_string(), "dict/entity/sub/type.rs".to_string()),
        ("/p/src/modules/dict/entity/readme.md".to_string(), "dict/entity/readme.md".to_string()),
    ];
    let chosen = select_entity_files(&files).unwrap();
    assert_eq!(
        chosen,
        vec!["/p/src/modules/base/entity/user.rs".to_string(), "/p/src/modules/dict/entity/sub/type.rs".to_string()]
    );
    assert!(select_entity_files(&Vec::new()).unwrap().is_empty());
}

#[test]
fn transaction_event_handler() {
    let h = TransactionEventHandler;
    assert_eq!(h.event_name(), Some("moleculer.transaction"));
    let ev = TransactionEvent { rpc_transaction_id: "t1".to_string(), commit: true };
    let a = h.action("moleculer.transaction", Some(ev)).unwrap();
    assert_eq!(a.rpc_transaction_id, "t1");
    assert!(a.commit);
    let ev2 = TransactionEvent { rpc_transaction_id: "t2".to_string(), commit: false };
    assert!(h.action("other", Some(ev2)).is_none());
}
