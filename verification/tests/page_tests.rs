use cool_admin::entity::{JsonValue, PageQuery, QueryOption, SqlValue};
use cool_admin::service::base::{page_result, BaseService};

#[test]
fn page_with_filters_example() {
    let svc = BaseService::new("user");
    let q = PageQuery { page: 3, size: 10, order: None, sort: None, key_word: None };
    let filters = vec![
        ("status".to_string(), JsonValue::Int(1)),
        ("name".to_string(), JsonValue::Str("ab".to_string())),
        ("type".to_string(), JsonValue::Null),
    ];
    let opt = QueryOption::new().add_field_eq("status", "status").add_field_eq("type", "type").add_field_like("name", "name");
    let st = svc.page_with_filters(q.clone(), &filters, opt).unwrap();
    assert_eq!(st.count.sql, "SELECT COUNT(*) as count FROM user WHERE status = ? AND name LIKE ?");
    assert_eq!(st.count.params, vec![SqlValue::BigInt(1), SqlValue::Text("%ab%".to_string())]);
    assert_eq!(st.data.sql, "SELECT * FROM user WHERE status = ? AND name LIKE ? LIMIT ? OFFSET ?");
    assert_eq!(
        st.data.params,
        vec![SqlValue::BigInt(1), SqlValue::Text("%ab%".to_string()), SqlValue::BigUnsigned(10), SqlValue::BigUnsigned(20)]
    );
    let page = page_result(&q, None, Vec::<JsonValue>::new());
    assert!(page.list.is_empty());
    assert_eq!((page.pagination.page, page.pagination.size, page.pagination.total), (3, 10, 0));
}

#[test]
fn page_result_keeps_rows_and_count() {
    let q = PageQuery { page: 1, size: 2, order: None, sort: None, key_word: None };
    let page = page_result(&q, Some(42), vec!["a", "b"]);
    assert_eq!(page.list, vec!["a", "b"]);
    assert_eq!((page.pagination.page, page.pagination.size, page.pagination.total), (1, 2, 42));
}

#[test]
fn entity_columns_in_field_order() {
    let fields: Vec<(String, String)> = vec![
        ("id", "i64"), ("title", "String"), ("price", "Decimal"), ("on_sale", "bool"),
        ("create_time", "DateTime < Utc >"), ("stock", "u16"),
    ]
    .into_iter()
    .map(|(a, b)| (a.to_string(), b.to_string()))
    .collect();
    let cols = cool_admin::eps::ColumnInfo::columns_of(&fields);
    let types: Vec<&str> = cols.iter().map(|c| c.column_type.as_str()).collect();
    assert_eq!(types, vec!["number", "string", "number", "boolean", "datetime", "number"]);
    assert!(cols.iter().zip(fields.iter()).all(|(c, f)| c.property_name == f.0 && c.source == f.0 && c.nullable));
}
