//! Query parameters and query options of the CRUD layer, and the values that
//! flow into SQL statements.

pub mod mongo;

use vstd::prelude::*;
use crate::text::{chars_of, str_eq, str_lower, str_to_lowercase, to_owned_string};

verus! {

/// A JSON value as far as the query layer reads it. Numbers that fit in `i64`
/// are kept as integers; every other number keeps its JSON text; arrays and
/// objects keep their serialised JSON text.
#[derive(Debug, Clone, PartialEq)]
pub enum JsonValue {
    Null,
    Bool(bool),
    Int(i64),
    Number(String),
    Str(String),
    Composite(String),
}

/// A value bound to a `?` placeholder. `Double` carries the decimal text of a
/// floating-point number, which the database driver parses.
#[derive(Debug, Clone, PartialEq)]
pub enum SqlValue {
    /// A null bound as a text value (`Value::String(None)`).
    NullText,
    Bool(bool),
    BigInt(i64),
    BigUnsigned(u64),
    Double(String),
    Text(String),
}

/// The mathematical form of a bound value.
pub enum SqlParam {
    NullText,
    Bool(bool),
    BigInt(i64),
    BigUnsigned(u64),
    Double(Seq<char>),
    Text(Seq<char>),
}

impl View for SqlValue {
    type V = SqlParam;

    open spec fn view(&self) -> SqlParam {
        match self {
            SqlValue::NullText => SqlParam::NullText,
            SqlValue::Bool(b) => SqlParam::Bool(*b),
            SqlValue::BigInt(i) => SqlParam::BigInt(*i),
            SqlValue::BigUnsigned(u) => SqlParam::BigUnsigned(*u),
            SqlValue::Double(s) => SqlParam::Double(s@),
            SqlValue::Text(s) => SqlParam::Text(s@),
        }
    }
}

/// The views of a sequence of bound values.
pub open spec fn params_view(v: Seq<SqlValue>) -> Seq<SqlParam> {
    v.map_values(|x: SqlValue| x@)
}

/// How a JSON value is bound: null as a null text, integers as `BIGINT`, other
/// numbers as `DOUBLE`, strings as text and arrays or objects as their JSON text.
pub open spec fn json_param(v: JsonValue) -> SqlParam {
    match v {
        JsonValue::Null => SqlParam::NullText,
        JsonValue::Bool(b) => SqlParam::Bool(b),
        JsonValue::Int(i) => SqlParam::BigInt(i),
        JsonValue::Number(n) => SqlParam::Double(n@),
        JsonValue::Str(s) => SqlParam::Text(s@),
        JsonValue::Composite(t) => SqlParam::Text(t@),
    }
}

/// Converts a JSON value to the value bound to a placeholder.
pub fn json_to_sql_value(v: &JsonValue) -> (r: SqlValue)
    ensures
        r@ == json_param(*v),
{
    match v {
        JsonValue::Null => SqlValue::NullText,
        JsonValue::Bool(b) => SqlValue::Bool(*b),
        JsonValue::Int(i) => SqlValue::BigInt(*i),
        JsonValue::Number(n) => SqlValue::Double(n.clone()),
        JsonValue::Str(s) => SqlValue::Text(s.clone()),
        JsonValue::Composite(t) => SqlValue::Text(t.clone()),
    }
}

/// Paging parameters of a page query.
#[derive(Debug, Clone)]
pub struct PageQuery {
    pub page: u64,
    pub size: u64,
    pub order: Option<String>,
    pub sort: Option<String>,
    pub key_word: Option<String>,
}

/// Whether an optional sort direction asks for ascending order: its lower-case
/// form is `asc`.
pub open spec fn sort_is_asc(sort: Option<String>) -> bool {
    match sort {
        Some(s) => str_lower(s@) == "asc"@,
        None => false,
    }
}

/// The row offset of page `page` of `size` rows (pages count from 1; page 0 is page 1).
pub open spec fn page_offset(page: u64, size: u64) -> int {
    (if page == 0 { 0 } else { page - 1 }) * size
}

/// Whether an optional sort direction asks for ascending order.
pub fn sort_asc(sort: &Option<String>) -> (b: bool)
    ensures
        b == sort_is_asc(*sort),
{
    match sort {
        Some(s) => {
            let l = str_to_lowercase(s.as_str());
            str_eq(l.as_str(), "asc")
        },
        None => false,
    }
}

impl PageQuery {
    /// Page 1 of 20 rows with nothing else set.
    pub fn default_query() -> (q: PageQuery)
        ensures
            q.page == 1,
            q.size == 20,
            q.order is None,
            q.sort is None,
            q.key_word is None,
    {
        PageQuery { page: 1, size: 20, order: None, sort: None, key_word: None }
    }

    /// The row offset of this page.
    pub fn offset(&self) -> (r: u64)
        requires
            page_offset(self.page, self.size) <= u64::MAX,
        ensures
            r == page_offset(self.page, self.size),
    {
        let p = self.page.saturating_sub(1);
        assert(p == (if self.page == 0 { 0 } else { self.page - 1 }));
        p * self.size
    }

    /// Whether rows are sorted ascending.
    pub fn is_asc(&self) -> (b: bool)
        ensures
            b == sort_is_asc(self.sort),
    {
        sort_asc(&self.sort)
    }
}

/// Parameters of a list query.
#[derive(Debug, Clone)]
pub struct ListQuery {
    pub order: Option<String>,
    pub sort: Option<String>,
    pub key_word: Option<String>,
}

/// Ids to delete.
#[derive(Debug, Clone)]
pub struct DeleteParam {
    pub ids: Vec<i64>,
}

/// The id of an added row.
#[derive(Debug, Clone, Copy)]
pub struct AddResult {
    pub id: i64,
}

/// The ids of added rows.
#[derive(Debug, Clone)]
pub struct BatchAddResult {
    pub ids: Vec<i64>,
}

/// A column filtered by a request parameter.
#[derive(Debug, Clone)]
pub struct FieldCondition {
    pub column: String,
    pub request_param: String,
}

impl FieldCondition {
    /// A condition whose request parameter has the column's name.
    pub fn new(column: &str) -> (c: FieldCondition)
        ensures
            c.column@ == column@,
            c.request_param@ == column@,
    {
        FieldCondition { column: to_owned_string(column), request_param: to_owned_string(column) }
    }

    /// A condition on `column` read from `request_param`.
    pub fn with_param(column: &str, request_param: &str) -> (c: FieldCondition)
        ensures
            c.column@ == column@,
            c.request_param@ == request_param@,
    {
        FieldCondition {
            column: to_owned_string(column),
            request_param: to_owned_string(request_param),
        }
    }
}

/// Kind of join.
#[derive(Debug, Clone, Copy, PartialEq, Eq)]
pub enum JoinType {
    Inner,
    Left,
}

/// A joined table.
#[derive(Debug, Clone)]
pub struct JoinOption {
    pub entity: String,
    pub alias: String,
    pub condition: String,
    pub join_type: JoinType,
}

/// An SQL condition with its bound values.
#[derive(Debug, Clone)]
pub struct WhereFragment {
    pub sql: String,
    pub params: Vec<JsonValue>,
}

impl View for WhereFragment {
    type V = (Seq<char>, Seq<JsonValue>);

    open spec fn view(&self) -> (Seq<char>, Seq<JsonValue>) {
        (self.sql@, self.params@)
    }
}

/// The views of a sequence of fragments.
pub open spec fn frags_view(v: Seq<WhereFragment>) -> Seq<(Seq<char>, Seq<JsonValue>)> {
    v.map_values(|f: WhereFragment| f@)
}

/// Options of page and list queries.
#[derive(Debug, Clone)]
pub struct QueryOption {
    pub key_word_like_fields: Vec<String>,
    pub select: Vec<String>,
    pub field_like: Vec<FieldCondition>,
    pub field_eq: Vec<FieldCondition>,
    pub order_by: Vec<(String, bool)>,
    pub joins: Vec<JoinOption>,
    pub where_and: Vec<String>,
    pub left_join: Vec<JoinOption>,
    pub extra_where: Vec<WhereFragment>,
}

/// Whether every list of an option is empty.
pub open spec fn option_is_empty(o: QueryOption) -> bool {
    &&& o.key_word_like_fields@.len() == 0
    &&& o.select@.len() == 0
    &&& o.field_like@.len() == 0
    &&& o.field_eq@.len() == 0
    &&& o.order_by@.len() == 0
    &&& o.joins@.len() == 0
    &&& o.where_and@.len() == 0
    &&& o.left_join@.len() == 0
    &&& o.extra_where@.len() == 0
}

impl QueryOption {
    /// An option with every list empty.
    pub fn new() -> (o: QueryOption)
        ensures
            option_is_empty(o),
    {
        QueryOption {
            key_word_like_fields: Vec::new(),
            select: Vec::new(),
            field_like: Vec::new(),
            field_eq: Vec::new(),
            order_by: Vec::new(),
            joins: Vec::new(),
            where_and: Vec::new(),
            left_join: Vec::new(),
            extra_where: Vec::new(),
        }
    }

    /// Sets the columns matched by the keyword.
    pub fn key_word_like_fields(self, fields: Vec<String>) -> (o: QueryOption)
        ensures
            o == (QueryOption { key_word_like_fields: fields, ..self }),
    {
        QueryOption { key_word_like_fields: fields, ..self }
    }

    /// Sets the selected columns.
    pub fn select(self, fields: Vec<String>) -> (o: QueryOption)
        ensures
            o == (QueryOption { select: fields, ..self }),
    {
        QueryOption { select: fields, ..self }
    }

    /// Adds an equality filter.
    pub fn add_field_eq(self, column: &str, request_param: &str) -> (o: QueryOption)
        ensures
            o.field_eq@.len() == self.field_eq@.len() + 1,
            o.field_eq@.drop_last() == self.field_eq@,
            o.field_eq@.last().column@ == column@,
            o.field_eq@.last().request_param@ == request_param@,
            o == (QueryOption { field_eq: o.field_eq, ..self }),
    {
        let mut o = self;
        o.field_eq.push(FieldCondition::with_param(column, request_param));
        assert(o.field_eq@.drop_last() =~= self.field_eq@);
        o
    }

    /// Adds a substring filter.
    pub fn add_field_like(self, column: &str, request_param: &str) -> (o: QueryOption)
        ensures
            o.field_like@.len() == self.field_like@.len() + 1,
            o.field_like@.drop_last() == self.field_like@,
            o.field_like@.last().column@ == column@,
            o.field_like@.last().request_param@ == request_param@,
            o == (QueryOption { field_like: o.field_like, ..self }),
    {
        let mut o = self;
        o.field_like.push(FieldCondition::with_param(column, request_param));
        assert(o.field_like@.drop_last() =~= self.field_like@);
        o
    }

    /// Adds a sort column.
    pub fn add_order_by(self, column: &str, asc: bool) -> (o: QueryOption)
        ensures
            o.order_by@.len() == self.order_by@.len() + 1,
            o.order_by@.drop_last() == self.order_by@,
            o.order_by@.last().0@ == column@,
            o.order_by@.last().1 == asc,
            o == (QueryOption { order_by: o.order_by, ..self }),
    {
        let mut o = self;
        o.order_by.push((to_owned_string(column), asc));
        assert(o.order_by@.drop_last() =~= self.order_by@);
        o
    }

    /// Adds a joined table.
    pub fn add_left_join(self, entity: &str, alias: &str, condition: &str, join_type: JoinType) -> (o:
        QueryOption)
        ensures
            o.left_join@.len() == self.left_join@.len() + 1,
            o.left_join@.drop_last() == self.left_join@,
            o.left_join@.last().entity@ == entity@,
            o.left_join@.last().alias@ == alias@,
            o.left_join@.last().condition@ == condition@,
            o.left_join@.last().join_type == join_type,
            o == (QueryOption { left_join: o.left_join, ..self }),
    {
        let mut o = self;
        o.left_join.push(
            JoinOption {
                entity: to_owned_string(entity),
                alias: to_owned_string(alias),
                condition: to_owned_string(condition),
                join_type,
            },
        );
        assert(o.left_join@.drop_last() =~= self.left_join@);
        o
    }

    /// Adds a condition joined with `AND`.
    pub fn add_where_and(self, cond: &str) -> (o: QueryOption)
        ensures
            o.where_and@.len() == self.where_and@.len() + 1,
            o.where_and@.drop_last() == self.where_and@,
            o.where_and@.last()@ == cond@,
            o == (QueryOption { where_and: o.where_and, ..self }),
    {
        let mut o = self;
        o.where_and.push(to_owned_string(cond));
        assert(o.where_and@.drop_last() =~= self.where_and@);
        o
    }

    /// Adds a condition with bound values.
    pub fn add_where_raw(self, sql: &str, params: Vec<JsonValue>) -> (o: QueryOption)
        ensures
            o.extra_where@.len() == self.extra_where@.len() + 1,
            o.extra_where@.drop_last() == self.extra_where@,
            o.extra_where@.last().sql@ == sql@,
            o.extra_where@.last().params == params,
            o == (QueryOption { extra_where: o.extra_where, ..self }),
    {
        let mut o = self;
        o.extra_where.push(WhereFragment { sql: to_owned_string(sql), params });
        assert(o.extra_where@.drop_last() =~= self.extra_where@);
        o
    }

    /// Adds every fragment a builder holds.
    pub fn add_where_fragments(self, builder: WhereBuilder) -> (o: QueryOption)
        ensures
            frags_view(o.extra_where@) == frags_view(self.extra_where@) + frags_view(
                builder.frags@,
            ),
            o == (QueryOption { extra_where: o.extra_where, ..self }),
    {
        let mut o = self;
        let mut frags = builder.build();
        let ghost start = frags_view(o.extra_where@);
        let ghost all = frags_view(frags@);
        let mut i: usize = 0;
        while i < frags.len()
            invariant
                i <= frags.len(),
                frags_view(frags@) == all,
                frags_view(o.extra_where@) == start + all.take(i as int),
                o == (QueryOption { extra_where: o.extra_where, ..self }),
            decreases frags.len() - i,
        {
            let ghost before = o.extra_where@;
            o.extra_where.push(frags[i].clone_fragment());
            assert(frags_view(o.extra_where@) =~= frags_view(before).push(all[i as int]));
            assert(all.take(i as int + 1) =~= all.take(i as int).push(all[i as int]));
            i = i + 1;
        }
        assert(all.take(frags.len() as int) =~= all);
        o
    }
}

impl WhereFragment {
    /// An equal copy of this fragment.
    pub fn clone_fragment(&self) -> (r: WhereFragment)
        ensures
            r@ == self@,
    {
        let mut params: Vec<JsonValue> = Vec::new();
        let mut i: usize = 0;
        while i < self.params.len()
            invariant
                i <= self.params.len(),
                params@ == self.params@.take(i as int),
            decreases self.params.len() - i,
        {
            params.push(clone_json(&self.params[i]));
            assert(self.params@.take(i as int + 1) =~= self.params@.take(i as int).push(
                self.params@[i as int],
            ));
            i = i + 1;
        }
        assert(self.params@.take(self.params.len() as int) =~= self.params@);
        WhereFragment { sql: self.sql.clone(), params }
    }
}

/// An equal copy of a JSON value.
pub fn clone_json(v: &JsonValue) -> (r: JsonValue)
    ensures
        r == *v,
{
    match v {
        JsonValue::Null => JsonValue::Null,
        JsonValue::Bool(b) => JsonValue::Bool(*b),
        JsonValue::Int(i) => JsonValue::Int(*i),
        JsonValue::Number(n) => JsonValue::Number(n.clone()),
        JsonValue::Str(s) => JsonValue::Str(s.clone()),
        JsonValue::Composite(t) => JsonValue::Composite(t.clone()),
    }
}

/// Collects SQL conditions one call at a time.
#[derive(Debug)]
pub struct WhereBuilder {
    pub frags: Vec<WhereFragment>,
}

impl WhereBuilder {
    /// An empty builder.
    pub fn new() -> (b: WhereBuilder)
        ensures
            b.frags@.len() == 0,
    {
        WhereBuilder { frags: Vec::new() }
    }

    /// Adds `column = ?` bound to `value`.
    pub fn eq(self, column: &str, value: JsonValue) -> (b: WhereBuilder)
        ensures
            b.frags@.len() == self.frags@.len() + 1,
            b.frags@.drop_last() == self.frags@,
            b.frags@.last().sql@ == column@ + " = ?"@,
            b.frags@.last().params@ == seq![value],
    {
        let mut b = self;
        let mut sql = to_owned_string(column);
        sql.append(" = ?");
        let mut params: Vec<JsonValue> = Vec::new();
        params.push(value);
        b.frags.push(WhereFragment { sql, params });
        assert(b.frags@.drop_last() =~= self.frags@);
        assert(b.frags@.last().params@ =~= seq![value]);
        b
    }

    /// Adds `column LIKE ?` bound to `%value%`.
    pub fn like(self, column: &str, value: &str) -> (b: WhereBuilder)
        ensures
            b.frags@.len() == self.frags@.len() + 1,
            b.frags@.drop_last() == self.frags@,
            b.frags@.last().sql@ == column@ + " LIKE ?"@,
            b.frags@.last().params@.len() == 1,
            b.frags@.last().params@[0] matches JsonValue::Str(p) && p@ == "%"@ + value@ + "%"@,
    {
        let mut b = self;
        let mut sql = to_owned_string(column);
        sql.append(" LIKE ?");
        let mut pattern = to_owned_string("%");
        pattern.append(value);
        pattern.append("%");
        let mut params: Vec<JsonValue> = Vec::new();
        params.push(JsonValue::Str(pattern));
        b.frags.push(WhereFragment { sql, params });
        assert(b.frags@.drop_last() =~= self.frags@);
        b
    }

    /// Adds a raw condition with its bound values.
    pub fn raw(self, sql: &str, params: Vec<JsonValue>) -> (b: WhereBuilder)
        ensures
            b.frags@.len() == self.frags@.len() + 1,
            b.frags@.drop_last() == self.frags@,
            b.frags@.last().sql@ == sql@,
            b.frags@.last().params == params,
    {
        let mut b = self;
        b.frags.push(WhereFragment { sql: to_owned_string(sql), params });
        assert(b.frags@.drop_last() =~= self.frags@);
        b
    }

    /// The collected fragments.
    pub fn build(self) -> (r: Vec<WhereFragment>)
        ensures
            r@ == self.frags@,
    {
        self.frags
    }
}

} // verus!
