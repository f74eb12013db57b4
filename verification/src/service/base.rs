//! The statements behind add, delete, update, info, page and list, with the
//! safety checks that guard the identifiers and fragments they splice in.

use vstd::prelude::*;
use crate::entity::{
    json_param, json_to_sql_value, params_view, sort_asc, sort_is_asc, page_offset, JoinOption,
    JoinType, JsonValue, ListQuery, PageQuery, QueryOption, SqlParam, SqlValue, WhereFragment,
};
use crate::error::{CoolError, PageResult, Pagination};
use crate::text::{
    chars_of, contains_seq, i64_text, int_text, is_ascii_alpha, is_ascii_digit, str_contains,
    to_owned_string, utf8_len, utf8_len_exceeds,
};

verus! {

// ---------------------------------------------------------------- checks

/// Whether `s` holds `--`, `/*`, `*/` or `;`.
pub open spec fn has_comment_or_terminator(s: Seq<char>) -> bool {
    contains_seq(s, "--"@) || contains_seq(s, "/*"@) || contains_seq(s, "*/"@) || s.contains(';')
}

/// The characters an identifier may hold: ASCII letters and digits, `_`, `.`, `,` and space.
pub open spec fn identifier_char(c: char) -> bool {
    is_ascii_alpha(c) || is_ascii_digit(c) || c == '_' || c == '.' || c == ',' || c == ' '
}

/// Why an identifier is refused, if it is.
pub open spec fn identifier_error(s: Seq<char>) -> Option<Seq<char>> {
    if s.len() == 0 {
        Some("字段名不能为空"@)
    } else if has_comment_or_terminator(s) {
        Some("字段名包含非法字符"@)
    } else if exists|i: int| 0 <= i < s.len() && !identifier_char(#[trigger] s[i]) {
        Some("字段名仅允许字母、数字、下划线、点、逗号和空格"@)
    } else {
        None
    }
}

/// Why a search keyword is refused, if it is: over 256 bytes, or a comment or terminator.
pub open spec fn keyword_error(s: Seq<char>) -> Option<Seq<char>> {
    if utf8_len(s) > 256 {
        Some("关键字过长"@)
    } else if has_comment_or_terminator(s) {
        Some("关键字包含非法字符"@)
    } else {
        None
    }
}

/// The first of two optional errors.
pub open spec fn or_else(a: Option<Seq<char>>, b: Option<Seq<char>>) -> Option<Seq<char>> {
    if a is Some {
        a
    } else {
        b
    }
}

/// The error of the first element of `s` that `f` refuses.
pub open spec fn first_error<A>(s: Seq<A>, f: spec_fn(A) -> Option<Seq<char>>) -> Option<
    Seq<char>,
>
    decreases s.len(),
{
    if s.len() == 0 {
        None
    } else {
        or_else(first_error(s.drop_last(), f), f(s.last()))
    }
}

/// Refusal of a column name.
pub open spec fn column_error(c: String) -> Option<Seq<char>> {
    identifier_error(c@)
}

/// The check applied to each column name.
pub open spec fn column_check() -> spec_fn(String) -> Option<Seq<char>> {
    |c: String| column_error(c)
}

/// Whether a join condition holds `;`, `#`, a quote, or a line break.
pub open spec fn join_condition_bad(s: Seq<char>) -> bool {
    s.contains(';') || s.contains('#') || s.contains('\'') || s.contains('"') || s.contains('\n')
        || s.contains('\r')
}

/// Refusal of a joined table: its name, its alias, then its condition.
pub open spec fn join_error(j: JoinOption) -> Option<Seq<char>> {
    or_else(
        identifier_error(j.entity@),
        or_else(
            identifier_error(j.alias@),
            if join_condition_bad(j.condition@) {
                Some("关联条件包含非法字符"@)
            } else {
                None
            },
        ),
    )
}

/// Refusal of an `AND` condition.
pub open spec fn where_and_error(c: String) -> Option<Seq<char>> {
    if has_comment_or_terminator(c@) {
        Some("where_and 包含非法字符"@)
    } else {
        None
    }
}

/// Refusal of a condition with bound values.
pub open spec fn extra_where_error(f: WhereFragment) -> Option<Seq<char>> {
    if has_comment_or_terminator(f.sql@) {
        Some("extra_where 包含非法字符"@)
    } else {
        None
    }
}

/// Refusal of a sort column given with its direction.
pub open spec fn order_by_error(o: (String, bool)) -> Option<Seq<char>> {
    identifier_error(o.0@)
}

/// Refusal of an optional keyword.
pub open spec fn opt_keyword_error(k: Option<String>) -> Option<Seq<char>> {
    match k {
        Some(s) => keyword_error(s@),
        None => None,
    }
}

/// Refusal of the sort: the requested column, or else the configured columns.
pub open spec fn order_error(order: Option<String>, order_by: Seq<(String, bool)>) -> Option<
    Seq<char>,
> {
    match order {
        Some(f) => identifier_error(f@),
        None => first_error(order_by, order_by_check()),
    }
}

/// The validation error carrying `m`.
pub open spec fn is_validate_error(e: CoolError, m: Seq<char>) -> bool {
    e matches CoolError::Validate(x) && x@ == m
}

proof fn lemma_first_error_step<A>(s: Seq<A>, f: spec_fn(A) -> Option<Seq<char>>, i: int)
    requires
        0 <= i < s.len(),
    ensures
        first_error(s.take(i + 1), f) == or_else(first_error(s.take(i), f), f(s[i])),
{
    assert(s.take(i + 1).drop_last() =~= s.take(i));
}

proof fn lemma_first_error_prefix<A>(s: Seq<A>, f: spec_fn(A) -> Option<Seq<char>>, k: int)
    requires
        0 <= k <= s.len(),
        first_error(s.take(k), f) is Some,
    ensures
        first_error(s, f) == first_error(s.take(k), f),
    decreases s.len() - k,
{
    if k < s.len() {
        lemma_first_error_step(s, f, k);
        lemma_first_error_prefix(s, f, k + 1);
    } else {
        assert(s.take(k) =~= s);
    }
}

proof fn lemma_first_error_all<A>(s: Seq<A>, f: spec_fn(A) -> Option<Seq<char>>)
    ensures
        first_error(s.take(s.len() as int), f) == first_error(s, f),
{
    assert(s.take(s.len() as int) =~= s);
}

/// Checks an identifier (a column, alias or sort field) before it is spliced into SQL.
pub fn validate_identifier(ident: &str) -> (r: Result<(), CoolError>)
    ensures
        r is Ok <==> identifier_error(ident@) is None,
        r matches Err(e) ==> is_validate_error(e, identifier_error(ident@)->0),
{
    let cs = chars_of(ident);
    if cs.len() == 0 {
        return Err(CoolError::validate("字段名不能为空"));
    }
    if str_contains(ident, "--") || str_contains(ident, "/*") || str_contains(ident, "*/")
        || crate::text::contains_char(ident, ';') {
        return Err(CoolError::validate("字段名包含非法字符"));
    }
    let mut i: usize = 0;
    while i < cs.len()
        invariant
            cs@ == ident@,
            i <= cs.len(),
            ident@.len() > 0,
            !has_comment_or_terminator(ident@),
            forall|j: int| 0 <= j < i ==> identifier_char(#[trigger] ident@[j]),
        decreases cs.len() - i,
    {
        let c = cs[i];
        let ok = ('a' <= c && c <= 'z') || ('A' <= c && c <= 'Z') || ('0' <= c && c <= '9') || c
            == '_' || c == '.' || c == ',' || c == ' ';
        if !ok {
            assert(!identifier_char(ident@[i as int]));
            assert(exists|j: int| 0 <= j < ident@.len() && !identifier_char(#[trigger] ident@[j]));
            return Err(CoolError::validate("字段名仅允许字母、数字、下划线、点、逗号和空格"));
        }
        i = i + 1;
    }
    Ok(())
}

fn has_comment_or_terminator_exec(s: &str) -> (b: bool)
    ensures
        b == has_comment_or_terminator(s@),
{
    str_contains(s, "--") || str_contains(s, "/*") || str_contains(s, "*/")
        || crate::text::contains_char(s, ';')
}

/// Checks a search keyword: at most 256 bytes, no comment or terminator.
pub fn validate_keyword(kw: &str) -> (r: Result<(), CoolError>)
    ensures
        r is Ok <==> keyword_error(kw@) is None,
        r matches Err(e) ==> is_validate_error(e, keyword_error(kw@)->0),
{
    if utf8_len_exceeds(kw, 256) {
        return Err(CoolError::validate("关键字过长"));
    }
    if has_comment_or_terminator_exec(kw) {
        return Err(CoolError::validate("关键字包含非法字符"));
    }
    Ok(())
}

/// Refusal by the basic safety check of a page query: the keyword, then the
/// keyword columns.
pub open spec fn query_safety_error(query: PageQuery, option: QueryOption) -> Option<Seq<char>> {
    or_else(
        opt_keyword_error(query.key_word),
        first_error(option.key_word_like_fields@, column_check()),
    )
}

/// Checks every column in `cols`, in order.
fn validate_columns(cols: &Vec<String>) -> (r: Result<(), CoolError>)
    ensures
        r is Ok <==> first_error(cols@, column_check()) is None,
        r matches Err(e) ==> is_validate_error(e, first_error(cols@, column_check())->0),
{
    let ghost f = column_check();
    let mut i: usize = 0;
    while i < cols.len()
        invariant
            i <= cols.len(),
            f == column_check(),
            first_error(cols@.take(i as int), f) is None,
        decreases cols.len() - i,
    {
        proof {
            lemma_first_error_step(cols@, f, i as int);
        }
        let r = validate_identifier(cols[i].as_str());
        if r.is_err() {
            proof {
                lemma_first_error_prefix(cols@, f, i as int + 1);
            }
            return r;
        }
        i = i + 1;
    }
    proof {
        lemma_first_error_all(cols@, f);
    }
    Ok(())
}

/// The basic safety check of a page query: the keyword and the keyword columns.
pub fn validate_query_safety(query: &PageQuery, option: &QueryOption) -> (r: Result<(), CoolError>)
    ensures
        r is Ok <==> query_safety_error(*query, *option) is None,
        r matches Err(e) ==> is_validate_error(e, query_safety_error(*query, *option)->0),
{
    match &query.key_word {
        Some(kw) => {
            let r = validate_keyword(kw.as_str());
            if r.is_err() {
                return r;
            }
        },
        None => {},
    }
    validate_columns(&option.key_word_like_fields)
}

// ---------------------------------------------------------------- stage checks

/// The check applied to each joined table.
pub open spec fn join_check() -> spec_fn(JoinOption) -> Option<Seq<char>> {
    |j: JoinOption| join_error(j)
}

/// The check applied to each `AND` condition.
pub open spec fn where_and_check() -> spec_fn(String) -> Option<Seq<char>> {
    |c: String| where_and_error(c)
}

/// The check applied to each condition with bound values.
pub open spec fn extra_where_check() -> spec_fn(WhereFragment) -> Option<Seq<char>> {
    |f: WhereFragment| extra_where_error(f)
}

proof fn lemma_first_error_concat<A>(a: Seq<A>, b: Seq<A>, f: spec_fn(A) -> Option<Seq<char>>)
    ensures
        first_error(a + b, f) == or_else(first_error(a, f), first_error(b, f)),
    decreases b.len(),
{
    if b.len() == 0 {
        assert(a + b =~= a);
    } else {
        lemma_first_error_concat(a, b.drop_last(), f);
        assert((a + b).drop_last() =~= a + b.drop_last());
        assert((a + b).last() == b.last());
    }
}

fn validate_join(j: &JoinOption) -> (r: Result<(), CoolError>)
    ensures
        r is Ok <==> join_error(*j) is None,
        r matches Err(e) ==> is_validate_error(e, join_error(*j)->0),
{
    validate_identifier(j.entity.as_str())?;
    validate_identifier(j.alias.as_str())?;
    let c = j.condition.as_str();
    if crate::text::contains_char(c, ';') || crate::text::contains_char(c, '#')
        || crate::text::contains_char(c, '\'') || crate::text::contains_char(c, '"')
        || crate::text::contains_char(c, '\n') || crate::text::contains_char(c, '\r') {
        return Err(CoolError::validate("关联条件包含非法字符"));
    }
    Ok(())
}

fn validate_joins(js: &Vec<JoinOption>) -> (r: Result<(), CoolError>)
    ensures
        r is Ok <==> first_error(js@, join_check()) is None,
        r matches Err(e) ==> is_validate_error(e, first_error(js@, join_check())->0),
{
    let ghost f = join_check();
    let mut i: usize = 0;
    while i < js.len()
        invariant
            i <= js.len(),
            f == join_check(),
            first_error(js@.take(i as int), f) is None,
        decreases js.len() - i,
    {
        proof {
            lemma_first_error_step(js@, f, i as int);
        }
        let r = validate_join(&js[i]);
        if r.is_err() {
            proof {
                lemma_first_error_prefix(js@, f, i as int + 1);
            }
            return r;
        }
        i = i + 1;
    }
    proof {
        lemma_first_error_all(js@, f);
    }
    Ok(())
}

fn validate_where_and(ws: &Vec<String>) -> (r: Result<(), CoolError>)
    ensures
        r is Ok <==> first_error(ws@, where_and_check()) is None,
        r matches Err(e) ==> is_validate_error(e, first_error(ws@, where_and_check())->0),
{
    let ghost f = where_and_check();
    let mut i: usize = 0;
    while i < ws.len()
        invariant
            i <= ws.len(),
            f == where_and_check(),
            first_error(ws@.take(i as int), f) is None,
        decreases ws.len() - i,
    {
        proof {
            lemma_first_error_step(ws@, f, i as int);
        }
        if has_comment_or_terminator_exec(ws[i].as_str()) {
            proof {
                lemma_first_error_prefix(ws@, f, i as int + 1);
            }
            return Err(CoolError::validate("where_and 包含非法字符"));
        }
        i = i + 1;
    }
    proof {
        lemma_first_error_all(ws@, f);
    }
    Ok(())
}

fn validate_extra_where(fs: &Vec<WhereFragment>) -> (r: Result<(), CoolError>)
    ensures
        r is Ok <==> first_error(fs@, extra_where_check()) is None,
        r matches Err(e) ==> is_validate_error(e, first_error(fs@, extra_where_check())->0),
{
    let ghost f = extra_where_check();
    let mut i: usize = 0;
    while i < fs.len()
        invariant
            i <= fs.len(),
            f == extra_where_check(),
            first_error(fs@.take(i as int), f) is None,
        decreases fs.len() - i,
    {
        proof {
            lemma_first_error_step(fs@, f, i as int);
        }
        if has_comment_or_terminator_exec(fs[i].sql.as_str()) {
            proof {
                lemma_first_error_prefix(fs@, f, i as int + 1);
            }
            return Err(CoolError::validate("extra_where 包含非法字符"));
        }
        i = i + 1;
    }
    proof {
        lemma_first_error_all(fs@, f);
    }
    Ok(())
}

/// The check applied to each configured sort column.
pub open spec fn order_by_check() -> spec_fn((String, bool)) -> Option<Seq<char>> {
    |o: (String, bool)| order_by_error(o)
}

fn validate_order(order: &Option<String>, order_by: &Vec<(String, bool)>) -> (r: Result<
    (),
    CoolError,
>)
    ensures
        r is Ok <==> order_error(*order, order_by@) is None,
        r matches Err(e) ==> is_validate_error(e, order_error(*order, order_by@)->0),
{
    match order {
        Some(f) => validate_identifier(f.as_str()),
        None => {
            let ghost f = order_by_check();
            let mut i: usize = 0;
            while i < order_by.len()
                invariant
                    i <= order_by.len(),
                    *order is None,
                    f == order_by_check(),
                    first_error(order_by@.take(i as int), f) is None,
                decreases order_by.len() - i,
            {
                proof {
                    lemma_first_error_step(order_by@, f, i as int);
                }
                let r = validate_identifier(order_by[i].0.as_str());
                if r.is_err() {
                    proof {
                        lemma_first_error_prefix(order_by@, f, i as int + 1);
                    }
                    return r;
                }
                i = i + 1;
            }
            proof {
                lemma_first_error_all(order_by@, f);
            }
            Ok(())
        },
    }
}

// ---------------------------------------------------------------- statement text

/// `parts` joined with `sep` between neighbours.
pub open spec fn join_spec(parts: Seq<Seq<char>>, sep: Seq<char>) -> Seq<char>
    decreases parts.len(),
{
    if parts.len() == 0 {
        seq![]
    } else if parts.len() == 1 {
        parts[0]
    } else {
        join_spec(parts.drop_last(), sep) + sep + parts.last()
    }
}

/// The views of a sequence of strings.
pub open spec fn strings_view(v: Seq<String>) -> Seq<Seq<char>> {
    v.map_values(|s: String| s@)
}

/// Joins `parts` with `sep`.
pub fn join_strings(parts: &Vec<String>, sep: &str) -> (r: String)
    ensures
        r@ == join_spec(strings_view(parts@), sep@),
{
    let ghost pv = strings_view(parts@);
    let mut out = String::new();
    let mut i: usize = 0;
    while i < parts.len()
        invariant
            i <= parts.len(),
            pv == strings_view(parts@),
            out@ == join_spec(pv.take(i as int), sep@),
        decreases parts.len() - i,
    {
        assert(pv.take(i as int + 1).drop_last() =~= pv.take(i as int));
        assert(pv.take(i as int + 1).last() == parts@[i as int]@);
        if i > 0 {
            out.append(sep);
        } else {
            assert(pv.take(1)[0] == pv[0]);
        }
        out.append(parts[i].as_str());
        i = i + 1;
    }
    assert(pv.take(parts.len() as int) =~= pv);
    out
}

/// The select list: `*` or the selected columns joined with `, `.
pub open spec fn select_sql(select: Seq<String>) -> Seq<char> {
    if select.len() == 0 {
        "*"@
    } else {
        join_spec(strings_view(select), ", "@)
    }
}

/// The keyword of a join.
pub open spec fn join_keyword(t: JoinType) -> Seq<char> {
    match t {
        JoinType::Inner => "INNER JOIN"@,
        JoinType::Left => "LEFT JOIN"@,
    }
}

/// The text of one joined table.
pub open spec fn join_sql(j: JoinOption) -> Seq<char> {
    " "@ + join_keyword(j.join_type) + " "@ + j.entity@ + " AS "@ + j.alias@ + " ON "@
        + j.condition@
}

/// The table followed by every joined table.
pub open spec fn from_sql(table: Seq<char>, joins: Seq<JoinOption>) -> Seq<char>
    decreases joins.len(),
{
    if joins.len() == 0 {
        table
    } else {
        from_sql(table, joins.drop_last()) + join_sql(joins.last())
    }
}

/// The `LIKE` test of one keyword column.
pub open spec fn like_clause(c: String) -> Seq<char> {
    c@ + " LIKE ?"@
}

/// The keyword condition: every keyword column `LIKE ?`, joined with `OR`, when
/// there is a keyword and at least one keyword column.
pub open spec fn keyword_clauses(kw: Option<String>, fields: Seq<String>) -> Seq<Seq<char>> {
    if kw is Some && fields.len() > 0 {
        seq![join_spec(fields.map_values(|c: String| like_clause(c)), " OR "@)]
    } else {
        seq![]
    }
}

/// The keyword pattern `%kw%` bound once per keyword column.
pub open spec fn keyword_params(kw: Option<String>, fields: Seq<String>) -> Seq<SqlParam> {
    if kw is Some && fields.len() > 0 {
        Seq::new(fields.len(), |i: int| SqlParam::Text("%"@ + kw->0@ + "%"@))
    } else {
        seq![]
    }
}

/// The conditions with bound values, each in parentheses.
pub open spec fn extra_clauses(f: Seq<WhereFragment>) -> Seq<Seq<char>> {
    f.map_values(|x: WhereFragment| "("@ + x.sql@ + ")"@)
}

/// The values bound by the conditions, in order.
pub open spec fn extra_params(f: Seq<WhereFragment>) -> Seq<SqlParam>
    decreases f.len(),
{
    if f.len() == 0 {
        seq![]
    } else {
        extra_params(f.drop_last()) + f.last().params@.map_values(|v: JsonValue| json_param(v))
    }
}

/// The `WHERE` part: nothing, or every condition joined with `AND`.
pub open spec fn where_sql(clauses: Seq<Seq<char>>) -> Seq<char> {
    if clauses.len() == 0 {
        seq![]
    } else {
        " WHERE "@ + join_spec(clauses, " AND "@)
    }
}

/// The text of a sort direction.
pub open spec fn direction(asc: bool) -> Seq<char> {
    if asc {
        " ASC"@
    } else {
        " DESC"@
    }
}

/// The `ORDER BY` part: the requested column in the requested direction, or
/// else every configured column with its direction.
pub open spec fn order_sql(order: Option<String>, sort: Option<String>, order_by: Seq<(String, bool)>) -> Seq<char> {
    match order {
        Some(f) => " ORDER BY "@ + f@ + direction(sort_is_asc(sort)),
        None => if order_by.len() == 0 {
            seq![]
        } else {
            " ORDER BY "@ + join_spec(
                order_by.map_values(|o: (String, bool)| o.0@ + direction(o.1)),
                ", "@,
            )
        },
    }
}

fn push_views(v: &mut Vec<String>, w: &Vec<String>)
    ensures
        strings_view(final(v)@) == strings_view(old(v)@) + strings_view(w@),
{
    let ghost start = strings_view(v@);
    let mut i: usize = 0;
    while i < w.len()
        invariant
            i <= w.len(),
            strings_view(v@) == start + strings_view(w@).take(i as int),
        decreases w.len() - i,
    {
        let ghost before = v@;
        v.push(w[i].clone());
        assert(strings_view(v@) =~= strings_view(before).push(w@[i as int]@));
        assert(strings_view(w@).take(i as int + 1) =~= strings_view(w@).take(i as int).push(
            w@[i as int]@,
        ));
        i = i + 1;
    }
    assert(strings_view(w@).take(w.len() as int) =~= strings_view(w@));
}

fn select_text(select: &Vec<String>) -> (r: String)
    ensures
        r@ == select_sql(select@),
{
    if select.len() == 0 {
        to_owned_string("*")
    } else {
        join_strings(select, ", ")
    }
}

fn join_text(j: &JoinOption) -> (r: String)
    ensures
        r@ == join_sql(*j),
{
    let mut s = to_owned_string(" ");
    match j.join_type {
        JoinType::Inner => s.append("INNER JOIN"),
        JoinType::Left => s.append("LEFT JOIN"),
    }
    s.append(" ");
    s.append(j.entity.as_str());
    s.append(" AS ");
    s.append(j.alias.as_str());
    s.append(" ON ");
    s.append(j.condition.as_str());
    s
}

fn append_joins(
    out: &mut String,
    Ghost(table): Ghost<Seq<char>>,
    Ghost(done): Ghost<Seq<JoinOption>>,
    js: &Vec<JoinOption>,
)
    requires
        old(out)@ == from_sql(table, done),
    ensures
        final(out)@ == from_sql(table, done + js@),
{
    let mut i: usize = 0;
    while i < js.len()
        invariant
            i <= js.len(),
            out@ == from_sql(table, done + js@.take(i as int)),
        decreases js.len() - i,
    {
        out.append(join_text(&js[i]).as_str());
        assert((done + js@.take(i as int + 1)).drop_last() =~= done + js@.take(i as int));
        assert((done + js@.take(i as int + 1)).last() == js@[i as int]);
        i = i + 1;
    }
    assert(js@.take(js.len() as int) =~= js@);
}

fn keyword_pattern(kw: &String) -> (r: String)
    ensures
        r@ == "%"@ + kw@ + "%"@,
{
    let mut p = to_owned_string("%");
    p.append(kw.as_str());
    p.append("%");
    p
}

/// Adds the keyword condition and its bound values.
fn add_keyword_clause(
    clauses: &mut Vec<String>,
    params: &mut Vec<SqlValue>,
    kw: &Option<String>,
    fields: &Vec<String>,
)
    ensures
        strings_view(final(clauses)@) == strings_view(old(clauses)@) + keyword_clauses(*kw, fields@),
        params_view(final(params)@) == params_view(old(params)@) + keyword_params(*kw, fields@),
{
    match kw {
        Some(k) => {
            if fields.len() > 0 {
                let mut likes: Vec<String> = Vec::new();
                let ghost pstart = params_view(params@);
                let mut i: usize = 0;
                while i < fields.len()
                    invariant
                        i <= fields.len(),
                        strings_view(likes@) == fields@.take(i as int).map_values(
                            |c: String| like_clause(c),
                        ),
                        params_view(params@) == pstart + Seq::new(
                            i as nat,
                            |j: int| SqlParam::Text("%"@ + k@ + "%"@),
                        ),
                    decreases fields.len() - i,
                {
                    let mut c = fields[i].clone();
                    c.append(" LIKE ?");
                    let ghost lb = likes@;
                    let ghost pb = params@;
                    likes.push(c);
                    params.push(SqlValue::Text(keyword_pattern(k)));
                    assert(strings_view(likes@) =~= strings_view(lb).push(like_clause(fields@[i as int])));
                    assert(fields@.take(i as int + 1).map_values(|c: String| like_clause(c))
                        =~= fields@.take(i as int).map_values(|c: String| like_clause(c)).push(
                        like_clause(fields@[i as int]),
                    ));
                    assert(params_view(params@) =~= params_view(pb).push(
                        SqlParam::Text("%"@ + k@ + "%"@),
                    ));
                    assert(Seq::new((i + 1) as nat, |j: int| SqlParam::Text("%"@ + k@ + "%"@))
                        =~= Seq::new(i as nat, |j: int| SqlParam::Text("%"@ + k@ + "%"@)).push(
                        SqlParam::Text("%"@ + k@ + "%"@),
                    ));
                    i = i + 1;
                }
                assert(fields@.take(fields.len() as int) =~= fields@);
                let clause = join_strings(&likes, " OR ");
                let ghost cb = clauses@;
                clauses.push(clause);
                assert(strings_view(clauses@) =~= strings_view(cb) + keyword_clauses(
                    *kw,
                    fields@,
                ));
                assert(params_view(params@) =~= pstart + keyword_params(*kw, fields@));
            } else {
                assert(strings_view(clauses@) =~= strings_view(clauses@) + keyword_clauses(
                    *kw,
                    fields@,
                ));
                assert(params_view(params@) =~= params_view(params@) + keyword_params(
                    *kw,
                    fields@,
                ));
            }
        },
        None => {
            assert(strings_view(clauses@) =~= strings_view(clauses@) + keyword_clauses(
                *kw,
                fields@,
            ));
            assert(params_view(params@) =~= params_view(params@) + keyword_params(*kw, fields@));
        },
    }
}

fn add_extra_clauses(
    clauses: &mut Vec<String>,
    params: &mut Vec<SqlValue>,
    frags: &Vec<WhereFragment>,
)
    ensures
        strings_view(final(clauses)@) == strings_view(old(clauses)@) + extra_clauses(frags@),
        params_view(final(params)@) == params_view(old(params)@) + extra_params(frags@),
{
    let ghost cstart = strings_view(clauses@);
    let ghost pstart = params_view(params@);
    let mut i: usize = 0;
    while i < frags.len()
        invariant
            i <= frags.len(),
            strings_view(clauses@) == cstart + extra_clauses(frags@.take(i as int)),
            params_view(params@) == pstart + extra_params(frags@.take(i as int)),
        decreases frags.len() - i,
    {
        let f = &frags[i];
        let mut c = to_owned_string("(");
        c.append(f.sql.as_str());
        c.append(")");
        let ghost cb = clauses@;
        clauses.push(c);
        assert(strings_view(clauses@) =~= strings_view(cb).push("("@ + f.sql@ + ")"@));
        assert(extra_clauses(frags@.take(i as int + 1)) =~= extra_clauses(frags@.take(i as int)).push(
            "("@ + f.sql@ + ")"@,
        ));
        let ghost pmid = params_view(params@);
        let mut k: usize = 0;
        while k < f.params.len()
            invariant
                k <= f.params.len(),
                params_view(params@) == pmid + f.params@.take(k as int).map_values(
                    |v: JsonValue| json_param(v),
                ),
            decreases f.params.len() - k,
        {
            let ghost pb = params@;
            params.push(json_to_sql_value(&f.params[k]));
            assert(params_view(params@) =~= params_view(pb).push(json_param(f.params@[k as int])));
            assert(f.params@.take(k as int + 1).map_values(|v: JsonValue| json_param(v))
                =~= f.params@.take(k as int).map_values(|v: JsonValue| json_param(v)).push(
                json_param(f.params@[k as int]),
            ));
            k = k + 1;
        }
        assert(f.params@.take(f.params.len() as int) =~= f.params@);
        assert(frags@.take(i as int + 1).drop_last() =~= frags@.take(i as int));
        assert(frags@.take(i as int + 1).last() == frags@[i as int]);
        i = i + 1;
    }
    assert(frags@.take(frags.len() as int) =~= frags@);
}

fn where_text(clauses: &Vec<String>) -> (r: String)
    ensures
        r@ == where_sql(strings_view(clauses@)),
{
    if clauses.len() == 0 {
        String::new()
    } else {
        let mut s = to_owned_string(" WHERE ");
        s.append(join_strings(clauses, " AND ").as_str());
        s
    }
}

fn direction_text(asc: bool) -> (r: String)
    ensures
        r@ == direction(asc),
{
    if asc {
        to_owned_string(" ASC")
    } else {
        to_owned_string(" DESC")
    }
}

fn order_text(order: &Option<String>, sort: &Option<String>, order_by: &Vec<(String, bool)>) -> (r:
    String)
    ensures
        r@ == order_sql(*order, *sort, order_by@),
{
    match order {
        Some(f) => {
            let mut s = to_owned_string(" ORDER BY ");
            s.append(f.as_str());
            s.append(direction_text(sort_asc(sort)).as_str());
            s
        },
        None => {
            if order_by.len() == 0 {
                String::new()
            } else {
                let mut items: Vec<String> = Vec::new();
                let mut i: usize = 0;
                while i < order_by.len()
                    invariant
                        i <= order_by.len(),
                        strings_view(items@) == order_by@.take(i as int).map_values(
                            |o: (String, bool)| o.0@ + direction(o.1),
                        ),
                    decreases order_by.len() - i,
                {
                    let mut it = order_by[i].0.clone();
                    it.append(direction_text(order_by[i].1).as_str());
                    let ghost ib = items@;
                    items.push(it);
                    assert(strings_view(items@) =~= strings_view(ib).push(
                        order_by@[i as int].0@ + direction(order_by@[i as int].1),
                    ));
                    assert(order_by@.take(i as int + 1).map_values(
                        |o: (String, bool)| o.0@ + direction(o.1),
                    ) =~= order_by@.take(i as int).map_values(
                        |o: (String, bool)| o.0@ + direction(o.1),
                    ).push(order_by@[i as int].0@ + direction(order_by@[i as int].1)));
                    i = i + 1;
                }
                assert(order_by@.take(order_by.len() as int) =~= order_by@);
                let mut s = to_owned_string(" ORDER BY ");
                s.append(join_strings(&items, ", ").as_str());
                s
            }
        },
    }
}

// ---------------------------------------------------------------- request filters

/// The value stored under `key` in the request's filter object.
pub open spec fn lookup(filters: Seq<(String, JsonValue)>, key: Seq<char>) -> Option<JsonValue>
    decreases filters.len(),
{
    if filters.len() == 0 {
        None
    } else if filters[0].0@ == key {
        Some(filters[0].1)
    } else {
        lookup(filters.drop_first(), key)
    }
}

fn lookup_exec(filters: &Vec<(String, JsonValue)>, key: &String) -> (r: Option<JsonValue>)
    ensures
        r == lookup(filters@, key@),
{
    let mut i: usize = 0;
    assert(filters@.skip(0) =~= filters@);
    while i < filters.len()
        invariant
            i <= filters.len(),
            lookup(filters@.skip(i as int), key@) == lookup(filters@, key@),
        decreases filters.len() - i,
    {
        let ghost rest = filters@.skip(i as int);
        assert(rest[0] == filters@[i as int]);
        if crate::text::str_eq(filters[i].0.as_str(), key.as_str()) {
            return Some(crate::entity::clone_json(&filters[i].1));
        }
        assert(rest.drop_first() =~= filters@.skip(i as int + 1));
        i = i + 1;
    }
    assert(filters@.skip(i as int) =~= Seq::<(String, JsonValue)>::empty());
    None
}

/// Refusal of an equality filter: its column.
pub open spec fn field_eq_check() -> spec_fn(crate::entity::FieldCondition) -> Option<Seq<char>> {
    |c: crate::entity::FieldCondition| identifier_error(c.column@)
}

/// Refusal of a substring filter: its column, then a string value read for it.
pub open spec fn field_like_error(filters: Seq<(String, JsonValue)>, c: crate::entity::FieldCondition) -> Option<Seq<char>> {
    or_else(
        identifier_error(c.column@),
        match lookup(filters, c.request_param@) {
            Some(JsonValue::Str(v)) => keyword_error(v@),
            _ => None,
        },
    )
}

/// The check applied to each substring filter.
pub open spec fn field_like_check(filters: Seq<(String, JsonValue)>) -> spec_fn(crate::entity::FieldCondition) -> Option<Seq<char>> {
    |c: crate::entity::FieldCondition| field_like_error(filters, c)
}

/// `column = ?` for every equality filter whose parameter is present and not null.
pub open spec fn eq_clauses(filters: Seq<(String, JsonValue)>, conds: Seq<crate::entity::FieldCondition>) -> Seq<Seq<char>>
    decreases conds.len(),
{
    if conds.len() == 0 {
        seq![]
    } else {
        let c = conds.last();
        eq_clauses(filters, conds.drop_last()) + match lookup(filters, c.request_param@) {
            Some(v) => if v is Null {
                Seq::<Seq<char>>::empty()
            } else {
                seq![c.column@ + " = ?"@]
            },
            None => Seq::<Seq<char>>::empty(),
        }
    }
}

/// The values bound by the equality filters.
pub open spec fn eq_params(filters: Seq<(String, JsonValue)>, conds: Seq<crate::entity::FieldCondition>) -> Seq<SqlParam>
    decreases conds.len(),
{
    if conds.len() == 0 {
        seq![]
    } else {
        let c = conds.last();
        eq_params(filters, conds.drop_last()) + match lookup(filters, c.request_param@) {
            Some(v) => if v is Null {
                Seq::<SqlParam>::empty()
            } else {
                seq![json_param(v)]
            },
            None => Seq::<SqlParam>::empty(),
        }
    }
}

/// `column LIKE ?` for every substring filter whose parameter is a string.
pub open spec fn like_clauses(filters: Seq<(String, JsonValue)>, conds: Seq<crate::entity::FieldCondition>) -> Seq<Seq<char>>
    decreases conds.len(),
{
    if conds.len() == 0 {
        seq![]
    } else {
        let c = conds.last();
        like_clauses(filters, conds.drop_last()) + match lookup(filters, c.request_param@) {
            Some(JsonValue::Str(_)) => seq![c.column@ + " LIKE ?"@],
            _ => Seq::<Seq<char>>::empty(),
        }
    }
}

/// The patterns `%value%` bound by the substring filters.
pub open spec fn like_params(filters: Seq<(String, JsonValue)>, conds: Seq<crate::entity::FieldCondition>) -> Seq<SqlParam>
    decreases conds.len(),
{
    if conds.len() == 0 {
        seq![]
    } else {
        let c = conds.last();
        like_params(filters, conds.drop_last()) + match lookup(filters, c.request_param@) {
            Some(JsonValue::Str(v)) => seq![SqlParam::Text("%"@ + v@ + "%"@)],
            _ => Seq::<SqlParam>::empty(),
        }
    }
}

fn add_eq_clauses(
    clauses: &mut Vec<String>,
    params: &mut Vec<SqlValue>,
    filters: &Vec<(String, JsonValue)>,
    conds: &Vec<crate::entity::FieldCondition>,
) -> (r: Result<(), CoolError>)
    ensures
        r is Ok <==> first_error(conds@, field_eq_check()) is None,
        r matches Err(e) ==> is_validate_error(e, first_error(conds@, field_eq_check())->0),
        r is Ok ==> strings_view(final(clauses)@) == strings_view(old(clauses)@) + eq_clauses(
            filters@,
            conds@,
        ),
        r is Ok ==> params_view(final(params)@) == params_view(old(params)@) + eq_params(
            filters@,
            conds@,
        ),
{
    let ghost f = field_eq_check();
    let ghost cstart = strings_view(clauses@);
    let ghost pstart = params_view(params@);
    let mut i: usize = 0;
    while i < conds.len()
        invariant
            i <= conds.len(),
            f == field_eq_check(),
            first_error(conds@.take(i as int), f) is None,
            strings_view(clauses@) == cstart + eq_clauses(filters@, conds@.take(i as int)),
            params_view(params@) == pstart + eq_params(filters@, conds@.take(i as int)),
        decreases conds.len() - i,
    {
        proof {
            lemma_first_error_step(conds@, f, i as int);
        }
        let c = &conds[i];
        let r = validate_identifier(c.column.as_str());
        if r.is_err() {
            proof {
                lemma_first_error_prefix(conds@, f, i as int + 1);
            }
            return r;
        }
        assert(conds@.take(i as int + 1).drop_last() =~= conds@.take(i as int));
        assert(conds@.take(i as int + 1).last() == conds@[i as int]);
        match lookup_exec(filters, &c.request_param) {
            Some(v) => {
                match v {
                    JsonValue::Null => {
                        assert(strings_view(clauses@) =~= cstart + eq_clauses(filters@, conds@.take(i as int + 1)));
                        assert(params_view(params@) =~= pstart + eq_params(filters@, conds@.take(i as int + 1)));
                    },
                    _ => {
                        let mut t = c.column.clone();
                        t.append(" = ?");
                        let ghost cb = clauses@;
                        let ghost pb = params@;
                        clauses.push(t);
                        params.push(json_to_sql_value(&v));
                        assert(strings_view(clauses@) =~= strings_view(cb).push(c.column@ + " = ?"@));
                        assert(params_view(params@) =~= params_view(pb).push(json_param(v)));
                        assert(strings_view(clauses@) =~= cstart + eq_clauses(filters@, conds@.take(i as int + 1)));
                        assert(params_view(params@) =~= pstart + eq_params(filters@, conds@.take(i as int + 1)));
                    },
                }
            },
            None => {
                assert(strings_view(clauses@) =~= cstart + eq_clauses(filters@, conds@.take(i as int + 1)));
                assert(params_view(params@) =~= pstart + eq_params(filters@, conds@.take(i as int + 1)));
            },
        }
        i = i + 1;
    }
    proof {
        lemma_first_error_all(conds@, f);
    }
    assert(conds@.take(conds.len() as int) =~= conds@);
    Ok(())
}

fn add_like_clauses(
    clauses: &mut Vec<String>,
    params: &mut Vec<SqlValue>,
    filters: &Vec<(String, JsonValue)>,
    conds: &Vec<crate::entity::FieldCondition>,
) -> (r: Result<(), CoolError>)
    ensures
        r is Ok <==> first_error(conds@, field_like_check(filters@)) is None,
        r matches Err(e) ==> is_validate_error(
            e,
            first_error(conds@, field_like_check(filters@))->0,
        ),
        r is Ok ==> strings_view(final(clauses)@) == strings_view(old(clauses)@) + like_clauses(
            filters@,
            conds@,
        ),
        r is Ok ==> params_view(final(params)@) == params_view(old(params)@) + like_params(
            filters@,
            conds@,
        ),
{
    let ghost f = field_like_check(filters@);
    let ghost cstart = strings_view(clauses@);
    let ghost pstart = params_view(params@);
    let mut i: usize = 0;
    while i < conds.len()
        invariant
            i <= conds.len(),
            f == field_like_check(filters@),
            first_error(conds@.take(i as int), f) is None,
            strings_view(clauses@) == cstart + like_clauses(filters@, conds@.take(i as int)),
            params_view(params@) == pstart + like_params(filters@, conds@.take(i as int)),
        decreases conds.len() - i,
    {
        proof {
            lemma_first_error_step(conds@, f, i as int);
        }
        let c = &conds[i];
        let r = validate_identifier(c.column.as_str());
        if r.is_err() {
            proof {
                lemma_first_error_prefix(conds@, f, i as int + 1);
            }
            return r;
        }
        assert(conds@.take(i as int + 1).drop_last() =~= conds@.take(i as int));
        assert(conds@.take(i as int + 1).last() == conds@[i as int]);
        match lookup_exec(filters, &c.request_param) {
            Some(JsonValue::Str(v)) => {
                let r2 = validate_keyword(v.as_str());
                if r2.is_err() {
                    proof {
                        lemma_first_error_prefix(conds@, f, i as int + 1);
                    }
                    return r2;
                }
                let mut t = c.column.clone();
                t.append(" LIKE ?");
                let ghost cb = clauses@;
                let ghost pb = params@;
                clauses.push(t);
                let mut p = to_owned_string("%");
                p.append(v.as_str());
                p.append("%");
                params.push(SqlValue::Text(p));
                assert(strings_view(clauses@) =~= strings_view(cb).push(c.column@ + " LIKE ?"@));
                assert(params_view(params@) =~= params_view(pb).push(SqlParam::Text("%"@ + v@ + "%"@)));
                assert(strings_view(clauses@) =~= cstart + like_clauses(filters@, conds@.take(i as int + 1)));
                assert(params_view(params@) =~= pstart + like_params(filters@, conds@.take(i as int + 1)));
            },
            _ => {
                assert(strings_view(clauses@) =~= cstart + like_clauses(filters@, conds@.take(i as int + 1)));
                assert(params_view(params@) =~= pstart + like_params(filters@, conds@.take(i as int + 1)));
            },
        }
        i = i + 1;
    }
    proof {
        lemma_first_error_all(conds@, f);
    }
    assert(conds@.take(conds.len() as int) =~= conds@);
    Ok(())
}

// ---------------------------------------------------------------- services

/// One SQL statement with the values bound to its `?` placeholders.
#[derive(Debug)]
pub struct SqlStatement {
    pub sql: String,
    pub params: Vec<SqlValue>,
}

/// The two statements of a page query: the row count and the page of rows.
#[derive(Debug)]
pub struct PageStatements {
    pub count: SqlStatement,
    pub data: SqlStatement,
}

/// The total a page reports from the value read from the count statement's
/// first column: that value read as `u64` (as `as` reads it), or 0 where
/// there was no row or no integer.
pub open spec fn count_total(count: Option<i64>) -> u64 {
    match count {
        Some(c) => if c >= 0 {
            c as u64
        } else {
            (c + 0x1_0000_0000_0000_0000int) as u64
        },
        None => 0,
    }
}

/// The answer to a page query, from what its two statements returned: the
/// rows of the data statement in their order, and the page and size asked for
/// with the total read from the count statement.
pub fn page_result<T>(query: &PageQuery, count: Option<i64>, rows: Vec<T>) -> (r: PageResult<T>)
    ensures
        r.list@ == rows@,
        r.pagination == (Pagination { page: query.page, size: query.size, total: count_total(count) }),
{
    let total: u64 = match count {
        Some(c) => if c >= 0 {
            c as u64
        } else {
            let w: i128 = c as i128 + 0x1_0000_0000_0000_0000i128;
            w as u64
        },
        None => 0,
    };
    PageResult::new(rows, query.page, query.size, total)
}

/// Kind of change passed to the change hooks.
#[derive(Debug, Clone, Copy, PartialEq, Eq)]
pub enum ModifyType {
    Add,
    Update,
    Delete,
}

/// The CRUD service of one table.
#[derive(Debug)]
pub struct BaseService {
    pub table: String,
}

/// The count statement of a page query.
pub open spec fn count_sql(from: Seq<char>, wh: Seq<char>) -> Seq<char> {
    "SELECT COUNT(*) as count FROM "@ + from + wh
}

/// The row statement of a page query.
pub open spec fn page_data_sql(sel: Seq<char>, from: Seq<char>, wh: Seq<char>, ord: Seq<char>) -> Seq<char> {
    "SELECT "@ + sel + " FROM "@ + from + wh + ord + " LIMIT ? OFFSET ?"@
}

/// Why a page query is refused, if it is: the keyword, the keyword columns, the
/// selected columns, the joined tables, the `AND` conditions, the conditions with
/// values, then the sort.
pub open spec fn page_error(query: PageQuery, option: QueryOption) -> Option<Seq<char>> {
    or_else(
        query_safety_error(query, option),
        or_else(
            first_error(option.select@, column_check()),
            or_else(
                first_error(option.joins@ + option.left_join@, join_check()),
                or_else(
                    first_error(option.where_and@, where_and_check()),
                    or_else(
                        first_error(option.extra_where@, extra_where_check()),
                        order_error(query.order, option.order_by@),
                    ),
                ),
            ),
        ),
    )
}

/// Why a filtered page query is refused, if it is: as a page query, with the
/// equality filters and then the substring filters checked after the joined tables.
pub open spec fn page_with_filters_error(
    query: PageQuery,
    filters: Seq<(String, JsonValue)>,
    option: QueryOption,
) -> Option<Seq<char>> {
    or_else(
        query_safety_error(query, option),
        or_else(
            first_error(option.select@, column_check()),
            or_else(
                first_error(option.joins@ + option.left_join@, join_check()),
                or_else(
                    first_error(option.field_eq@, field_eq_check()),
                    or_else(
                        first_error(option.field_like@, field_like_check(filters)),
                        or_else(
                            first_error(option.where_and@, where_and_check()),
                            or_else(
                                first_error(option.extra_where@, extra_where_check()),
                                order_error(query.order, option.order_by@),
                            ),
                        ),
                    ),
                ),
            ),
        ),
    )
}

/// The conditions of a page query: the keyword condition, the `AND` conditions,
/// then the conditions with values.
pub open spec fn page_clauses(query: PageQuery, option: QueryOption) -> Seq<Seq<char>> {
    keyword_clauses(query.key_word, option.key_word_like_fields@) + strings_view(option.where_and@)
        + extra_clauses(option.extra_where@)
}

/// The values bound by the conditions of a page query.
pub open spec fn page_params(query: PageQuery, option: QueryOption) -> Seq<SqlParam> {
    keyword_params(query.key_word, option.key_word_like_fields@) + extra_params(
        option.extra_where@,
    )
}

/// The conditions of a filtered page query: keyword, equality filters, substring
/// filters, `AND` conditions, conditions with values.
pub open spec fn filtered_clauses(
    query: PageQuery,
    filters: Seq<(String, JsonValue)>,
    option: QueryOption,
) -> Seq<Seq<char>> {
    keyword_clauses(query.key_word, option.key_word_like_fields@) + eq_clauses(
        filters,
        option.field_eq@,
    ) + like_clauses(filters, option.field_like@) + strings_view(option.where_and@)
        + extra_clauses(option.extra_where@)
}

/// The values bound by the conditions of a filtered page query.
pub open spec fn filtered_params(
    query: PageQuery,
    filters: Seq<(String, JsonValue)>,
    option: QueryOption,
) -> Seq<SqlParam> {
    keyword_params(query.key_word, option.key_word_like_fields@) + eq_params(
        filters,
        option.field_eq@,
    ) + like_params(filters, option.field_like@) + extra_params(option.extra_where@)
}

/// Whether `st` is the pair of statements for these parts.
pub open spec fn is_page_statements(
    st: PageStatements,
    sel: Seq<char>,
    from: Seq<char>,
    wh: Seq<char>,
    ord: Seq<char>,
    params: Seq<SqlParam>,
    size: u64,
    offset: int,
) -> bool {
    &&& st.count.sql@ == count_sql(from, wh)
    &&& params_view(st.count.params@) == params
    &&& st.data.sql@ == page_data_sql(sel, from, wh, ord)
    &&& params_view(st.data.params@) == params.push(SqlParam::BigUnsigned(size)).push(
        SqlParam::BigUnsigned(offset as u64),
    )
}

/// Why a list query is refused, if it is: the selected columns, the joined
/// tables, the keyword and the keyword columns (only when both are given), then the sort.
pub open spec fn list_error(query: ListQuery, option: QueryOption) -> Option<Seq<char>> {
    or_else(
        first_error(option.select@, column_check()),
        or_else(
            first_error(option.joins@ + option.left_join@, join_check()),
            or_else(
                if query.key_word is Some && option.key_word_like_fields@.len() > 0 {
                    or_else(
                        keyword_error(query.key_word->0@),
                        first_error(option.key_word_like_fields@, column_check()),
                    )
                } else {
                    None
                },
                order_error(query.order, option.order_by@),
            ),
        ),
    )
}

/// `n` placeholders joined with `, `.
pub open spec fn placeholders(n: nat) -> Seq<char> {
    join_spec(Seq::new(n, |i: int| "?"@), ", "@)
}

/// The column names of a JSON object's entries.
pub open spec fn entry_keys(data: Seq<(String, JsonValue)>) -> Seq<Seq<char>> {
    data.map_values(|e: (String, JsonValue)| e.0@)
}

/// The bound values of a JSON object's entries.
pub open spec fn entry_params(data: Seq<(String, JsonValue)>) -> Seq<SqlParam> {
    data.map_values(|e: (String, JsonValue)| json_param(e.1))
}

/// The entries other than `id`.
pub open spec fn non_id_entries(data: Seq<(String, JsonValue)>) -> Seq<(String, JsonValue)> {
    data.filter(|e: (String, JsonValue)| e.0@ != "id"@)
}

/// The id that an update reads: the `id` entry when it holds an integer.
pub open spec fn update_id_spec(data: Seq<(String, JsonValue)>) -> Option<i64> {
    match lookup(data, "id"@) {
        Some(JsonValue::Int(i)) => Some(i),
        _ => None,
    }
}

/// The ids as decimal text joined with `,`.
pub open spec fn id_list(ids: Seq<i64>) -> Seq<char> {
    join_spec(ids.map_values(|i: i64| int_text(i as int)), ","@)
}

fn id_list_text(ids: &Vec<i64>) -> (r: String)
    ensures
        r@ == id_list(ids@),
{
    let mut parts: Vec<String> = Vec::new();
    let mut i: usize = 0;
    while i < ids.len()
        invariant
            i <= ids.len(),
            strings_view(parts@) == ids@.take(i as int).map_values(|x: i64| int_text(x as int)),
        decreases ids.len() - i,
    {
        let ghost pb = parts@;
        parts.push(i64_text(ids[i]));
        assert(strings_view(parts@) =~= strings_view(pb).push(int_text(ids@[i as int] as int)));
        assert(ids@.take(i as int + 1).map_values(|x: i64| int_text(x as int)) =~= ids@.take(
            i as int,
        ).map_values(|x: i64| int_text(x as int)).push(int_text(ids@[i as int] as int)));
        i = i + 1;
    }
    assert(ids@.take(ids.len() as int) =~= ids@);
    join_strings(&parts, ",")
}

fn check_page(query: &PageQuery, option: &QueryOption) -> (r: Result<(), CoolError>)
    ensures
        r is Ok <==> page_error(*query, *option) is None,
        r matches Err(e) ==> is_validate_error(e, page_error(*query, *option)->0),
{
    validate_query_safety(query, option)?;
    validate_columns(&option.select)?;
    proof {
        lemma_first_error_concat(option.joins@, option.left_join@, join_check());
    }
    validate_joins(&option.joins)?;
    validate_joins(&option.left_join)?;
    validate_where_and(&option.where_and)?;
    validate_extra_where(&option.extra_where)?;
    validate_order(&query.order, &option.order_by)
}

impl BaseService {
    /// A service of `table`.
    pub fn new(table: &str) -> (s: BaseService)
        ensures
            s.table@ == table@,
    {
        BaseService { table: to_owned_string(table) }
    }

    /// The table's name.
    pub fn table_name(&self) -> (r: &str)
        ensures
            r@ == self.table@,
    {
        self.table.as_str()
    }

    fn from_text(&self, joins: &Vec<JoinOption>, more: &Vec<JoinOption>) -> (r: String)
        ensures
            r@ == from_sql(self.table@, joins@ + more@),
    {
        let mut from = self.table.clone();
        assert(Seq::<JoinOption>::empty() + joins@ =~= joins@);
        append_joins(&mut from, Ghost(self.table@), Ghost(Seq::<JoinOption>::empty()), joins);
        append_joins(&mut from, Ghost(self.table@), Ghost(joins@), more);
        from
    }

    /// The statements of a page query: rows matching the keyword and the
    /// configured conditions, sorted, `size` rows from the page's offset.
    /// What the statements return is made into the page by `page_result`.
    pub fn page(&self, query: PageQuery, option: QueryOption) -> (r: Result<
        PageStatements,
        CoolError,
    >)
        requires
            page_offset(query.page, query.size) <= u64::MAX,
        ensures
            r is Err <==> page_error(query, option) is Some,
            r matches Err(e) ==> is_validate_error(e, page_error(query, option)->0),
            r matches Ok(st) ==> is_page_statements(
                st,
                select_sql(option.select@),
                from_sql(self.table@, option.joins@ + option.left_join@),
                where_sql(page_clauses(query, option)),
                order_sql(query.order, query.sort, option.order_by@),
                page_params(query, option),
                query.size,
                page_offset(query.page, query.size),
            ),
    {
        let offset = query.offset();
        let size = query.size;
        check_page(&query, &option)?;
        let sel = select_text(&option.select);
        let from = self.from_text(&option.joins, &option.left_join);
        let mut clauses: Vec<String> = Vec::new();
        let mut params: Vec<SqlValue> = Vec::new();
        add_keyword_clause(&mut clauses, &mut params, &query.key_word, &option.key_word_like_fields);
        push_views(&mut clauses, &option.where_and);
        add_extra_clauses(&mut clauses, &mut params, &option.extra_where);
        assert(strings_view(clauses@) =~= page_clauses(query, option));
        assert(params_view(params@) =~= page_params(query, option));
        let wh = where_text(&clauses);
        let ord = order_text(&query.order, &query.sort, &option.order_by);
        self.page_statements(sel, from, wh, ord, params, size, offset)
    }

    fn page_statements(
        &self,
        sel: String,
        from: String,
        wh: String,
        ord: String,
        params: Vec<SqlValue>,
        size: u64,
        offset: u64,
    ) -> (r: Result<PageStatements, CoolError>)
        ensures
            r matches Ok(st) && is_page_statements(
                st,
                sel@,
                from@,
                wh@,
                ord@,
                params_view(params@),
                size,
                offset as int,
            ),
    {
        let mut count = to_owned_string("SELECT COUNT(*) as count FROM ");
        count.append(from.as_str());
        count.append(wh.as_str());
        let mut data = to_owned_string("SELECT ");
        data.append(sel.as_str());
        data.append(" FROM ");
        data.append(from.as_str());
        data.append(wh.as_str());
        data.append(ord.as_str());
        data.append(" LIMIT ? OFFSET ?");
        let mut data_params = clone_params(&params);
        data_params.push(SqlValue::BigUnsigned(size));
        data_params.push(SqlValue::BigUnsigned(offset));
        assert(params_view(data_params@) =~= params_view(params@).push(SqlParam::BigUnsigned(size)).push(
            SqlParam::BigUnsigned(offset),
        ));
        assert(count@ =~= count_sql(from@, wh@));
        assert(data@ =~= page_data_sql(sel@, from@, wh@, ord@));
        Ok(
            PageStatements {
                count: SqlStatement { sql: count, params },
                data: SqlStatement { sql: data, params: data_params },
            },
        )
    }

    /// The statements of a page query narrowed by request filters: equality
    /// filters whose parameter is present and not null, and substring filters
    /// whose parameter is a string. What the statements return is made into
    /// the page by `page_result`.
    pub fn page_with_filters(
        &self,
        query: PageQuery,
        filters: &Vec<(String, JsonValue)>,
        option: QueryOption,
    ) -> (r: Result<PageStatements, CoolError>)
        requires
            page_offset(query.page, query.size) <= u64::MAX,
        ensures
            r is Err <==> page_with_filters_error(query, filters@, option) is Some,
            r matches Err(e) ==> is_validate_error(
                e,
                page_with_filters_error(query, filters@, option)->0,
            ),
            r matches Ok(st) ==> is_page_statements(
                st,
                select_sql(option.select@),
                from_sql(self.table@, option.joins@ + option.left_join@),
                where_sql(filtered_clauses(query, filters@, option)),
                order_sql(query.order, query.sort, option.order_by@),
                filtered_params(query, filters@, option),
                query.size,
                page_offset(query.page, query.size),
            ),
    {
        let offset = query.offset();
        let size = query.size;
        validate_query_safety(&query, &option)?;
        validate_columns(&option.select)?;
        proof {
            lemma_first_error_concat(option.joins@, option.left_join@, join_check());
        }
        validate_joins(&option.joins)?;
        validate_joins(&option.left_join)?;
        let sel = select_text(&option.select);
        let from = self.from_text(&option.joins, &option.left_join);
        let mut clauses: Vec<String> = Vec::new();
        let mut params: Vec<SqlValue> = Vec::new();
        add_keyword_clause(&mut clauses, &mut params, &query.key_word, &option.key_word_like_fields);
        add_eq_clauses(&mut clauses, &mut params, filters, &option.field_eq)?;
        add_like_clauses(&mut clauses, &mut params, filters, &option.field_like)?;
        validate_where_and(&option.where_and)?;
        validate_extra_where(&option.extra_where)?;
        validate_order(&query.order, &option.order_by)?;
        push_views(&mut clauses, &option.where_and);
        add_extra_clauses(&mut clauses, &mut params, &option.extra_where);
        assert(strings_view(clauses@) =~= filtered_clauses(query, filters@, option));
        assert(params_view(params@) =~= filtered_params(query, filters@, option));
        let wh = where_text(&clauses);
        let ord = order_text(&query.order, &query.sort, &option.order_by);
        self.page_statements(sel, from, wh, ord, params, size, offset)
    }

    /// The statement of a list query: rows matching the keyword, sorted, no
    /// paging, over the table with its inner and left joins.
    pub fn list(&self, query: ListQuery, option: QueryOption) -> (r: Result<
        SqlStatement,
        CoolError,
    >)
        ensures
            r is Err <==> list_error(query, option) is Some,
            r matches Err(e) ==> is_validate_error(e, list_error(query, option)->0),
            r matches Ok(st) ==> st.sql@ == "SELECT "@ + select_sql(option.select@) + " FROM "@
                + from_sql(self.table@, option.joins@ + option.left_join@) + where_sql(
                keyword_clauses(query.key_word, option.key_word_like_fields@),
            ) + order_sql(query.order, query.sort, option.order_by@) && params_view(st.params@)
                == keyword_params(query.key_word, option.key_word_like_fields@),
    {
        validate_columns(&option.select)?;
        proof {
            lemma_first_error_concat(option.joins@, option.left_join@, join_check());
        }
        validate_joins(&option.joins)?;
        validate_joins(&option.left_join)?;
        match &query.key_word {
            Some(kw) => {
                if option.key_word_like_fields.len() > 0 {
                    validate_keyword(kw.as_str())?;
                    validate_columns(&option.key_word_like_fields)?;
                }
            },
            None => {},
        }
        validate_order(&query.order, &option.order_by)?;
        let sel = select_text(&option.select);
        let from = self.from_text(&option.joins, &option.left_join);
        let mut clauses: Vec<String> = Vec::new();
        let mut params: Vec<SqlValue> = Vec::new();
        add_keyword_clause(&mut clauses, &mut params, &query.key_word, &option.key_word_like_fields);
        assert(strings_view(clauses@) =~= keyword_clauses(query.key_word, option.key_word_like_fields@));
        assert(params_view(params@) =~= keyword_params(query.key_word, option.key_word_like_fields@));
        let wh = where_text(&clauses);
        let ord = order_text(&query.order, &query.sort, &option.order_by);
        let mut sql = to_owned_string("SELECT ");
        sql.append(sel.as_str());
        sql.append(" FROM ");
        sql.append(from.as_str());
        sql.append(wh.as_str());
        sql.append(ord.as_str());
        Ok(SqlStatement { sql, params })
    }

    /// The statement of one row by id.
    pub fn info(&self, id: i64) -> (st: SqlStatement)
        ensures
            st.sql@ == "SELECT * FROM "@ + self.table@ + " WHERE id = ? LIMIT 1"@,
            params_view(st.params@) == seq![SqlParam::BigInt(id)],
    {
        let mut sql = to_owned_string("SELECT * FROM ");
        sql.append(self.table.as_str());
        sql.append(" WHERE id = ? LIMIT 1");
        let mut params: Vec<SqlValue> = Vec::new();
        params.push(SqlValue::BigInt(id));
        assert(params_view(params@) =~= seq![SqlParam::BigInt(id)]);
        SqlStatement { sql, params }
    }

    /// The statement that deletes rows by id.
    pub fn delete(&self, ids: &Vec<i64>) -> (st: SqlStatement)
        ensures
            st.sql@ == "DELETE FROM "@ + self.table@ + " WHERE id IN ("@ + id_list(ids@) + ")"@,
            st.params@.len() == 0,
    {
        let mut sql = to_owned_string("DELETE FROM ");
        sql.append(self.table.as_str());
        sql.append(" WHERE id IN (");
        sql.append(id_list_text(ids).as_str());
        sql.append(")");
        SqlStatement { sql, params: Vec::new() }
    }

    /// The statement that marks rows deleted at `now` (already formatted as
    /// `%Y-%m-%d %H:%M:%S`).
    pub fn soft_delete(&self, ids: &Vec<i64>, now: &str) -> (st: SqlStatement)
        ensures
            st.sql@ == "UPDATE "@ + self.table@ + " SET delete_time = '"@ + now@
                + "' WHERE id IN ("@ + id_list(ids@) + ")"@,
            st.params@.len() == 0,
    {
        let mut sql = to_owned_string("UPDATE ");
        sql.append(self.table.as_str());
        sql.append(" SET delete_time = '");
        sql.append(now);
        sql.append("' WHERE id IN (");
        sql.append(id_list_text(ids).as_str());
        sql.append(")");
        SqlStatement { sql, params: Vec::new() }
    }

    /// The statement that inserts one row from a JSON object's entries; an
    /// empty object is refused.
    pub fn add(&self, data: &Vec<(String, JsonValue)>) -> (r: Result<SqlStatement, CoolError>)
        ensures
            r is Err <==> data@.len() == 0,
            r matches Err(e) ==> is_validate_error(e, "数据不能为空"@),
            r matches Ok(st) ==> st.sql@ == "INSERT INTO "@ + self.table@ + " ("@ + join_spec(
                entry_keys(data@),
                ", "@,
            ) + ") VALUES ("@ + placeholders(data@.len()) + ")"@ && params_view(st.params@)
                == entry_params(data@),
    {
        if data.len() == 0 {
            return Err(CoolError::validate("数据不能为空"));
        }
        let mut cols: Vec<String> = Vec::new();
        let mut marks: Vec<String> = Vec::new();
        let mut params: Vec<SqlValue> = Vec::new();
        let mut i: usize = 0;
        while i < data.len()
            invariant
                i <= data.len(),
                strings_view(cols@) == entry_keys(data@.take(i as int)),
                strings_view(marks@) == Seq::new(i as nat, |j: int| "?"@),
                params_view(params@) == entry_params(data@.take(i as int)),
            decreases data.len() - i,
        {
            let ghost cb = cols@;
            let ghost mb = marks@;
            let ghost pb = params@;
            cols.push(data[i].0.clone());
            marks.push(to_owned_string("?"));
            params.push(json_to_sql_value(&data[i].1));
            assert(strings_view(cols@) =~= strings_view(cb).push(data@[i as int].0@));
            assert(entry_keys(data@.take(i as int + 1)) =~= entry_keys(data@.take(i as int)).push(
                data@[i as int].0@,
            ));
            assert(strings_view(marks@) =~= strings_view(mb).push("?"@));
            assert(strings_view(marks@) =~= Seq::new((i + 1) as nat, |j: int| "?"@));
            assert(params_view(params@) =~= params_view(pb).push(json_param(data@[i as int].1)));
            assert(entry_params(data@.take(i as int + 1)) =~= entry_params(data@.take(i as int)).push(
                json_param(data@[i as int].1),
            ));
            i = i + 1;
        }
        assert(data@.take(data.len() as int) =~= data@);
        let mut sql = to_owned_string("INSERT INTO ");
        sql.append(self.table.as_str());
        sql.append(" (");
        sql.append(join_strings(&cols, ", ").as_str());
        sql.append(") VALUES (");
        sql.append(join_strings(&marks, ", ").as_str());
        sql.append(")");
        Ok(SqlStatement { sql, params })
    }

    /// The id an update targets: the `id` entry, which must hold an integer.
    pub fn update_id(&self, data: &Vec<(String, JsonValue)>) -> (r: Result<i64, CoolError>)
        ensures
            r is Ok <==> update_id_spec(data@) is Some,
            r matches Ok(id) ==> update_id_spec(data@) == Some(id),
            r matches Err(e) ==> is_validate_error(e, "缺少ID参数"@),
    {
        let key = to_owned_string("id");
        match lookup_exec(data, &key) {
            Some(JsonValue::Int(i)) => Ok(i),
            _ => Err(CoolError::no_id()),
        }
    }

    /// The statement that sets every entry other than `id` on row `id`; `None`
    /// when there is nothing to set.
    pub fn update_statement(&self, data: &Vec<(String, JsonValue)>, id: i64) -> (r: Option<
        SqlStatement,
    >)
        ensures
            r is None <==> non_id_entries(data@).len() == 0,
            r matches Some(st) ==> st.sql@ == "UPDATE "@ + self.table@ + " SET "@ + join_spec(
                entry_keys(non_id_entries(data@)).map_values(|k: Seq<char>| k + " = ?"@),
                ", "@,
            ) + " WHERE id = ?"@ && params_view(st.params@) == entry_params(
                non_id_entries(data@),
            ).push(SqlParam::BigInt(id)),
    {
        let mut sets: Vec<String> = Vec::new();
        let mut params: Vec<SqlValue> = Vec::new();
        let mut i: usize = 0;
        let ghost keep = |e: (String, JsonValue)| e.0@ != "id"@;
        while i < data.len()
            invariant
                i <= data.len(),
                keep == (|e: (String, JsonValue)| e.0@ != "id"@),
                strings_view(sets@) == entry_keys(data@.take(i as int).filter(keep)).map_values(
                    |k: Seq<char>| k + " = ?"@,
                ),
                params_view(params@) == entry_params(data@.take(i as int).filter(keep)),
            decreases data.len() - i,
        {
            let e = &data[i];
            assert(data@.take(i as int + 1).drop_last() =~= data@.take(i as int));
            assert(data@.take(i as int + 1).last() == data@[i as int]);
            reveal_with_fuel(Seq::filter, 1);
            if !crate::text::str_eq(e.0.as_str(), "id") {
                let ghost sb = sets@;
                let ghost pb = params@;
                let mut t = e.0.clone();
                t.append(" = ?");
                sets.push(t);
                params.push(json_to_sql_value(&e.1));
                assert(strings_view(sets@) =~= strings_view(sb).push(e.0@ + " = ?"@));
                assert(params_view(params@) =~= params_view(pb).push(json_param(e.1)));
                assert(data@.take(i as int + 1).filter(keep) == data@.take(i as int).filter(keep).push(
                    data@[i as int],
                ));
                assert(entry_keys(data@.take(i as int + 1).filter(keep)).map_values(
                    |k: Seq<char>| k + " = ?"@,
                ) =~= entry_keys(data@.take(i as int).filter(keep)).map_values(
                    |k: Seq<char>| k + " = ?"@,
                ).push(e.0@ + " = ?"@));
                assert(entry_params(data@.take(i as int + 1).filter(keep)) =~= entry_params(
                    data@.take(i as int).filter(keep),
                ).push(json_param(e.1)));
            } else {
                assert(data@.take(i as int + 1).filter(keep) == data@.take(i as int).filter(keep));
            }
            i = i + 1;
        }
        assert(data@.take(data.len() as int) =~= data@);
        assert(non_id_entries(data@) == data@.filter(keep));
        if sets.len() == 0 {
            return None;
        }
        let mut sql = to_owned_string("UPDATE ");
        sql.append(self.table.as_str());
        sql.append(" SET ");
        sql.append(join_strings(&sets, ", ").as_str());
        sql.append(" WHERE id = ?");
        let ghost pb = params@;
        params.push(SqlValue::BigInt(id));
        assert(params_view(params@) =~= params_view(pb).push(SqlParam::BigInt(id)));
        Some(SqlStatement { sql, params })
    }

    /// The statement of an update: the `id` entry picks the row, every other
    /// entry is set; `Ok(None)` when there is nothing to set.
    pub fn update(&self, data: &Vec<(String, JsonValue)>) -> (r: Result<Option<SqlStatement>, CoolError>)
        ensures
            r is Err <==> update_id_spec(data@) is None,
            r matches Err(e) ==> is_validate_error(e, "缺少ID参数"@),
            r matches Ok(o) ==> (o is None <==> non_id_entries(data@).len() == 0),
            r matches Ok(Some(st)) ==> st.sql@ == "UPDATE "@ + self.table@ + " SET "@ + join_spec(
                entry_keys(non_id_entries(data@)).map_values(|k: Seq<char>| k + " = ?"@),
                ", "@,
            ) + " WHERE id = ?"@ && params_view(st.params@) == entry_params(
                non_id_entries(data@),
            ).push(SqlParam::BigInt(update_id_spec(data@)->0)),
    {
        let id = self.update_id(data)?;
        Ok(self.update_statement(data, id))
    }
}

fn clone_params(p: &Vec<SqlValue>) -> (r: Vec<SqlValue>)
    ensures
        params_view(r@) == params_view(p@),
{
    let mut out: Vec<SqlValue> = Vec::new();
    let mut i: usize = 0;
    while i < p.len()
        invariant
            i <= p.len(),
            params_view(out@) == params_view(p@.take(i as int)),
        decreases p.len() - i,
    {
        let v = match &p[i] {
            SqlValue::NullText => SqlValue::NullText,
            SqlValue::Bool(b) => SqlValue::Bool(*b),
            SqlValue::BigInt(x) => SqlValue::BigInt(*x),
            SqlValue::BigUnsigned(x) => SqlValue::BigUnsigned(*x),
            SqlValue::Double(s) => SqlValue::Double(s.clone()),
            SqlValue::Text(s) => SqlValue::Text(s.clone()),
        };
        let ghost ob = out@;
        out.push(v);
        assert(params_view(out@) =~= params_view(ob).push(p@[i as int]@));
        assert(params_view(p@.take(i as int + 1)) =~= params_view(p@.take(i as int)).push(
            p@[i as int]@,
        ));
        i = i + 1;
    }
    assert(p@.take(p.len() as int) =~= p@);
    out
}

// ---------------------------------------------------------------- laws

proof fn lemma_first_error_none<A>(s: Seq<A>, f: spec_fn(A) -> Option<Seq<char>>)
    requires
        first_error(s, f) is None,
    ensures
        forall|i: int| 0 <= i < s.len() ==> (#[trigger] f(s[i])) is None,
    decreases s.len(),
{
    if s.len() > 0 {
        lemma_first_error_none(s.drop_last(), f);
        assert forall|i: int| 0 <= i < s.len() implies (#[trigger] f(s[i])) is None by {
            if i < s.len() - 1 {
                assert(s[i] == s.drop_last()[i]);
            }
        }
    }
}

/// Law: a page query that is not refused splices into its SQL only names that
/// pass the identifier check: every selected column, keyword column, joined
/// table and alias, and sort column; and its keyword passes the keyword check.
pub proof fn law_accepted_page_names_are_checked(query: PageQuery, option: QueryOption)
    requires
        page_error(query, option) is None,
    ensures
        forall|i: int|
            0 <= i < option.select@.len() ==> identifier_error((#[trigger] option.select@[i])@)
                is None,
        forall|i: int|
            0 <= i < option.key_word_like_fields@.len() ==> identifier_error(
                (#[trigger] option.key_word_like_fields@[i])@,
            ) is None,
        forall|i: int|
            0 <= i < (option.joins@ + option.left_join@).len() ==> identifier_error(
                (#[trigger] (option.joins@ + option.left_join@)[i]).entity@,
            ) is None && identifier_error((option.joins@ + option.left_join@)[i].alias@) is None,
        forall|i: int|
            0 <= i < option.order_by@.len() && query.order is None ==> identifier_error(
                (#[trigger] option.order_by@[i]).0@,
            ) is None,
        query.order matches Some(f) ==> identifier_error(f@) is None,
        query.key_word matches Some(k) ==> keyword_error(k@) is None,
{
    lemma_first_error_none(option.select@, column_check());
    lemma_first_error_none(option.key_word_like_fields@, column_check());
    lemma_first_error_none(option.joins@ + option.left_join@, join_check());
    if query.order is None {
        lemma_first_error_none(option.order_by@, order_by_check());
    }
    assert forall|i: int| 0 <= i < option.select@.len() implies identifier_error(
        (#[trigger] option.select@[i])@,
    ) is None by {
        assert(column_check()(option.select@[i]) is None);
    }
    assert forall|i: int| 0 <= i < option.key_word_like_fields@.len() implies identifier_error(
        (#[trigger] option.key_word_like_fields@[i])@,
    ) is None by {
        assert(column_check()(option.key_word_like_fields@[i]) is None);
    }
    assert forall|i: int| 0 <= i < (option.joins@ + option.left_join@).len() implies identifier_error(
        (#[trigger] (option.joins@ + option.left_join@)[i]).entity@,
    ) is None && identifier_error((option.joins@ + option.left_join@)[i].alias@) is None by {
        assert(join_check()((option.joins@ + option.left_join@)[i]) is None);
    }
    assert forall|i: int|
        0 <= i < option.order_by@.len() && query.order is None implies identifier_error(
        (#[trigger] option.order_by@[i]).0@,
    ) is None by {
        assert(order_by_check()(option.order_by@[i]) is None);
    }
}

/// Law: without equality or substring filters configured, a filtered page query
/// is refused exactly when the plain page query is, and builds the same
/// conditions and bound values, whatever the request's filters hold.
pub proof fn law_filters_without_conditions_change_nothing(
    query: PageQuery,
    filters: Seq<(String, JsonValue)>,
    option: QueryOption,
)
    requires
        option.field_eq@.len() == 0,
        option.field_like@.len() == 0,
    ensures
        page_with_filters_error(query, filters, option) == page_error(query, option),
        filtered_clauses(query, filters, option) == page_clauses(query, option),
        filtered_params(query, filters, option) == page_params(query, option),
{
    assert(eq_clauses(filters, option.field_eq@) =~= Seq::<Seq<char>>::empty());
    assert(like_clauses(filters, option.field_like@) =~= Seq::<Seq<char>>::empty());
    assert(eq_params(filters, option.field_eq@) =~= Seq::<SqlParam>::empty());
    assert(like_params(filters, option.field_like@) =~= Seq::<SqlParam>::empty());
    let k = keyword_clauses(query.key_word, option.key_word_like_fields@);
    assert(k + Seq::<Seq<char>>::empty() =~= k);
    let kp = keyword_params(query.key_word, option.key_word_like_fields@);
    assert(kp + Seq::<SqlParam>::empty() =~= kp);
    assert(filtered_clauses(query, filters, option) =~= page_clauses(query, option));
    assert(filtered_params(query, filters, option) =~= page_params(query, option));
}


// ---------------------------------------------------------------- laws of query text

/// Law of sort directions: a requested column sorts newest first (`DESC`)
/// when no direction or `desc` is asked, and `ASC` only when `asc` (in either
/// case) is asked; a configured column sorts `ASC` when it is marked
/// ascending and `DESC` otherwise.
pub proof fn law_order_direction(f: String, s: String, order_by: Seq<(String, bool)>, c: String, asc: bool)
    ensures
        order_sql(Some(f), None, order_by) == " ORDER BY "@ + f@ + " DESC"@,
        s@ == "desc"@ || s@ == "DESC"@ ==> order_sql(Some(f), Some(s), order_by) == " ORDER BY "@ + f@
            + " DESC"@,
        s@ == "asc"@ || s@ == "ASC"@ ==> order_sql(Some(f), Some(s), order_by) == " ORDER BY "@ + f@
            + " ASC"@,
        order_sql(None, None, seq![(c, true)]) == " ORDER BY "@ + c@ + " ASC"@,
        order_sql(None, None, seq![(c, false)]) == " ORDER BY "@ + c@ + " DESC"@,
        order_sql(None, Some(s), seq![(c, asc)]) == " ORDER BY "@ + c@ + (if asc {
            " ASC"@
        } else {
            " DESC"@
        }),
{
    reveal_strlit("asc");
    reveal_strlit("ASC");
    reveal_strlit("desc");
    reveal_strlit("DESC");
    reveal_strlit(" ASC");
    reveal_strlit(" DESC");
    if s@ == "asc"@ || s@ == "ASC"@ {
        assert(crate::text::all_ascii(s@));
        assert(s@.map_values(|ch: char| crate::text::ascii_lower_char(ch)) =~= "asc"@);
    }
    if s@ == "desc"@ || s@ == "DESC"@ {
        assert(crate::text::all_ascii(s@));
        assert(s@.map_values(|ch: char| crate::text::ascii_lower_char(ch)) =~= "desc"@);
        assert(crate::text::str_lower(s@) != "asc"@) by {
            assert(crate::text::str_lower(s@).len() == 4);
        }
    }
    assert(seq![(c, true)].map_values(|o: (String, bool)| o.0@ + direction(o.1)) =~= seq![c@ + " ASC"@]);
    assert(seq![(c, false)].map_values(|o: (String, bool)| o.0@ + direction(o.1)) =~= seq![c@ + " DESC"@]);
    assert(seq![(c, asc)].map_values(|o: (String, bool)| o.0@ + direction(o.1)) =~= seq![c@ + direction(asc)]);
    assert(" ORDER BY "@ + c@ + " ASC"@ =~= " ORDER BY "@ + (c@ + " ASC"@));
    assert(" ORDER BY "@ + c@ + " DESC"@ =~= " ORDER BY "@ + (c@ + " DESC"@));
    assert(" ORDER BY "@ + c@ + direction(asc) =~= " ORDER BY "@ + (c@ + direction(asc)));
}

/// Law of keyword search: the keyword condition matches a row when any keyword
/// column does. One column gives its `LIKE` test; each further column adds
/// ` OR ` and its test to the condition; and every column binds `%kw%`.
pub proof fn law_keyword_any_column(kw: String, fields: Seq<String>, x: String)
    ensures
        keyword_clauses(Some(kw), seq![x]) == seq![x@ + " LIKE ?"@],
        fields.len() > 0 ==> keyword_clauses(Some(kw), fields.push(x)) == seq![
            keyword_clauses(Some(kw), fields)[0] + " OR "@ + x@ + " LIKE ?"@,
        ],
        keyword_params(Some(kw), fields).len() == fields.len(),
        forall|i: int|
            0 <= i < fields.len() ==> #[trigger] keyword_params(Some(kw), fields)[i] == SqlParam::Text(
                "%"@ + kw@ + "%"@,
            ),
        keyword_clauses(None, fields).len() == 0,
{
    assert(seq![x].map_values(|c: String| like_clause(c)) =~= seq![x@ + " LIKE ?"@]);
    if fields.len() > 0 {
        let m = fields.push(x).map_values(|c: String| like_clause(c));
        assert(m.drop_last() =~= fields.map_values(|c: String| like_clause(c)));
        assert(m.last() == x@ + " LIKE ?"@);
        assert(join_spec(m, " OR "@) == join_spec(m.drop_last(), " OR "@) + " OR "@ + m.last());
        assert(join_spec(m.drop_last(), " OR "@) + " OR "@ + (x@ + " LIKE ?"@) =~= join_spec(
            m.drop_last(),
            " OR "@,
        ) + " OR "@ + x@ + " LIKE ?"@);
    }
}

/// Law of id lists: the ids of a delete are listed in full and in order, the
/// decimal text of each separated by `,`: none gives an empty list, one id
/// gives its text, and each further id adds `,` and its text.
pub proof fn law_id_list_every_id(ids: Seq<i64>, x: i64)
    ensures
        id_list(seq![]) == Seq::<char>::empty(),
        id_list(seq![x]) == int_text(x as int),
        ids.len() > 0 ==> id_list(ids.push(x)) == id_list(ids) + ","@ + int_text(x as int),
{
    assert(Seq::<i64>::empty().map_values(|i: i64| int_text(i as int)) =~= Seq::<Seq<char>>::empty());
    assert(seq![x].map_values(|i: i64| int_text(i as int)) =~= seq![int_text(x as int)]);
    if ids.len() > 0 {
        let m = ids.push(x).map_values(|i: i64| int_text(i as int));
        assert(m.drop_last() =~= ids.map_values(|i: i64| int_text(i as int)));
    }
}

} // verus!
