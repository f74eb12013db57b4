//! The arguments of the attributes that take a name, a few keys or a number:
//! `cool_controller`, `cool_entity` columns, `cool_cache`, `cool_tag`,
//! `cool_event`, `cool_rpc_service`, `cool_rpc_method`,
//! `cool_rpc_event_handler`, `cool_plugin` and the transaction attributes.

use vstd::prelude::*;
use vstd::string::StringSliceAdditionalSpecFns;
use crate::attr::{opt_view, key_value, key_value_chars, chars_are, owned};
use crate::scan::{
    trim, unquote, trim_char, split_once, strip_prefix, strip_prefix_chars, split_list,
    string_views, split_trimmed, trim_ws, trim_matches, unquote_chars, find_char, find_char_index,
    parse_unsigned, parse_u64, slice_chars, trim_start_by, trim_end_by, char_pred,
};
use crate::text::{
    split_spec, split_char, views, chars_of, to_owned_string, str_lower, str_to_lowercase,
    contains_seq, str_contains, starts_with,
};
use crate::util::string::{replace_spec, replace_all};
use crate::util::{md5, hex_lower_spec, md5_digest};

verus! {

// ------------------------------------------------------------ argument lists

/// Splitting state: the pieces so far (the last one open), whether a string
/// literal is open, and how many brackets are open.
pub struct SplitState {
    pub pieces: Seq<Seq<char>>,
    pub in_quote: bool,
    pub depth: nat,
}

/// One character of an argument list: a comma outside string literals and
/// brackets ends the current argument; quotes and brackets are tracked.
pub open spec fn split_args_step(st: SplitState, c: char) -> SplitState {
    let last = st.pieces.len() - 1;
    let append = st.pieces.update(last, st.pieces[last].push(c));
    if c == '"' {
        SplitState { pieces: append, in_quote: !st.in_quote, depth: st.depth }
    } else if !st.in_quote && c == '[' {
        SplitState { pieces: append, in_quote: false, depth: st.depth + 1 }
    } else if !st.in_quote && c == ']' {
        SplitState {
            pieces: append,
            in_quote: false,
            depth: if st.depth > 0 { (st.depth - 1) as nat } else { 0 },
        }
    } else if !st.in_quote && st.depth == 0 && c == ',' {
        SplitState { pieces: st.pieces.push(seq![]), in_quote: false, depth: 0 }
    } else {
        SplitState { pieces: append, in_quote: st.in_quote, depth: st.depth }
    }
}

/// The splitting state after reading `s`.
pub open spec fn split_args_state(s: Seq<char>) -> SplitState
    decreases s.len(),
{
    if s.len() == 0 {
        SplitState { pieces: seq![seq![]], in_quote: false, depth: 0 }
    } else {
        split_args_step(split_args_state(s.drop_last()), s.last())
    }
}

/// The arguments of an argument list: split at the commas that stand outside
/// string literals and brackets.
pub open spec fn split_args(s: Seq<char>) -> Seq<Seq<char>> {
    split_args_state(s).pieces
}

proof fn lemma_split_args_nonempty(s: Seq<char>)
    ensures
        split_args_state(s).pieces.len() >= 1,
    decreases s.len(),
{
    if s.len() > 0 {
        lemma_split_args_nonempty(s.drop_last());
    }
}

/// Splits an argument list at its top-level commas.
pub fn split_args_exec(s: &Vec<char>) -> (r: Vec<Vec<char>>)
    ensures
        views(r@) == split_args(s@),
{
    let mut pieces: Vec<Vec<char>> = Vec::new();
    let mut cur: Vec<char> = Vec::new();
    let mut in_quote = false;
    let mut depth: usize = 0;
    let mut i: usize = 0;
    while i < s.len()
        invariant
            i <= s.len(),
            depth <= i,
            views(pieces@).push(cur@) == split_args_state(s@.take(i as int)).pieces,
            in_quote == split_args_state(s@.take(i as int)).in_quote,
            depth == split_args_state(s@.take(i as int)).depth,
        decreases s.len() - i,
    {
        let c = s[i];
        assert(s@.take(i + 1).drop_last() =~= s@.take(i as int));
        assert(s@.take(i + 1).last() == c);
        let ghost before = views(pieces@).push(cur@);
        if c == '"' {
            cur.push(c);
            in_quote = !in_quote;
        } else if !in_quote && c == '[' {
            cur.push(c);
            depth = depth + 1;
        } else if !in_quote && c == ']' {
            cur.push(c);
            if depth > 0 {
                depth = depth - 1;
            }
        } else if !in_quote && depth == 0 && c == ',' {
            let done = cur;
            pieces.push(done);
            cur = Vec::new();
            assert(views(pieces@) =~= before);
        } else {
            cur.push(c);
        }
        assert(views(pieces@).push(cur@) =~= split_args_state(s@.take(i + 1)).pieces);
        i = i + 1;
    }
    assert(s@.take(s.len() as int) =~= s@);
    pieces.push(cur);
    assert(views(pieces@) =~= split_args(s@));
    pieces
}

// ------------------------------------------------------------ cool_controller

/// The APIs a controller gets when none are named.
pub open spec fn default_apis() -> Seq<Seq<char>> {
    seq!["add"@, "delete"@, "update"@, "page"@, "info"@, "list"@]
}

/// What the arguments of `#[cool_controller(..)]` set: a prefix and the APIs.
pub struct ControllerSpec {
    pub prefix: Option<Seq<char>>,
    pub apis: Seq<Seq<char>>,
}

/// The parsed arguments of `#[cool_controller(..)]`.
pub struct ControllerArgs {
    pub prefix: Option<String>,
    pub apis: Vec<String>,
}

impl View for ControllerArgs {
    type V = ControllerSpec;

    open spec fn view(&self) -> ControllerSpec {
        ControllerSpec { prefix: opt_view(self.prefix), apis: string_views(self.apis@) }
    }
}

/// The items of a list value `[a, "b", ..]`: the brackets stripped, then each
/// comma-separated item trimmed and unquoted, empty ones left out.
pub open spec fn bracket_items(pieces: Seq<Seq<char>>) -> Seq<Seq<char>>
    decreases pieces.len(),
{
    if pieces.len() == 0 {
        seq![]
    } else {
        let prev = bracket_items(pieces.drop_last());
        let t = unquote(pieces.last());
        if t.len() > 0 {
            prev.push(t)
        } else {
            prev
        }
    }
}

/// The APIs named by an `api` value: a bracketed list, or a quoted
/// comma-separated string whose items are trimmed.
pub open spec fn api_list(v: Seq<char>) -> Seq<Seq<char>> {
    if v.len() > 0 && v[0] == '[' {
        let content = trim_end_by(trim_start_by(v, char_pred('[')), char_pred(']'));
        bracket_items(split_spec(content, ','))
    } else {
        split_spec(trim_char(v, '"'), ',').map_values(|p: Seq<char>| trim(p))
    }
}

/// The effect of one controller argument: `prefix = ..` or `api = ..`.
pub open spec fn controller_step(acc: ControllerSpec, raw: Seq<char>) -> ControllerSpec {
    let arg = trim(raw);
    match strip_prefix(arg, "prefix"@) {
        Some(p) => match strip_prefix(trim(p), "="@) {
            Some(q) => ControllerSpec { prefix: Some(unquote(q)), ..acc },
            None => acc,
        },
        None => match strip_prefix(arg, "api"@) {
            Some(a) => match strip_prefix(trim(a), "="@) {
                Some(b) => ControllerSpec { apis: api_list(trim(b)), ..acc },
                None => acc,
            },
            None => acc,
        },
    }
}

/// The arguments read from left to right.
pub open spec fn controller_fold(parts: Seq<Seq<char>>) -> ControllerSpec
    decreases parts.len(),
{
    if parts.len() == 0 {
        ControllerSpec { prefix: None, apis: default_apis() }
    } else {
        controller_step(controller_fold(parts.drop_last()), parts.last())
    }
}

/// What a `#[cool_controller(..)]` argument text sets.
pub open spec fn controller_spec(args: Seq<char>) -> ControllerSpec {
    controller_fold(split_args(args))
}

/// The route prefix of a controller named by no argument: `/` and the struct's
/// name in lower case with `controller` removed.
pub open spec fn default_prefix_spec(struct_name: Seq<char>) -> Seq<char> {
    seq!['/'] + replace_spec(str_lower(struct_name), "controller"@, seq![])
}

fn bracket_items_exec(content: &Vec<char>) -> (r: Vec<String>)
    ensures
        string_views(r@) == bracket_items(split_spec(content@, ',')),
{
    let pieces = split_char(content, ',');
    let mut out: Vec<String> = Vec::new();
    let mut i: usize = 0;
    while i < pieces.len()
        invariant
            i <= pieces.len(),
            views(pieces@) == split_spec(content@, ','),
            string_views(out@) == bracket_items(views(pieces@).take(i as int)),
        decreases pieces.len() - i,
    {
        let t = unquote_chars(&pieces[i]);
        assert(views(pieces@).take(i + 1).drop_last() =~= views(pieces@).take(i as int));
        assert(views(pieces@).take(i + 1).last() == pieces@[i as int]@);
        if t.len() > 0 {
            let ghost before = out@;
            out.push(owned(&t));
            assert(string_views(out@) =~= string_views(before).push(t@));
        }
        i = i + 1;
    }
    assert(views(pieces@).take(pieces.len() as int) =~= views(pieces@));
    out
}

fn api_list_exec(v: &Vec<char>) -> (r: Vec<String>)
    ensures
        string_views(r@) == api_list(v@),
{
    if v.len() > 0 && v[0] == '[' {
        let a = trim_start_chars(v, '[');
        let content = trim_end_chars(&a, ']');
        bracket_items_exec(&content)
    } else {
        let inner = trim_matches(v, '"');
        let pieces = split_char(&inner, ',');
        let mut out: Vec<String> = Vec::new();
        let mut i: usize = 0;
        while i < pieces.len()
            invariant
                i <= pieces.len(),
                views(pieces@) == split_spec(trim_char(v@, '"'), ','),
                string_views(out@) == views(pieces@).take(i as int).map_values(
                    |p: Seq<char>| trim(p),
                ),
            decreases pieces.len() - i,
        {
            let t = trim_ws(&pieces[i]);
            let ghost before = out@;
            out.push(owned(&t));
            assert(string_views(out@) =~= string_views(before).push(t@));
            assert(views(pieces@).take(i + 1) =~= views(pieces@).take(i as int).push(
                pieces@[i as int]@,
            ));
            i = i + 1;
        }
        assert(views(pieces@).take(pieces.len() as int) =~= views(pieces@));
        out
    }
}

/// `str::trim_start_matches(c)`.
pub fn trim_start_chars(s: &Vec<char>, c: char) -> (r: Vec<char>)
    ensures
        r@ == trim_start_by(s@, char_pred(c)),
{
    let n = s.len();
    let mut a: usize = 0;
    assert(s@.subrange(0, n as int) =~= s@);
    while a < n && s[a] == c
        invariant
            n == s.len(),
            a <= n,
            trim_start_by(s@.subrange(a as int, n as int), char_pred(c)) == trim_start_by(
                s@,
                char_pred(c),
            ),
        decreases n - a,
    {
        assert(s@.subrange(a as int, n as int).drop_first() =~= s@.subrange(a + 1, n as int));
        a = a + 1;
    }
    assert(trim_start_by(s@.subrange(a as int, n as int), char_pred(c)) == s@.subrange(
        a as int,
        n as int,
    )) by {
        if a < n {
            assert(s@.subrange(a as int, n as int)[0] == s@[a as int]);
        }
    }
    slice_chars(s, a, n)
}

/// `str::trim_end_matches(c)`.
pub fn trim_end_chars(s: &Vec<char>, c: char) -> (r: Vec<char>)
    ensures
        r@ == trim_end_by(s@, char_pred(c)),
{
    let n = s.len();
    let mut b: usize = n;
    assert(s@.subrange(0, n as int) =~= s@);
    while b > 0 && s[b - 1] == c
        invariant
            n == s.len(),
            b <= n,
            trim_end_by(s@.subrange(0, b as int), char_pred(c)) == trim_end_by(s@, char_pred(c)),
        decreases b,
    {
        assert(s@.subrange(0, b as int).drop_last() =~= s@.subrange(0, b - 1));
        b = b - 1;
    }
    assert(trim_end_by(s@.subrange(0, b as int), char_pred(c)) == s@.subrange(0, b as int)) by {
        if b > 0 {
            assert(s@.subrange(0, b as int).last() == s@[b - 1]);
        }
    }
    slice_chars(s, 0, b)
}

impl ControllerArgs {
    fn step(&mut self, raw: &Vec<char>)
        ensures
            final(self)@ == controller_step(old(self)@, raw@),
    {
        let arg = trim_ws(raw);
        let kw_prefix = chars_of("prefix");
        let kw_api = chars_of("api");
        let eq = chars_of("=");
        match strip_prefix_chars(&arg, &kw_prefix) {
            Some(p) => {
                let pt = trim_ws(&p);
                match strip_prefix_chars(&pt, &eq) {
                    Some(q) => {
                        self.prefix = Some(owned(&unquote_chars(&q)));
                    },
                    None => {},
                }
            },
            None => match strip_prefix_chars(&arg, &kw_api) {
                Some(a) => {
                    let at = trim_ws(&a);
                    match strip_prefix_chars(&at, &eq) {
                        Some(b) => {
                            self.apis = api_list_exec(&trim_ws(&b));
                        },
                        None => {},
                    }
                },
                None => {},
            },
        }
    }
}

/// Parses the argument text of `#[cool_controller(..)]`. Arguments are
/// separated by the commas outside string literals and brackets, so that both
/// `api = "add,delete"` and `api = ["add", "delete"]` name two APIs.
pub fn parse_controller_args(args: &str) -> (r: ControllerArgs)
    ensures
        r@ == controller_spec(args@),
{
    let chars = chars_of(args);
    let parts = split_args_exec(&chars);
    let mut acc = ControllerArgs {
        prefix: None,
        apis: vec![
            to_owned_string("add"),
            to_owned_string("delete"),
            to_owned_string("update"),
            to_owned_string("page"),
            to_owned_string("info"),
            to_owned_string("list"),
        ],
    };
    assert(string_views(acc.apis@) =~= default_apis());
    let mut i: usize = 0;
    while i < parts.len()
        invariant
            i <= parts.len(),
            views(parts@) == split_args(args@),
            acc@ == controller_fold(views(parts@).take(i as int)),
        decreases parts.len() - i,
    {
        assert(views(parts@).take(i + 1).drop_last() =~= views(parts@).take(i as int));
        assert(views(parts@).take(i + 1).last() == parts@[i as int]@);
        acc.step(&parts[i]);
        i = i + 1;
    }
    assert(views(parts@).take(parts.len() as int) =~= views(parts@));
    acc
}

/// The route prefix of a controller that names none.
pub fn default_controller_prefix(struct_name: &str) -> (r: String)
    ensures
        r@ == default_prefix_spec(struct_name@),
{
    let lower = str_to_lowercase(struct_name);
    let stripped = replace_all(lower.as_str(), "controller", "");
    let mut r = to_owned_string("/");
    proof {
        reveal_strlit("/");
        reveal_strlit("");
        assert(""@ =~= Seq::<char>::empty());
    }
    r.append(stripped.as_str());
    r
}

// ------------------------------------------------------------ entity columns

/// Whether the text of a Rust type names one of the integer types.
pub open spec fn is_integer_type(ty: Seq<char>) -> bool {
    ||| contains_seq(ty, "i8"@)
    ||| contains_seq(ty, "i16"@)
    ||| contains_seq(ty, "i32"@)
    ||| contains_seq(ty, "i64"@)
    ||| contains_seq(ty, "i128"@)
    ||| contains_seq(ty, "isize"@)
    ||| contains_seq(ty, "u8"@)
    ||| contains_seq(ty, "u16"@)
    ||| contains_seq(ty, "u32"@)
    ||| contains_seq(ty, "u64"@)
    ||| contains_seq(ty, "u128"@)
    ||| contains_seq(ty, "usize"@)
}

/// Whether the text of a Rust type names one of the integer types.
fn integer_type(ty: &str) -> (r: bool)
    ensures
        r == is_integer_type(ty@),
{
    str_contains(ty, "i8") || str_contains(ty, "i16") || str_contains(ty, "i32") || str_contains(ty, "i64")
        || str_contains(ty, "i128") || str_contains(ty, "isize") || str_contains(ty, "u8")
        || str_contains(ty, "u16") || str_contains(ty, "u32") || str_contains(ty, "u64")
        || str_contains(ty, "u128") || str_contains(ty, "usize")
}

/// The front-end type of an entity field, read from the text of its Rust type:
/// text, any integer or decimal number, booleans and date-times.
pub open spec fn column_type_spec(ty: Seq<char>) -> Seq<char> {
    if contains_seq(ty, "String"@) {
        "string"@
    } else if is_integer_type(ty) {
        "number"@
    } else if contains_seq(ty, "Decimal"@) || contains_seq(ty, "f32"@) || contains_seq(ty, "f64"@) {
        "number"@
    } else if contains_seq(ty, "bool"@) {
        "boolean"@
    } else if contains_seq(ty, "DateTime"@) || contains_seq(ty, "NaiveDateTime"@) {
        "datetime"@
    } else {
        "string"@
    }
}

/// Maps the text of a field's Rust type to the type name the front end uses.
pub fn column_type(ty: &str) -> (r: String)
    ensures
        r@ == column_type_spec(ty@),
{
    if str_contains(ty, "String") {
        to_owned_string("string")
    } else if integer_type(ty) {
        to_owned_string("number")
    } else if str_contains(ty, "Decimal") || str_contains(ty, "f32") || str_contains(ty, "f64") {
        to_owned_string("number")
    } else if str_contains(ty, "bool") {
        to_owned_string("boolean")
    } else if str_contains(ty, "DateTime") || str_contains(ty, "NaiveDateTime") {
        to_owned_string("datetime")
    } else {
        to_owned_string("string")
    }
}

// ------------------------------------------------------------ cool_cache

/// The time to live of `#[cool_cache(ttl = n)]`, in seconds: the number after
/// the first `=`, else 60.
pub open spec fn cache_ttl_spec(args: Seq<char>) -> u64 {
    let pieces = split_spec(args, '=');
    if pieces.len() > 1 {
        match parse_unsigned(trim(pieces[1]), u64::MAX as nat) {
            Some(v) => v as u64,
            None => 60,
        }
    } else {
        60
    }
}

/// Reads the time to live of `#[cool_cache(..)]`.
pub fn parse_cache_ttl(args: &str) -> (r: u64)
    ensures
        r == cache_ttl_spec(args@),
{
    let chars = chars_of(args);
    let pieces = split_char(&chars, '=');
    if pieces.len() > 1 {
        assert(views(pieces@)[1] == pieces@[1]@);
        match parse_u64(&trim_ws(&pieces[1])) {
            Some(v) => v,
            None => 60,
        }
    } else {
        60
    }
}

/// The cache key of a call: `cool_cache:`, the function's name, `:` and the
/// MD5 of the serialised arguments, or `nokey` where they could not be serialised.
pub open spec fn cache_key_spec(fn_name: Seq<char>, serialized: Option<Seq<u8>>) -> Seq<char> {
    "cool_cache:"@ + fn_name + ":"@ + match serialized {
        Some(b) => hex_lower_spec(md5_digest(b)),
        None => "nokey"@,
    }
}

/// Builds the cache key of a call from the function's name and the JSON text
/// of its arguments.
pub fn cache_key(fn_name: &str, serialized: Option<&str>) -> (r: String)
    ensures
        r@ == cache_key_spec(
            fn_name@,
            match serialized {
                Some(s) => Some(s.spec_bytes()),
                None => None,
            },
        ),
{
    let mut r = to_owned_string("cool_cache:");
    r.append(fn_name);
    r.append(":");
    match serialized {
        Some(s) => {
            let h = md5(s);
            r.append(h.as_str());
        },
        None => {
            r.append("nokey");
        },
    }
    r
}

// ------------------------------------------------------------ single names

/// `#[cool_tag(..)]`: `default` without arguments, a quoted name unquoted, or
/// the text as it stands.
pub open spec fn tag_name_spec(args: Seq<char>) -> Seq<char> {
    if args.len() == 0 {
        "default"@
    } else if args[0] == '"' {
        trim_char(args, '"')
    } else {
        args
    }
}

/// Reads the tag of `#[cool_tag(..)]`.
pub fn parse_tag_name(args: &str) -> (r: String)
    ensures
        r@ == tag_name_spec(args@),
{
    let chars = chars_of(args);
    if chars.len() == 0 {
        to_owned_string("default")
    } else if chars[0] == '"' {
        owned(&trim_matches(&chars, '"'))
    } else {
        to_owned_string(args)
    }
}

/// A name given as `key = "name"`, `"name"` or `name`, as `#[cool_event]` and
/// `#[cool_plugin]` read it; `None` without arguments.
pub open spec fn named_arg_spec(args: Seq<char>) -> Option<Seq<char>> {
    if args.len() == 0 {
        None
    } else {
        match find_char(args, '=') {
            Some(pos) => Some(unquote(args.skip(pos + 1))),
            None => if args[0] == '"' {
                Some(trim_char(args, '"'))
            } else {
                Some(args)
            },
        }
    }
}

/// Reads a name given as `key = "name"`, `"name"` or `name`.
pub fn parse_named_arg(args: &str) -> (r: Option<String>)
    ensures
        opt_view(r) == named_arg_spec(args@),
{
    let chars = chars_of(args);
    if chars.len() == 0 {
        return None;
    }
    match find_char_index(&chars, '=') {
        Some(pos) => {
            let rest = slice_chars(&chars, pos + 1, chars.len());
            assert(rest@ =~= args@.skip(pos + 1));
            Some(owned(&unquote_chars(&rest)))
        },
        None => {
            if chars[0] == '"' {
                Some(owned(&trim_matches(&chars, '"')))
            } else {
                Some(to_owned_string(args))
            }
        },
    }
}

/// The event name of `#[cool_event(..)]` on the function `fn_name`.
pub fn event_name(args: &str, fn_name: &str) -> (r: String)
    ensures
        r@ == match named_arg_spec(args@) {
            Some(n) => n,
            None => fn_name@,
        },
{
    match parse_named_arg(args) {
        Some(n) => n,
        None => to_owned_string(fn_name),
    }
}

/// The plugin key of `#[cool_plugin(..)]` on the struct `struct_name`: the
/// name given, else the struct's name in lower case.
pub fn plugin_key(args: &str, struct_name: &str) -> (r: String)
    ensures
        r@ == match named_arg_spec(args@) {
            Some(n) => n,
            None => str_lower(struct_name@),
        },
{
    match parse_named_arg(args) {
        Some(n) => n,
        None => str_to_lowercase(struct_name),
    }
}

/// `#[cool_rpc_method(..)]`: the text after `=` or the whole text, unquoted.
pub open spec fn rpc_method_spec(args: Seq<char>) -> Option<Seq<char>> {
    if args.len() == 0 {
        None
    } else {
        match find_char(args, '=') {
            Some(pos) => Some(unquote(args.skip(pos + 1))),
            None => Some(unquote(args)),
        }
    }
}

/// The method name of `#[cool_rpc_method(..)]` on the function `fn_name`.
pub fn rpc_method_name(args: &str, fn_name: &str) -> (r: String)
    ensures
        r@ == match rpc_method_spec(args@) {
            Some(n) => n,
            None => fn_name@,
        },
{
    let chars = chars_of(args);
    if chars.len() == 0 {
        return to_owned_string(fn_name);
    }
    match find_char_index(&chars, '=') {
        Some(pos) => {
            let rest = slice_chars(&chars, pos + 1, chars.len());
            assert(rest@ =~= args@.skip(pos + 1));
            owned(&unquote_chars(&rest))
        },
        None => owned(&unquote_chars(&chars)),
    }
}

// ------------------------------------------------------------ keyed names

/// What `name = .., methods = ..` (or `service = .., event = ..`) arguments set.
pub struct KeyedSpec {
    pub name: Option<Seq<char>>,
    pub second: Option<Seq<char>>,
    pub list: Seq<Seq<char>>,
}

/// The kind of keyed attribute being read.
pub enum KeyedKind {
    /// `#[cool_rpc_service(name = .., methods = "a|b")]`
    Service,
    /// `#[cool_rpc_event_handler(service = .., event = ..)]`
    EventHandler,
}

/// The effect of one `key = value` argument of a keyed attribute.
pub open spec fn keyed_step(kind: KeyedKind, acc: KeyedSpec, raw: Seq<char>) -> KeyedSpec {
    let part = trim(raw);
    if part.len() == 0 {
        acc
    } else {
        match key_value(part) {
            Some(kv) => {
                let key = kv.0;
                let val = kv.1;
                match kind {
                    KeyedKind::Service => if key == "name"@ || key == "service"@ {
                        KeyedSpec { name: Some(val), ..acc }
                    } else if key == "methods"@ {
                        KeyedSpec { list: split_list(val, '|'), ..acc }
                    } else {
                        acc
                    },
                    KeyedKind::EventHandler => if key == "service"@ || key == "name"@ {
                        KeyedSpec { name: Some(val), ..acc }
                    } else if key == "event"@ {
                        KeyedSpec { second: Some(val), ..acc }
                    } else {
                        acc
                    },
                }
            },
            None => acc,
        }
    }
}

/// The keyed arguments read from left to right.
pub open spec fn keyed_fold(kind: KeyedKind, parts: Seq<Seq<char>>) -> KeyedSpec
    decreases parts.len(),
{
    if parts.len() == 0 {
        KeyedSpec { name: None, second: None, list: seq![] }
    } else {
        keyed_step(kind, keyed_fold(kind, parts.drop_last()), parts.last())
    }
}

/// What a keyed attribute's argument text sets: keyed arguments where it holds
/// an `=`, else the whole text, unquoted, as the name.
pub open spec fn keyed_spec(kind: KeyedKind, args: Seq<char>) -> KeyedSpec {
    if args.contains('=') {
        keyed_fold(kind, split_spec(args, ','))
    } else if args.len() > 0 {
        KeyedSpec { name: Some(unquote(args)), second: None, list: seq![] }
    } else {
        KeyedSpec { name: None, second: None, list: seq![] }
    }
}

/// The parsed arguments of a keyed attribute.
pub struct KeyedArgs {
    pub name: Option<String>,
    pub second: Option<String>,
    pub list: Vec<String>,
}

impl View for KeyedArgs {
    type V = KeyedSpec;

    open spec fn view(&self) -> KeyedSpec {
        KeyedSpec { name: opt_view(self.name), second: opt_view(self.second), list: string_views(self.list@) }
    }
}

impl KeyedArgs {
    fn step(&mut self, service: bool, raw: &Vec<char>)
        ensures
            final(self)@ == keyed_step(
                if service { KeyedKind::Service } else { KeyedKind::EventHandler },
                old(self)@,
                raw@,
            ),
    {
        let part = trim_ws(raw);
        if part.len() == 0 {
            return;
        }
        match key_value_chars(&part) {
            Some((k, v)) => {
                if service {
                    if chars_are(&k, "name") || chars_are(&k, "service") {
                        self.name = Some(owned(&v));
                    } else if chars_are(&k, "methods") {
                        self.list = split_trimmed(&v, '|');
                    }
                } else {
                    if chars_are(&k, "service") || chars_are(&k, "name") {
                        self.name = Some(owned(&v));
                    } else if chars_are(&k, "event") {
                        self.second = Some(owned(&v));
                    }
                }
            },
            None => {},
        }
    }
}

fn parse_keyed(args: &str, service: bool) -> (r: KeyedArgs)
    ensures
        r@ == keyed_spec(if service { KeyedKind::Service } else { KeyedKind::EventHandler }, args@),
{
    let ghost kind = if service { KeyedKind::Service } else { KeyedKind::EventHandler };
    let chars = chars_of(args);
    let mut acc = KeyedArgs { name: None, second: None, list: Vec::new() };
    assert(string_views(acc.list@) =~= seq![]);
    if find_char_index(&chars, '=').is_some() {
        let parts = split_char(&chars, ',');
        let mut i: usize = 0;
        while i < parts.len()
            invariant
                i <= parts.len(),
                views(parts@) == split_spec(args@, ','),
                kind == (if service { KeyedKind::Service } else { KeyedKind::EventHandler }),
                acc@ == keyed_fold(kind, views(parts@).take(i as int)),
            decreases parts.len() - i,
        {
            assert(views(parts@).take(i + 1).drop_last() =~= views(parts@).take(i as int));
            assert(views(parts@).take(i + 1).last() == parts@[i as int]@);
            acc.step(service, &parts[i]);
            i = i + 1;
        }
        assert(views(parts@).take(parts.len() as int) =~= views(parts@));
    } else if chars.len() > 0 {
        acc.name = Some(owned(&unquote_chars(&chars)));
    }
    acc
}

/// Parses `#[cool_rpc_service(..)]`: `name` (or `service`) and `methods`
/// separated by `|`, or a single name.
pub fn parse_rpc_service_args(args: &str) -> (r: KeyedArgs)
    ensures
        r@ == keyed_spec(KeyedKind::Service, args@),
{
    parse_keyed(args, true)
}

/// Parses `#[cool_rpc_event_handler(..)]`: `service` (or `name`) and `event`,
/// or a single service name.
pub fn parse_rpc_event_handler_args(args: &str) -> (r: KeyedArgs)
    ensures
        r@ == keyed_spec(KeyedKind::EventHandler, args@),
{
    parse_keyed(args, false)
}

/// The name of a service marked `#[cool_rpc_service(..)]` on the struct
/// `struct_name`: the name the arguments give, else the struct's name.
pub fn rpc_service_name(args: &str, struct_name: &str) -> (r: String)
    ensures
        r@ == match keyed_spec(KeyedKind::Service, args@).name {
            Some(n) => n,
            None => struct_name@,
        },
{
    let a = parse_rpc_service_args(args);
    match a.name {
        Some(n) => n,
        None => to_owned_string(struct_name),
    }
}

/// What `#[cool_rpc_event_handler(..)]` on the function `fn_name` registers:
/// under the service the arguments name, the event they name (else the
/// function's name) handled by the function. Without a service, which the
/// attribute requires, nothing is registered.
pub fn rpc_event_handler_entry(args: &str, fn_name: &str) -> (r: Option<(String, crate::rpc::RpcEventMeta)>)
    ensures
        keyed_spec(KeyedKind::EventHandler, args@).name is None <==> r is None,
        r matches Some((svc, meta)) ==> Some(svc@) == keyed_spec(KeyedKind::EventHandler, args@).name
            && meta.name@ == match keyed_spec(KeyedKind::EventHandler, args@).second {
                Some(e) => e,
                None => fn_name@,
            } && meta.handler@ == fn_name@,
{
    let a = parse_rpc_event_handler_args(args);
    match a.name {
        None => None,
        Some(svc) => {
            let name = match a.second {
                Some(e) => e,
                None => to_owned_string(fn_name),
            };
            Some((svc, crate::rpc::RpcEventMeta { name, handler: to_owned_string(fn_name) }))
        },
    }
}

// ------------------------------------------------------------ transactions

/// A parameter of a function as the transaction attributes see it: its name
/// (where it is a plain identifier), the last segment of its type's path and
/// whether the type is a reference.
pub struct ParamShape {
    pub name: Option<String>,
    pub ty_name: Option<String>,
    pub is_ref: bool,
}

/// The connection parameter of `#[cool_rpc_transaction]`: the first parameter
/// after the first whose type is a reference to `DatabaseConnection`, by its
/// name; `db` where there is none or it has no plain name.
pub open spec fn rpc_txn_db_param(params: Seq<ParamShape>) -> Seq<char> {
    if exists|i: int| 1 <= i < params.len() && is_connection(#[trigger] params[i]) {
        let i = choose|i: int|
            1 <= i < params.len() && is_connection(params[i]) && forall|j: int|
                1 <= j < i ==> !is_connection(#[trigger] params[j]);
        match params[i].name {
            Some(n) => n@,
            None => "db"@,
        }
    } else {
        "db"@
    }
}

/// Whether a parameter is a reference to a `DatabaseConnection`.
pub open spec fn is_connection(p: ParamShape) -> bool {
    p.is_ref && match p.ty_name {
        Some(t) => t@ == "DatabaseConnection"@,
        None => false,
    }
}

/// Picks the connection parameter of `#[cool_rpc_transaction]`.
pub fn rpc_transaction_db_param(params: &Vec<ParamShape>) -> (r: String)
    ensures
        r@ == rpc_txn_db_param(params@),
{
    let mut i: usize = 1;
    while i < params.len()
        invariant
            1 <= i,
            forall|j: int| 1 <= j < i && j < params.len() ==> !is_connection(#[trigger] params@[j]),
        decreases params.len() - i,
    {
        let p = &params[i];
        let conn = p.is_ref && match &p.ty_name {
            Some(t) => str_eq_db(t),
            None => false,
        };
        if conn {
            proof {
                assert(is_connection(params@[i as int]));
                let k = choose|k: int|
                    1 <= k < params@.len() && is_connection(params@[k]) && forall|j: int|
                        1 <= j < k ==> !is_connection(#[trigger] params@[j]);
                assert(k == i) by {
                    if k < i {
                        assert(!is_connection(params@[k]));
                    } else if k > i {
                        assert(!is_connection(params@[i as int]));
                    }
                }
            }
            return match &p.name {
                Some(n) => n.clone(),
                None => to_owned_string("db"),
            };
        }
        i = i + 1;
    }
    to_owned_string("db")
}

fn str_eq_db(t: &String) -> (r: bool)
    ensures
        r == (t@ == "DatabaseConnection"@),
{
    crate::text::str_eq(t.as_str(), "DatabaseConnection")
}

/// The connection parameter of `#[cool_transaction]`: the first parameter's
/// name, `db` where it has none.
pub fn transaction_db_param(params: &Vec<ParamShape>) -> (r: String)
    ensures
        r@ == (if params@.len() > 0 && params@[0].name is Some {
            params@[0].name->0@
        } else {
            "db"@
        }),
{
    if params.len() > 0 {
        match &params[0].name {
            Some(n) => return n.clone(),
            None => {},
        }
    }
    to_owned_string("db")
}

} // verus!
