//! The arguments of `#[eps_route(..)]`: module, scope, prefix, entity, the
//! route's path and method, whether it skips the token check, and the page
//! query settings (`keyWordLikeFields`, `fieldEq`, `fieldLike`, `orderBy`).

use vstd::prelude::*;
use crate::attr::{opt_view, key_value, key_value_chars, chars_are, owned};
use crate::scan::{trim, split_list, string_views, split_trimmed, trim_ws};
use crate::text::{split_spec, split_char, views, chars_of, str_upper, str_to_uppercase, to_owned_string, ascii_lower_char};

verus! {

/// What the arguments of `#[eps_route(..)]` set.
pub struct EpsRouteSpec {
    pub module: Seq<char>,
    pub scope: Seq<char>,
    pub prefix: Seq<char>,
    pub entity: Option<Seq<char>>,
    pub entity_type: Option<Seq<char>>,
    pub controller: Option<Seq<char>>,
    pub summary: Option<Seq<char>>,
    pub path: Option<Seq<char>>,
    pub method: Seq<char>,
    pub ignore_token: bool,
    pub key_word_like_fields: Seq<Seq<char>>,
    pub field_eq: Seq<Seq<char>>,
    pub field_like: Seq<Seq<char>>,
    pub order_by: Seq<(Seq<char>, bool)>,
    pub tag: Option<Seq<char>>,
    pub controller_type: Option<Seq<char>>,
}

/// The parsed arguments of `#[eps_route(..)]`.
pub struct EpsRouteArgs {
    pub module: String,
    pub scope: String,
    pub prefix: String,
    pub entity: Option<String>,
    pub entity_type: Option<String>,
    pub controller: Option<String>,
    pub summary: Option<String>,
    pub path: Option<String>,
    pub method: String,
    pub ignore_token: bool,
    pub key_word_like_fields: Vec<String>,
    pub field_eq: Vec<String>,
    pub field_like: Vec<String>,
    pub order_by: Vec<(String, bool)>,
    pub tag: Option<String>,
    pub controller_type: Option<String>,
}

/// The views of ordering entries.
pub open spec fn order_views(v: Seq<(String, bool)>) -> Seq<(Seq<char>, bool)> {
    v.map_values(|x: (String, bool)| (x.0@, x.1))
}

impl View for EpsRouteArgs {
    type V = EpsRouteSpec;

    open spec fn view(&self) -> EpsRouteSpec {
        EpsRouteSpec {
            module: self.module@,
            scope: self.scope@,
            prefix: self.prefix@,
            entity: opt_view(self.entity),
            entity_type: opt_view(self.entity_type),
            controller: opt_view(self.controller),
            summary: opt_view(self.summary),
            path: opt_view(self.path),
            method: self.method@,
            ignore_token: self.ignore_token,
            key_word_like_fields: string_views(self.key_word_like_fields@),
            field_eq: string_views(self.field_eq@),
            field_like: string_views(self.field_like@),
            order_by: order_views(self.order_by@),
            tag: opt_view(self.tag),
            controller_type: opt_view(self.controller_type),
        }
    }
}

/// Case-insensitive equality over ASCII letters (`str::eq_ignore_ascii_case`).
pub open spec fn eq_ignore_ascii_case(a: Seq<char>, b: Seq<char>) -> bool {
    a.len() == b.len() && forall|i: int|
        0 <= i < a.len() ==> ascii_lower_char(#[trigger] a[i]) == ascii_lower_char(b[i])
}

/// One `column:direction` entry of `orderBy`: the column, and whether the
/// order is ascending (anything but `desc`, in any case, is ascending).
pub open spec fn order_item(pair: Seq<char>) -> (Seq<char>, bool) {
    let pieces = split_spec(pair, ':');
    (trim(pieces[0]), !(pieces.len() > 1 && eq_ignore_ascii_case(trim(pieces[1]), "desc"@)))
}

/// The entries of an `orderBy` value, separated by `|`.
pub open spec fn order_list(val: Seq<char>) -> Seq<(Seq<char>, bool)> {
    split_list(val, '|').map_values(|p: Seq<char>| order_item(p))
}

/// The settings before any argument is read.
pub open spec fn eps_route_init() -> EpsRouteSpec {
    EpsRouteSpec {
        module: seq![],
        scope: "admin"@,
        prefix: seq![],
        entity: None,
        entity_type: None,
        controller: None,
        summary: None,
        path: None,
        method: "GET"@,
        ignore_token: false,
        key_word_like_fields: seq![],
        field_eq: seq![],
        field_like: seq![],
        order_by: seq![],
        tag: None,
        controller_type: None,
    }
}

/// The effect of one `key = value` argument.
pub open spec fn eps_route_assign(acc: EpsRouteSpec, key: Seq<char>, val: Seq<char>) -> EpsRouteSpec {
    if key == "module"@ {
        EpsRouteSpec { module: val, ..acc }
    } else if key == "scope"@ {
        EpsRouteSpec { scope: val, ..acc }
    } else if key == "prefix"@ {
        EpsRouteSpec { prefix: val, ..acc }
    } else if key == "entity"@ {
        EpsRouteSpec { entity: Some(val), ..acc }
    } else if key == "entity_type"@ {
        EpsRouteSpec { entity_type: Some(val), ..acc }
    } else if key == "controller"@ || key == "desc"@ {
        EpsRouteSpec { controller: Some(val), ..acc }
    } else if key == "summary"@ {
        EpsRouteSpec { summary: Some(val), ..acc }
    } else if key == "path"@ {
        EpsRouteSpec { path: Some(val), ..acc }
    } else if key == "method"@ {
        EpsRouteSpec { method: str_upper(val), ..acc }
    } else if key == "keyWordLikeFields"@ || key == "key_word_like_fields"@ {
        EpsRouteSpec { key_word_like_fields: split_list(val, '|'), ..acc }
    } else if key == "fieldEq"@ || key == "field_eq"@ {
        EpsRouteSpec { field_eq: split_list(val, '|'), ..acc }
    } else if key == "fieldLike"@ || key == "field_like"@ {
        EpsRouteSpec { field_like: split_list(val, '|'), ..acc }
    } else if key == "orderBy"@ || key == "order_by"@ {
        EpsRouteSpec { order_by: order_list(val), ..acc }
    } else if key == "tag"@ && val.len() > 0 {
        EpsRouteSpec { tag: Some(val), ..acc }
    } else if key == "type"@ && val.len() > 0 {
        EpsRouteSpec { controller_type: Some(val), ..acc }
    } else {
        acc
    }
}

/// The effect of one comma-separated argument: empty ones are skipped, the
/// bare word `ignore_token` (or `ignoreToken`) sets the flag, `key = value`
/// sets a setting, anything else is ignored.
pub open spec fn eps_route_step(acc: EpsRouteSpec, raw: Seq<char>) -> EpsRouteSpec {
    let part = trim(raw);
    if part.len() == 0 {
        acc
    } else if part == "ignore_token"@ || part == "ignoreToken"@ {
        EpsRouteSpec { ignore_token: true, ..acc }
    } else {
        match key_value(part) {
            Some(kv) => eps_route_assign(acc, kv.0, kv.1),
            None => acc,
        }
    }
}

/// The arguments read from left to right; a later one overrides an earlier one.
pub open spec fn eps_route_fold(parts: Seq<Seq<char>>) -> EpsRouteSpec
    decreases parts.len(),
{
    if parts.len() == 0 {
        eps_route_init()
    } else {
        eps_route_step(eps_route_fold(parts.drop_last()), parts.last())
    }
}

/// What an `#[eps_route(..)]` argument text sets.
pub open spec fn eps_route_spec(args: Seq<char>) -> EpsRouteSpec {
    eps_route_fold(split_spec(args, ','))
}

/// The path of the route: the `path` argument, else `/` and the function's name.
pub open spec fn route_path_spec(path: Option<Seq<char>>, fn_name: Seq<char>) -> Seq<char> {
    match path {
        Some(p) => p,
        None => seq!['/'] + fn_name,
    }
}

/// Case-insensitive ASCII comparison of two character vectors.
fn eq_ignore_ascii_case_chars(a: &Vec<char>, b: &Vec<char>) -> (r: bool)
    ensures
        r == eq_ignore_ascii_case(a@, b@),
{
    if a.len() != b.len() {
        return false;
    }
    let mut i: usize = 0;
    while i < a.len()
        invariant
            a.len() == b.len(),
            i <= a.len(),
            forall|j: int| 0 <= j < i ==> ascii_lower_char(#[trigger] a@[j]) == ascii_lower_char(b@[j]),
        decreases a.len() - i,
    {
        let x = a[i];
        let y = b[i];
        let lx = if 'A' <= x && x <= 'Z' { ((x as u32) + 32) as u8 as char } else { x };
        let ly = if 'A' <= y && y <= 'Z' { ((y as u32) + 32) as u8 as char } else { y };
        proof {
            if 'A' <= x && x <= 'Z' {
                assert(((x as u32) + 32) < 256);
            }
        }
        assert(lx == ascii_lower_char(x)) by {
            if 'A' <= x && x <= 'Z' {
                assert((((x as u32) + 32) as u8 as char) == (((x as u32) + 32) as char));
            }
        }
        assert(ly == ascii_lower_char(y)) by {
            if 'A' <= y && y <= 'Z' {
                assert((((y as u32) + 32) as u8 as char) == (((y as u32) + 32) as char));
            }
        }
        if lx != ly {
            return false;
        }
        i = i + 1;
    }
    true
}

/// Parses one `orderBy` entry.
fn order_item_exec(pair: &String) -> (r: (String, bool))
    ensures
        r.0@ == order_item(pair@).0,
        r.1 == order_item(pair@).1,
{
    let chars = chars_of(pair.as_str());
    let pieces = split_char(&chars, ':');
    proof {
        crate::text::lemma_split_nonempty(pair@, ':');
    }
    assert(views(pieces@)[0] == pieces@[0]@);
    let col = trim_ws(&pieces[0]);
    let mut asc = true;
    if pieces.len() > 1 {
        assert(views(pieces@)[1] == pieces@[1]@);
        let dir = trim_ws(&pieces[1]);
        let desc = chars_of("desc");
        if eq_ignore_ascii_case_chars(&dir, &desc) {
            asc = false;
        }
    }
    (owned(&col), asc)
}

/// Parses an `orderBy` value.
fn order_list_exec(val: &Vec<char>) -> (r: Vec<(String, bool)>)
    ensures
        order_views(r@) == order_list(val@),
{
    let items = split_trimmed(val, '|');
    let mut out: Vec<(String, bool)> = Vec::new();
    let mut i: usize = 0;
    while i < items.len()
        invariant
            i <= items.len(),
            string_views(items@) == split_list(val@, '|'),
            order_views(out@) == string_views(items@).take(i as int).map_values(
                |p: Seq<char>| order_item(p),
            ),
        decreases items.len() - i,
    {
        let it = order_item_exec(&items[i]);
        let ghost before = out@;
        out.push(it);
        assert(order_views(out@) =~= order_views(before).push((it.0@, it.1)));
        assert(string_views(items@).take(i + 1) =~= string_views(items@).take(i as int).push(
            items@[i as int]@,
        ));
        i = i + 1;
    }
    assert(string_views(items@).take(items.len() as int) =~= string_views(items@));
    out
}

impl EpsRouteArgs {
    /// The settings before any argument is read.
    fn initial() -> (r: EpsRouteArgs)
        ensures
            r@ == eps_route_init(),
    {
        let r = EpsRouteArgs {
            module: String::new(),
            scope: to_owned_string("admin"),
            prefix: String::new(),
            entity: None,
            entity_type: None,
            controller: None,
            summary: None,
            path: None,
            method: to_owned_string("GET"),
            ignore_token: false,
            key_word_like_fields: Vec::new(),
            field_eq: Vec::new(),
            field_like: Vec::new(),
            order_by: Vec::new(),
            tag: None,
            controller_type: None,
        };
        assert(string_views(r.key_word_like_fields@) =~= seq![]);
        assert(string_views(r.field_eq@) =~= seq![]);
        assert(string_views(r.field_like@) =~= seq![]);
        assert(order_views(r.order_by@) =~= seq![]);
        assert(r.module@ =~= seq![]);
        assert(r.prefix@ =~= seq![]);
        r
    }

    /// Applies one `key = value` argument.
    #[verifier::rlimit(40)]
    fn assign(&mut self, key: &Vec<char>, val: &Vec<char>)
        ensures
            final(self)@ == eps_route_assign(old(self)@, key@, val@),
    {
        if chars_are(key, "module") {
            self.module = owned(val);
        } else if chars_are(key, "scope") {
            self.scope = owned(val);
        } else if chars_are(key, "prefix") {
            self.prefix = owned(val);
        } else if chars_are(key, "entity") {
            self.entity = Some(owned(val));
        } else if chars_are(key, "entity_type") {
            self.entity_type = Some(owned(val));
        } else if chars_are(key, "controller") || chars_are(key, "desc") {
            self.controller = Some(owned(val));
        } else if chars_are(key, "summary") {
            self.summary = Some(owned(val));
        } else if chars_are(key, "path") {
            self.path = Some(owned(val));
        } else if chars_are(key, "method") {
            let v = owned(val);
            self.method = str_to_uppercase(v.as_str());
        } else if chars_are(key, "keyWordLikeFields") || chars_are(key, "key_word_like_fields") {
            self.key_word_like_fields = split_trimmed(val, '|');
        } else if chars_are(key, "fieldEq") || chars_are(key, "field_eq") {
            self.field_eq = split_trimmed(val, '|');
        } else if chars_are(key, "fieldLike") || chars_are(key, "field_like") {
            self.field_like = split_trimmed(val, '|');
        } else if chars_are(key, "orderBy") || chars_are(key, "order_by") {
            self.order_by = order_list_exec(val);
        } else if chars_are(key, "tag") && val.len() > 0 {
            self.tag = Some(owned(val));
        } else if chars_are(key, "type") && val.len() > 0 {
            self.controller_type = Some(owned(val));
        }
    }

    /// Applies one comma-separated argument.
    fn step(&mut self, raw: &Vec<char>)
        ensures
            final(self)@ == eps_route_step(old(self)@, raw@),
    {
        let part = trim_ws(raw);
        if part.len() == 0 {
            return;
        }
        if chars_are(&part, "ignore_token") || chars_are(&part, "ignoreToken") {
            self.ignore_token = true;
            return;
        }
        match key_value_chars(&part) {
            Some((k, v)) => self.assign(&k, &v),
            None => {},
        }
    }

    /// The path of the route: the `path` argument, else `/` and `fn_name`.
    pub fn route_path(&self, fn_name: &str) -> (r: String)
        ensures
            r@ == route_path_spec(opt_view(self.path), fn_name@),
    {
        match &self.path {
            Some(p) => p.clone(),
            None => {
                let mut s = to_owned_string("/");
                proof {
                    reveal_strlit("/");
                }
                s.append(fn_name);
                s
            },
        }
    }
}

/// Parses the argument text of `#[eps_route(..)]`: the comma-separated
/// arguments are read from left to right, each as `eps_route_step` says.
pub fn parse_eps_route_args(args: &str) -> (r: EpsRouteArgs)
    ensures
        r@ == eps_route_spec(args@),
{
    let chars = chars_of(args);
    let parts = split_char(&chars, ',');
    let mut acc = EpsRouteArgs::initial();
    let mut i: usize = 0;
    while i < parts.len()
        invariant
            i <= parts.len(),
            views(parts@) == split_spec(args@, ','),
            acc@ == eps_route_fold(views(parts@).take(i as int)),
        decreases parts.len() - i,
    {
        assert(views(parts@).take(i + 1).drop_last() =~= views(parts@).take(i as int));
        assert(views(parts@).take(i + 1).last() == parts@[i as int]@);
        acc.step(&parts[i]);
        i = i + 1;
    }
    assert(views(parts@).take(parts.len() as int) =~= views(parts@));
    acc
}

} // verus!
