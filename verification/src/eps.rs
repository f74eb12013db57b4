//! Endpoint descriptions (EPS): module information and, for each of the admin
//! and app sides, the controllers of each module with their routes, columns
//! and page query settings.

use vstd::prelude::*;
use crate::assoc::{assoc_get, keys_unique, assoc_find, lemma_assoc_update, lemma_assoc_push};
use crate::attr::eps_route::{EpsRouteArgs, route_path_spec};
use crate::attr::simple::{column_type, column_type_spec};
use crate::attr::opt_view;
use crate::text::{to_owned_string, str_eq};

verus! {

/// A module's name and description.
#[derive(Debug)]
pub struct ModuleInfo {
    pub name: String,
    pub description: String,
}

/// A column of an entity.
#[derive(Debug)]
pub struct ColumnInfo {
    pub property_name: String,
    /// The front-end type name.
    pub column_type: String,
    pub length: Option<u32>,
    pub comment: Option<String>,
    pub nullable: bool,
    pub default_value: Option<String>,
    /// Dictionary settings, as JSON text.
    pub dict: Option<String>,
    pub source: String,
}

impl ColumnInfo {
    /// The column of an entity field named `name` whose Rust type reads `ty`:
    /// nullable, with no length, comment, default or dictionary, and the field
    /// as its source.
    pub fn for_field(name: &str, ty: &str) -> (r: ColumnInfo)
        ensures
            r.property_name@ == name@,
            r.column_type@ == column_type_spec(ty@),
            r.length is None,
            r.comment is None,
            r.nullable,
            r.default_value is None,
            r.dict is None,
            r.source@ == name@,
    {
        ColumnInfo {
            property_name: to_owned_string(name),
            column_type: column_type(ty),
            length: None,
            comment: None,
            nullable: true,
            default_value: None,
            dict: None,
            source: to_owned_string(name),
        }
    }

    /// The columns of an entity whose fields are `fields` (name, text of the
    /// Rust type), one per field in their order.
    pub fn columns_of(fields: &Vec<(String, String)>) -> (r: Vec<ColumnInfo>)
        ensures
            r@.len() == fields@.len(),
            forall|i: int|
                0 <= i < fields@.len() ==> {
                    let c = #[trigger] r@[i];
                    &&& c.property_name@ == fields@[i].0@
                    &&& c.column_type@ == column_type_spec(fields@[i].1@)
                    &&& c.length is None
                    &&& c.comment is None
                    &&& c.nullable
                    &&& c.default_value is None
                    &&& c.dict is None
                    &&& c.source@ == fields@[i].0@
                },
    {
        let mut out: Vec<ColumnInfo> = Vec::new();
        let mut i: usize = 0;
        while i < fields.len()
            invariant
                i <= fields.len(),
                out@.len() == i,
                forall|k: int|
                    0 <= k < i ==> {
                        let c = #[trigger] out@[k];
                        &&& c.property_name@ == fields@[k].0@
                        &&& c.column_type@ == column_type_spec(fields@[k].1@)
                        &&& c.length is None
                        &&& c.comment is None
                        &&& c.nullable
                        &&& c.default_value is None
                        &&& c.dict is None
                        &&& c.source@ == fields@[k].0@
                    },
            decreases fields.len() - i,
        {
            let c = ColumnInfo::for_field(fields[i].0.as_str(), fields[i].1.as_str());
            out.push(c);
            i = i + 1;
        }
        out
    }

    /// A field-by-field copy.
    pub fn copy(&self) -> (r: ColumnInfo)
        ensures
            r == *self,
    {
        ColumnInfo {
            property_name: self.property_name.clone(),
            column_type: self.column_type.clone(),
            length: self.length,
            comment: copy_opt(&self.comment),
            nullable: self.nullable,
            default_value: copy_opt(&self.default_value),
            dict: copy_opt(&self.dict),
            source: self.source.clone(),
        }
    }
}

/// A copy of an optional string.
pub fn copy_opt(o: &Option<String>) -> (r: Option<String>)
    ensures
        r == *o,
{
    match o {
        Some(s) => Some(s.clone()),
        None => None,
    }
}

/// A copy of a list of columns.
pub fn copy_columns(v: &Vec<ColumnInfo>) -> (r: Vec<ColumnInfo>)
    ensures
        r@ == v@,
{
    let mut out: Vec<ColumnInfo> = Vec::new();
    let mut i: usize = 0;
    while i < v.len()
        invariant
            i <= v@.len(),
            out@ == v@.take(i as int),
        decreases v.len() - i,
    {
        out.push(v[i].copy());
        assert(v@.take(i + 1) =~= v@.take(i as int).push(v@[i as int]));
        i = i + 1;
    }
    assert(v@.take(v@.len() as int) =~= v@);
    out
}

/// The page query settings shown to the front end.
#[derive(Debug)]
pub struct QueryOpInfo {
    pub key_word_like_fields: Vec<String>,
    pub field_eq: Vec<String>,
    pub field_like: Vec<String>,
    /// Columns with whether each is ascending.
    pub order_by: Vec<(String, bool)>,
}

impl Default for QueryOpInfo {
    fn default() -> (r: QueryOpInfo)
        ensures
            r.key_word_like_fields@.len() == 0,
            r.field_eq@.len() == 0,
            r.field_like@.len() == 0,
            r.order_by@.len() == 0,
    {
        QueryOpInfo { key_word_like_fields: Vec::new(), field_eq: Vec::new(), field_like: Vec::new(), order_by: Vec::new() }
    }
}

/// A route.
#[derive(Debug)]
pub struct RouteInfo {
    pub method: String,
    pub path: String,
    pub summary: Option<String>,
    pub tag: Option<String>,
    pub ignore_token: bool,
}

/// A controller's description.
#[derive(Debug)]
pub struct ControllerEps {
    pub module: String,
    pub prefix: String,
    pub entity_name: Option<String>,
    /// The kind of controller, such as `crud`.
    pub controller_type: Option<String>,
    pub description: Option<String>,
    pub api: Vec<RouteInfo>,
    pub columns: Vec<ColumnInfo>,
    pub page_query_op: Option<QueryOpInfo>,
    pub page_columns: Vec<ColumnInfo>,
}

/// The two sides an endpoint can be on.
#[derive(Debug, Clone, Copy, PartialEq, Eq, Structural)]
pub enum EpsScope {
    Admin,
    App,
}

impl EpsScope {
    /// The side named `name`: `app` (or `APP`) is the app side, anything else
    /// the admin side.
    pub fn from_name(name: &str) -> (r: EpsScope)
        ensures
            r == (if name@ == "app"@ || name@ == "APP"@ {
                EpsScope::App
            } else {
                EpsScope::Admin
            }),
    {
        if str_eq(name, "app") || str_eq(name, "APP") {
            EpsScope::App
        } else {
            EpsScope::Admin
        }
    }
}

/// A copy of a list of strings.
pub fn copy_strings(v: &Vec<String>) -> (r: Vec<String>)
    ensures
        r@ == v@,
{
    let mut out: Vec<String> = Vec::new();
    let mut i: usize = 0;
    while i < v.len()
        invariant
            i <= v@.len(),
            out@ == v@.take(i as int),
        decreases v.len() - i,
    {
        out.push(v[i].clone());
        assert(v@.take(i + 1) =~= v@.take(i as int).push(v@[i as int]));
        i = i + 1;
    }
    assert(v@.take(v@.len() as int) =~= v@);
    out
}

/// A copy of ordering entries.
pub fn copy_order(v: &Vec<(String, bool)>) -> (r: Vec<(String, bool)>)
    ensures
        r@ == v@,
{
    let mut out: Vec<(String, bool)> = Vec::new();
    let mut i: usize = 0;
    while i < v.len()
        invariant
            i <= v@.len(),
            out@ == v@.take(i as int),
        decreases v.len() - i,
    {
        out.push((v[i].0.clone(), v[i].1));
        assert(v@.take(i + 1) =~= v@.take(i as int).push(v@[i as int]));
        i = i + 1;
    }
    assert(v@.take(v@.len() as int) =~= v@);
    out
}

/// An optional string that is absent where it is empty.
pub open spec fn nonempty_opt(s: Seq<char>) -> Option<Seq<char>> {
    if s.len() == 0 {
        None
    } else {
        Some(s)
    }
}

/// The text of an optional string, empty where absent.
pub open spec fn or_empty(o: Option<Seq<char>>) -> Seq<char> {
    match o {
        Some(s) => s,
        None => seq![],
    }
}

fn nonempty_owned(s: &Option<String>) -> (r: Option<String>)
    ensures
        opt_view(r) == nonempty_opt(or_empty(opt_view(*s))),
{
    match s {
        Some(x) => if x.as_str().unicode_len() == 0 {
            None
        } else {
            Some(x.clone())
        },
        None => None,
    }
}

/// The controllers stored under `module` in a side's table.
pub open spec fn side_list(side: Seq<(String, Vec<ControllerEps>)>, module: Seq<char>) -> Seq<ControllerEps> {
    match assoc_get(side, module) {
        Some(v) => v@,
        None => seq![],
    }
}

/// The description registry.
pub struct EpsRegistry {
    admin: Vec<(String, Vec<ControllerEps>)>,
    app: Vec<(String, Vec<ControllerEps>)>,
    module: Vec<(String, ModuleInfo)>,
}

impl EpsRegistry {
    /// Module names are unique on each side and among modules.
    pub closed spec fn wf(&self) -> bool {
        keys_unique(self.admin@) && keys_unique(self.app@) && keys_unique(self.module@)
    }

    /// The controllers of each module on a side, in registration order.
    pub closed spec fn side(&self, scope: EpsScope) -> Seq<(String, Vec<ControllerEps>)> {
        match scope {
            EpsScope::Admin => self.admin@,
            EpsScope::App => self.app@,
        }
    }

    /// The controllers of `module` on a side.
    pub open spec fn controllers(&self, scope: EpsScope, module: Seq<char>) -> Seq<ControllerEps> {
        side_list(self.side(scope), module)
    }

    /// The information of each module.
    pub closed spec fn module_entries(&self) -> Seq<(String, ModuleInfo)> {
        self.module@
    }

    /// The information registered under `key`.
    pub open spec fn module_info(&self, key: Seq<char>) -> Option<ModuleInfo> {
        assoc_get(self.module_entries(), key)
    }

    /// An empty registry.
    pub fn new() -> (r: EpsRegistry)
        ensures
            r.wf(),
            forall|s: EpsScope, m: Seq<char>| #[trigger] r.controllers(s, m).len() == 0,
            forall|k: Seq<char>| #[trigger] r.module_info(k) is None,
    {
        EpsRegistry { admin: Vec::new(), app: Vec::new(), module: Vec::new() }
    }

    /// Registers (or replaces) the information of the module `key`.
    pub fn register_module(&mut self, key: &str, info: ModuleInfo)
        requires
            old(self).wf(),
        ensures
            final(self).wf(),
            forall|k: Seq<char>| #[trigger] final(self).module_info(k) == if k == key@ {
                Some(info)
            } else {
                old(self).module_info(k)
            },
            forall|s: EpsScope, m: Seq<char>| #[trigger] final(self).controllers(s, m) == old(self).controllers(s, m),
    {
        let ghost inf = info;
        match assoc_find(&self.module, key) {
            Some(i) => {
                proof {
                    lemma_assoc_update(self.module@, i as int, inf);
                }
                let k = self.module[i].0.clone();
                let ghost before = self.module@;
                self.module.set(i, (k, info));
                assert(self.module@ =~= before.update(i as int, (before[i as int].0, inf)));
            },
            None => {
                let e = (to_owned_string(key), info);
                proof {
                    lemma_assoc_push(self.module@, e);
                }
                self.module.push(e);
            },
        }
    }

    fn push_controller(side: &mut Vec<(String, Vec<ControllerEps>)>, module: &str, eps: ControllerEps)
        requires
            keys_unique(old(side)@),
        ensures
            keys_unique(final(side)@),
            forall|k: Seq<char>| #[trigger] side_list(final(side)@, k) == if k == module@ {
                side_list(old(side)@, k).push(eps)
            } else {
                side_list(old(side)@, k)
            },
    {
        let ghost e = eps;
        match assoc_find(side, module) {
            Some(i) => {
                let ghost before = side@;
                let (k, mut list) = side.remove(i);
                list.push(eps);
                let ghost nl = list;
                proof {
                    lemma_assoc_update(before, i as int, nl);
                }
                side.insert(i, (k, list));
                assert(side@ =~= before.update(i as int, (before[i as int].0, nl)));
            },
            None => {
                let mut list: Vec<ControllerEps> = Vec::new();
                list.push(eps);
                let ent = (to_owned_string(module), list);
                proof {
                    lemma_assoc_push(side@, ent);
                }
                side.push(ent);
                assert(list@ =~= seq![e]);
            },
        }
    }

    /// Appends the description of a controller to `module` on a side.
    pub fn register_controller(&mut self, scope: EpsScope, module: &str, eps: ControllerEps)
        requires
            old(self).wf(),
        ensures
            final(self).wf(),
            final(self).controllers(scope, module@) == old(self).controllers(scope, module@).push(eps),
            forall|s: EpsScope, m: Seq<char>| (s != scope || m != module@) ==> #[trigger] final(self).controllers(s, m)
                == old(self).controllers(s, m),
            forall|k: Seq<char>| #[trigger] final(self).module_info(k) == old(self).module_info(k),
    {
        match scope {
            EpsScope::Admin => Self::push_controller(&mut self.admin, module, eps),
            EpsScope::App => Self::push_controller(&mut self.app, module, eps),
        }
    }


    /// Registers the route described by `#[eps_route(..)]` arguments on the
    /// function `fn_name`, with the entity's columns: the module's information
    /// (where a module is named), then the controller with its one route on the
    /// side the scope names.
    pub fn register_route(&mut self, args: &EpsRouteArgs, fn_name: &str, columns: Vec<ColumnInfo>)
        requires
            old(self).wf(),
        ensures
            final(self).wf(),
            ({
                let a = args@;
                let scope = if a.scope == "app"@ || a.scope == "APP"@ {
                    EpsScope::App
                } else {
                    EpsScope::Admin
                };
                let before = old(self).controllers(scope, a.module);
                let after = final(self).controllers(scope, a.module);
                let c = after.last();
                &&& after.len() == before.len() + 1
                &&& after.take(before.len() as int) == before
                &&& c.module@ == a.module
                &&& c.prefix@ == a.prefix
                &&& opt_view(c.entity_name) == a.entity
                &&& opt_view(c.controller_type) == a.controller_type
                &&& opt_view(c.description) == nonempty_opt(or_empty(a.controller))
                &&& c.api@.len() == 1
                &&& c.api@[0].method@ == a.method
                &&& c.api@[0].path@ == route_path_spec(a.path, fn_name@)
                &&& opt_view(c.api@[0].summary) == nonempty_opt(or_empty(a.summary))
                &&& opt_view(c.api@[0].tag) == a.tag
                &&& c.api@[0].ignore_token == a.ignore_token
                &&& c.columns@ == columns@
                &&& c.page_columns@ == columns@
                &&& c.page_query_op matches Some(q) && crate::scan::string_views(
                    q.key_word_like_fields@,
                ) == a.key_word_like_fields && crate::scan::string_views(q.field_eq@)
                    == a.field_eq && crate::scan::string_views(q.field_like@) == a.field_like
                    && crate::attr::eps_route::order_views(q.order_by@) == a.order_by
                &&& a.module.len() > 0 ==> (final(self).module_info(a.module) matches Some(mi)
                    && mi.name@ == a.module && mi.description@ == or_empty(a.controller))
                &&& a.module.len() == 0 ==> forall|k: Seq<char>| #[trigger] final(self).module_info(k) == old(self).module_info(k)
            }),
    {
        if args.module.as_str().unicode_len() > 0 {
            let desc = match &args.controller {
                Some(d) => d.clone(),
                None => String::new(),
            };
            self.register_module(
                args.module.as_str(),
                ModuleInfo { name: args.module.clone(), description: desc },
            );
        }
        let route = RouteInfo {
            method: args.method.clone(),
            path: args.route_path(fn_name),
            summary: nonempty_owned(&args.summary),
            tag: copy_opt(&args.tag),
            ignore_token: args.ignore_token,
        };
        let page_columns = copy_columns(&columns);
        let eps = ControllerEps {
            module: args.module.clone(),
            prefix: args.prefix.clone(),
            entity_name: copy_opt(&args.entity),
            controller_type: copy_opt(&args.controller_type),
            description: nonempty_owned(&args.controller),
            api: vec![route],
            columns,
            page_query_op: Some(QueryOpInfo {
                key_word_like_fields: copy_strings(&args.key_word_like_fields),
                field_eq: copy_strings(&args.field_eq),
                field_like: copy_strings(&args.field_like),
                order_by: copy_order(&args.order_by),
            }),
            page_columns,
        };
        let scope = EpsScope::from_name(args.scope.as_str());
        let ghost before = self.controllers(scope, args.module@);
        self.register_controller(scope, args.module.as_str(), eps);
        assert(self.controllers(scope, args.module@).take(before.len() as int) =~= before);
    }

    /// The admin side: each module with its controllers, in registration order.
    pub fn admin_eps(&self) -> (r: &Vec<(String, Vec<ControllerEps>)>)
        ensures
            r@ == self.side(EpsScope::Admin),
    {
        &self.admin
    }

    /// The app side: each module with its controllers, in registration order.
    pub fn app_eps(&self) -> (r: &Vec<(String, Vec<ControllerEps>)>)
        ensures
            r@ == self.side(EpsScope::App),
    {
        &self.app
    }

    /// Each module with its information.
    pub fn modules(&self) -> (r: &Vec<(String, ModuleInfo)>)
        ensures
            r@ == self.module_entries(),
    {
        &self.module
    }
}

} // verus!
