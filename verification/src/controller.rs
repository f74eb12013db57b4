//! CRUD controllers: the operations a controller offers, the routes they are
//! served under, and the settings read from `#[cool_controller(..)]`. The HTTP
//! handlers themselves are run by the application.

use vstd::prelude::*;
use crate::attr::simple::{ControllerArgs, parse_controller_args, controller_spec, default_controller_prefix, default_prefix_spec};
use crate::attr::opt_view;
use crate::entity::{QueryOption, option_is_empty};
use crate::error::{CoolError, CoolResponse};
use crate::scan::{string_views, parse_i64, parse_signed};
use crate::text::{chars_of, to_owned_string, str_eq};

verus! {

/// The CRUD operations.
#[derive(Debug, Clone, Copy, PartialEq, Eq, Structural)]
pub enum CrudApi {
    Add,
    Delete,
    Update,
    Page,
    Info,
    List,
}

/// The route segment of each operation.
pub open spec fn crud_api_name(a: CrudApi) -> Seq<char> {
    match a {
        CrudApi::Add => "add"@,
        CrudApi::Delete => "delete"@,
        CrudApi::Update => "update"@,
        CrudApi::Page => "page"@,
        CrudApi::Info => "info"@,
        CrudApi::List => "list"@,
    }
}

/// The operation named `name`, if any.
pub open spec fn crud_api_of(name: Seq<char>) -> Option<CrudApi> {
    if name == "add"@ {
        Some(CrudApi::Add)
    } else if name == "delete"@ {
        Some(CrudApi::Delete)
    } else if name == "update"@ {
        Some(CrudApi::Update)
    } else if name == "page"@ {
        Some(CrudApi::Page)
    } else if name == "info"@ {
        Some(CrudApi::Info)
    } else if name == "list"@ {
        Some(CrudApi::List)
    } else {
        None
    }
}

/// The HTTP methods of the CRUD routes.
#[derive(Debug, Clone, Copy, PartialEq, Eq, Structural)]
pub enum HttpMethod {
    Get,
    Post,
}

impl CrudApi {
    /// Every operation, in the order add, delete, update, page, info, list.
    pub fn all() -> (r: Vec<CrudApi>)
        ensures
            r@ == seq![CrudApi::Add, CrudApi::Delete, CrudApi::Update, CrudApi::Page, CrudApi::Info, CrudApi::List],
    {
        let r = vec![CrudApi::Add, CrudApi::Delete, CrudApi::Update, CrudApi::Page, CrudApi::Info, CrudApi::List];
        assert(r@ =~= seq![CrudApi::Add, CrudApi::Delete, CrudApi::Update, CrudApi::Page, CrudApi::Info, CrudApi::List]);
        r
    }

    /// The route segment of the operation.
    pub fn as_str(&self) -> (r: &'static str)
        ensures
            r@ == crud_api_name(*self),
    {
        match self {
            CrudApi::Add => "add",
            CrudApi::Delete => "delete",
            CrudApi::Update => "update",
            CrudApi::Page => "page",
            CrudApi::Info => "info",
            CrudApi::List => "list",
        }
    }

    /// The operation named `name`, if any.
    pub fn from_name(name: &str) -> (r: Option<CrudApi>)
        ensures
            r == crud_api_of(name@),
    {
        if str_eq(name, "add") {
            Some(CrudApi::Add)
        } else if str_eq(name, "delete") {
            Some(CrudApi::Delete)
        } else if str_eq(name, "update") {
            Some(CrudApi::Update)
        } else if str_eq(name, "page") {
            Some(CrudApi::Page)
        } else if str_eq(name, "info") {
            Some(CrudApi::Info)
        } else if str_eq(name, "list") {
            Some(CrudApi::List)
        } else {
            None
        }
    }

    /// The HTTP method the operation is served with: `info` by GET, the others
    /// by POST.
    pub fn method(&self) -> (r: HttpMethod)
        ensures
            r == (if *self == CrudApi::Info { HttpMethod::Get } else { HttpMethod::Post }),
    {
        match self {
            CrudApi::Info => HttpMethod::Get,
            _ => HttpMethod::Post,
        }
    }
}

/// A controller's settings.
#[derive(Debug)]
pub struct ControllerOption {
    pub prefix: Option<String>,
    pub api: Vec<CrudApi>,
    pub page_query_op: QueryOption,
    pub list_query_op: QueryOption,
    pub info_ignore_property: Vec<String>,
}

impl Default for ControllerOption {
    /// No prefix, no operations, empty query options.
    fn default() -> (r: ControllerOption)
        ensures
            r.prefix is None,
            r.api@.len() == 0,
            option_is_empty(r.page_query_op),
            option_is_empty(r.list_query_op),
            r.info_ignore_property@.len() == 0,
    {
        ControllerOption {
            prefix: None,
            api: Vec::new(),
            page_query_op: QueryOption::new(),
            list_query_op: QueryOption::new(),
            info_ignore_property: Vec::new(),
        }
    }
}

/// The operations named in a list, in order; unknown names are left out.
pub open spec fn apis_of(names: Seq<Seq<char>>) -> Seq<CrudApi>
    decreases names.len(),
{
    if names.len() == 0 {
        seq![]
    } else {
        let prev = apis_of(names.drop_last());
        match crud_api_of(names.last()) {
            Some(a) => prev.push(a),
            None => prev,
        }
    }
}

/// The settings `#[cool_controller(..)]` gives the struct `struct_name`: the
/// prefix given (else the default one) and the operations named.
pub fn controller_option(args: &str, struct_name: &str) -> (r: ControllerOption)
    ensures
        opt_view(r.prefix) == Some(match controller_spec(args@).prefix {
            Some(p) => p,
            None => default_prefix_spec(struct_name@),
        }),
        r.api@ == apis_of(controller_spec(args@).apis),
        option_is_empty(r.page_query_op),
        option_is_empty(r.list_query_op),
        r.info_ignore_property@.len() == 0,
{
    let parsed = parse_controller_args(args);
    let prefix = match parsed.prefix {
        Some(p) => p,
        None => default_controller_prefix(struct_name),
    };
    let mut api: Vec<CrudApi> = Vec::new();
    let mut i: usize = 0;
    while i < parsed.apis.len()
        invariant
            i <= parsed.apis@.len(),
            api@ == apis_of(string_views(parsed.apis@).take(i as int)),
        decreases parsed.apis.len() - i,
    {
        assert(string_views(parsed.apis@).take(i + 1).drop_last() =~= string_views(parsed.apis@).take(i as int));
        assert(string_views(parsed.apis@).take(i + 1).last() == parsed.apis@[i as int]@);
        match CrudApi::from_name(parsed.apis[i].as_str()) {
            Some(a) => api.push(a),
            None => {},
        }
        i = i + 1;
    }
    assert(string_views(parsed.apis@).take(parsed.apis@.len() as int) =~= string_views(parsed.apis@));
    let mut o = ControllerOption::default();
    o.prefix = Some(prefix);
    o.api = api;
    o
}

/// The routes of a controller: its prefix (`/` where it has none), then for
/// each operation in order its segment and HTTP method.
pub fn crud_routes(option: &ControllerOption) -> (r: (String, Vec<(CrudApi, &'static str, HttpMethod)>))
    ensures
        r.0@ == match option.prefix {
            Some(p) => p@,
            None => "/"@,
        },
        r.1@.len() == option.api@.len(),
        forall|i: int| 0 <= i < r.1@.len() ==> (#[trigger] r.1@[i]).0 == option.api@[i]
            && r.1@[i].1@ == crud_api_name(option.api@[i])
            && r.1@[i].2 == (if option.api@[i] == CrudApi::Info { HttpMethod::Get } else { HttpMethod::Post }),
{
    let prefix = match &option.prefix {
        Some(p) => p.clone(),
        None => to_owned_string("/"),
    };
    let mut routes: Vec<(CrudApi, &'static str, HttpMethod)> = Vec::new();
    let mut i: usize = 0;
    while i < option.api.len()
        invariant
            i <= option.api@.len(),
            routes@.len() == i,
            forall|j: int| 0 <= j < i ==> (#[trigger] routes@[j]).0 == option.api@[j]
                && routes@[j].1@ == crud_api_name(option.api@[j])
                && routes@[j].2 == (if option.api@[j] == CrudApi::Info { HttpMethod::Get } else { HttpMethod::Post }),
        decreases option.api.len() - i,
    {
        let a = option.api[i];
        routes.push((a, a.as_str(), a.method()));
        i = i + 1;
    }
    (prefix, routes)
}

/// The id of an `info` request from its `id` query parameter: a missing or
/// unreadable id is answered with `缺少 id 参数`.
pub fn info_id(param: Option<&str>) -> (r: Result<i64, CoolResponse<()>>)
    ensures
        match param {
            Some(p) => match parse_signed(p@, i64::MAX as nat) {
                Some(v) => r == Ok::<i64, CoolResponse<()>>(v as i64),
                None => r matches Err(resp) && resp.code == 1001 && resp.message@ == "缺少 id 参数"@,
            },
            None => r matches Err(resp) && resp.code == 1001 && resp.message@ == "缺少 id 参数"@,
        },
{
    let parsed = match param {
        Some(p) => parse_i64(&chars_of(p)),
        None => None,
    };
    match parsed {
        Some(v) => Ok(v),
        None => Err(CoolResponse::fail("缺少 id 参数")),
    }
}

/// The error when no CRUD service is registered for a request.
pub fn missing_crud_service() -> (r: CoolError)
    ensures
        r matches CoolError::Comm(m) && m@ == "未找到 CRUD 服务实例，请先在 Depot 中注册 `crud_service`"@,
{
    CoolError::comm("未找到 CRUD 服务实例，请先在 Depot 中注册 `crud_service`")
}

} // verus!
