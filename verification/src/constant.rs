//! Response codes and CRUD operation kinds shared by the framework.

use vstd::prelude::*;
use crate::error::CoolError;
use crate::text::{str_eq, str_lower, str_to_lowercase, to_owned_string};

verus! {

/// Response codes returned in every API answer.
#[derive(Debug, Clone, Copy, PartialEq, Eq)]
pub enum ResCode {
    Success,
    Fail,
    ValidateFail,
    CoreError,
    CommError,
    Unauthorized,
    Forbidden,
    NotFound,
}

/// The numeric value of each response code.
pub open spec fn res_code_value(c: ResCode) -> i32 {
    match c {
        ResCode::Success => 1000,
        ResCode::Fail => 1001,
        ResCode::ValidateFail => 1002,
        ResCode::CoreError => 1003,
        ResCode::CommError => 1004,
        ResCode::Unauthorized => 1005,
        ResCode::Forbidden => 1006,
        ResCode::NotFound => 1007,
    }
}

impl ResCode {
    /// The numeric code.
    pub fn code(&self) -> (r: i32)
        ensures
            r == res_code_value(*self),
    {
        match self {
            ResCode::Success => 1000,
            ResCode::Fail => 1001,
            ResCode::ValidateFail => 1002,
            ResCode::CoreError => 1003,
            ResCode::CommError => 1004,
            ResCode::Unauthorized => 1005,
            ResCode::Forbidden => 1006,
            ResCode::NotFound => 1007,
        }
    }
}


/// The kinds of CRUD operation.
#[derive(Debug, Clone, Copy, PartialEq, Eq)]
pub enum CrudType {
    Add,
    Delete,
    Update,
    Page,
    Info,
    List,
}

/// The lower-case name of each operation.
pub open spec fn crud_name(t: CrudType) -> Seq<char> {
    match t {
        CrudType::Add => "add"@,
        CrudType::Delete => "delete"@,
        CrudType::Update => "update"@,
        CrudType::Page => "page"@,
        CrudType::Info => "info"@,
        CrudType::List => "list"@,
    }
}

/// The operation named `s` in any letter case, if any.
pub open spec fn crud_parse(s: Seq<char>) -> Option<CrudType> {
    let l = str_lower(s);
    if l == "add"@ {
        Some(CrudType::Add)
    } else if l == "delete"@ {
        Some(CrudType::Delete)
    } else if l == "update"@ {
        Some(CrudType::Update)
    } else if l == "page"@ {
        Some(CrudType::Page)
    } else if l == "info"@ {
        Some(CrudType::Info)
    } else if l == "list"@ {
        Some(CrudType::List)
    } else {
        None
    }
}

impl CrudType {
    /// Parses an operation name in any letter case; other names are refused
    /// with `无效的 CrudType: <s>`.
    pub fn from_str(s: &str) -> (r: Result<CrudType, CoolError>)
        ensures
            r matches Ok(t) ==> crud_parse(s@) == Some(t),
            r is Err <==> crud_parse(s@) is None,
            r matches Err(e) ==> e matches CoolError::Validate(m) && m@ == "无效的 CrudType: "@
                + s@,
    {
        let l = str_to_lowercase(s);
        let t = l.as_str();
        if str_eq(t, "add") {
            Ok(CrudType::Add)
        } else if str_eq(t, "delete") {
            Ok(CrudType::Delete)
        } else if str_eq(t, "update") {
            Ok(CrudType::Update)
        } else if str_eq(t, "page") {
            Ok(CrudType::Page)
        } else if str_eq(t, "info") {
            Ok(CrudType::Info)
        } else if str_eq(t, "list") {
            Ok(CrudType::List)
        } else {
            let mut m = to_owned_string("无效的 CrudType: ");
            m.append(s);
            Err(CoolError::Validate(m))
        }
    }

    /// The lower-case name.
    pub fn as_str(&self) -> (r: &'static str)
        ensures
            r@ == crud_name(*self),
    {
        match self {
            CrudType::Add => "add",
            CrudType::Delete => "delete",
            CrudType::Update => "update",
            CrudType::Page => "page",
            CrudType::Info => "info",
            CrudType::List => "list",
        }
    }

    /// The description shown to users.
    pub fn description(&self) -> (r: &'static str)
        ensures
            r@ == match *self {
                CrudType::Add => "新增"@,
                CrudType::Delete => "删除"@,
                CrudType::Update => "修改"@,
                CrudType::Page => "分页查询"@,
                CrudType::Info => "详情查询"@,
                CrudType::List => "列表查询"@,
            },
    {
        match self {
            CrudType::Add => "新增",
            CrudType::Delete => "删除",
            CrudType::Update => "修改",
            CrudType::Page => "分页查询",
            CrudType::Info => "详情查询",
            CrudType::List => "列表查询",
        }
    }

    /// The HTTP method of the operation: `GET` for info, `POST` otherwise.
    pub fn method(&self) -> (r: &'static str)
        ensures
            r@ == if *self == CrudType::Info {
                "GET"@
            } else {
                "POST"@
            },
    {
        match self {
            CrudType::Info => "GET",
            _ => "POST",
        }
    }
}

/// Where uploaded files are stored.
#[derive(Debug, Clone, Copy, PartialEq, Eq)]
pub enum FileMode {
    Local,
    Cloud,
    Other,
}

/// Cloud storage services.
#[derive(Debug, Clone, Copy, PartialEq, Eq)]
pub enum CloudType {
    Oss,
    Cos,
    Qiniu,
    Aws,
}

/// Database kinds.
#[derive(Debug, Clone, Copy, PartialEq, Eq, Structural)]
pub enum DbType {
    Mysql,
    Postgres,
    Sqlite,
}

/// Law: the name of every operation parses back to the operation.
pub proof fn law_crud_name_parses_back(t: CrudType)
    ensures
        crud_parse(crud_name(t)) == Some(t),
{
    reveal_strlit("add");
    reveal_strlit("delete");
    reveal_strlit("update");
    reveal_strlit("page");
    reveal_strlit("info");
    reveal_strlit("list");
    let n = crud_name(t);
    assert(crate::text::all_ascii(n));
    assert(str_lower(n) =~= n);
    assert("add"@.len() == 3 && "delete"@.len() == 6 && "update"@.len() == 6);
    assert("page"@.len() == 4 && "info"@.len() == 4 && "list"@.len() == 4);
    assert("add"@ != "delete"@ && "add"@ != "update"@ && "add"@ != "page"@);
    assert("delete"@[0] != "update"@[0]);
    assert("add"@ != "info"@ && "add"@ != "list"@ && "delete"@ != "update"@);
    assert("page"@[0] != "info"@[0] && "page"@[0] != "list"@[0] && "info"@[0] != "list"@[0]);
    assert("delete"@ != "page"@ && "delete"@ != "info"@ && "delete"@ != "list"@);
    assert("update"@ != "page"@ && "update"@ != "info"@ && "update"@ != "list"@);
}

} // verus!
