//! The framework's error type, its response codes and the uniform API answer.

use vstd::prelude::*;
use crate::constant::{res_code_value, ResCode};
use crate::text::to_owned_string;

verus! {

/// Framework errors. Errors that come from a database, JSON, Redis or JWT library
/// carry that library's message.
#[derive(Debug, Clone, PartialEq, Eq)]
pub enum CoolError {
    Core(String),
    Validate(String),
    Comm(String),
    Unauthorized(String),
    Forbidden(String),
    NotFound(String),
    Database(String),
    Json(String),
    Redis(String),
    Jwt(String),
    Other(String),
}

/// The response code of each kind of error.
pub open spec fn error_code(e: CoolError) -> ResCode {
    match e {
        CoolError::Core(_) => ResCode::CoreError,
        CoolError::Validate(_) => ResCode::ValidateFail,
        CoolError::Comm(_) => ResCode::CommError,
        CoolError::Unauthorized(_) => ResCode::Unauthorized,
        CoolError::Forbidden(_) => ResCode::Forbidden,
        CoolError::NotFound(_) => ResCode::NotFound,
        CoolError::Database(_) => ResCode::CoreError,
        CoolError::Json(_) => ResCode::ValidateFail,
        CoolError::Redis(_) => ResCode::CoreError,
        CoolError::Jwt(_) => ResCode::Unauthorized,
        CoolError::Other(_) => ResCode::Fail,
    }
}

/// The HTTP status of each kind of error.
pub open spec fn error_status(e: CoolError) -> u16 {
    match e {
        CoolError::Unauthorized(_) | CoolError::Jwt(_) => 401,
        CoolError::Forbidden(_) => 403,
        CoolError::NotFound(_) => 404,
        CoolError::Validate(_) | CoolError::Json(_) => 400,
        _ => 500,
    }
}

/// The message carried by an error.
pub open spec fn error_payload(e: CoolError) -> Seq<char> {
    match e {
        CoolError::Core(m) => m@,
        CoolError::Validate(m) => m@,
        CoolError::Comm(m) => m@,
        CoolError::Unauthorized(m) => m@,
        CoolError::Forbidden(m) => m@,
        CoolError::NotFound(m) => m@,
        CoolError::Database(m) => m@,
        CoolError::Json(m) => m@,
        CoolError::Redis(m) => m@,
        CoolError::Jwt(m) => m@,
        CoolError::Other(m) => m@,
    }
}

/// The display text of an error: library errors get a prefix naming the library.
pub open spec fn error_text(e: CoolError) -> Seq<char> {
    match e {
        CoolError::Database(m) => "数据库错误: "@ + m@,
        CoolError::Json(m) => "JSON 错误: "@ + m@,
        CoolError::Redis(m) => "Redis 错误: "@ + m@,
        CoolError::Jwt(m) => "JWT 错误: "@ + m@,
        _ => error_payload(e),
    }
}

impl CoolError {
    /// A core error with `msg`.
    pub fn core_error(msg: &str) -> (e: CoolError)
        ensures
            e matches CoolError::Core(m) && m@ == msg@,
    {
        CoolError::Core(to_owned_string(msg))
    }

    /// A validation error with `msg`.
    pub fn validate(msg: &str) -> (e: CoolError)
        ensures
            e matches CoolError::Validate(m) && m@ == msg@,
    {
        CoolError::Validate(to_owned_string(msg))
    }

    /// A business error with `msg`.
    pub fn comm(msg: &str) -> (e: CoolError)
        ensures
            e matches CoolError::Comm(m) && m@ == msg@,
    {
        CoolError::Comm(to_owned_string(msg))
    }

    /// "未授权访问".
    pub fn unauthorized() -> (e: CoolError)
        ensures
            e matches CoolError::Unauthorized(m) && m@ == "未授权访问"@,
    {
        CoolError::Unauthorized(to_owned_string("未授权访问"))
    }

    /// "禁止访问".
    pub fn forbidden() -> (e: CoolError)
        ensures
            e matches CoolError::Forbidden(m) && m@ == "禁止访问"@,
    {
        CoolError::Forbidden(to_owned_string("禁止访问"))
    }

    /// "数据不存在".
    pub fn not_found() -> (e: CoolError)
        ensures
            e matches CoolError::NotFound(m) && m@ == "数据不存在"@,
    {
        CoolError::NotFound(to_owned_string("数据不存在"))
    }

    /// "该服务没有设置实体", a core error.
    pub fn no_entity() -> (e: CoolError)
        ensures
            e matches CoolError::Core(m) && m@ == "该服务没有设置实体"@,
    {
        CoolError::Core(to_owned_string("该服务没有设置实体"))
    }

    /// "缺少ID参数", a validation error.
    pub fn no_id() -> (e: CoolError)
        ensures
            e matches CoolError::Validate(m) && m@ == "缺少ID参数"@,
    {
        CoolError::Validate(to_owned_string("缺少ID参数"))
    }

    /// The response code of this error.
    pub fn code(&self) -> (c: ResCode)
        ensures
            c == error_code(*self),
    {
        match self {
            CoolError::Core(_) => ResCode::CoreError,
            CoolError::Validate(_) => ResCode::ValidateFail,
            CoolError::Comm(_) => ResCode::CommError,
            CoolError::Unauthorized(_) => ResCode::Unauthorized,
            CoolError::Forbidden(_) => ResCode::Forbidden,
            CoolError::NotFound(_) => ResCode::NotFound,
            CoolError::Database(_) => ResCode::CoreError,
            CoolError::Json(_) => ResCode::ValidateFail,
            CoolError::Redis(_) => ResCode::CoreError,
            CoolError::Jwt(_) => ResCode::Unauthorized,
            CoolError::Other(_) => ResCode::Fail,
        }
    }

    /// The HTTP status code of this error.
    pub fn status_code(&self) -> (s: u16)
        ensures
            s == error_status(*self),
    {
        match self {
            CoolError::Unauthorized(_) | CoolError::Jwt(_) => 401,
            CoolError::Forbidden(_) => 403,
            CoolError::NotFound(_) => 404,
            CoolError::Validate(_) | CoolError::Json(_) => 400,
            _ => 500,
        }
    }

    /// The display text of this error.
    pub fn to_message(&self) -> (s: String)
        ensures
            s@ == error_text(*self),
    {
        match self {
            CoolError::Database(m) => {
                let mut s = to_owned_string("数据库错误: ");
                s.append(m.as_str());
                s
            },
            CoolError::Json(m) => {
                let mut s = to_owned_string("JSON 错误: ");
                s.append(m.as_str());
                s
            },
            CoolError::Redis(m) => {
                let mut s = to_owned_string("Redis 错误: ");
                s.append(m.as_str());
                s
            },
            CoolError::Jwt(m) => {
                let mut s = to_owned_string("JWT 错误: ");
                s.append(m.as_str());
                s
            },
            CoolError::Core(m) => m.clone(),
            CoolError::Validate(m) => m.clone(),
            CoolError::Comm(m) => m.clone(),
            CoolError::Unauthorized(m) => m.clone(),
            CoolError::Forbidden(m) => m.clone(),
            CoolError::NotFound(m) => m.clone(),
            CoolError::Other(m) => m.clone(),
        }
    }
}

/// The uniform API answer: a code, a message and optional data.
#[derive(Debug, Clone)]
pub struct CoolResponse<T> {
    pub code: i32,
    pub message: String,
    pub data: Option<T>,
}

impl<T> CoolResponse<T> {
    /// A success answer carrying `data`.
    pub fn ok(data: T) -> (r: CoolResponse<T>)
        ensures
            r.code == 1000,
            r.message@ == "success"@,
            r.data == Some(data),
    {
        CoolResponse { code: ResCode::Success.code(), message: to_owned_string("success"), data: Some(data) }
    }

    /// A success answer without data.
    pub fn ok_empty() -> (r: CoolResponse<T>)
        ensures
            r.code == 1000,
            r.message@ == "success"@,
            r.data is None,
    {
        CoolResponse { code: ResCode::Success.code(), message: to_owned_string("success"), data: None }
    }

    /// A failure answer with `msg`.
    pub fn fail(msg: &str) -> (r: CoolResponse<T>)
        ensures
            r.code == 1001,
            r.message@ == msg@,
            r.data is None,
    {
        CoolResponse { code: ResCode::Fail.code(), message: to_owned_string(msg), data: None }
    }

    /// The answer for an error: its code and its display text.
    pub fn from_error(err: &CoolError) -> (r: CoolResponse<T>)
        ensures
            r.code == res_code_value(error_code(*err)),
            r.message@ == error_text(*err),
            r.data is None,
    {
        CoolResponse { code: err.code().code(), message: err.to_message(), data: None }
    }
}

/// Page information of a paged answer.
#[derive(Debug, Clone, Copy, PartialEq, Eq)]
pub struct Pagination {
    pub page: u64,
    pub size: u64,
    pub total: u64,
}

/// One page of rows with its page information.
#[derive(Debug, Clone)]
pub struct PageResult<T> {
    pub list: Vec<T>,
    pub pagination: Pagination,
}

impl<T> PageResult<T> {
    /// A page of `list` at `page` of `size` out of `total` rows.
    pub fn new(list: Vec<T>, page: u64, size: u64, total: u64) -> (r: PageResult<T>)
        ensures
            r.list@ == list@,
            r.pagination == (Pagination { page, size, total }),
    {
        PageResult { list, pagination: Pagination { page, size, total } }
    }
}

} // verus!
