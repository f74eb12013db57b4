//! Response codes, messages and event names of the plugin system.

use vstd::prelude::*;
use crate::text::to_owned_string;

verus! {

/// Response codes.
#[derive(Debug, Clone, Copy, PartialEq, Eq, Hash)]
pub enum ResCode {
    Success,
    CommFail,
    ValidateFail,
    CoreFail,
}

/// The number of each response code.
pub open spec fn res_code_number(c: ResCode) -> u32 {
    match c {
        ResCode::Success => 1000,
        ResCode::CommFail => 1001,
        ResCode::ValidateFail => 1002,
        ResCode::CoreFail => 1003,
    }
}

impl ResCode {
    /// The number of the code.
    pub fn as_u32(self) -> (r: u32)
        ensures
            r == res_code_number(self),
    {
        match self {
            ResCode::Success => 1000,
            ResCode::CommFail => 1001,
            ResCode::ValidateFail => 1002,
            ResCode::CoreFail => 1003,
        }
    }
}

/// Response messages.
#[derive(Debug, Clone)]
pub struct ResMessage;

impl ResMessage {
    pub const SUCCESS: &'static str = "success";
    pub const COMM_FAIL: &'static str = "comm fail";
    pub const VALIDATE_FAIL: &'static str = "validate fail";
    pub const CORE_FAIL: &'static str = "core fail";
}

/// Error hints.
#[derive(Debug, Clone)]
pub struct ErrInfo;

impl ErrInfo {
    pub const NO_ENTITY: &'static str = "未设置操作实体";
    pub const NO_ID: &'static str = "查询参数[id]不存在";
    pub const SORT_FIELD: &'static str = "排序参数不正确";
}

/// Event names.
#[derive(Debug, Clone)]
pub struct Event;

impl Event {
    pub const SOFT_DELETE: &'static str = "onSoftDelete";
    pub const SERVER_READY: &'static str = "onServerReady";
    pub const READY: &'static str = "onReady";
    pub const ES_DATA_CHANGE: &'static str = "esDataChange";
}

/// The configured response codes.
pub struct ResCodeConfig {
    success: u32,
    comm_fail: u32,
    validate_fail: u32,
    core_fail: u32,
}

impl View for ResCodeConfig {
    type V = (u32, u32, u32, u32);

    closed spec fn view(&self) -> (u32, u32, u32, u32) {
        (self.success, self.comm_fail, self.validate_fail, self.core_fail)
    }
}

impl ResCodeConfig {
    pub fn success(&self) -> (r: u32)
        ensures
            r == self@.0,
    {
        self.success
    }

    pub fn comm_fail(&self) -> (r: u32)
        ensures
            r == self@.1,
    {
        self.comm_fail
    }

    pub fn validate_fail(&self) -> (r: u32)
        ensures
            r == self@.2,
    {
        self.validate_fail
    }

    pub fn core_fail(&self) -> (r: u32)
        ensures
            r == self@.3,
    {
        self.core_fail
    }
}

/// The configured response messages.
pub struct ResMessageConfig {
    success: String,
    comm_fail: String,
    validate_fail: String,
    core_fail: String,
}

impl View for ResMessageConfig {
    type V = (Seq<char>, Seq<char>, Seq<char>, Seq<char>);

    closed spec fn view(&self) -> (Seq<char>, Seq<char>, Seq<char>, Seq<char>) {
        (self.success@, self.comm_fail@, self.validate_fail@, self.core_fail@)
    }
}

impl ResMessageConfig {
    pub fn success(&self) -> (r: &str)
        ensures
            r@ == self@.0,
    {
        self.success.as_str()
    }

    pub fn comm_fail(&self) -> (r: &str)
        ensures
            r@ == self@.1,
    {
        self.comm_fail.as_str()
    }

    pub fn validate_fail(&self) -> (r: &str)
        ensures
            r@ == self@.2,
    {
        self.validate_fail.as_str()
    }

    pub fn core_fail(&self) -> (r: &str)
        ensures
            r@ == self@.3,
    {
        self.core_fail.as_str()
    }
}

/// The plugin system's response codes and messages.
pub struct GlobalConfig {
    res_code: ResCodeConfig,
    res_message: ResMessageConfig,
}

/// The configured codes: 1000 to 1003.
pub open spec fn global_codes() -> (u32, u32, u32, u32) {
    (1000, 1001, 1002, 1003)
}

/// The configured messages.
pub open spec fn global_messages() -> (Seq<char>, Seq<char>, Seq<char>, Seq<char>) {
    ("success"@, "comm fail"@, "validate fail"@, "core fail"@)
}

impl GlobalConfig {
    /// The configuration: codes 1000 to 1003 with the messages `success`,
    /// `comm fail`, `validate fail` and `core fail`.
    pub fn get_instance() -> (r: GlobalConfig)
        ensures
            r.res_code_view() == global_codes(),
            r.res_message_view() == global_messages(),
    {
        GlobalConfig {
            res_code: ResCodeConfig { success: 1000, comm_fail: 1001, validate_fail: 1002, core_fail: 1003 },
            res_message: ResMessageConfig {
                success: to_owned_string("success"),
                comm_fail: to_owned_string("comm fail"),
                validate_fail: to_owned_string("validate fail"),
                core_fail: to_owned_string("core fail"),
            },
        }
    }

    /// The codes.
    pub closed spec fn res_code_view(&self) -> (u32, u32, u32, u32) {
        self.res_code@
    }

    /// The messages.
    pub closed spec fn res_message_view(&self) -> (Seq<char>, Seq<char>, Seq<char>, Seq<char>) {
        self.res_message@
    }

    /// The response codes.
    pub fn res_code(&self) -> (r: &ResCodeConfig)
        ensures
            r@ == self.res_code_view(),
    {
        &self.res_code
    }

    /// The response messages.
    pub fn res_message(&self) -> (r: &ResMessageConfig)
        ensures
            r@ == self.res_message_view(),
    {
        &self.res_message
    }
}

} // verus!
