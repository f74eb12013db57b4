//! The plugin system: plugin records and states, exceptions, the installer's
//! checks, upload path safety, hooks, the registry and the plugin service.

pub mod cache;
pub mod constant;
pub mod exception;
pub mod hook;
pub mod installer;
pub mod registry;
pub mod service;
pub mod upload;

use vstd::prelude::*;
use crate::text::to_owned_string;

verus! {

/// The errors of plugin calls.
#[derive(Debug)]
pub enum PluginError {
    InitFailed(String),
    NotFound(String),
    Disabled(String),
    MethodNotFound(String),
    InvalidParams(String),
    ExecutionError(String),
    Other(String),
}

/// The message of each plugin error.
pub open spec fn plugin_error_text(e: PluginError) -> Seq<char> {
    match e {
        PluginError::InitFailed(m) => "插件初始化失败: "@ + m@,
        PluginError::NotFound(m) => "插件未找到: "@ + m@,
        PluginError::Disabled(m) => "插件已禁用: "@ + m@,
        PluginError::MethodNotFound(m) => "方法未找到: "@ + m@,
        PluginError::InvalidParams(m) => "参数错误: "@ + m@,
        PluginError::ExecutionError(m) => "执行错误: "@ + m@,
        PluginError::Other(m) => "其他错误: "@ + m@,
    }
}

impl PluginError {
    /// The error's message.
    pub fn message(&self) -> (r: String)
        ensures
            r@ == plugin_error_text(*self),
    {
        let (head, m) = match self {
            PluginError::InitFailed(m) => ("插件初始化失败: ", m),
            PluginError::NotFound(m) => ("插件未找到: ", m),
            PluginError::Disabled(m) => ("插件已禁用: ", m),
            PluginError::MethodNotFound(m) => ("方法未找到: ", m),
            PluginError::InvalidParams(m) => ("参数错误: ", m),
            PluginError::ExecutionError(m) => ("执行错误: ", m),
            PluginError::Other(m) => ("其他错误: ", m),
        };
        let mut r = to_owned_string(head);
        r.append(m.as_str());
        r
    }
}

/// A plugin's description. Its configuration is JSON text.
#[derive(Debug, Default)]
pub struct PluginInfo {
    pub name: String,
    pub key: String,
    pub hook: String,
    pub version: String,
    pub description: String,
    pub author: String,
    pub logo: String,
    pub readme: String,
    pub config: String,
}

impl PluginInfo {
    /// A field-by-field copy.
    pub fn copy(&self) -> (r: PluginInfo)
        ensures
            r == *self,
    {
        PluginInfo {
            name: self.name.clone(),
            key: self.key.clone(),
            hook: self.hook.clone(),
            version: self.version.clone(),
            description: self.description.clone(),
            author: self.author.clone(),
            logo: self.logo.clone(),
            readme: self.readme.clone(),
            config: self.config.clone(),
        }
    }
}

/// The states of a plugin.
#[derive(Debug, Clone, Copy, PartialEq, Eq, Structural)]
pub enum PluginStatus {
    Installed,
    Enabled,
    Disabled,
    Error,
}

} // verus!
