//! The plugin installer's checks: whether a package may be installed, and
//! where a plugin's data is kept. Reading packages and files is done by the
//! application.

use vstd::prelude::*;
use crate::assoc::{assoc_get, keys_unique, assoc_find};
use crate::plugin::PluginInfo;
use crate::plugin::exception::{CoolCommException, message_or};
use crate::text::{to_owned_string, str_eq};
use crate::util::location::{join_path, join_path_spec, push_path};
use crate::es::search::{Json, JsonModel, json_model, field_models, lemma_field_models};

verus! {

/// The errors of installation.
#[derive(Debug)]
pub enum InstallerError {
    IncompleteInfo(String),
    Io(String),
    Zip(String),
    Serialization(String),
    Common(CoolCommException),
}

/// The message of each installation error.
pub open spec fn installer_error_text(e: InstallerError) -> Seq<char> {
    match e {
        InstallerError::IncompleteInfo(m) => "插件信息不完整: "@ + m@,
        InstallerError::Io(m) => "IO 错误: "@ + m@,
        InstallerError::Zip(m) => "ZIP 错误: "@ + m@,
        InstallerError::Serialization(m) => "序列化错误: "@ + m@,
        InstallerError::Common(c) => "通用错误: "@ + (c@.0 + ": "@ + c@.2),
    }
}

impl InstallerError {
    /// The error's message.
    pub fn message(&self) -> (r: String)
        ensures
            r@ == installer_error_text(*self),
    {
        match self {
            InstallerError::IncompleteInfo(m) => {
                let mut r = to_owned_string("插件信息不完整: ");
                r.append(m.as_str());
                r
            },
            InstallerError::Io(m) => {
                let mut r = to_owned_string("IO 错误: ");
                r.append(m.as_str());
                r
            },
            InstallerError::Zip(m) => {
                let mut r = to_owned_string("ZIP 错误: ");
                r.append(m.as_str());
                r
            },
            InstallerError::Serialization(m) => {
                let mut r = to_owned_string("序列化错误: ");
                r.append(m.as_str());
                r
            },
            InstallerError::Common(c) => {
                let mut r = to_owned_string("通用错误: ");
                let t = c.text();
                r.append(t.as_str());
                r
            },
        }
    }
}

/// The content of a plugin package.
#[derive(Debug)]
pub struct PluginData {
    pub plugin_json: PluginInfo,
    pub readme: String,
    /// The logo, Base64-encoded.
    pub logo: String,
    pub content: String,
    pub ts_content: String,
}

/// The outcomes of a package check.
#[derive(Debug, Clone, Copy, PartialEq, Eq, Structural)]
pub enum CheckResult {
    /// The package's information is incomplete.
    Incomplete,
    /// A plugin with the key exists; installing overwrites it.
    Exists,
    /// An enabled hook plugin with the key exists.
    HookExists,
    /// The check passed.
    Passed,
}

/// The message of each outcome.
pub open spec fn check_message(c: CheckResult) -> Seq<char> {
    match c {
        CheckResult::Incomplete => "插件信息不完整"@,
        CheckResult::Exists => "插件已存在，继续安装将覆盖"@,
        CheckResult::HookExists => "已存在同名Hook插件，你可以继续安装，但是多个相同的Hook插件只能同时开启一个"@,
        CheckResult::Passed => "检查通过"@,
    }
}

impl CheckResult {
    /// The outcome's message.
    pub fn message(&self) -> (r: &'static str)
        ensures
            r@ == check_message(*self),
    {
        match self {
            CheckResult::Incomplete => "插件信息不完整",
            CheckResult::Exists => "插件已存在，继续安装将覆盖",
            CheckResult::HookExists => "已存在同名Hook插件，你可以继续安装，但是多个相同的Hook插件只能同时开启一个",
            CheckResult::Passed => "检查通过",
        }
    }

    /// The outcome's number: 0 to 3 in the order declared.
    pub fn code(&self) -> (r: u8)
        ensures
            r == match *self {
                CheckResult::Incomplete => 0u8,
                CheckResult::Exists => 1u8,
                CheckResult::HookExists => 2u8,
                CheckResult::Passed => 3u8,
            },
    {
        match self {
            CheckResult::Incomplete => 0,
            CheckResult::Exists => 1,
            CheckResult::HookExists => 2,
            CheckResult::Passed => 3,
        }
    }
}

/// Installs plugins into a directory.
pub struct PluginInstaller {
    plugin_dir: String,
}

impl PluginInstaller {
    /// The plugin directory.
    pub closed spec fn dir(&self) -> Seq<char> {
        self.plugin_dir@
    }

    /// An installer for the directory `plugin_dir`.
    pub fn new(plugin_dir: &str) -> (r: PluginInstaller)
        ensures
            r.dir() == plugin_dir@,
    {
        PluginInstaller { plugin_dir: to_owned_string(plugin_dir) }
    }

    /// The path of the data file of the plugin `key_name`: the key joined to
    /// the plugin directory.
    pub fn plugin_path(&self, key_name: &str) -> (r: String)
        ensures
            r@ == push_path(self.dir(), key_name@),
    {
        let parts = vec![to_owned_string(key_name)];
        let ghost pv = seq![key_name@];
        assert(parts@.map_values(|s: String| s@) =~= pv);
        assert(pv.drop_last() =~= Seq::<Seq<char>>::empty());
        assert(join_path_spec(self.dir(), pv.drop_last()) == self.dir());
        join_path(self.plugin_dir.as_str(), &parts)
    }

    /// Checks a package whose content was read as `extracted` (the plugin's
    /// description, or the reading error) against the plugins already present
    /// (`key -> (is a hook plugin, is enabled)`):
    /// an unreadable package is incomplete, with the error's message; the key
    /// `plugin` is refused; an existing plugin that is no hook is reported as
    /// existing; an existing, enabled hook plugin as an existing hook; else the
    /// check passes.
    pub fn check_plugin(
        &self,
        extracted: Result<PluginInfo, InstallerError>,
        existing: &Vec<(String, (bool, bool))>,
    ) -> (r: Result<(CheckResult, Option<String>), InstallerError>)
        requires
            keys_unique(existing@),
        ensures
            match extracted {
                Err(e) => r matches Ok((c, Some(m))) && c == CheckResult::Incomplete && m@ == "插件信息不完整: "@ + installer_error_text(e),
                Ok(info) => if info.key@ == "plugin"@ {
                    r matches Err(InstallerError::Common(c)) && c@ == ("CoolCommException"@, 1001u32, "插件key不能为plugin，请更换其他key"@)
                } else {
                    match assoc_get(existing@, info.key@) {
                        Some((false, _)) => r matches Ok((c, None)) && c == CheckResult::Exists,
                        Some((true, true)) => r matches Ok((c, None)) && c == CheckResult::HookExists,
                        _ => r matches Ok((c, None)) && c == CheckResult::Passed,
                    }
                },
            },
    {
        let data = match extracted {
            Ok(d) => d,
            Err(e) => {
                let mut m = to_owned_string("插件信息不完整: ");
                let t = e.message();
                m.append(t.as_str());
                return Ok((CheckResult::Incomplete, Some(m)));
            },
        };
        if str_eq(data.key.as_str(), "plugin") {
            let c = CoolCommException::new("插件key不能为plugin，请更换其他key");
            proof {
                reveal_strlit("插件key不能为plugin，请更换其他key");
            }
            return Err(InstallerError::Common(c));
        }
        match assoc_find(existing, data.key.as_str()) {
            Some(i) => {
                let (is_hook, is_enabled) = existing[i].1;
                if !is_hook {
                    return Ok((CheckResult::Exists, None));
                } else if is_enabled {
                    return Ok((CheckResult::HookExists, None));
                }
            },
            None => {},
        }
        Ok((CheckResult::Passed, None))
    }
}

impl Default for PluginInstaller {
    /// An installer for the directory `plugins`.
    fn default() -> (r: PluginInstaller)
        ensures
            r.dir() == "plugins"@,
    {
        PluginInstaller::new("plugins")
    }
}


/// The document kept for a plugin: its code under `content` (type `comm`) and
/// its `ts` code under `tsContent` (type `ts`).
pub open spec fn plugin_document_model(content: Seq<char>, ts_content: Seq<char>) -> JsonModel {
    JsonModel::Object(
        seq![
            (
                "content"@,
                JsonModel::Object(
                    seq![("type"@, JsonModel::Str("comm"@)), ("data"@, JsonModel::Str(content))],
                ),
            ),
            (
                "tsContent"@,
                JsonModel::Object(
                    seq![("type"@, JsonModel::Str("ts"@)), ("data"@, JsonModel::Str(ts_content))],
                ),
            ),
        ],
    )
}

fn typed_data(kind: &str, data: &String) -> (r: Json)
    ensures
        json_model(r) == JsonModel::Object(
            seq![("type"@, JsonModel::Str(kind@)), ("data"@, JsonModel::Str(data@))],
        ),
{
    let mut f: Vec<(String, Json)> = Vec::new();
    f.push((to_owned_string("type"), Json::Str(to_owned_string(kind))));
    f.push((to_owned_string("data"), Json::Str(data.clone())));
    proof {
        lemma_field_models(f@);
        assert(field_models(f@) =~= seq![("type"@, JsonModel::Str(kind@)), ("data"@, JsonModel::Str(data@))]);
    }
    Json::Object(f)
}

/// The document kept for the plugin `data`.
pub fn plugin_document(data: &PluginData) -> (r: Json)
    ensures
        json_model(r) == plugin_document_model(data.content@, data.ts_content@),
{
    let a = typed_data("comm", &data.content);
    let b = typed_data("ts", &data.ts_content);
    let ghost am = json_model(a);
    let ghost bm = json_model(b);
    let mut f: Vec<(String, Json)> = Vec::new();
    f.push((to_owned_string("content"), a));
    f.push((to_owned_string("tsContent"), b));
    proof {
        lemma_field_models(f@);
        assert(field_models(f@) =~= seq![("content"@, am), ("tsContent"@, bm)]);
    }
    Json::Object(f)
}

} // verus!
