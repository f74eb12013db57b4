//! Framework configuration and the connection URLs it yields.

use vstd::prelude::*;
use crate::text::{nat_text, str_eq, to_owned_string, u64_text};

verus! {

/// Multi-tenant settings.
#[derive(Debug, Clone)]
pub struct TenantConfig {
    pub enable: bool,
    pub urls: Vec<String>,
}

/// Translation settings.
#[derive(Debug, Clone)]
pub struct I18nConfig {
    pub enable: bool,
    pub languages: Vec<String>,
    pub service_url: Option<String>,
}

/// CRUD settings.
#[derive(Debug, Clone)]
pub struct CrudConfig {
    pub soft_delete: bool,
    pub page_size: u64,
    pub upsert: String,
}

impl Default for CrudConfig {
    /// Soft delete on, 20 rows per page, `normal` inserts.
    fn default() -> (c: CrudConfig)
        ensures
            c.soft_delete,
            c.page_size == 20,
            c.upsert@ == "normal"@,
    {
        CrudConfig { soft_delete: true, page_size: 20, upsert: to_owned_string("normal") }
    }
}

/// Aliyun OSS settings.
#[derive(Debug, Clone)]
pub struct OssConfig {
    pub access_key_id: String,
    pub access_key_secret: String,
    pub bucket: String,
    pub endpoint: String,
    pub timeout: Option<String>,
    pub exp_after: Option<u64>,
    pub max_size: Option<u64>,
    pub host: Option<String>,
    pub public_domain: Option<String>,
}

/// Tencent COS settings.
#[derive(Debug, Clone)]
pub struct CosConfig {
    pub access_key_id: String,
    pub access_key_secret: String,
    pub bucket: String,
    pub region: String,
    pub public_domain: String,
    pub duration_seconds: Option<u64>,
    pub allow_prefix: Option<String>,
    pub allow_actions: Option<Vec<String>>,
}

/// Qiniu settings.
#[derive(Debug, Clone)]
pub struct QiniuConfig {
    pub access_key_id: String,
    pub access_key_secret: String,
    pub bucket: String,
    pub region: String,
    pub public_domain: String,
    pub upload_url: Option<String>,
    pub file_key: Option<String>,
}

/// AWS S3 settings; `conditions` holds each condition as JSON text.
#[derive(Debug, Clone)]
pub struct AwsConfig {
    pub access_key_id: String,
    pub secret_access_key: String,
    pub bucket: String,
    pub region: String,
    pub fields: Option<Vec<(String, String)>>,
    pub conditions: Option<Vec<String>>,
    pub expires: Option<u64>,
    pub public_domain: Option<String>,
    pub force_path_style: Option<bool>,
}

/// Upload settings.
#[derive(Debug, Clone)]
pub struct FileConfig {
    pub mode: String,
    pub domain: Option<String>,
    pub oss: Option<OssConfig>,
    pub cos: Option<CosConfig>,
    pub qiniu: Option<QiniuConfig>,
    pub aws: Option<AwsConfig>,
}

/// Redis connection settings.
#[derive(Debug, Clone)]
pub struct RedisConfig {
    pub host: String,
    pub port: u16,
    pub password: Option<String>,
    pub db: u8,
}

/// The Redis URL: with `:password@` when a non-empty password is set.
pub open spec fn redis_url_spec(c: RedisConfig) -> Seq<char> {
    let tail = c.host@ + ":"@ + nat_text(c.port as nat) + "/"@ + nat_text(c.db as nat);
    match c.password {
        Some(p) => if p@.len() > 0 {
            "redis://"@ + ":"@ + p@ + "@"@ + tail
        } else {
            "redis://"@ + tail
        },
        None => "redis://"@ + tail,
    }
}

impl RedisConfig {
    /// The connection URL.
    pub fn url(&self) -> (r: String)
        ensures
            r@ == redis_url_spec(*self),
    {
        let mut s = to_owned_string("redis://");
        match &self.password {
            Some(p) => {
                if p.as_str().unicode_len() > 0 {
                    s.append(":");
                    s.append(p.as_str());
                    s.append("@");
                }
            },
            None => {},
        }
        s.append(self.host.as_str());
        s.append(":");
        s.append(u64_text(self.port as u64).as_str());
        s.append("/");
        s.append(u64_text(self.db as u64).as_str());
        s
    }
}

/// Token settings.
#[derive(Debug, Clone)]
pub struct JwtConfig {
    pub secret: String,
    pub expire: u64,
    pub refresh_expire: u64,
}

impl Default for JwtConfig {
    /// Secret `cool-admin-rust`, tokens valid 7200 s, refresh tokens 604800 s.
    fn default() -> (c: JwtConfig)
        ensures
            c.secret@ == "cool-admin-rust"@,
            c.expire == 7200,
            c.refresh_expire == 604800,
    {
        JwtConfig { secret: to_owned_string("cool-admin-rust"), expire: 7200, refresh_expire: 604800 }
    }
}

/// A module's name, description and load order (higher loads first).
#[derive(Debug, Clone)]
pub struct ModuleConfig {
    pub name: String,
    pub description: String,
    pub order: i32,
}

/// Database connection settings.
#[derive(Debug, Clone)]
pub struct DatabaseConfig {
    pub db_type: String,
    pub host: Option<String>,
    pub port: Option<u16>,
    pub username: Option<String>,
    pub password: Option<String>,
    pub database: String,
    pub max_connections: u32,
    pub min_connections: u32,
    pub connect_timeout: u64,
    pub logging: bool,
    pub synchronize: bool,
}

/// The text of an optional setting, or a default.
pub open spec fn or_default(o: Option<String>, d: Seq<char>) -> Seq<char> {
    match o {
        Some(s) => s@,
        None => d,
    }
}

/// Whether the database type is one the framework connects to.
pub open spec fn supported_db_type(t: Seq<char>) -> bool {
    t == "sqlite"@ || t == "mysql"@ || t == "postgres"@
}

/// The connection URL of each supported database type.
pub open spec fn database_url_spec(c: DatabaseConfig) -> Seq<char> {
    let t = c.db_type@;
    if t == "sqlite"@ {
        "sqlite://"@ + c.database@ + "?mode=rwc"@
    } else if t == "mysql"@ {
        "mysql://"@ + or_default(c.username, "root"@) + ":"@ + or_default(c.password, ""@) + "@"@
            + or_default(c.host, "localhost"@) + ":"@ + nat_text(
            match c.port {
                Some(p) => p as nat,
                None => 3306,
            },
        ) + "/"@ + c.database@
    } else {
        "postgres://"@ + or_default(c.username, "postgres"@) + ":"@ + or_default(c.password, ""@)
            + "@"@ + or_default(c.host, "localhost"@) + ":"@ + nat_text(
            match c.port {
                Some(p) => p as nat,
                None => 5432,
            },
        ) + "/"@ + c.database@
    }
}

fn opt_text(o: &Option<String>, d: &str) -> (r: String)
    ensures
        r@ == or_default(*o, d@),
{
    match o {
        Some(s) => s.clone(),
        None => to_owned_string(d),
    }
}

impl DatabaseConfig {
    /// The connection URL; only `sqlite`, `mysql` and `postgres` are supported.
    pub fn url(&self) -> (r: String)
        requires
            supported_db_type(self.db_type@),
        ensures
            r@ == database_url_spec(*self),
    {
        let t = self.db_type.as_str();
        if str_eq(t, "sqlite") {
            let mut s = to_owned_string("sqlite://");
            s.append(self.database.as_str());
            s.append("?mode=rwc");
            s
        } else {
            let is_mysql = str_eq(t, "mysql");
            let mut s = if is_mysql {
                to_owned_string("mysql://")
            } else {
                to_owned_string("postgres://")
            };
            s.append(opt_text(&self.username, if is_mysql { "root" } else { "postgres" }).as_str());
            s.append(":");
            s.append(opt_text(&self.password, "").as_str());
            s.append("@");
            s.append(opt_text(&self.host, "localhost").as_str());
            s.append(":");
            let port: u16 = match self.port {
                Some(p) => p,
                None => if is_mysql {
                    3306
                } else {
                    5432
                },
            };
            s.append(u64_text(port as u64).as_str());
            s.append("/");
            s.append(self.database.as_str());
            s
        }
    }
}

/// The framework's main settings.
#[derive(Debug, Clone)]
pub struct CoolConfig {
    pub init_db: bool,
    pub init_menu: bool,
    pub init_judge: String,
    pub eps: bool,
    pub tenant: Option<TenantConfig>,
    pub i18n: Option<I18nConfig>,
    pub crud: CrudConfig,
    pub file: Option<FileConfig>,
    pub redis: Option<RedisConfig>,
    pub jwt: JwtConfig,
}

impl Default for CoolConfig {
    /// Everything off or empty, with the default CRUD and token settings.
    fn default() -> (c: CoolConfig)
        ensures
            !c.init_db && !c.init_menu && !c.eps,
            c.init_judge@.len() == 0,
            c.tenant is None && c.i18n is None && c.file is None && c.redis is None,
            c.crud.soft_delete && c.crud.page_size == 20 && c.crud.upsert@ == "normal"@,
            c.jwt.secret@ == "cool-admin-rust"@ && c.jwt.expire == 7200 && c.jwt.refresh_expire
                == 604800,
    {
        CoolConfig {
            init_db: false,
            init_menu: false,
            init_judge: String::new(),
            eps: false,
            tenant: None,
            i18n: None,
            crud: CrudConfig::default(),
            file: None,
            redis: None,
            jwt: JwtConfig::default(),
        }
    }
}

} // verus!
