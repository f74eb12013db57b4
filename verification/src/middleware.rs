//! Request checks: which requests skip the token check, how the token is
//! taken from a request, what a verified token's claims lead to, and the
//! uniform error answers. Token encoding and decoding, and the HTTP plumbing,
//! are done by the application.

use vstd::prelude::*;
use crate::constant::{ResCode, res_code_value};
use crate::error::{CoolError, CoolResponse, error_code, error_text};
use crate::text::{to_owned_string, str_eq, str_starts_with, starts_with, chars_of, i64_text, int_text};
use crate::scan::{slice_chars, string_views};
use crate::attr::opt_view;
use crate::clock::now_millis;
use crate::tag::{add_url, add_urls};

verus! {

/// The claims carried by a token.
#[derive(Debug)]
pub struct JwtClaims {
    pub user_id: i64,
    pub username: Option<String>,
    pub role_ids: Vec<i64>,
    pub is_admin: bool,
    pub tenant_id: Option<i64>,
    /// Expiry, in seconds since the epoch.
    pub exp: i64,
    /// Issue time, in seconds since the epoch.
    pub iat: i64,
}

impl JwtClaims {
    /// Claims issued at `now` (seconds) that expire `expire_secs` later.
    pub fn issued_at(
        user_id: i64,
        username: Option<String>,
        role_ids: Vec<i64>,
        is_admin: bool,
        tenant_id: Option<i64>,
        expire_secs: u64,
        now: i64,
    ) -> (r: JwtClaims)
        requires
            expire_secs <= i64::MAX,
            now + expire_secs <= i64::MAX,
        ensures
            r.user_id == user_id,
            r.username == username,
            r.role_ids == role_ids,
            r.is_admin == is_admin,
            r.tenant_id == tenant_id,
            r.iat == now,
            r.exp == now + expire_secs,
    {
        JwtClaims {
            user_id,
            username,
            role_ids,
            is_admin,
            tenant_id,
            exp: now + expire_secs as i64,
            iat: now,
        }
    }

    /// Claims issued now, by the clock, that expire `expire_secs` later (at the
    /// largest time there is, where that is later than it).
    pub fn new(
        user_id: i64,
        username: Option<String>,
        role_ids: Vec<i64>,
        is_admin: bool,
        tenant_id: Option<i64>,
        expire_secs: u64,
    ) -> (r: JwtClaims)
        ensures
            r.user_id == user_id,
            r.username == username,
            r.role_ids == role_ids,
            r.is_admin == is_admin,
            r.tenant_id == tenant_id,
            r.exp == (if r.iat + expire_secs <= i64::MAX { r.iat + expire_secs } else { i64::MAX as int }),
    {
        let now = now_millis() / 1000;
        let room: i128 = (i64::MAX as i128) - (now as i128);
        let exp: i64 = if (expire_secs as i128) <= room {
            ((now as i128) + (expire_secs as i128)) as i64
        } else {
            i64::MAX
        };
        JwtClaims { user_id, username, role_ids, is_admin, tenant_id, exp, iat: now }
    }
}

/// The signed-in administrator, as the token says.
#[derive(Debug)]
pub struct AdminInfo {
    pub user_id: i64,
    pub username: Option<String>,
    pub role_ids: Vec<i64>,
    pub is_admin: bool,
    pub tenant_id: Option<i64>,
}

impl From<JwtClaims> for AdminInfo {
    fn from(claims: JwtClaims) -> (r: AdminInfo) {
        AdminInfo {
            user_id: claims.user_id,
            username: claims.username,
            role_ids: claims.role_ids,
            is_admin: claims.is_admin,
            tenant_id: claims.tenant_id,
        }
    }
}

impl vstd::std_specs::convert::FromSpecImpl<JwtClaims> for AdminInfo {
    open spec fn obeys_from_spec() -> bool {
        true
    }

    open spec fn from_spec(claims: JwtClaims) -> AdminInfo {
        admin_of(claims)
    }
}

/// The administrator the claims name.
pub open spec fn admin_of(claims: JwtClaims) -> AdminInfo {
    AdminInfo {
        user_id: claims.user_id,
        username: claims.username,
        role_ids: claims.role_ids,
        is_admin: claims.is_admin,
        tenant_id: claims.tenant_id,
    }
}

/// A signed-in app user.
#[derive(Debug)]
pub struct AppUserInfo {
    pub id: i64,
    pub username: Option<String>,
    pub phone: Option<String>,
    pub tenant_id: Option<i64>,
}

/// Settings of the token check.
#[derive(Debug)]
pub struct AuthorityConfig {
    pub jwt_secret: String,
    /// URLs that skip the check; one ending in `*` stands for every URL that
    /// starts with the text before the `*`.
    pub ignore_urls: Vec<String>,
    /// The header that carries the token.
    pub token_header: String,
}

impl Default for AuthorityConfig {
    /// Secret `cool-admin-rust`, nothing skipped, header `Authorization`.
    fn default() -> (r: AuthorityConfig)
        ensures
            r.jwt_secret@ == "cool-admin-rust"@,
            r.ignore_urls@.len() == 0,
            r.token_header@ == "Authorization"@,
    {
        AuthorityConfig {
            jwt_secret: to_owned_string("cool-admin-rust"),
            ignore_urls: Vec::new(),
            token_header: to_owned_string("Authorization"),
        }
    }
}

/// Whether a sequence holds no value twice.
pub open spec fn distinct(s: Seq<Seq<char>>) -> bool {
    forall|i: int, j: int| 0 <= i < j < s.len() ==> s[i] != s[j]
}

impl AuthorityConfig {
    /// The default settings with the secret `jwt_secret`.
    pub fn new(jwt_secret: &str) -> (r: AuthorityConfig)
        ensures
            r.jwt_secret@ == jwt_secret@,
            r.ignore_urls@.len() == 0,
            r.token_header@ == "Authorization"@,
    {
        AuthorityConfig { jwt_secret: to_owned_string(jwt_secret), ..Default::default() }
    }

    /// Adds `url` to the skipped URLs (a set: adding it again changes nothing).
    pub fn ignore_url(self, url: &str) -> (r: AuthorityConfig)
        requires
            distinct(string_views(self.ignore_urls@)),
        ensures
            distinct(string_views(r.ignore_urls@)),
            string_views(r.ignore_urls@) == add_url(string_views(self.ignore_urls@), url@),
            r.jwt_secret == self.jwt_secret,
            r.token_header == self.token_header,
    {
        let ghost orig = self;
        let mut s = self;
        let ghost before = string_views(s.ignore_urls@);
        let mut i: usize = 0;
        while i < s.ignore_urls.len()
            invariant
                i <= s.ignore_urls@.len(),
                before == string_views(s.ignore_urls@),
                s == orig,
                orig == self,
                distinct(before),
                forall|j: int| 0 <= j < i ==> s.ignore_urls@[j]@ != url@,
            decreases s.ignore_urls.len() - i,
        {
            if str_eq(s.ignore_urls[i].as_str(), url) {
                assert(before[i as int] == url@);
                return s;
            }
            i = i + 1;
        }
        assert(!before.contains(url@)) by {
            if before.contains(url@) {
                let k = choose|k: int| 0 <= k < before.len() && before[k] == url@;
                assert(s.ignore_urls@[k]@ == url@);
            }
        }
        s.ignore_urls.push(to_owned_string(url));
        assert(string_views(s.ignore_urls@) =~= before.push(url@));
        assert forall|a: int, b: int| 0 <= a < b < before.len() + 1 implies string_views(
            s.ignore_urls@,
        )[a] != string_views(s.ignore_urls@)[b] by {
            if b == before.len() {
                assert(string_views(s.ignore_urls@)[a] == before[a]);
            }
        }
        s
    }

    /// Adds each of `urls` to the skipped URLs.
    pub fn ignore_urls(self, urls: &Vec<String>) -> (r: AuthorityConfig)
        requires
            distinct(string_views(self.ignore_urls@)),
        ensures
            distinct(string_views(r.ignore_urls@)),
            string_views(r.ignore_urls@) == add_urls(string_views(self.ignore_urls@), string_views(urls@)),
            r.jwt_secret == self.jwt_secret,
            r.token_header == self.token_header,
    {
        let ghost orig = string_views(self.ignore_urls@);
        let ghost secret = self.jwt_secret;
        let ghost header = self.token_header;
        let mut s = self;
        let mut i: usize = 0;
        while i < urls.len()
            invariant
                i <= urls@.len(),
                distinct(string_views(s.ignore_urls@)),
                string_views(s.ignore_urls@) == add_urls(orig, string_views(urls@).take(i as int)),
                s.jwt_secret == secret,
                s.token_header == header,
            decreases urls.len() - i,
        {
            s = s.ignore_url(urls[i].as_str());
            assert(string_views(urls@).take(i + 1).drop_last() =~= string_views(urls@).take(i as int));
            assert(string_views(urls@).take(i + 1).last() == urls@[i as int]@);
            i = i + 1;
        }
        assert(string_views(urls@).take(urls@.len() as int) =~= string_views(urls@));
        s
    }
}

/// Whether `path` skips the token check: it is one of the skipped URLs, or a
/// skipped URL ends in `*` and `path` starts with what precedes the `*`.
pub open spec fn skips_check(ignore: Seq<Seq<char>>, path: Seq<char>) -> bool {
    ||| ignore.contains(path)
    ||| exists|i: int| 0 <= i < ignore.len() && ignore[i].len() > 0 && ignore[i].last() == '*' && starts_with(path, #[trigger] ignore[i].drop_last())
}

/// The token a request carries: the header's, else the `token` query
/// parameter's, without a leading `Bearer `.
pub open spec fn request_token(header: Option<Seq<char>>, query: Option<Seq<char>>) -> Option<Seq<char>> {
    let t = match header {
        Some(h) => Some(h),
        None => query,
    };
    match t {
        Some(t) => if starts_with(t, "Bearer "@) {
            Some(t.skip(7))
        } else {
            Some(t)
        },
        None => None,
    }
}

/// The first step of the token check on a request.
pub enum AuthStep {
    /// The path skips the check.
    Skip,
    /// No token: the request is refused with the unauthorized answer.
    Missing,
    /// Verify this token.
    Check(String),
}

/// Decides the first step of the token check.
pub fn auth_step(config: &AuthorityConfig, path: &str, header: Option<String>, query: Option<String>) -> (r: AuthStep)
    ensures
        skips_check(string_views(config.ignore_urls@), path@) ==> r is Skip,
        !skips_check(string_views(config.ignore_urls@), path@) ==> match request_token(opt_view(header), opt_view(query)) {
            Some(t) => r matches AuthStep::Check(x) && x@ == t,
            None => r is Missing,
        },
{
    let ghost ign = string_views(config.ignore_urls@);
    let mut i: usize = 0;
    while i < config.ignore_urls.len()
        invariant
            i <= config.ignore_urls@.len(),
            ign == string_views(config.ignore_urls@),
            forall|j: int| 0 <= j < i ==> ign[j] != path@,
        decreases config.ignore_urls.len() - i,
    {
        if str_eq(config.ignore_urls[i].as_str(), path) {
            assert(ign[i as int] == path@);
            return AuthStep::Skip;
        }
        i = i + 1;
    }
    assert(!ign.contains(path@));
    let mut i: usize = 0;
    while i < config.ignore_urls.len()
        invariant
            i <= config.ignore_urls@.len(),
            ign == string_views(config.ignore_urls@),
            !ign.contains(path@),
            forall|j: int| 0 <= j < i ==> !(ign[j].len() > 0 && ign[j].last() == '*' && starts_with(path@, #[trigger] ign[j].drop_last())),
        decreases config.ignore_urls.len() - i,
    {
        let u = chars_of(config.ignore_urls[i].as_str());
        if u.len() > 0 && u[u.len() - 1] == '*' {
            let prefix = slice_chars(&u, 0, u.len() - 1);
            assert(prefix@ =~= ign[i as int].drop_last());
            let pre = crate::attr::owned(&prefix);
            if str_starts_with(path, pre.as_str()) {
                return AuthStep::Skip;
            }
        }
        i = i + 1;
    }
    let t = match header {
        Some(h) => Some(h),
        None => query,
    };
    match t {
        Some(t) => {
            if str_starts_with(t.as_str(), "Bearer ") {
                proof {
                    reveal_strlit("Bearer ");
                }
                let c = chars_of(t.as_str());
                let rest = slice_chars(&c, 7, c.len());
                assert(rest@ =~= t@.skip(7));
                AuthStep::Check(crate::attr::owned(&rest))
            } else {
                AuthStep::Check(t)
            }
        },
        None => AuthStep::Missing,
    }
}

/// How the token check ends.
pub enum AuthOutcome {
    /// The request goes on, signed in as this administrator.
    Accept(AdminInfo),
    /// The request is refused with HTTP 401 and this answer.
    Reject(CoolResponse<()>),
}

/// What verified claims (or a verification error) lead to at `now` (seconds):
/// expired claims are refused with `Token 已过期`, a verification error with
/// its own answer, other claims accepted.
pub fn auth_outcome(verified: Result<JwtClaims, CoolError>, now: i64) -> (r: AuthOutcome)
    ensures
        match verified {
            Ok(c) => if c.exp < now {
                r matches AuthOutcome::Reject(resp) && resp.code == 1001 && resp.message@ == "Token 已过期"@
                    && resp.data is None
            } else {
                r matches AuthOutcome::Accept(a) && a == admin_of(c)
            },
            Err(e) => r matches AuthOutcome::Reject(resp) && resp.code == res_code_value(error_code(e))
                && resp.message@ == error_text(e) && resp.data is None,
        },
{
    match verified {
        Ok(claims) => {
            if claims.exp < now {
                AuthOutcome::Reject(CoolResponse::fail("Token 已过期"))
            } else {
                AuthOutcome::Accept(AdminInfo::from(claims))
            }
        },
        Err(e) => AuthOutcome::Reject(CoolResponse::from_error(&e)),
    }
}

/// The answer to a request without a token.
pub fn missing_token_answer() -> (r: CoolResponse<()>)
    ensures
        r.code == 1005,
        r.message@ == "未授权访问"@,
        r.data is None,
{
    CoolResponse::from_error(&CoolError::unauthorized())
}

/// The HTTP status of every refusal.
pub const UNAUTHORIZED_STATUS: u16 = 401;

/// A uniform error answer.
#[derive(Debug)]
pub struct ErrorResponse {
    pub code: i32,
    pub message: String,
}

/// The error answer for `err`: its code and its display text.
pub fn handle_error(err: &CoolError) -> (r: ErrorResponse)
    ensures
        r.code == res_code_value(error_code(*err)),
        r.message@ == error_text(*err),
{
    ErrorResponse { code: err.code().code(), message: err.to_message() }
}

/// The error answer the exception filter gives a finished request: only for a
/// 4xx or 5xx status without a body; with the recorded error message and the
/// status as its code, else code 1004 and `请求处理失败`.
pub fn filter_error(status: u16, has_body: bool, recorded: Option<String>) -> (r: Option<ErrorResponse>)
    ensures
        !(400 <= status <= 599 && !has_body) ==> r is None,
        (400 <= status <= 599 && !has_body) ==> match recorded {
            Some(m) => r matches Some(e) && e.code == status && e.message == m,
            None => r matches Some(e) && e.code == 1004 && e.message@ == "请求处理失败"@,
        },
{
    if 400 <= status && status <= 599 && !has_body {
        match recorded {
            Some(m) => Some(ErrorResponse { code: status as i32, message: m }),
            None => Some(ErrorResponse { code: ResCode::CommError.code(), message: to_owned_string("请求处理失败") }),
        }
    } else {
        None
    }
}

/// Whether the request log skips `path`: it starts with one of the skipped paths.
pub fn log_skips(ignore_paths: &Vec<String>, path: &str) -> (r: bool)
    ensures
        r == exists|i: int| 0 <= i < ignore_paths@.len() && starts_with(path@, #[trigger] ignore_paths@[i]@),
{
    let mut i: usize = 0;
    while i < ignore_paths.len()
        invariant
            i <= ignore_paths@.len(),
            forall|j: int| 0 <= j < i ==> !starts_with(path@, #[trigger] ignore_paths@[j]@),
        decreases ignore_paths.len() - i,
    {
        if str_starts_with(path, ignore_paths[i].as_str()) {
            return true;
        }
        i = i + 1;
    }
    false
}

/// The user named in the request log: the administrator's id, else `anonymous`.
pub fn log_user(admin: Option<&AdminInfo>) -> (r: String)
    ensures
        match admin {
            Some(a) => r@ == int_text(a.user_id as int),
            None => r@ == "anonymous"@,
        },
{
    match admin {
        Some(a) => i64_text(a.user_id),
        None => to_owned_string("anonymous"),
    }
}

/// Whether the request log records a request as completed rather than failed:
/// its status is a 2xx status.
pub fn log_success(status: u16) -> (r: bool)
    ensures
        r == (200 <= status <= 299),
{
    200 <= status && status <= 299
}

} // verus!
