//! The file cache of plugins: where an entry's file lives, when an entry set
//! with a time to live expires, and whether a stored entry is still live.
//! Reading and writing the files is done by the application.

use vstd::prelude::*;
use std::hash::{Hash, Hasher};
use crate::text::to_owned_string;
use crate::util::hex_digit;
use crate::util::location::{join_path, join_path_spec, push_path};

verus! {

/// The errors of the file cache.
#[derive(Debug)]
pub enum CacheError {
    OperationFailed(String),
    Io(String),
    Serialization(String),
}

/// The message of each cache error.
pub open spec fn cache_error_text(e: CacheError) -> Seq<char> {
    match e {
        CacheError::OperationFailed(m) => "缓存操作失败: "@ + m@,
        CacheError::Io(m) => "IO 错误: "@ + m@,
        CacheError::Serialization(m) => "序列化错误: "@ + m@,
    }
}

impl CacheError {
    /// The error's message.
    pub fn message(&self) -> (r: String)
        ensures
            r@ == cache_error_text(*self),
    {
        let (head, m) = match self {
            CacheError::OperationFailed(m) => ("缓存操作失败: ", m),
            CacheError::Io(m) => ("IO 错误: ", m),
            CacheError::Serialization(m) => ("序列化错误: ", m),
        };
        let mut r = to_owned_string(head);
        r.append(m.as_str());
        r
    }
}

/// Options of the file cache: its directory and its default time to live in
/// seconds (-1 for never).
#[derive(Debug)]
pub struct CacheOptions {
    pub path: Option<String>,
    pub ttl: Option<i64>,
}

impl Default for CacheOptions {
    fn default() -> (r: CacheOptions)
        ensures
            r.path is None,
            r.ttl is None,
    {
        CacheOptions { path: None, ttl: None }
    }
}

/// The hash `std::collections::hash_map::DefaultHasher` gives the key (as
/// `str::hash` feeds it), for a given build of the standard library.
pub uninterp spec fn default_hash(key: Seq<char>) -> u64;

/// Hashes `key` with a fresh `DefaultHasher`. Trusted: the result is a
/// function of the key.
#[verifier::external_body]
fn hash_key(key: &str) -> (r: u64)
    ensures
        r == default_hash(key@),
{
    let mut hasher = std::collections::hash_map::DefaultHasher::new();
    key.hash(&mut hasher);
    hasher.finish()
}

/// Lower-case hexadecimal text of a number, without leading zeros.
pub open spec fn hex_text(n: nat) -> Seq<char>
    decreases n,
{
    if n < 16 {
        seq![hex_digit(n as int)]
    } else {
        hex_text(n / 16).push(hex_digit((n % 16) as int))
    }
}

fn push_hex_text(out: &mut Vec<char>, n: u64)
    ensures
        final(out)@ == old(out)@ + hex_text(n as nat),
    decreases n,
{
    if n >= 16 {
        push_hex_text(out, n / 16);
    }
    let d: u8 = (n % 16) as u8;
    let c: char = if d < 10 { (48u8 + d) as char } else { (87u8 + d) as char };
    assert(c == hex_digit(d as int));
    out.push(c);
    assert(final(out)@ =~= old(out)@ + hex_text(n as nat));
}

/// The file cache.
pub struct FsCacheStore {
    cache_dir: String,
    default_ttl: i64,
}

/// When an entry set at `now` with the time to live `ttl` (else the default)
/// expires: `ttl` seconds after `now` for a positive `ttl`, else never.
pub open spec fn expiry(ttl: Option<i64>, default_ttl: i64, now: u64) -> Option<int> {
    let t = match ttl {
        Some(t) => t,
        None => default_ttl,
    };
    if t > 0 {
        Some(now + t)
    } else {
        None
    }
}

impl FsCacheStore {
    /// The cache directory.
    pub closed spec fn dir(&self) -> Seq<char> {
        self.cache_dir@
    }

    /// The default time to live, in seconds.
    pub closed spec fn ttl(&self) -> i64 {
        self.default_ttl
    }

    /// A cache in `options.path` (else `cache`) with the default time to live
    /// `options.ttl` (else -1, never expiring).
    pub fn new(options: CacheOptions) -> (r: FsCacheStore)
        ensures
            r.dir() == match options.path {
                Some(p) => p@,
                None => "cache"@,
            },
            r.ttl() == match options.ttl {
                Some(t) => t,
                None => -1i64,
            },
    {
        let cache_dir = match options.path {
            Some(p) => p,
            None => to_owned_string("cache"),
        };
        let default_ttl = match options.ttl {
            Some(t) => t,
            None => -1,
        };
        FsCacheStore { cache_dir, default_ttl }
    }

    /// The cache directory.
    pub fn cache_dir(&self) -> (r: &str)
        ensures
            r@ == self.dir(),
    {
        self.cache_dir.as_str()
    }

    /// The default time to live, in seconds.
    pub fn default_ttl(&self) -> (r: i64)
        ensures
            r == self.ttl(),
    {
        self.default_ttl
    }

    /// The file name of `key`: the key's hash in hexadecimal and `.json`.
    pub fn file_name(key: &str) -> (r: String)
        ensures
            r@ == hex_text(default_hash(key@) as nat) + ".json"@,
    {
        let h = hash_key(key);
        let mut out: Vec<char> = Vec::new();
        push_hex_text(&mut out, h);
        assert(out@ =~= hex_text(h as nat));
        let mut r = crate::text::string_from_chars(&out);
        r.append(".json");
        r
    }

    /// The path of the file of `key`: its file name in the cache directory.
    pub fn file_path(&self, key: &str) -> (r: String)
        ensures
            r@ == push_path(self.dir(), hex_text(default_hash(key@) as nat) + ".json"@),
    {
        let name = Self::file_name(key);
        let parts = vec![name];
        let ghost pv = seq![parts@[0]@];
        assert(parts@.map_values(|s: String| s@) =~= pv);
        assert(pv.drop_last() =~= Seq::<Seq<char>>::empty());
        assert(join_path_spec(self.dir(), pv.drop_last()) == self.dir());
        join_path(self.cache_dir.as_str(), &parts)
    }

    /// When an entry set now (`now`, in seconds) with `ttl` expires.
    pub fn expires_at(&self, ttl: Option<i64>, now: u64) -> (r: Option<u64>)
        requires
            expiry(ttl, self.ttl(), now) matches Some(e) ==> e <= u64::MAX,
        ensures
            match expiry(ttl, self.ttl(), now) {
                Some(e) => r == Some(e as u64),
                None => r is None,
            },
    {
        let t = match ttl {
            Some(t) => t,
            None => self.default_ttl,
        };
        if t > 0 {
            Some(now + t as u64)
        } else {
            None
        }
    }
}

/// Whether an entry expiring at `expires_at` is gone at `now`: it is from its
/// expiry time on; an entry without one never is.
pub fn is_expired(expires_at: Option<u64>, now: u64) -> (r: bool)
    ensures
        r == (expires_at matches Some(e) && now >= e),
{
    match expires_at {
        Some(e) => now >= e,
        None => false,
    }
}

/// Law: an entry set with a positive time to live is live until that many
/// seconds have passed, and gone from then on.
pub proof fn law_entry_lives_for_its_ttl(ttl: i64, default_ttl: i64, set_at: u64, now: u64)
    requires
        ttl > 0,
        set_at + ttl <= u64::MAX,
    ensures
        expiry(Some(ttl), default_ttl, set_at) == Some(set_at + ttl),
        (now >= set_at + ttl) == (expiry(Some(ttl), default_ttl, set_at) matches Some(e) && now >= e),
{
}

} // verus!
