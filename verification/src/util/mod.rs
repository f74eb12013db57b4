//! General helpers: identifiers, case conversion, hashing, random strings.

pub mod ip;
pub mod location;
pub mod string;

use md5::Digest;
use std::fmt::Write;
use rand::Rng;
use vstd::prelude::*;
use vstd::string::StringSliceAdditionalSpecFns;
use crate::text::{
    all_ascii, char_is_uppercase, char_lower_first, char_upper_first, chars_of, is_ascii_char,
    is_ascii_upper, is_upper_char, lower_first, string_from_chars, upper_first, char_upper_all,
    char_lower_all, upper_all, lower_all, is_ascii_lower, ascii_to_upper,
};

verus! {

// ---------------------------------------------------------------- case conversion

/// `camelCase` to `snake_case`: every character with the `Uppercase` property
/// becomes `_` followed by its lowercase (no `_` in front of the first character).
pub open spec fn camel_to_snake_spec(s: Seq<char>) -> Seq<char>
    decreases s.len(),
{
    if s.len() == 0 {
        seq![]
    } else {
        let prev = camel_to_snake_spec(s.drop_last());
        let c = s.last();
        if is_upper_char(c) {
            if s.len() > 1 {
                prev.push('_').push(lower_first(c))
            } else {
                prev.push(lower_first(c))
            }
        } else {
            prev.push(c)
        }
    }
}

/// State of the `snake_case` to `camelCase` scan: the output so far and whether
/// the next character is to be capitalised.
pub open spec fn snake_to_camel_state(s: Seq<char>) -> (Seq<char>, bool)
    decreases s.len(),
{
    if s.len() == 0 {
        (seq![], false)
    } else {
        let (out, cap) = snake_to_camel_state(s.drop_last());
        let c = s.last();
        if c == '_' {
            (out, true)
        } else if cap {
            (out.push(upper_first(c)), false)
        } else {
            (out.push(c), false)
        }
    }
}

/// `snake_case` to `camelCase`: underscores are dropped and the character after
/// an underscore is upper-cased.
pub open spec fn snake_to_camel_spec(s: Seq<char>) -> Seq<char> {
    snake_to_camel_state(s).0
}

/// Converts `camelCase` to `snake_case`.
pub fn camel_to_snake(s: &str) -> (r: String)
    ensures
        r@ == camel_to_snake_spec(s@),
{
    let cs = chars_of(s);
    let mut out: Vec<char> = Vec::new();
    let mut i: usize = 0;
    while i < cs.len()
        invariant
            cs@ == s@,
            i <= cs.len(),
            out@ == camel_to_snake_spec(s@.take(i as int)),
        decreases cs.len() - i,
    {
        let c = cs[i];
        assert(s@.take(i as int + 1).drop_last() =~= s@.take(i as int));
        if char_is_uppercase(c) {
            if i > 0 {
                out.push('_');
            }
            out.push(char_lower_first(c));
        } else {
            out.push(c);
        }
        i = i + 1;
    }
    assert(s@.take(cs.len() as int) =~= s@);
    string_from_chars(&out)
}

/// Converts `snake_case` to `camelCase`.
pub fn snake_to_camel(s: &str) -> (r: String)
    ensures
        r@ == snake_to_camel_spec(s@),
{
    let cs = chars_of(s);
    let mut out: Vec<char> = Vec::new();
    let mut capitalize_next = false;
    let mut i: usize = 0;
    while i < cs.len()
        invariant
            cs@ == s@,
            i <= cs.len(),
            (out@, capitalize_next) == snake_to_camel_state(s@.take(i as int)),
        decreases cs.len() - i,
    {
        let c = cs[i];
        assert(s@.take(i as int + 1).drop_last() =~= s@.take(i as int));
        if c == '_' {
            capitalize_next = true;
        } else if capitalize_next {
            out.push(char_upper_first(c));
            capitalize_next = false;
        } else {
            out.push(c);
        }
        i = i + 1;
    }
    assert(s@.take(cs.len() as int) =~= s@);
    string_from_chars(&out)
}

/// An ASCII `camelCase` identifier: ASCII only, no `_`, and not starting with a capital.
pub open spec fn is_ascii_camel(s: Seq<char>) -> bool {
    &&& all_ascii(s)
    &&& forall|i: int| 0 <= i < s.len() ==> #[trigger] s[i] != '_'
    &&& s.len() > 0 ==> !is_ascii_upper(s[0])
}

proof fn lemma_snake_of_camel_prefix(s: Seq<char>)
    requires
        is_ascii_camel(s),
    ensures
        snake_to_camel_state(camel_to_snake_spec(s)) == (s, false),
    decreases s.len(),
{
    if s.len() > 0 {
        let p = s.drop_last();
        assert(is_ascii_camel(p)) by {
            assert forall|i: int| 0 <= i < p.len() implies #[trigger] p[i] != '_' by {
                assert(p[i] == s[i]);
            }
            assert forall|i: int| 0 <= i < p.len() implies is_ascii_char(#[trigger] p[i]) by {
                assert(p[i] == s[i]);
            }
            if p.len() > 0 {
                assert(p[0] == s[0]);
            }
        }
        lemma_snake_of_camel_prefix(p);
        let c = s.last();
        assert(c == s[s.len() - 1]);
        assert(is_ascii_char(c));
        assert(c != '_');
        let prev = camel_to_snake_spec(p);
        if is_upper_char(c) {
            if s.len() > 1 {
                let a = prev.push('_');
                let b = a.push(lower_first(c));
                assert(a.drop_last() =~= prev);
                assert(b.drop_last() =~= a);
                assert(snake_to_camel_state(a) == (p, true));
                assert(snake_to_camel_state(b) == (p.push(c), false));
                assert(p.push(c) =~= s);
            } else {
                assert(s[0] == c);
                assert(false);
            }
        } else {
            let b = prev.push(c);
            assert(b.drop_last() =~= prev);
            assert(p.push(c) =~= s);
        }
    }
}

/// Law: turning an ASCII `camelCase` identifier into `snake_case` and back
/// gives the identifier back.
pub proof fn law_camel_snake_round_trip(s: Seq<char>)
    requires
        is_ascii_camel(s),
    ensures
        snake_to_camel_spec(camel_to_snake_spec(s)) == s,
{
    lemma_snake_of_camel_prefix(s);
}

/// Law: the `camelCase` form of an ASCII string holds no underscore.
pub proof fn law_snake_to_camel_drops_underscores(s: Seq<char>)
    requires
        all_ascii(s),
    ensures
        forall|i: int|
            0 <= i < snake_to_camel_spec(s).len() ==> #[trigger] snake_to_camel_spec(s)[i] != '_',
    decreases s.len(),
{
    if s.len() > 0 {
        let p = s.drop_last();
        assert(all_ascii(p)) by {
            assert forall|i: int| 0 <= i < p.len() implies is_ascii_char(#[trigger] p[i]) by {
                assert(p[i] == s[i]);
            }
        }
        law_snake_to_camel_drops_underscores(p);
        let c = s.last();
        assert(c == s[s.len() - 1]);
        let (out, cap) = snake_to_camel_state(p);
        assert(out == snake_to_camel_spec(p));
        if c != '_' {
            let d = if cap { upper_first(c) } else { c };
            assert(d != '_') by {
                if cap && is_ascii_lower(c) {
                    assert(ascii_to_upper(c) as u32 == c as u32 - 32);
                }
            }
            let o2 = out.push(d);
            assert(snake_to_camel_spec(s) == o2);
            assert forall|i: int| 0 <= i < o2.len() implies #[trigger] o2[i] != '_' by {
                if i < out.len() {
                    assert(o2[i] == out[i]);
                }
            }
        }
    }
}

// ---------------------------------------------------------------- first letter

/// `s` with its first character replaced by all characters of its upper-case mapping.
pub open spec fn capitalize_spec(s: Seq<char>) -> Seq<char> {
    if s.len() == 0 {
        seq![]
    } else {
        upper_all(s[0]) + s.drop_first()
    }
}

/// `s` with its first character replaced by all characters of its lower-case mapping.
pub open spec fn uncapitalize_spec(s: Seq<char>) -> Seq<char> {
    if s.len() == 0 {
        seq![]
    } else {
        lower_all(s[0]) + s.drop_first()
    }
}

/// Upper-cases the first character.
pub fn capitalize(s: &str) -> (r: String)
    ensures
        r@ == capitalize_spec(s@),
{
    let cs = chars_of(s);
    if cs.len() == 0 {
        return string_from_chars(&cs);
    }
    let mut out = char_upper_all(cs[0]);
    let mut i: usize = 1;
    let ghost head = out@;
    while i < cs.len()
        invariant
            cs@ == s@,
            1 <= i <= cs.len(),
            out@ == head + s@.subrange(1, i as int),
        decreases cs.len() - i,
    {
        out.push(cs[i]);
        assert(s@.subrange(1, i as int + 1) =~= s@.subrange(1, i as int).push(s@[i as int]));
        i = i + 1;
    }
    assert(s@.subrange(1, cs.len() as int) =~= s@.drop_first());
    string_from_chars(&out)
}

/// Lower-cases the first character.
pub fn uncapitalize(s: &str) -> (r: String)
    ensures
        r@ == uncapitalize_spec(s@),
{
    let cs = chars_of(s);
    if cs.len() == 0 {
        return string_from_chars(&cs);
    }
    let mut out = char_lower_all(cs[0]);
    let mut i: usize = 1;
    let ghost head = out@;
    while i < cs.len()
        invariant
            cs@ == s@,
            1 <= i <= cs.len(),
            out@ == head + s@.subrange(1, i as int),
        decreases cs.len() - i,
    {
        out.push(cs[i]);
        assert(s@.subrange(1, i as int + 1) =~= s@.subrange(1, i as int).push(s@[i as int]));
        i = i + 1;
    }
    assert(s@.subrange(1, cs.len() as int) =~= s@.drop_first());
    string_from_chars(&out)
}


// ---------------------------------------------------------------- time

/// Milliseconds since the Unix epoch, now.
pub fn timestamp_millis() -> (r: i64) {
    crate::clock::now_millis()
}

/// Seconds since the Unix epoch, now, from `chrono::Utc::now().timestamp()`.
/// Nothing is stated of the value, which the clock decides.
#[verifier::external_body]
pub fn timestamp() -> (r: i64) {
    chrono::Utc::now().timestamp()
}

/// The text that `chrono` formats for the instant `secs` seconds and `nanos`
/// nanoseconds after the Unix epoch (UTC) with `format`; `None` where chrono
/// has no such instant or the format holds an invalid specifier.
pub uninterp spec fn chrono_format(secs: int, nanos: int, format: Seq<char>) -> Option<Seq<char>>;

/// The instant (seconds and nanoseconds since the Unix epoch) that `chrono`
/// reads from `text` with `format` as a UTC date and time; `None` where it does
/// not parse.
pub uninterp spec fn chrono_parse(text: Seq<char>, format: Seq<char>) -> Option<(int, int)>;

/// Formats with `DateTime::from_timestamp` and `DateTime::format`, writing the
/// formatted text so that an invalid specifier comes back as an error rather
/// than a panic. Trusted: the result depends on the three arguments alone.
#[verifier::external_body]
fn chrono_format_instant(secs: i64, nanos: u32, format: &str) -> (r: Option<String>)
    ensures
        crate::attr::opt_view(r) == chrono_format(secs as int, nanos as int, format@),
{
    match chrono::DateTime::from_timestamp(secs, nanos) {
        Some(dt) => {
            let mut out = String::new();
            match write!(out, "{}", dt.format(format)) {
                Ok(()) => Some(out),
                Err(_) => None,
            }
        },
        None => None,
    }
}

/// Parses with `NaiveDateTime::parse_from_str`, reads the result as UTC and
/// takes its seconds and nanoseconds. Trusted: the result depends on the two
/// arguments alone.
#[verifier::external_body]
fn chrono_parse_instant(text: &str, format: &str) -> (r: Option<(i64, u32)>)
    ensures
        match r {
            Some((s, n)) => chrono_parse(text@, format@) == Some((s as int, n as int)),
            None => chrono_parse(text@, format@) is None,
        },
{
    match chrono::NaiveDateTime::parse_from_str(text, format) {
        Ok(ndt) => match ndt.and_local_timezone(chrono::Utc).single() {
            Some(dt) => Some((dt.timestamp(), dt.timestamp_subsec_nanos())),
            None => None,
        },
        Err(_) => None,
    }
}

/// The instant `secs` seconds and `nanos` nanoseconds after the Unix epoch
/// (UTC) formatted with `format`.
pub fn format_datetime(secs: i64, nanos: u32, format: &str) -> (r: String)
    requires
        chrono_format(secs as int, nanos as int, format@) is Some,
    ensures
        chrono_format(secs as int, nanos as int, format@) == Some(r@),
{
    chrono_format_instant(secs, nanos, format).unwrap()
}

/// The instant formatted with `format`, or `None` where chrono has no such
/// instant or the format is invalid.
pub fn try_format_datetime(secs: i64, nanos: u32, format: &str) -> (r: Option<String>)
    ensures
        crate::attr::opt_view(r) == chrono_format(secs as int, nanos as int, format@),
{
    match chrono_format_instant(secs, nanos, format) {
        Some(_) => Some(format_datetime(secs, nanos, format)),
        None => None,
    }
}

/// The instant (seconds and nanoseconds since the Unix epoch) that `text`
/// denotes in `format`, read as UTC.
pub fn parse_datetime(text: &str, format: &str) -> (r: Option<(i64, u32)>)
    ensures
        match r {
            Some((s, n)) => chrono_parse(text@, format@) == Some((s as int, n as int)),
            None => chrono_parse(text@, format@) is None,
        },
{
    chrono_parse_instant(text, format)
}

// ---------------------------------------------------------------- hashing and ids

/// The lower-case hexadecimal digit for `n < 16`.
pub open spec fn hex_digit(n: int) -> char {
    if n < 10 {
        ('0' as int + n) as char
    } else {
        ('a' as int + n - 10) as char
    }
}

/// Two lower-case hexadecimal digits per byte, high nibble first.
pub open spec fn hex_lower_spec(b: Seq<u8>) -> Seq<char>
    decreases b.len(),
{
    if b.len() == 0 {
        seq![]
    } else {
        hex_lower_spec(b.drop_last()).push(hex_digit(b.last() as int / 16)).push(
            hex_digit(b.last() as int % 16),
        )
    }
}

/// Whether `c` is a lower-case hexadecimal digit.
pub open spec fn is_lower_hex(c: char) -> bool {
    ('0' <= c <= '9') || ('a' <= c <= 'f')
}

/// The MD5 digest of `data` (16 bytes).
pub uninterp spec fn md5_digest(data: Seq<u8>) -> Seq<u8>;

/// Computes the MD5 digest with the `md-5` crate. Trusted: the result is the
/// 16-byte digest of exactly these bytes.
#[verifier::external_body]
fn md5_raw(data: &[u8]) -> (r: Vec<u8>)
    ensures
        r@ == md5_digest(data@),
        r@.len() == 16,
{
    ::md5::Md5::digest(data).to_vec()
}

fn hex_digit_exec(n: u8) -> (c: char)
    requires
        n < 16,
    ensures
        c == hex_digit(n as int),
{
    if n < 10 {
        (48u8 + n) as char
    } else {
        (87u8 + n) as char
    }
}

/// Lower-case hexadecimal text of `bytes`.
pub fn hex_lower(bytes: &Vec<u8>) -> (r: String)
    ensures
        r@ == hex_lower_spec(bytes@),
        r@.len() == 2 * bytes@.len(),
{
    let mut out: Vec<char> = Vec::new();
    let mut i: usize = 0;
    while i < bytes.len()
        invariant
            i <= bytes.len(),
            out@ == hex_lower_spec(bytes@.take(i as int)),
            out@.len() == 2 * i,
        decreases bytes.len() - i,
    {
        let b = bytes[i];
        assert(bytes@.take(i as int + 1).drop_last() =~= bytes@.take(i as int));
        out.push(hex_digit_exec(b / 16));
        out.push(hex_digit_exec(b % 16));
        i = i + 1;
    }
    assert(bytes@.take(bytes.len() as int) =~= bytes@);
    string_from_chars(&out)
}

/// MD5 of the UTF-8 bytes of `data`, as 32 lower-case hexadecimal digits.
pub fn md5(data: &str) -> (r: String)
    ensures
        r@ == hex_lower_spec(md5_digest(data.spec_bytes())),
        r@.len() == 32,
{
    md5_bytes(data.as_bytes())
}

/// MD5 of `data`, as 32 lower-case hexadecimal digits.
pub fn md5_bytes(data: &[u8]) -> (r: String)
    ensures
        r@ == hex_lower_spec(md5_digest(data@)),
        r@.len() == 32,
{
    let d = md5_raw(data);
    hex_lower(&d)
}

/// The shape of a hyphenated version-4 UUID: 36 characters, hyphens at 8, 13,
/// 18 and 23, lower-case hexadecimal elsewhere, version digit `4` at 14, variant digit at 19.
pub open spec fn is_hyphenated_v4(s: Seq<char>) -> bool {
    &&& s.len() == 36
    &&& forall|i: int|
        0 <= i < 36 ==> if i == 8 || i == 13 || i == 18 || i == 23 {
            #[trigger] s[i] == '-'
        } else {
            is_lower_hex(s[i])
        }
    &&& s[14] == '4'
    &&& is_variant_digit(s[19])
}

/// The shape of a simple version-4 UUID: 32 lower-case hexadecimal digits,
/// version digit `4` at 12, variant digit at 16.
pub open spec fn is_simple_v4(s: Seq<char>) -> bool {
    &&& s.len() == 32
    &&& forall|i: int| 0 <= i < 32 ==> is_lower_hex(#[trigger] s[i])
    &&& s[12] == '4'
    &&& is_variant_digit(s[16])
}

/// The digit that carries the RFC 4122 variant: `8`, `9`, `a` or `b`.
pub open spec fn is_variant_digit(c: char) -> bool {
    c == '8' || c == '9' || c == 'a' || c == 'b'
}

/// A fresh random UUID from `uuid::Uuid::new_v4()` in hyphenated form.
/// Trusted: the text has the documented hyphenated lower-case shape of a
/// version-4 UUID; which UUID comes out is random.
#[verifier::external_body]
fn new_uuid_hyphenated() -> (r: String)
    ensures
        is_hyphenated_v4(r@),
{
    ::uuid::Uuid::new_v4().to_string()
}

/// A fresh random UUID from `uuid::Uuid::new_v4()` in simple form.
/// Trusted: the text has the documented simple lower-case shape of a
/// version-4 UUID; which UUID comes out is random.
#[verifier::external_body]
fn new_uuid_simple() -> (r: String)
    ensures
        is_simple_v4(r@),
{
    ::uuid::Uuid::new_v4().simple().to_string()
}

/// A random version-4 UUID, hyphenated.
pub fn uuid() -> (r: String)
    ensures
        is_hyphenated_v4(r@),
{
    new_uuid_hyphenated()
}

/// A random version-4 UUID without hyphens.
pub fn uuid_simple() -> (r: String)
    ensures
        is_simple_v4(r@),
{
    new_uuid_simple()
}

// ---------------------------------------------------------------- random text

/// The 62 characters random strings are drawn from: `A-Z`, `a-z`, `0-9`.
pub open spec fn is_charset_char(c: char) -> bool {
    is_ascii_upper(c) || is_ascii_lower(c) || ('0' <= c <= '9')
}

/// A uniformly random index below `n` from the thread-local generator
/// (`rand::rng().random_range(0..n)`). Trusted: the index is below `n`.
#[verifier::external_body]
fn random_below(n: usize) -> (r: usize)
    requires
        n > 0,
    ensures
        r < n,
{
    rand::rng().random_range(0..n)
}

/// The `i`-th character of `A-Za-z0-9`.
fn charset_at(i: usize) -> (c: char)
    requires
        i < 62,
    ensures
        is_charset_char(c),
{
    let b: u8 = i as u8;
    if b < 26 {
        (65u8 + b) as char
    } else if b < 52 {
        (97u8 + (b - 26)) as char
    } else {
        (48u8 + (b - 52)) as char
    }
}

/// A random string of `len` characters drawn from `A-Za-z0-9`.
pub fn random_string(len: usize) -> (r: String)
    ensures
        r@.len() == len,
        forall|i: int| 0 <= i < len ==> is_charset_char(#[trigger] r@[i]),
{
    let mut out: Vec<char> = Vec::new();
    let mut i: usize = 0;
    while i < len
        invariant
            i <= len,
            out@.len() == i,
            forall|j: int| 0 <= j < i ==> is_charset_char(#[trigger] out@[j]),
        decreases len - i,
    {
        let idx = random_below(62);
        out.push(charset_at(idx));
        i = i + 1;
    }
    string_from_chars(&out)
}

/// A random string of `len` decimal digits.
pub fn random_number_string(len: usize) -> (r: String)
    ensures
        r@.len() == len,
        forall|i: int| 0 <= i < len ==> '0' <= #[trigger] r@[i] <= '9',
{
    let mut out: Vec<char> = Vec::new();
    let mut i: usize = 0;
    while i < len
        invariant
            i <= len,
            out@.len() == i,
            forall|j: int| 0 <= j < i ==> '0' <= #[trigger] out@[j] <= '9',
        decreases len - i,
    {
        let d = random_below(10) as u8;
        out.push((48u8 + d) as char);
        i = i + 1;
    }
    string_from_chars(&out)
}

} // verus!
