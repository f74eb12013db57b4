//! Scanning primitives over character sequences: trimming, prefix stripping,
//! splitting at the first separator and decimal number parsing, each stated
//! as the `str` method it stands for.

use vstd::prelude::*;
use crate::text::{is_ws, is_ascii_digit, char_is_ws, split_spec, split_char, views};

verus! {

/// `s` with every leading character that satisfies `p` removed.
pub open spec fn trim_start_by(s: Seq<char>, p: spec_fn(char) -> bool) -> Seq<char>
    decreases s.len(),
{
    if s.len() > 0 && p(s[0]) {
        trim_start_by(s.drop_first(), p)
    } else {
        s
    }
}

/// `s` with every trailing character that satisfies `p` removed.
pub open spec fn trim_end_by(s: Seq<char>, p: spec_fn(char) -> bool) -> Seq<char>
    decreases s.len(),
{
    if s.len() > 0 && p(s.last()) {
        trim_end_by(s.drop_last(), p)
    } else {
        s
    }
}

/// The whitespace test as a predicate.
pub open spec fn ws_pred() -> spec_fn(char) -> bool {
    |c: char| is_ws(c)
}

/// The test for one given character as a predicate.
pub open spec fn char_pred(c: char) -> spec_fn(char) -> bool {
    |x: char| x == c
}

/// `str::trim`: leading and trailing whitespace removed.
pub open spec fn trim(s: Seq<char>) -> Seq<char> {
    trim_end_by(trim_start_by(s, ws_pred()), ws_pred())
}

/// `str::trim_matches(c)`: leading and trailing runs of `c` removed.
pub open spec fn trim_char(s: Seq<char>, c: char) -> Seq<char> {
    trim_end_by(trim_start_by(s, char_pred(c)), char_pred(c))
}

/// The text of a quoted argument value: trimmed, then stripped of double quotes.
pub open spec fn unquote(s: Seq<char>) -> Seq<char> {
    trim_char(trim(s), '"')
}

proof fn lemma_trim_start_step(s: Seq<char>, p: spec_fn(char) -> bool, i: int)
    requires
        0 <= i < s.len(),
        p(s[i]),
    ensures
        trim_start_by(s.subrange(i, s.len() as int), p) == trim_start_by(
            s.subrange(i + 1, s.len() as int),
            p,
        ),
{
    assert(s.subrange(i, s.len() as int).drop_first() =~= s.subrange(i + 1, s.len() as int));
}

proof fn lemma_trim_end_step(s: Seq<char>, p: spec_fn(char) -> bool, a: int, j: int)
    requires
        0 <= a < j <= s.len(),
        p(s[j - 1]),
    ensures
        trim_end_by(s.subrange(a, j), p) == trim_end_by(s.subrange(a, j - 1), p),
{
    assert(s.subrange(a, j).drop_last() =~= s.subrange(a, j - 1));
}

/// The bounds `(a, b)` such that `s[a..b]` is `s` with leading characters
/// satisfying `p` and then trailing ones removed.
fn trim_bounds_ws(s: &Vec<char>) -> (r: (usize, usize))
    ensures
        r.0 <= r.1 <= s.len(),
        s@.subrange(r.0 as int, r.1 as int) == trim(s@),
{
    let n = s.len();
    let mut a: usize = 0;
    assert(s@.subrange(0, n as int) =~= s@);
    while a < n && char_is_ws(s[a])
        invariant
            n == s.len(),
            a <= n,
            trim_start_by(s@.subrange(a as int, n as int), ws_pred()) == trim_start_by(s@, ws_pred()),
        decreases n - a,
    {
        proof {
            lemma_trim_start_step(s@, ws_pred(), a as int);
        }
        a = a + 1;
    }
    assert(s@.subrange(0, n as int) =~= s@);
    let ghost t = trim_start_by(s@, ws_pred());
    assert(t == s@.subrange(a as int, n as int)) by {
        if a < n {
            assert(!ws_pred()(s@.subrange(a as int, n as int)[0]));
        } else {
            assert(s@.subrange(a as int, n as int).len() == 0);
        }
    }
    let mut b: usize = n;
    while b > a && char_is_ws(s[b - 1])
        invariant
            n == s.len(),
            a <= b <= n,
            t == s@.subrange(a as int, n as int),
            trim_end_by(s@.subrange(a as int, b as int), ws_pred()) == trim_end_by(t, ws_pred()),
        decreases b - a,
    {
        proof {
            lemma_trim_end_step(s@, ws_pred(), a as int, b as int);
        }
        b = b - 1;
    }
    assert(s@.subrange(a as int, b as int) == trim_end_by(t, ws_pred())) by {
        if b > a {
            assert(s@.subrange(a as int, b as int).last() == s@[b - 1]);
        }
    }
    (a, b)
}

/// The characters `s[a..b]` as a new vector.
pub fn slice_chars(s: &Vec<char>, a: usize, b: usize) -> (r: Vec<char>)
    requires
        a <= b <= s.len(),
    ensures
        r@ == s@.subrange(a as int, b as int),
{
    let mut r: Vec<char> = Vec::new();
    let mut i: usize = a;
    while i < b
        invariant
            a <= i <= b <= s.len(),
            r@ == s@.subrange(a as int, i as int),
        decreases b - i,
    {
        r.push(s[i]);
        assert(s@.subrange(a as int, i + 1) =~= s@.subrange(a as int, i as int).push(s@[i as int]));
        i = i + 1;
    }
    r
}

/// `str::trim` on a character vector.
pub fn trim_ws(s: &Vec<char>) -> (r: Vec<char>)
    ensures
        r@ == trim(s@),
{
    let (a, b) = trim_bounds_ws(s);
    slice_chars(s, a, b)
}

/// `str::trim_matches(c)` on a character vector.
pub fn trim_matches(s: &Vec<char>, c: char) -> (r: Vec<char>)
    ensures
        r@ == trim_char(s@, c),
{
    let n = s.len();
    let mut a: usize = 0;
    assert(s@.subrange(0, n as int) =~= s@);
    while a < n && s[a] == c
        invariant
            n == s.len(),
            a <= n,
            trim_start_by(s@.subrange(a as int, n as int), char_pred(c)) == trim_start_by(
                s@,
                char_pred(c),
            ),
        decreases n - a,
    {
        proof {
            lemma_trim_start_step(s@, char_pred(c), a as int);
        }
        a = a + 1;
    }
    assert(s@.subrange(0, n as int) =~= s@);
    let ghost t = trim_start_by(s@, char_pred(c));
    assert(t == s@.subrange(a as int, n as int)) by {
        if a < n {
            assert(!char_pred(c)(s@.subrange(a as int, n as int)[0]));
        } else {
            assert(s@.subrange(a as int, n as int).len() == 0);
        }
    }
    let mut b: usize = n;
    while b > a && s[b - 1] == c
        invariant
            n == s.len(),
            a <= b <= n,
            t == s@.subrange(a as int, n as int),
            trim_end_by(s@.subrange(a as int, b as int), char_pred(c)) == trim_end_by(
                t,
                char_pred(c),
            ),
        decreases b - a,
    {
        proof {
            lemma_trim_end_step(s@, char_pred(c), a as int, b as int);
        }
        b = b - 1;
    }
    assert(s@.subrange(a as int, b as int) == trim_end_by(t, char_pred(c))) by {
        if b > a {
            assert(s@.subrange(a as int, b as int).last() == s@[b - 1]);
        }
    }
    slice_chars(s, a, b)
}

/// A quoted argument value: trimmed, then stripped of double quotes.
pub fn unquote_chars(s: &Vec<char>) -> (r: Vec<char>)
    ensures
        r@ == unquote(s@),
{
    let t = trim_ws(s);
    trim_matches(&t, '"')
}

/// Whether `i` is where `c` first occurs in `s`.
pub open spec fn is_first_index(s: Seq<char>, c: char, i: int) -> bool {
    0 <= i < s.len() && s[i] == c && forall|j: int| 0 <= j < i ==> s[j] != c
}

/// The index of the first `c` in `s`, if any (`str::find` with a character).
pub open spec fn find_char(s: Seq<char>, c: char) -> Option<int> {
    if s.contains(c) {
        Some(choose|i: int| is_first_index(s, c, i))
    } else {
        None
    }
}

/// Finds the first `c` in `s`.
pub fn find_char_index(s: &Vec<char>, c: char) -> (r: Option<usize>)
    ensures
        match find_char(s@, c) {
            Some(i) => r == Some(i as usize),
            None => r is None,
        },
        match r {
            Some(i) => is_first_index(s@, c, i as int),
            None => !s@.contains(c),
        },
{
    let mut i: usize = 0;
    while i < s.len()
        invariant
            i <= s.len(),
            forall|j: int| 0 <= j < i ==> s@[j] != c,
        decreases s.len() - i,
    {
        if s[i] == c {
            proof {
                assert(is_first_index(s@, c, i as int));
                assert(s@.contains(c));
                let k = choose|k: int| is_first_index(s@, c, k);
                assert(k == i) by {
                    if k < i {
                        assert(s@[k] != c);
                    } else if k > i {
                        assert(s@[i as int] != c);
                    }
                }
            }
            return Some(i);
        }
        i = i + 1;
    }
    assert(!s@.contains(c));
    None
}

/// `str::split_once(c)`: the text before and after the first `c`.
pub open spec fn split_once(s: Seq<char>, c: char) -> Option<(Seq<char>, Seq<char>)> {
    match find_char(s, c) {
        Some(i) => Some((s.take(i), s.skip(i + 1))),
        None => None,
    }
}

/// Splits `s` at its first `c`.
pub fn split_once_chars(s: &Vec<char>, c: char) -> (r: Option<(Vec<char>, Vec<char>)>)
    ensures
        match split_once(s@, c) {
            Some(p) => r matches Some(q) && q.0@ == p.0 && q.1@ == p.1,
            None => r is None,
        },
{
    match find_char_index(s, c) {
        Some(i) => {
            let before = slice_chars(s, 0, i);
            let after = slice_chars(s, i + 1, s.len());
            assert(s@.take(i as int) =~= s@.subrange(0, i as int));
            assert(s@.skip(i + 1) =~= s@.subrange(i + 1, s.len() as int));
            Some((before, after))
        },
        None => None,
    }
}

/// `str::strip_prefix(pat)`.
pub open spec fn strip_prefix(s: Seq<char>, pat: Seq<char>) -> Option<Seq<char>> {
    if pat.len() <= s.len() && s.take(pat.len() as int) == pat {
        Some(s.skip(pat.len() as int))
    } else {
        None
    }
}

/// Strips `pat` from the front of `s`.
pub fn strip_prefix_chars(s: &Vec<char>, pat: &Vec<char>) -> (r: Option<Vec<char>>)
    ensures
        match strip_prefix(s@, pat@) {
            Some(t) => r is Some && r->0@ == t,
            None => r is None,
        },
{
    if pat.len() > s.len() {
        return None;
    }
    let mut k: usize = 0;
    while k < pat.len()
        invariant
            pat.len() <= s.len(),
            k <= pat.len(),
            forall|j: int| 0 <= j < k ==> s@[j] == pat@[j],
        decreases pat.len() - k,
    {
        if s[k] != pat[k] {
            assert(s@.take(pat.len() as int)[k as int] != pat@[k as int]);
            return None;
        }
        k = k + 1;
    }
    assert(s@.take(pat.len() as int) =~= pat@);
    let rest = slice_chars(s, pat.len(), s.len());
    assert(rest@ =~= s@.skip(pat.len() as int));
    Some(rest)
}

/// The value of a run of decimal digits.
pub open spec fn digits_value(d: Seq<char>) -> nat
    decreases d.len(),
{
    if d.len() == 0 {
        0
    } else {
        digits_value(d.drop_last()) * 10 + ((d.last() as u32) - ('0' as u32)) as nat
    }
}

/// Whether every character of `d` is a decimal digit.
pub open spec fn all_digits(d: Seq<char>) -> bool {
    forall|i: int| 0 <= i < d.len() ==> is_ascii_digit(#[trigger] d[i])
}

/// The digits of an unsigned number: `s` without one leading `+`.
pub open spec fn unsigned_body(s: Seq<char>) -> Seq<char> {
    if s.len() > 0 && s[0] == '+' {
        s.drop_first()
    } else {
        s
    }
}

/// What `str::parse` gives for an unsigned integer type whose largest value is
/// `max`: an optional `+`, then at least one digit and nothing else, and a value
/// that fits.
pub open spec fn parse_unsigned(s: Seq<char>, max: nat) -> Option<nat> {
    let d = unsigned_body(s);
    if d.len() > 0 && all_digits(d) && digits_value(d) <= max {
        Some(digits_value(d))
    } else {
        None
    }
}

/// What `str::parse` gives for a signed integer type ranging over
/// `-(max + 1) ..= max`: an optional sign, then digits as for unsigned.
pub open spec fn parse_signed(s: Seq<char>, max: nat) -> Option<int> {
    if s.len() > 0 && s[0] == '-' {
        let d = s.drop_first();
        if d.len() > 0 && all_digits(d) && digits_value(d) <= max + 1 {
            Some(-(digits_value(d) as int))
        } else {
            None
        }
    } else {
        match parse_unsigned(s, max) {
            Some(v) => Some(v as int),
            None => None,
        }
    }
}

proof fn lemma_digits_prefix(d: Seq<char>, i: int)
    requires
        0 <= i <= d.len(),
        all_digits(d),
    ensures
        digits_value(d.take(i)) <= digits_value(d),
    decreases d.len() - i,
{
    if i < d.len() {
        lemma_digits_prefix(d, i + 1);
        assert(d.take(i + 1).drop_last() =~= d.take(i));
        assert(is_ascii_digit(d[i]));
    } else {
        assert(d.take(i) =~= d);
    }
}

/// Parses the digits `d[start..]` into a `u64`, `None` where a character is no
/// digit, there is none, or the value exceeds `u64::MAX`.
fn parse_digits(d: &Vec<char>, start: usize) -> (r: Option<u64>)
    requires
        start <= d.len(),
    ensures
        ({
            let t = d@.skip(start as int);
            match r {
                Some(v) => t.len() > 0 && all_digits(t) && v == digits_value(t),
                None => !(t.len() > 0 && all_digits(t) && digits_value(t) <= u64::MAX),
            }
        }),
{
    let ghost t = d@.skip(start as int);
    if start == d.len() {
        return None;
    }
    let mut v: u64 = 0;
    let mut i: usize = start;
    while i < d.len()
        invariant
            start < d.len(),
            start <= i <= d.len(),
            t == d@.skip(start as int),
            all_digits(t.take(i - start)),
            v == digits_value(t.take(i - start)),
        decreases d.len() - i,
    {
        let c = d[i];
        assert(t[i - start] == c);
        if !('0' <= c && c <= '9') {
            assert(!all_digits(t));
            return None;
        }
        let dv: u64 = ((c as u32) - ('0' as u32)) as u64;
        assert(t.take(i - start + 1).drop_last() =~= t.take(i - start));
        assert(t.take(i - start + 1).last() == c);
        let m = v.checked_mul(10);
        match m {
            None => {
                proof {
                    if all_digits(t) {
                        lemma_digits_prefix(t, i - start + 1);
                    }
                }
                return None;
            },
            Some(m) => {
                let a = m.checked_add(dv);
                match a {
                    None => {
                        proof {
                            if all_digits(t) {
                                lemma_digits_prefix(t, i - start + 1);
                            }
                        }
                        return None;
                    },
                    Some(a) => {
                        v = a;
                    },
                }
            },
        }
        i = i + 1;
    }
    assert(t.take(i - start) =~= t);
    Some(v)
}

/// `str::parse::<u64>` on a character vector.
pub fn parse_u64(s: &Vec<char>) -> (r: Option<u64>)
    ensures
        match parse_unsigned(s@, u64::MAX as nat) {
            Some(v) => r == Some(v as u64),
            None => r is None,
        },
{
    let start: usize = if s.len() > 0 && s[0] == '+' { 1 } else { 0 };
    assert(unsigned_body(s@) =~= s@.skip(start as int));
    parse_digits(s, start)
}

/// `str::parse::<u32>` on a character vector.
pub fn parse_u32(s: &Vec<char>) -> (r: Option<u32>)
    ensures
        match parse_unsigned(s@, u32::MAX as nat) {
            Some(v) => r == Some(v as u32),
            None => r is None,
        },
{
    match parse_u64(s) {
        Some(v) => {
            if v <= u32::MAX as u64 {
                Some(v as u32)
            } else {
                None
            }
        },
        None => None,
    }
}

/// `str::parse::<usize>` on a character vector.
pub fn parse_usize(s: &Vec<char>) -> (r: Option<usize>)
    ensures
        match parse_unsigned(s@, usize::MAX as nat) {
            Some(v) => r == Some(v as usize),
            None => r is None,
        },
{
    match parse_u64(s) {
        Some(v) => {
            if v as u128 <= usize::MAX as u128 {
                Some(v as usize)
            } else {
                None
            }
        },
        None => {
            assert(usize::MAX <= u64::MAX);
            None
        },
    }
}

/// `str::parse::<i32>` on a character vector.
pub fn parse_i32(s: &Vec<char>) -> (r: Option<i32>)
    ensures
        match parse_signed(s@, i32::MAX as nat) {
            Some(v) => r == Some(v as i32),
            None => r is None,
        },
{
    if s.len() > 0 && s[0] == '-' {
        let m = parse_digits(s, 1);
        assert(s@.drop_first() =~= s@.skip(1));
        match m {
            Some(v) => {
                if v <= 2147483648 {
                    let w: i64 = -(v as i64);
                    Some(w as i32)
                } else {
                    None
                }
            },
            None => None,
        }
    } else {
        match parse_u64(s) {
            Some(v) => {
                if v <= 2147483647 {
                    Some(v as i32)
                } else {
                    None
                }
            },
            None => None,
        }
    }
}

/// `str::parse::<i64>` on a character vector.
pub fn parse_i64(s: &Vec<char>) -> (r: Option<i64>)
    ensures
        match parse_signed(s@, i64::MAX as nat) {
            Some(v) => r == Some(v as i64),
            None => r is None,
        },
{
    if s.len() > 0 && s[0] == '-' {
        let m = parse_digits(s, 1);
        assert(s@.drop_first() =~= s@.skip(1));
        match m {
            Some(v) => {
                if v <= 9223372036854775808 {
                    if v == 9223372036854775808 {
                        Some(i64::MIN)
                    } else {
                        Some(-(v as i64))
                    }
                } else {
                    None
                }
            },
            None => None,
        }
    } else {
        match parse_u64(s) {
            Some(v) => {
                if v <= 9223372036854775807 {
                    Some(v as i64)
                } else {
                    None
                }
            },
            None => None,
        }
    }
}

/// The pieces of `s` split at `sep`, each trimmed, empty ones left out.
pub open spec fn trimmed_nonempty(pieces: Seq<Seq<char>>) -> Seq<Seq<char>>
    decreases pieces.len(),
{
    if pieces.len() == 0 {
        seq![]
    } else {
        let prev = trimmed_nonempty(pieces.drop_last());
        let t = trim(pieces.last());
        if t.len() > 0 {
            prev.push(t)
        } else {
            prev
        }
    }
}

/// `s.split(sep).map(str::trim).filter(|x| !x.is_empty())`.
pub open spec fn split_list(s: Seq<char>, sep: char) -> Seq<Seq<char>> {
    trimmed_nonempty(split_spec(s, sep))
}

/// The views of a vector of strings.
pub open spec fn string_views(v: Seq<String>) -> Seq<Seq<char>> {
    v.map_values(|x: String| x@)
}

/// Splits `s` at `sep`, trims each piece and keeps the non-empty ones, as strings.
pub fn split_trimmed(s: &Vec<char>, sep: char) -> (r: Vec<String>)
    ensures
        string_views(r@) == split_list(s@, sep),
{
    let pieces = split_char(s, sep);
    let mut out: Vec<String> = Vec::new();
    let mut i: usize = 0;
    while i < pieces.len()
        invariant
            i <= pieces.len(),
            views(pieces@) == split_spec(s@, sep),
            string_views(out@) == trimmed_nonempty(views(pieces@).take(i as int)),
        decreases pieces.len() - i,
    {
        let t = trim_ws(&pieces[i]);
        assert(views(pieces@).take(i + 1).drop_last() =~= views(pieces@).take(i as int));
        assert(views(pieces@).take(i + 1).last() == pieces@[i as int]@);
        if t.len() > 0 {
            let st = crate::text::string_from_chars(&t);
            let ghost before = out@;
            out.push(st);
            assert(string_views(out@) =~= string_views(before).push(st@));
        }
        i = i + 1;
    }
    assert(views(pieces@).take(pieces.len() as int) =~= views(pieces@));
    out
}

} // verus!
