//! String helpers: blank checks, byte truncation, replacement, tag stripping.

use vstd::prelude::*;
use vstd::string::StringSliceAdditionalSpecFns;
use vstd::utf8::is_char_boundary;
use crate::text::{
    char_is_ws, chars_of, is_ws, matches_at, occurs_at, string_from_chars, to_owned_string,
};
use crate::util::{capitalize_spec, uncapitalize_spec};

verus! {

/// Whether every character of `s` is whitespace (so `s.trim()` is empty).
pub open spec fn is_blank_spec(s: Seq<char>) -> bool {
    forall|i: int| 0 <= i < s.len() ==> is_ws(#[trigger] s[i])
}

/// Whether `s` is empty or only whitespace.
pub fn is_blank(s: &str) -> (b: bool)
    ensures
        b == is_blank_spec(s@),
{
    let cs = chars_of(s);
    let mut i: usize = 0;
    while i < cs.len()
        invariant
            cs@ == s@,
            i <= cs.len(),
            forall|j: int| 0 <= j < i ==> is_ws(#[trigger] s@[j]),
        decreases cs.len() - i,
    {
        if !char_is_ws(cs[i]) {
            return false;
        }
        i = i + 1;
    }
    true
}

/// Whether `s` holds a non-whitespace character.
pub fn is_not_blank(s: &str) -> (b: bool)
    ensures
        b == !is_blank_spec(s@),
{
    !is_blank(s)
}

/// The first `max_len` bytes of `s` (all of `s` when it is shorter). The cut
/// must fall on a character boundary, as slicing a `str` demands.
pub fn truncate(s: &str, max_len: usize) -> (r: &str)
    requires
        s.spec_bytes().len() <= usize::MAX,
        s.spec_bytes().len() <= max_len || is_char_boundary(s.spec_bytes(), max_len as int),
    ensures
        s.spec_bytes().len() <= max_len ==> r@ == s@,
        s.spec_bytes().len() > max_len ==> r.spec_bytes() == s.spec_bytes().subrange(
            0,
            max_len as int,
        ),
{
    if s.len() <= max_len {
        s
    } else {
        let parts = s.split_at(max_len);
        assert(parts.0.spec_bytes() =~= s.spec_bytes().subrange(0, max_len as int));
        parts.0
    }
}

/// `str::replace` with a non-empty pattern: matches are taken from the left
/// and do not overlap.
pub open spec fn replace_nonempty(s: Seq<char>, from: Seq<char>, to: Seq<char>) -> Seq<char>
    recommends
        from.len() > 0,
    decreases s.len(),
    when from.len() > 0
{
    if s.len() == 0 {
        seq![]
    } else if occurs_at(s, from, 0) {
        to + replace_nonempty(s.skip(from.len() as int), from, to)
    } else {
        seq![s[0]] + replace_nonempty(s.skip(1), from, to)
    }
}

/// `str::replace` with an empty pattern: `to` before every character and at the end.
pub open spec fn replace_empty(s: Seq<char>, to: Seq<char>) -> Seq<char>
    decreases s.len(),
{
    if s.len() == 0 {
        to
    } else {
        to + seq![s[0]] + replace_empty(s.skip(1), to)
    }
}

/// What `s.replace(from, to)` gives.
pub open spec fn replace_spec(s: Seq<char>, from: Seq<char>, to: Seq<char>) -> Seq<char> {
    if from.len() == 0 {
        replace_empty(s, to)
    } else {
        replace_nonempty(s, from, to)
    }
}

fn push_all(out: &mut Vec<char>, b: &Vec<char>)
    ensures
        final(out)@ == old(out)@ + b@,
{
    let mut i: usize = 0;
    while i < b.len()
        invariant
            i <= b.len(),
            out@ == old(out)@ + b@.take(i as int),
        decreases b.len() - i,
    {
        out.push(b[i]);
        assert(b@.take(i as int + 1) =~= b@.take(i as int).push(b@[i as int]));
        i = i + 1;
    }
    assert(b@.take(b.len() as int) =~= b@);
}

proof fn lemma_skip_skip(s: Seq<char>, a: int, b: int)
    requires
        0 <= a,
        0 <= b,
        a + b <= s.len(),
    ensures
        s.skip(a).skip(b) =~= s.skip(a + b),
{
}

/// Replaces every occurrence of `from` in `s` with `to`, as `str::replace` does.
pub fn replace_all(s: &str, from: &str, to: &str) -> (r: String)
    ensures
        r@ == replace_spec(s@, from@, to@),
{
    let cs = chars_of(s);
    let fs = chars_of(from);
    let ts = chars_of(to);
    let mut out: Vec<char> = Vec::new();
    let mut i: usize = 0;
    assert(s@.skip(0) =~= s@);
    if fs.len() == 0 {
        while i < cs.len()
            invariant
                cs@ == s@,
                ts@ == to@,
                i <= cs.len(),
                out@ + replace_empty(s@.skip(i as int), to@) == replace_empty(s@, to@),
            decreases cs.len() - i,
        {
            let ghost rest = s@.skip(i as int);
            proof {
                lemma_skip_skip(s@, i as int, 1);
            }
            assert(rest[0] == cs@[i as int]);
            assert(replace_empty(rest, to@) == to@ + seq![rest[0]] + replace_empty(
                rest.skip(1),
                to@,
            ));
            let ghost before = out@;
            push_all(&mut out, &ts);
            out.push(cs[i]);
            assert(out@ =~= before + to@ + seq![rest[0]]);
            i = i + 1;
        }
        assert(s@.skip(cs.len() as int) =~= Seq::<char>::empty());
        push_all(&mut out, &ts);
        return string_from_chars(&out);
    }
    while i < cs.len()
        invariant
            cs@ == s@,
            fs@ == from@,
            ts@ == to@,
            fs.len() > 0,
            i <= cs.len(),
            out@ + replace_nonempty(s@.skip(i as int), from@, to@) == replace_nonempty(
                s@,
                from@,
                to@,
            ),
        decreases cs.len() - i,
    {
        let ghost rest = s@.skip(i as int);
        if matches_at(&cs, &fs, i) {
            assert(rest.subrange(0, from@.len() as int) =~= s@.subrange(
                i as int,
                i + from@.len(),
            ));
            assert(occurs_at(rest, from@, 0));
            proof {
                lemma_skip_skip(s@, i as int, from@.len() as int);
            }
            push_all(&mut out, &ts);
            i = i + fs.len();
        } else {
            assert(!occurs_at(rest, from@, 0)) by {
                if occurs_at(rest, from@, 0) {
                    assert(rest.subrange(0, from@.len() as int) =~= s@.subrange(
                        i as int,
                        i + from@.len(),
                    ));
                }
            }
            proof {
                lemma_skip_skip(s@, i as int, 1);
            }
            assert(rest[0] == cs@[i as int]);
            out.push(cs[i]);
            i = i + 1;
        }
    }
    assert(s@.skip(cs.len() as int) =~= Seq::<char>::empty());
    string_from_chars(&out)
}

/// Upper-cases the first character.
pub fn capitalize(s: &str) -> (r: String)
    ensures
        r@ == capitalize_spec(s@),
{
    crate::util::capitalize(s)
}

/// Lower-cases the first character.
pub fn uncapitalize(s: &str) -> (r: String)
    ensures
        r@ == uncapitalize_spec(s@),
{
    crate::util::uncapitalize(s)
}

/// What `regex` gives for replacing every match of `pattern` in `text` with
/// `rep`: `None` where the pattern does not compile.
pub uninterp spec fn regex_replace(pattern: Seq<char>, text: Seq<char>, rep: Seq<char>) -> Option<Seq<char>>;

/// Compiles `pattern` with `regex::Regex::new` and replaces every match in
/// `text` with `rep` (`Regex::replace_all`). Trusted: `None` exactly where the
/// pattern does not compile; the result depends on the three texts alone.
#[verifier::external_body]
fn regex_replace_all(pattern: &str, text: &str, rep: &str) -> (r: Option<String>)
    ensures
        crate::attr::opt_view(r) == regex_replace(pattern@, text@, rep@),
{
    match regex::Regex::new(pattern) {
        Ok(re) => Some(re.replace_all(text, rep).to_string()),
        Err(_) => None,
    }
}

/// The pattern of an HTML tag: `<`, anything but `>`, then `>`.
pub const TAG_PATTERN: &'static str = "<[^>]*>";

/// Removes HTML tags from `s`: every match of the tag pattern is replaced by
/// nothing.
pub fn strip_html(s: &str) -> (r: String)
    requires
        regex_replace(TAG_PATTERN@, s@, ""@) is Some,
    ensures
        regex_replace(TAG_PATTERN@, s@, ""@) == Some(r@),
{
    regex_replace_all(TAG_PATTERN, s, "").unwrap()
}

/// `s` without its HTML tags, or `None` where the tag pattern does not compile.
pub fn try_strip_html(s: &str) -> (r: Option<String>)
    ensures
        crate::attr::opt_view(r) == regex_replace(TAG_PATTERN@, s@, ""@),
{
    match regex_replace_all(TAG_PATTERN, s, "") {
        Some(_) => Some(strip_html(s)),
        None => None,
    }
}

} // verus!
