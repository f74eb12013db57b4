//! Character-level building blocks shared by the string utilities and the
//! attribute parsers: whitespace, case mapping, splitting and trimming.

use vstd::prelude::*;

verus! {

/// The Unicode `White_Space` property, which is what `char::is_whitespace` tests.
pub open spec fn is_ws(c: char) -> bool {
    let u = c as u32;
    ||| 0x09 <= u <= 0x0d
    ||| u == 0x20
    ||| u == 0x85
    ||| u == 0xa0
    ||| u == 0x1680
    ||| 0x2000 <= u <= 0x200a
    ||| u == 0x2028
    ||| u == 0x2029
    ||| u == 0x202f
    ||| u == 0x205f
    ||| u == 0x3000
}

/// Whether `c` is in `'A'..='Z'`.
pub open spec fn is_ascii_upper(c: char) -> bool {
    'A' <= c <= 'Z'
}

/// Whether `c` is in `'a'..='z'`.
pub open spec fn is_ascii_lower(c: char) -> bool {
    'a' <= c <= 'z'
}

/// Whether `c` is an ASCII letter.
pub open spec fn is_ascii_alpha(c: char) -> bool {
    is_ascii_upper(c) || is_ascii_lower(c)
}

/// Whether `c` is an ASCII digit.
pub open spec fn is_ascii_digit(c: char) -> bool {
    '0' <= c <= '9'
}

/// Whether `c` is ASCII.
pub open spec fn is_ascii_char(c: char) -> bool {
    (c as u32) < 128
}

/// Whether every character of `s` is ASCII.
pub open spec fn all_ascii(s: Seq<char>) -> bool {
    forall|i: int| 0 <= i < s.len() ==> is_ascii_char(#[trigger] s[i])
}

/// The character 32 code points below an ASCII capital letter.
pub open spec fn ascii_to_lower(c: char) -> char {
    ((c as u32) + 32) as char
}

/// The character 32 code points above an ASCII small letter.
pub open spec fn ascii_to_upper(c: char) -> char {
    ((c as u32) - 32) as char
}

/// Whether a non-ASCII `c` has the Unicode `Uppercase` property.
pub uninterp spec fn unicode_is_uppercase(c: char) -> bool;

/// The first character that `char::to_lowercase` yields for a non-ASCII `c`.
pub uninterp spec fn unicode_lower_first(c: char) -> char;

/// The first character that `char::to_uppercase` yields for a non-ASCII `c`.
pub uninterp spec fn unicode_upper_first(c: char) -> char;

/// The characters that `char::to_uppercase` yields for a non-ASCII `c`.
pub uninterp spec fn unicode_upper_all(c: char) -> Seq<char>;

/// The characters that `char::to_lowercase` yields for a non-ASCII `c`.
pub uninterp spec fn unicode_lower_all(c: char) -> Seq<char>;

/// What `char::is_uppercase` answers: on ASCII exactly `'A'..='Z'`.
pub open spec fn is_upper_char(c: char) -> bool {
    if is_ascii_char(c) {
        is_ascii_upper(c)
    } else {
        unicode_is_uppercase(c)
    }
}

/// The first character of `char::to_lowercase`: on ASCII, capitals move down by 32.
pub open spec fn lower_first(c: char) -> char {
    if is_ascii_upper(c) {
        ascii_to_lower(c)
    } else if is_ascii_char(c) {
        c
    } else {
        unicode_lower_first(c)
    }
}

/// The first character of `char::to_uppercase`: on ASCII, small letters move up by 32.
pub open spec fn upper_first(c: char) -> char {
    if is_ascii_lower(c) {
        ascii_to_upper(c)
    } else if is_ascii_char(c) {
        c
    } else {
        unicode_upper_first(c)
    }
}

/// All characters of `char::to_uppercase`: one character on ASCII.
pub open spec fn upper_all(c: char) -> Seq<char> {
    if is_ascii_char(c) {
        seq![upper_first(c)]
    } else {
        unicode_upper_all(c)
    }
}

/// All characters of `char::to_lowercase`: one character on ASCII.
pub open spec fn lower_all(c: char) -> Seq<char> {
    if is_ascii_char(c) {
        seq![lower_first(c)]
    } else {
        unicode_lower_all(c)
    }
}

/// Calls `char::is_uppercase`. Trusted: the result is the Unicode `Uppercase`
/// property, which among ASCII characters exactly `'A'..='Z'` have.
#[verifier::external_body]
pub fn char_is_uppercase(c: char) -> (b: bool)
    ensures
        b == is_upper_char(c),
        !is_ascii_char(c) ==> b == unicode_is_uppercase(c),
{
    c.is_uppercase()
}

/// Calls `char::to_lowercase` and keeps its first character (it always yields
/// at least one). Trusted: on ASCII it maps `'A'..='Z'` to `'a'..='z'` and keeps
/// every other character.
#[verifier::external_body]
pub fn char_lower_first(c: char) -> (r: char)
    ensures
        r == lower_first(c),
        !is_ascii_char(c) ==> r == unicode_lower_first(c),
{
    c.to_lowercase().next().unwrap_or(c)
}

/// Calls `char::to_uppercase` and keeps its first character (it always yields
/// at least one). Trusted: on ASCII it maps `'a'..='z'` to `'A'..='Z'` and keeps
/// every other character.
#[verifier::external_body]
pub fn char_upper_first(c: char) -> (r: char)
    ensures
        r == upper_first(c),
        !is_ascii_char(c) ==> r == unicode_upper_first(c),
{
    c.to_uppercase().next().unwrap_or(c)
}

/// Calls `char::to_uppercase` and collects every character it yields.
/// Trusted: on ASCII it yields exactly one character, the one `char_upper_first` gives.
#[verifier::external_body]
pub fn char_upper_all(c: char) -> (r: Vec<char>)
    ensures
        r@ == upper_all(c),
        !is_ascii_char(c) ==> r@ == unicode_upper_all(c),
{
    c.to_uppercase().collect()
}

/// Calls `char::to_lowercase` and collects every character it yields.
/// Trusted: on ASCII it yields exactly one character, the one `char_lower_first` gives.
#[verifier::external_body]
pub fn char_lower_all(c: char) -> (r: Vec<char>)
    ensures
        r@ == lower_all(c),
        !is_ascii_char(c) ==> r@ == unicode_lower_all(c),
{
    c.to_lowercase().collect()
}

/// Builds a `String` from characters (`FromIterator<char>` for `String`).
/// Trusted: the string holds exactly these characters in order.
#[verifier::external_body]
pub fn string_from_chars(v: &Vec<char>) -> (s: String)
    ensures
        s@ == v@,
{
    v.iter().collect()
}

/// `char::is_whitespace`, written out over the code points of `White_Space`.
pub fn char_is_ws(c: char) -> (b: bool)
    ensures
        b == is_ws(c),
{
    let u = c as u32;
    (0x09 <= u && u <= 0x0d) || u == 0x20 || u == 0x85 || u == 0xa0 || u == 0x1680 || (0x2000
        <= u && u <= 0x200a) || u == 0x2028 || u == 0x2029 || u == 0x202f || u == 0x205f || u
        == 0x3000
}

/// The characters of `s`, in order.
pub fn chars_of(s: &str) -> (v: Vec<char>)
    ensures
        v@ == s@,
{
    let n = s.unicode_len();
    let mut v: Vec<char> = Vec::new();
    let mut i: usize = 0;
    while i < n
        invariant
            n == s@.len(),
            i <= n,
            v@ == s@.take(i as int),
        decreases n - i,
    {
        let c = s.get_char(i);
        v.push(c);
        assert(s@.take(i as int + 1) =~= s@.take(i as int).push(c));
        i = i + 1;
    }
    assert(s@.take(n as int) =~= s@);
    v
}

/// A copy of `s` as an owned string.
pub fn to_owned_string(s: &str) -> (r: String)
    ensures
        r@ == s@,
{
    String::from_str(s)
}

/// The views of a sequence of character vectors.
pub open spec fn views(v: Seq<Vec<char>>) -> Seq<Seq<char>> {
    v.map_values(|x: Vec<char>| x@)
}

/// `str::split` on a single character: the pieces between separators, always
/// at least one (the empty string gives one empty piece).
pub open spec fn split_spec(s: Seq<char>, sep: char) -> Seq<Seq<char>>
    decreases s.len(),
{
    if s.len() == 0 {
        seq![seq![]]
    } else {
        let prev = split_spec(s.drop_last(), sep);
        let c = s.last();
        if c == sep {
            prev.push(seq![])
        } else {
            prev.update(prev.len() - 1, prev.last().push(c))
        }
    }
}

pub proof fn lemma_split_nonempty(s: Seq<char>, sep: char)
    ensures
        split_spec(s, sep).len() >= 1,
    decreases s.len(),
{
    if s.len() > 0 {
        lemma_split_nonempty(s.drop_last(), sep);
    }
}

/// Splits `s` at every `sep`, as `str::split(sep)` does.
pub fn split_char(s: &Vec<char>, sep: char) -> (r: Vec<Vec<char>>)
    ensures
        views(r@) == split_spec(s@, sep),
{
    let mut pieces: Vec<Vec<char>> = Vec::new();
    let mut cur: Vec<char> = Vec::new();
    let mut i: usize = 0;
    while i < s.len()
        invariant
            i <= s.len(),
            views(pieces@).push(cur@) == split_spec(s@.take(i as int), sep),
        decreases s.len() - i,
    {
        let c = s[i];
        assert(s@.take(i as int + 1).drop_last() =~= s@.take(i as int));
        proof {
            lemma_split_nonempty(s@.take(i as int), sep);
        }
        let ghost before = views(pieces@).push(cur@);
        if c == sep {
            let done = cur;
            pieces.push(done);
            cur = Vec::new();
            assert(views(pieces@) =~= before);
            assert(views(pieces@).push(cur@) =~= before.push(seq![]));
        } else {
            cur.push(c);
            assert(views(pieces@).push(cur@) =~= before.update(
                before.len() - 1,
                before.last().push(c),
            ));
        }
        i = i + 1;
    }
    assert(s@.take(s.len() as int) =~= s@);
    pieces.push(cur);
    assert(views(pieces@) =~= split_spec(s@, sep));
    pieces
}

/// ASCII lower-casing of one character.
pub open spec fn ascii_lower_char(c: char) -> char {
    if is_ascii_upper(c) {
        ascii_to_lower(c)
    } else {
        c
    }
}

/// ASCII upper-casing of one character.
pub open spec fn ascii_upper_char(c: char) -> char {
    if is_ascii_lower(c) {
        ascii_to_upper(c)
    } else {
        c
    }
}

/// `str::to_lowercase` of a string that is not all ASCII.
pub uninterp spec fn unicode_str_lower(s: Seq<char>) -> Seq<char>;

/// `str::to_uppercase` of a string that is not all ASCII.
pub uninterp spec fn unicode_str_upper(s: Seq<char>) -> Seq<char>;

/// What `str::to_lowercase` gives: on ASCII text every capital moves down by 32.
pub open spec fn str_lower(s: Seq<char>) -> Seq<char> {
    if all_ascii(s) {
        s.map_values(|c: char| ascii_lower_char(c))
    } else {
        unicode_str_lower(s)
    }
}

/// What `str::to_uppercase` gives: on ASCII text every small letter moves up by 32.
pub open spec fn str_upper(s: Seq<char>) -> Seq<char> {
    if all_ascii(s) {
        s.map_values(|c: char| ascii_upper_char(c))
    } else {
        unicode_str_upper(s)
    }
}

/// Calls `str::to_lowercase`. Trusted: on ASCII text it lower-cases `A-Z` and
/// keeps every other character; other text goes by the Unicode tables.
#[verifier::external_body]
pub fn str_to_lowercase(s: &str) -> (r: String)
    ensures
        r@ == str_lower(s@),
        !all_ascii(s@) ==> r@ == unicode_str_lower(s@),
{
    s.to_lowercase()
}

/// Calls `str::to_uppercase`. Trusted: on ASCII text it upper-cases `a-z` and
/// keeps every other character; other text goes by the Unicode tables.
#[verifier::external_body]
pub fn str_to_uppercase(s: &str) -> (r: String)
    ensures
        r@ == str_upper(s@),
        !all_ascii(s@) ==> r@ == unicode_str_upper(s@),
{
    s.to_uppercase()
}

/// Whether two strings hold the same characters.
pub fn str_eq(a: &str, b: &str) -> (r: bool)
    ensures
        r == (a@ == b@),
{
    let x = chars_of(a);
    let y = chars_of(b);
    if x.len() != y.len() {
        return false;
    }
    let mut i: usize = 0;
    while i < x.len()
        invariant
            x@ == a@,
            y@ == b@,
            x.len() == y.len(),
            i <= x.len(),
            forall|j: int| 0 <= j < i ==> x@[j] == y@[j],
        decreases x.len() - i,
    {
        if x[i] != y[i] {
            return false;
        }
        i = i + 1;
    }
    assert(x@ =~= y@);
    true
}

/// Whether `s` contains the character `c`.
pub fn contains_char(s: &str, c: char) -> (r: bool)
    ensures
        r == s@.contains(c),
{
    let x = chars_of(s);
    let mut i: usize = 0;
    while i < x.len()
        invariant
            x@ == s@,
            i <= x.len(),
            forall|j: int| 0 <= j < i ==> x@[j] != c,
        decreases x.len() - i,
    {
        if x[i] == c {
            return true;
        }
        i = i + 1;
    }
    false
}

/// Whether `pat` occurs in `s` at position `i`.
pub open spec fn occurs_at(s: Seq<char>, pat: Seq<char>, i: int) -> bool {
    0 <= i && i + pat.len() <= s.len() && s.subrange(i, i + pat.len()) == pat
}

/// Whether `pat` occurs anywhere in `s` (`str::contains`).
pub open spec fn contains_seq(s: Seq<char>, pat: Seq<char>) -> bool {
    exists|i: int| occurs_at(s, pat, i)
}

/// Whether `s` begins with `pat` (`str::starts_with`).
pub open spec fn starts_with(s: Seq<char>, pat: Seq<char>) -> bool {
    occurs_at(s, pat, 0)
}

/// Whether `pat` occurs in `s` at `i`.
pub fn matches_at(s: &Vec<char>, pat: &Vec<char>, i: usize) -> (b: bool)
    requires
        i <= s.len(),
    ensures
        b == occurs_at(s@, pat@, i as int),
{
    if pat.len() > s.len() - i {
        return false;
    }
    let mut k: usize = 0;
    while k < pat.len()
        invariant
            i + pat.len() <= s.len(),
            k <= pat.len(),
            forall|j: int| 0 <= j < k ==> s@[i + j] == pat@[j],
        decreases pat.len() - k,
    {
        if s[i + k] != pat[k] {
            assert(s@.subrange(i as int, i + pat.len())[k as int] != pat@[k as int]);
            return false;
        }
        k = k + 1;
    }
    assert(s@.subrange(i as int, i + pat.len()) =~= pat@);
    true
}

/// Whether `pat` occurs in `s`, as `str::contains` answers.
pub fn str_contains(s: &str, pat: &str) -> (r: bool)
    ensures
        r == contains_seq(s@, pat@),
{
    let x = chars_of(s);
    let p = chars_of(pat);
    let mut i: usize = 0;
    while i < x.len()
        invariant
            x@ == s@,
            p@ == pat@,
            i <= x.len(),
            forall|j: int| 0 <= j < i ==> !occurs_at(s@, pat@, j),
        decreases x.len() - i,
    {
        if matches_at(&x, &p, i) {
            return true;
        }
        i = i + 1;
    }
    if matches_at(&x, &p, x.len()) {
        return true;
    }
    assert forall|j: int| !occurs_at(s@, pat@, j) by {
        if 0 <= j < i {
        }
    }
    false
}

/// Whether `s` begins with `pat`.
pub fn str_starts_with(s: &str, pat: &str) -> (r: bool)
    ensures
        r == starts_with(s@, pat@),
{
    let x = chars_of(s);
    let p = chars_of(pat);
    matches_at(&x, &p, 0)
}

/// The decimal digit character for `d < 10`.
pub open spec fn digit_char(d: int) -> char {
    ('0' as int + d) as char
}

/// Decimal text of a natural number, without leading zeros.
pub open spec fn nat_text(n: nat) -> Seq<char>
    decreases n,
{
    if n < 10 {
        seq![digit_char(n as int)]
    } else {
        nat_text(n / 10).push(digit_char((n % 10) as int))
    }
}

/// Decimal text of an integer, with a leading `-` when negative.
pub open spec fn int_text(i: int) -> Seq<char> {
    if i < 0 {
        seq!['-'] + nat_text((-i) as nat)
    } else {
        nat_text(i as nat)
    }
}

fn push_nat_text(out: &mut Vec<char>, n: u64)
    ensures
        final(out)@ == old(out)@ + nat_text(n as nat),
    decreases n,
{
    if n >= 10 {
        push_nat_text(out, n / 10);
    }
    let d: u8 = (n % 10) as u8;
    out.push((48u8 + d) as char);
    proof {
        if n < 10 {
            assert(final(out)@ =~= old(out)@ + nat_text(n as nat));
        } else {
            assert(final(out)@ =~= old(out)@ + nat_text(n as nat));
        }
    }
}

/// Decimal text of `n`, as `n.to_string()` gives.
pub fn u64_text(n: u64) -> (r: String)
    ensures
        r@ == nat_text(n as nat),
{
    let mut out: Vec<char> = Vec::new();
    push_nat_text(&mut out, n);
    assert(out@ =~= nat_text(n as nat));
    string_from_chars(&out)
}

/// Decimal text of `i`, as `i.to_string()` gives.
pub fn i64_text(i: i64) -> (r: String)
    ensures
        r@ == int_text(i as int),
{
    let mut out: Vec<char> = Vec::new();
    if i < 0 {
        out.push('-');
        let u: u64 = ((-(i + 1)) as u64) + 1;
        assert(u == -(i as int));
        push_nat_text(&mut out, u);
        assert(out@ =~= int_text(i as int));
    } else {
        push_nat_text(&mut out, i as u64);
        assert(out@ =~= int_text(i as int));
    }
    string_from_chars(&out)
}

/// The number of bytes of the UTF-8 encoding of `s` (what `str::len` counts).
pub open spec fn utf8_len(s: Seq<char>) -> int
    decreases s.len(),
{
    if s.len() == 0 {
        0
    } else {
        let u = s.last() as u32;
        utf8_len(s.drop_last()) + if u < 0x80 {
            1int
        } else if u < 0x800 {
            2int
        } else if u < 0x10000 {
            3int
        } else {
            4int
        }
    }
}

proof fn lemma_utf8_len_monotone(s: Seq<char>, i: int)
    requires
        0 <= i <= s.len(),
    ensures
        utf8_len(s.take(i)) <= utf8_len(s),
    decreases s.len() - i,
{
    if i < s.len() {
        lemma_utf8_len_monotone(s, i + 1);
        assert(s.take(i + 1).drop_last() =~= s.take(i));
    } else {
        assert(s.take(i) =~= s);
    }
}

/// Whether the UTF-8 encoding of `s` is longer than `limit` bytes.
pub fn utf8_len_exceeds(s: &str, limit: u64) -> (b: bool)
    ensures
        b == (utf8_len(s@) > limit),
{
    let cs = chars_of(s);
    let mut total: u64 = 0;
    let mut i: usize = 0;
    while i < cs.len()
        invariant
            cs@ == s@,
            i <= cs.len(),
            total == utf8_len(s@.take(i as int)),
            total <= limit,
        decreases cs.len() - i,
    {
        let u = cs[i] as u32;
        let w: u64 = if u < 0x80 {
            1
        } else if u < 0x800 {
            2
        } else if u < 0x10000 {
            3
        } else {
            4
        };
        assert(s@.take(i as int + 1).drop_last() =~= s@.take(i as int));
        if w > limit - total {
            proof {
                lemma_utf8_len_monotone(s@, i as int + 1);
            }
            return true;
        }
        total = total + w;
        i = i + 1;
    }
    assert(s@.take(cs.len() as int) =~= s@);
    false
}

} // verus!
