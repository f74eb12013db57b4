//! Path helpers over `/`-separated path text: file name, stem, extension, joining.

use vstd::prelude::*;
use crate::text::{chars_of, split_char, split_spec, string_from_chars, views};

verus! {

/// The normal components of a path: the pieces between `/` that are neither
/// empty nor `.` (what `Path::components` keeps besides the root).
pub open spec fn components(segs: Seq<Seq<char>>) -> Seq<Seq<char>>
    decreases segs.len(),
{
    if segs.len() == 0 {
        seq![]
    } else {
        let prev = components(segs.drop_last());
        let l = segs.last();
        if l.len() == 0 || l == seq!['.'] {
            prev
        } else {
            prev.push(l)
        }
    }
}

/// `Path::file_name`: the last component, unless there is none or it is `..`.
pub open spec fn file_name_spec(p: Seq<char>) -> Option<Seq<char>> {
    let comps = components(split_spec(p, '/'));
    if comps.len() == 0 || comps.last() == seq!['.', '.'] {
        None
    } else {
        Some(comps.last())
    }
}

/// Index of the last `c` in `s`, or -1.
pub open spec fn last_index_of(s: Seq<char>, c: char) -> int
    decreases s.len(),
{
    if s.len() == 0 {
        -1
    } else if s.last() == c {
        s.len() - 1
    } else {
        last_index_of(s.drop_last(), c)
    }
}

/// `Path::file_stem`: the file name before its last `.`, or the whole name when
/// it has no `.` past its first character.
pub open spec fn file_stem_spec(p: Seq<char>) -> Option<Seq<char>> {
    match file_name_spec(p) {
        None => None,
        Some(name) => {
            let i = last_index_of(name, '.');
            if i <= 0 {
                Some(name)
            } else {
                Some(name.take(i))
            }
        },
    }
}

/// `Path::extension`: the file name after its last `.`, if that `.` is not its
/// first character.
pub open spec fn extension_spec(p: Seq<char>) -> Option<Seq<char>> {
    match file_name_spec(p) {
        None => None,
        Some(name) => {
            let i = last_index_of(name, '.');
            if i <= 0 {
                None
            } else {
                Some(name.skip(i + 1))
            }
        },
    }
}

fn is_dot_piece(v: &Vec<char>) -> (b: bool)
    ensures
        b == (v@ == seq!['.']),
{
    if v.len() == 1 && v[0] == '.' {
        assert(v@ =~= seq!['.']);
        true
    } else {
        false
    }
}

fn is_dotdot_piece(v: &Vec<char>) -> (b: bool)
    ensures
        b == (v@ == seq!['.', '.']),
{
    if v.len() == 2 && v[0] == '.' && v[1] == '.' {
        assert(v@ =~= seq!['.', '.']);
        true
    } else {
        false
    }
}

/// The normal components of the path `p`.
pub fn components_of(p: &Vec<char>) -> (r: Vec<Vec<char>>)
    ensures
        views(r@) == components(split_spec(p@, '/')),
{
    let segs = split_char(p, '/');
    let ghost all = views(segs@);
    let mut out: Vec<Vec<char>> = Vec::new();
    let mut i: usize = 0;
    while i < segs.len()
        invariant
            all == views(segs@),
            all == split_spec(p@, '/'),
            i <= segs.len(),
            views(out@) == components(all.take(i as int)),
        decreases segs.len() - i,
    {
        assert(all.take(i as int + 1).drop_last() =~= all.take(i as int));
        assert(all[i as int] == segs[i as int]@);
        if segs[i].len() > 0 && !is_dot_piece(&segs[i]) {
            let ghost before = views(out@);
            out.push(segs[i].clone());
            assert(views(out@) =~= before.push(segs@[i as int]@));
        }
        i = i + 1;
    }
    assert(all.take(segs.len() as int) =~= all);
    out
}

/// The file name of `path` as characters.
fn file_name_chars(path: &str) -> (r: Option<Vec<char>>)
    ensures
        match r {
            None => file_name_spec(path@) is None,
            Some(v) => file_name_spec(path@) == Some(v@),
        },
{
    let cs = chars_of(path);
    let segs = split_char(&cs, '/');
    let ghost all = views(segs@);
    let mut last: Option<Vec<char>> = None;
    let mut i: usize = 0;
    while i < segs.len()
        invariant
            all == views(segs@),
            all == split_spec(path@, '/'),
            i <= segs.len(),
            match last {
                None => components(all.take(i as int)).len() == 0,
                Some(v) => {
                    let c = components(all.take(i as int));
                    c.len() > 0 && c.last() == v@
                },
            },
        decreases segs.len() - i,
    {
        assert(all.take(i as int + 1).drop_last() =~= all.take(i as int));
        assert(all[i as int] == segs[i as int]@);
        if segs[i].len() > 0 && !is_dot_piece(&segs[i]) {
            last = Some(segs[i].clone());
            assert(last->0@ == segs[i as int]@);
        }
        i = i + 1;
    }
    assert(all.take(segs.len() as int) =~= all);
    match last {
        None => None,
        Some(v) => {
            if is_dotdot_piece(&v) {
                None
            } else {
                Some(v)
            }
        },
    }
}

proof fn lemma_last_index_bounds(s: Seq<char>, c: char)
    ensures
        -1 <= last_index_of(s, c) < s.len(),
        last_index_of(s, c) >= 0 ==> s[last_index_of(s, c)] == c,
    decreases s.len(),
{
    if s.len() > 0 {
        lemma_last_index_bounds(s.drop_last(), c);
    }
}

fn last_dot(v: &Vec<char>) -> (r: i64)
    requires
        v.len() < 0x7fff_ffff_ffff_ffff,
    ensures
        r == last_index_of(v@, '.'),
        -1 <= r < v@.len(),
{
    proof {
        lemma_last_index_bounds(v@, '.');
    }
    let mut i: usize = v.len();
    assert(v@.take(i as int) =~= v@);
    while i > 0
        invariant
            i <= v.len(),
            v.len() < 0x7fff_ffff_ffff_ffff,
            last_index_of(v@, '.') == last_index_of(v@.take(i as int), '.'),
        decreases i,
    {
        assert(v@.take(i as int).drop_last() =~= v@.take(i as int - 1));
        if v[i - 1] == '.' {
            return (i - 1) as i64;
        }
        i = i - 1;
    }
    assert(v@.take(0) =~= Seq::<char>::empty());
    -1
}

/// The last component of `path`, like `Path::file_name`.
pub fn get_filename(path: &str) -> (r: Option<String>)
    ensures
        match r {
            None => file_name_spec(path@) is None,
            Some(s) => file_name_spec(path@) == Some(s@),
        },
{
    match file_name_chars(path) {
        None => None,
        Some(v) => Some(string_from_chars(&v)),
    }
}

/// The file name without its extension, like `Path::file_stem`.
pub fn get_stem(path: &str) -> (r: Option<String>)
    requires
        path@.len() < 0x7fff_ffff_ffff_ffff,
    ensures
        match r {
            None => file_stem_spec(path@) is None,
            Some(s) => file_stem_spec(path@) == Some(s@),
        },
{
    match file_name_chars(path) {
        None => None,
        Some(v) => {
            proof {
                lemma_file_name_len(path@);
            }
            let i = last_dot(&v);
            if i <= 0 {
                Some(string_from_chars(&v))
            } else {
                let mut out: Vec<char> = Vec::new();
                let n = i as usize;
                let mut k: usize = 0;
                while k < n
                    invariant
                        n <= v.len(),
                        k <= n,
                        out@ == v@.take(k as int),
                    decreases n - k,
                {
                    out.push(v[k]);
                    assert(v@.take(k as int + 1) =~= v@.take(k as int).push(v@[k as int]));
                    k = k + 1;
                }
                Some(string_from_chars(&out))
            }
        },
    }
}

/// The extension of the file name, like `Path::extension`.
pub fn get_extension(path: &str) -> (r: Option<String>)
    requires
        path@.len() < 0x7fff_ffff_ffff_ffff,
    ensures
        match r {
            None => extension_spec(path@) is None,
            Some(s) => extension_spec(path@) == Some(s@),
        },
{
    match file_name_chars(path) {
        None => None,
        Some(v) => {
            proof {
                lemma_file_name_len(path@);
            }
            let i = last_dot(&v);
            if i <= 0 {
                None
            } else {
                let mut out: Vec<char> = Vec::new();
                let start = i as usize + 1;
                let mut k: usize = start;
                while k < v.len()
                    invariant
                        start <= k <= v.len(),
                        out@ == v@.subrange(start as int, k as int),
                    decreases v.len() - k,
                {
                    out.push(v[k]);
                    assert(v@.subrange(start as int, k as int + 1) =~= v@.subrange(
                        start as int,
                        k as int,
                    ).push(v@[k as int]));
                    k = k + 1;
                }
                assert(v@.subrange(start as int, v.len() as int) =~= v@.skip(start as int));
                Some(string_from_chars(&out))
            }
        },
    }
}

proof fn lemma_split_piece_len(s: Seq<char>, sep: char)
    ensures
        forall|j: int|
            0 <= j < split_spec(s, sep).len() ==> (#[trigger] split_spec(s, sep)[j]).len()
                <= s.len(),
    decreases s.len(),
{
    if s.len() > 0 {
        lemma_split_piece_len(s.drop_last(), sep);
        crate::text::lemma_split_nonempty(s.drop_last(), sep);
    }
}

proof fn lemma_components_from(segs: Seq<Seq<char>>, bound: int)
    requires
        forall|j: int| 0 <= j < segs.len() ==> (#[trigger] segs[j]).len() <= bound,
    ensures
        forall|j: int|
            0 <= j < components(segs).len() ==> (#[trigger] components(segs)[j]).len() <= bound,
    decreases segs.len(),
{
    if segs.len() > 0 {
        let p = segs.drop_last();
        assert forall|j: int| 0 <= j < p.len() implies (#[trigger] p[j]).len() <= bound by {
            assert(p[j] == segs[j]);
        }
        lemma_components_from(p, bound);
        assert(segs.last() == segs[segs.len() - 1]);
        let prev = components(p);
        let c = components(segs);
        assert forall|j: int| 0 <= j < c.len() implies (#[trigger] c[j]).len() <= bound by {
            if j < prev.len() {
                assert(c[j] == prev[j]);
            }
        }
    }
}

pub proof fn lemma_file_name_len(p: Seq<char>)
    ensures
        file_name_spec(p) matches Some(n) ==> n.len() <= p.len(),
{
    lemma_split_piece_len(p, '/');
    lemma_components_from(split_spec(p, '/'), p.len() as int);
    let comps = components(split_spec(p, '/'));
    if comps.len() > 0 {
        assert(comps.last() == comps[comps.len() - 1]);
    }
}

proof fn lemma_last_index_of(s: Seq<char>, c: char)
    ensures
        -1 <= last_index_of(s, c) < s.len(),
        last_index_of(s, c) >= 0 ==> s[last_index_of(s, c)] == c,
    decreases s.len(),
{
    if s.len() > 0 && s.last() != c {
        lemma_last_index_of(s.drop_last(), c);
    }
}

/// The file name, stem and extension of a path agree: a path has a stem
/// exactly when it has a file name; with an extension the name is the stem, a
/// `.` and the extension; without one the stem is the whole name.
pub proof fn law_name_stem_extension(p: Seq<char>)
    ensures
        file_stem_spec(p) is Some <==> file_name_spec(p) is Some,
        extension_spec(p) is Some ==> file_name_spec(p) is Some,
        extension_spec(p) matches Some(e) ==> file_name_spec(p)->0 == file_stem_spec(p)->0 + seq!['.'] + e,
        (file_name_spec(p) is Some && extension_spec(p) is None) ==> file_stem_spec(p) == file_name_spec(p),
{
    match file_name_spec(p) {
        None => {},
        Some(name) => {
            lemma_last_index_of(name, '.');
            let i = last_index_of(name, '.');
            if i > 0 {
                assert(name =~= name.take(i) + seq!['.'] + name.skip(i + 1));
            }
        },
    }
}

/// `PathBuf::push` on text: an absolute `part` replaces the path; otherwise a
/// `/` is put between them unless the path is empty or already ends with `/`.
pub open spec fn push_path(base: Seq<char>, part: Seq<char>) -> Seq<char> {
    if part.len() > 0 && part[0] == '/' {
        part
    } else if base.len() > 0 && base.last() != '/' {
        base.push('/') + part
    } else {
        base + part
    }
}

/// Joins every part onto `base` in turn.
pub open spec fn join_path_spec(base: Seq<char>, parts: Seq<Seq<char>>) -> Seq<char>
    decreases parts.len(),
{
    if parts.len() == 0 {
        base
    } else {
        push_path(join_path_spec(base, parts.drop_last()), parts.last())
    }
}

/// Joins `parts` onto `base`, as repeated `Path::join` does.
pub fn join_path(base: &str, parts: &Vec<String>) -> (r: String)
    ensures
        r@ == join_path_spec(base@, parts@.map_values(|p: String| p@)),
{
    let ghost pv = parts@.map_values(|p: String| p@);
    let mut acc = chars_of(base);
    let mut i: usize = 0;
    while i < parts.len()
        invariant
            i <= parts.len(),
            pv == parts@.map_values(|p: String| p@),
            acc@ == join_path_spec(base@, pv.take(i as int)),
        decreases parts.len() - i,
    {
        let part = chars_of(parts[i].as_str());
        assert(pv.take(i as int + 1).drop_last() =~= pv.take(i as int));
        assert(pv[i as int] == parts[i as int]@);
        let ghost before = acc@;
        if part.len() > 0 && part[0] == '/' {
            acc = part;
        } else {
            if acc.len() > 0 && acc[acc.len() - 1] != '/' {
                acc.push('/');
            }
            let ghost mid = acc@;
            let mut k: usize = 0;
            while k < part.len()
                invariant
                    k <= part.len(),
                    acc@ == mid + part@.take(k as int),
                decreases part.len() - k,
            {
                acc.push(part[k]);
                assert(part@.take(k as int + 1) =~= part@.take(k as int).push(part@[k as int]));
                k = k + 1;
            }
            assert(part@.take(part.len() as int) =~= part@);
            assert(before.len() > 0 ==> before.last() == before[before.len() - 1]);
        }
        i = i + 1;
    }
    assert(pv.take(parts.len() as int) =~= pv);
    string_from_chars(&acc)
}

/// The path from `from` to `to`; this implementation always answers `None`.
pub fn relative_path(from: &str, to: &str) -> (r: Option<String>)
    ensures
        r is None,
{
    None
}

} // verus!
