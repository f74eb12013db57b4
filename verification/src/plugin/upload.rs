//! Upload path safety and the naming of uploaded files. Resolving paths on
//! disk, reading and writing files are done by the application.

use vstd::prelude::*;
use crate::plugin::PluginInfo;
use crate::text::{
    chars_of, contains_seq, str_contains, split_spec, split_char, views, to_owned_string,
    is_ascii_alpha, is_ascii_char, utf8_len, string_from_chars, str_starts_with, starts_with,
};
use crate::util::location::{components, extension_spec, file_name_spec, get_extension, get_filename, join_path, join_path_spec, push_path};
use crate::util::{uuid, is_hyphenated_v4, chrono_format, try_format_datetime};
use crate::attr::opt_view;

verus! {

/// Where uploads are stored.
#[derive(Debug, Clone, Copy, PartialEq, Eq, Structural)]
pub enum ModeType {
    Local,
    Oss,
    Cos,
    Other,
}

impl Default for ModeType {
    fn default() -> (r: ModeType)
        ensures
            r == ModeType::Local,
    {
        ModeType::Local
    }
}

/// The storage mode of an upload hook.
#[derive(Debug)]
pub struct Mode {
    pub mode: ModeType,
    /// The mode's name, such as `local`.
    pub kind: String,
}

/// An upload request: the file, its name, an optional target key and other
/// form fields.
#[derive(Debug)]
pub struct UploadContext {
    pub file_data: Vec<u8>,
    pub filename: String,
    pub key: Option<String>,
    pub fields: Vec<(String, String)>,
}

/// The errors of uploads.
#[derive(Debug)]
pub enum UploadError {
    InvalidPath,
    PathOutOfRange,
    EmptyFile,
    UploadFailed(String),
    Io(String),
    Http(String),
}

/// The message of each upload error.
pub open spec fn upload_error_text(e: UploadError) -> Seq<char> {
    match e {
        UploadError::InvalidPath => "非法的文件路径"@,
        UploadError::PathOutOfRange => "文件路径超出允许范围"@,
        UploadError::EmptyFile => "上传文件为空"@,
        UploadError::UploadFailed(m) => "上传失败: "@ + m@,
        UploadError::Io(m) => "IO 错误: "@ + m@,
        UploadError::Http(m) => "HTTP 错误: "@ + m@,
    }
}

impl UploadError {
    /// The error's message.
    pub fn message(&self) -> (r: String)
        ensures
            r@ == upload_error_text(*self),
    {
        match self {
            UploadError::InvalidPath => to_owned_string("非法的文件路径"),
            UploadError::PathOutOfRange => to_owned_string("文件路径超出允许范围"),
            UploadError::EmptyFile => to_owned_string("上传文件为空"),
            UploadError::UploadFailed(m) => {
                let mut r = to_owned_string("上传失败: ");
                r.append(m.as_str());
                r
            },
            UploadError::Io(m) => {
                let mut r = to_owned_string("IO 错误: ");
                r.append(m.as_str());
                r
            },
            UploadError::Http(m) => {
                let mut r = to_owned_string("HTTP 错误: ");
                r.append(m.as_str());
                r
            },
        }
    }
}

/// Whether a path reads as a Windows absolute path: at least two bytes long,
/// an ASCII letter and then `:`.
pub open spec fn is_windows_absolute(p: Seq<char>) -> bool {
    utf8_len(p) >= 2 && p.len() >= 2 && is_ascii_alpha(p[0]) && p[1] == ':'
}

/// Whether user input is refused outright: it holds `..`, `./`, `.\`, `\`,
/// `//` or a NUL, starts with `/`, or is a Windows absolute path.
pub open spec fn refused_input(p: Seq<char>) -> bool {
    ||| contains_seq(p, ".."@)
    ||| contains_seq(p, "./"@)
    ||| contains_seq(p, ".\\"@)
    ||| p.contains('\\')
    ||| contains_seq(p, "//"@)
    ||| p.contains('\0')
    ||| (p.len() > 0 && p[0] == '/')
    ||| is_windows_absolute(p)
}

/// The components a relative path keeps (`Path::components`): the pieces
/// between `/` that are not empty, where `.` is kept only at the start.
pub open spec fn kept_components(pieces: Seq<Seq<char>>) -> Seq<Seq<char>>
    decreases pieces.len(),
{
    if pieces.len() == 0 {
        seq![]
    } else {
        let prev = kept_components(pieces.drop_last());
        let l = pieces.last();
        if l.len() == 0 || (l == seq!['.'] && pieces.len() > 1) {
            prev
        } else {
            prev.push(l)
        }
    }
}

/// Pieces joined with `/` between them.
pub open spec fn join_slash(parts: Seq<Seq<char>>) -> Seq<char>
    decreases parts.len(),
{
    if parts.len() == 0 {
        seq![]
    } else if parts.len() == 1 {
        parts[0]
    } else {
        join_slash(parts.drop_last()) + seq!['/'] + parts.last()
    }
}

/// The normalised form of a path: its components joined with `/`.
pub open spec fn normalized_path(p: Seq<char>) -> Seq<char> {
    join_slash(kept_components(split_spec(p, '/')))
}

/// What `PathValidator::sanitize_path` gives: empty input stays empty; refused
/// input, or a normalised form holding `..` or starting with `/`, is an
/// invalid path; else the normalised form.
pub open spec fn sanitize_spec(p: Seq<char>) -> Option<Seq<char>> {
    if p.len() == 0 {
        Some(seq![])
    } else if refused_input(p) {
        None
    } else {
        let n = normalized_path(p);
        if contains_seq(n, ".."@) || (n.len() > 0 && n[0] == '/') {
            None
        } else {
            Some(n)
        }
    }
}

// ---------------------------------------------------------------- sanitising twice

proof fn lemma_split_last(s: Seq<char>)
    ensures
        split_spec(s, '/').len() >= 1,
        (split_spec(s, '/').last().len() == 0) <==> (s.len() == 0 || s.last() == '/'),
        split_spec(s, '/').last().len() > 0 ==> split_spec(s, '/').last().last() == s.last(),
        s.len() > 0 && s.last() == '/' ==> split_spec(s, '/').len() >= 2,
{
    crate::text::lemma_split_nonempty(s, '/');
    if s.len() > 0 {
        crate::text::lemma_split_nonempty(s.drop_last(), '/');
    }
}

proof fn lemma_join_split(s: Seq<char>)
    ensures
        join_slash(split_spec(s, '/')) == s,
    decreases s.len(),
{
    if s.len() > 0 {
        let init = s.drop_last();
        lemma_join_split(init);
        crate::text::lemma_split_nonempty(init, '/');
        let prev = split_spec(init, '/');
        let c = s.last();
        if c == '/' {
            assert(split_spec(s, '/').drop_last() =~= prev);
            assert(s =~= init + seq!['/'] + Seq::<char>::empty());
        } else {
            let cur = split_spec(s, '/');
            assert(s =~= init.push(c));
            assert(cur.drop_last() =~= prev.drop_last());
            if prev.len() > 1 {
                assert(init == join_slash(prev.drop_last()) + seq!['/'] + prev.last());
                assert(s =~= join_slash(prev.drop_last()) + seq!['/'] + prev.last().push(c));
            } else {
                assert(s =~= prev.last().push(c));
            }
        }
    }
}

/// Kept components of pieces that are all non-empty, with `.` at most first,
/// are the pieces themselves.
proof fn lemma_kept_all(x: Seq<Seq<char>>)
    requires
        forall|j: int| 0 <= j < x.len() ==> (#[trigger] x[j]).len() > 0,
        forall|j: int| 1 <= j < x.len() ==> #[trigger] x[j] != seq!['.'],
    ensures
        kept_components(x) == x,
    decreases x.len(),
{
    if x.len() > 0 {
        let y = x.drop_last();
        assert forall|j: int| 0 <= j < y.len() implies (#[trigger] y[j]).len() > 0 by {
            assert(y[j] == x[j]);
        }
        assert forall|j: int| 1 <= j < y.len() implies #[trigger] y[j] != seq!['.'] by {
            assert(y[j] == x[j]);
        }
        lemma_kept_all(y);
        assert(x.last() == x[x.len() - 1]);
        assert(y.push(x.last()) =~= x);
    }
}

proof fn lemma_prefix_contains(s: Seq<char>, k: int, pat: Seq<char>)
    requires
        0 <= k <= s.len(),
        contains_seq(s.take(k), pat),
    ensures
        contains_seq(s, pat),
{
    let i = choose|i: int| crate::text::occurs_at(s.take(k), pat, i);
    assert(s.take(k).subrange(i, i + pat.len()) =~= s.subrange(i, i + pat.len()));
    assert(crate::text::occurs_at(s, pat, i));
}

/// The pieces of a path with no `//` or `./` that does not start with `/`:
/// every piece but the last is non-empty and does not end with `.`.
proof fn lemma_pieces_ok(p: Seq<char>)
    requires
        !contains_seq(p, "//"@),
        !contains_seq(p, "./"@),
        p.len() > 0 ==> p[0] != '/',
    ensures
        forall|j: int|
            0 <= j < split_spec(p, '/').len() - 1 ==> (#[trigger] split_spec(p, '/')[j]).len() > 0
                && split_spec(p, '/')[j].last() != '.',
    decreases p.len(),
{
    reveal_strlit("//");
    reveal_strlit("./");
    if p.len() > 0 {
        let init = p.drop_last();
        if contains_seq(init, "//"@) {
            assert(init == p.take(p.len() - 1));
            lemma_prefix_contains(p, p.len() - 1, "//"@);
        }
        if contains_seq(init, "./"@) {
            assert(init == p.take(p.len() - 1));
            lemma_prefix_contains(p, p.len() - 1, "./"@);
        }
        lemma_pieces_ok(init);
        lemma_split_last(init);
        let prev = split_spec(init, '/');
        let cur = split_spec(p, '/');
        if p.last() == '/' {
            assert(cur == prev.push(seq![]));
            let l = prev.last();
            if l.len() == 0 {
                if init.len() == 0 {
                    assert(p[0] == '/');
                } else {
                    assert(init.last() == '/');
                    assert(p.subrange(p.len() - 2, p.len() as int) =~= "//"@);
                    assert(crate::text::occurs_at(p, "//"@, p.len() - 2));
                }
            } else if l.last() == '.' {
                assert(init.last() == '.');
                assert(p.subrange(p.len() - 2, p.len() as int) =~= "./"@);
                assert(crate::text::occurs_at(p, "./"@, p.len() - 2));
            }
            assert forall|j: int| 0 <= j < cur.len() - 1 implies (#[trigger] cur[j]).len() > 0
                && cur[j].last() != '.' by {
                assert(cur[j] == prev[j]);
                if j < prev.len() - 1 {
                } else {
                    assert(prev[j] == l);
                }
            }
        } else {
            assert forall|j: int| 0 <= j < cur.len() - 1 implies (#[trigger] cur[j]).len() > 0
                && cur[j].last() != '.' by {
                assert(cur[j] == prev[j]);
            }
        }
    }
}

/// What normalising does to a path with no `//` or `./` that does not start
/// with `/`: it drops a final `/` or a final `/.`, and changes nothing else.
proof fn lemma_normalized_shape(p: Seq<char>)
    requires
        p.len() > 0,
        !contains_seq(p, "//"@),
        !contains_seq(p, "./"@),
        p[0] != '/',
    ensures
        p.last() == '/' ==> normalized_path(p) == p.drop_last(),
        (p.last() == '.' && p.len() >= 2 && p[p.len() - 2] == '/') ==> normalized_path(p) == p.take(
            p.len() - 2,
        ),
        (p.last() != '/' && !(p.last() == '.' && p.len() >= 2 && p[p.len() - 2] == '/'))
            ==> normalized_path(p) == p,
{
    let pp = split_spec(p, '/');
    lemma_pieces_ok(p);
    lemma_split_last(p);
    lemma_join_split(p);
    let n = pp.len();
    let y = pp.drop_last();
    assert forall|j: int| 0 <= j < y.len() implies (#[trigger] y[j]).len() > 0 by {
        assert(y[j] == pp[j]);
    }
    assert forall|j: int| 1 <= j < y.len() implies #[trigger] y[j] != seq!['.'] by {
        assert(y[j] == pp[j]);
        if y[j] == seq!['.'] {
            assert(y[j].last() == '.');
        }
    }
    lemma_kept_all(y);
    let l = pp.last();
    if n > 1 {
        assert(p == join_slash(y) + seq!['/'] + l);
    }
    if p.last() == '/' {
        assert(l.len() == 0);
        assert(kept_components(pp) == y);
        assert(p.drop_last() =~= join_slash(y));
    } else if p.last() == '.' && p.len() >= 2 && p[p.len() - 2] == '/' {
        let init = p.drop_last();
        lemma_split_last(init);
        assert(init.last() == '/');
        let prev = split_spec(init, '/');
        assert(prev.last().len() == 0);
        assert(pp == prev.update(prev.len() - 1, prev.last().push('.')));
        assert(l =~= seq!['.']);
        assert(n >= 2);
        assert(kept_components(pp) == y);
        assert(p.take(p.len() - 2) =~= join_slash(y));
    } else {
        assert(l.len() > 0);
        if n > 1 && l == seq!['.'] {
            assert(p.last() == '.');
            assert(p[p.len() - 2] == '/');
        }
        assert(y.push(l) =~= pp);
        assert(kept_components(pp) == pp);
    }
}

proof fn lemma_utf8_len_at_least(s: Seq<char>)
    ensures
        utf8_len(s) >= s.len(),
    decreases s.len(),
{
    if s.len() > 0 {
        lemma_utf8_len_at_least(s.drop_last());
    }
}

/// Sanitising is idempotent: a path that `sanitize_path` accepts comes back
/// unchanged when sanitised again.
pub proof fn law_sanitize_idempotent(p: Seq<char>)
    ensures
        sanitize_spec(p) matches Some(r) ==> sanitize_spec(r) == Some(r),
{
    reveal_strlit("..");
    reveal_strlit("./");
    reveal_strlit(".\\");
    reveal_strlit("//");
    if p.len() > 0 && sanitize_spec(p) is Some {
        let r = normalized_path(p);
        if r.len() > 0 {
            assert(!refused_input(p));
            assert(p[0] != '/') by {
                if p[0] == '/' {
                    assert(p.len() > 0 && p[0] == '/');
                }
            }
            lemma_normalized_shape(p);
            let k: int = if p.last() == '/' {
                p.len() - 1
            } else if p.last() == '.' && p.len() >= 2 && p[p.len() - 2] == '/' {
                p.len() - 2
            } else {
                p.len() as int
            };
            assert(r =~= p.take(k));
            // r keeps every check p passed
            if contains_seq(r, "./"@) {
                lemma_prefix_contains(p, k, "./"@);
            }
            if contains_seq(r, ".\\"@) {
                lemma_prefix_contains(p, k, ".\\"@);
            }
            if contains_seq(r, "//"@) {
                lemma_prefix_contains(p, k, "//"@);
            }
            if r.contains('\\') {
                let i = choose|i: int| 0 <= i < r.len() && r[i] == '\\';
                assert(p[i] == '\\');
            }
            if r.contains('\0') {
                let i = choose|i: int| 0 <= i < r.len() && r[i] == '\0';
                assert(p[i] == '\0');
            }
            assert(r[0] == p[0]);
            if is_windows_absolute(r) {
                lemma_utf8_len_at_least(p);
                assert(r[1] == p[1]);
                assert(is_windows_absolute(p));
            }
            assert(!refused_input(r));
            // r ends neither with `/` nor with `/.`
            if r.last() == '/' {
                if k == p.len() {
                } else {
                    assert(p.subrange(k - 1, k + 1) =~= "//"@);
                    assert(crate::text::occurs_at(p, "//"@, k - 1));
                }
            }
            if r.last() == '.' && r.len() >= 2 && r[r.len() - 2] == '/' {
                if k == p.len() {
                } else {
                    assert(p[k] == '/');
                    assert(p.subrange(k - 1, k + 1) =~= "./"@);
                    assert(crate::text::occurs_at(p, "./"@, k - 1));
                }
            }
            lemma_normalized_shape(r);
            assert(normalized_path(r) == r);
        }
    }
}

/// Components with `..` resolved lexically: a `..` removes the component
/// before it; at the start of an absolute path it stays at the root, and at
/// the start of a relative path it is kept.
pub open spec fn resolve_parents(cs: Seq<Seq<char>>, abs: bool) -> Seq<Seq<char>>
    decreases cs.len(),
{
    if cs.len() == 0 {
        seq![]
    } else {
        let prev = resolve_parents(cs.drop_last(), abs);
        let c = cs.last();
        if c == seq!['.', '.'] {
            if prev.len() > 0 && prev.last() != seq!['.', '.'] {
                prev.drop_last()
            } else if abs {
                prev
            } else {
                prev.push(c)
            }
        } else {
            prev.push(c)
        }
    }
}

/// Whether a path text is absolute.
pub open spec fn is_absolute(p: Seq<char>) -> bool {
    p.len() > 0 && p[0] == '/'
}

/// The components of a path after resolving `..` lexically.
pub open spec fn normal_components(p: Seq<char>) -> Seq<Seq<char>> {
    resolve_parents(components(split_spec(p, '/')), is_absolute(p))
}

/// Whether the target lies within the base once `..` is resolved lexically
/// in both: the base's components, root included, come first in the target's.
pub open spec fn target_within(target: Seq<char>, base: Seq<char>) -> bool {
    let tc = normal_components(target);
    let bc = normal_components(base);
    if is_absolute(base) {
        is_absolute(target) && bc.len() <= tc.len() && tc.take(bc.len() as int) == bc
    } else if is_absolute(target) {
        bc.len() == 0
    } else {
        bc.len() <= tc.len() && tc.take(bc.len() as int) == bc
    }
}

/// Path checks of uploads.
pub struct PathValidator;

impl PathValidator {
    /// Whether `path` is a Windows absolute path such as `C:`.
    pub fn is_windows_absolute_path(path: &str) -> (r: bool)
        requires
            !(path@.len() == 1 && !is_ascii_char(path@[0])),
        ensures
            r == is_windows_absolute(path@),
    {
        let c = chars_of(path);
        let long = crate::text::utf8_len_exceeds(path, 1);
        if long {
            assert(c.len() >= 2) by {
                if c.len() == 0 {
                    assert(utf8_len(path@) == 0) by {
                        reveal_with_fuel(utf8_len, 1);
                    }
                } else if c.len() == 1 {
                    assert(path@.drop_last().len() == 0);
                    assert(utf8_len(path@.drop_last()) == 0);
                }
            }
            let first = c[0];
            let second = c[1];
            ('A' <= first && first <= 'Z' || 'a' <= first && first <= 'z') && second == ':'
        } else {
            false
        }
    }

    /// Checks and normalises a user-given path: empty input stays empty; input
    /// holding `..`, `./`, `.\`, `\`, `//` or a NUL, starting with `/`, or
    /// naming a Windows drive is refused; otherwise the path's components
    /// joined with `/`.
    pub fn sanitize_path(user_input: &str) -> (r: Result<String, UploadError>)
        requires
            !(user_input@.len() == 1 && !is_ascii_char(user_input@[0])),
        ensures
            match sanitize_spec(user_input@) {
                Some(n) => r matches Ok(s) && s@ == n,
                None => r matches Err(UploadError::InvalidPath),
            },
    {
        if user_input.unicode_len() == 0 {
            return Ok(String::new());
        }
        if str_contains(user_input, "..") || str_contains(user_input, "./")
            || str_contains(user_input, ".\\") || crate::text::contains_char(user_input, '\\')
            || str_contains(user_input, "//") || crate::text::contains_char(user_input, '\0')
            || str_starts_with(user_input, "/") || Self::is_windows_absolute_path(user_input) {
            proof {
                reveal_strlit("/");
                if starts_with(user_input@, "/"@) {
                    assert(user_input@.subrange(0, 1)[0] == user_input@[0]);
                }
            }
            return Err(UploadError::InvalidPath);
        }
        proof {
            reveal_strlit("/");
            if user_input@.len() > 0 && user_input@[0] == '/' {
                assert(user_input@.subrange(0, 1) =~= "/"@);
            }
        }
        let chars = chars_of(user_input);
        let pieces = split_char(&chars, '/');
        let mut kept: Vec<Vec<char>> = Vec::new();
        let mut i: usize = 0;
        while i < pieces.len()
            invariant
                i <= pieces.len(),
                views(pieces@) == split_spec(user_input@, '/'),
                views(kept@) == kept_components(views(pieces@).take(i as int)),
            decreases pieces.len() - i,
        {
            let p = &pieces[i];
            assert(views(pieces@).take(i + 1).drop_last() =~= views(pieces@).take(i as int));
            assert(views(pieces@).take(i + 1).last() == pieces@[i as int]@);
            let dot_later = p.len() == 1 && p[0] == '.' && i > 0;
            assert(dot_later == (p@ == seq!['.'] && views(pieces@).take(i + 1).len() > 1)) by {
                if p@ == seq!['.'] {
                    assert(p@.len() == 1 && p@[0] == '.');
                }
                if p.len() == 1 && p[0] == '.' {
                    assert(p@ =~= seq!['.']);
                }
            }
            if !(p.len() == 0 || dot_later) {
                let ghost before = views(kept@);
                kept.push(crate::scan::slice_chars(p, 0, p.len()));
                assert(p@.subrange(0, p@.len() as int) =~= p@);
                assert(views(kept@) =~= before.push(p@));
            }
            i = i + 1;
        }
        assert(views(pieces@).take(pieces.len() as int) =~= views(pieces@));
        let mut out: Vec<char> = Vec::new();
        let mut j: usize = 0;
        while j < kept.len()
            invariant
                j <= kept.len(),
                out@ == join_slash(views(kept@).take(j as int)),
            decreases kept.len() - j,
        {
            let ghost before = out@;
            if j > 0 {
                out.push('/');
            }
            let mut k: usize = 0;
            let ghost mid = out@;
            while k < kept[j].len()
                invariant
                    k <= kept@[j as int]@.len(),
                    j < kept@.len(),
                    out@ == mid + kept@[j as int]@.take(k as int),
                decreases kept@[j as int]@.len() - k,
            {
                out.push(kept[j][k]);
                assert(kept@[j as int]@.take(k + 1) =~= kept@[j as int]@.take(k as int).push(kept@[j as int]@[k as int]));
                k = k + 1;
            }
            assert(kept@[j as int]@.take(kept@[j as int]@.len() as int) =~= kept@[j as int]@);
            assert(views(kept@).take(j + 1).drop_last() =~= views(kept@).take(j as int));
            assert(views(kept@).take(j + 1).last() == kept@[j as int]@);
            proof {
                if j == 0 {
                    assert(views(kept@).take(1)[0] == kept@[0]@);
                    assert(before =~= seq![]);
                    assert(out@ =~= kept@[0]@);
                }
            }
            j = j + 1;
        }
        assert(views(kept@).take(kept.len() as int) =~= views(kept@));
        let normalized = string_from_chars(&out);
        if str_contains(normalized.as_str(), "..") || str_starts_with(normalized.as_str(), "/") {
            proof {
                if starts_with(normalized@, "/"@) {
                    assert(normalized@.subrange(0, 1)[0] == normalized@[0]);
                }
            }
            return Err(UploadError::InvalidPath);
        }
        proof {
            if normalized@.len() > 0 && normalized@[0] == '/' {
                assert(normalized@.subrange(0, 1) =~= "/"@);
            }
        }
        Ok(normalized)
    }

    /// Checks that a resolved target path lies within the resolved base
    /// directory (`Path::starts_with` on their components), with any `..` left
    /// in either path resolved lexically first, so that a target climbing out
    /// of the base is refused as out of range.
    pub fn validate_target_path(target_path: &str, base_path: &str) -> (r: Result<(), UploadError>)
        ensures
            target_within(target_path@, base_path@) <==> r is Ok,
            r matches Err(e) ==> e matches UploadError::PathOutOfRange,
    {
        let t = chars_of(target_path);
        let b = chars_of(base_path);
        let t_abs = t.len() > 0 && t[0] == '/';
        let b_abs = b.len() > 0 && b[0] == '/';
        let tc = resolve_parent_components(&crate::util::location::components_of(&t), t_abs);
        let bc = resolve_parent_components(&crate::util::location::components_of(&b), b_abs);
        let ok = if b_abs {
            t_abs && prefix_of(&bc, &tc)
        } else if t_abs {
            bc.len() == 0
        } else {
            prefix_of(&bc, &tc)
        };
        if ok {
            Ok(())
        } else {
            Err(UploadError::PathOutOfRange)
        }
    }
}

fn copy_chars(v: &Vec<char>) -> (r: Vec<char>)
    ensures
        r@ == v@,
{
    let mut out: Vec<char> = Vec::new();
    let mut i: usize = 0;
    while i < v.len()
        invariant
            i <= v.len(),
            out@ == v@.take(i as int),
        decreases v.len() - i,
    {
        out.push(v[i]);
        assert(v@.take(i as int + 1) =~= v@.take(i as int).push(v@[i as int]));
        i = i + 1;
    }
    assert(v@.take(v.len() as int) =~= v@);
    out
}

fn is_parent_piece(v: &Vec<char>) -> (b: bool)
    ensures
        b == (v@ == seq!['.', '.']),
{
    if v.len() == 2 && v[0] == '.' && v[1] == '.' {
        assert(v@ =~= seq!['.', '.']);
        true
    } else {
        false
    }
}

/// The components with `..` resolved lexically.
fn resolve_parent_components(c: &Vec<Vec<char>>, abs: bool) -> (r: Vec<Vec<char>>)
    ensures
        views(r@) == resolve_parents(views(c@), abs),
{
    let mut out: Vec<Vec<char>> = Vec::new();
    let mut i: usize = 0;
    while i < c.len()
        invariant
            i <= c.len(),
            views(out@) == resolve_parents(views(c@).take(i as int), abs),
        decreases c.len() - i,
    {
        let ghost before = views(out@);
        let ghost cs = views(c@).take(i as int + 1);
        proof {
            assert(cs.drop_last() =~= views(c@).take(i as int));
            assert(cs.last() == c@[i as int]@);
        }
        if is_parent_piece(&c[i]) {
            let n = out.len();
            if n > 0 && !is_parent_piece(&out[n - 1]) {
                let ghost ov = out@;
                out.pop();
                proof {
                    assert(out@ =~= ov.drop_last());
                    assert(before.last() == ov[n - 1]@);
                }
                proof {
                    assert(views(out@) =~= before.drop_last());
                }
            } else if abs {
            } else {
                let p = copy_chars(&c[i]);
                out.push(p);
                proof {
                    assert(views(out@) =~= before.push(c@[i as int]@));
                }
            }
        } else {
            let p = copy_chars(&c[i]);
            out.push(p);
            proof {
                assert(views(out@) =~= before.push(c@[i as int]@));
            }
        }
        i = i + 1;
    }
    proof {
        assert(views(c@).take(c.len() as int) =~= views(c@));
    }
    out
}

/// Whether `a` is a prefix of `b`.
fn prefix_of(a: &Vec<Vec<char>>, b: &Vec<Vec<char>>) -> (r: bool)
    ensures
        r == (views(a@).len() <= views(b@).len() && views(b@).take(views(a@).len() as int) == views(a@)),
{
    if a.len() > b.len() {
        return false;
    }
    let mut i: usize = 0;
    while i < a.len()
        invariant
            a.len() <= b.len(),
            i <= a.len(),
            forall|j: int| 0 <= j < i ==> a@[j]@ == b@[j]@,
        decreases a.len() - i,
    {
        let ea = crate::attr::owned(&a[i]);
        let eb = crate::attr::owned(&b[i]);
        if !crate::text::str_eq(ea.as_str(), eb.as_str()) {
            assert(views(b@).take(views(a@).len() as int)[i as int] != views(a@)[i as int]);
            return false;
        }
        i = i + 1;
    }
    assert(views(b@).take(views(a@).len() as int) =~= views(a@));
    true
}

/// The local wall-clock time now, from `chrono::Local::now()`, written as the
/// seconds since the epoch of the same wall-clock time in UTC. Nothing is
/// stated of the value, which the clock and the time zone decide.
#[verifier::external_body]
fn local_wall_clock_secs() -> (r: i64) {
    chrono::Local::now().naive_local().and_utc().timestamp()
}

/// The format of the day directories of uploads: `YYYYMMDD`.
pub const DATE_DIR_FORMAT: &'static str = "%Y%m%d";

/// Today's directory of uploads: the local date formatted as `YYYYMMDD`, or
/// `None` where chrono cannot format that instant.
pub fn local_date_dir() -> (r: Option<String>)
    ensures
        exists|secs: i64| #[trigger] chrono_format(secs as int, 0, DATE_DIR_FORMAT@) == opt_view(r),
{
    let secs = local_wall_clock_secs();
    let r = try_format_datetime(secs, 0, DATE_DIR_FORMAT);
    assert(chrono_format(secs as int, 0, DATE_DIR_FORMAT@) == opt_view(r));
    r
}

/// Where an upload is written and the URL it is served under.
#[derive(Debug)]
pub struct UploadPlan {
    /// The path below the base directory, such as `20240101/a.png`.
    pub name: String,
    /// The target path: the base directory joined with the name.
    pub target: String,
    /// The URL: the domain, `/upload/` and the name.
    pub url: String,
}

/// Stores uploads in a local directory.
pub struct LocalUploadHook {
    pub plugin_info: PluginInfo,
    pub base_path: String,
    pub domain: String,
}

impl LocalUploadHook {
    /// A hook storing below `base_path`, serving from `domain`.
    pub fn new(plugin_info: PluginInfo, base_path: &str, domain: String) -> (r: LocalUploadHook)
        ensures
            r.plugin_info == plugin_info,
            r.base_path@ == base_path@,
            r.domain == domain,
    {
        LocalUploadHook { plugin_info, base_path: to_owned_string(base_path), domain }
    }

    /// The storage mode: local.
    pub fn get_mode(&self) -> (r: Mode)
        ensures
            r.mode == ModeType::Local,
            r.kind@ == "local"@,
    {
        Mode { mode: ModeType::Local, kind: to_owned_string("local") }
    }

    /// Plans the upload of `ctx` into the directory `date_dir`: an empty file
    /// is refused; a given key is sanitised and used as the file name, else a
    /// fresh UUID with the uploaded file's extension.
    pub fn upload_plan(&self, ctx: &UploadContext, date_dir: &str) -> (r: Result<UploadPlan, UploadError>)
        requires
            ctx.key matches Some(k) ==> !(k@.len() == 1 && !is_ascii_char(k@[0])),
            ctx.filename@.len() < 0x7fff_ffff_ffff_ffff,
        ensures
            ctx.file_data@.len() == 0 ==> (r matches Err(UploadError::EmptyFile)),
            ctx.file_data@.len() > 0 ==> match ctx.key {
                Some(k) => match sanitize_spec(k@) {
                    None => r matches Err(UploadError::InvalidPath),
                    Some(sk) => r matches Ok(p) && p.name@ == date_dir@ + seq!['/'] + sk,
                },
                None => r matches Ok(p) && exists|id: Seq<char>| is_hyphenated_v4(id) && p.name@ == date_dir@ + seq!['/'] + id + seq!['.'] + match extension_spec(ctx.filename@) {
                    Some(e) => e,
                    None => seq![],
                },
            },
            r matches Ok(p) ==> p.target@ == push_path(self.base_path@, p.name@) && p.url@ == self.domain@ + "/upload/"@ + p.name@,
    {
        if ctx.file_data.len() == 0 {
            return Err(UploadError::EmptyFile);
        }
        let final_name = match &ctx.key {
            Some(k) => match PathValidator::sanitize_path(k.as_str()) {
                Ok(sk) => sk,
                Err(e) => return Err(e),
            },
            None => {
                let ext = match get_extension(ctx.filename.as_str()) {
                    Some(e) => e,
                    None => String::new(),
                };
                let mut n = uuid();
                n.append(".");
                n.append(ext.as_str());
                n
            },
        };
        let mut name = to_owned_string(date_dir);
        name.append("/");
        name.append(final_name.as_str());
        proof {
            reveal_strlit("/");
            reveal_strlit(".");
            assert("/"@ =~= seq!['/']);
            assert("."@ =~= seq!['.']);
        }
        let plan = self.plan_for(name);
        Ok(plan)
    }

    /// The target and URL of the name `name`.
    fn plan_for(&self, name: String) -> (r: UploadPlan)
        ensures
            r.name == name,
            r.target@ == push_path(self.base_path@, name@),
            r.url@ == self.domain@ + "/upload/"@ + name@,
    {
        let parts = vec![name.clone()];
        let ghost pv = seq![name@];
        assert(parts@.map_values(|s: String| s@) =~= pv);
        assert(pv.drop_last() =~= Seq::<Seq<char>>::empty());
        assert(join_path_spec(self.base_path@, pv.drop_last()) == self.base_path@);
        let target = join_path(self.base_path.as_str(), &parts);
        let mut url = self.domain.clone();
        url.append("/upload/");
        url.append(name.as_str());
        UploadPlan { name, target, url }
    }

    /// Plans the upload of a local file under the key `key` into `date_dir`:
    /// the key is sanitised and used as the path below the day's directory.
    pub fn upload_with_key_plan(&self, key: &str, date_dir: &str) -> (r: Result<UploadPlan, UploadError>)
        requires
            !(key@.len() == 1 && !is_ascii_char(key@[0])),
        ensures
            match sanitize_spec(key@) {
                None => r matches Err(UploadError::InvalidPath),
                Some(sk) => r matches Ok(p) && p.name@ == date_dir@ + seq!['/'] + sk
                    && p.target@ == push_path(self.base_path@, p.name@)
                    && p.url@ == self.domain@ + "/upload/"@ + p.name@,
            },
    {
        let sk = match PathValidator::sanitize_path(key) {
            Ok(s) => s,
            Err(e) => return Err(e),
        };
        let mut name = to_owned_string(date_dir);
        name.append("/");
        name.append(sk.as_str());
        proof {
            reveal_strlit("/");
            assert("/"@ =~= seq!['/']);
        }
        Ok(self.plan_for(name))
    }

    /// Plans storing a downloaded file into `date_dir`: URLs over HTTP(S) are
    /// refused (no HTTP client is configured); a given file name is sanitised
    /// and only its last component kept; else a fresh UUID with the extension
    /// of the file name or, without one, of the source.
    pub fn down_and_upload_plan(&self, source: &str, file_name: Option<&str>, date_dir: &str) -> (r: Result<UploadPlan, UploadError>)
        requires
            file_name matches Some(n) ==> !(n@.len() == 1 && !is_ascii_char(n@[0])) && n@.len() < 0x7fff_ffff_ffff_ffff,
            source@.len() < 0x7fff_ffff_ffff_ffff,
        ensures
            (starts_with(source@, "http://"@) || starts_with(source@, "https://"@)) ==> (r matches Err(UploadError::Http(m)) && m@ == "HTTP 下载功能需要 reqwest 依赖"@),
            !(starts_with(source@, "http://"@) || starts_with(source@, "https://"@)) ==> match file_name {
                Some(n) => match sanitize_spec(n@) {
                    None => r matches Err(UploadError::InvalidPath),
                    Some(sn) => r matches Ok(p) && p.name@ == date_dir@ + seq!['/'] + match file_name_spec(sn) {
                        Some(f) => f,
                        None => sn,
                    },
                },
                None => r matches Ok(p) && exists|id: Seq<char>| is_hyphenated_v4(id) && p.name@ == date_dir@ + seq!['/'] + id + seq!['.'] + match extension_spec(source@) {
                    Some(e) => e,
                    None => seq![],
                },
            },
            r matches Ok(p) ==> p.target@ == push_path(self.base_path@, p.name@) && p.url@ == self.domain@ + "/upload/"@ + p.name@,
    {
        if str_starts_with(source, "http://") || str_starts_with(source, "https://") {
            return Err(UploadError::Http(to_owned_string("HTTP 下载功能需要 reqwest 依赖")));
        }
        let safe = match file_name {
            Some(n) => {
                let sn = match PathValidator::sanitize_path(n) {
                    Ok(s) => s,
                    Err(e) => return Err(e),
                };
                proof {
                    crate::util::location::lemma_file_name_len(sn@);
                }
                match get_filename(sn.as_str()) {
                    Some(f) => f,
                    None => sn,
                }
            },
            None => {
                let ext = match get_extension(source) {
                    Some(e) => e,
                    None => String::new(),
                };
                let mut x = uuid();
                x.append(".");
                x.append(ext.as_str());
                x
            },
        };
        let mut name = to_owned_string(date_dir);
        name.append("/");
        name.append(safe.as_str());
        proof {
            reveal_strlit("/");
            reveal_strlit(".");
            assert("/"@ =~= seq!['/']);
            assert("."@ =~= seq!['.']);
        }
        Ok(self.plan_for(name))
    }
}

} // verus!
