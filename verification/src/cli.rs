//! Command-line helpers: replacing the default keys left in configuration
//! files, choosing the entity files by a glob pattern, and the text of the
//! generated entities file. Reading, scanning and writing files is done by the
//! application.

use vstd::prelude::*;
use crate::text::{to_owned_string, str_contains, contains_seq, nat_text, u64_text, chars_of, string_from_chars};
use crate::util::{uuid, is_hyphenated_v4};
use crate::util::string::{replace_all, replace_spec};

verus! {

/// A configuration file to check and the default key it must not keep.
#[derive(Debug)]
pub struct CheckConfig {
    path: String,
    pattern: String,
}

impl View for CheckConfig {
    type V = (Seq<char>, Seq<char>);

    closed spec fn view(&self) -> (Seq<char>, Seq<char>) {
        (self.path@, self.pattern@)
    }
}

impl CheckConfig {
    /// The file's path, relative to the project.
    pub fn path(&self) -> (r: &str)
        ensures
            r@ == self@.0,
    {
        self.path.as_str()
    }

    /// The default key.
    pub fn pattern(&self) -> (r: &str)
        ensures
            r@ == self@.1,
    {
        self.pattern.as_str()
    }
}

/// The files checked, with their default keys.
pub fn default_check_configs() -> (r: Vec<CheckConfig>)
    ensures
        r@.len() == 3,
        r@[0]@ == ("src/config/config.default.ts"@, "cool-admin-keys-xxxxxx"@),
        r@[1]@ == ("src/modules/base/config.ts"@, "cool-admin-xxxxxx"@),
        r@[2]@ == ("src/modules/user/config.ts"@, "cool-app-xxxxx"@),
{
    vec![
        CheckConfig { path: to_owned_string("src/config/config.default.ts"), pattern: to_owned_string("cool-admin-keys-xxxxxx") },
        CheckConfig { path: to_owned_string("src/modules/base/config.ts"), pattern: to_owned_string("cool-admin-xxxxxx") },
        CheckConfig { path: to_owned_string("src/modules/user/config.ts"), pattern: to_owned_string("cool-app-xxxxx") },
    ]
}

/// The new content of a checked file: where it holds the default key, every
/// occurrence is replaced by one fresh UUID; otherwise it is left alone.
pub fn replace_default_key(config: &CheckConfig, content: &str) -> (r: Option<String>)
    ensures
        !contains_seq(content@, config@.1) ==> r is None,
        contains_seq(content@, config@.1) ==> (r matches Some(s) && exists|id: Seq<char>| is_hyphenated_v4(id)
            && s@ == replace_spec(content@, config@.1, id)),
{
    if !str_contains(content, config.pattern.as_str()) {
        return None;
    }
    let id = uuid();
    Some(replace_all(content, config.pattern.as_str(), id.as_str()))
}

/// The header of the entities file.
pub open spec fn entities_header() -> Seq<char> {
    "// 自动生成的文件，请勿手动修改\n// 注意：Rust 版本的实体导出方式与 TypeScript 不同\n// 请根据实际情况调整导出语句\n"@
}

/// The module lines of `n` entity files: `mod entity_0;` to `mod entity_{n-1};`,
/// one per line.
pub open spec fn module_lines(n: nat) -> Seq<char>
    decreases n,
{
    if n == 0 {
        seq![]
    } else if n == 1 {
        "mod entity_"@ + nat_text(0) + ";"@
    } else {
        module_lines((n - 1) as nat) + "\n"@ + "mod entity_"@ + nat_text((n - 1) as nat) + ";"@
    }
}

/// The footer of the entities file.
pub open spec fn entities_footer() -> Seq<char> {
    "\n\n// 导出所有实体\n// pub use entity_0::*;\n// pub use entity_1::*;\n// ...\n"@
}

/// The content of the entities file for `n` entity files.
pub fn entities_file_content(n: u64) -> (r: String)
    ensures
        r@ == entities_header() + module_lines(n as nat) + entities_footer(),
{
    let mut body = String::new();
    let mut i: u64 = 0;
    proof {
        reveal_strlit("");
        assert(body@ =~= module_lines(0));
    }
    while i < n
        invariant
            i <= n,
            body@ == module_lines(i as nat),
        decreases n - i,
    {
        if i > 0 {
            body.append("\n");
        }
        body.append("mod entity_");
        let t = u64_text(i);
        body.append(t.as_str());
        body.append(";");
        proof {
            if i == 0 {
                assert(body@ =~= module_lines(1));
            } else {
                assert(body@ =~= module_lines((i + 1) as nat));
            }
        }
        i = i + 1;
    }
    let mut r = to_owned_string("// 自动生成的文件，请勿手动修改\n// 注意：Rust 版本的实体导出方式与 TypeScript 不同\n// 请根据实际情况调整导出语句\n");
    r.append(body.as_str());
    r.append("\n\n// 导出所有实体\n// pub use entity_0::*;\n// pub use entity_1::*;\n// ...\n");
    r
}

/// The content of the cleared entities file.
pub fn cleared_entities_content() -> (r: String)
    ensures
        r@ == "// 自动生成的文件，请勿手动修改\n// Rust 版本的实体导出方式与 TypeScript 不同\n// 请根据实际情况调整导出语句\n"@,
{
    to_owned_string("// 自动生成的文件，请勿手动修改\n// Rust 版本的实体导出方式与 TypeScript 不同\n// 请根据实际情况调整导出语句\n")
}


// ---------------------------------------------------------------- entity files

/// The directory, relative to the project, whose entity files are collected.
pub const MODULES_PATH: &'static str = "src/modules";

/// The entities file, relative to the project.
pub const OUTPUT_FILE: &'static str = "src/entities.ts";

/// The glob pattern that an entity file's path, relative to the modules
/// directory, must match.
pub const ENTITY_FILE_PATTERN: &'static str = "**/entity/**/*.rs";

/// Whether `pattern` compiles as a glob pattern (`glob::Pattern::new`).
pub uninterp spec fn glob_pattern_valid(pattern: Seq<char>) -> bool;

/// Whether the compiled glob `pattern` matches `path` (`glob::Pattern::matches`).
pub uninterp spec fn glob_matches(pattern: Seq<char>, path: Seq<char>) -> bool;

/// Compiles `pattern` with `glob::Pattern::new` and, where it compiles, tests
/// `path` with `Pattern::matches`. Trusted: `None` exactly where the pattern
/// does not compile; otherwise whether it matches, which depends on the two
/// texts alone.
#[verifier::external_body]
fn glob_match(pattern: &str, path: &str) -> (r: Option<bool>)
    ensures
        r is Some <==> glob_pattern_valid(pattern@),
        r matches Some(b) ==> b == glob_matches(pattern@, path@),
{
    match glob::Pattern::new(pattern) {
        Ok(p) => Some(p.matches(path)),
        Err(_) => None,
    }
}

/// A path with every backslash turned into a slash.
pub open spec fn slash_path(s: Seq<char>) -> Seq<char> {
    Seq::new(s.len(), |i: int| if s[i] == '\\' { '/' } else { s[i] })
}

/// `path` with every backslash turned into a slash.
pub fn to_slash_path(path: &str) -> (r: String)
    ensures
        r@ == slash_path(path@),
{
    let cs = chars_of(path);
    let mut out: Vec<char> = Vec::new();
    let mut i: usize = 0;
    while i < cs.len()
        invariant
            cs@ == path@,
            i <= cs.len(),
            out@ =~= slash_path(path@).take(i as int),
        decreases cs.len() - i,
    {
        let c = cs[i];
        if c == '\\' {
            out.push('/');
        } else {
            out.push(c);
        }
        i = i + 1;
    }
    proof {
        assert(slash_path(path@).take(cs.len() as int) =~= slash_path(path@));
    }
    string_from_chars(&out)
}

/// The full paths of the files, in their order, whose relative path (with
/// slashes) matches `pattern`.
pub open spec fn matching_files(files: Seq<(Seq<char>, Seq<char>)>, pattern: Seq<char>) -> Seq<
    Seq<char>,
>
    decreases files.len(),
{
    if files.len() == 0 {
        seq![]
    } else {
        let rest = matching_files(files.drop_last(), pattern);
        if glob_matches(pattern, slash_path(files.last().1)) {
            rest.push(files.last().0)
        } else {
            rest
        }
    }
}

/// The entity files among `files`, each given as its full path and its path
/// relative to the modules directory: those whose relative path, with
/// slashes, matches the entity pattern, in their order. `None` where the
/// pattern does not compile.
pub fn select_entity_files(files: &Vec<(String, String)>) -> (r: Option<Vec<String>>)
    ensures
        r is Some <==> glob_pattern_valid(ENTITY_FILE_PATTERN@),
        r matches Some(v) ==> v@.map_values(|s: String| s@) == matching_files(
            files@.map_values(|f: (String, String)| (f.0@, f.1@)),
            ENTITY_FILE_PATTERN@,
        ),
{
    if glob_match(ENTITY_FILE_PATTERN, "").is_none() {
        return None;
    }
    let ghost fs = files@.map_values(|f: (String, String)| (f.0@, f.1@));
    let mut out: Vec<String> = Vec::new();
    let mut i: usize = 0;
    while i < files.len()
        invariant
            i <= files.len(),
            fs == files@.map_values(|f: (String, String)| (f.0@, f.1@)),
            glob_pattern_valid(ENTITY_FILE_PATTERN@),
            out@.map_values(|s: String| s@) =~= matching_files(fs.take(i as int), ENTITY_FILE_PATTERN@),
        decreases files.len() - i,
    {
        let rel = to_slash_path(files[i].1.as_str());
        let m = glob_match(ENTITY_FILE_PATTERN, rel.as_str());
        proof {
            assert(fs.take(i as int + 1).drop_last() =~= fs.take(i as int));
            assert(fs.take(i as int + 1).last() == fs[i as int]);
        }
        if let Some(true) = m {
            let full = files[i].0.clone();
            out.push(full);
            proof {
                assert(out@.map_values(|s: String| s@) =~= matching_files(
                    fs.take(i as int),
                    ENTITY_FILE_PATTERN@,
                ).push(fs[i as int].0));
            }
        }
        i = i + 1;
    }
    proof {
        assert(fs.take(files.len() as int) =~= fs);
    }
    Some(out)
}

/// The entities file to write for `n` entity files: none where there are no
/// entity files.
pub fn entities_file_plan(n: u64) -> (r: Option<String>)
    ensures
        n == 0 <==> r is None,
        r matches Some(c) ==> c@ == entities_header() + module_lines(n as nat) + entities_footer(),
{
    if n == 0 {
        None
    } else {
        Some(entities_file_content(n))
    }
}

} // verus!
