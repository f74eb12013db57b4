//! Search-engine settings: connection settings, index settings and the
//! settings read from `#[cool_es_index(..)]`, and the summary of an index.

pub mod client;
pub mod search;

use vstd::prelude::*;
use crate::attr::simple::{split_args, split_args_exec};
use crate::attr::{chars_are, owned};
use crate::scan::{
    trim, unquote, trim_char, find_char, parse_unsigned, string_views, trim_ws, unquote_chars,
    trim_matches, find_char_index, parse_u32, slice_chars,
};
use crate::text::{split_spec, split_char, views, chars_of, to_owned_string, str_lower, str_to_lowercase};

verus! {

/// Connection settings.
#[derive(Debug)]
pub struct EsConfig {
    pub nodes: Vec<String>,
    pub username: Option<String>,
    pub password: Option<String>,
    /// Connection timeout in seconds.
    pub timeout: u64,
}

impl Default for EsConfig {
    /// One local node, no credentials, 30 seconds.
    fn default() -> (r: EsConfig)
        ensures
            string_views(r.nodes@) == seq!["http://localhost:9200"@],
            r.username is None,
            r.password is None,
            r.timeout == 30,
    {
        let r = EsConfig {
            nodes: vec![to_owned_string("http://localhost:9200")],
            username: None,
            password: None,
            timeout: 30,
        };
        assert(string_views(r.nodes@) =~= seq!["http://localhost:9200"@]);
        r
    }
}

/// Index settings.
#[derive(Debug)]
pub struct EsIndexConfig {
    pub name: String,
    pub shards: u32,
    pub replicas: u32,
    pub analyzers: Vec<String>,
}

impl Default for EsIndexConfig {
    /// No name, 8 shards, 1 replica, no analyzers.
    fn default() -> (r: EsIndexConfig)
        ensures
            r.name@.len() == 0,
            r.shards == 8,
            r.replicas == 1,
            r.analyzers@.len() == 0,
    {
        EsIndexConfig { name: String::new(), shards: 8, replicas: 1, analyzers: Vec::new() }
    }
}

/// What the arguments of `#[cool_es_index(..)]` set.
pub struct EsIndexSpec {
    pub name: Option<Seq<char>>,
    pub shards: u32,
    pub replicas: u32,
    pub analyzers: Seq<Seq<char>>,
}

/// The items of a bracketed analyzer list, trimmed and unquoted, empty ones
/// left out.
pub open spec fn analyzer_items(pieces: Seq<Seq<char>>) -> Seq<Seq<char>>
    decreases pieces.len(),
{
    if pieces.len() == 0 {
        seq![]
    } else {
        let prev = analyzer_items(pieces.drop_last());
        let t = trim_char(trim(pieces.last()), '"');
        if t.len() > 0 {
            prev.push(t)
        } else {
            prev
        }
    }
}

/// The effect of one `key = value` argument.
pub open spec fn es_index_step(acc: EsIndexSpec, raw: Seq<char>) -> EsIndexSpec {
    let part = trim(raw);
    match find_char(part, '=') {
        Some(pos) => {
            let key = trim(part.take(pos));
            let value = unquote(part.skip(pos + 1));
            if key == "name"@ {
                EsIndexSpec { name: Some(value), ..acc }
            } else if key == "shards"@ {
                match parse_unsigned(value, u32::MAX as nat) {
                    Some(v) => EsIndexSpec { shards: v as u32, ..acc },
                    None => acc,
                }
            } else if key == "replicas"@ {
                match parse_unsigned(value, u32::MAX as nat) {
                    Some(v) => EsIndexSpec { replicas: v as u32, ..acc },
                    None => acc,
                }
            } else if key == "analyzers"@ && value.len() >= 2 && value[0] == '['
                && value.last() == ']' {
                let content = trim(value.subrange(1, value.len() - 1));
                EsIndexSpec { analyzers: analyzer_items(split_spec(content, ',')), ..acc }
            } else {
                acc
            }
        },
        None => acc,
    }
}

/// The keyed arguments read from left to right.
pub open spec fn es_index_fold(parts: Seq<Seq<char>>) -> EsIndexSpec
    decreases parts.len(),
{
    if parts.len() == 0 {
        EsIndexSpec { name: None, shards: 8, replicas: 1, analyzers: seq![] }
    } else {
        es_index_step(es_index_fold(parts.drop_last()), parts.last())
    }
}

/// What an `#[cool_es_index(..)]` argument text sets: nothing without
/// arguments, a name where the text is quoted, else keyed arguments separated
/// by the commas outside string literals and brackets.
pub open spec fn es_index_spec(args: Seq<char>) -> EsIndexSpec {
    if args.len() == 0 {
        EsIndexSpec { name: None, shards: 8, replicas: 1, analyzers: seq![] }
    } else if args[0] == '"' {
        EsIndexSpec { name: Some(trim_char(args, '"')), shards: 8, replicas: 1, analyzers: seq![] }
    } else {
        es_index_fold(split_args(args))
    }
}

/// The index name: the one given, else the struct's name in lower case.
pub open spec fn es_index_name(args: Seq<char>, struct_name: Seq<char>) -> Seq<char> {
    match es_index_spec(args).name {
        Some(n) => n,
        None => str_lower(struct_name),
    }
}

fn analyzer_items_exec(content: &Vec<char>) -> (r: Vec<String>)
    ensures
        string_views(r@) == analyzer_items(split_spec(content@, ',')),
{
    let pieces = split_char(content, ',');
    let mut out: Vec<String> = Vec::new();
    let mut i: usize = 0;
    while i < pieces.len()
        invariant
            i <= pieces.len(),
            views(pieces@) == split_spec(content@, ','),
            string_views(out@) == analyzer_items(views(pieces@).take(i as int)),
        decreases pieces.len() - i,
    {
        let t = trim_matches(&trim_ws(&pieces[i]), '"');
        assert(views(pieces@).take(i + 1).drop_last() =~= views(pieces@).take(i as int));
        assert(views(pieces@).take(i + 1).last() == pieces@[i as int]@);
        if t.len() > 0 {
            let ghost before = out@;
            out.push(owned(&t));
            assert(string_views(out@) =~= string_views(before).push(t@));
        }
        i = i + 1;
    }
    assert(views(pieces@).take(pieces.len() as int) =~= views(pieces@));
    out
}

/// The view of index settings, with the name left open.
pub open spec fn es_index_view(c: EsIndexConfig, name_given: Option<Seq<char>>) -> EsIndexSpec {
    EsIndexSpec { name: name_given, shards: c.shards, replicas: c.replicas, analyzers: string_views(c.analyzers@) }
}

fn es_index_step_exec(acc: &mut EsIndexConfig, name: &mut Option<String>, raw: &Vec<char>)
    ensures
        es_index_view(*final(acc), crate::attr::opt_view(*final(name))) == es_index_step(
            es_index_view(*old(acc), crate::attr::opt_view(*old(name))),
            raw@,
        ),
        final(acc).name == old(acc).name,
{
    let part = trim_ws(raw);
    match find_char_index(&part, '=') {
        Some(pos) => {
            assert(crate::scan::is_first_index(part@, '=', pos as int));
            let k = slice_chars(&part, 0, pos);
            assert(pos < part.len());
            let key = trim_ws(&k);
            assert(pos < part.len());
            let rest = slice_chars(&part, pos + 1, part.len());
            let value = unquote_chars(&rest);
            assert(k@ =~= part@.take(pos as int));
            assert(rest@ =~= part@.skip(pos + 1));
            if chars_are(&key, "name") {
                *name = Some(owned(&value));
            } else if chars_are(&key, "shards") {
                match parse_u32(&value) {
                    Some(v) => {
                        acc.shards = v;
                    },
                    None => {},
                }
            } else if chars_are(&key, "replicas") {
                match parse_u32(&value) {
                    Some(v) => {
                        acc.replicas = v;
                    },
                    None => {},
                }
            } else if chars_are(&key, "analyzers") && value.len() >= 2 && value[0] == '['
                && value[value.len() - 1] == ']' {
                let inner = slice_chars(&value, 1, value.len() - 1);
                let content = trim_ws(&inner);
                acc.analyzers = analyzer_items_exec(&content);
            }
        },
        None => {},
    }
}

/// Reads the settings of `#[cool_es_index(..)]` on the struct `struct_name`.
pub fn es_index_config(args: &str, struct_name: &str) -> (r: EsIndexConfig)
    ensures
        r.name@ == es_index_name(args@, struct_name@),
        r.shards == es_index_spec(args@).shards,
        r.replicas == es_index_spec(args@).replicas,
        string_views(r.analyzers@) == es_index_spec(args@).analyzers,
{
    let chars = chars_of(args);
    let mut acc = EsIndexConfig::default();
    let mut name: Option<String> = None;
    assert(string_views(acc.analyzers@) =~= seq![]);
    if chars.len() == 0 {
    } else if chars[0] == '"' {
        name = Some(owned(&trim_matches(&chars, '"')));
    } else {
        let parts = split_args_exec(&chars);
        let mut i: usize = 0;
        while i < parts.len()
            invariant
                i <= parts.len(),
                views(parts@) == split_args(args@),
                es_index_view(acc, crate::attr::opt_view(name)) == es_index_fold(
                    views(parts@).take(i as int),
                ),
            decreases parts.len() - i,
        {
            assert(views(parts@).take(i + 1).drop_last() =~= views(parts@).take(i as int));
            assert(views(parts@).take(i + 1).last() == parts@[i as int]@);
            es_index_step_exec(&mut acc, &mut name, &parts[i]);
            i = i + 1;
        }
        assert(views(parts@).take(parts.len() as int) =~= views(parts@));
    }
    acc.name = match name {
        Some(n) => n,
        None => str_to_lowercase(struct_name),
    };
    acc
}

/// A summary of an index.
#[derive(Debug)]
pub struct IndexInfo {
    pub name: String,
    pub docs_count: u64,
    pub store_size: String,
    pub health: String,
    pub status: String,
}

/// The summary given of an existing index: no documents counted, size `0b`,
/// health `green`, status `open`; none for a missing index.
pub fn index_info(name: &str, exists: bool) -> (r: Option<IndexInfo>)
    ensures
        exists <==> r is Some,
        r matches Some(i) ==> i.name@ == name@ && i.docs_count == 0 && i.store_size@ == "0b"@
            && i.health@ == "green"@ && i.status@ == "open"@,
{
    if !exists {
        return None;
    }
    Some(
        IndexInfo {
            name: to_owned_string(name),
            docs_count: 0,
            store_size: to_owned_string("0b"),
            health: to_owned_string("green"),
            status: to_owned_string("open"),
        },
    )
}

} // verus!
