//! Parsing of the argument text of the framework's attributes
//! (`#[eps_route(..)]`, `#[cool_controller(..)]`, `#[cool_queue(..)]`, ...).
//! Each parser takes the argument list as it is printed from the token
//! stream and gives back the settings that the generated code is built from.

pub mod eps_route;
pub mod simple;

use vstd::prelude::*;
use crate::scan::{trim, unquote, split_once, split_once_chars, trim_ws, unquote_chars};
use crate::text::{chars_of, string_from_chars};

verus! {

/// The view of an optional string.
pub open spec fn opt_view(o: Option<String>) -> Option<Seq<char>> {
    match o {
        Some(s) => Some(s@),
        None => None,
    }
}

/// A `key = value` argument: the trimmed text before the first `=` and the
/// unquoted text after it.
pub open spec fn key_value(part: Seq<char>) -> Option<(Seq<char>, Seq<char>)> {
    match split_once(part, '=') {
        Some(kv) => Some((trim(kv.0), unquote(kv.1))),
        None => None,
    }
}

/// Splits a `key = value` argument.
pub fn key_value_chars(part: &Vec<char>) -> (r: Option<(Vec<char>, Vec<char>)>)
    ensures
        match key_value(part@) {
            Some(kv) => r matches Some(q) && q.0@ == kv.0 && q.1@ == kv.1,
            None => r is None,
        },
{
    match split_once_chars(part, '=') {
        Some((k, v)) => Some((trim_ws(&k), unquote_chars(&v))),
        None => None,
    }
}

/// Whether the characters `a` spell out `lit`.
pub fn chars_are(a: &Vec<char>, lit: &str) -> (r: bool)
    ensures
        r == (a@ == lit@),
{
    let b = chars_of(lit);
    if a.len() != b.len() {
        return false;
    }
    let mut i: usize = 0;
    while i < a.len()
        invariant
            a.len() == b.len(),
            b@ == lit@,
            i <= a.len(),
            forall|j: int| 0 <= j < i ==> a@[j] == b@[j],
        decreases a.len() - i,
    {
        if a[i] != b[i] {
            return false;
        }
        i = i + 1;
    }
    assert(a@ =~= b@);
    true
}

/// The characters as an owned string.
pub fn owned(a: &Vec<char>) -> (r: String)
    ensures
        r@ == a@,
{
    string_from_chars(a)
}

} // verus!
