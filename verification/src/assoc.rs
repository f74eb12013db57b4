//! Tables keyed by text, held as vectors of pairs with each key at most once.

use vstd::prelude::*;
use crate::text::str_eq;

verus! {

/// The value stored under `k`: the first pair whose key is `k`.
pub open spec fn assoc_get<V>(s: Seq<(String, V)>, k: Seq<char>) -> Option<V>
    decreases s.len(),
{
    if s.len() == 0 {
        None
    } else if s[0].0@ == k {
        Some(s[0].1)
    } else {
        assoc_get(s.drop_first(), k)
    }
}

/// Every key occurs at most once.
pub open spec fn keys_unique<V>(s: Seq<(String, V)>) -> bool {
    forall|i: int, j: int| 0 <= i < j < s.len() ==> s[i].0@ != s[j].0@
}

pub proof fn lemma_assoc_get_at<V>(s: Seq<(String, V)>, i: int)
    requires
        keys_unique(s),
        0 <= i < s.len(),
    ensures
        assoc_get(s, s[i].0@) == Some(s[i].1),
    decreases s.len(),
{
    if i > 0 {
        let t = s.drop_first();
        assert(t[i - 1] == s[i]);
        assert(keys_unique(t)) by {
            assert forall|a: int, b: int| 0 <= a < b < t.len() implies t[a].0@ != t[b].0@ by {
                assert(t[a] == s[a + 1] && t[b] == s[b + 1]);
            }
        }
        assert(s[0].0@ != s[i].0@);
        lemma_assoc_get_at(t, i - 1);
    }
}

pub proof fn lemma_assoc_get_some<V>(s: Seq<(String, V)>, k: Seq<char>)
    requires
        assoc_get(s, k) is Some,
    ensures
        exists|i: int| 0 <= i < s.len() && s[i].0@ == k && assoc_get(s, k) == Some(s[i].1),
    decreases s.len(),
{
    if s[0].0@ != k {
        lemma_assoc_get_some(s.drop_first(), k);
        let i = choose|i: int|
            0 <= i < s.drop_first().len() && s.drop_first()[i].0@ == k && assoc_get(
                s.drop_first(),
                k,
            ) == Some(s.drop_first()[i].1);
        assert(s[i + 1] == s.drop_first()[i]);
    }
}

pub proof fn lemma_assoc_get_none<V>(s: Seq<(String, V)>, k: Seq<char>)
    ensures
        assoc_get(s, k) is None <==> forall|i: int| 0 <= i < s.len() ==> s[i].0@ != k,
    decreases s.len(),
{
    if s.len() > 0 {
        lemma_assoc_get_none(s.drop_first(), k);
        if s[0].0@ != k {
            assert forall|i: int| 0 <= i < s.len() && (forall|j: int| 0 <= j < s.drop_first().len() ==> s.drop_first()[j].0@ != k) implies s[i].0@ != k by {
                if i > 0 {
                    assert(s[i] == s.drop_first()[i - 1]);
                }
            }
            assert forall|j: int| 0 <= j < s.drop_first().len() && (forall|i: int| 0 <= i < s.len() ==> s[i].0@ != k) implies s.drop_first()[j].0@ != k by {
                assert(s[j + 1] == s.drop_first()[j]);
            }
        }
    }
}

/// The position of `key`, if it is stored.
pub fn assoc_find<V>(s: &Vec<(String, V)>, key: &str) -> (r: Option<usize>)
    requires
        keys_unique(s@),
    ensures
        match r {
            Some(i) => i < s@.len() && s@[i as int].0@ == key@ && assoc_get(s@, key@) == Some(
                s@[i as int].1,
            ),
            None => assoc_get(s@, key@) is None,
        },
{
    let mut i: usize = 0;
    while i < s.len()
        invariant
            i <= s@.len(),
            keys_unique(s@),
            forall|j: int| 0 <= j < i ==> s@[j].0@ != key@,
        decreases s.len() - i,
    {
        if str_eq(s[i].0.as_str(), key) {
            proof {
                lemma_assoc_get_at(s@, i as int);
            }
            return Some(i);
        }
        i = i + 1;
    }
    proof {
        lemma_assoc_get_none(s@, key@);
    }
    None
}

pub proof fn lemma_assoc_update<V>(s: Seq<(String, V)>, i: int, v: V)
    requires
        keys_unique(s),
        0 <= i < s.len(),
    ensures
        keys_unique(s.update(i, (s[i].0, v))),
        forall|x: Seq<char>|
            #[trigger] assoc_get(s.update(i, (s[i].0, v)), x) == if x == s[i].0@ {
                Some(v)
            } else {
                assoc_get(s, x)
            },
{
    let t = s.update(i, (s[i].0, v));
    assert forall|a: int, b: int| 0 <= a < b < t.len() implies t[a].0@ != t[b].0@ by {
        assert(t[a].0 == s[a].0 && t[b].0 == s[b].0);
    }
    assert forall|x: Seq<char>|
        #[trigger] assoc_get(t, x) == if x == s[i].0@ {
            Some(v)
        } else {
            assoc_get(s, x)
        } by {
        if x == s[i].0@ {
            lemma_assoc_get_at(t, i);
        } else {
            lemma_assoc_get_none(s, x);
            lemma_assoc_get_none(t, x);
            if assoc_get(s, x) is Some {
                lemma_assoc_get_some(s, x);
                let j = choose|j: int| 0 <= j < s.len() && s[j].0@ == x && assoc_get(s, x) == Some(s[j].1);
                assert(j != i);
                assert(t[j] == s[j]);
                lemma_assoc_get_at(t, j);
            }
        }
    }
}

pub proof fn lemma_assoc_push<V>(s: Seq<(String, V)>, e: (String, V))
    requires
        keys_unique(s),
        assoc_get(s, e.0@) is None,
    ensures
        keys_unique(s.push(e)),
        forall|x: Seq<char>|
            #[trigger] assoc_get(s.push(e), x) == if x == e.0@ {
                Some(e.1)
            } else {
                assoc_get(s, x)
            },
{
    let t = s.push(e);
    lemma_assoc_get_none(s, e.0@);
    assert forall|a: int, b: int| 0 <= a < b < t.len() implies t[a].0@ != t[b].0@ by {
        if b == s.len() {
            assert(t[a] == s[a]);
        } else {
            assert(t[a] == s[a] && t[b] == s[b]);
        }
    }
    assert forall|x: Seq<char>|
        #[trigger] assoc_get(t, x) == if x == e.0@ {
            Some(e.1)
        } else {
            assoc_get(s, x)
        } by {
        if x == e.0@ {
            assert(t[s.len() as int] == e);
            lemma_assoc_get_at(t, s.len() as int);
        } else {
            lemma_assoc_get_none(s, x);
            lemma_assoc_get_none(t, x);
            if assoc_get(s, x) is Some {
                lemma_assoc_get_some(s, x);
                let j = choose|j: int| 0 <= j < s.len() && s[j].0@ == x && assoc_get(s, x) == Some(s[j].1);
                assert(t[j] == s[j]);
                lemma_assoc_get_at(t, j);
            } else {
                assert forall|j: int| 0 <= j < t.len() implies t[j].0@ != x by {
                    if j < s.len() {
                        assert(t[j] == s[j]);
                    }
                }
            }
        }
    }
}

pub proof fn lemma_assoc_remove<V>(s: Seq<(String, V)>, i: int)
    requires
        keys_unique(s),
        0 <= i < s.len(),
    ensures
        keys_unique(s.remove(i)),
        forall|x: Seq<char>|
            #[trigger] assoc_get(s.remove(i), x) == if x == s[i].0@ {
                None
            } else {
                assoc_get(s, x)
            },
{
    let t = s.remove(i);
    assert forall|a: int, b: int| 0 <= a < b < t.len() implies t[a].0@ != t[b].0@ by {
        let a2 = if a < i { a } else { a + 1 };
        let b2 = if b < i { b } else { b + 1 };
        assert(t[a] == s[a2] && t[b] == s[b2]);
    }
    assert forall|x: Seq<char>|
        #[trigger] assoc_get(t, x) == if x == s[i].0@ {
            None
        } else {
            assoc_get(s, x)
        } by {
        lemma_assoc_get_none(t, x);
        lemma_assoc_get_none(s, x);
        if x == s[i].0@ {
            assert forall|j: int| 0 <= j < t.len() implies t[j].0@ != x by {
                let j2 = if j < i { j } else { j + 1 };
                assert(t[j] == s[j2]);
            }
        } else {
            if assoc_get(s, x) is Some {
                lemma_assoc_get_some(s, x);
                let j = choose|j: int| 0 <= j < s.len() && s[j].0@ == x && assoc_get(s, x) == Some(s[j].1);
                assert(j != i);
                let j1 = if j < i { j } else { j - 1 };
                assert(t[j1] == s[j]);
                lemma_assoc_get_at(t, j1);
            } else {
                assert forall|j: int| 0 <= j < t.len() implies t[j].0@ != x by {
                    let j2 = if j < i { j } else { j + 1 };
                    assert(t[j] == s[j2]);
                }
            }
        }
    }
}

/// Stores `v` under `key`: in place where the key is stored, else at the end.
pub fn assoc_set<V>(s: &mut Vec<(String, V)>, key: &str, v: V)
    requires
        keys_unique(old(s)@),
    ensures
        keys_unique(final(s)@),
        forall|x: Seq<char>| #[trigger] assoc_get(final(s)@, x) == if x == key@ {
            Some(v)
        } else {
            assoc_get(old(s)@, x)
        },
        assoc_get(old(s)@, key@) is Some ==> final(s)@.len() == old(s)@.len(),
        assoc_get(old(s)@, key@) is None ==> final(s)@.len() == old(s)@.len() + 1,
{
    let ghost vv = v;
    match assoc_find(s, key) {
        Some(i) => {
            proof {
                lemma_assoc_update(s@, i as int, vv);
            }
            let ghost before = s@;
            let (k, _old) = s.remove(i);
            s.insert(i, (k, v));
            assert(s@ =~= before.update(i as int, (before[i as int].0, vv)));
        },
        None => {
            let e = (crate::text::to_owned_string(key), v);
            proof {
                lemma_assoc_push(s@, e);
            }
            s.push(e);
        },
    }
}

/// Removes `key`, giving back what was stored under it.
pub fn assoc_take<V>(s: &mut Vec<(String, V)>, key: &str) -> (r: Option<V>)
    requires
        keys_unique(old(s)@),
    ensures
        keys_unique(final(s)@),
        r == assoc_get(old(s)@, key@),
        forall|x: Seq<char>| #[trigger] assoc_get(final(s)@, x) == if x == key@ {
            None
        } else {
            assoc_get(old(s)@, x)
        },
{
    match assoc_find(s, key) {
        Some(i) => {
            proof {
                lemma_assoc_remove(s@, i as int);
            }
            let (_k, v) = s.remove(i);
            Some(v)
        },
        None => {
            assert forall|x: Seq<char>| #[trigger] assoc_get(s@, x) == if x == key@ {
                None
            } else {
                assoc_get(s@, x)
            } by {}
            None
        },
    }
}

} // verus!
