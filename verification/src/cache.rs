//! In-memory cache with per-entry expiry, and the key naming of the Redis cache.
//!
//! Time is passed in by the caller as milliseconds on a monotonic clock; a
//! stored value is the JSON text of what the caller cached.

use vstd::prelude::*;
use crate::text::{
    chars_of, contains_seq, starts_with, str_contains, str_eq, string_from_chars, to_owned_string,
};

verus! {

/// One cached value and the instant after which it is gone.
#[derive(Debug)]
pub struct CacheItem {
    pub value: String,
    pub expire_at: Option<u64>,
}

/// Whether an entry that expires at `expire_at` is gone at `now`: strictly after its expiry.
pub open spec fn expired(expire_at: Option<u64>, now: u64) -> bool {
    match expire_at {
        Some(e) => now > e,
        None => false,
    }
}

/// A cache held in memory.
#[derive(Debug)]
pub struct MemoryCache {
    store: Vec<(String, CacheItem)>,
}

/// The keys of the entries, in storage order.
pub open spec fn store_keys(s: Seq<(String, CacheItem)>) -> Seq<Seq<char>> {
    s.map_values(|e: (String, CacheItem)| e.0@)
}

proof fn proof_index(ks: Seq<Seq<char>>, i: int)
    requires
        ks.no_duplicates(),
        0 <= i < ks.len(),
    ensures
        ks.index_of(ks[i]) == i,
{
    lemma_index_of_unique(ks, i);
}

proof fn lemma_index_of_unique(ks: Seq<Seq<char>>, i: int)
    requires
        ks.no_duplicates(),
        0 <= i < ks.len(),
    ensures
        ks.contains(ks[i]),
        ks.index_of(ks[i]) == i,
{
    assert(ks.contains(ks[i]));
    let j = ks.index_of(ks[i]);
    assert(0 <= j < ks.len() && ks[j] == ks[i]);
}

impl MemoryCache {
    /// Every key is stored once.
    pub closed spec fn wf(&self) -> bool {
        store_keys(self.store@).no_duplicates()
    }

    /// Key to stored text and expiry.
    pub closed spec fn view(&self) -> Map<Seq<char>, (Seq<char>, Option<u64>)> {
        Map::new(
            |k: Seq<char>| store_keys(self.store@).contains(k),
            |k: Seq<char>|
                {
                    let i = store_keys(self.store@).index_of(k);
                    (self.store@[i].1.value@, self.store@[i].1.expire_at)
                },
        )
    }

    /// What `get` answers at `now`: the stored text while the entry lives.
    pub open spec fn lookup(&self, key: Seq<char>, now: u64) -> Option<Seq<char>> {
        if self.view().contains_key(key) && !expired(self.view()[key].1, now) {
            Some(self.view()[key].0)
        } else {
            None
        }
    }

    /// An empty cache.
    pub fn new() -> (c: MemoryCache)
        ensures
            c.wf(),
            c.view() == Map::<Seq<char>, (Seq<char>, Option<u64>)>::empty(),
    {
        let c = MemoryCache { store: Vec::new() };
        assert(c.view() =~= Map::<Seq<char>, (Seq<char>, Option<u64>)>::empty());
        c
    }

    fn find(&self, key: &str) -> (r: Option<usize>)
        requires
            self.wf(),
        ensures
            match r {
                Some(i) => i < self.store@.len() && self.store@[i as int].0@ == key@
                    && store_keys(self.store@).index_of(key@) == i,
                None => !store_keys(self.store@).contains(key@),
            },
    {
        let ghost keys = store_keys(self.store@);
        let mut i: usize = 0;
        while i < self.store.len()
            invariant
                i <= self.store@.len(),
                keys == store_keys(self.store@),
                keys.no_duplicates(),
                forall|j: int| 0 <= j < i ==> keys[j] != key@,
            decreases self.store.len() - i,
        {
            if str_eq(self.store[i].0.as_str(), key) {
                assert(keys[i as int] == key@);
                proof {
                    lemma_index_of_unique(keys, i as int);
                }
                return Some(i);
            }
            i = i + 1;
        }
        assert(!keys.contains(key@)) by {
            if keys.contains(key@) {
                let k = keys.index_of(key@);
                assert(keys[k] == key@);
            }
        }
        None
    }

    /// The stored text of `key` at `now`, unless absent or expired.
    pub fn get(&self, key: &str, now: u64) -> (r: Option<String>)
        requires
            self.wf(),
        ensures
            match r {
                Some(v) => self.lookup(key@, now) == Some(v@),
                None => self.lookup(key@, now) is None,
            },
    {
        match self.find(key) {
            Some(i) => {
                let item = &self.store[i].1;
                assert(store_keys(self.store@)[i as int] == key@);
                assert(store_keys(self.store@).contains(key@));
                assert(self.view().contains_key(key@));
                assert(self.view()[key@] == (item.value@, item.expire_at));
                let live = match item.expire_at {
                    Some(e) => !(now > e),
                    None => true,
                };
                if live {
                    Some(item.value.clone())
                } else {
                    None
                }
            },
            None => None,
        }
    }

    /// Whether `key` holds a live value at `now`.
    pub fn key_exists(&self, key: &str, now: u64) -> (b: bool)
        requires
            self.wf(),
        ensures
            b == (self.lookup(key@, now) is Some),
    {
        match self.get(key, now) {
            Some(_) => true,
            None => false,
        }
    }

    /// Stores `value` under `key`; with a time to live it expires `ttl`
    /// milliseconds after `now`.
    pub fn set(&mut self, key: &str, value: String, ttl: Option<u64>, now: u64)
        requires
            old(self).wf(),
            ttl matches Some(t) ==> now + t <= u64::MAX,
        ensures
            final(self).wf(),
            final(self).view() == old(self).view().insert(
                key@,
                (
                    value@,
                    match ttl {
                        Some(t) => Some((now + t) as u64),
                        None => None,
                    },
                ),
            ),
    {
        let expire_at = match ttl {
            Some(t) => Some(now + t),
            None => None,
        };
        let ghost v_old = old(self).view();
        let ghost entry = (value@, expire_at);
        match self.find(key) {
            Some(i) => {
                let ghost before = self.store@;
                self.store.set(i, (to_owned_string(key), CacheItem { value, expire_at }));
                assert(store_keys(self.store@) =~= store_keys(before));
                let ghost ks = store_keys(self.store@);
                assert(ks[i as int] == key@);
                assert(ks.contains(key@));
                assert forall|k: Seq<char>| #![auto] self.view().contains_key(k) == v_old.insert(key@, entry).contains_key(k) by {}
                assert forall|k: Seq<char>| #![auto] self.view().contains_key(k) implies self.view()[k] == v_old.insert(key@, entry)[k] by {
                    let j = ks.index_of(k);
                    assert(0 <= j < ks.len() && ks[j] == k);
                    proof_index(ks, j);
                    if k == key@ {
                        proof_index(ks, i as int);
                        assert(j == i);
                    } else {
                        assert(j != i);
                        assert(before[j] == self.store@[j]);
                    }
                }
                assert(self.view() =~= v_old.insert(key@, entry));
            },
            None => {
                let ghost before = self.store@;
                self.store.push((to_owned_string(key), CacheItem { value, expire_at }));
                assert(store_keys(self.store@) =~= store_keys(before).push(key@));
                assert(store_keys(self.store@).no_duplicates()) by {
                    let ks = store_keys(self.store@);
                    assert forall|a: int, b: int| 0 <= a < ks.len() && 0 <= b < ks.len() && a != b implies ks[a] != ks[b] by {
                        if a == ks.len() - 1 {
                            assert(store_keys(before).contains(ks[b]) || b == a);
                        } else if b == ks.len() - 1 {
                            assert(ks[a] == store_keys(before)[a]);
                        }
                    }
                }
                assert forall|k: Seq<char>| #![auto] self.view().contains_key(k) == v_old.insert(key@, entry).contains_key(k) by {
                    assert(store_keys(self.store@)[before.len() as int] == key@);
                    if store_keys(self.store@).contains(k) && k != key@ {
                        let j = store_keys(self.store@).index_of(k);
                        assert(j < before.len());
                        assert(store_keys(before)[j] == k);
                    }
                    if store_keys(before).contains(k) {
                        let j = store_keys(before).index_of(k);
                        assert(store_keys(self.store@)[j] == k);
                    }
                }
                assert forall|k: Seq<char>| #![auto] self.view().contains_key(k) implies self.view()[k] == v_old.insert(key@, entry)[k] by {
                    let ks = store_keys(self.store@);
                    let j = ks.index_of(k);
                    assert(0 <= j < ks.len() && ks[j] == k);
                    proof_index(ks, j);
                    if k == key@ {
                        proof_index(ks, before.len() as int);
                        assert(j == before.len());
                    } else {
                        assert(j < before.len());
                        assert(store_keys(before)[j] == k);
                        proof_index(store_keys(before), j);
                    }
                }
                assert(self.view() =~= v_old.insert(key@, entry));
            },
        }
    }

    /// Removes `key`.
    pub fn del(&mut self, key: &str)
        requires
            old(self).wf(),
        ensures
            final(self).wf(),
            final(self).view() == old(self).view().remove(key@),
    {
        let ghost v_old = old(self).view();
        match self.find(key) {
            Some(i) => {
                let ghost before = self.store@;
                self.store.remove(i);
                let ghost bk = store_keys(before);
                assert(store_keys(self.store@) =~= bk.remove(i as int));
                assert(store_keys(self.store@).no_duplicates()) by {
                    let ks = store_keys(self.store@);
                    assert forall|a: int, b: int| 0 <= a < ks.len() && 0 <= b < ks.len() && a != b implies ks[a] != ks[b] by {
                        let a2 = if a < i { a } else { a + 1 };
                        let b2 = if b < i { b } else { b + 1 };
                        assert(ks[a] == bk[a2]);
                        assert(ks[b] == bk[b2]);
                    }
                }
                assert forall|k: Seq<char>| #![auto] self.view().contains_key(k) == v_old.remove(key@).contains_key(k) by {
                    let ks = store_keys(self.store@);
                    if ks.contains(k) {
                        let j = ks.index_of(k);
                        let j2 = if j < i { j } else { j + 1 };
                        assert(bk[j2] == k);
                        assert(j2 != i);
                    }
                    if bk.contains(k) && k != key@ {
                        let j = bk.index_of(k);
                        assert(j != i);
                        let j1 = if j < i { j } else { j - 1 };
                        assert(ks[j1] == k);
                    }
                }
                assert forall|k: Seq<char>| #![auto] self.view().contains_key(k) implies self.view()[k] == v_old.remove(key@)[k] by {
                    let ks = store_keys(self.store@);
                    let j = ks.index_of(k);
                    assert(0 <= j < ks.len() && ks[j] == k);
                    proof_index(ks, j);
                    let j2 = if j < i { j } else { j + 1 };
                    assert(bk[j2] == k);
                    proof_index(bk, j2);
                }
                assert(self.view() =~= v_old.remove(key@));
            },
            None => {
                assert(self.view() =~= v_old.remove(key@));
            },
        }
    }

    /// Removes every entry.
    pub fn clear(&mut self)
        ensures
            final(self).wf(),
            final(self).view() == Map::<Seq<char>, (Seq<char>, Option<u64>)>::empty(),
    {
        self.store = Vec::new();
        assert(self.view() =~= Map::<Seq<char>, (Seq<char>, Option<u64>)>::empty());
    }

    /// Every stored key, once each.
    pub fn all_keys(&self) -> (r: Vec<String>)
        requires
            self.wf(),
        ensures
            strings_of(r@).no_duplicates(),
            forall|k: Seq<char>| #![auto] strings_of(r@).contains(k) <==> self.view().contains_key(k),
    {
        let mut out: Vec<String> = Vec::new();
        let mut i: usize = 0;
        while i < self.store.len()
            invariant
                i <= self.store@.len(),
                strings_of(out@) == store_keys(self.store@).take(i as int),
            decreases self.store.len() - i,
        {
            let ghost ob = out@;
            out.push(self.store[i].0.clone());
            assert(strings_of(out@) =~= strings_of(ob).push(self.store@[i as int].0@));
            assert(store_keys(self.store@).take(i as int + 1) =~= store_keys(self.store@).take(
                i as int,
            ).push(self.store@[i as int].0@));
            i = i + 1;
        }
        assert(store_keys(self.store@).take(self.store.len() as int) =~= store_keys(self.store@));
        out
    }

    /// The keys containing `pattern` once its `*` characters are removed; every
    /// key when nothing is left of the pattern.
    pub fn keys(&self, pattern: &str) -> (r: Vec<String>)
        requires
            self.wf(),
        ensures
            strings_of(r@).no_duplicates(),
            forall|k: Seq<char>| #![auto]
                strings_of(r@).contains(k) <==> self.view().contains_key(k) && key_matches(
                    k,
                    without_stars(pattern@),
                ),
    {
        let all = self.all_keys();
        let pat = remove_stars(pattern);
        let pat_empty = pat.as_str().unicode_len() == 0;
        let mut out: Vec<String> = Vec::new();
        let mut i: usize = 0;
        while i < all.len()
            invariant
                i <= all.len(),
                pat@ == without_stars(pattern@),
                pat_empty == (pat@.len() == 0),
                strings_of(all@).no_duplicates(),
                strings_of(out@) == strings_of(all@).take(i as int).filter(
                    |k: Seq<char>| key_matches(k, pat@),
                ),
            decreases all.len() - i,
        {
            let ghost f = |k: Seq<char>| key_matches(k, pat@);
            let ghost ob = out@;
            let k = &all[i];
            assert(strings_of(all@).take(i as int + 1).drop_last() =~= strings_of(all@).take(i as int));
            assert(strings_of(all@).take(i as int + 1).last() == k@);
            reveal_with_fuel(Seq::filter, 1);
            if pat_empty || str_contains(k.as_str(), pat.as_str()) {
                out.push(k.clone());
                assert(strings_of(out@) =~= strings_of(ob).push(k@));
            }
            i = i + 1;
        }
        assert(strings_of(all@).take(all.len() as int) =~= strings_of(all@));
        let ghost f = |k: Seq<char>| key_matches(k, pat@);
        assert forall|k: Seq<char>| #![auto]
            strings_of(out@).contains(k) <==> self.view().contains_key(k) && key_matches(k, pat@) by {
            let sa = strings_of(all@);
            if strings_of(out@).contains(k) {
                sa.lemma_filter_contains_rev(f, k);
                let j = choose|j: int| 0 <= j < sa.filter(f).len() && sa.filter(f)[j] == k;
                sa.lemma_filter_pred(f, j);
            }
            if self.view().contains_key(k) && key_matches(k, pat@) {
                let j = choose|j: int| 0 <= j < sa.len() && sa[j] == k;
                sa.lemma_filter_contains(f, j);
            }
        }
        proof {
            lemma_filter_no_duplicates(strings_of(all@), f);
        }
        out
    }

    /// Removes every entry that is expired at `now`.
    pub fn cleanup(&mut self, now: u64)
        requires
            old(self).wf(),
        ensures
            final(self).wf(),
            forall|k: Seq<char>| #![auto]
                final(self).view().contains_key(k) <==> old(self).view().contains_key(k)
                    && !expired(old(self).view()[k].1, now),
            forall|k: Seq<char>| #![auto]
                final(self).view().contains_key(k) ==> final(self).view()[k] == old(self).view()[k],
    {
        let ghost orig = self.view();
        let keys = self.all_keys();
        let mut i: usize = 0;
        while i < keys.len()
            invariant
                i <= keys.len(),
                self.wf(),
                strings_of(keys@).no_duplicates(),
                forall|k: Seq<char>| #![auto] strings_of(keys@).contains(k) <==> orig.contains_key(k),
                forall|k: Seq<char>| #![auto]
                    self.view().contains_key(k) <==> orig.contains_key(k) && (!strings_of(
                        keys@,
                    ).take(i as int).contains(k) || !expired(orig[k].1, now)),
                forall|k: Seq<char>| #![auto]
                    self.view().contains_key(k) ==> self.view()[k] == orig[k],
            decreases keys.len() - i,
        {
            let ghost ks = strings_of(keys@);
            assert(ks.take(i as int + 1) =~= ks.take(i as int).push(ks[i as int]));
            let k = &keys[i];
            assert(ks[i as int] == k@);
            assert(orig.contains_key(k@));
            assert(!ks.take(i as int).contains(k@)) by {
                if ks.take(i as int).contains(k@) {
                    let j = choose|j: int| 0 <= j < i && #[trigger] ks.take(i as int)[j] == k@;
                    assert(ks[j] == ks[i as int]);
                }
            }
            assert(self.view().contains_key(k@));
            assert(self.view()[k@] == orig[k@]);
            let ghost pre = self.view();
            let gone = match self.get(k.as_str(), now) {
                Some(_) => false,
                None => true,
            };
            if gone {
                assert(expired(orig[k@].1, now));
                self.del(k.as_str());
            }
            assert(gone ==> self.view() == pre.remove(k@));
            assert(!gone ==> self.view() == pre);
            assert(!gone ==> !expired(orig[k@].1, now));
            assert forall|x: Seq<char>|
                #[trigger] self.view().contains_key(x) == (orig.contains_key(x) && (!ks.take(i as int + 1).contains(x) || !expired(orig[x].1, now))) by {
                assert(pre.contains_key(x) == (orig.contains_key(x) && (!ks.take(i as int).contains(x) || !expired(orig[x].1, now))));
                if x == k@ {
                    assert(ks.take(i as int + 1)[i as int] == x);
                    assert(ks.take(i as int + 1).contains(x));
                } else {
                    assert(self.view().contains_key(x) == pre.contains_key(x));
                    if ks.take(i as int + 1).contains(x) {
                        let j = choose|j: int| 0 <= j < i + 1 && #[trigger] ks.take(i as int + 1)[j] == x;
                        assert(j != i);
                        assert(ks.take(i as int)[j] == x);
                        assert(ks.take(i as int).contains(x));
                    }
                    if ks.take(i as int).contains(x) {
                        let j = choose|j: int| 0 <= j < i && #[trigger] ks.take(i as int)[j] == x;
                        assert(ks.take(i as int + 1)[j] == x);
                    }
                }
            }
            assert forall|x: Seq<char>| #[trigger] self.view().contains_key(x) implies self.view()[x] == orig[x] by {
                assert(pre.contains_key(x));
                assert(pre[x] == orig[x]);
            }
            i = i + 1;
        }
        assert(strings_of(keys@).take(keys.len() as int) =~= strings_of(keys@));
        assert forall|k: Seq<char>| #![auto]
            self.view().contains_key(k) <==> orig.contains_key(k) && !expired(orig[k].1, now) by {
            if orig.contains_key(k) {
                assert(strings_of(keys@).contains(k));
            }
        }
    }
}

/// The views of a sequence of strings.
pub open spec fn strings_of(v: Seq<String>) -> Seq<Seq<char>> {
    v.map_values(|s: String| s@)
}

/// `s` without its `*` characters.
pub open spec fn without_stars(s: Seq<char>) -> Seq<char> {
    s.filter(|c: char| c != '*')
}

/// Whether a key is listed for a pattern: any key for the empty pattern,
/// otherwise the keys containing it.
pub open spec fn key_matches(k: Seq<char>, p: Seq<char>) -> bool {
    p.len() == 0 || contains_seq(k, p)
}

fn remove_stars(s: &str) -> (r: String)
    ensures
        r@ == without_stars(s@),
{
    let cs = chars_of(s);
    let mut out: Vec<char> = Vec::new();
    let mut i: usize = 0;
    while i < cs.len()
        invariant
            cs@ == s@,
            i <= cs.len(),
            out@ == s@.take(i as int).filter(|c: char| c != '*'),
        decreases cs.len() - i,
    {
        assert(s@.take(i as int + 1).drop_last() =~= s@.take(i as int));
        reveal_with_fuel(Seq::filter, 1);
        if cs[i] != '*' {
            out.push(cs[i]);
        }
        i = i + 1;
    }
    assert(s@.take(cs.len() as int) =~= s@);
    string_from_chars(&out)
}

proof fn lemma_filter_no_duplicates(s: Seq<Seq<char>>, f: spec_fn(Seq<char>) -> bool)
    requires
        s.no_duplicates(),
    ensures
        s.filter(f).no_duplicates(),
    decreases s.len(),
{
    reveal_with_fuel(Seq::filter, 1);
    if s.len() > 0 {
        let p = s.drop_last();
        assert(p.no_duplicates()) by {
            assert forall|a: int, b: int| 0 <= a < p.len() && 0 <= b < p.len() && a != b implies p[a] != p[b] by {
                assert(p[a] == s[a] && p[b] == s[b]);
            }
        }
        lemma_filter_no_duplicates(p, f);
        if f(s.last()) {
            let fp = p.filter(f);
            let r = fp.push(s.last());
            assert(!fp.contains(s.last())) by {
                if fp.contains(s.last()) {
                    p.lemma_filter_contains_rev(f, s.last());
                    let j = choose|j: int| 0 <= j < p.len() && p[j] == s.last();
                    assert(s[j] == s[s.len() - 1]);
                }
            }
            assert forall|a: int, b: int| 0 <= a < r.len() && 0 <= b < r.len() && a != b implies r[a] != r[b] by {
                if a == r.len() - 1 {
                    assert(fp.contains(r[b]) || b == a);
                } else if b == r.len() - 1 {
                    assert(fp.contains(r[a]));
                }
            }
        }
    }
}

/// The Redis key of `key`: `prefix:key`, or `key` alone without a prefix.
pub open spec fn full_key_spec(prefix: Seq<char>, key: Seq<char>) -> Seq<char> {
    if prefix.len() == 0 {
        key
    } else {
        prefix + ":"@ + key
    }
}

/// The Redis key of `key` under `prefix`.
pub fn full_key(prefix: &str, key: &str) -> (r: String)
    ensures
        r@ == full_key_spec(prefix@, key@),
{
    if prefix.unicode_len() == 0 {
        to_owned_string(key)
    } else {
        let mut s = to_owned_string(prefix);
        s.append(":");
        s.append(key);
        s
    }
}

/// A key as listed by Redis with the prefix taken off: the key itself
/// without a prefix, else what follows `prefix:`.
pub fn strip_key_prefix(prefix: &str, full: &str) -> (r: String)
    requires
        prefix@.len() > 0 ==> crate::text::starts_with(full@, prefix@ + ":"@),
    ensures
        prefix@.len() == 0 ==> r@ == full@,
        prefix@.len() > 0 ==> full@ == full_key_spec(prefix@, r@),
{
    if prefix.unicode_len() == 0 {
        return to_owned_string(full);
    }
    let c = crate::text::chars_of(full);
    proof {
        reveal_strlit(":");
    }
    assert(prefix@.len() + 1 <= c@.len());
    let pc = crate::text::chars_of(prefix);
    let cl = c.len();
    assert(pc.len() + 1 <= cl);
    let n = pc.len() + 1;
    let rest = crate::scan::slice_chars(&c, n, c.len());
    assert(full@ =~= (prefix@ + ":"@) + rest@) by {
        assert(full@.subrange(0, n as int) == prefix@ + ":"@);
    }
    crate::attr::owned(&rest)
}

// ---------------------------------------------------------------- cached calls

/// The time to live, in milliseconds, of a result kept for `ttl_secs` seconds.
pub open spec fn cached_ttl_ms(ttl_secs: u64) -> int {
    ttl_secs * 1000
}

/// What a call of a function marked `#[cool_cache]` answers from its cache
/// under `key` at `now` (milliseconds): the kept result while it lives.
pub fn cached_answer(cache: &MemoryCache, key: &str, now: u64) -> (r: Option<String>)
    requires
        cache.wf(),
    ensures
        match r {
            Some(v) => cache.lookup(key@, now) == Some(v@),
            None => cache.lookup(key@, now) is None,
        },
{
    cache.get(key, now)
}

/// Keeps the result of a run of a cached function under `key`: a success (its
/// JSON text) is stored for `ttl_secs` seconds from `now`; an error is never
/// stored.
pub fn keep_result<E>(cache: &mut MemoryCache, key: &str, result: &Result<String, E>, ttl_secs: u64, now: u64)
    requires
        old(cache).wf(),
        now + cached_ttl_ms(ttl_secs) <= u64::MAX,
    ensures
        final(cache).wf(),
        match result {
            Ok(v) => final(cache).view() == old(cache).view().insert(
                key@,
                (v@, Some((now + cached_ttl_ms(ttl_secs)) as u64)),
            ),
            Err(_) => final(cache).view() == old(cache).view(),
        },
{
    match result {
        Ok(v) => {
            let ttl: u64 = ttl_secs * 1000;
            cache.set(key, v.clone(), Some(ttl), now);
        },
        Err(_) => {},
    }
}

// ---------------------------------------------------------------- laws

/// Law: after storing `value` under `key`, reading `key` gives `value` for as
/// long as the entry has not expired.
pub proof fn law_get_after_set(
    before: MemoryCache,
    after: MemoryCache,
    key: Seq<char>,
    value: Seq<char>,
    expire_at: Option<u64>,
    now: u64,
)
    requires
        after.view() == before.view().insert(key, (value, expire_at)),
        !expired(expire_at, now),
    ensures
        after.lookup(key, now) == Some(value),
{
}

/// Law: storing under one key leaves what every other key reads unchanged.
pub proof fn law_set_leaves_other_keys(
    before: MemoryCache,
    after: MemoryCache,
    key: Seq<char>,
    value: Seq<char>,
    expire_at: Option<u64>,
    other: Seq<char>,
    now: u64,
)
    requires
        after.view() == before.view().insert(key, (value, expire_at)),
        other != key,
    ensures
        after.lookup(other, now) == before.lookup(other, now),
{
}

/// Law: after removing `key`, reading it gives nothing.
pub proof fn law_get_after_del(before: MemoryCache, after: MemoryCache, key: Seq<char>, now: u64)
    requires
        after.view() == before.view().remove(key),
    ensures
        after.lookup(key, now) is None,
{
}

/// Law: an expired entry reads as nothing, and a live one as its value.
pub proof fn law_expiry(c: MemoryCache, key: Seq<char>, now: u64)
    requires
        c.view().contains_key(key),
    ensures
        c.lookup(key, now) is None <==> expired(c.view()[key].1, now),
{
}

/// Law of cached calls: a success kept at `now` is what the next call answers
/// for `ttl_secs` seconds, without running the function again; after an
/// error nothing was kept, so every key answers as before and the next call
/// runs the function.
pub proof fn law_cached_call<E>(
    before: MemoryCache,
    after: MemoryCache,
    key: Seq<char>,
    result: Result<String, E>,
    ttl_secs: u64,
    now: u64,
    later: u64,
    other: Seq<char>,
)
    requires
        now + cached_ttl_ms(ttl_secs) <= u64::MAX,
        match result {
            Ok(v) => after.view() == before.view().insert(
                key,
                (v@, Some((now + cached_ttl_ms(ttl_secs)) as u64)),
            ),
            Err(_) => after.view() == before.view(),
        },
    ensures
        (result matches Ok(v) && later <= now + cached_ttl_ms(ttl_secs)) ==> after.lookup(key, later)
            == Some(result->Ok_0@),
        result is Err ==> after.lookup(other, later) == before.lookup(other, later),
{
}

/// Law of key listing: a stored key is listed for a pattern whenever what is
/// left of the pattern once its `*` are removed occurs anywhere in the key,
/// at its start, in its middle or at its end; and a pattern of `*` alone
/// lists every stored key.
pub proof fn law_keys_by_substring(
    c: MemoryCache,
    pattern: Seq<char>,
    listed: Seq<Seq<char>>,
    before: Seq<char>,
    after: Seq<char>,
    k: Seq<char>,
)
    requires
        forall|x: Seq<char>| #![auto]
            listed.contains(x) <==> c.view().contains_key(x) && key_matches(x, without_stars(pattern)),
    ensures
        c.view().contains_key(before + without_stars(pattern) + after) ==> listed.contains(
            before + without_stars(pattern) + after,
        ),
        (forall|i: int| 0 <= i < pattern.len() ==> pattern[i] == '*') && c.view().contains_key(k)
            ==> listed.contains(k),
{
    let p = without_stars(pattern);
    let key = before + p + after;
    if p.len() > 0 {
        assert(key.subrange(before.len() as int, (before.len() + p.len()) as int) =~= p);
        assert(crate::text::occurs_at(key, p, before.len() as int));
    }
    if forall|i: int| 0 <= i < pattern.len() ==> pattern[i] == '*' {
        if p.len() > 0 {
            assert(p.contains(p[0]));
            pattern.lemma_filter_contains_rev(|ch: char| ch != '*', p[0]);
            pattern.lemma_filter_pred(|ch: char| ch != '*', 0);
            let j = choose|j: int| 0 <= j < pattern.len() && pattern[j] == p[0];
            assert(pattern[j] == '*');
        }
        assert(p =~= Seq::<char>::empty());
    }
}

} // verus!
