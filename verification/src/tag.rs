//! URL tags: named lists of URLs (such as the URLs that skip the token
//! check), each list free of repeats and kept in the order URLs were added.

use vstd::prelude::*;
use crate::assoc::{assoc_get, keys_unique, assoc_find, lemma_assoc_update, lemma_assoc_push};
use crate::scan::string_views;
use crate::text::{to_owned_string, str_eq, str_starts_with, starts_with};

verus! {

/// The kinds of tag.
#[derive(Debug)]
pub enum TagType {
    /// URLs that skip the token check.
    IgnoreToken,
    /// URLs that skip the signature check.
    IgnoreSign,
    /// A tag of the application's own.
    Custom(String),
}

/// The key under which a tag's URLs are stored.
pub open spec fn tag_key(t: TagType) -> Seq<char> {
    match t {
        TagType::IgnoreToken => "ignoreToken"@,
        TagType::IgnoreSign => "ignoreSign"@,
        TagType::Custom(s) => s@,
    }
}

impl TagType {
    /// The key under which the tag's URLs are stored.
    pub fn as_key(&self) -> (r: String)
        ensures
            r@ == tag_key(*self),
    {
        match self {
            TagType::IgnoreToken => to_owned_string("ignoreToken"),
            TagType::IgnoreSign => to_owned_string("ignoreSign"),
            TagType::Custom(s) => s.clone(),
        }
    }
}

/// Whether a sequence holds no value twice.
pub open spec fn no_repeats(s: Seq<Seq<char>>) -> bool {
    forall|i: int, j: int| 0 <= i < j < s.len() ==> s[i] != s[j]
}

/// `list` with `url` appended unless it is already there.
pub open spec fn add_url(list: Seq<Seq<char>>, url: Seq<char>) -> Seq<Seq<char>> {
    if list.contains(url) {
        list
    } else {
        list.push(url)
    }
}

/// `list` with each of `urls` added in turn.
pub open spec fn add_urls(list: Seq<Seq<char>>, urls: Seq<Seq<char>>) -> Seq<Seq<char>>
    decreases urls.len(),
{
    if urls.len() == 0 {
        list
    } else {
        add_url(add_urls(list, urls.drop_last()), urls.last())
    }
}

/// The URLs of a list that a scope shows: under `admin` those starting with
/// `/admin/`, under `app` those starting with `/app/`, otherwise all.
pub open spec fn scope_filter(list: Seq<Seq<char>>, scope: Option<Seq<char>>) -> Seq<Seq<char>> {
    if scope == Some("admin"@) {
        list.filter(|u: Seq<char>| starts_with(u, "/admin/"@))
    } else if scope == Some("app"@) {
        list.filter(|u: Seq<char>| starts_with(u, "/app/"@))
    } else {
        list
    }
}

/// Tag lists by key.
pub struct UrlTagStore {
    data: Vec<(String, Vec<String>)>,
}

impl UrlTagStore {
    /// Keys are unique and no list repeats a URL.
    pub closed spec fn wf(&self) -> bool {
        &&& keys_unique(self.data@)
        &&& forall|i: int| 0 <= i < self.data@.len() ==> no_repeats(
            string_views(#[trigger] self.data@[i].1@),
        )
    }

    /// The URLs stored under each key.
    pub closed spec fn urls(&self, key: Seq<char>) -> Seq<Seq<char>> {
        match assoc_get(self.data@, key) {
            Some(v) => string_views(v@),
            None => seq![],
        }
    }

    /// An empty store.
    pub fn new() -> (r: UrlTagStore)
        ensures
            r.wf(),
            forall|k: Seq<char>| #[trigger] r.urls(k) == Seq::<Seq<char>>::empty(),
    {
        UrlTagStore { data: Vec::new() }
    }

    /// Adds `url` to `list` unless it is already there.
    fn push_unique(list: &mut Vec<String>, url: &str)
        requires
            no_repeats(string_views(old(list)@)),
        ensures
            no_repeats(string_views(final(list)@)),
            string_views(final(list)@) == add_url(string_views(old(list)@), url@),
    {
        let ghost before = string_views(list@);
        let mut i: usize = 0;
        while i < list.len()
            invariant
                i <= list@.len(),
                before == string_views(list@),
                no_repeats(before),
                forall|j: int| 0 <= j < i ==> list@[j]@ != url@,
            decreases list.len() - i,
        {
            if str_eq(list[i].as_str(), url) {
                assert(before[i as int] == url@);
                assert(before.contains(url@));
                return;
            }
            i = i + 1;
        }
        assert(!before.contains(url@)) by {
            if before.contains(url@) {
                let k = choose|k: int| 0 <= k < before.len() && before[k] == url@;
                assert(list@[k]@ == url@);
            }
        }
        list.push(to_owned_string(url));
        assert(string_views(list@) =~= before.push(url@));
    }

    /// Adds the URLs of `key` with `f`, creating the list when absent.
    fn with_list(&mut self, key: &str, urls: &Vec<String>)
        requires
            old(self).wf(),
        ensures
            final(self).wf(),
            final(self).urls(key@) == add_urls(old(self).urls(key@), string_views(urls@)),
            forall|k: Seq<char>| k != key@ ==> #[trigger] final(self).urls(k) == old(self).urls(k),
    {
        let pos = assoc_find(&self.data, key);
        let (mut list, at) = match pos {
            Some(i) => (self.data[i].1.clone(), Some(i)),
            None => (Vec::new(), None),
        };
        proof {
            if let Some(i) = at {
                assert(no_repeats(string_views(self.data@[i as int].1@)));
            }
            assert(string_views(list@) == self.urls(key@)) by {
                if at is None {
                    assert(string_views(list@) =~= seq![]);
                }
            }
        }
        let ghost start = string_views(list@);
        let mut j: usize = 0;
        while j < urls.len()
            invariant
                j <= urls@.len(),
                no_repeats(string_views(list@)),
                string_views(list@) == add_urls(start, string_views(urls@).take(j as int)),
            decreases urls.len() - j,
        {
            Self::push_unique(&mut list, urls[j].as_str());
            assert(string_views(urls@).take(j + 1).drop_last() =~= string_views(urls@).take(
                j as int,
            ));
            assert(string_views(urls@).take(j + 1).last() == urls@[j as int]@);
            j = j + 1;
        }
        assert(string_views(urls@).take(urls@.len() as int) =~= string_views(urls@));
        let ghost newv = list;
        match at {
            Some(i) => {
                proof {
                    lemma_assoc_update(self.data@, i as int, newv);
                }
                let k = self.data[i].0.clone();
                let ghost before = self.data@;
                self.data.set(i, (k, list));
                assert(self.data@ =~= before.update(i as int, (before[i as int].0, newv)));
                assert forall|q: int| 0 <= q < self.data@.len() implies no_repeats(
                    string_views(#[trigger] self.data@[q].1@),
                ) by {
                    if q != i {
                        assert(self.data@[q] == before[q]);
                    }
                }
            },
            None => {
                let e = (to_owned_string(key), list);
                proof {
                    lemma_assoc_push(self.data@, e);
                }
                let ghost before = self.data@;
                self.data.push(e);
                assert forall|q: int| 0 <= q < self.data@.len() implies no_repeats(
                    string_views(#[trigger] self.data@[q].1@),
                ) by {
                    if q < before.len() {
                        assert(self.data@[q] == before[q]);
                    }
                }
            },
        }
    }

    /// Adds the URLs of a tagged controller to `key`, each unless already there.
    pub fn add_class_tag(&mut self, key: &str, urls: &Vec<String>)
        requires
            old(self).wf(),
        ensures
            final(self).wf(),
            final(self).urls(key@) == add_urls(old(self).urls(key@), string_views(urls@)),
            forall|k: Seq<char>| k != key@ ==> #[trigger] final(self).urls(k) == old(self).urls(k),
    {
        self.with_list(key, urls)
    }

    /// Adds the URL of a tagged method to `key` unless already there.
    pub fn add_method_tag(&mut self, key: &str, url: &str)
        requires
            old(self).wf(),
        ensures
            final(self).wf(),
            final(self).urls(key@) == add_url(old(self).urls(key@), url@),
            forall|k: Seq<char>| k != key@ ==> #[trigger] final(self).urls(k) == old(self).urls(k),
    {
        let one = vec![to_owned_string(url)];
        let ghost s = seq![url@];
        assert(string_views(one@) =~= s);
        assert(s.drop_last() =~= Seq::<Seq<char>>::empty());
        assert(s.last() == url@);
        assert(add_urls(self.urls(key@), s.drop_last()) == self.urls(key@));
        assert(add_urls(self.urls(key@), s) == add_url(self.urls(key@), url@));
        self.with_list(key, &one);
    }

    /// The URLs of `key` that `scope` shows.
    pub fn by_key(&self, key: &str, scope: Option<&str>) -> (r: Vec<String>)
        requires
            self.wf(),
        ensures
            string_views(r@) == scope_filter(
                self.urls(key@),
                match scope {
                    Some(s) => Some(s@),
                    None => None,
                },
            ),
    {
        let list: Vec<String> = match assoc_find(&self.data, key) {
            Some(i) => self.data[i].1.clone(),
            None => {
                let v: Vec<String> = Vec::new();
                assert(string_views(v@) =~= seq![]);
                v
            },
        };
        let ghost all = string_views(list@);
        let prefix: Option<&str> = match scope {
            Some(s) => if str_eq(s, "admin") {
                Some("/admin/")
            } else if str_eq(s, "app") {
                Some("/app/")
            } else {
                None
            },
            None => None,
        };
        match prefix {
            None => list,
            Some(p) => {
                let ghost f = |u: Seq<char>| starts_with(u, p@);
                let mut out: Vec<String> = Vec::new();
                let mut i: usize = 0;
                while i < list.len()
                    invariant
                        i <= list@.len(),
                        all == string_views(list@),
                        f == (|u: Seq<char>| starts_with(u, p@)),
                        string_views(out@) == all.take(i as int).filter(f),
                    decreases list.len() - i,
                {
                    assert(all.take(i + 1) =~= all.take(i as int).push(list@[i as int]@));
                    proof {
                        all.take(i as int).lemma_filter_push(list@[i as int]@, f);
                    }
                    let ghost before = out@;
                    if str_starts_with(list[i].as_str(), p) {
                        out.push(list[i].clone());
                        assert(string_views(out@) =~= string_views(before).push(list@[i as int]@));
                    }
                    i = i + 1;
                }
                assert(all.take(list@.len() as int) =~= all);
                out
            },
        }
    }
}

/// Law: adding the same URL twice leaves the list as adding it once.
pub proof fn law_add_url_idempotent(list: Seq<Seq<char>>, url: Seq<char>)
    ensures
        add_url(add_url(list, url), url) == add_url(list, url),
{
    if !list.contains(url) {
        assert(list.push(url)[list.len() as int] == url);
    }
}

/// Law: adding a URL keeps a list free of repeats, and the URL is in it afterwards.
pub proof fn law_add_url_keeps_unique(list: Seq<Seq<char>>, url: Seq<char>)
    requires
        no_repeats(list),
    ensures
        no_repeats(add_url(list, url)),
        add_url(list, url).contains(url),
{
    if !list.contains(url) {
        let l2 = list.push(url);
        assert(l2[list.len() as int] == url);
        assert forall|i: int, j: int| 0 <= i < j < l2.len() implies l2[i] != l2[j] by {
            if j == list.len() {
                assert(l2[i] == list[i]);
                assert(l2[j] == url);
            } else {
                assert(l2[i] == list[i] && l2[j] == list[j]);
            }
        }
    } else {
    }
}

} // verus!
