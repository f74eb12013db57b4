//! Hooks: named lists of hook handlers, kept in priority order (a smaller
//! number runs earlier; equal priorities run in registration order). Running
//! the handlers is done by the application, in the order given here, until
//! one stops the chain.

use vstd::prelude::*;
use crate::assoc::{assoc_get, keys_unique, assoc_find, assoc_set, assoc_take};
use crate::text::to_owned_string;

verus! {

/// The state passed along a hook chain. Data and result are JSON text.
#[derive(Debug)]
pub struct HookContext {
    pub name: String,
    pub data: String,
    /// Whether later handlers still run.
    pub proceed: bool,
    pub result: Option<String>,
}

impl HookContext {
    /// A context for the hook `name` with `data`: proceeding, no result.
    pub fn new(name: &str, data: String) -> (r: HookContext)
        ensures
            r.name@ == name@,
            r.data == data,
            r.proceed,
            r.result is None,
    {
        HookContext { name: to_owned_string(name), data, proceed: true, result: None }
    }

    /// Records the chain's result.
    pub fn set_result(&mut self, result: String)
        ensures
            final(self).result == Some(result),
            final(self).name == old(self).name,
            final(self).data == old(self).data,
            final(self).proceed == old(self).proceed,
    {
        self.result = Some(result);
    }

    /// Stops the chain: no later handler runs.
    pub fn stop(&mut self)
        ensures
            !final(self).proceed,
            final(self).name == old(self).name,
            final(self).data == old(self).data,
            final(self).result == old(self).result,
    {
        self.proceed = false;
    }
}

impl HookContext {
    /// Which of the `total` handlers of a chain runs next when `ran` of them
    /// have run: the next in order while the context proceeds; none once a
    /// handler stopped the chain or all have run.
    pub fn next_handler(&self, ran: usize, total: usize) -> (r: Option<usize>)
        ensures
            r == (if self.proceed && ran < total {
                Some(ran)
            } else {
                None::<usize>
            }),
    {
        if self.proceed && ran < total {
            Some(ran)
        } else {
            None
        }
    }
}

/// A registered hook handler: its name and priority.
#[derive(Debug)]
pub struct HookEntry {
    pub name: String,
    pub priority: i32,
}

/// Whether a list of handlers is in priority order.
pub open spec fn by_priority(l: Seq<HookEntry>) -> bool {
    forall|i: int, j: int| 0 <= i < j < l.len() ==> (#[trigger] l[i]).priority <= (#[trigger] l[j]).priority
}

/// Where a handler of priority `p` goes in `l`: after every handler of
/// priority at most `p`, before the rest.
pub open spec fn is_insert_point(l: Seq<HookEntry>, p: i32, k: int) -> bool {
    &&& 0 <= k <= l.len()
    &&& forall|j: int| 0 <= j < k ==> (#[trigger] l[j]).priority <= p
    &&& k < l.len() ==> l[k].priority > p
}

/// Hook handlers by hook name.
pub struct HookManager {
    hooks: Vec<(String, Vec<HookEntry>)>,
}

impl HookManager {
    /// Hook names are unique and every list is in priority order.
    pub closed spec fn wf(&self) -> bool {
        &&& keys_unique(self.hooks@)
        &&& forall|i: int| 0 <= i < self.hooks@.len() ==> by_priority((#[trigger] self.hooks@[i]).1@)
    }

    /// The handlers of a hook, in running order.
    pub closed spec fn handlers(&self, hook_name: Seq<char>) -> Seq<HookEntry> {
        match assoc_get(self.hooks@, hook_name) {
            Some(v) => v@,
            None => seq![],
        }
    }

    /// No hooks.
    pub fn new() -> (r: HookManager)
        ensures
            r.wf(),
            forall|n: Seq<char>| #[trigger] r.handlers(n).len() == 0,
    {
        HookManager { hooks: Vec::new() }
    }

    proof fn lemma_handlers_sorted(&self, n: Seq<char>)
        requires
            self.wf(),
        ensures
            by_priority(self.handlers(n)),
    {
        if assoc_get(self.hooks@, n) is Some {
            crate::assoc::lemma_assoc_get_some(self.hooks@, n);
        }
    }

    /// Registers a handler under `hook_name`, after every handler of the same
    /// or a smaller priority and before those of a larger one.
    pub fn register(&mut self, hook_name: &str, entry: HookEntry)
        requires
            old(self).wf(),
        ensures
            final(self).wf(),
            exists|k: int| is_insert_point(old(self).handlers(hook_name@), entry.priority, k)
                && final(self).handlers(hook_name@) == old(self).handlers(hook_name@).insert(k, entry),
            forall|n: Seq<char>| n != hook_name@ ==> #[trigger] final(self).handlers(n) == old(self).handlers(n),
    {
        let ghost e = entry;
        proof {
            self.lemma_handlers_sorted(hook_name@);
        }
        let mut list = match assoc_take(&mut self.hooks, hook_name) {
            Some(l) => l,
            None => Vec::new(),
        };
        let ghost l0 = list@;
        assert(l0 == old(self).handlers(hook_name@));
        let p = entry.priority;
        let mut k: usize = 0;
        while k < list.len() && list[k].priority <= p
            invariant
                k <= list@.len(),
                list@ == l0,
                forall|j: int| 0 <= j < k ==> (#[trigger] list@[j]).priority <= p,
            decreases list.len() - k,
        {
            k = k + 1;
        }
        list.insert(k, entry);
        assert(is_insert_point(l0, p, k as int));
        assert(by_priority(list@)) by {
            assert forall|a: int, b: int| 0 <= a < b < list@.len() implies (#[trigger] list@[a]).priority
                <= (#[trigger] list@[b]).priority by {
                if b < k {
                    assert(list@[a] == l0[a] && list@[b] == l0[b]);
                } else if b == k {
                    assert(list@[a] == l0[a]);
                } else if a < k {
                    assert(list@[a] == l0[a] && list@[b] == l0[b - 1]);
                } else if a == k {
                    assert(list@[b] == l0[b - 1]);
                    assert(l0[k as int].priority > p);
                    if b - 1 > k {
                        assert(l0[k as int].priority <= l0[b - 1].priority);
                    }
                } else {
                    assert(list@[a] == l0[a - 1] && list@[b] == l0[b - 1]);
                }
            }
        }
        let ghost mid = self.hooks@;
        assoc_set(&mut self.hooks, hook_name, list);
        assert forall|i: int| 0 <= i < self.hooks@.len() implies by_priority((#[trigger] self.hooks@[i]).1@) by {
            crate::assoc::lemma_assoc_get_at(self.hooks@, i);
            let kk = self.hooks@[i].0@;
            if kk != hook_name@ {
                crate::assoc::lemma_assoc_get_some(mid, kk);
                let j = choose|j: int| 0 <= j < mid.len() && mid[j].0@ == kk && assoc_get(mid, kk) == Some(mid[j].1);
                crate::assoc::lemma_assoc_get_some(old(self).hooks@, kk);
            }
        }
    }

    /// The names of the handlers of `hook_name`, in running order.
    pub fn list(&self, hook_name: &str) -> (r: Vec<String>)
        requires
            self.wf(),
        ensures
            r@.len() == self.handlers(hook_name@).len(),
            forall|i: int| 0 <= i < r@.len() ==> (#[trigger] r@[i]) == self.handlers(hook_name@)[i].name,
    {
        let mut out: Vec<String> = Vec::new();
        match assoc_find(&self.hooks, hook_name) {
            Some(h) => {
                let l = &self.hooks[h].1;
                let mut i: usize = 0;
                while i < l.len()
                    invariant
                        i <= l@.len(),
                        out@.len() == i,
                        forall|j: int| 0 <= j < i ==> (#[trigger] out@[j]) == l@[j].name,
                    decreases l.len() - i,
                {
                    out.push(l[i].name.clone());
                    i = i + 1;
                }
            },
            None => {},
        }
        out
    }

    /// Removes every handler of `hook_name`.
    pub fn remove(&mut self, hook_name: &str)
        requires
            old(self).wf(),
        ensures
            final(self).wf(),
            final(self).handlers(hook_name@).len() == 0,
            forall|n: Seq<char>| n != hook_name@ ==> #[trigger] final(self).handlers(n) == old(self).handlers(n),
    {
        let ghost before = self.hooks@;
        let _ = assoc_take(&mut self.hooks, hook_name);
        assert forall|i: int| 0 <= i < self.hooks@.len() implies by_priority((#[trigger] self.hooks@[i]).1@) by {
            crate::assoc::lemma_assoc_get_at(self.hooks@, i);
            crate::assoc::lemma_assoc_get_some(before, self.hooks@[i].0@);
        }
    }

    /// Removes every hook.
    pub fn clear(&mut self)
        ensures
            final(self).wf(),
            forall|n: Seq<char>| #[trigger] final(self).handlers(n).len() == 0,
    {
        self.hooks = Vec::new();
    }
}

/// Law: the handlers of every hook are always in priority order.
pub proof fn law_handlers_in_priority_order(m: &HookManager, hook_name: Seq<char>)
    requires
        m.wf(),
    ensures
        by_priority(m.handlers(hook_name)),
{
    m.lemma_handlers_sorted(hook_name);
}

/// Hook names used by the framework.
pub const BEFORE_UPLOAD: &'static str = "beforeUpload";
pub const AFTER_UPLOAD: &'static str = "afterUpload";
pub const BEFORE_REQUEST: &'static str = "beforeRequest";
pub const AFTER_REQUEST: &'static str = "afterRequest";
pub const BEFORE_DB: &'static str = "beforeDb";
pub const AFTER_DB: &'static str = "afterDb";

} // verus!
