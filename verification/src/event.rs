//! Events: the framework's event names, the data some of them carry, and the
//! registry of handlers by event name. Handlers are closures held by the
//! application under the ids given out here, and run in that order.

use vstd::prelude::*;
use crate::assoc::{assoc_get, keys_unique, assoc_find, assoc_set, assoc_take};

verus! {

/// A record was soft-deleted.
pub const SOFT_DELETE: &'static str = "onSoftDelete";
/// The server has started.
pub const SERVER_READY: &'static str = "onServerReady";
/// The application is ready.
pub const READY: &'static str = "onReady";
/// Indexed data changed.
pub const ES_DATA_CHANGE: &'static str = "esDataChange";

/// The data of a soft delete.
#[derive(Debug)]
pub struct SoftDeleteEvent {
    pub entity: String,
    pub ids: Vec<i64>,
    pub tenant_id: Option<i64>,
}

/// The data of a server start.
#[derive(Debug)]
pub struct ServerReadyEvent {
    pub address: String,
    pub port: u16,
}

/// The data of a change to indexed data.
#[derive(Debug)]
pub struct EsDataChangeEvent {
    pub index: String,
    /// `create`, `update` or `delete`.
    pub operation: String,
    pub doc_id: Option<String>,
}

/// Handler ids by event name.
pub struct EventManager {
    handlers: Vec<(String, Vec<u64>)>,
    next_id: u64,
}

impl EventManager {
    /// Event names are unique and every id given out is below the next one.
    pub closed spec fn wf(&self) -> bool {
        &&& keys_unique(self.handlers@)
        &&& forall|i: int, j: int| 0 <= i < self.handlers@.len() && 0 <= j < self.handlers@[i].1@.len() ==> #[trigger] self.handlers@[i].1@[j] < self.next_id
    }

    /// The handlers of `event`, in the order registered.
    pub closed spec fn handlers_of(&self, event: Seq<char>) -> Seq<u64> {
        match assoc_get(self.handlers@, event) {
            Some(v) => v@,
            None => seq![],
        }
    }

    /// The id the next handler gets.
    pub closed spec fn next(&self) -> u64 {
        self.next_id
    }

    /// No handlers.
    pub fn new() -> (r: EventManager)
        ensures
            r.wf(),
            r.next() == 0,
            forall|e: Seq<char>| #[trigger] r.handlers_of(e).len() == 0,
    {
        EventManager { handlers: Vec::new(), next_id: 0 }
    }

    /// Registers a handler of `event`, after those already registered, and
    /// gives back its id.
    pub fn on(&mut self, event: &str) -> (r: u64)
        requires
            old(self).wf(),
            old(self).next() < u64::MAX,
        ensures
            final(self).wf(),
            r == old(self).next(),
            final(self).next() == old(self).next() + 1,
            final(self).handlers_of(event@) == old(self).handlers_of(event@).push(r),
            forall|e: Seq<char>| e != event@ ==> #[trigger] final(self).handlers_of(e) == old(self).handlers_of(e),
    {
        let id = self.next_id;
        let ghost before = self.handlers@;
        let mut list = match assoc_take(&mut self.handlers, event) {
            Some(l) => l,
            None => Vec::new(),
        };
        proof {
            if assoc_get(before, event@) is Some {
                crate::assoc::lemma_assoc_get_some(before, event@);
            }
        }
        list.push(id);
        let ghost mid = self.handlers@;
        assoc_set(&mut self.handlers, event, list);
        self.next_id = id + 1;
        assert forall|i: int, j: int| 0 <= i < self.handlers@.len() && 0 <= j < self.handlers@[i].1@.len() implies #[trigger] self.handlers@[i].1@[j] < self.next_id by {
            crate::assoc::lemma_assoc_get_at(self.handlers@, i);
            let k = self.handlers@[i].0@;
            if k != event@ {
                crate::assoc::lemma_assoc_get_some(mid, k);
                crate::assoc::lemma_assoc_get_some(before, k);
            }
        }
        id
    }

    /// The handlers to run for `event`, in the order registered.
    pub fn emit_order(&self, event: &str) -> (r: Vec<u64>)
        requires
            self.wf(),
        ensures
            r@ == self.handlers_of(event@),
    {
        match assoc_find(&self.handlers, event) {
            Some(i) => self.handlers[i].1.clone(),
            None => Vec::new(),
        }
    }

    /// Removes every handler of `event`.
    pub fn off(&mut self, event: &str)
        requires
            old(self).wf(),
        ensures
            final(self).wf(),
            final(self).next() == old(self).next(),
            final(self).handlers_of(event@).len() == 0,
            forall|e: Seq<char>| e != event@ ==> #[trigger] final(self).handlers_of(e) == old(self).handlers_of(e),
    {
        let ghost before = self.handlers@;
        let _ = assoc_take(&mut self.handlers, event);
        assert forall|i: int, j: int| 0 <= i < self.handlers@.len() && 0 <= j < self.handlers@[i].1@.len() implies #[trigger] self.handlers@[i].1@[j] < self.next_id by {
            crate::assoc::lemma_assoc_get_at(self.handlers@, i);
            crate::assoc::lemma_assoc_get_some(before, self.handlers@[i].0@);
        }
    }

    /// Removes every handler.
    pub fn clear(&mut self)
        requires
            old(self).wf(),
        ensures
            final(self).wf(),
            final(self).next() == old(self).next(),
            forall|e: Seq<char>| #[trigger] final(self).handlers_of(e).len() == 0,
    {
        self.handlers = Vec::new();
    }
}

} // verus!
