//! The plugin registry: each registered plugin's description and the state
//! it reports, by key. The plugins' own code is run by the application.

use vstd::prelude::*;
use crate::assoc::{assoc_get, keys_unique, assoc_find, assoc_set, assoc_take};
use crate::plugin::{PluginInfo, PluginStatus, PluginError};
use crate::text::{to_owned_string, str_eq};

verus! {

/// A registered plugin: its description and the state it reports.
#[derive(Debug)]
pub struct PluginEntry {
    pub info: PluginInfo,
    pub status: PluginStatus,
}

/// Registered plugins by key, in the order first registered.
pub struct PluginRegistry {
    plugins: Vec<(String, PluginEntry)>,
}

/// The descriptions of entries whose hook is `hook`, in order.
pub open spec fn with_hook(entries: Seq<(String, PluginEntry)>, hook: Seq<char>) -> Seq<PluginInfo>
    decreases entries.len(),
{
    if entries.len() == 0 {
        seq![]
    } else {
        let prev = with_hook(entries.drop_last(), hook);
        if entries.last().1.info.hook@ == hook {
            prev.push(entries.last().1.info)
        } else {
            prev
        }
    }
}

impl PluginRegistry {
    /// Keys are unique.
    pub closed spec fn wf(&self) -> bool {
        keys_unique(self.plugins@)
    }

    /// The registered plugins, in the order first registered.
    pub closed spec fn entries(&self) -> Seq<(String, PluginEntry)> {
        self.plugins@
    }

    /// The plugin registered under `key`.
    pub open spec fn entry(&self, key: Seq<char>) -> Option<PluginEntry> {
        assoc_get(self.entries(), key)
    }

    /// No plugins.
    pub fn new() -> (r: PluginRegistry)
        ensures
            r.wf(),
            r.entries().len() == 0,
    {
        PluginRegistry { plugins: Vec::new() }
    }

    /// Registers a plugin under the key of its description, replacing any
    /// plugin registered under that key.
    pub fn register(&mut self, info: PluginInfo, status: PluginStatus)
        requires
            old(self).wf(),
        ensures
            final(self).wf(),
            forall|k: Seq<char>| #[trigger] final(self).entry(k) == if k == info.key@ {
                Some(PluginEntry { info, status })
            } else {
                old(self).entry(k)
            },
    {
        let key = info.key.clone();
        assoc_set(&mut self.plugins, key.as_str(), PluginEntry { info, status });
    }

    /// The plugin registered under `key`.
    pub fn get(&self, key: &str) -> (r: Option<&PluginEntry>)
        requires
            self.wf(),
        ensures
            match self.entry(key@) {
                Some(e) => r == Some(&e),
                None => r is None,
            },
    {
        match assoc_find(&self.plugins, key) {
            Some(i) => Some(&self.plugins[i].1),
            None => None,
        }
    }

    /// Removes the plugin registered under `key`, giving it back.
    pub fn remove(&mut self, key: &str) -> (r: Option<PluginEntry>)
        requires
            old(self).wf(),
        ensures
            final(self).wf(),
            r == old(self).entry(key@),
            forall|k: Seq<char>| #[trigger] final(self).entry(k) == if k == key@ {
                None
            } else {
                old(self).entry(k)
            },
    {
        assoc_take(&mut self.plugins, key)
    }

    /// Whether a plugin is registered under `key`.
    pub fn contains(&self, key: &str) -> (r: bool)
        requires
            self.wf(),
        ensures
            r == self.entry(key@) is Some,
    {
        assoc_find(&self.plugins, key).is_some()
    }

    /// The descriptions of every plugin, in the order first registered.
    pub fn list(&self) -> (r: Vec<PluginInfo>)
        ensures
            r@.len() == self.entries().len(),
            forall|i: int| 0 <= i < r@.len() ==> #[trigger] r@[i] == self.entries()[i].1.info,
    {
        let mut out: Vec<PluginInfo> = Vec::new();
        let mut i: usize = 0;
        while i < self.plugins.len()
            invariant
                i <= self.plugins@.len(),
                out@.len() == i,
                forall|j: int| 0 <= j < i ==> #[trigger] out@[j] == self.plugins@[j].1.info,
            decreases self.plugins.len() - i,
        {
            out.push(self.plugins[i].1.info.copy());
            i = i + 1;
        }
        out
    }

    /// The descriptions of the plugins whose hook is `hook`, in order.
    pub fn get_by_hook(&self, hook: &str) -> (r: Vec<PluginInfo>)
        ensures
            r@ == with_hook(self.entries(), hook@),
    {
        let mut out: Vec<PluginInfo> = Vec::new();
        let mut i: usize = 0;
        while i < self.plugins.len()
            invariant
                i <= self.plugins@.len(),
                out@ == with_hook(self.plugins@.take(i as int), hook@),
            decreases self.plugins.len() - i,
        {
            assert(self.plugins@.take(i + 1).drop_last() =~= self.plugins@.take(i as int));
            assert(self.plugins@.take(i + 1).last() == self.plugins@[i as int]);
            if str_eq(self.plugins[i].1.info.hook.as_str(), hook) {
                out.push(self.plugins[i].1.info.copy());
            }
            i = i + 1;
        }
        assert(self.plugins@.take(self.plugins@.len() as int) =~= self.plugins@);
        out
    }

    /// Whether the plugin `key` may be called: it must be registered and not
    /// report itself disabled.
    pub fn invoke_check(&self, key: &str) -> (r: Result<(), PluginError>)
        requires
            self.wf(),
        ensures
            match self.entry(key@) {
                None => r matches Err(PluginError::NotFound(k)) && k@ == key@,
                Some(e) => if e.status == PluginStatus::Disabled {
                    r matches Err(PluginError::Disabled(k)) && k@ == key@
                } else {
                    r is Ok
                },
            },
    {
        match assoc_find(&self.plugins, key) {
            None => Err(PluginError::NotFound(to_owned_string(key))),
            Some(i) => {
                if self.plugins[i].1.status == PluginStatus::Disabled {
                    Err(PluginError::Disabled(to_owned_string(key)))
                } else {
                    Ok(())
                }
            },
        }
    }

    /// The keys in the order plugins are started: the order first registered.
    pub fn init_order(&self) -> (r: Vec<String>)
        ensures
            r@.len() == self.entries().len(),
            forall|i: int| 0 <= i < r@.len() ==> #[trigger] r@[i] == self.entries()[i].0,
    {
        let mut out: Vec<String> = Vec::new();
        let mut i: usize = 0;
        while i < self.plugins.len()
            invariant
                i <= self.plugins@.len(),
                out@.len() == i,
                forall|j: int| 0 <= j < i ==> #[trigger] out@[j] == self.plugins@[j].0,
            decreases self.plugins.len() - i,
        {
            out.push(self.plugins[i].0.clone());
            i = i + 1;
        }
        out
    }

    /// The keys in the order plugins are destroyed: the reverse of the start order.
    pub fn destroy_order(&self) -> (r: Vec<String>)
        ensures
            r@.len() == self.entries().len(),
            forall|i: int| 0 <= i < r@.len() ==> #[trigger] r@[i] == self.entries()[self.entries().len() - 1 - i].0,
    {
        let mut out: Vec<String> = Vec::new();
        let mut i: usize = self.plugins.len();
        while i > 0
            invariant
                i <= self.plugins@.len(),
                out@.len() == self.plugins@.len() - i,
                forall|j: int| 0 <= j < out@.len() ==> #[trigger] out@[j] == self.plugins@[self.plugins@.len() - 1 - j].0,
            decreases i,
        {
            i = i - 1;
            out.push(self.plugins[i].0.clone());
        }
        out
    }
}

/// The configuration handed to a plugin when it starts: its entry in
/// `configs`, else JSON `null`.
pub fn init_config(configs: &Vec<(String, String)>, key: &str) -> (r: String)
    requires
        keys_unique(configs@),
    ensures
        r@ == match assoc_get(configs@, key@) {
            Some(c) => c@,
            None => "null"@,
        },
{
    match assoc_find(configs, key) {
        Some(i) => configs[i].1.clone(),
        None => to_owned_string("null"),
    }
}

} // verus!
