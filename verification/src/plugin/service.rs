//! The plugin service: the registry together with each plugin's configuration
//! and the state set for it, and the checks made before a plugin is used.

use vstd::prelude::*;
use crate::assoc::{assoc_get, keys_unique, assoc_find, assoc_set, assoc_take};
use crate::plugin::{PluginInfo, PluginStatus, PluginError};
use crate::plugin::registry::{PluginRegistry, PluginEntry, with_hook};
use crate::text::to_owned_string;

verus! {

/// The plugin service.
pub struct PluginService {
    registry: PluginRegistry,
    configs: Vec<(String, String)>,
    statuses: Vec<(String, PluginStatus)>,
}

impl PluginService {
    /// The registry and both tables are well formed.
    pub closed spec fn wf(&self) -> bool {
        self.registry.wf() && keys_unique(self.configs@) && keys_unique(self.statuses@)
    }

    /// The registry.
    pub closed spec fn plugins(&self) -> PluginRegistry {
        self.registry
    }

    /// The configuration set for `key`, as JSON text.
    pub closed spec fn config(&self, key: Seq<char>) -> Option<String> {
        assoc_get(self.configs@, key)
    }

    /// The state set for `key`.
    pub closed spec fn status(&self, key: Seq<char>) -> Option<PluginStatus> {
        assoc_get(self.statuses@, key)
    }

    /// A service over `registry`, with no configuration or state set.
    pub fn new(registry: PluginRegistry) -> (r: PluginService)
        requires
            registry.wf(),
        ensures
            r.wf(),
            r.plugins() == registry,
            forall|k: Seq<char>| #[trigger] r.config(k) is None,
            forall|k: Seq<char>| #[trigger] r.status(k) is None,
    {
        PluginService { registry, configs: Vec::new(), statuses: Vec::new() }
    }

    /// A service over an empty registry, with no configuration or state set.
    pub fn from_global() -> (r: PluginService)
        ensures
            r.wf(),
            r.plugins().entries().len() == 0,
            forall|k: Seq<char>| #[trigger] r.config(k) is None,
            forall|k: Seq<char>| #[trigger] r.status(k) is None,
    {
        PluginService::new(PluginRegistry::new())
    }

    /// The registry, for registering plugins.
    pub fn registry_mut(&mut self) -> (r: &mut PluginRegistry)
        requires
            old(self).wf(),
        ensures
            *r == old(self).plugins(),
            final(r).wf() ==> final(self).wf(),
            final(self).plugins() == *final(r),
            forall|k: Seq<char>| #[trigger] final(self).config(k) == old(self).config(k),
            forall|k: Seq<char>| #[trigger] final(self).status(k) == old(self).status(k),
    {
        &mut self.registry
    }

    /// The configuration set for `key`.
    pub fn get_config(&self, key: &str) -> (r: Option<String>)
        requires
            self.wf(),
        ensures
            r == self.config(key@),
    {
        match assoc_find(&self.configs, key) {
            Some(i) => Some(self.configs[i].1.clone()),
            None => None,
        }
    }

    /// Sets the configuration of `key`.
    pub fn set_config(&mut self, key: &str, config: String)
        requires
            old(self).wf(),
        ensures
            final(self).wf(),
            forall|k: Seq<char>| #[trigger] final(self).config(k) == if k == key@ {
                Some(config)
            } else {
                old(self).config(k)
            },
            forall|k: Seq<char>| #[trigger] final(self).status(k) == old(self).status(k),
            final(self).plugins() == old(self).plugins(),
    {
        assoc_set(&mut self.configs, key, config);
    }

    /// Whether `key` may be used: it must be registered, and not set disabled.
    pub fn check_status(&self, key: &str) -> (r: Result<(), PluginError>)
        requires
            self.wf(),
        ensures
            self.plugins().entry(key@) is None ==> (r matches Err(PluginError::NotFound(k)) && k@ == key@),
            self.plugins().entry(key@) is Some && self.status(key@) == Some(PluginStatus::Disabled) ==> (r matches Err(PluginError::Disabled(k)) && k@ == key@),
            self.plugins().entry(key@) is Some && self.status(key@) != Some(PluginStatus::Disabled) ==> r is Ok,
    {
        if !self.registry.contains(key) {
            return Err(PluginError::NotFound(to_owned_string(key)));
        }
        match assoc_find(&self.statuses, key) {
            Some(i) => {
                if self.statuses[i].1 == PluginStatus::Disabled {
                    return Err(PluginError::Disabled(to_owned_string(key)));
                }
            },
            None => {},
        }
        Ok(())
    }

    /// Sets the state of `key`.
    pub fn set_status(&mut self, key: &str, status: PluginStatus)
        requires
            old(self).wf(),
        ensures
            final(self).wf(),
            forall|k: Seq<char>| #[trigger] final(self).status(k) == if k == key@ {
                Some(status)
            } else {
                old(self).status(k)
            },
            forall|k: Seq<char>| #[trigger] final(self).config(k) == old(self).config(k),
            final(self).plugins() == old(self).plugins(),
    {
        assoc_set(&mut self.statuses, key, status);
    }

    fn set_registered(&mut self, key: &str, status: PluginStatus) -> (r: Result<(), PluginError>)
        requires
            old(self).wf(),
        ensures
            final(self).wf(),
            final(self).plugins() == old(self).plugins(),
            forall|k: Seq<char>| #[trigger] final(self).config(k) == old(self).config(k),
            old(self).plugins().entry(key@) is None ==> (r matches Err(PluginError::NotFound(k)) && k@ == key@)
                && forall|k: Seq<char>| #[trigger] final(self).status(k) == old(self).status(k),
            old(self).plugins().entry(key@) is Some ==> r is Ok && forall|k: Seq<char>| #[trigger] final(self).status(k) == if k == key@ {
                Some(status)
            } else {
                old(self).status(k)
            },
    {
        if !self.registry.contains(key) {
            return Err(PluginError::NotFound(to_owned_string(key)));
        }
        self.set_status(key, status);
        Ok(())
    }

    /// Enables `key`, which must be registered.
    pub fn enable(&mut self, key: &str) -> (r: Result<(), PluginError>)
        requires
            old(self).wf(),
        ensures
            final(self).wf(),
            final(self).plugins() == old(self).plugins(),
            forall|k: Seq<char>| #[trigger] final(self).config(k) == old(self).config(k),
            old(self).plugins().entry(key@) is None ==> (r matches Err(PluginError::NotFound(k)) && k@ == key@)
                && forall|k: Seq<char>| #[trigger] final(self).status(k) == old(self).status(k),
            old(self).plugins().entry(key@) is Some ==> r is Ok && forall|k: Seq<char>| #[trigger] final(self).status(k) == if k == key@ {
                Some(PluginStatus::Enabled)
            } else {
                old(self).status(k)
            },
    {
        self.set_registered(key, PluginStatus::Enabled)
    }

    /// Disables `key`, which must be registered.
    pub fn disable(&mut self, key: &str) -> (r: Result<(), PluginError>)
        requires
            old(self).wf(),
        ensures
            final(self).wf(),
            final(self).plugins() == old(self).plugins(),
            forall|k: Seq<char>| #[trigger] final(self).config(k) == old(self).config(k),
            old(self).plugins().entry(key@) is None ==> (r matches Err(PluginError::NotFound(k)) && k@ == key@)
                && forall|k: Seq<char>| #[trigger] final(self).status(k) == old(self).status(k),
            old(self).plugins().entry(key@) is Some ==> r is Ok && forall|k: Seq<char>| #[trigger] final(self).status(k) == if k == key@ {
                Some(PluginStatus::Disabled)
            } else {
                old(self).status(k)
            },
    {
        self.set_registered(key, PluginStatus::Disabled)
    }

    /// The description of `key`, once the status check passes.
    pub fn get_info(&self, key: &str) -> (r: Result<PluginInfo, PluginError>)
        requires
            self.wf(),
        ensures
            self.plugins().entry(key@) is None ==> (r matches Err(PluginError::NotFound(k)) && k@ == key@),
            self.plugins().entry(key@) is Some && self.status(key@) == Some(PluginStatus::Disabled) ==> (r matches Err(PluginError::Disabled(k)) && k@ == key@),
            self.plugins().entry(key@) is Some && self.status(key@) != Some(PluginStatus::Disabled) ==> (r matches Ok(i) && i == self.plugins().entry(key@)->0.info),
    {
        match self.check_status(key) {
            Err(e) => Err(e),
            Ok(()) => match self.registry.get(key) {
                Some(e) => Ok(e.info.copy()),
                None => Err(PluginError::NotFound(to_owned_string(key))),
            },
        }
    }

    /// The descriptions of every plugin.
    pub fn list(&self) -> (r: Vec<PluginInfo>)
        ensures
            r@.len() == self.plugins().entries().len(),
            forall|i: int| 0 <= i < r@.len() ==> #[trigger] r@[i] == self.plugins().entries()[i].1.info,
    {
        self.registry.list()
    }

    /// The descriptions of the plugins of the hook `hook`.
    pub fn get_by_hook(&self, hook: &str) -> (r: Vec<PluginInfo>)
        ensures
            r@ == with_hook(self.plugins().entries(), hook@),
    {
        self.registry.get_by_hook(hook)
    }

    /// Removes `key` with its configuration and state.
    pub fn remove(&mut self, key: &str) -> (r: Result<(), PluginError>)
        requires
            old(self).wf(),
        ensures
            final(self).wf(),
            r is Ok,
            final(self).plugins().entry(key@) is None,
            final(self).config(key@) is None,
            final(self).status(key@) is None,
            forall|k: Seq<char>| k != key@ ==> #[trigger] final(self).plugins().entry(k) == old(self).plugins().entry(k)
                && final(self).config(k) == old(self).config(k) && final(self).status(k) == old(self).status(k),
    {
        let _ = self.registry.remove(key);
        let _ = assoc_take(&mut self.configs, key);
        let _ = assoc_take(&mut self.statuses, key);
        Ok(())
    }
}

/// Whether the status check lets `key` be used.
pub open spec fn usable(s: PluginService, key: Seq<char>) -> bool {
    s.plugins().entry(key) is Some && s.status(key) != Some(PluginStatus::Disabled)
}

/// Law: once a registered plugin has been disabled (what `disable` leaves
/// behind), the status check refuses it; once enabled, it lets it be used.
pub proof fn law_disable_and_enable(before: PluginService, disabled: PluginService, enabled: PluginService, key: Seq<char>)
    requires
        before.plugins().entry(key) is Some,
        disabled.plugins() == before.plugins(),
        disabled.status(key) == Some(PluginStatus::Disabled),
        enabled.plugins() == before.plugins(),
        enabled.status(key) == Some(PluginStatus::Enabled),
    ensures
        !usable(disabled, key),
        usable(enabled, key),
{
}

} // verus!
