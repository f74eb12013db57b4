//! Module registration: modules are kept in load order, a higher `order`
//! first and, among equal orders, the earlier registered first.

use vstd::prelude::*;
use crate::assoc::{assoc_get, keys_unique, assoc_find, lemma_assoc_update, lemma_assoc_push, lemma_assoc_get_none};
use crate::config::ModuleConfig;
use crate::scan::string_views;
use crate::text::to_owned_string;

verus! {

/// A module as listed to clients.
#[derive(Debug)]
pub struct ModuleInfo {
    pub name: String,
    pub description: String,
    pub prefix: String,
    pub order: i32,
    pub enabled: bool,
}

/// A field-by-field copy of a module's settings.
pub fn copy_module_config(c: &ModuleConfig) -> (r: ModuleConfig)
    ensures
        r == *c,
{
    ModuleConfig { name: c.name.clone(), description: c.description.clone(), order: c.order }
}

/// Registered modules and their load order.
pub struct ModuleRegistry {
    modules: Vec<(String, ModuleConfig)>,
    order: Vec<String>,
}

impl ModuleRegistry {
    /// Names are unique in the table and every name in the load order is
    /// registered.
    pub closed spec fn wf(&self) -> bool {
        &&& keys_unique(self.modules@)
        &&& forall|i: int| 0 <= i < self.order@.len() ==> assoc_get(self.modules@, #[trigger] self.order@[i]@) is Some
    }

    /// The settings registered under `name`.
    pub closed spec fn config(&self, name: Seq<char>) -> Option<ModuleConfig> {
        assoc_get(self.modules@, name)
    }

    /// The load order, as names.
    pub closed spec fn load_order(&self) -> Seq<Seq<char>> {
        string_views(self.order@)
    }

    /// The `order` setting of a registered module.
    pub open spec fn order_of(&self, name: Seq<char>) -> int {
        match self.config(name) {
            Some(c) => c.order as int,
            None => 0,
        }
    }

    /// Whether the load order has higher `order` first.
    pub open spec fn sorted(&self) -> bool {
        forall|i: int, j: int| 0 <= i < j < self.load_order().len() ==> self.order_of(
            #[trigger] self.load_order()[i],
        ) >= self.order_of(#[trigger] self.load_order()[j])
    }

    /// An empty registry.
    pub fn new() -> (r: ModuleRegistry)
        ensures
            r.wf(),
            r.load_order().len() == 0,
            forall|n: Seq<char>| #[trigger] r.config(n) is None,
    {
        let r = ModuleRegistry { modules: Vec::new(), order: Vec::new() };
        assert(string_views(r.order@) =~= seq![]);
        r
    }

    /// Registers a module by its settings. Its settings replace any registered
    /// under its name, and its name is inserted into the load order before the
    /// first module whose `order` is lower, else at the end.
    pub fn register(&mut self, config: ModuleConfig)
        requires
            old(self).wf(),
        ensures
            final(self).wf(),
            forall|n: Seq<char>| #[trigger] final(self).config(n) == if n == config.name@ {
                Some(config)
            } else {
                old(self).config(n)
            },
            exists|p: int|
                0 <= p <= old(self).load_order().len()
                && final(self).load_order() == old(self).load_order().insert(p, config.name@)
                && (forall|j: int| 0 <= j < p ==> final(self).order_of(#[trigger] old(self).load_order()[j]) >= config.order)
                && (p < old(self).load_order().len() ==> final(self).order_of(old(self).load_order()[p]) < config.order),
            old(self).sorted() && old(self).config(config.name@) is None ==> final(self).sorted(),
    {
        let ghost old_self = *self;
        let ghost cfg = config;
        let name = config.name.clone();
        let o = config.order;
        match assoc_find(&self.modules, name.as_str()) {
            Some(i) => {
                proof {
                    lemma_assoc_update(self.modules@, i as int, cfg);
                }
                let k = self.modules[i].0.clone();
                let ghost before = self.modules@;
                self.modules.set(i, (k, config));
                assert(self.modules@ =~= before.update(i as int, (before[i as int].0, cfg)));
            },
            None => {
                let e = (name.clone(), config);
                proof {
                    lemma_assoc_push(self.modules@, e);
                }
                self.modules.push(e);
            },
        }
        assert(forall|n: Seq<char>| #[trigger] self.config(n) == if n == cfg.name@ {
            Some(cfg)
        } else {
            old_self.config(n)
        });
        let mut pos: usize = 0;
        while pos < self.order.len()
            invariant
                pos <= self.order@.len(),
                keys_unique(self.modules@),
                self.order@ == old_self.order@,
                forall|n: Seq<char>| #[trigger] assoc_get(self.modules@, n) == if n == cfg.name@ {
                    Some(cfg)
                } else {
                    assoc_get(old_self.modules@, n)
                },
                forall|i: int| 0 <= i < self.order@.len() ==> assoc_get(self.modules@, #[trigger] self.order@[i]@) is Some,
                o == cfg.order,
                forall|j: int| 0 <= j < pos ==> self.order_of(#[trigger] self.order@[j]@) >= o,
            ensures
                pos <= self.order@.len(),
                self.order@ == old_self.order@,
                forall|j: int| 0 <= j < pos ==> self.order_of(#[trigger] self.order@[j]@) >= o,
                pos < self.order@.len() ==> self.order_of(self.order@[pos as int]@) < o,
            decreases self.order.len() - pos,
        {
            let found = assoc_find(&self.modules, self.order[pos].as_str());
            let lower = match found {
                Some(k) => self.modules[k].1.order < o,
                None => true,
            };
            if lower {
                break;
            }
            pos = pos + 1;
        }
        let ghost p = pos as int;
        let ghost before_order = self.order@;
        self.order.insert(pos, name);
        assert(string_views(self.order@) =~= string_views(before_order).insert(p, cfg.name@));
        assert forall|i: int| 0 <= i < self.order@.len() implies assoc_get(
            self.modules@,
            #[trigger] self.order@[i]@,
        ) is Some by {
            if i < p {
                assert(self.order@[i] == before_order[i]);
            } else if i > p {
                assert(self.order@[i] == before_order[i - 1]);
            }
        }
        assert(p < old_self.load_order().len() ==> self.order_of(old_self.load_order()[p]) < cfg.order) by {
            if p < old_self.load_order().len() {
                assert(old_self.load_order()[p] == before_order[p]@);
            }
        }
        assert(forall|j: int| 0 <= j < p ==> self.order_of(#[trigger] old_self.load_order()[j]) >= cfg.order) by {
            assert forall|j: int| 0 <= j < p implies self.order_of(#[trigger] old_self.load_order()[j]) >= cfg.order by {
                assert(old_self.load_order()[j] == before_order[j]@);
            }
        }
        proof {
            if old_self.sorted() && old_self.config(cfg.name@) is None {
                let lo = old_self.load_order();
                let ln = self.load_order();
                assert forall|n: Seq<char>| n != cfg.name@ implies self.order_of(n) == old_self.order_of(n) by {}
                assert forall|j: int| 0 <= j < lo.len() implies lo[j] != cfg.name@ by {
                    assert(assoc_get(old_self.modules@, lo[j]) is Some);
                }
                assert forall|a: int, b: int| 0 <= a < b < ln.len() implies self.order_of(
                    #[trigger] ln[a],
                ) >= self.order_of(#[trigger] ln[b]) by {
                    if a < p && b < p {
                        assert(ln[a] == lo[a] && ln[b] == lo[b]);
                        assert(old_self.order_of(lo[a]) >= old_self.order_of(lo[b]));
                    } else if a < p && b == p {
                        assert(ln[a] == lo[a]);
                    } else if a < p && b > p {
                        assert(ln[a] == lo[a] && ln[b] == lo[b - 1]);
                        assert(old_self.order_of(lo[a]) >= old_self.order_of(lo[b - 1]));
                    } else if a == p {
                        assert(ln[b] == lo[b - 1]);
                        assert(lo[p] != cfg.name@);
                        assert(old_self.order_of(lo[p]) >= old_self.order_of(lo[b - 1]));
                    } else {
                        assert(ln[a] == lo[a - 1] && ln[b] == lo[b - 1]);
                        assert(old_self.order_of(lo[a - 1]) >= old_self.order_of(lo[b - 1]));
                    }
                }
            }
        }
    }

    /// The settings of every module, in load order.
    pub fn get_all(&self) -> (r: Vec<ModuleConfig>)
        requires
            self.wf(),
        ensures
            r@.len() == self.load_order().len(),
            forall|i: int| 0 <= i < r@.len() ==> self.config(self.load_order()[i]) == Some(#[trigger] r@[i]),
    {
        let mut out: Vec<ModuleConfig> = Vec::new();
        let mut i: usize = 0;
        while i < self.order.len()
            invariant
                self.wf(),
                i <= self.order@.len(),
                out@.len() == i,
                forall|j: int| 0 <= j < i ==> self.config(self.order@[j]@) == Some(#[trigger] out@[j]),
            decreases self.order.len() - i,
        {
            assert(assoc_get(self.modules@, self.order@[i as int]@) is Some);
            match assoc_find(&self.modules, self.order[i].as_str()) {
                Some(k) => {
                    out.push(copy_module_config(&self.modules[k].1));
                },
                None => {},
            }
            i = i + 1;
        }
        out
    }

    /// The settings registered under `name`.
    pub fn get(&self, name: &str) -> (r: Option<ModuleConfig>)
        requires
            self.wf(),
        ensures
            r == self.config(name@),
    {
        match assoc_find(&self.modules, name) {
            Some(k) => Some(copy_module_config(&self.modules[k].1)),
            None => None,
        }
    }

    /// Every module as listed to clients, in load order: no prefix, enabled.
    pub fn info_list(&self) -> (r: Vec<ModuleInfo>)
        requires
            self.wf(),
        ensures
            r@.len() == self.load_order().len(),
            forall|i: int| 0 <= i < r@.len() ==> (self.config(self.load_order()[i]) matches Some(c)
                && (#[trigger] r@[i]).name == c.name && r@[i].description == c.description
                && r@[i].order == c.order && r@[i].prefix@.len() == 0 && r@[i].enabled),
    {
        let all = self.get_all();
        let mut out: Vec<ModuleInfo> = Vec::new();
        let mut i: usize = 0;
        while i < all.len()
            invariant
                i <= all@.len(),
                out@.len() == i,
                forall|j: int| 0 <= j < i ==> (#[trigger] out@[j]).name == all@[j].name
                    && out@[j].description == all@[j].description && out@[j].order == all@[j].order
                    && out@[j].prefix@.len() == 0 && out@[j].enabled,
            decreases all.len() - i,
        {
            let c = copy_module_config(&all[i]);
            out.push(ModuleInfo { name: c.name, description: c.description, prefix: String::new(), order: c.order, enabled: true });
            i = i + 1;
        }
        out
    }
}

/// A module found by scanning the modules directory.
#[derive(Debug)]
pub struct LegacyModuleInfo {
    pub name: String,
    pub order: i32,
}

/// The modules found by scanning, in the order found.
pub struct ModuleManager {
    modules: Vec<LegacyModuleInfo>,
}

impl ModuleManager {
    /// The names found, in order.
    pub closed spec fn names(&self) -> Seq<Seq<char>> {
        self.modules@.map_values(|m: LegacyModuleInfo| m.name@)
    }

    /// Every module found so far has order 0.
    pub closed spec fn wf(&self) -> bool {
        forall|i: int| 0 <= i < self.modules@.len() ==> (#[trigger] self.modules@[i]).order == 0
    }

    /// No modules.
    pub fn new() -> (r: ModuleManager)
        ensures
            r.wf(),
            r.names().len() == 0,
    {
        let r = ModuleManager { modules: Vec::new() };
        assert(r.names() =~= seq![]);
        r
    }

    /// Records the directories found by a scan, each with order 0. Since every
    /// order is 0, ordering by descending order (a stable sort) keeps them in
    /// the order found.
    pub fn add_scanned(&mut self, dirs: &Vec<String>)
        requires
            old(self).wf(),
        ensures
            final(self).wf(),
            final(self).names() == old(self).names() + string_views(dirs@),
    {
        let ghost start = self.names();
        let mut i: usize = 0;
        while i < dirs.len()
            invariant
                self.wf(),
                i <= dirs@.len(),
                self.names() == start + string_views(dirs@).take(i as int),
            decreases dirs.len() - i,
        {
            let ghost before = self.names();
            self.modules.push(LegacyModuleInfo { name: dirs[i].clone(), order: 0 });
            assert(self.names() =~= before.push(dirs@[i as int]@));
            assert(string_views(dirs@).take(i + 1) =~= string_views(dirs@).take(i as int).push(dirs@[i as int]@));
            i = i + 1;
        }
        assert(string_views(dirs@).take(dirs@.len() as int) =~= string_views(dirs@));
    }

    /// The modules found, in order.
    pub fn modules(&self) -> (r: Vec<LegacyModuleInfo>)
        requires
            self.wf(),
        ensures
            r@.map_values(|m: LegacyModuleInfo| m.name@) == self.names(),
            forall|i: int| 0 <= i < r@.len() ==> (#[trigger] r@[i]).order == 0,
    {
        let mut out: Vec<LegacyModuleInfo> = Vec::new();
        let mut i: usize = 0;
        while i < self.modules.len()
            invariant
                self.wf(),
                i <= self.modules@.len(),
                out@.len() == i,
                forall|j: int| 0 <= j < i ==> (#[trigger] out@[j]).name@ == self.modules@[j].name@
                    && out@[j].order == self.modules@[j].order,
            decreases self.modules.len() - i,
        {
            out.push(LegacyModuleInfo { name: self.modules[i].name.clone(), order: self.modules[i].order });
            i = i + 1;
        }
        assert(out@.map_values(|m: LegacyModuleInfo| m.name@) =~= self.names());
        out
    }
}

/// The name of the lock file that marks a module's menu as imported.
pub fn menu_lock_file_name(module: &str) -> (r: String)
    ensures
        r@ == module@ + ".menu.lock"@,
{
    let mut r = to_owned_string(module);
    r.append(".menu.lock");
    r
}

/// Whether a module's menu is imported: it has a menu file and no lock file yet.
pub fn should_import_menu(menu_exists: bool, lock_exists: bool) -> (r: bool)
    ensures
        r == (menu_exists && !lock_exists),
{
    menu_exists && !lock_exists
}

} // verus!
