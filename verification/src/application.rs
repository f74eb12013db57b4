//! The application: its configuration, its modules in load order and its
//! event handlers. Serving requests is done by the application binary.

use vstd::prelude::*;
use crate::cache::MemoryCache;
use crate::config::{CoolConfig, ModuleConfig};
use crate::event::{EventManager, ServerReadyEvent};
use crate::module::ModuleRegistry;
use crate::text::to_owned_string;

verus! {

/// The application.
pub struct CoolApp {
    pub config: CoolConfig,
    pub modules: ModuleRegistry,
    pub events: EventManager,
}

impl CoolApp {
    /// An application with `config`, no modules and no event handlers.
    pub fn new(config: CoolConfig) -> (r: CoolApp)
        ensures
            r.config == config,
            r.modules.wf(),
            r.modules.load_order().len() == 0,
            r.events.wf(),
            forall|e: Seq<char>| #[trigger] r.events.handlers_of(e).len() == 0,
    {
        CoolApp { config, modules: ModuleRegistry::new(), events: EventManager::new() }
    }

    /// Registers a module, by its settings, in load order.
    pub fn register(self, module: ModuleConfig) -> (r: CoolApp)
        requires
            self.modules.wf(),
        ensures
            r.modules.wf(),
            r.config == self.config,
            forall|n: Seq<char>| #[trigger] r.modules.config(n) == if n == module.name@ {
                Some(module)
            } else {
                self.modules.config(n)
            },
            self.modules.sorted() && self.modules.config(module.name@) is None ==> r.modules.sorted(),
    {
        let mut app = self;
        app.modules.register(module);
        app
    }

    /// The data of the event sent once the server listens on `addr`.
    pub fn ready_event(addr: &str) -> (r: ServerReadyEvent)
        ensures
            r.address@ == addr@,
            r.port == 0,
    {
        ServerReadyEvent { address: to_owned_string(addr), port: 0 }
    }
}

impl Default for CoolApp {
    /// An application with the default configuration.
    fn default() -> (r: CoolApp)
        ensures
            r.modules.wf(),
            r.modules.load_order().len() == 0,
    {
        CoolApp::new(CoolConfig::default())
    }
}

/// Makes caches.
pub struct CacheFactory;

impl CacheFactory {
    /// An empty in-memory cache.
    pub fn memory() -> (r: MemoryCache)
        ensures
            r.wf(),
            r.view() == Map::<Seq<char>, (Seq<char>, Option<u64>)>::empty(),
    {
        MemoryCache::new()
    }
}

} // verus!
