//! Remote calls between services: settings, node records and the keys and
//! channels they live under, the choice of a node, the answers to calls,
//! service and event metadata, and the bookkeeping of distributed
//! transactions. Messaging and HTTP are done by the application.

use vstd::prelude::*;
use crate::assoc::{assoc_get, keys_unique, assoc_find, assoc_set, assoc_take};
use crate::scan::string_views;
use crate::text::{to_owned_string, str_eq, nat_text, u64_text};
use crate::util::{uuid, is_hyphenated_v4};

verus! {

/// Settings of a service's remote-call broker.
#[derive(Debug)]
pub struct RpcConfig {
    pub name: String,
    pub redis_url: String,
    /// Seconds between heartbeats.
    pub heartbeat_interval: u64,
    /// Seconds after the last heartbeat that a node counts as gone.
    pub service_timeout: u64,
    /// Seconds a call may take.
    pub call_timeout: u64,
}

impl Default for RpcConfig {
    /// Service `cool-service` on a local Redis, heartbeats every 5 s, nodes
    /// gone after 30 s, calls limited to 10 s.
    fn default() -> (r: RpcConfig)
        ensures
            r.name@ == "cool-service"@,
            r.redis_url@ == "redis://127.0.0.1:6379"@,
            r.heartbeat_interval == 5,
            r.service_timeout == 30,
            r.call_timeout == 10,
    {
        RpcConfig {
            name: to_owned_string("cool-service"),
            redis_url: to_owned_string("redis://127.0.0.1:6379"),
            heartbeat_interval: 5,
            service_timeout: 30,
            call_timeout: 10,
        }
    }
}

/// The errors of a service's methods.
#[derive(Debug)]
pub enum ServiceError {
    MethodNotFound(String),
    InvalidParams(String),
    ExecutionError(String),
}

/// The message of each service error.
pub open spec fn service_error_text(e: ServiceError) -> Seq<char> {
    match e {
        ServiceError::MethodNotFound(m) => "方法未找到: "@ + m@,
        ServiceError::InvalidParams(m) => "参数错误: "@ + m@,
        ServiceError::ExecutionError(m) => "执行错误: "@ + m@,
    }
}

impl ServiceError {
    /// The error's message.
    pub fn message(&self) -> (r: String)
        ensures
            r@ == service_error_text(*self),
    {
        let (head, m) = match self {
            ServiceError::MethodNotFound(m) => ("方法未找到: ", m),
            ServiceError::InvalidParams(m) => ("参数错误: ", m),
            ServiceError::ExecutionError(m) => ("执行错误: ", m),
        };
        let mut r = to_owned_string(head);
        r.append(m.as_str());
        r
    }
}

/// A named remote service.
#[derive(Debug)]
pub struct RpcService {
    pub name: String,
}

impl RpcService {
    /// The service `name`.
    pub fn new(name: &str) -> (r: RpcService)
        ensures
            r.name@ == name@,
    {
        RpcService { name: to_owned_string(name) }
    }
}

/// Builds a remote service.
pub struct RpcServiceBuilder {
    name: String,
}

impl RpcServiceBuilder {
    /// The name the service will have.
    pub closed spec fn name(&self) -> Seq<char> {
        self.name@
    }

    /// A builder of the service `name`.
    pub fn new(name: &str) -> (r: RpcServiceBuilder)
        ensures
            r.name() == name@,
    {
        RpcServiceBuilder { name: to_owned_string(name) }
    }

    /// The service.
    pub fn build(self) -> (r: RpcService)
        ensures
            r.name@ == self.name(),
    {
        RpcService { name: self.name }
    }
}

/// The errors of remote calls.
#[derive(Debug)]
pub enum RpcError {
    ServiceNotFound(String),
    MethodNotFound(String),
    Timeout,
    Redis(String),
    Serialization(String),
    Http(String),
    Other(String),
}

/// The message of each remote-call error.
pub open spec fn rpc_error_text(e: RpcError) -> Seq<char> {
    match e {
        RpcError::ServiceNotFound(m) => "服务未找到: "@ + m@,
        RpcError::MethodNotFound(m) => "方法未找到: "@ + m@,
        RpcError::Timeout => "调用超时"@,
        RpcError::Redis(m) => "Redis 错误: "@ + m@,
        RpcError::Serialization(m) => "序列化错误: "@ + m@,
        RpcError::Http(m) => "HTTP 错误: "@ + m@,
        RpcError::Other(m) => "其他错误: "@ + m@,
    }
}

impl RpcError {
    /// The error's message.
    pub fn message(&self) -> (r: String)
        ensures
            r@ == rpc_error_text(*self),
    {
        let (head, m) = match self {
            RpcError::ServiceNotFound(m) => ("服务未找到: ", Some(m)),
            RpcError::MethodNotFound(m) => ("方法未找到: ", Some(m)),
            RpcError::Timeout => ("调用超时", None),
            RpcError::Redis(m) => ("Redis 错误: ", Some(m)),
            RpcError::Serialization(m) => ("序列化错误: ", Some(m)),
            RpcError::Http(m) => ("HTTP 错误: ", Some(m)),
            RpcError::Other(m) => ("其他错误: ", Some(m)),
        };
        let mut r = to_owned_string(head);
        match m {
            Some(m) => r.append(m.as_str()),
            None => {},
        }
        r
    }
}

/// A running node of a service.
#[derive(Debug)]
pub struct ServiceNode {
    pub id: String,
    pub name: String,
    pub address: String,
    pub port: u16,
    /// Seconds since the epoch of the node's last heartbeat.
    pub last_heartbeat: i64,
    pub services: Vec<String>,
}

/// The key of the set of nodes of the service `name`.
pub fn services_key(name: &str) -> (r: String)
    ensures
        r@ == "cool:rpc:services:"@ + name@,
{
    let mut r = to_owned_string("cool:rpc:services:");
    r.append(name);
    r
}

/// The channel of the event `event`.
pub fn event_channel(event: &str) -> (r: String)
    ensures
        r@ == "cool:rpc:event:"@ + event@,
{
    let mut r = to_owned_string("cool:rpc:event:");
    r.append(event);
    r
}

/// The channel every node listens on.
pub const BROADCAST_CHANNEL: &'static str = "cool:rpc:broadcast";

/// A fresh node id of the service `name`: the name, `-` and a fresh UUID.
pub fn new_node_id(name: &str) -> (r: String)
    ensures
        exists|id: Seq<char>| is_hyphenated_v4(id) && r@ == name@ + "-"@ + id,
{
    let mut r = to_owned_string(name);
    r.append("-");
    let u = uuid();
    r.append(u.as_str());
    r
}

/// The URL of the call endpoint of a node: `http://address:port/rpc/call`.
pub fn call_url(node: &ServiceNode) -> (r: String)
    ensures
        r@ == "http://"@ + node.address@ + ":"@ + nat_text(node.port as nat) + "/rpc/call"@,
{
    let mut r = to_owned_string("http://");
    r.append(node.address.as_str());
    r.append(":");
    let p = u64_text(node.port as u64);
    r.append(p.as_str());
    r.append("/rpc/call");
    r
}

/// Whether a node whose last heartbeat was at `last_heartbeat` is still
/// counted at `now` (seconds): at most `timeout` seconds have passed.
pub open spec fn node_alive(last_heartbeat: i64, now: i64, timeout: u64) -> bool {
    now - last_heartbeat <= timeout
}

/// Picks the node for a call among `nodes` (their JSON records, as stored)
/// using the random number `random`: none available is an error naming the
/// service; else the record at `random` modulo their number.
pub fn pick_node(name: &str, nodes: &Vec<String>, random: u64) -> (r: Result<usize, RpcError>)
    ensures
        nodes@.len() == 0 ==> (r matches Err(RpcError::ServiceNotFound(n)) && n@ == name@),
        nodes@.len() > 0 ==> r == Ok::<usize, RpcError>((random % (nodes@.len() as u64)) as usize),
{
    if nodes.len() == 0 {
        return Err(RpcError::ServiceNotFound(to_owned_string(name)));
    }
    let n = nodes.len() as u64;
    Ok((random % n) as usize)
}

/// A random number from `rand::random::<u64>()`. Nothing is stated of it.
#[verifier::external_body]
fn random_u64() -> (r: u64) {
    rand::random::<u64>()
}

/// Picks the node for a call among `nodes` at random: none available is an
/// error naming the service; else the index of one of them.
pub fn choose_node(name: &str, nodes: &Vec<String>) -> (r: Result<usize, RpcError>)
    ensures
        nodes@.len() == 0 ==> (r matches Err(RpcError::ServiceNotFound(n)) && n@ == name@),
        nodes@.len() > 0 ==> (r matches Ok(i) && i < nodes@.len()),
{
    pick_node(name, nodes, random_u64())
}

/// Checks the picked node at `now` (seconds): one whose last heartbeat is
/// more than `timeout` seconds old counts as gone.
pub fn check_node(name: &str, node: ServiceNode, now: i64, timeout: u64) -> (r: Result<ServiceNode, RpcError>)
    ensures
        node_alive(node.last_heartbeat, now, timeout) ==> r == Ok::<ServiceNode, RpcError>(node),
        !node_alive(node.last_heartbeat, now, timeout) ==> (r matches Err(RpcError::ServiceNotFound(n)) && n@ == name@),
{
    let age: i128 = (now as i128) - (node.last_heartbeat as i128);
    if age > timeout as i128 {
        Err(RpcError::ServiceNotFound(to_owned_string(name)))
    } else {
        Ok(node)
    }
}

/// The answer to a remote call: whether it succeeded, its data (JSON text)
/// and its error message.
#[derive(Debug)]
pub struct RpcResponse {
    pub success: bool,
    pub data: Option<String>,
    pub error: Option<String>,
}

/// What a caller makes of an answer: the data of a success (JSON `null`
/// where there is none), else an error with the answer's message.
pub fn call_result(resp: RpcResponse) -> (r: Result<String, RpcError>)
    ensures
        resp.success ==> (r matches Ok(d) && d@ == match resp.data {
            Some(x) => x@,
            None => "null"@,
        }),
        !resp.success ==> (r matches Err(RpcError::Other(m)) && m@ == match resp.error {
            Some(x) => x@,
            None => seq![],
        }),
{
    if resp.success {
        match resp.data {
            Some(d) => Ok(d),
            None => Ok(to_owned_string("null")),
        }
    } else {
        match resp.error {
            Some(e) => Err(RpcError::Other(e)),
            None => Err(RpcError::Other(String::new())),
        }
    }
}

/// The answer to a request for a service this node does not have.
pub fn missing_service_response(service: &str) -> (r: RpcResponse)
    ensures
        !r.success,
        r.data is None,
        r.error matches Some(e) && e@ == "服务未找到: "@ + service@,
{
    let mut m = to_owned_string("服务未找到: ");
    m.append(service);
    RpcResponse { success: false, data: None, error: Some(m) }
}

/// The answer to a request from what the service's method gave.
pub fn handled_response(result: Result<String, ServiceError>) -> (r: RpcResponse)
    ensures
        match result {
            Ok(d) => r.success && r.data == Some(d) && r.error is None,
            Err(e) => !r.success && r.data is None && (r.error matches Some(m) && m@ == service_error_text(e)),
        },
{
    match result {
        Ok(d) => RpcResponse { success: true, data: Some(d), error: None },
        Err(e) => RpcResponse { success: false, data: None, error: Some(e.message()) },
    }
}

/// A service's name and methods.
#[derive(Debug)]
pub struct RpcServiceMeta {
    pub name: String,
    pub methods: Vec<String>,
}

/// Service metadata by name.
pub struct RpcRegistry {
    services: Vec<(String, RpcServiceMeta)>,
}

impl RpcRegistry {
    /// Names are unique.
    pub closed spec fn wf(&self) -> bool {
        keys_unique(self.services@)
    }

    /// The metadata of every service, by name.
    pub closed spec fn entries(&self) -> Seq<(String, RpcServiceMeta)> {
        self.services@
    }

    /// No services.
    pub fn new() -> (r: RpcRegistry)
        ensures
            r.wf(),
            r.entries().len() == 0,
    {
        RpcRegistry { services: Vec::new() }
    }

    /// Registers (or replaces) the metadata of a service, under its name.
    pub fn register_service(&mut self, meta: RpcServiceMeta)
        requires
            old(self).wf(),
        ensures
            final(self).wf(),
            forall|k: Seq<char>| #[trigger] assoc_get(final(self).entries(), k) == if k == meta.name@ {
                Some(meta)
            } else {
                assoc_get(old(self).entries(), k)
            },
    {
        let name = meta.name.clone();
        assoc_set(&mut self.services, name.as_str(), meta);
    }

    /// The metadata of every service.
    pub fn services(&self) -> (r: &Vec<(String, RpcServiceMeta)>)
        ensures
            r@ == self.entries(),
    {
        &self.services
    }
}

/// A handler of an event, named for documentation.
#[derive(Debug)]
pub struct RpcEventMeta {
    pub name: String,
    pub handler: String,
}

/// Event handler metadata by service.
pub struct RpcEventRegistry {
    events: Vec<(String, Vec<RpcEventMeta>)>,
}

impl RpcEventRegistry {
    /// Service names are unique.
    pub closed spec fn wf(&self) -> bool {
        keys_unique(self.events@)
    }

    /// The handlers registered by `service`, in order.
    pub closed spec fn handlers(&self, service: Seq<char>) -> Seq<RpcEventMeta> {
        match assoc_get(self.events@, service) {
            Some(v) => v@,
            None => seq![],
        }
    }

    /// The handlers of every service.
    pub closed spec fn entries(&self) -> Seq<(String, Vec<RpcEventMeta>)> {
        self.events@
    }

    /// No handlers.
    pub fn new() -> (r: RpcEventRegistry)
        ensures
            r.wf(),
            r.entries().len() == 0,
    {
        RpcEventRegistry { events: Vec::new() }
    }

    /// Adds a handler of `service`.
    pub fn register(&mut self, service: &str, meta: RpcEventMeta)
        requires
            old(self).wf(),
        ensures
            final(self).wf(),
            final(self).handlers(service@) == old(self).handlers(service@).push(meta),
            forall|s: Seq<char>| s != service@ ==> #[trigger] final(self).handlers(s) == old(self).handlers(s),
    {
        let mut list = match assoc_take(&mut self.events, service) {
            Some(l) => l,
            None => Vec::new(),
        };
        list.push(meta);
        assoc_set(&mut self.events, service, list);
    }

    /// The handlers of every service.
    pub fn all(&self) -> (r: &Vec<(String, Vec<RpcEventMeta>)>)
        ensures
            r@ == self.entries(),
    {
        &self.events
    }
}

/// An event sent between nodes. Its data is JSON text; its time is in
/// milliseconds since the epoch.
#[derive(Debug)]
pub struct RpcEvent {
    pub name: String,
    pub data: String,
    pub source: String,
    pub timestamp: i64,
}

/// The levels of transaction isolation.
#[derive(Debug, Clone, Copy, PartialEq, Eq, Structural)]
pub enum IsolationLevel {
    ReadUncommitted,
    ReadCommitted,
    RepeatableRead,
    Serializable,
}

/// Options of a transaction.
#[derive(Debug)]
pub struct TransactionOptions {
    pub connection_name: Option<String>,
    pub isolation: Option<IsolationLevel>,
}

impl Default for TransactionOptions {
    fn default() -> (r: TransactionOptions)
        ensures
            r.connection_name is None,
            r.isolation is None,
    {
        TransactionOptions { connection_name: None, isolation: None }
    }
}

/// The outcome of a distributed transaction, as broadcast to its participants.
#[derive(Debug)]
pub struct TransactionEvent {
    pub rpc_transaction_id: String,
    pub commit: bool,
}

/// The name of the event that ends a distributed transaction.
pub const TRANSACTION_EVENT: &'static str = "moleculer.transaction";

/// What a participant does on an event: for the transaction event whose data
/// could be read, commit or roll back the named transaction; otherwise nothing.
pub fn transaction_action(event_name: &str, data: Option<TransactionEvent>) -> (r: Option<TransactionEvent>)
    ensures
        event_name@ != "moleculer.transaction"@ ==> r is None,
        event_name@ == "moleculer.transaction"@ ==> r == data,
{
    if !str_eq(event_name, "moleculer.transaction") {
        return None;
    }
    data
}

/// The participant's handler of the transaction event.
#[derive(Debug, Clone, Copy)]
pub struct TransactionEventHandler;

impl TransactionEventHandler {
    /// The event the handler listens to.
    pub fn event_name(&self) -> (r: Option<&'static str>)
        ensures
            r matches Some(n) && n@ == TRANSACTION_EVENT@,
    {
        Some(TRANSACTION_EVENT)
    }

    /// What the handler does with the event `event_name`, whose data was read
    /// as `data` (`None` where it could not be read): commit or roll back the
    /// named transaction on the transaction event, nothing otherwise.
    pub fn action(&self, event_name: &str, data: Option<TransactionEvent>) -> (r: Option<
        TransactionEvent,
    >)
        ensures
            event_name@ != TRANSACTION_EVENT@ ==> r is None,
            event_name@ == TRANSACTION_EVENT@ ==> r == data,
    {
        proof {
            reveal_strlit("moleculer.transaction");
        }
        transaction_action(event_name, data)
    }
}

/// The transaction a call of a `#[cool_rpc_transaction]` function runs in:
/// the one propagated to it, else a fresh one of which this call is the
/// caller (the caller later broadcasts the outcome).
pub fn resolve_transaction_id(propagated: Option<String>) -> (r: (String, bool))
    ensures
        match propagated {
            Some(id) => r.0 == id && !r.1,
            None => is_hyphenated_v4(r.0@) && r.1,
        },
{
    match propagated {
        Some(id) => (id, false),
        None => (uuid(), true),
    }
}

/// The outcome a caller broadcasts when its transactional call returns.
pub fn transaction_outcome(id: String, call_succeeded: bool) -> (r: TransactionEvent)
    ensures
        r.rpc_transaction_id == id,
        r.commit == call_succeeded,
{
    TransactionEvent { rpc_transaction_id: id, commit: call_succeeded }
}

/// A transaction in progress: its connection and when it began (milliseconds).
#[derive(Debug)]
pub struct TransactionState {
    pub connection_name: String,
    pub created_at: i64,
}

/// How long a transaction may stay open, in milliseconds (30 minutes).
pub const TRANSACTION_TTL_MS: i64 = 1800000;

/// Whether a transaction begun at `created_at` is expired at `now`: more than
/// 30 minutes have passed.
pub open spec fn txn_expired(created_at: i64, now: i64) -> bool {
    now - created_at > 1800000
}

impl TransactionState {
    /// Whether the transaction is expired at `now`.
    pub fn is_expired(&self, now: i64) -> (r: bool)
        ensures
            r == txn_expired(self.created_at, now),
    {
        ((now as i128) - (self.created_at as i128)) > 1800000
    }
}

/// The transactions in progress, by id.
pub struct RpcTransactionManager {
    transactions: Vec<(String, TransactionState)>,
}

impl RpcTransactionManager {
    /// Ids are unique.
    pub closed spec fn wf(&self) -> bool {
        keys_unique(self.transactions@)
    }

    /// The transaction with the id `id`.
    pub closed spec fn get(&self, id: Seq<char>) -> Option<TransactionState> {
        assoc_get(self.transactions@, id)
    }

    /// The transactions, in the order begun.
    pub closed spec fn entries(&self) -> Seq<(String, TransactionState)> {
        self.transactions@
    }

    /// No transactions.
    pub fn new() -> (r: RpcTransactionManager)
        ensures
            r.wf(),
            forall|id: Seq<char>| #[trigger] r.get(id) is None,
    {
        RpcTransactionManager { transactions: Vec::new() }
    }

    /// Records a transaction begun at `now` on the connection the options name
    /// (else `default`), under a fresh id, which is returned.
    pub fn create_transaction(&mut self, options: &TransactionOptions, now: i64) -> (r: String)
        requires
            old(self).wf(),
        ensures
            final(self).wf(),
            is_hyphenated_v4(r@),
            final(self).get(r@) matches Some(st) && st.created_at == now && st.connection_name@ == match options.connection_name {
                Some(c) => c@,
                None => "default"@,
            },
            forall|id: Seq<char>| id != r@ ==> #[trigger] final(self).get(id) == old(self).get(id),
    {
        let id = uuid();
        let conn = match &options.connection_name {
            Some(c) => c.clone(),
            None => to_owned_string("default"),
        };
        assoc_set(&mut self.transactions, id.as_str(), TransactionState { connection_name: conn, created_at: now });
        id
    }

    /// Whether the transaction `id` is in progress.
    pub fn get_transaction(&self, id: &str) -> (r: Option<&TransactionState>)
        requires
            self.wf(),
        ensures
            match self.get(id@) {
                Some(st) => r == Some(&st),
                None => r is None,
            },
    {
        match assoc_find(&self.transactions, id) {
            Some(i) => Some(&self.transactions[i].1),
            None => None,
        }
    }

    /// Ends the transaction `id` (to commit or roll it back), giving back its
    /// state where it was in progress.
    pub fn finish(&mut self, id: &str) -> (r: Option<TransactionState>)
        requires
            old(self).wf(),
        ensures
            final(self).wf(),
            r == old(self).get(id@),
            final(self).get(id@) is None,
            forall|x: Seq<char>| x != id@ ==> #[trigger] final(self).get(x) == old(self).get(x),
    {
        assoc_take(&mut self.transactions, id)
    }

    /// Removes every transaction expired at `now`, giving back their ids in
    /// the order begun.
    pub fn cleanup_expired(&mut self, now: i64) -> (r: Vec<String>)
        requires
            old(self).wf(),
        ensures
            final(self).wf(),
            forall|x: Seq<char>| #[trigger] final(self).get(x) == match old(self).get(x) {
                Some(st) => if txn_expired(st.created_at, now) {
                    None
                } else {
                    Some(st)
                },
                None => None,
            },
            forall|i: int| 0 <= i < r@.len() ==> (old(self).get(#[trigger] r@[i]@) matches Some(st) && txn_expired(st.created_at, now)),
    {
        let ghost orig = self.transactions@;
        let mut kept: Vec<(String, TransactionState)> = Vec::new();
        let mut gone: Vec<String> = Vec::new();
        let mut i: usize = 0;
        while i < self.transactions.len()
            invariant
                self.transactions@ == orig,
                keys_unique(orig),
                i <= orig.len(),
                keys_unique(kept@),
                keys_unique(orig.take(i as int)),
                forall|x: Seq<char>| #[trigger] assoc_get(kept@, x) == match assoc_get(orig.take(i as int), x) {
                    Some(st) => if txn_expired(st.created_at, now) {
                        None
                    } else {
                        Some(st)
                    },
                    None => None,
                },
                forall|k: int| 0 <= k < gone@.len() ==> (assoc_get(orig.take(i as int), #[trigger] gone@[k]@) matches Some(st) && txn_expired(st.created_at, now)),
            decreases self.transactions.len() - i,
        {
            let e = &self.transactions[i];
            let ghost ent = orig[i as int];
            assert(orig.take(i + 1) =~= orig.take(i as int).push(ent));
            proof {
                crate::assoc::lemma_assoc_get_none(orig.take(i as int), ent.0@);
                assert forall|j: int| 0 <= j < orig.take(i as int).len() implies orig.take(i as int)[j].0@ != ent.0@ by {
                    assert(orig.take(i as int)[j] == orig[j]);
                }
                crate::assoc::lemma_assoc_push(orig.take(i as int), ent);
            }
            if e.1.is_expired(now) {
                gone.push(e.0.clone());
            } else {
                let copy = (e.0.clone(), TransactionState { connection_name: e.1.connection_name.clone(), created_at: e.1.created_at });
                proof {
                    assert(copy == ent);
                    assert(assoc_get(kept@, ent.0@) is None);
                    crate::assoc::lemma_assoc_push(kept@, copy);
                }
                kept.push(copy);
            }
            i = i + 1;
        }
        assert(orig.take(orig.len() as int) =~= orig);
        self.transactions = kept;
        gone
    }
}

} // verus!
