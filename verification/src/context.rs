use vstd::prelude::*;
use std::collections::HashMap;
use crate::error::ContractError;
use crate::events::Event;
use crate::types::{Config, DataKey, Order, Transfer};

verus! {

/// The durable state: the configuration, the order counter, and every
/// order under its id.
#[derive(Debug, PartialEq, Eq)]
pub struct Storage {
    pub config: Option<Config>,
    pub order_count: Option<u64>,
    pub orders: HashMap<u64, Order>,
}

/// What an operation works on: the current time, the durable state, and
/// the asset movements and notifications that operations have asked for so
/// far, oldest first.
#[derive(Debug, PartialEq, Eq)]
pub struct Context {
    pub timestamp: u64,
    pub storage: Storage,
    pub transfers: Vec<Transfer>,
    pub events: Vec<Event>,
}

/// The mathematical value of a `Context`.
pub struct State {
    pub timestamp: u64,
    pub config: Option<Config>,
    pub order_count: Option<u64>,
    pub orders: Map<u64, Order>,
    pub transfers: Seq<Transfer>,
    pub events: Seq<Event>,
}

/// What a sequence of asset movements adds to custody, all told.
pub open spec fn net_custody_change(transfers: Seq<Transfer>) -> int
    decreases transfers.len(),
{
    if transfers.len() == 0 {
        0
    } else {
        net_custody_change(transfers.drop_last()) + transfers.last().custody_change()
    }
}

/// What custody holds on behalf of the orders with an id below `n`.
pub open spec fn custody_of_orders(orders: Map<u64, Order>, n: nat) -> int
    decreases n,
{
    if n == 0 {
        0
    } else {
        let id = (n - 1) as u64;
        custody_of_orders(orders, (n - 1) as nat) + (if orders.contains_key(id) {
            orders[id].custody()
        } else {
            0
        })
    }
}

impl State {
    /// The order stored under `id`, if there is one.
    pub open spec fn order(self, id: u64) -> Option<Order> {
        if self.orders.contains_key(id) {
            Some(self.orders[id])
        } else {
            None
        }
    }

    /// The number of orders created so far, which is the id of the next.
    pub open spec fn next_order_id(self) -> u64 {
        match self.order_count {
            Some(count) => count,
            None => 0,
        }
    }

    /// There is a configuration, and it says that the system is halted.
    pub open spec fn paused(self) -> bool {
        self.config matches Some(config) && config.paused
    }

    /// What every operation on orders has to pass first: there must be a
    /// configuration, and the system must not be halted.
    pub open spec fn gate(self) -> Result<Config, ContractError> {
        match self.config {
            None => Err(ContractError::ConfigNotInitialized),
            Some(config) => if config.paused {
                Err(ContractError::Paused)
            } else {
                Ok(config)
            },
        }
    }

    /// The same state at another time.
    pub open spec fn at(self, timestamp: u64) -> State {
        State { timestamp, ..self }
    }

    /// The same state with `config` as its configuration.
    pub open spec fn with_config(self, config: Config) -> State {
        State { config: Some(config), ..self }
    }

    /// The same state with `count` as its order counter.
    pub open spec fn with_order_count(self, count: u64) -> State {
        State { order_count: Some(count), ..self }
    }

    /// The same state with `order` stored under its id.
    pub open spec fn with_order(self, order: Order) -> State {
        State { orders: self.orders.insert(order.order_id, order), ..self }
    }

    /// The same state with the asset movement asked for, if there is one.
    pub open spec fn with_transfer(self, transfer: Option<Transfer>) -> State {
        match transfer {
            Some(t) => State { transfers: self.transfers.push(t), ..self },
            None => self,
        }
    }

    /// The same state with one more notification.
    pub open spec fn with_event(self, event: Event) -> State {
        State { events: self.events.push(event), ..self }
    }

    /// What holds of the durable state between any two operations: the
    /// orders stored are those with an id below the counter, each under
    /// its own id, each well formed, in the configured asset and open for
    /// no longer than the configured maximum; without a configuration there
    /// are no orders.
    pub open spec fn wf(self) -> bool {
        &&& self.config is None ==> self.next_order_id() == 0
        &&& self.config matches Some(config) ==> 0 < config.max_duration_secs && 0
            < config.filler_payment_timeout_secs
        &&& forall|id: u64| #[trigger]
            self.orders.contains_key(id) <==> id < self.next_order_id()
        &&& forall|id: u64| #[trigger]
            self.orders.contains_key(id) ==> {
                &&& self.orders[id].order_id == id
                &&& self.orders[id].wf()
                &&& self.config matches Some(config) && self.orders[id].token == config.token
                    && self.orders[id].deadline - self.orders[id].created_at
                    <= config.max_duration_secs
            }
    }

    /// What the movements asked for so far have left in custody.
    pub open spec fn custody_held(self) -> int {
        net_custody_change(self.transfers)
    }

    /// What custody holds on behalf of all the orders together.
    pub open spec fn custody_owed(self) -> int {
        custody_of_orders(self.orders, self.next_order_id() as nat)
    }

    /// Custody holds exactly what the orders account for.
    pub open spec fn balanced(self) -> bool {
        self.custody_held() == self.custody_owed()
    }
}

impl View for Context {
    type V = State;

    open spec fn view(&self) -> State {
        State {
            timestamp: self.timestamp,
            config: self.storage.config,
            order_count: self.storage.order_count,
            orders: self.storage.orders@,
            transfers: self.transfers@,
            events: self.events@,
        }
    }
}

impl Clone for Storage {
    /// A copy that holds what this storage holds.
    fn clone(&self) -> (r: Self)
        ensures
            r.config == self.config,
            r.order_count == self.order_count,
            r.orders@ == self.orders@,
    {
        Storage {
            config: self.config,
            order_count: self.order_count,
            orders: self.orders.clone(),
        }
    }
}

impl Clone for Context {
    /// A copy of the same value.
    fn clone(&self) -> (r: Self)
        ensures
            r@ == self@,
    {
        let r = Context {
            timestamp: self.timestamp,
            storage: self.storage.clone(),
            transfers: self.transfers.clone(),
            events: self.events.clone(),
        };
        assert(r.transfers@ =~= self.transfers@);
        assert(r.events@ =~= self.events@);
        r
    }
}

impl Storage {
    /// A state in which nothing has been stored yet.
    pub fn new() -> (r: Self)
        ensures
            r.config is None,
            r.order_count is None,
            r.orders@ == Map::<u64, Order>::empty(),
    {
        Storage { config: None, order_count: None, orders: HashMap::new() }
    }

    /// Whether anything is stored under `key`.
    pub fn has(&self, key: &DataKey) -> (r: bool)
        ensures
            r == match *key {
                DataKey::Config => self.config is Some,
                DataKey::OrderCount => self.order_count is Some,
                DataKey::Order(id) => self.orders@.contains_key(id),
            },
    {
        match key {
            DataKey::Config => self.config.is_some(),
            DataKey::OrderCount => self.order_count.is_some(),
            DataKey::Order(id) => self.orders.contains_key(id),
        }
    }
}

impl Context {
    /// A context at time `timestamp` in which nothing has happened yet.
    pub fn new(timestamp: u64) -> (r: Self)
        ensures
            r@ == (State {
                timestamp,
                config: None,
                order_count: None,
                orders: Map::empty(),
                transfers: Seq::empty(),
                events: Seq::empty(),
            }),
            r@.wf(),
            r@.balanced(),
    {
        Context {
            timestamp,
            storage: Storage::new(),
            transfers: Vec::new(),
            events: Vec::new(),
        }
    }
}

} // verus!
