//! The mathematical model of the system: what it holds, and what each
//! operation returns and leaves behind.
//!
//! Every operation is total on the model. One that fails returns its error
//! and leaves the state exactly as it was.
use vstd::prelude::*;
use crate::ledger::order_in;
use crate::model::{Config, Error, Event, OrderRec, Package, Principal, Session, Transfer};

verus! {

/// Everything the system holds.
pub struct State {
    /// The administrator and the token ledger; `None` until initialized.
    pub config: Option<Config>,
    /// The catalog, by package identifier.
    pub catalog: Map<u32, Package>,
    /// Every principal's session. The map is total: a principal that was
    /// never credited has the empty, paused session.
    pub sessions: Map<Principal, Session>,
    /// Every principal's sequence counter: the last order identifier
    /// handed out to them. The map is total, and 0 where none was.
    pub counters: Map<Principal, nat>,
    /// The orders, by owner and order identifier.
    pub orders: Map<(Principal, nat), OrderRec>,
    /// The audit records produced and not yet collected, oldest first.
    pub events: Seq<Event>,
}

/// One operation with its arguments.
pub enum Call {
    Init { admin: Principal, token: Principal },
    SetPackage { id: u32, price: i128, duration_secs: u32 },
    Buy { owner: Principal, package_id: u32 },
    Grant { caller: Principal, owner: Principal, order_id: nat },
    Start { owner: Principal, now: u64 },
    Pause { owner: Principal, now: u64 },
    TakeEvents,
}

impl State {
    /// The state before anything has happened.
    pub open spec fn fresh() -> State {
        State {
            config: None,
            catalog: Map::empty(),
            sessions: Map::total(|o: Principal| Session { remaining_secs: 0, started_at: 0 }),
            counters: Map::total(|o: Principal| 0nat),
            orders: Map::empty(),
            events: Seq::empty(),
        }
    }

    /// What holds of every reachable state: sessions and counters are
    /// total, and every order lies under an identifier that its owner's
    /// counter has reached.
    pub open spec fn wf(self) -> bool {
        &&& forall|o: Principal| #[trigger] self.sessions.contains_key(o)
        &&& forall|o: Principal| #[trigger] self.counters.contains_key(o)
        &&& forall|o: Principal, id: nat| #[trigger]
            self.orders.contains_key((o, id)) ==> 1 <= id <= self.counters[o]
    }

    /// Whether `who` is the configured administrator.
    pub open spec fn is_admin(self, who: Principal) -> bool {
        self.config is Some && self.config.unwrap().admin == who
    }

    // ---------------------------------------------------------------- queries

    /// The administrator, once initialized.
    pub open spec fn admin_result(self) -> Result<Principal, Error> {
        match self.config {
            Some(c) => Ok(c.admin),
            None => Err(Error::NotInitialized),
        }
    }

    /// The token ledger, once initialized.
    pub open spec fn token_result(self) -> Result<Principal, Error> {
        match self.config {
            Some(c) => Ok(c.token),
            None => Err(Error::NotInitialized),
        }
    }

    /// The package under `id`, if the catalog holds one.
    pub open spec fn package_result(self, id: u32) -> Result<Package, Error> {
        if self.catalog.contains_key(id) {
            Ok(self.catalog[id])
        } else {
            Err(Error::PackageNotFound)
        }
    }

    /// The order of `owner` under `order_id`, if there is one.
    pub open spec fn order_result(self, owner: Principal, order_id: nat) -> Result<
        OrderRec,
        Error,
    > {
        if self.orders.contains_key((owner, order_id)) {
            Ok(self.orders[(owner, order_id)])
        } else {
            Err(Error::OrderNotFound)
        }
    }

    /// The payment that buying `package_id` asks of `owner`: the package's
    /// price, from the owner to the administrator, on the configured token.
    pub open spec fn payment_result(self, owner: Principal, package_id: u32) -> Result<
        Transfer,
        Error,
    > {
        if self.config is None {
            Err(Error::NotInitialized)
        } else if !self.catalog.contains_key(package_id) {
            Err(Error::PackageNotFound)
        } else {
            Ok(
                Transfer {
                    token: self.config.unwrap().token,
                    from: owner,
                    to: self.config.unwrap().admin,
                    amount: self.catalog[package_id].price,
                },
            )
        }
    }

    // ------------------------------------------------------------------- init

    /// Initialization succeeds once.
    pub open spec fn init_result(self) -> Result<(), Error> {
        if self.config is Some {
            Err(Error::AlreadyInitialized)
        } else {
            Ok(())
        }
    }

    /// Initialization fixes the administrator and the token ledger.
    pub open spec fn after_init(self, admin: Principal, token: Principal) -> State {
        if self.init_result() is Ok {
            State {
                config: Some(Config { admin, token }),
                events: self.events.push(Event::Init { admin, token }),
                ..self
            }
        } else {
            self
        }
    }

    // ------------------------------------------------------------ set_package

    /// The catalog can be changed once the system is initialized.
    pub open spec fn set_package_result(self) -> Result<(), Error> {
        if self.config is None {
            Err(Error::NotInitialized)
        } else {
            Ok(())
        }
    }

    /// Inserts the package or overwrites the one under the same identifier.
    pub open spec fn after_set_package(self, id: u32, price: i128, duration_secs: u32) -> State {
        if self.set_package_result() is Ok {
            State {
                catalog: self.catalog.insert(id, Package { price, duration_secs }),
                events: self.events.push(Event::PackageSet { id, price, duration_secs }),
                ..self
            }
        } else {
            self
        }
    }

    // -------------------------------------------------------------------- buy

    /// The identifier of the new order: one more than the owner's counter.
    pub open spec fn buy_result(self, owner: Principal, package_id: u32) -> Result<nat, Error> {
        if self.config is None {
            Err(Error::NotInitialized)
        } else if !self.catalog.contains_key(package_id) {
            Err(Error::PackageNotFound)
        } else {
            Ok(self.counters[owner] + 1)
        }
    }

    /// A purchase advances the owner's counter by one and records a
    /// pending order under the new identifier. It touches no session.
    pub open spec fn after_buy(self, owner: Principal, package_id: u32) -> State {
        if self.buy_result(owner, package_id) is Ok {
            let id = self.counters[owner] + 1;
            State {
                counters: self.counters.insert(owner, id),
                orders: self.orders.insert((owner, id), OrderRec { package_id, credited: false }),
                events: self.events.push(
                    Event::PurchaseCreated {
                        owner,
                        package_id,
                        order_id: id as u128,
                        price: self.catalog[package_id].price,
                    },
                ),
                ..self
            }
        } else {
            self
        }
    }

    // ------------------------------------------------------------------ grant

    /// Whether `caller` may grant orders of `owner`, and whether the order
    /// can be credited. The package is looked up as the catalog has it now.
    pub open spec fn grant_result(self, caller: Principal, owner: Principal, order_id: nat)
        -> Result<(), Error> {
        if self.config is None {
            Err(Error::NotInitialized)
        } else if caller != self.config.unwrap().admin && caller != owner {
            Err(Error::Unauthorized)
        } else if !self.orders.contains_key((owner, order_id)) {
            Err(Error::OrderNotFound)
        } else if self.orders[(owner, order_id)].credited {
            Err(Error::AlreadyGranted)
        } else if !self.catalog.contains_key(self.orders[(owner, order_id)].package_id) {
            Err(Error::PackageNotFound)
        } else {
            Ok(())
        }
    }

    /// The seconds that granting the order credits.
    pub open spec fn grant_amount(self, owner: Principal, order_id: nat) -> u64 {
        self.catalog[self.orders[(owner, order_id)].package_id].duration_secs as u64
    }

    /// A grant credits the package's duration to the owner's session and
    /// marks the order credited.
    pub open spec fn after_grant(self, caller: Principal, owner: Principal, order_id: nat)
        -> State {
        if self.grant_result(caller, owner, order_id) is Ok {
            let order = self.orders[(owner, order_id)];
            let session = self.sessions[owner].credited(self.grant_amount(owner, order_id));
            State {
                sessions: self.sessions.insert(owner, session),
                orders: self.orders.insert(
                    (owner, order_id),
                    OrderRec { package_id: order.package_id, credited: true },
                ),
                events: self.events.push(
                    Event::Grant {
                        owner,
                        order_id: order_id as u128,
                        remaining_secs: session.remaining_secs,
                    },
                ),
                ..self
            }
        } else {
            self
        }
    }

    // ---------------------------------------------------------- start / pause

    /// A start request moves a paused session with a balance to running
    /// and changes nothing otherwise.
    pub open spec fn after_start(self, owner: Principal, now: u64) -> State {
        if self.sessions[owner].starts_at(now) {
            State {
                sessions: self.sessions.insert(owner, self.sessions[owner].started(now)),
                events: self.events.push(Event::Start { owner, now }),
                ..self
            }
        } else {
            self
        }
    }

    /// A pause request freezes a running session at its balance as of
    /// `now` and changes nothing otherwise.
    pub open spec fn after_pause(self, owner: Principal, now: u64) -> State {
        if self.sessions[owner].started_at > 0 {
            let session = self.sessions[owner].paused(now);
            State {
                sessions: self.sessions.insert(owner, session),
                events: self.events.push(
                    Event::Pause { owner, remaining_secs: session.remaining_secs },
                ),
                ..self
            }
        } else {
            self
        }
    }

    // ----------------------------------------------------------------- events

    /// Collecting the audit records leaves none behind.
    pub open spec fn after_take_events(self) -> State {
        State { events: Seq::empty(), ..self }
    }

    // ------------------------------------------------------------ persistence

    /// A state with the given configuration and nothing else.
    pub open spec fn configured(config: Option<Config>) -> State {
        State { config, ..State::fresh() }
    }

    /// The state with a stored package put back into the catalog.
    pub open spec fn with_package(self, id: u32, package: Package) -> State {
        State { catalog: self.catalog.insert(id, package), ..self }
    }

    /// The state with a stored account put back: the owner's session, and
    /// the owner's ledger slots, of which the first belongs to order
    /// identifier 1. The counter is the number of slots.
    pub open spec fn with_account(
        self,
        owner: Principal,
        session: Session,
        slots: Seq<Option<OrderRec>>,
    ) -> State {
        State {
            sessions: self.sessions.insert(owner, session),
            counters: self.counters.insert(owner, slots.len()),
            orders: Map::new(
                |k: (Principal, nat)|
                    if k.0 == owner {
                        order_in(slots, k.1) is Some
                    } else {
                        self.orders.contains_key(k)
                    },
                |k: (Principal, nat)|
                    if k.0 == owner {
                        order_in(slots, k.1).unwrap()
                    } else {
                        self.orders[k]
                    },
            ),
            ..self
        }
    }

    // -------------------------------------------------------------- sequences

    /// The state after one operation.
    pub open spec fn step(self, call: Call) -> State {
        match call {
            Call::Init { admin, token } => self.after_init(admin, token),
            Call::SetPackage { id, price, duration_secs } => self.after_set_package(
                id,
                price,
                duration_secs,
            ),
            Call::Buy { owner, package_id } => self.after_buy(owner, package_id),
            Call::Grant { caller, owner, order_id } => self.after_grant(caller, owner, order_id),
            Call::Start { owner, now } => self.after_start(owner, now),
            Call::Pause { owner, now } => self.after_pause(owner, now),
            Call::TakeEvents => self.after_take_events(),
        }
    }

    /// The state after a sequence of operations, first to last.
    pub open spec fn run(self, calls: Seq<Call>) -> State
        decreases calls.len(),
    {
        if calls.len() == 0 {
            self
        } else {
            self.run(calls.drop_last()).step(calls.last())
        }
    }
}

} // verus!
