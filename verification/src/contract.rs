//! The service object: configuration, catalog, one account per owner, and
//! the audit records waiting to be published.
//!
//! Each operation is one atomic step. Its contract says what it returns and
//! what it leaves behind in terms of the model in [`crate::state`]. The
//! caller has authenticated the principal an operation names before it
//! calls, supplies the clock reading, settles payments on the token ledger,
//! and publishes the audit records it collects with
//! [`AccessTime::take_events`].
use std::collections::HashMap;
use vstd::prelude::*;
use crate::ledger::{order_in, OrderLedger};
use crate::model::{
    Access, Config, Error, Event, OrderRec, Package, Principal, Session, Transfer,
};
use crate::state::State;

verus! {

/// What the system keeps for one owner.
struct Account {
    session: Session,
    ledger: OrderLedger,
}

/// The access-time service.
pub struct AccessTime {
    config: Option<Config>,
    packages: HashMap<u32, Package>,
    accounts: HashMap<Principal, Account>,
    events: Vec<Event>,
}

impl AccessTime {
    /// The owner's session; the empty one where no account exists yet.
    spec fn session_of(&self, owner: Principal) -> Session {
        if self.accounts@.contains_key(owner) {
            self.accounts@[owner].session
        } else {
            Session { remaining_secs: 0, started_at: 0 }
        }
    }

    /// The owner's ledger slots; none where no account exists yet.
    spec fn slots_of(&self, owner: Principal) -> Seq<Option<OrderRec>> {
        if self.accounts@.contains_key(owner) {
            self.accounts@[owner].ledger@
        } else {
            Seq::empty()
        }
    }

    /// The state of the system as the model has it.
    pub closed spec fn view(&self) -> State {
        State {
            config: self.config,
            catalog: self.packages@,
            sessions: Map::total(|o: Principal| self.session_of(o)),
            counters: Map::total(|o: Principal| self.slots_of(o).len()),
            orders: Map::new(
                |k: (Principal, nat)| order_in(self.slots_of(k.0), k.1) is Some,
                |k: (Principal, nat)| order_in(self.slots_of(k.0), k.1).unwrap(),
            ),
            events: self.events@,
        }
    }

    /// Every value of this type stands for a valid state of the model.
    pub proof fn view_is_valid(&self)
        ensures
            self@.wf(),
    {
    }

    /// A system that has not been initialized: empty catalog, no orders,
    /// every session empty and paused.
    pub fn new() -> (s: AccessTime)
        ensures
            s@ == State::fresh(),
    {
        let s = AccessTime {
            config: None,
            packages: HashMap::new(),
            accounts: HashMap::new(),
            events: Vec::new(),
        };
        proof {
            let f = State::fresh();
            assert(s@.sessions =~= f.sessions);
            assert(s@.counters =~= f.counters);
            assert(s@.orders =~= f.orders);
        }
        s
    }

    /// A system with the stored configuration and nothing else yet. No
    /// audit record is produced.
    pub fn restore(config: Option<Config>) -> (s: AccessTime)
        ensures
            s@ == State::configured(config),
    {
        let s = AccessTime {
            config,
            packages: HashMap::new(),
            accounts: HashMap::new(),
            events: Vec::new(),
        };
        proof {
            let f = State::configured(config);
            assert(s@.sessions =~= f.sessions);
            assert(s@.counters =~= f.counters);
            assert(s@.orders =~= f.orders);
        }
        s
    }

    /// Puts a stored package back into the catalog. No audit record is
    /// produced.
    pub fn restore_package(&mut self, id: u32, package: Package)
        ensures
            final(self)@ == old(self)@.with_package(id, package),
    {
        self.packages.insert(id, package);
        proof {
            let want = old(self)@.with_package(id, package);
            assert(self@.sessions =~= want.sessions);
            assert(self@.counters =~= want.counters);
            assert(self@.orders =~= want.orders);
        }
    }

    /// Puts a stored account back: the owner's session and ledger slots,
    /// the first slot belonging to order identifier 1. Whatever was held
    /// for the owner is replaced. No audit record is produced.
    pub fn restore_account(
        &mut self,
        owner: Principal,
        session: Session,
        slots: Vec<Option<OrderRec>>,
    )
        ensures
            final(self)@ == old(self)@.with_account(owner, session, slots@),
    {
        let account = Account { session, ledger: OrderLedger::restore(slots) };
        self.put_account(owner, account);
        proof {
            let want = old(self)@.with_account(owner, session, slots@);
            assert(self@.sessions =~= want.sessions);
            assert(self@.counters =~= want.counters);
            assert(self@.orders =~= want.orders);
        }
    }

    /// Takes the owner's account out of the table, or makes an empty one.
    fn take_account(&mut self, owner: Principal) -> (a: Account)
        ensures
            a.session == old(self).session_of(owner),
            a.ledger@ == old(self).slots_of(owner),
            final(self).accounts@ == old(self).accounts@.remove(owner),
            final(self).config == old(self).config,
            final(self).packages == old(self).packages,
            final(self).events == old(self).events,
    {
        match self.accounts.remove(&owner) {
            Some(a) => a,
            None => Account { session: Session::new(), ledger: OrderLedger::new() },
        }
    }

    /// Puts an account into the table under its owner.
    fn put_account(&mut self, owner: Principal, a: Account)
        ensures
            final(self).accounts@ == old(self).accounts@.insert(owner, a),
            final(self).config == old(self).config,
            final(self).packages == old(self).packages,
            final(self).events == old(self).events,
    {
        self.accounts.insert(owner, a);
    }

    /// Fixes the administrator and the token ledger, once.
    pub fn init(&mut self, admin: Principal, token: Principal) -> (r: Result<(), Error>)
        ensures
            r == old(self)@.init_result(),
            final(self)@ == old(self)@.after_init(admin, token),
    {
        if self.config.is_some() {
            return Err(Error::AlreadyInitialized);
        }
        self.config = Some(Config { admin, token });
        self.events.push(Event::Init { admin, token });
        proof {
            let want = old(self)@.after_init(admin, token);
            assert(self@.sessions =~= want.sessions);
            assert(self@.counters =~= want.counters);
            assert(self@.orders =~= want.orders);
        }
        Ok(())
    }

    /// Inserts a package into the catalog, or overwrites the one under the
    /// same identifier. The caller has authenticated the administrator.
    pub fn set_package(&mut self, id: u32, price: i128, duration_secs: u32) -> (r: Result<
        (),
        Error,
    >)
        ensures
            r == old(self)@.set_package_result(),
            final(self)@ == old(self)@.after_set_package(id, price, duration_secs),
    {
        if self.config.is_none() {
            return Err(Error::NotInitialized);
        }
        self.packages.insert(id, Package { price, duration_secs });
        self.events.push(Event::PackageSet { id, price, duration_secs });
        proof {
            let want = old(self)@.after_set_package(id, price, duration_secs);
            assert(self@.sessions =~= want.sessions);
            assert(self@.counters =~= want.counters);
            assert(self@.orders =~= want.orders);
        }
        Ok(())
    }

    /// The package under `package_id`.
    pub fn get_package(&self, package_id: u32) -> (r: Result<Package, Error>)
        ensures
            r == self@.package_result(package_id),
    {
        match self.packages.get(&package_id) {
            Some(p) => Ok(*p),
            None => Err(Error::PackageNotFound),
        }
    }

    /// The administrator.
    pub fn get_admin(&self) -> (r: Result<Principal, Error>)
        ensures
            r == self@.admin_result(),
    {
        match self.config {
            Some(c) => Ok(c.admin),
            None => Err(Error::NotInitialized),
        }
    }

    /// The token ledger that purchases are paid on.
    pub fn get_token(&self) -> (r: Result<Principal, Error>)
        ensures
            r == self@.token_result(),
    {
        match self.config {
            Some(c) => Ok(c.token),
            None => Err(Error::NotInitialized),
        }
    }

    /// The order of `owner` under `order_id`.
    pub fn get_order(&self, owner: Principal, order_id: u128) -> (r: Result<OrderRec, Error>)
        ensures
            r == self@.order_result(owner, order_id as nat),
    {
        match self.accounts.get(&owner) {
            Some(a) => a.ledger.get_order(order_id),
            None => Err(Error::OrderNotFound),
        }
    }

    /// The last order identifier handed out to `owner`; 0 if none was.
    pub fn order_count(&self, owner: Principal) -> (c: u128)
        ensures
            c == self@.counters[owner],
    {
        match self.accounts.get(&owner) {
            Some(a) => a.ledger.counter(),
            None => 0,
        }
    }

    /// The payment to settle before `buy_order` is called: the package's
    /// price, from the owner to the administrator. Nothing is checked
    /// against the owner's balance: the token ledger does that.
    pub fn payment_due(&self, owner: Principal, package_id: u32) -> (r: Result<Transfer, Error>)
        ensures
            r == self@.payment_result(owner, package_id),
    {
        let config = match self.config {
            Some(c) => c,
            None => {
                return Err(Error::NotInitialized);
            },
        };
        match self.packages.get(&package_id) {
            Some(p) => Ok(
                Transfer { token: config.token, from: owner, to: config.admin, amount: p.price },
            ),
            None => Err(Error::PackageNotFound),
        }
    }

    /// Records a purchase whose payment has been settled: hands out the
    /// owner's next order identifier and records a pending order under it.
    /// The session is not touched. The caller has authenticated the owner.
    pub fn buy_order(&mut self, owner: Principal, package_id: u32) -> (r: Result<u128, Error>)
        ensures
            match r {
                Ok(id) => old(self)@.buy_result(owner, package_id) == Ok::<nat, Error>(id as nat),
                Err(e) => old(self)@.buy_result(owner, package_id) == Err::<nat, Error>(e),
            },
            final(self)@ == old(self)@.after_buy(owner, package_id),
    {
        if self.config.is_none() {
            return Err(Error::NotInitialized);
        }
        let price: i128 = match self.packages.get(&package_id) {
            Some(p) => p.price,
            None => {
                return Err(Error::PackageNotFound);
            },
        };
        let mut account = self.take_account(owner);
        let order_id: u128 = account.ledger.next_sequence();
        account.ledger.record_order(order_id, package_id);
        self.put_account(owner, account);
        self.events.push(Event::PurchaseCreated { owner, package_id, order_id, price });
        proof {
            let want = old(self)@.after_buy(owner, package_id);
            assert(self@.sessions =~= want.sessions);
            assert(self@.counters =~= want.counters);
            assert(self@.orders =~= want.orders);
        }
        Ok(order_id)
    }

    /// Credits the duration of the order's package, as the catalog has it
    /// now, to the owner's session and marks the order credited. `caller`
    /// is the principal the caller has authenticated: the administrator or
    /// the owner. A second grant of the same order fails.
    pub fn grant(&mut self, caller: Principal, owner: Principal, order_id: u128) -> (r: Result<
        (),
        Error,
    >)
        ensures
            r == old(self)@.grant_result(caller, owner, order_id as nat),
            final(self)@ == old(self)@.after_grant(caller, owner, order_id as nat),
    {
        let admin: Principal = match self.config {
            Some(c) => c.admin,
            None => {
                return Err(Error::NotInitialized);
            },
        };
        if caller != admin && caller != owner {
            return Err(Error::Unauthorized);
        }
        let order = match self.get_order(owner, order_id) {
            Ok(o) => o,
            Err(_) => {
                return Err(Error::OrderNotFound);
            },
        };
        if order.credited {
            return Err(Error::AlreadyGranted);
        }
        let seconds: u64 = match self.packages.get(&order.package_id) {
            Some(p) => p.duration_secs as u64,
            None => {
                return Err(Error::PackageNotFound);
            },
        };
        let mut account = self.take_account(owner);
        account.session.credit(seconds);
        account.ledger.mark_credited(order_id);
        let remaining_secs: u64 = account.session.remaining_secs;
        self.put_account(owner, account);
        self.events.push(Event::Grant { owner, order_id, remaining_secs });
        proof {
            let want = old(self)@.after_grant(caller, owner, order_id as nat);
            assert(self@.sessions =~= want.sessions);
            assert(self@.counters =~= want.counters);
            assert(self@.orders =~= want.orders);
        }
        Ok(())
    }

    /// Starts the owner's clock at `now` if the session is paused with a
    /// balance; otherwise nothing changes. The caller has authenticated
    /// the owner.
    pub fn start(&mut self, owner: Principal, now: u64)
        ensures
            final(self)@ == old(self)@.after_start(owner, now),
    {
        let mut session = self.get_session(owner);
        if session.start(now) {
            let mut account = self.take_account(owner);
            account.session = session;
            self.put_account(owner, account);
            self.events.push(Event::Start { owner, now });
            proof {
                let want = old(self)@.after_start(owner, now);
                assert(self@.sessions =~= want.sessions);
                assert(self@.counters =~= want.counters);
                assert(self@.orders =~= want.orders);
            }
        }
    }

    /// Freezes the owner's session at its balance as of `now` if it is
    /// running; otherwise nothing changes. The caller has authenticated
    /// the owner.
    pub fn pause(&mut self, owner: Principal, now: u64)
        ensures
            final(self)@ == old(self)@.after_pause(owner, now),
    {
        let mut session = self.get_session(owner);
        if session.pause(now) {
            let mut account = self.take_account(owner);
            account.session = session;
            self.put_account(owner, account);
            self.events.push(Event::Pause { owner, remaining_secs: session.remaining_secs });
            proof {
                let want = old(self)@.after_pause(owner, now);
                assert(self@.sessions =~= want.sessions);
                assert(self@.counters =~= want.counters);
                assert(self@.orders =~= want.orders);
            }
        }
    }

    /// The owner's session as stored; the empty one if they have none.
    pub fn get_session(&self, owner: Principal) -> (s: Session)
        ensures
            s == self@.sessions[owner],
    {
        match self.accounts.get(&owner) {
            Some(a) => a.session,
            None => Session::new(),
        }
    }

    /// When the owner's access runs out: 0 while paused, otherwise the
    /// start plus the stored balance, saturating.
    pub fn get_access(&self, owner: Principal) -> (a: Access)
        ensures
            a == (Access { owner, expires_at: self@.sessions[owner].expiry() }),
    {
        let session = self.get_session(owner);
        Access { owner, expires_at: session.expires_at() }
    }

    /// Whether the owner's session is running with something left at `now`.
    pub fn is_active(&self, owner: Principal, now: u64) -> (r: bool)
        ensures
            r == self@.sessions[owner].active_at(now),
    {
        let session = self.get_session(owner);
        session.is_active(now)
    }

    /// The owner's balance as of `now`.
    pub fn remaining(&self, owner: Principal, now: u64) -> (r: u64)
        ensures
            r == self@.sessions[owner].remaining_at(now),
    {
        let session = self.get_session(owner);
        session.effective_remaining(now)
    }

    /// Hands over the audit records produced since the last call, oldest
    /// first, for publication.
    pub fn take_events(&mut self) -> (out: Vec<Event>)
        ensures
            out@ == old(self)@.events,
            final(self)@ == old(self)@.after_take_events(),
    {
        let mut out: Vec<Event> = Vec::new();
        std::mem::swap(&mut self.events, &mut out);
        proof {
            let want = old(self)@.after_take_events();
            assert(self@.sessions =~= want.sessions);
            assert(self@.counters =~= want.counters);
            assert(self@.orders =~= want.orders);
        }
        out
    }
}

} // verus!
