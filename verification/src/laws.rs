//! What holds of the model across operations.
use vstd::prelude::*;
use crate::model::{Config, Error, OrderRec, Package, Principal, Session};
use crate::session::{law_step_never_adds, Step};
use crate::state::{Call, State};

verus! {

/// The state before anything has happened is valid.
pub proof fn law_fresh_is_valid()
    ensures
        State::fresh().wf(),
{
}

/// Every operation takes a valid state to a valid state.
pub proof fn law_step_keeps_valid(s: State, call: Call)
    requires
        s.wf(),
    ensures
        s.step(call).wf(),
{
}

/// Every sequence of operations takes a valid state to a valid state.
pub proof fn law_run_keeps_valid(s: State, calls: Seq<Call>)
    requires
        s.wf(),
    ensures
        s.run(calls).wf(),
    decreases calls.len(),
{
    if calls.len() > 0 {
        law_run_keeps_valid(s, calls.drop_last());
        law_step_keeps_valid(s.run(calls.drop_last()), calls.last());
    }
}

/// Putting stored values back gives a valid state.
pub proof fn law_restoring_keeps_valid(
    s: State,
    config: Option<Config>,
    id: u32,
    package: Package,
    owner: Principal,
    session: Session,
    slots: Seq<Option<OrderRec>>,
)
    requires
        s.wf(),
    ensures
        State::configured(config).wf(),
        s.with_package(id, package).wf(),
        s.with_account(owner, session, slots).wf(),
{
}

/// An operation that fails leaves the state exactly as it was.
pub proof fn law_failure_changes_nothing(
    s: State,
    a: Principal,
    b: Principal,
    package_id: u32,
    price: i128,
    duration_secs: u32,
    order_id: nat,
)
    ensures
        s.init_result() is Err ==> s.after_init(a, b) == s,
        s.set_package_result() is Err ==> s.after_set_package(package_id, price, duration_secs)
            == s,
        s.buy_result(a, package_id) is Err ==> s.after_buy(a, package_id) == s,
        s.grant_result(a, b, order_id) is Err ==> s.after_grant(a, b, order_id) == s,
{
}

/// A purchase of an unknown package fails, hands out no identifier and
/// records no order.
pub proof fn law_unknown_package_buys_nothing(s: State, owner: Principal, package_id: u32)
    requires
        s.config is Some,
        !s.catalog.contains_key(package_id),
    ensures
        s.buy_result(owner, package_id) == Err::<nat, Error>(Error::PackageNotFound),
        s.after_buy(owner, package_id).counters == s.counters,
        s.after_buy(owner, package_id).orders == s.orders,
        s.after_buy(owner, package_id) == s,
{
}

/// A purchase touches no session, and no counter or order of anyone but
/// the buyer.
pub proof fn law_purchase_is_local(
    s: State,
    owner: Principal,
    package_id: u32,
    other: Principal,
    id: nat,
)
    requires
        s.wf(),
        other != owner,
    ensures
        s.after_buy(owner, package_id).sessions == s.sessions,
        s.after_buy(owner, package_id).counters[other] == s.counters[other],
        s.after_buy(owner, package_id).orders.contains_key((other, id)) == s.orders.contains_key(
            (other, id),
        ),
        s.orders.contains_key((other, id)) ==> s.after_buy(owner, package_id).orders[(other, id)]
            == s.orders[(other, id)],
{
}

/// A purchase that succeeds returns an identifier under which the owner
/// had no order, and records a pending order for the package there. The
/// orders the owner already had stay as they were.
pub proof fn law_purchase_records_pending_order(
    s: State,
    owner: Principal,
    package_id: u32,
    earlier: nat,
)
    requires
        s.wf(),
        s.buy_result(owner, package_id) is Ok,
    ensures
        ({
            let id = s.buy_result(owner, package_id).unwrap();
            let t = s.after_buy(owner, package_id);
            &&& !s.orders.contains_key((owner, id))
            &&& t.orders.contains_key((owner, id))
            &&& t.orders[(owner, id)].package_id == package_id
            &&& !t.orders[(owner, id)].credited
            &&& s.orders.contains_key((owner, earlier)) ==> t.orders.contains_key((owner, earlier))
                && t.orders[(owner, earlier)] == s.orders[(owner, earlier)]
        }),
{
}

/// The identifiers that the purchases of `owner` among `calls` return,
/// in the order of the calls, when the calls are made one after another
/// from state `s`.
pub open spec fn ids_issued(s: State, calls: Seq<Call>, owner: Principal) -> Seq<nat>
    decreases calls.len(),
{
    if calls.len() == 0 {
        Seq::empty()
    } else {
        let before = ids_issued(s, calls.drop_last(), owner);
        let at = s.run(calls.drop_last());
        match calls.last() {
            Call::Buy { owner: buyer, package_id } => if buyer == owner && at.buy_result(
                buyer,
                package_id,
            ) is Ok {
                before.push(at.buy_result(buyer, package_id).unwrap())
            } else {
                before
            },
            _ => before,
        }
    }
}

/// Whatever operations are made, by whomever and in whatever order, the
/// identifiers an owner's purchases return count up by one from the
/// owner's counter, and the counter ends at the last of them.
pub proof fn law_order_ids_count_up(s: State, calls: Seq<Call>, owner: Principal)
    requires
        s.wf(),
    ensures
        s.run(calls).counters[owner] == s.counters[owner] + ids_issued(s, calls, owner).len(),
        forall|k: int|
            0 <= k < ids_issued(s, calls, owner).len() ==> #[trigger] ids_issued(
                s,
                calls,
                owner,
            )[k] == s.counters[owner] + k + 1,
    decreases calls.len(),
{
    if calls.len() > 0 {
        let init = calls.drop_last();
        law_order_ids_count_up(s, init, owner);
        law_run_keeps_valid(s, init);
    }
}

/// From the start, the purchases of an owner return 1, 2, 3, … however
/// they are interleaved with other operations and other owners.
pub proof fn law_order_ids_start_at_one(calls: Seq<Call>, owner: Principal, k: int)
    requires
        0 <= k < ids_issued(State::fresh(), calls, owner).len(),
    ensures
        ids_issued(State::fresh(), calls, owner)[k] == k + 1,
{
    law_order_ids_count_up(State::fresh(), calls, owner);
}

/// A grant by someone who is neither the owner nor the administrator
/// fails as unauthorized and changes nothing.
pub proof fn law_stranger_cannot_grant(
    s: State,
    caller: Principal,
    owner: Principal,
    order_id: nat,
)
    requires
        s.config is Some,
        caller != owner,
        !s.is_admin(caller),
    ensures
        s.grant_result(caller, owner, order_id) == Err::<(), Error>(Error::Unauthorized),
        s.after_grant(caller, owner, order_id) == s,
{
}

/// An order is credited once. After a grant has succeeded, a second grant
/// of the same order by the owner or the administrator fails as already
/// granted and changes nothing, so the session holds exactly one credit
/// of the package's duration.
pub proof fn law_grant_credits_once(
    s: State,
    first: Principal,
    second: Principal,
    owner: Principal,
    order_id: nat,
)
    requires
        s.wf(),
        s.grant_result(first, owner, order_id) is Ok,
        second == owner || s.is_admin(second),
    ensures
        ({
            let t = s.after_grant(first, owner, order_id);
            &&& t.sessions[owner] == s.sessions[owner].credited(s.grant_amount(owner, order_id))
            &&& t.orders[(owner, order_id)].credited
            &&& t.grant_result(second, owner, order_id) == Err::<(), Error>(Error::AlreadyGranted)
            &&& t.after_grant(second, owner, order_id) == t
        }),
{
}

/// A grant touches the session of the owner and no other, and hands out
/// no identifier.
pub proof fn law_grant_is_local(
    s: State,
    caller: Principal,
    owner: Principal,
    order_id: nat,
    other: Principal,
)
    requires
        s.wf(),
        other != owner,
    ensures
        s.after_grant(caller, owner, order_id).sessions[other] == s.sessions[other],
        s.after_grant(caller, owner, order_id).counters == s.counters,
        s.after_grant(caller, owner, order_id).catalog == s.catalog,
{
}

/// An order is never removed and never changes its package, and a
/// credited order stays credited, whatever happens next.
pub proof fn law_orders_are_kept(s: State, call: Call, owner: Principal, order_id: nat)
    requires
        s.wf(),
        s.orders.contains_key((owner, order_id)),
    ensures
        s.step(call).orders.contains_key((owner, order_id)),
        s.step(call).orders[(owner, order_id)].package_id == s.orders[(
            owner,
            order_id,
        )].package_id,
        s.orders[(owner, order_id)].credited ==> s.step(call).orders[(owner, order_id)].credited,
{
}

/// Whether every order refers to a package that the catalog holds.
pub open spec fn orders_have_packages(s: State) -> bool {
    forall|k: (Principal, nat)| #[trigger]
        s.orders.contains_key(k) ==> s.catalog.contains_key(s.orders[k].package_id)
}

/// Packages are never removed: once every order refers to a package of
/// the catalog, as in the state before anything has happened, that stays
/// so under every operation, and no grant fails for want of the package.
pub proof fn law_orders_keep_their_package(
    s: State,
    call: Call,
    caller: Principal,
    owner: Principal,
    order_id: nat,
)
    requires
        s.wf(),
        orders_have_packages(s),
    ensures
        orders_have_packages(State::fresh()),
        orders_have_packages(s.step(call)),
        s.grant_result(caller, owner, order_id) != Err::<(), Error>(Error::PackageNotFound),
{
}

/// Start and pause act on the owner's session as the session accountant
/// says, and on nothing else but the audit records.
pub proof fn law_start_and_pause_follow_the_session(
    s: State,
    owner: Principal,
    now: u64,
    other: Principal,
)
    requires
        s.wf(),
        other != owner,
    ensures
        s.after_start(owner, now).sessions[owner] == s.sessions[owner].started(now),
        s.after_pause(owner, now).sessions[owner] == s.sessions[owner].paused(now),
        s.after_start(owner, now).sessions[other] == s.sessions[other],
        s.after_pause(owner, now).sessions[other] == s.sessions[other],
        s.after_start(owner, now).orders == s.orders,
        s.after_pause(owner, now).orders == s.orders,
        s.after_start(owner, now).counters == s.counters,
        s.after_pause(owner, now).counters == s.counters,
{
}

/// The clock reading of `call` if it is a start or pause request of
/// `owner`.
pub open spec fn request_time(call: Call, owner: Principal) -> Option<u64> {
    match call {
        Call::Start { owner: who, now } => if who == owner {
            Some(now)
        } else {
            None
        },
        Call::Pause { owner: who, now } => if who == owner {
            Some(now)
        } else {
            None
        },
        _ => None,
    }
}

/// Whether `call` is a grant of an order of `owner`.
pub open spec fn is_grant_to(call: Call, owner: Principal) -> bool {
    match call {
        Call::Grant { caller, owner: who, order_id } => who == owner,
        _ => false,
    }
}

/// Whether the start and pause requests of `owner` among `calls` are made
/// on a clock that does not go back, between `from` and `until`.
pub open spec fn requests_in_time(calls: Seq<Call>, owner: Principal, from: u64, until: u64)
    -> bool {
    &&& forall|i: int|
        0 <= i < calls.len() && request_time(#[trigger] calls[i], owner) is Some ==> from
            <= request_time(calls[i], owner).unwrap() <= until
    &&& forall|i: int, j: int|
        0 <= i <= j < calls.len() && request_time(#[trigger] calls[i], owner) is Some
            && request_time(#[trigger] calls[j], owner) is Some ==> request_time(
            calls[i],
            owner,
        ).unwrap() <= request_time(calls[j], owner).unwrap()
}

/// Only a grant adds to a balance. Over any sequence of operations that
/// holds no grant to `owner`, with the owner's start and pause requests
/// made on a clock that does not go back, the owner's balance at the end
/// is at most what it was at the beginning.
pub proof fn law_balance_grows_only_by_grants(
    s: State,
    calls: Seq<Call>,
    owner: Principal,
    from: u64,
    until: u64,
)
    requires
        s.wf(),
        from <= until,
        forall|i: int| 0 <= i < calls.len() ==> !is_grant_to(#[trigger] calls[i], owner),
        requests_in_time(calls, owner, from, until),
    ensures
        s.run(calls).sessions[owner].remaining_at(until) <= s.sessions[owner].remaining_at(from),
    decreases calls.len(),
{
    if calls.len() > 0 {
        let init = calls.drop_last();
        let last = calls.last();
        let mid: u64 = match request_time(last, owner) {
            Some(t) => t,
            None => until,
        };
        law_balance_grows_only_by_grants(s, init, owner, from, mid);
        law_run_keeps_valid(s, init);
        let at = s.run(init);
        match last {
            Call::Start { owner: who, now } => {
                if who == owner {
                    law_step_never_adds(at.sessions[owner], Step::Start { now }, until);
                }
            },
            Call::Pause { owner: who, now } => {
                if who == owner {
                    law_step_never_adds(at.sessions[owner], Step::Pause { now }, until);
                }
            },
            _ => {},
        }
    }
}

} // verus!
