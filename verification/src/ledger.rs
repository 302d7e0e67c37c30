//! One owner's order ledger and sequence counter.
//!
//! Order identifiers are handed out as 1, 2, 3, … and never reused. The
//! ledger keeps one slot per identifier handed out; a slot is empty until
//! the order is recorded, and a recorded order is never removed.
use vstd::prelude::*;
use crate::model::{Error, OrderRec};

verus! {

/// What is recorded under identifier `id` in a sequence of slots, the
/// first slot belonging to identifier 1.
pub open spec fn order_in(slots: Seq<Option<OrderRec>>, id: nat) -> Option<OrderRec> {
    if 1 <= id <= slots.len() {
        slots[id - 1]
    } else {
        None
    }
}

/// The orders of one owner.
pub struct OrderLedger {
    slots: Vec<Option<OrderRec>>,
}

impl OrderLedger {
    /// The slots, one per identifier handed out so far. The sequence
    /// counter is their number.
    pub closed spec fn view(&self) -> Seq<Option<OrderRec>> {
        self.slots@
    }

    /// A ledger in which no identifier has been handed out.
    pub fn new() -> (l: OrderLedger)
        ensures
            l@ == Seq::<Option<OrderRec>>::empty(),
    {
        OrderLedger { slots: Vec::new() }
    }

    /// A ledger with the given slots, as they were stored: the first slot
    /// belongs to identifier 1.
    pub fn restore(slots: Vec<Option<OrderRec>>) -> (l: OrderLedger)
        ensures
            l@ == slots@,
    {
        OrderLedger { slots }
    }

    /// The last identifier handed out; 0 if none was.
    pub fn counter(&self) -> (c: u128)
        ensures
            c == self@.len(),
    {
        self.slots.len() as u128
    }

    /// Hands out the next identifier: one more than the last.
    pub fn next_sequence(&mut self) -> (id: u128)
        ensures
            id == old(self)@.len() + 1,
            final(self)@ == old(self)@.push(None),
    {
        self.slots.push(None);
        self.slots.len() as u128
    }

    /// Records a pending order under an identifier that was handed out and
    /// holds no order yet.
    pub fn record_order(&mut self, id: u128, package_id: u32)
        requires
            1 <= id <= old(self)@.len(),
            order_in(old(self)@, id as nat) is None,
        ensures
            final(self)@ == old(self)@.update(
                id - 1,
                Some(OrderRec { package_id, credited: false }),
            ),
    {
        assert(id <= self.slots.len());
        let at: usize = (id - 1) as usize;
        self.slots.set(at, Some(OrderRec { package_id, credited: false }));
    }

    /// Marks a pending order as credited.
    pub fn mark_credited(&mut self, id: u128)
        requires
            order_in(old(self)@, id as nat) is Some,
            !order_in(old(self)@, id as nat).unwrap().credited,
        ensures
            final(self)@ == old(self)@.update(
                id - 1,
                Some(
                    OrderRec {
                        package_id: order_in(old(self)@, id as nat).unwrap().package_id,
                        credited: true,
                    },
                ),
            ),
    {
        assert(id <= self.slots.len());
        let at: usize = (id - 1) as usize;
        let package_id: u32 = match self.slots[at] {
            Some(order) => order.package_id,
            None => 0,
        };
        self.slots.set(at, Some(OrderRec { package_id, credited: true }));
    }

    /// The order recorded under `id`.
    pub fn get_order(&self, id: u128) -> (r: Result<OrderRec, Error>)
        ensures
            r == match order_in(self@, id as nat) {
                Some(order) => Ok::<OrderRec, Error>(order),
                None => Err(Error::OrderNotFound),
            },
    {
        let len: usize = self.slots.len();
        if id == 0 || id > len as u128 {
            return Err(Error::OrderNotFound);
        }
        let at: usize = (id - 1) as usize;
        match self.slots[at] {
            Some(order) => Ok(order),
            None => Err(Error::OrderNotFound),
        }
    }
}

} // verus!
