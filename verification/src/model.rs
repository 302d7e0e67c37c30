//! The plain data types of the system.
use vstd::prelude::*;

verus! {

/// An authenticated identity: an owner, the administrator, or the token
/// ledger that payments are settled on. Two principals are the same actor
/// exactly when the numbers are equal.
pub type Principal = u64;

/// A purchasable catalog entry.
#[derive(Clone, Copy, Debug, PartialEq, Eq)]
pub struct Package {
    /// Price in units of the payment token.
    pub price: i128,
    /// Seconds credited when an order for this package is granted.
    pub duration_secs: u32,
}

/// A pausable time balance.
///
/// `started_at == 0` means paused: the balance is frozen. Otherwise the
/// session has been running since `started_at` and the balance decays in
/// real time, never below zero.
#[derive(Clone, Copy, Debug, PartialEq, Eq)]
pub struct Session {
    /// Seconds left as of the last start or pause.
    pub remaining_secs: u64,
    /// The time the session was started at; 0 while paused.
    pub started_at: u64,
}

/// When an owner's access runs out, if nothing else happens.
#[derive(Clone, Copy, Debug, PartialEq, Eq)]
pub struct Access {
    pub owner: Principal,
    /// 0 while paused; otherwise `started_at + remaining_secs`, saturating.
    pub expires_at: u64,
}

/// A settled purchase, pending or credited.
#[derive(Clone, Copy, Debug, PartialEq, Eq)]
pub struct OrderRec {
    /// The package that was bought.
    pub package_id: u32,
    /// Whether the package's duration has been credited to the session.
    pub credited: bool,
}

/// The singletons fixed at initialization.
#[derive(Clone, Copy, Debug, PartialEq, Eq)]
pub struct Config {
    /// Who manages the catalog and may grant on behalf of owners.
    pub admin: Principal,
    /// The token ledger that purchases are paid on.
    pub token: Principal,
}

/// A payment that has to be settled on the token ledger before a purchase
/// is recorded.
#[derive(Clone, Copy, Debug, PartialEq, Eq)]
pub struct Transfer {
    pub token: Principal,
    pub from: Principal,
    pub to: Principal,
    pub amount: i128,
}

/// An audit record, published by the application after the operation that
/// produced it has committed.
#[derive(Clone, Copy, Debug, PartialEq, Eq)]
pub enum Event {
    Init { admin: Principal, token: Principal },
    PackageSet { id: u32, price: i128, duration_secs: u32 },
    PurchaseCreated { owner: Principal, package_id: u32, order_id: u128, price: i128 },
    Grant { owner: Principal, order_id: u128, remaining_secs: u64 },
    Start { owner: Principal, now: u64 },
    Pause { owner: Principal, remaining_secs: u64 },
}

/// Why an operation did not happen. Every error leaves the state as it was.
#[derive(Clone, Copy, Debug, PartialEq, Eq)]
pub enum Error {
    AlreadyInitialized,
    NotInitialized,
    Unauthorized,
    PackageNotFound,
    InsufficientBalance,
    OrderNotFound,
    AlreadyGranted,
}

impl Error {
    /// The number under which the error is reported to callers.
    pub open spec fn code_of(self) -> u32 {
        match self {
            Error::AlreadyInitialized => 1,
            Error::NotInitialized => 2,
            Error::Unauthorized => 3,
            Error::PackageNotFound => 4,
            Error::InsufficientBalance => 5,
            Error::OrderNotFound => 6,
            Error::AlreadyGranted => 7,
        }
    }

    /// The number under which the error is reported to callers.
    pub fn code(&self) -> (c: u32)
        ensures
            c == self.code_of(),
    {
        match self {
            Error::AlreadyInitialized => 1,
            Error::NotInitialized => 2,
            Error::Unauthorized => 3,
            Error::PackageNotFound => 4,
            Error::InsufficientBalance => 5,
            Error::OrderNotFound => 6,
            Error::AlreadyGranted => 7,
        }
    }
}

} // verus!
