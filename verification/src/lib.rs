//! Time-bounded access entitlements paid for with a fungible token.
//!
//! A user buys a package (a price and a duration), the payment is settled
//! by the surrounding application, and the purchased duration is credited
//! to a per-user time balance that can be started and paused.
//!
//! * [`model`] holds the plain data types.
//! * [`session`] is the session accountant: the start / pause state machine
//!   with saturating real-time decay, and the laws that hold of it.
//! * [`ledger`] is one owner's order ledger with its sequence counter.
//! * [`state`] is the mathematical model of the whole system and of each
//!   operation on it.
//! * [`contract`] is the service object, whose operations are proved to
//!   follow that model.
//! * [`laws`] states what holds of the model across several operations.
pub mod model;
pub mod session;
pub mod ledger;
pub mod state;
pub mod contract;
pub mod laws;
