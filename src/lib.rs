//! A settlement engine: one incoming payment is split between a platform,
//! which takes a fee of a fixed percentage, and a list of benefactors, each
//! owed a stated amount. The payment must reconcile exactly with the fee and
//! the amounts before any value moves; the transfers then run in a fixed
//! order, platform first, and stop at the first one that fails.
use vstd::prelude::*;

pub mod env;
pub mod fee;
pub mod laws;
pub mod payable;
pub mod settlement;

pub use fee::platform_fee;
pub use payable::{Disbursement, Payable};
pub use settlement::{is_reconciled, Benefactor, SettlementError, Transfer};
