//! On-ledger logic of a custodial exchange booth: a program-owned vault,
//! reached through a deterministically derived address, lets a payer swap
//! native currency units for fungible token units at a fixed 1:10 rate,
//! and back.
//!
//! Every account mutation is stated as a transition over explicit account
//! records, so the handlers can be verified and exercised without a live
//! ledger runtime; the runtime-facing shell performs the same transitions
//! through the runtime's transfer primitives.

pub mod address;
pub mod errors;
pub mod instruction;
pub mod ledger;
pub mod processor;
pub mod state;
