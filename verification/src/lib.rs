//! An escrow engine for order-keyed custody of funds, together with a small
//! product-token registry.
//!
//! The heart of the crate is the escrow state machine: one custody record per
//! order identifier, a fixed set of states, authorization rules gating every
//! transition, and an all-or-nothing fund movement whenever custody changes
//! hands.  Custody is funded at creation, so the holding of every live order
//! equals the record's amount, and drops to zero exactly when the record
//! reaches a terminal state.  A ledger model holds party balances and
//! per-order custody balances, provides the clock, and can be made to fail
//! transfers so that callers can exercise the atomicity guarantees.
//!
//! The host supplies each call's caller identity and drives the clock; the
//! engine itself decides everything else, and each public operation carries
//! the full statement of what it returns and changes.

pub mod engine;
pub mod errors;
pub mod ledger;
pub mod policy;
pub mod registry;
pub mod status;
