//! The error taxonomy: every failure an operation can report.

use vstd::prelude::*;

verus! {

/// Why a ledger-level fund movement did not complete.  A failed transfer is
/// all-or-nothing: no balance changes when one of these is reported.
#[derive(Clone, Copy, PartialEq, Eq, Structural, Debug)]
pub enum TransferError {
    /// The ledger was configured to fail transfers (fault injection).
    Faulted,
    /// The source location holds less than the requested amount.
    InsufficientFunds,
    /// Crediting the destination would overflow its balance.
    ReceiverOverflow,
}

/// The structured, recoverable errors an escrow operation can return.
#[derive(Clone, Copy, PartialEq, Eq, Structural, Debug)]
pub enum EscrowError {
    /// No record exists for the given order identifier.
    NotFound,
    /// A record already exists for the given order identifier.
    AlreadyExists,
    /// The caller holds none of the roles the operation requires.
    Unauthorized,
    /// The record's status is not in the operation's allowed set, which
    /// includes the replay of an operation whose target state was already
    /// reached.
    InvalidState,
    /// The ledger-level fund movement failed; wraps the underlying cause.
    /// The record is left exactly as it was.
    TransferFailed(TransferError),
}

/// The errors the product-token registry can return.
#[derive(Clone, Copy, PartialEq, Eq, Structural, Debug)]
pub enum RegistryError {
    /// No token exists for the given identifier or serial number.
    NotFound,
    /// A token with the given serial number already exists.
    SerialExists,
    /// The caller is not allowed to perform this action.
    Unauthorized,
}

} // verus!
