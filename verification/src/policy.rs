//! The precondition rules of the escrow state machine: which states each
//! operation accepts, which callers it accepts, and in which order the
//! checks run.
//!
//! Every mutating operation on an existing record is screened in three
//! steps: first the caller must hold one of the roles that could ever
//! perform the operation (otherwise `Unauthorized`), then the record's
//! status must lie in the operation's allowed set (otherwise
//! `InvalidState`), and finally the status-dependent part of the authority
//! rule is applied (otherwise `Unauthorized`).  Checking the role screen
//! before the status means a caller with no standing always learns only
//! `Unauthorized`, while a participant replaying a finished operation
//! learns `InvalidState` — "not allowed" and "already done" stay distinct.

use vstd::prelude::*;

use crate::errors::EscrowError;
use crate::ledger::AccountId;
use crate::status::{step_allowed, EscrowStatus};

verus! {

/// Who may resolve a locked or disputed escrow.
#[derive(Clone, Copy, PartialEq, Eq, Structural, Debug)]
pub enum ResolutionPolicy {
    /// Only the configured admin resolves.
    AdminOnly,
    /// The seller may also resolve, and the buyer gains resolution
    /// authority once the record is disputed.
    ParticipantArbitrated,
}

/// The engine's configuration, fixed at construction.
#[derive(Clone, Copy, PartialEq, Eq, Structural, Debug)]
pub struct EscrowConfig {
    /// When set, a newly created escrow enters `Locked` directly; when
    /// clear, it enters `Created` and is locked by an explicit step.
    pub fund_on_create: bool,
    /// Who may resolve a locked or disputed escrow.
    pub resolution_policy: ResolutionPolicy,
}

/// The five mutating operations on an existing escrow record.
#[derive(Clone, Copy, PartialEq, Eq, Structural, Debug)]
pub enum OpKind {
    /// The buyer confirms delivery: custody pays out to the seller.
    ConfirmRelease,
    /// The buyer locks a freshly created escrow.
    LockForDispute,
    /// A participant flags a locked escrow as disputed.
    FlagDispute,
    /// Resolution in the buyer's favour: custody pays back to the buyer.
    ResolveRefund,
    /// Resolution in the seller's favour: custody pays out to the seller.
    ResolveRelease,
}

/// The set of states an operation may start from.
pub open spec fn allowed_from(op: OpKind, s: EscrowStatus) -> bool {
    match op {
        OpKind::ConfirmRelease => s == EscrowStatus::Created || s == EscrowStatus::Locked,
        OpKind::LockForDispute => s == EscrowStatus::Created,
        OpKind::FlagDispute => s == EscrowStatus::Locked,
        OpKind::ResolveRefund => s == EscrowStatus::Locked || s == EscrowStatus::Disputed,
        OpKind::ResolveRelease => s == EscrowStatus::Locked || s == EscrowStatus::Disputed,
    }
}

/// The state a record is in after the operation commits.
pub open spec fn target_status(op: OpKind) -> EscrowStatus {
    match op {
        OpKind::ConfirmRelease => EscrowStatus::Released,
        OpKind::LockForDispute => EscrowStatus::Locked,
        OpKind::FlagDispute => EscrowStatus::Disputed,
        OpKind::ResolveRefund => EscrowStatus::Refunded,
        OpKind::ResolveRelease => EscrowStatus::Released,
    }
}

/// The party custody pays out to when the operation commits, if any.
pub open spec fn payee(op: OpKind, buyer: AccountId, seller: AccountId) -> Option<AccountId> {
    match op {
        OpKind::ConfirmRelease => Some(seller),
        OpKind::LockForDispute => None,
        OpKind::FlagDispute => None,
        OpKind::ResolveRefund => Some(buyer),
        OpKind::ResolveRelease => Some(seller),
    }
}

/// The state-independent role screen: whether the caller holds a role that
/// could ever perform the operation on this record.
pub open spec fn candidate_caller(
    op: OpKind,
    policy: ResolutionPolicy,
    admin: AccountId,
    buyer: AccountId,
    seller: AccountId,
    caller: AccountId,
) -> bool {
    match op {
        OpKind::ConfirmRelease => caller == buyer,
        OpKind::LockForDispute => caller == buyer,
        OpKind::FlagDispute => caller == buyer || caller == seller,
        OpKind::ResolveRefund | OpKind::ResolveRelease => caller == admin || (policy
            == ResolutionPolicy::ParticipantArbitrated && (caller == seller || caller == buyer)),
    }
}

/// Full authorization, given the record's current status.  It refines the
/// role screen in exactly one place: under participant arbitration the
/// buyer may resolve only once the record is disputed — entering `Disputed`
/// is what unlocks the wider resolution authority.
pub open spec fn authorized(
    op: OpKind,
    policy: ResolutionPolicy,
    admin: AccountId,
    buyer: AccountId,
    seller: AccountId,
    status: EscrowStatus,
    caller: AccountId,
) -> bool {
    match op {
        OpKind::ConfirmRelease | OpKind::LockForDispute | OpKind::FlagDispute => candidate_caller(
            op,
            policy,
            admin,
            buyer,
            seller,
            caller,
        ),
        OpKind::ResolveRefund | OpKind::ResolveRelease => caller == admin || (policy
            == ResolutionPolicy::ParticipantArbitrated && (caller == seller || (caller == buyer
            && status == EscrowStatus::Disputed))),
    }
}

/// The precondition verdict for an operation on an existing record:
/// `None` when the operation may proceed to its fund movement and commit,
/// otherwise the error it must return.
pub open spec fn decide(
    op: OpKind,
    policy: ResolutionPolicy,
    admin: AccountId,
    buyer: AccountId,
    seller: AccountId,
    status: EscrowStatus,
    caller: AccountId,
) -> Option<EscrowError> {
    if !candidate_caller(op, policy, admin, buyer, seller, caller) {
        Some(EscrowError::Unauthorized)
    } else if !allowed_from(op, status) {
        Some(EscrowError::InvalidState)
    } else if !authorized(op, policy, admin, buyer, seller, status, caller) {
        Some(EscrowError::Unauthorized)
    } else {
        None
    }
}

/// Executable form of `allowed_from`.
pub fn check_allowed_from(op: OpKind, s: EscrowStatus) -> (r: bool)
    ensures
        r == allowed_from(op, s),
{
    match op {
        OpKind::ConfirmRelease => s == EscrowStatus::Created || s == EscrowStatus::Locked,
        OpKind::LockForDispute => s == EscrowStatus::Created,
        OpKind::FlagDispute => s == EscrowStatus::Locked,
        OpKind::ResolveRefund => s == EscrowStatus::Locked || s == EscrowStatus::Disputed,
        OpKind::ResolveRelease => s == EscrowStatus::Locked || s == EscrowStatus::Disputed,
    }
}

/// Executable form of `target_status`.
pub fn check_target_status(op: OpKind) -> (r: EscrowStatus)
    ensures
        r == target_status(op),
{
    match op {
        OpKind::ConfirmRelease => EscrowStatus::Released,
        OpKind::LockForDispute => EscrowStatus::Locked,
        OpKind::FlagDispute => EscrowStatus::Disputed,
        OpKind::ResolveRefund => EscrowStatus::Refunded,
        OpKind::ResolveRelease => EscrowStatus::Released,
    }
}

/// Executable form of `payee`.
pub fn check_payee(op: OpKind, buyer: AccountId, seller: AccountId) -> (r: Option<AccountId>)
    ensures
        r == payee(op, buyer, seller),
{
    match op {
        OpKind::ConfirmRelease => Some(seller),
        OpKind::LockForDispute => None,
        OpKind::FlagDispute => None,
        OpKind::ResolveRefund => Some(buyer),
        OpKind::ResolveRelease => Some(seller),
    }
}

/// Executable form of `candidate_caller`.
pub fn check_candidate_caller(
    op: OpKind,
    policy: ResolutionPolicy,
    admin: AccountId,
    buyer: AccountId,
    seller: AccountId,
    caller: AccountId,
) -> (r: bool)
    ensures
        r == candidate_caller(op, policy, admin, buyer, seller, caller),
{
    match op {
        OpKind::ConfirmRelease => caller == buyer,
        OpKind::LockForDispute => caller == buyer,
        OpKind::FlagDispute => caller == buyer || caller == seller,
        OpKind::ResolveRefund | OpKind::ResolveRelease => caller == admin || (policy
            == ResolutionPolicy::ParticipantArbitrated && (caller == seller || caller == buyer)),
    }
}

/// Executable form of `authorized`.
pub fn check_authorized(
    op: OpKind,
    policy: ResolutionPolicy,
    admin: AccountId,
    buyer: AccountId,
    seller: AccountId,
    status: EscrowStatus,
    caller: AccountId,
) -> (r: bool)
    ensures
        r == authorized(op, policy, admin, buyer, seller, status, caller),
{
    match op {
        OpKind::ConfirmRelease | OpKind::LockForDispute | OpKind::FlagDispute => check_candidate_caller(
            op,
            policy,
            admin,
            buyer,
            seller,
            caller,
        ),
        OpKind::ResolveRefund | OpKind::ResolveRelease => caller == admin || (policy
            == ResolutionPolicy::ParticipantArbitrated && (caller == seller || (caller == buyer
            && status == EscrowStatus::Disputed))),
    }
}

/// Every operation moves a record along an edge of the transition graph:
/// from any state the operation accepts, the resulting state is one step
/// away.  Together with the graph itself this pins down which status
/// sequences are observable at all.
pub proof fn lemma_ops_follow_graph(op: OpKind, s: EscrowStatus)
    requires
        allowed_from(op, s),
    ensures
        step_allowed(s, target_status(op)),
{
}

/// No operation accepts its own target state: the state a commit produces
/// lies outside the operation's allowed set.
pub proof fn lemma_target_not_allowed(op: OpKind)
    ensures
        !allowed_from(op, target_status(op)),
{
}

/// Replaying a successful operation is rejected as `InvalidState`, never a
/// silent success: once an operation has moved a record to its target
/// state, the same caller repeating it receives `InvalidState`.
pub proof fn lemma_replay_rejected(
    op: OpKind,
    policy: ResolutionPolicy,
    admin: AccountId,
    buyer: AccountId,
    seller: AccountId,
    caller: AccountId,
    s: EscrowStatus,
)
    requires
        decide(op, policy, admin, buyer, seller, s, caller) == None::<EscrowError>,
    ensures
        decide(op, policy, admin, buyer, seller, target_status(op), caller) == Some(
            EscrowError::InvalidState,
        ),
{
    lemma_target_not_allowed(op);
}

/// A caller who is neither a counterparty of the record nor the admin is
/// always rejected as `Unauthorized`, whatever the record's status and
/// however resolution is configured.
pub proof fn lemma_stranger_always_unauthorized(
    op: OpKind,
    policy: ResolutionPolicy,
    admin: AccountId,
    buyer: AccountId,
    seller: AccountId,
    status: EscrowStatus,
    caller: AccountId,
)
    requires
        caller != buyer,
        caller != seller,
        caller != admin,
    ensures
        decide(op, policy, admin, buyer, seller, status, caller) == Some(EscrowError::Unauthorized),
{
}

} // verus!
