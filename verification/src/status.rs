//! The escrow states and the directed transition graph between them.

use vstd::prelude::*;

verus! {

/// The custody states an escrow record can be in.
///
/// `Created` and `Locked` are the two states a record can start in,
/// `Disputed` is reached only from `Locked`, and `Released` / `Refunded`
/// are terminal: no transition leaves them.
#[derive(Clone, Copy, PartialEq, Eq, Structural, Debug)]
pub enum EscrowStatus {
    Created,
    Locked,
    Released,
    Refunded,
    Disputed,
}

impl EscrowStatus {
    /// A terminal state retains the record as an audit trail; no further
    /// transition is defined from it and its custody balance is zero.
    pub open spec fn is_terminal(self) -> bool {
        self == EscrowStatus::Released || self == EscrowStatus::Refunded
    }

    /// Executable query for `is_terminal`.
    pub fn terminal(&self) -> (r: bool)
        ensures
            r == self.is_terminal(),
    {
        match self {
            EscrowStatus::Released => true,
            EscrowStatus::Refunded => true,
            _ => false,
        }
    }
}

/// The edges of the transition graph: `step_allowed(from, to)` holds exactly
/// when some operation may move a record from `from` to `to`.
///
/// `Created` may advance to `Locked` (an explicit lock) or straight to
/// `Released` (the buyer confirms before locking); `Locked` may advance to
/// `Disputed` or to either terminal state; `Disputed` may advance to either
/// terminal state.  No state is ever revisited and nothing leaves a terminal
/// state.
pub open spec fn step_allowed(from: EscrowStatus, to: EscrowStatus) -> bool {
    ||| (from == EscrowStatus::Created && to == EscrowStatus::Locked)
    ||| (from == EscrowStatus::Created && to == EscrowStatus::Released)
    ||| (from == EscrowStatus::Locked && to == EscrowStatus::Disputed)
    ||| (from == EscrowStatus::Locked && to == EscrowStatus::Released)
    ||| (from == EscrowStatus::Locked && to == EscrowStatus::Refunded)
    ||| (from == EscrowStatus::Disputed && to == EscrowStatus::Released)
    ||| (from == EscrowStatus::Disputed && to == EscrowStatus::Refunded)
}

/// No edge leaves a terminal state: a released or refunded record is frozen.
pub proof fn lemma_terminal_states_are_final(from: EscrowStatus, to: EscrowStatus)
    requires
        from.is_terminal(),
    ensures
        !step_allowed(from, to),
{
}

/// The graph has no shortcut from `Created` straight to `Refunded`: a refund
/// always passes through `Locked` (and possibly `Disputed`) first.
pub proof fn lemma_no_step_created_to_refunded()
    ensures
        !step_allowed(EscrowStatus::Created, EscrowStatus::Refunded),
{
}

} // verus!
