use proofcart::policy::{
    check_allowed_from, check_authorized, check_candidate_caller, check_payee,
    check_target_status, OpKind, ResolutionPolicy,
};
use proofcart::status::EscrowStatus;

const ADMIN: u64 = 9;
const BUYER: u64 = 1;
const SELLER: u64 = 2;
const STRANGER: u64 = 7;

const ALL_STATUSES: [EscrowStatus; 5] = [
    EscrowStatus::Created,
    EscrowStatus::Locked,
    EscrowStatus::Released,
    EscrowStatus::Refunded,
    EscrowStatus::Disputed,
];

const ALL_OPS: [OpKind; 5] = [
    OpKind::ConfirmRelease,
    OpKind::LockForDispute,
    OpKind::FlagDispute,
    OpKind::ResolveRefund,
    OpKind::ResolveRelease,
];

#[test]
fn allowed_state_table() {
    for s in ALL_STATUSES {
        assert_eq!(
            check_allowed_from(OpKind::ConfirmRelease, s),
            s == EscrowStatus::Created || s == EscrowStatus::Locked
        );
        assert_eq!(
            check_allowed_from(OpKind::LockForDispute, s),
            s == EscrowStatus::Created
        );
        assert_eq!(check_allowed_from(OpKind::FlagDispute, s), s == EscrowStatus::Locked);
        assert_eq!(
            check_allowed_from(OpKind::ResolveRefund, s),
            s == EscrowStatus::Locked || s == EscrowStatus::Disputed
        );
        assert_eq!(
            check_allowed_from(OpKind::ResolveRelease, s),
            s == EscrowStatus::Locked || s == EscrowStatus::Disputed
        );
    }
}

#[test]
fn target_states_and_payees() {
    assert_eq!(check_target_status(OpKind::ConfirmRelease), EscrowStatus::Released);
    assert_eq!(check_target_status(OpKind::LockForDispute), EscrowStatus::Locked);
    assert_eq!(check_target_status(OpKind::FlagDispute), EscrowStatus::Disputed);
    assert_eq!(check_target_status(OpKind::ResolveRefund), EscrowStatus::Refunded);
    assert_eq!(check_target_status(OpKind::ResolveRelease), EscrowStatus::Released);
    assert_eq!(check_payee(OpKind::ConfirmRelease, BUYER, SELLER), Some(SELLER));
    assert_eq!(check_payee(OpKind::LockForDispute, BUYER, SELLER), None);
    assert_eq!(check_payee(OpKind::FlagDispute, BUYER, SELLER), None);
    assert_eq!(check_payee(OpKind::ResolveRefund, BUYER, SELLER), Some(BUYER));
    assert_eq!(check_payee(OpKind::ResolveRelease, BUYER, SELLER), Some(SELLER));
}

#[test]
fn no_operation_accepts_its_own_target() {
    for op in ALL_OPS {
        assert!(!check_allowed_from(op, check_target_status(op)));
    }
}

#[test]
fn strangers_are_never_candidates() {
    for op in ALL_OPS {
        for policy in [ResolutionPolicy::AdminOnly, ResolutionPolicy::ParticipantArbitrated] {
            assert!(!check_candidate_caller(op, policy, ADMIN, BUYER, SELLER, STRANGER));
        }
    }
}

#[test]
fn disputed_state_widens_buyer_authority() {
    let pa = ResolutionPolicy::ParticipantArbitrated;
    for op in [OpKind::ResolveRefund, OpKind::ResolveRelease] {
        assert!(!check_authorized(op, pa, ADMIN, BUYER, SELLER, EscrowStatus::Locked, BUYER));
        assert!(check_authorized(op, pa, ADMIN, BUYER, SELLER, EscrowStatus::Disputed, BUYER));
        assert!(check_authorized(op, pa, ADMIN, BUYER, SELLER, EscrowStatus::Locked, SELLER));
        assert!(check_authorized(op, pa, ADMIN, BUYER, SELLER, EscrowStatus::Locked, ADMIN));
    }
}

#[test]
fn admin_only_policy_authorizes_admin_alone() {
    let ao = ResolutionPolicy::AdminOnly;
    for op in [OpKind::ResolveRefund, OpKind::ResolveRelease] {
        for s in ALL_STATUSES {
            assert!(check_authorized(op, ao, ADMIN, BUYER, SELLER, s, ADMIN));
            assert!(!check_authorized(op, ao, ADMIN, BUYER, SELLER, s, BUYER));
            assert!(!check_authorized(op, ao, ADMIN, BUYER, SELLER, s, SELLER));
        }
    }
}
