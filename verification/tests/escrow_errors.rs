use proofcart::engine::EscrowEngine;
use proofcart::errors::{EscrowError, TransferError};
use proofcart::policy::{EscrowConfig, ResolutionPolicy};
use proofcart::status::EscrowStatus;

const ADMIN: u64 = 9;
const BUYER: u64 = 1;
const SELLER: u64 = 2;
const STRANGER: u64 = 7;

fn engine(policy: ResolutionPolicy) -> EscrowEngine {
    let mut e = EscrowEngine::new(
        ADMIN,
        EscrowConfig { fund_on_create: true, resolution_policy: policy },
    );
    e.fund_party(BUYER, 10_000).unwrap();
    e
}

#[test]
fn unknown_order_is_not_found() {
    let mut e = engine(ResolutionPolicy::AdminOnly);
    let oid = "NOPE".to_string();
    assert_eq!(e.get_escrow(&oid).unwrap_err(), EscrowError::NotFound);
    assert_eq!(e.confirm_release(BUYER, &oid).unwrap_err(), EscrowError::NotFound);
    assert_eq!(e.lock_for_dispute(BUYER, &oid).unwrap_err(), EscrowError::NotFound);
    assert_eq!(e.flag_dispute(BUYER, &oid).unwrap_err(), EscrowError::NotFound);
    assert_eq!(e.resolve_refund(ADMIN, &oid).unwrap_err(), EscrowError::NotFound);
    assert_eq!(e.resolve_release(ADMIN, &oid).unwrap_err(), EscrowError::NotFound);
}

#[test]
fn insufficient_buyer_funds_fail_creation() {
    let mut e = EscrowEngine::new(
        ADMIN,
        EscrowConfig { fund_on_create: true, resolution_policy: ResolutionPolicy::AdminOnly },
    );
    e.fund_party(BUYER, 999).unwrap();
    let err = e
        .create_escrow(BUYER, "ORD-1".to_string(), SELLER, 1000)
        .unwrap_err();
    assert_eq!(err, EscrowError::TransferFailed(TransferError::InsufficientFunds));
    // Nothing was created and nothing moved.
    assert_eq!(e.get_escrow(&"ORD-1".to_string()).unwrap_err(), EscrowError::NotFound);
    assert_eq!(e.ledger().balance_of(BUYER), 999);
    assert_eq!(e.ledger().custody_balance(&"ORD-1".to_string()), 0);
}

#[test]
fn faulted_ledger_fails_creation_atomically() {
    let mut e = engine(ResolutionPolicy::AdminOnly);
    e.set_fail_transfers(true);
    let err = e
        .create_escrow(BUYER, "ORD-1".to_string(), SELLER, 1000)
        .unwrap_err();
    assert_eq!(err, EscrowError::TransferFailed(TransferError::Faulted));
    assert_eq!(e.get_escrow(&"ORD-1".to_string()).unwrap_err(), EscrowError::NotFound);
    assert_eq!(e.ledger().balance_of(BUYER), 10_000);
}

#[test]
fn payout_overflow_fails_atomically() {
    let mut e = engine(ResolutionPolicy::AdminOnly);
    let oid = "ORD-1".to_string();
    e.create_escrow(BUYER, oid.clone(), SELLER, 1000).unwrap();
    // The seller's account is too full to receive the payout.
    e.fund_party(SELLER, u64::MAX - 10).unwrap();
    let err = e.confirm_release(BUYER, &oid).unwrap_err();
    assert_eq!(err, EscrowError::TransferFailed(TransferError::ReceiverOverflow));
    let kept = e.get_escrow(&oid).unwrap();
    assert_eq!(kept.status, EscrowStatus::Locked);
    assert_eq!(e.ledger().custody_balance(&oid), 1000);
}

#[test]
fn strangers_are_always_unauthorized() {
    let mut e = engine(ResolutionPolicy::ParticipantArbitrated);
    let oid = "ORD-1".to_string();
    e.create_escrow(BUYER, oid.clone(), SELLER, 1000).unwrap();
    assert_eq!(e.confirm_release(STRANGER, &oid).unwrap_err(), EscrowError::Unauthorized);
    assert_eq!(e.lock_for_dispute(STRANGER, &oid).unwrap_err(), EscrowError::Unauthorized);
    assert_eq!(e.flag_dispute(STRANGER, &oid).unwrap_err(), EscrowError::Unauthorized);
    assert_eq!(e.resolve_refund(STRANGER, &oid).unwrap_err(), EscrowError::Unauthorized);
    assert_eq!(e.resolve_release(STRANGER, &oid).unwrap_err(), EscrowError::Unauthorized);
    // Also when the record is in a state the operation would not accept:
    // the caller with no standing still learns only Unauthorized.
    e.confirm_release(BUYER, &oid).unwrap();
    assert_eq!(e.confirm_release(STRANGER, &oid).unwrap_err(), EscrowError::Unauthorized);
    assert_eq!(e.resolve_refund(STRANGER, &oid).unwrap_err(), EscrowError::Unauthorized);
}

#[test]
fn admin_only_policy_keeps_participants_out() {
    let mut e = engine(ResolutionPolicy::AdminOnly);
    let oid = "ORD-1".to_string();
    e.create_escrow(BUYER, oid.clone(), SELLER, 1000).unwrap();
    assert_eq!(e.resolve_refund(SELLER, &oid).unwrap_err(), EscrowError::Unauthorized);
    assert_eq!(e.resolve_release(SELLER, &oid).unwrap_err(), EscrowError::Unauthorized);
    e.flag_dispute(SELLER, &oid).unwrap();
    assert_eq!(e.resolve_refund(BUYER, &oid).unwrap_err(), EscrowError::Unauthorized);
    let rec = e.resolve_refund(ADMIN, &oid).unwrap();
    assert_eq!(rec.status, EscrowStatus::Refunded);
}

#[test]
fn seller_may_resolve_plain_locked_under_arbitration() {
    // The stricter reading of the refund rule: from plain Locked the
    // seller (or the admin) may refund, the buyer may not.
    let mut e = engine(ResolutionPolicy::ParticipantArbitrated);
    let oid = "ORD-1".to_string();
    e.create_escrow(BUYER, oid.clone(), SELLER, 1000).unwrap();
    let rec = e.resolve_refund(SELLER, &oid).unwrap();
    assert_eq!(rec.status, EscrowStatus::Refunded);
    assert_eq!(e.ledger().balance_of(BUYER), 10_000);
}

#[test]
fn lock_requires_created_state() {
    let mut e = engine(ResolutionPolicy::AdminOnly);
    let oid = "ORD-1".to_string();
    // Funded-on-create puts the record straight into Locked, so the
    // explicit lock step replays as InvalidState.
    e.create_escrow(BUYER, oid.clone(), SELLER, 1000).unwrap();
    assert_eq!(e.lock_for_dispute(BUYER, &oid).unwrap_err(), EscrowError::InvalidState);
}

#[test]
fn zero_amount_and_longest_order_id() {
    let mut e = engine(ResolutionPolicy::AdminOnly);
    let oid: String = "O".repeat(50);
    let rec = e.create_escrow(BUYER, oid.clone(), SELLER, 0).unwrap();
    assert_eq!(rec.amount, 0);
    assert_eq!(rec.status, EscrowStatus::Locked);
    assert_eq!(e.ledger().custody_balance(&oid), 0);
    let rec = e.confirm_release(BUYER, &oid).unwrap();
    assert_eq!(rec.status, EscrowStatus::Released);
    assert_eq!(e.ledger().balance_of(SELLER), 0);
}

#[test]
fn timestamps_are_write_once_and_ordered() {
    let mut e = EscrowEngine::new(
        ADMIN,
        EscrowConfig {
            fund_on_create: false,
            resolution_policy: ResolutionPolicy::ParticipantArbitrated,
        },
    );
    e.fund_party(BUYER, 1000).unwrap();
    e.advance_time(100);
    let oid = "ORD-1".to_string();
    let rec = e.create_escrow(BUYER, oid.clone(), SELLER, 1000).unwrap();
    assert_eq!(rec.created_at, 100);
    assert_eq!((rec.locked_at, rec.released_at, rec.resolved_at), (None, None, None));
    e.advance_time(20);
    let rec = e.lock_for_dispute(BUYER, &oid).unwrap();
    assert_eq!(rec.locked_at, Some(120));
    e.advance_time(20);
    let rec = e.flag_dispute(BUYER, &oid).unwrap();
    assert_eq!(rec.locked_at, Some(120));
    e.advance_time(20);
    let rec = e.resolve_release(SELLER, &oid).unwrap();
    assert_eq!(rec.created_at, 100);
    assert_eq!(rec.locked_at, Some(120));
    assert_eq!(rec.released_at, None);
    assert_eq!(rec.resolved_at, Some(160));
}
