//! The escrow engine: one custody record per order identifier, validated
//! transitions, and at most one ledger fund movement per transition.
//!
//! Every mutating operation is all-or-nothing: when it returns an error —
//! including a failed ledger transfer — the engine (records and balances
//! alike) is exactly as it was before the call.

use vstd::prelude::*;

use crate::errors::{EscrowError, TransferError};
use crate::ledger::{AccountId, Ledger};
use crate::policy::{
    check_allowed_from, check_authorized, check_candidate_caller, check_payee,
    check_target_status, decide, lemma_ops_follow_graph, lemma_replay_rejected, payee,
    target_status, EscrowConfig, OpKind,
};
use crate::status::{step_allowed, EscrowStatus};

verus! {

/// The longest order identifier the engine accepts, in characters.
pub const MAX_ORDER_ID_LEN: usize = 50;

/// One order's custody record.  The identifier, the counterparties and the
/// amount are fixed at creation; only the status and the write-once
/// timestamps change afterwards, and only through the engine's operations.
#[derive(Debug, PartialEq)]
pub struct Escrow {
    /// The order this record belongs to; the record set's primary key.
    pub order_id: String,
    /// The party that funded the escrow and can confirm delivery.
    pub buyer: AccountId,
    /// The party the funds are released to on success.
    pub seller: AccountId,
    /// The quantity of value held in custody while the record is live.
    pub amount: u64,
    /// The record's place in the transition graph.
    pub status: EscrowStatus,
    /// The ledger location holding the funds, derived from the order
    /// identifier (the identifier itself names the custody account).
    pub custody_location: String,
    /// When the record was created.
    pub created_at: u64,
    /// When the explicit lock step committed, if it ever did.
    pub locked_at: Option<u64>,
    /// When the buyer's delivery confirmation committed, if it ever did.
    pub released_at: Option<u64>,
    /// When a resolution (refund or release) committed, if one ever did.
    pub resolved_at: Option<u64>,
}

impl Escrow {
    /// Structural consistency of a single record: the custody location is
    /// the one derived from the order identifier, the identifier is within
    /// bounds, and each timestamp is set exactly when the transition it
    /// records has committed.
    pub open spec fn rec_wf(self) -> bool {
        &&& self.custody_location@ == self.order_id@
        &&& self.order_id@.len() <= MAX_ORDER_ID_LEN
        &&& (self.released_at is Some ==> self.status == EscrowStatus::Released)
        &&& (self.resolved_at is Some ==> self.status.is_terminal())
        &&& (self.status.is_terminal() ==> self.released_at is Some || self.resolved_at is Some)
        &&& !(self.released_at is Some && self.resolved_at is Some)
        &&& (self.locked_at is Some ==> self.status != EscrowStatus::Created)
    }

    /// Every recorded timestamp lies between the record's creation and the
    /// ledger's current time `now`.
    pub open spec fn times_wf(self, now: u64) -> bool {
        &&& self.created_at <= now
        &&& (self.locked_at matches Some(t) ==> self.created_at <= t <= now)
        &&& (self.released_at matches Some(t) ==> self.created_at <= t <= now)
        &&& (self.resolved_at matches Some(t) ==> self.created_at <= t <= now)
    }

    /// A field-for-field copy of the record.
    pub fn snapshot(&self) -> (r: Escrow)
        ensures
            r == *self,
    {
        Escrow {
            order_id: self.order_id.clone(),
            buyer: self.buyer,
            seller: self.seller,
            amount: self.amount,
            status: self.status,
            custody_location: self.custody_location.clone(),
            created_at: self.created_at,
            locked_at: self.locked_at,
            released_at: self.released_at,
            resolved_at: self.resolved_at,
        }
    }
}

/// The record a fresh `create_escrow` commit produces.
pub open spec fn created_escrow(
    order_id: String,
    buyer: AccountId,
    seller: AccountId,
    amount: u64,
    fund_on_create: bool,
    t: u64,
) -> Escrow {
    Escrow {
        order_id: order_id,
        buyer: buyer,
        seller: seller,
        amount: amount,
        status: if fund_on_create {
            EscrowStatus::Locked
        } else {
            EscrowStatus::Created
        },
        custody_location: order_id,
        created_at: t,
        locked_at: None,
        released_at: None,
        resolved_at: None,
    }
}

/// The record an operation's commit at time `t` turns `rec` into: the
/// target status, plus the operation's write-once timestamp.
pub open spec fn applied(op: OpKind, rec: Escrow, t: u64) -> Escrow {
    Escrow {
        order_id: rec.order_id,
        buyer: rec.buyer,
        seller: rec.seller,
        amount: rec.amount,
        status: target_status(op),
        custody_location: rec.custody_location,
        created_at: rec.created_at,
        locked_at: if op == OpKind::LockForDispute {
            Some(t)
        } else {
            rec.locked_at
        },
        released_at: if op == OpKind::ConfirmRelease {
            Some(t)
        } else {
            rec.released_at
        },
        resolved_at: if op == OpKind::ResolveRefund || op == OpKind::ResolveRelease {
            Some(t)
        } else {
            rec.resolved_at
        },
    }
}

/// What holds of the funds and the record set when an operation's
/// precondition verdict came up empty and the operation went on to its
/// fund movement and commit.
pub open spec fn op_moves(
    pre: EscrowEngine,
    post: EscrowEngine,
    op: OpKind,
    oid: Seq<char>,
    r: Result<Escrow, EscrowError>,
    rec: Escrow,
    new_rec: Escrow,
) -> bool {
    match payee(op, rec.buyer, rec.seller) {
        Some(p) => {
            &&& (r == Err::<Escrow, EscrowError>(
                EscrowError::TransferFailed(TransferError::Faulted),
            ) <==> pre.spec_ledger().transfers_fail())
            &&& (r == Err::<Escrow, EscrowError>(
                EscrowError::TransferFailed(TransferError::ReceiverOverflow),
            ) <==> !pre.spec_ledger().transfers_fail() && pre.spec_ledger().party_balance(p)
                + rec.amount > u64::MAX)
            &&& (r is Ok <==> !pre.spec_ledger().transfers_fail() && pre.spec_ledger().party_balance(
                p,
            ) + rec.amount <= u64::MAX)
            &&& (r is Ok ==> {
                &&& post.spec_records() == pre.spec_records().update(pre.order_index(oid), new_rec)
                &&& r->Ok_0 == new_rec
                &&& post.spec_ledger().custody_holding(oid) == 0
                &&& post.spec_ledger().party_balance(p) == pre.spec_ledger().party_balance(p)
                    + rec.amount
                &&& forall|b: AccountId|
                    b != p ==> #[trigger] post.spec_ledger().party_balance(b)
                        == pre.spec_ledger().party_balance(b)
                &&& forall|k: Seq<char>|
                    k != oid ==> #[trigger] post.spec_ledger().custody_holding(k)
                        == pre.spec_ledger().custody_holding(k)
            })
        },
        None => {
            &&& r is Ok
            &&& post.spec_records() == pre.spec_records().update(pre.order_index(oid), new_rec)
            &&& r->Ok_0 == new_rec
            &&& post.spec_ledger() == pre.spec_ledger()
        },
    }
}

/// What holds once the record for `oid` was found: the precondition
/// verdict of `decide` maps one-to-one onto the returned error, and an
/// empty verdict leads to `op_moves`.
pub open spec fn op_outcome(
    pre: EscrowEngine,
    post: EscrowEngine,
    op: OpKind,
    caller: AccountId,
    oid: Seq<char>,
    r: Result<Escrow, EscrowError>,
) -> bool {
    let rec = pre.record_of(oid);
    let d = decide(
        op,
        pre.spec_config().resolution_policy,
        pre.spec_admin(),
        rec.buyer,
        rec.seller,
        rec.status,
        caller,
    );
    let new_rec = applied(op, rec, pre.spec_ledger().time());
    &&& (r == Err::<Escrow, EscrowError>(EscrowError::Unauthorized) <==> d == Some(
        EscrowError::Unauthorized,
    ))
    &&& (r == Err::<Escrow, EscrowError>(EscrowError::InvalidState) <==> d == Some(
        EscrowError::InvalidState,
    ))
    &&& (d is None ==> op_moves(pre, post, op, oid, r, rec, new_rec))
}

/// The full contract of one mutating operation on an existing record:
/// configuration, admin, clock and fault switch never change; an error
/// leaves the engine exactly as it was; `NotFound` is returned precisely
/// for unknown orders; and for a known order the outcome follows the
/// precondition verdict.
pub open spec fn op_contract(
    pre: EscrowEngine,
    post: EscrowEngine,
    op: OpKind,
    caller: AccountId,
    oid: Seq<char>,
    r: Result<Escrow, EscrowError>,
) -> bool {
    &&& post.spec_config() == pre.spec_config()
    &&& post.spec_admin() == pre.spec_admin()
    &&& post.spec_ledger().time() == pre.spec_ledger().time()
    &&& post.spec_ledger().transfers_fail() == pre.spec_ledger().transfers_fail()
    &&& (r is Err ==> post == pre)
    &&& (r == Err::<Escrow, EscrowError>(EscrowError::NotFound) <==> !pre.has_order(oid))
    &&& (pre.has_order(oid) ==> op_outcome(pre, post, op, caller, oid, r))
}

/// The records among the first `n` of `s` whose buyer is `buyer`, in
/// order.
pub open spec fn buyer_prefix(s: Seq<Escrow>, buyer: AccountId, n: int) -> Seq<Escrow>
    decreases n,
{
    if n <= 0 {
        Seq::empty()
    } else if s[n - 1].buyer == buyer {
        buyer_prefix(s, buyer, n - 1).push(s[n - 1])
    } else {
        buyer_prefix(s, buyer, n - 1)
    }
}

/// Status trajectories follow the transition graph: whatever a mutating
/// operation returned, every record's status afterwards is either
/// unchanged or exactly one legal step beyond its status before the call.
/// In particular no observable sequence ever skips straight from
/// `Created` to `Refunded`.
pub proof fn lemma_statuses_follow_graph(
    pre: EscrowEngine,
    post: EscrowEngine,
    op: OpKind,
    caller: AccountId,
    oid: Seq<char>,
    r: Result<Escrow, EscrowError>,
)
    requires
        pre.wf(),
        op_contract(pre, post, op, caller, oid, r),
    ensures
        post.spec_records().len() == pre.spec_records().len(),
        forall|j: int|
            0 <= j < pre.spec_records().len() ==> (#[trigger] post.spec_records()[j]).status
                == pre.spec_records()[j].status || step_allowed(
                pre.spec_records()[j].status,
                post.spec_records()[j].status,
            ),
{
    if r is Ok {
        assert(pre.has_order(oid));
        let i = pre.order_index(oid);
        assert(0 <= i < pre.spec_records().len() && pre.spec_records()[i].order_id@ == oid);
        let rec = pre.record_of(oid);
        let d = decide(
            op,
            pre.spec_config().resolution_policy,
            pre.spec_admin(),
            rec.buyer,
            rec.seller,
            rec.status,
            caller,
        );
        assert(d is None);
        lemma_ops_follow_graph(op, rec.status);
        assert(post.spec_records() == pre.spec_records().update(
            i,
            applied(op, rec, pre.spec_ledger().time()),
        ));
    }
}

/// A committed operation cannot be replayed: in the engine as a
/// successful operation left it, the same operation by the same caller on
/// the same order is rejected as `InvalidState` — never a silent second
/// success.
pub proof fn lemma_engine_replay_rejected(
    pre: EscrowEngine,
    post: EscrowEngine,
    op: OpKind,
    caller: AccountId,
    oid: Seq<char>,
    r: Result<Escrow, EscrowError>,
)
    requires
        pre.wf(),
        post.wf(),
        op_contract(pre, post, op, caller, oid, r),
        r is Ok,
    ensures
        post.has_order(oid),
        decide(
            op,
            post.spec_config().resolution_policy,
            post.spec_admin(),
            post.record_of(oid).buyer,
            post.record_of(oid).seller,
            post.record_of(oid).status,
            caller,
        ) == Some(EscrowError::InvalidState),
{
    assert(pre.has_order(oid));
    let i = pre.order_index(oid);
    assert(0 <= i < pre.spec_records().len() && pre.spec_records()[i].order_id@ == oid);
    let rec = pre.record_of(oid);
    let d = decide(
        op,
        pre.spec_config().resolution_policy,
        pre.spec_admin(),
        rec.buyer,
        rec.seller,
        rec.status,
        caller,
    );
    assert(d is None);
    let new_rec = applied(op, rec, pre.spec_ledger().time());
    assert(post.spec_records() == pre.spec_records().update(i, new_rec));
    assert(post.spec_records()[i] == new_rec);
    post.lemma_record_at(i);
    lemma_replay_rejected(
        op,
        pre.spec_config().resolution_policy,
        pre.spec_admin(),
        rec.buyer,
        rec.seller,
        caller,
        rec.status,
    );
}

/// Authorization at the engine level: whatever the record's status, a
/// caller who is neither one of its counterparties nor the admin receives
/// `Unauthorized` from every mutating operation, and the engine is left
/// exactly as it was.
pub proof fn lemma_engine_stranger_rejected(
    pre: EscrowEngine,
    post: EscrowEngine,
    op: OpKind,
    caller: AccountId,
    oid: Seq<char>,
    r: Result<Escrow, EscrowError>,
)
    requires
        pre.wf(),
        op_contract(pre, post, op, caller, oid, r),
        pre.has_order(oid),
        caller != pre.record_of(oid).buyer,
        caller != pre.record_of(oid).seller,
        caller != pre.spec_admin(),
    ensures
        r == Err::<Escrow, EscrowError>(EscrowError::Unauthorized),
        post == pre,
{
    let rec = pre.record_of(oid);
    crate::policy::lemma_stranger_always_unauthorized(
        op,
        pre.spec_config().resolution_policy,
        pre.spec_admin(),
        rec.buyer,
        rec.seller,
        rec.status,
        caller,
    );
}

/// The escrow engine: the configuration and admin fixed at construction,
/// the ledger it moves funds on, and the record set keyed by order
/// identifier.
pub struct EscrowEngine {
    config: EscrowConfig,
    admin: AccountId,
    ledger: Ledger,
    escrows: Vec<Escrow>,
}

impl EscrowEngine {
    /// The engine's configuration.
    pub closed spec fn spec_config(self) -> EscrowConfig {
        self.config
    }

    /// The admin account configured at construction.
    pub closed spec fn spec_admin(self) -> AccountId {
        self.admin
    }

    /// The ledger the engine moves funds on.
    pub closed spec fn spec_ledger(self) -> Ledger {
        self.ledger
    }

    /// The record set, in creation order.
    pub closed spec fn spec_records(self) -> Seq<Escrow> {
        self.escrows@
    }

    /// Whether a record exists for the order identifier `k`.
    pub open spec fn has_order(self, k: Seq<char>) -> bool {
        exists|i: int|
            0 <= i < self.spec_records().len() && (#[trigger] self.spec_records()[i]).order_id@
                == k
    }

    /// The position of the record for `k` (meaningful when `has_order(k)`
    /// holds; unique under `wf`).
    pub open spec fn order_index(self, k: Seq<char>) -> int {
        choose|i: int|
            0 <= i < self.spec_records().len() && (#[trigger] self.spec_records()[i]).order_id@
                == k
    }

    /// The record for `k` (meaningful when `has_order(k)` holds).
    pub open spec fn record_of(self, k: Seq<char>) -> Escrow {
        self.spec_records()[self.order_index(k)]
    }

    /// The engine's invariant, established by `new` and preserved by every
    /// operation: order identifiers are unique; every record is
    /// structurally consistent with timestamps no later than the ledger's
    /// clock; custody of each live order holds exactly the record's
    /// amount, custody of each terminated order holds nothing; and no
    /// value sits in custody for an order the engine does not know.
    pub closed spec fn wf(self) -> bool {
        &&& forall|i: int, j: int|
            0 <= i < j < self.escrows@.len() ==> (#[trigger] self.escrows@[i]).order_id@ != (
            #[trigger] self.escrows@[j]).order_id@
        &&& forall|i: int|
            0 <= i < self.escrows@.len() ==> (#[trigger] self.escrows@[i]).rec_wf()
                && self.escrows@[i].times_wf(self.ledger.time())
        &&& forall|i: int|
            0 <= i < self.escrows@.len() ==> self.ledger.custody_holding(
                (#[trigger] self.escrows@[i]).order_id@,
            ) == (if self.escrows@[i].status.is_terminal() {
                0u64
            } else {
                self.escrows@[i].amount
            })
        &&& forall|k: Seq<char>|
            !self.has_order(k) ==> #[trigger] self.ledger.custody_holding(k) == 0
    }

    /// A fresh engine: no records, every balance zero, clock at zero.
    pub fn new(admin: AccountId, config: EscrowConfig) -> (r: EscrowEngine)
        ensures
            r.wf(),
            r.spec_admin() == admin,
            r.spec_config() == config,
            r.spec_records() == Seq::<Escrow>::empty(),
            r.spec_ledger().time() == 0,
            !r.spec_ledger().transfers_fail(),
            forall|a: AccountId| #[trigger] r.spec_ledger().party_balance(a) == 0,
    {
        let r = EscrowEngine { config, admin, ledger: Ledger::new(), escrows: Vec::new() };
        proof {
            assert(r.escrows@ =~= Seq::<Escrow>::empty());
        }
        r
    }

    /// Read access to the ledger, e.g. to inspect balances.
    pub fn ledger(&self) -> (r: &Ledger)
        ensures
            *r == self.spec_ledger(),
    {
        &self.ledger
    }

    /// The admin account.
    pub fn admin(&self) -> (r: AccountId)
        ensures
            r == self.spec_admin(),
    {
        self.admin
    }

    /// The configuration.
    pub fn config(&self) -> (r: EscrowConfig)
        ensures
            r == self.spec_config(),
    {
        self.config
    }

    /// The number of records the engine holds.
    pub fn record_count(&self) -> (r: usize)
        ensures
            r == self.spec_records().len(),
    {
        self.escrows.len()
    }

    fn find_order(&self, k: &String) -> (r: Option<usize>)
        ensures
            match r {
                Some(i) => i < self.spec_records().len() && self.spec_records()[i as int].order_id@
                    == k@,
                None => !self.has_order(k@),
            },
    {
        let n = self.escrows.len();
        let mut i: usize = 0;
        while i < n
            invariant
                n == self.escrows@.len(),
                i <= n,
                forall|j: int| 0 <= j < i ==> (#[trigger] self.escrows@[j]).order_id@ != k@,
            decreases n - i,
        {
            if self.escrows[i].order_id == *k {
                return Some(i);
            }
            i = i + 1;
        }
        None
    }

    /// Under the engine invariant, order identifiers are unique, so the
    /// record at position `i` is exactly the record looked up under its
    /// own identifier.
    pub proof fn lemma_record_at(self, i: int)
        requires
            self.wf(),
            0 <= i < self.spec_records().len(),
        ensures
            self.has_order(self.spec_records()[i].order_id@),
            self.order_index(self.spec_records()[i].order_id@) == i,
            self.record_of(self.spec_records()[i].order_id@) == self.spec_records()[i],
    {
        let k = self.spec_records()[i].order_id@;
        assert(0 <= i < self.spec_records().len() && (#[trigger] self.spec_records()[i]).order_id@
            == k);
        let j = self.order_index(k);
        if i != j {
            if i < j {
                assert(self.escrows@[i].order_id@ != self.escrows@[j].order_id@);
            } else {
                assert(self.escrows@[j].order_id@ != self.escrows@[i].order_id@);
            }
        }
    }

    /// Create the escrow for an order: allocate the record and move the
    /// amount from the caller (the buyer) into the order's custody
    /// location, atomically.  A record never exists without its backing
    /// funds, whichever creation policy is configured; the configuration
    /// decides only the entry state — `Locked` with `fund_on_create`,
    /// else `Created`, from which the explicit lock step merely advances
    /// the status.  On any error — including a failed inbound transfer —
    /// the engine is unchanged.
    pub fn create_escrow(
        &mut self,
        caller: AccountId,
        order_id: String,
        seller: AccountId,
        amount: u64,
    ) -> (r: Result<Escrow, EscrowError>)
        requires
            old(self).wf(),
            order_id@.len() <= MAX_ORDER_ID_LEN,
        ensures
            final(self).wf(),
            final(self).spec_config() == old(self).spec_config(),
            final(self).spec_admin() == old(self).spec_admin(),
            final(self).spec_ledger().time() == old(self).spec_ledger().time(),
            final(self).spec_ledger().transfers_fail() == old(self).spec_ledger().transfers_fail(),
            r is Err ==> *final(self) == *old(self),
            r == Err::<Escrow, EscrowError>(EscrowError::AlreadyExists) <==> old(self).has_order(
                order_id@,
            ),
            r == Err::<Escrow, EscrowError>(EscrowError::TransferFailed(TransferError::Faulted))
                <==> !old(self).has_order(order_id@) && old(self).spec_ledger().transfers_fail(),
            r == Err::<Escrow, EscrowError>(
                EscrowError::TransferFailed(TransferError::InsufficientFunds),
            ) <==> !old(self).has_order(order_id@) && !old(self).spec_ledger().transfers_fail()
                && old(self).spec_ledger().party_balance(caller) < amount,
            r is Ok <==> !old(self).has_order(order_id@) && !old(self).spec_ledger().transfers_fail()
                && old(self).spec_ledger().party_balance(caller) >= amount,
            r is Ok ==> ({
                let rec = created_escrow(
                    order_id,
                    caller,
                    seller,
                    amount,
                    old(self).spec_config().fund_on_create,
                    old(self).spec_ledger().time(),
                );
                &&& final(self).spec_records() == old(self).spec_records().push(rec)
                &&& r->Ok_0 == rec
                &&& final(self).spec_ledger().party_balance(caller) == old(
                    self,
                ).spec_ledger().party_balance(caller) - amount
                &&& final(self).spec_ledger().custody_holding(order_id@) == amount
                &&& forall|b: AccountId|
                    b != caller ==> #[trigger] final(self).spec_ledger().party_balance(b) == old(
                        self,
                    ).spec_ledger().party_balance(b)
                &&& forall|k: Seq<char>|
                    k != order_id@ ==> #[trigger] final(self).spec_ledger().custody_holding(k)
                        == old(self).spec_ledger().custody_holding(k)
            }),
    {
        match self.find_order(&order_id) {
            Some(_) => Err(EscrowError::AlreadyExists),
            None => {
                match self.ledger.transfer_in(caller, &order_id, amount) {
                    Err(e) => Err(EscrowError::TransferFailed(e)),
                    Ok(()) => {
                        let custody_location = order_id.clone();
                        let now = self.ledger.now();
                        let fund = self.config.fund_on_create;
                        let rec = Escrow {
                            order_id,
                            buyer: caller,
                            seller,
                            amount,
                            status: if fund {
                                EscrowStatus::Locked
                            } else {
                                EscrowStatus::Created
                            },
                            custody_location,
                            created_at: now,
                            locked_at: None,
                            released_at: None,
                            resolved_at: None,
                        };
                        let snap = rec.snapshot();
                        let ghost pre = *old(self);
                        let ghost oid = rec.order_id@;
                        self.escrows.push(rec);
                        proof {
                            let post = *self;
                            assert forall|k: Seq<char>| !post.has_order(k) implies #[trigger] post.ledger.custody_holding(
                                k,
                            ) == 0 by {
                                assert(forall|i: int|
                                    0 <= i < pre.escrows@.len() ==> post.escrows@[i]
                                        == pre.escrows@[i]);
                                assert(!pre.has_order(k));
                                assert(k != oid) by {
                                    assert(post.escrows@[pre.escrows@.len() as int].order_id@
                                        == oid);
                                }
                            }
                            assert(post.wf());
                        }
                        Ok(snap)
                    },
                }
            },
        }
    }

    /// Put value on the ledger into a party's account, e.g. to fund a
    /// buyer before creating an escrow.  Fails only when the balance would
    /// overflow, in which case nothing changes.
    pub fn fund_party(&mut self, a: AccountId, amount: u64) -> (r: Result<(), TransferError>)
        requires
            old(self).wf(),
        ensures
            final(self).wf(),
            final(self).spec_config() == old(self).spec_config(),
            final(self).spec_admin() == old(self).spec_admin(),
            final(self).spec_records() == old(self).spec_records(),
            final(self).spec_ledger().time() == old(self).spec_ledger().time(),
            final(self).spec_ledger().transfers_fail() == old(self).spec_ledger().transfers_fail(),
            r is Ok <==> old(self).spec_ledger().party_balance(a) + amount <= u64::MAX,
            r is Err ==> *final(self) == *old(self),
            r is Ok ==> final(self).spec_ledger().party_balance(a) == old(
                self,
            ).spec_ledger().party_balance(a) + amount,
            forall|b: AccountId|
                b != a ==> #[trigger] final(self).spec_ledger().party_balance(b) == old(
                    self,
                ).spec_ledger().party_balance(b),
            forall|k: Seq<char>|
                #[trigger] final(self).spec_ledger().custody_holding(k) == old(
                    self,
                ).spec_ledger().custody_holding(k),
    {
        let r = self.ledger.credit(a, amount);
        proof {
            assert(self.wf());
        }
        r
    }

    /// Advance the ledger's clock; time never moves backwards.
    pub fn advance_time(&mut self, delta: u64)
        requires
            old(self).wf(),
            old(self).spec_ledger().time() + delta <= u64::MAX,
        ensures
            final(self).wf(),
            final(self).spec_config() == old(self).spec_config(),
            final(self).spec_admin() == old(self).spec_admin(),
            final(self).spec_records() == old(self).spec_records(),
            final(self).spec_ledger().time() == old(self).spec_ledger().time() + delta,
            final(self).spec_ledger().transfers_fail() == old(self).spec_ledger().transfers_fail(),
            forall|a: AccountId|
                #[trigger] final(self).spec_ledger().party_balance(a) == old(
                    self,
                ).spec_ledger().party_balance(a),
            forall|k: Seq<char>|
                #[trigger] final(self).spec_ledger().custody_holding(k) == old(
                    self,
                ).spec_ledger().custody_holding(k),
    {
        self.ledger.advance_time(delta);
        proof {
            assert(self.wf());
        }
    }

    /// Make every following ledger transfer fail (or succeed again):
    /// fault injection for exercising the atomicity guarantees.
    pub fn set_fail_transfers(&mut self, fail: bool)
        requires
            old(self).wf(),
        ensures
            final(self).wf(),
            final(self).spec_config() == old(self).spec_config(),
            final(self).spec_admin() == old(self).spec_admin(),
            final(self).spec_records() == old(self).spec_records(),
            final(self).spec_ledger().time() == old(self).spec_ledger().time(),
            final(self).spec_ledger().transfers_fail() == fail,
            forall|a: AccountId|
                #[trigger] final(self).spec_ledger().party_balance(a) == old(
                    self,
                ).spec_ledger().party_balance(a),
            forall|k: Seq<char>|
                #[trigger] final(self).spec_ledger().custody_holding(k) == old(
                    self,
                ).spec_ledger().custody_holding(k),
    {
        self.ledger.set_fail_transfers(fail);
        proof {
            assert(self.wf());
        }
    }

    fn apply(&mut self, op: OpKind, caller: AccountId, order_id: &String) -> (r: Result<
        Escrow,
        EscrowError,
    >)
        requires
            old(self).wf(),
        ensures
            final(self).wf(),
            op_contract(*old(self), *final(self), op, caller, order_id@, r),
    {
        let ghost pre = *old(self);
        let ghost oid = order_id@;
        let i = match self.find_order(order_id) {
            None => {
                return Err(EscrowError::NotFound);
            },
            Some(i) => i,
        };
        proof {
            pre.lemma_record_at(i as int);
        }
        let buyer = self.escrows[i].buyer;
        let seller = self.escrows[i].seller;
        let amount = self.escrows[i].amount;
        let st = self.escrows[i].status;
        let policy = self.config.resolution_policy;
        let admin = self.admin;
        if !check_candidate_caller(op, policy, admin, buyer, seller, caller) {
            return Err(EscrowError::Unauthorized);
        }
        if !check_allowed_from(op, st) {
            return Err(EscrowError::InvalidState);
        }
        if !check_authorized(op, policy, admin, buyer, seller, st, caller) {
            return Err(EscrowError::Unauthorized);
        }
        match check_payee(op, buyer, seller) {
            Some(p) => {
                match self.ledger.transfer_out(order_id, p, amount) {
                    Err(e) => {
                        return Err(EscrowError::TransferFailed(e));
                    },
                    Ok(()) => {},
                }
            },
            None => {},
        }
        let now = self.ledger.now();
        let new_rec = Escrow {
            order_id: self.escrows[i].order_id.clone(),
            buyer: buyer,
            seller: seller,
            amount: amount,
            status: check_target_status(op),
            custody_location: self.escrows[i].custody_location.clone(),
            created_at: self.escrows[i].created_at,
            locked_at: if op == OpKind::LockForDispute {
                Some(now)
            } else {
                self.escrows[i].locked_at
            },
            released_at: if op == OpKind::ConfirmRelease {
                Some(now)
            } else {
                self.escrows[i].released_at
            },
            resolved_at: if op == OpKind::ResolveRefund || op == OpKind::ResolveRelease {
                Some(now)
            } else {
                self.escrows[i].resolved_at
            },
        };
        let snap = new_rec.snapshot();
        self.escrows.set(i, new_rec);
        proof {
            let post = *self;
            let rec = pre.spec_records()[i as int];
            assert(new_rec == applied(op, rec, pre.spec_ledger().time()));
            // Uniqueness: every other record keeps its identifier, custody
            // and status, so the engine invariant carries over.
            assert forall|j: int|
                0 <= j < post.escrows@.len() && j != i implies post.escrows@[j]
                == pre.escrows@[j] by {}
            assert forall|k: Seq<char>| !post.has_order(k) implies #[trigger] post.ledger.custody_holding(
                k,
            ) == 0 by {
                assert(!pre.has_order(k)) by {
                    if pre.has_order(k) {
                        let w = choose|w: int|
                            0 <= w < pre.spec_records().len() && (#[trigger] pre.spec_records()[w]).order_id@
                                == k;
                        assert((#[trigger] post.spec_records()[w]).order_id@ == k);
                    }
                }
                assert(k != oid) by {
                    assert((#[trigger] post.spec_records()[i as int]).order_id@ == oid);
                }
            }
            assert(post.wf());
        }
        Ok(snap)
    }

    /// The buyer confirms delivery: the full amount moves from custody to
    /// the seller and the record enters `Released`, with `released_at`
    /// recorded — atomically, or not at all.
    pub fn confirm_release(&mut self, caller: AccountId, order_id: &String) -> (r: Result<
        Escrow,
        EscrowError,
    >)
        requires
            old(self).wf(),
        ensures
            final(self).wf(),
            op_contract(*old(self), *final(self), OpKind::ConfirmRelease, caller, order_id@, r),
    {
        self.apply(OpKind::ConfirmRelease, caller, order_id)
    }

    /// The buyer locks a freshly created escrow; no funds move and the
    /// record enters `Locked`, with `locked_at` recorded.
    pub fn lock_for_dispute(&mut self, caller: AccountId, order_id: &String) -> (r: Result<
        Escrow,
        EscrowError,
    >)
        requires
            old(self).wf(),
        ensures
            final(self).wf(),
            op_contract(*old(self), *final(self), OpKind::LockForDispute, caller, order_id@, r),
    {
        self.apply(OpKind::LockForDispute, caller, order_id)
    }

    /// The buyer or the seller flags a locked escrow as disputed; no funds
    /// move and the record enters `Disputed`.
    pub fn flag_dispute(&mut self, caller: AccountId, order_id: &String) -> (r: Result<
        Escrow,
        EscrowError,
    >)
        requires
            old(self).wf(),
        ensures
            final(self).wf(),
            op_contract(*old(self), *final(self), OpKind::FlagDispute, caller, order_id@, r),
    {
        self.apply(OpKind::FlagDispute, caller, order_id)
    }

    /// Resolution in the buyer's favour: the full amount moves from
    /// custody back to the buyer and the record enters `Refunded`, with
    /// `resolved_at` recorded — atomically, or not at all.
    pub fn resolve_refund(&mut self, caller: AccountId, order_id: &String) -> (r: Result<
        Escrow,
        EscrowError,
    >)
        requires
            old(self).wf(),
        ensures
            final(self).wf(),
            op_contract(*old(self), *final(self), OpKind::ResolveRefund, caller, order_id@, r),
    {
        self.apply(OpKind::ResolveRefund, caller, order_id)
    }

    /// Resolution in the seller's favour: the full amount moves from
    /// custody to the seller and the record enters `Released`, with
    /// `resolved_at` recorded — atomically, or not at all.
    pub fn resolve_release(&mut self, caller: AccountId, order_id: &String) -> (r: Result<
        Escrow,
        EscrowError,
    >)
        requires
            old(self).wf(),
        ensures
            final(self).wf(),
            op_contract(*old(self), *final(self), OpKind::ResolveRelease, caller, order_id@, r),
    {
        self.apply(OpKind::ResolveRelease, caller, order_id)
    }

    /// All escrow records with the given buyer, in creation order, as a
    /// point-in-time snapshot.
    pub fn get_escrows_by_buyer(&self, buyer: AccountId) -> (r: Vec<Escrow>)
        requires
            self.wf(),
        ensures
            r@ == buyer_prefix(self.spec_records(), buyer, self.spec_records().len() as int),
    {
        let n = self.escrows.len();
        let mut r: Vec<Escrow> = Vec::new();
        let mut i: usize = 0;
        while i < n
            invariant
                n == self.escrows@.len(),
                i <= n,
                r@ == buyer_prefix(self.spec_records(), buyer, i as int),
            decreases n - i,
        {
            if self.escrows[i].buyer == buyer {
                r.push(self.escrows[i].snapshot());
            }
            i = i + 1;
        }
        r
    }

    /// Conservation of custody: under the engine invariant, the custody
    /// location of every record holds exactly the record's amount while
    /// the record is non-terminal, and exactly zero once it is terminal.
    pub proof fn lemma_custody_conservation(self, i: int)
        requires
            self.wf(),
            0 <= i < self.spec_records().len(),
        ensures
            self.spec_ledger().custody_holding(self.spec_records()[i].order_id@) == (
            if self.spec_records()[i].status.is_terminal() {
                0u64
            } else {
                self.spec_records()[i].amount
            }),
    {
    }

    /// No custody location of an unknown order holds anything: value only
    /// ever sits in custody for an order the engine tracks.
    pub proof fn lemma_unknown_custody_empty(self, k: Seq<char>)
        requires
            self.wf(),
            !self.has_order(k),
        ensures
            self.spec_ledger().custody_holding(k) == 0,
    {
    }

    /// The write-once timestamp discipline: under the engine invariant,
    /// every record's timestamps are consistent with its status — a
    /// timestamp is set exactly when the transition it records has
    /// committed — and none lies outside the window between the record's
    /// creation and the ledger's current time.
    pub proof fn lemma_timestamps_wf(self, i: int)
        requires
            self.wf(),
            0 <= i < self.spec_records().len(),
        ensures
            self.spec_records()[i].rec_wf(),
            self.spec_records()[i].times_wf(self.spec_ledger().time()),
    {
    }

    /// Look up the record for an order and return a copy of it.
    pub fn get_escrow(&self, order_id: &String) -> (r: Result<Escrow, EscrowError>)
        requires
            self.wf(),
        ensures
            r is Ok <==> self.has_order(order_id@),
            r is Ok ==> r->Ok_0 == self.record_of(order_id@),
            r is Err ==> r == Err::<Escrow, EscrowError>(EscrowError::NotFound),
    {
        match self.find_order(order_id) {
            Some(i) => {
                proof {
                    self.lemma_record_at(i as int);
                }
                Ok(self.escrows[i].snapshot())
            },
            None => Err(EscrowError::NotFound),
        }
    }
}

} // verus!
