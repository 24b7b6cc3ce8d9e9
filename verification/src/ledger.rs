//! The ledger model: party balances, per-order custody balances, a monotonic
//! clock, and a fault-injection switch for transfers.
//!
//! The escrow engine never touches balances directly; it asks the ledger to
//! move value between a party account and an order's custody location.  Every
//! movement is all-or-nothing: when a transfer reports an error, no balance
//! has changed.  The custody location of an order is derived from the order
//! identifier itself, which makes the derivation deterministic and trivially
//! collision-free across orders.

use vstd::prelude::*;

use crate::errors::TransferError;

verus! {

/// A party account on the ledger (a buyer, a seller, an admin).
pub type AccountId = u64;

/// First-match balance lookup in a sequence of `(account, balance)` entries;
/// an account with no entry has balance zero.
pub open spec fn party_bal(s: Seq<(AccountId, u64)>, a: AccountId) -> u64
    decreases s.len(),
{
    if s.len() == 0 {
        0u64
    } else if s[0].0 == a {
        s[0].1
    } else {
        party_bal(s.subrange(1, s.len() as int), a)
    }
}

/// First-match balance lookup in a sequence of `(order id, held amount)`
/// entries, keyed by the order identifier's character sequence.
pub open spec fn cust_bal(s: Seq<(String, u64)>, k: Seq<char>) -> u64
    decreases s.len(),
{
    if s.len() == 0 {
        0u64
    } else if s[0].0@ == k {
        s[0].1
    } else {
        cust_bal(s.subrange(1, s.len() as int), k)
    }
}

proof fn lemma_party_bal_found(s: Seq<(AccountId, u64)>, a: AccountId, i: int)
    requires
        0 <= i < s.len(),
        s[i].0 == a,
        forall|j: int| 0 <= j < i ==> s[j].0 != a,
    ensures
        party_bal(s, a) == s[i].1,
    decreases i,
{
    if i > 0 {
        let t = s.subrange(1, s.len() as int);
        assert(t[i - 1] == s[i]);
        assert forall|j: int| 0 <= j < i - 1 implies t[j].0 != a by {
            assert(t[j] == s[j + 1]);
        }
        lemma_party_bal_found(t, a, i - 1);
    }
}

proof fn lemma_party_bal_absent(s: Seq<(AccountId, u64)>, a: AccountId)
    requires
        forall|j: int| 0 <= j < s.len() ==> s[j].0 != a,
    ensures
        party_bal(s, a) == 0,
    decreases s.len(),
{
    if s.len() > 0 {
        let t = s.subrange(1, s.len() as int);
        assert forall|j: int| 0 <= j < t.len() implies t[j].0 != a by {
            assert(t[j] == s[j + 1]);
        }
        lemma_party_bal_absent(t, a);
    }
}

proof fn lemma_party_bal_update_frame(s: Seq<(AccountId, u64)>, i: int, e: (AccountId, u64), b: AccountId)
    requires
        0 <= i < s.len(),
        s[i].0 == e.0,
        b != e.0,
    ensures
        party_bal(s.update(i, e), b) == party_bal(s, b),
    decreases s.len(),
{
    let s2 = s.update(i, e);
    if i == 0 {
        assert(s2.subrange(1, s2.len() as int) =~= s.subrange(1, s.len() as int));
    } else {
        assert(s2[0] == s[0]);
        if s[0].0 != b {
            let t = s.subrange(1, s.len() as int);
            assert(s2.subrange(1, s2.len() as int) =~= t.update(i - 1, e));
            assert(t[i - 1] == s[i]);
            lemma_party_bal_update_frame(t, i - 1, e, b);
        }
    }
}

proof fn lemma_party_bal_push_frame(s: Seq<(AccountId, u64)>, e: (AccountId, u64), b: AccountId)
    requires
        b != e.0,
    ensures
        party_bal(s.push(e), b) == party_bal(s, b),
    decreases s.len(),
{
    let s2 = s.push(e);
    if s.len() == 0 {
        assert(s2[0] == e);
        assert(s2.subrange(1, 1) =~= Seq::<(AccountId, u64)>::empty());
        assert(party_bal(Seq::<(AccountId, u64)>::empty(), b) == 0);
    } else {
        assert(s2[0] == s[0]);
        if s[0].0 != b {
            assert(s2.subrange(1, s2.len() as int) =~= s.subrange(1, s.len() as int).push(e));
            lemma_party_bal_push_frame(s.subrange(1, s.len() as int), e, b);
        }
    }
}

proof fn lemma_cust_bal_found(s: Seq<(String, u64)>, k: Seq<char>, i: int)
    requires
        0 <= i < s.len(),
        s[i].0@ == k,
        forall|j: int| 0 <= j < i ==> s[j].0@ != k,
    ensures
        cust_bal(s, k) == s[i].1,
    decreases i,
{
    if i > 0 {
        let t = s.subrange(1, s.len() as int);
        assert(t[i - 1] == s[i]);
        assert forall|j: int| 0 <= j < i - 1 implies t[j].0@ != k by {
            assert(t[j] == s[j + 1]);
        }
        lemma_cust_bal_found(t, k, i - 1);
    }
}

proof fn lemma_cust_bal_absent(s: Seq<(String, u64)>, k: Seq<char>)
    requires
        forall|j: int| 0 <= j < s.len() ==> s[j].0@ != k,
    ensures
        cust_bal(s, k) == 0,
    decreases s.len(),
{
    if s.len() > 0 {
        let t = s.subrange(1, s.len() as int);
        assert forall|j: int| 0 <= j < t.len() implies t[j].0@ != k by {
            assert(t[j] == s[j + 1]);
        }
        lemma_cust_bal_absent(t, k);
    }
}

proof fn lemma_cust_bal_update_frame(s: Seq<(String, u64)>, i: int, e: (String, u64), k: Seq<char>)
    requires
        0 <= i < s.len(),
        s[i].0@ == e.0@,
        k != e.0@,
    ensures
        cust_bal(s.update(i, e), k) == cust_bal(s, k),
    decreases s.len(),
{
    let s2 = s.update(i, e);
    if i == 0 {
        assert(s2.subrange(1, s2.len() as int) =~= s.subrange(1, s.len() as int));
    } else {
        assert(s2[0] == s[0]);
        if s[0].0@ != k {
            let t = s.subrange(1, s.len() as int);
            assert(s2.subrange(1, s2.len() as int) =~= t.update(i - 1, e));
            assert(t[i - 1] == s[i]);
            lemma_cust_bal_update_frame(t, i - 1, e, k);
        }
    }
}

proof fn lemma_cust_bal_push_frame(s: Seq<(String, u64)>, e: (String, u64), k: Seq<char>)
    requires
        k != e.0@,
    ensures
        cust_bal(s.push(e), k) == cust_bal(s, k),
    decreases s.len(),
{
    let s2 = s.push(e);
    if s.len() == 0 {
        assert(s2[0] == e);
        assert(s2.subrange(1, 1) =~= Seq::<(String, u64)>::empty());
        assert(cust_bal(Seq::<(String, u64)>::empty(), k) == 0);
    } else {
        assert(s2[0] == s[0]);
        if s[0].0@ != k {
            assert(s2.subrange(1, s2.len() as int) =~= s.subrange(1, s.len() as int).push(e));
            lemma_cust_bal_push_frame(s.subrange(1, s.len() as int), e, k);
        }
    }
}

/// The ledger: party balances, custody balances keyed by order identifier,
/// the current time, and the transfer fault-injection switch.
pub struct Ledger {
    parties: Vec<(AccountId, u64)>,
    custody: Vec<(String, u64)>,
    clock: u64,
    fail_transfers: bool,
}

impl Ledger {
    /// The balance of a party account; zero when the account has no entry.
    pub closed spec fn party_balance(self, a: AccountId) -> u64 {
        party_bal(self.parties@, a)
    }

    /// The amount held in custody for an order; zero when no custody entry
    /// exists for that order identifier.
    pub closed spec fn custody_holding(self, k: Seq<char>) -> u64 {
        cust_bal(self.custody@, k)
    }

    /// The ledger's current time.
    pub closed spec fn time(self) -> u64 {
        self.clock
    }

    /// Whether transfers are currently made to fail.
    pub closed spec fn transfers_fail(self) -> bool {
        self.fail_transfers
    }

    /// A fresh ledger: every balance zero, time zero, transfers succeeding.
    pub fn new() -> (r: Ledger)
        ensures
            forall|a: AccountId| #[trigger] r.party_balance(a) == 0,
            forall|k: Seq<char>| #[trigger] r.custody_holding(k) == 0,
            r.time() == 0,
            !r.transfers_fail(),
    {
        Ledger { parties: Vec::new(), custody: Vec::new(), clock: 0, fail_transfers: false }
    }

    fn find_party(&self, a: AccountId) -> (r: Option<usize>)
        ensures
            match r {
                Some(i) => i < self.parties@.len() && self.parties@[i as int].0 == a
                    && forall|j: int| 0 <= j < i ==> self.parties@[j].0 != a,
                None => forall|j: int| 0 <= j < self.parties@.len() ==> self.parties@[j].0 != a,
            },
    {
        let n = self.parties.len();
        let mut i: usize = 0;
        while i < n
            invariant
                n == self.parties@.len(),
                i <= n,
                forall|j: int| 0 <= j < i ==> self.parties@[j].0 != a,
            decreases n - i,
        {
            if self.parties[i].0 == a {
                return Some(i);
            }
            i = i + 1;
        }
        None
    }

    fn find_custody(&self, k: &String) -> (r: Option<usize>)
        ensures
            match r {
                Some(i) => i < self.custody@.len() && self.custody@[i as int].0@ == k@
                    && forall|j: int| 0 <= j < i ==> self.custody@[j].0@ != k@,
                None => forall|j: int| 0 <= j < self.custody@.len() ==> self.custody@[j].0@ != k@,
            },
    {
        let n = self.custody.len();
        let mut i: usize = 0;
        while i < n
            invariant
                n == self.custody@.len(),
                i <= n,
                forall|j: int| 0 <= j < i ==> self.custody@[j].0@ != k@,
            decreases n - i,
        {
            if self.custody[i].0 == *k {
                return Some(i);
            }
            i = i + 1;
        }
        None
    }

    /// Read a party account's balance.
    pub fn balance_of(&self, a: AccountId) -> (r: u64)
        ensures
            r == self.party_balance(a),
    {
        match self.find_party(a) {
            Some(i) => {
                proof {
                    lemma_party_bal_found(self.parties@, a, i as int);
                }
                self.parties[i].1
            },
            None => {
                proof {
                    lemma_party_bal_absent(self.parties@, a);
                }
                0
            },
        }
    }

    /// Read the amount held in custody for an order.
    pub fn custody_balance(&self, order_id: &String) -> (r: u64)
        ensures
            r == self.custody_holding(order_id@),
    {
        match self.find_custody(order_id) {
            Some(i) => {
                proof {
                    lemma_cust_bal_found(self.custody@, order_id@, i as int);
                }
                self.custody[i].1
            },
            None => {
                proof {
                    lemma_cust_bal_absent(self.custody@, order_id@);
                }
                0
            },
        }
    }

    /// Read the ledger's clock.
    pub fn now(&self) -> (r: u64)
        ensures
            r == self.time(),
    {
        self.clock
    }

    /// Advance the clock; time never moves backwards.
    pub fn advance_time(&mut self, delta: u64)
        requires
            old(self).time() + delta <= u64::MAX,
        ensures
            final(self).time() == old(self).time() + delta,
            forall|a: AccountId| #[trigger] final(self).party_balance(a) == old(self).party_balance(a),
            forall|k: Seq<char>| #[trigger] final(self).custody_holding(k) == old(self).custody_holding(k),
            final(self).transfers_fail() == old(self).transfers_fail(),
    {
        self.clock = self.clock + delta;
    }

    /// Make every following transfer fail (or succeed again): fault
    /// injection for exercising the engine's atomicity guarantees.
    pub fn set_fail_transfers(&mut self, fail: bool)
        ensures
            final(self).transfers_fail() == fail,
            final(self).time() == old(self).time(),
            forall|a: AccountId| #[trigger] final(self).party_balance(a) == old(self).party_balance(a),
            forall|k: Seq<char>| #[trigger] final(self).custody_holding(k) == old(self).custody_holding(k),
    {
        self.fail_transfers = fail;
    }

    /// Credit a party account with value from outside the ledger, e.g. to
    /// fund a buyer.  Fails only when the balance would overflow, in which
    /// case nothing changes.
    pub fn credit(&mut self, a: AccountId, amount: u64) -> (r: Result<(), TransferError>)
        ensures
            r is Ok <==> old(self).party_balance(a) + amount <= u64::MAX,
            r is Err ==> *final(self) == *old(self) && r == Err::<(), TransferError>(TransferError::ReceiverOverflow),
            r is Ok ==> final(self).party_balance(a) == old(self).party_balance(a) + amount,
            forall|b: AccountId| b != a ==> #[trigger] final(self).party_balance(b) == old(self).party_balance(b),
            forall|k: Seq<char>| #[trigger] final(self).custody_holding(k) == old(self).custody_holding(k),
            final(self).time() == old(self).time(),
            final(self).transfers_fail() == old(self).transfers_fail(),
    {
        match self.find_party(a) {
            Some(i) => {
                proof {
                    lemma_party_bal_found(self.parties@, a, i as int);
                }
                let cur = self.parties[i].1;
                if cur > u64::MAX - amount {
                    Err(TransferError::ReceiverOverflow)
                } else {
                    let ghost s = self.parties@;
                    self.parties.set(i, (a, cur + amount));
                    proof {
                        lemma_party_bal_found(self.parties@, a, i as int);
                        assert forall|b: AccountId| b != a implies #[trigger] party_bal(self.parties@, b) == party_bal(s, b) by {
                            lemma_party_bal_update_frame(s, i as int, (a, (cur + amount) as u64), b);
                        }
                    }
                    Ok(())
                }
            },
            None => {
                proof {
                    lemma_party_bal_absent(self.parties@, a);
                }
                let ghost s = self.parties@;
                self.parties.push((a, amount));
                proof {
                    lemma_party_bal_found(self.parties@, a, s.len() as int);
                    assert forall|b: AccountId| b != a implies #[trigger] party_bal(self.parties@, b) == party_bal(s, b) by {
                        lemma_party_bal_push_frame(s, (a, amount), b);
                    }
                }
                Ok(())
            },
        }
    }

    /// Move `amount` from a party account into an order's custody location.
    /// All-or-nothing: on any error no balance changes.
    pub fn transfer_in(&mut self, from: AccountId, order_id: &String, amount: u64) -> (r: Result<
        (),
        TransferError,
    >)
        ensures
            r is Err ==> *final(self) == *old(self),
            r == Err::<(), TransferError>(TransferError::Faulted) <==> old(self).transfers_fail(),
            r == Err::<(), TransferError>(TransferError::InsufficientFunds) <==> !old(self).transfers_fail()
                && old(self).party_balance(from) < amount,
            r == Err::<(), TransferError>(TransferError::ReceiverOverflow) <==> !old(self).transfers_fail()
                && old(self).party_balance(from) >= amount
                && old(self).custody_holding(order_id@) + amount > u64::MAX,
            r is Ok <==> !old(self).transfers_fail() && old(self).party_balance(from) >= amount
                && old(self).custody_holding(order_id@) + amount <= u64::MAX,
            r is Ok ==> final(self).party_balance(from) == old(self).party_balance(from) - amount
                && final(self).custody_holding(order_id@) == old(self).custody_holding(order_id@)
                + amount,
            forall|b: AccountId| b != from ==> #[trigger] final(self).party_balance(b) == old(self).party_balance(b),
            forall|k: Seq<char>| k != order_id@ ==> #[trigger] final(self).custody_holding(k) == old(
                self,
            ).custody_holding(k),
            final(self).time() == old(self).time(),
            final(self).transfers_fail() == old(self).transfers_fail(),
    {
        if self.fail_transfers {
            return Err(TransferError::Faulted);
        }
        let from_bal = self.balance_of(from);
        if from_bal < amount {
            return Err(TransferError::InsufficientFunds);
        }
        let held = self.custody_balance(order_id);
        if held > u64::MAX - amount {
            return Err(TransferError::ReceiverOverflow);
        }
        // Debit the party.
        match self.find_party(from) {
            Some(i) => {
                proof {
                    lemma_party_bal_found(self.parties@, from, i as int);
                }
                let ghost s = self.parties@;
                self.parties.set(i, (from, from_bal - amount));
                proof {
                    lemma_party_bal_found(self.parties@, from, i as int);
                    assert forall|b: AccountId| b != from implies #[trigger] party_bal(self.parties@, b)
                        == party_bal(s, b) by {
                        lemma_party_bal_update_frame(s, i as int, (from, (from_bal - amount) as u64), b);
                    }
                }
            },
            None => {
                proof {
                    lemma_party_bal_absent(self.parties@, from);
                }
                // Balance zero, so `amount` is zero as well.
                let ghost s = self.parties@;
                self.parties.push((from, 0));
                proof {
                    lemma_party_bal_found(self.parties@, from, s.len() as int);
                    assert forall|b: AccountId| b != from implies #[trigger] party_bal(self.parties@, b)
                        == party_bal(s, b) by {
                        lemma_party_bal_push_frame(s, (from, 0u64), b);
                    }
                }
            },
        }
        // Credit the custody location.
        match self.find_custody(order_id) {
            Some(i) => {
                proof {
                    lemma_cust_bal_found(self.custody@, order_id@, i as int);
                }
                let ghost s = self.custody@;
                let key = self.custody[i].0.clone();
                let cur = self.custody[i].1;
                self.custody.set(i, (key, cur + amount));
                proof {
                    lemma_cust_bal_found(self.custody@, order_id@, i as int);
                    assert forall|k: Seq<char>| k != order_id@ implies #[trigger] cust_bal(self.custody@, k)
                        == cust_bal(s, k) by {
                        lemma_cust_bal_update_frame(s, i as int, self.custody@[i as int], k);
                    }
                }
            },
            None => {
                proof {
                    lemma_cust_bal_absent(self.custody@, order_id@);
                }
                let ghost s = self.custody@;
                self.custody.push((order_id.clone(), amount));
                proof {
                    lemma_cust_bal_found(self.custody@, order_id@, s.len() as int);
                    assert forall|k: Seq<char>| k != order_id@ implies #[trigger] cust_bal(self.custody@, k)
                        == cust_bal(s, k) by {
                        lemma_cust_bal_push_frame(s, self.custody@[s.len() as int], k);
                    }
                }
            },
        }
        Ok(())
    }

    /// Move `amount` out of an order's custody location into a party
    /// account.  All-or-nothing: on any error no balance changes.
    pub fn transfer_out(&mut self, order_id: &String, to: AccountId, amount: u64) -> (r: Result<
        (),
        TransferError,
    >)
        ensures
            r is Err ==> *final(self) == *old(self),
            r == Err::<(), TransferError>(TransferError::Faulted) <==> old(self).transfers_fail(),
            r == Err::<(), TransferError>(TransferError::InsufficientFunds) <==> !old(self).transfers_fail()
                && old(self).custody_holding(order_id@) < amount,
            r == Err::<(), TransferError>(TransferError::ReceiverOverflow) <==> !old(self).transfers_fail()
                && old(self).custody_holding(order_id@) >= amount
                && old(self).party_balance(to) + amount > u64::MAX,
            r is Ok <==> !old(self).transfers_fail() && old(self).custody_holding(order_id@) >= amount
                && old(self).party_balance(to) + amount <= u64::MAX,
            r is Ok ==> final(self).custody_holding(order_id@) == old(self).custody_holding(order_id@)
                - amount && final(self).party_balance(to) == old(self).party_balance(to) + amount,
            forall|b: AccountId| b != to ==> #[trigger] final(self).party_balance(b) == old(self).party_balance(b),
            forall|k: Seq<char>| k != order_id@ ==> #[trigger] final(self).custody_holding(k) == old(
                self,
            ).custody_holding(k),
            final(self).time() == old(self).time(),
            final(self).transfers_fail() == old(self).transfers_fail(),
    {
        if self.fail_transfers {
            return Err(TransferError::Faulted);
        }
        let held = self.custody_balance(order_id);
        if held < amount {
            return Err(TransferError::InsufficientFunds);
        }
        let to_bal = self.balance_of(to);
        if to_bal > u64::MAX - amount {
            return Err(TransferError::ReceiverOverflow);
        }
        // Debit the custody location.
        match self.find_custody(order_id) {
            Some(i) => {
                proof {
                    lemma_cust_bal_found(self.custody@, order_id@, i as int);
                }
                let ghost s = self.custody@;
                let key = self.custody[i].0.clone();
                self.custody.set(i, (key, held - amount));
                proof {
                    lemma_cust_bal_found(self.custody@, order_id@, i as int);
                    assert forall|k: Seq<char>| k != order_id@ implies #[trigger] cust_bal(self.custody@, k)
                        == cust_bal(s, k) by {
                        lemma_cust_bal_update_frame(s, i as int, self.custody@[i as int], k);
                    }
                }
            },
            None => {
                proof {
                    lemma_cust_bal_absent(self.custody@, order_id@);
                }
                // Holding zero, so `amount` is zero as well.
                let ghost s = self.custody@;
                self.custody.push((order_id.clone(), 0));
                proof {
                    lemma_cust_bal_found(self.custody@, order_id@, s.len() as int);
                    assert forall|k: Seq<char>| k != order_id@ implies #[trigger] cust_bal(self.custody@, k)
                        == cust_bal(s, k) by {
                        lemma_cust_bal_push_frame(s, self.custody@[s.len() as int], k);
                    }
                }
            },
        }
        // Credit the party.
        match self.find_party(to) {
            Some(i) => {
                proof {
                    lemma_party_bal_found(self.parties@, to, i as int);
                }
                let ghost s = self.parties@;
                self.parties.set(i, (to, to_bal + amount));
                proof {
                    lemma_party_bal_found(self.parties@, to, i as int);
                    assert forall|b: AccountId| b != to implies #[trigger] party_bal(self.parties@, b)
                        == party_bal(s, b) by {
                        lemma_party_bal_update_frame(s, i as int, (to, (to_bal + amount) as u64), b);
                    }
                }
            },
            None => {
                proof {
                    lemma_party_bal_absent(self.parties@, to);
                }
                let ghost s = self.parties@;
                self.parties.push((to, amount));
                proof {
                    lemma_party_bal_found(self.parties@, to, s.len() as int);
                    assert forall|b: AccountId| b != to implies #[trigger] party_bal(self.parties@, b)
                        == party_bal(s, b) by {
                        lemma_party_bal_push_frame(s, (to, amount), b);
                    }
                }
            },
        }
        Ok(())
    }
}

} // verus!
