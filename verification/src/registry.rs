//! The product-token registry: mint, look up, verify and transfer
//! ownership records for physical products, keyed by token identifier and
//! by product serial number.
//!
//! Token identifiers are handed out sequentially, serial numbers are
//! unique, and every token carries an append-only ownership history whose
//! last entry always names the current owner.  The caller's identity and
//! the current time are passed in explicitly by the host.

use vstd::prelude::*;

use crate::errors::RegistryError;
use crate::ledger::AccountId;

verus! {

/// The descriptive metadata a product token carries.
#[derive(Debug, PartialEq)]
pub struct NFTMetadata {
    pub serial_number: String,
    pub product_name: String,
    pub manufacturer: String,
    pub manufacture_date: String,
    pub category: String,
    pub description: String,
    pub specifications: String,
    pub warranty_info: String,
    pub certifications: Vec<String>,
    pub ipfs_metadata_uri: String,
}

impl NFTMetadata {
    /// Field-for-field agreement, with the certification list compared
    /// element by element.
    pub open spec fn like(self, o: NFTMetadata) -> bool {
        &&& self.serial_number == o.serial_number
        &&& self.product_name == o.product_name
        &&& self.manufacturer == o.manufacturer
        &&& self.manufacture_date == o.manufacture_date
        &&& self.category == o.category
        &&& self.description == o.description
        &&& self.specifications == o.specifications
        &&& self.warranty_info == o.warranty_info
        &&& self.certifications@ == o.certifications@
        &&& self.ipfs_metadata_uri == o.ipfs_metadata_uri
    }

    /// A copy of the metadata.
    pub fn snapshot(&self) -> (r: NFTMetadata)
        ensures
            r.like(*self),
    {
        NFTMetadata {
            serial_number: self.serial_number.clone(),
            product_name: self.product_name.clone(),
            manufacturer: self.manufacturer.clone(),
            manufacture_date: self.manufacture_date.clone(),
            category: self.category.clone(),
            description: self.description.clone(),
            specifications: self.specifications.clone(),
            warranty_info: self.warranty_info.clone(),
            certifications: copy_strings(&self.certifications),
            ipfs_metadata_uri: self.ipfs_metadata_uri.clone(),
        }
    }
}

fn copy_strings(v: &Vec<String>) -> (r: Vec<String>)
    ensures
        r@ == v@,
{
    let mut r: Vec<String> = Vec::new();
    let n = v.len();
    let mut i: usize = 0;
    while i < n
        invariant
            n == v@.len(),
            i <= n,
            r@.len() == i,
            forall|j: int| 0 <= j < i ==> r@[j] == v@[j],
        decreases n - i,
    {
        r.push(v[i].clone());
        i = i + 1;
    }
    proof {
        assert(r@ =~= v@);
    }
    r
}

/// How a token came to its owner.
#[derive(Clone, Copy, PartialEq, Eq, Structural, Debug)]
pub enum TransactionKind {
    /// The token was created for this owner.
    Mint,
    /// Ownership moved to this owner.
    Transfer,
    /// Ownership moved to this owner through a sale.
    Sale,
}

/// One entry of a token's ownership history.
#[derive(Clone, Copy, PartialEq, Eq, Structural, Debug)]
pub struct OwnershipRecord {
    pub owner: AccountId,
    pub timestamp: u64,
    pub transaction_type: TransactionKind,
}

/// The arguments of a mint.
#[derive(Debug)]
pub struct MintRequest {
    pub serial_number: String,
    pub product_name: String,
    pub manufacturer: String,
    pub manufacture_date: String,
    pub category: String,
    pub description: String,
    pub specifications: String,
    pub warranty_info: String,
    pub certifications: Vec<String>,
    pub ipfs_metadata_uri: String,
}

/// The metadata a mint request describes.
pub open spec fn metadata_of(request: MintRequest) -> NFTMetadata {
    NFTMetadata {
        serial_number: request.serial_number,
        product_name: request.product_name,
        manufacturer: request.manufacturer,
        manufacture_date: request.manufacture_date,
        category: request.category,
        description: request.description,
        specifications: request.specifications,
        warranty_info: request.warranty_info,
        certifications: request.certifications,
        ipfs_metadata_uri: request.ipfs_metadata_uri,
    }
}

/// One product token: an ownership record for a physical product.
#[derive(Debug, PartialEq)]
pub struct ProductNFT {
    /// The token's identifier; identifiers are handed out sequentially.
    pub nft_id: u64,
    /// The product's serial number; unique across the registry.
    pub serial_number: String,
    /// The current owner.
    pub owner: AccountId,
    /// The descriptive metadata recorded at mint time.
    pub metadata: NFTMetadata,
    /// When the token was minted.
    pub minted_at: u64,
    /// Whether the registry still vouches for the product's authenticity.
    pub verified: bool,
    /// Every owner the token ever had, oldest first; the last entry names
    /// the current owner.
    pub ownership_history: Vec<OwnershipRecord>,
}

impl ProductNFT {
    /// Field-for-field agreement, with metadata and history compared
    /// element by element.
    pub open spec fn like(self, o: ProductNFT) -> bool {
        &&& self.nft_id == o.nft_id
        &&& self.serial_number == o.serial_number
        &&& self.owner == o.owner
        &&& self.metadata.like(o.metadata)
        &&& self.minted_at == o.minted_at
        &&& self.verified == o.verified
        &&& self.ownership_history@ == o.ownership_history@
    }

    /// Consistency of a single token: the history is non-empty, starts
    /// with the mint and ends with the current owner.
    pub open spec fn nft_wf(self) -> bool {
        &&& self.ownership_history@.len() >= 1
        &&& self.ownership_history@[0].transaction_type == TransactionKind::Mint
        &&& self.ownership_history@[0].timestamp == self.minted_at
        &&& self.ownership_history@.last().owner == self.owner
    }

    /// A copy of the token.
    pub fn snapshot(&self) -> (r: ProductNFT)
        ensures
            r.like(*self),
    {
        let mut history: Vec<OwnershipRecord> = Vec::new();
        let n = self.ownership_history.len();
        let mut i: usize = 0;
        while i < n
            invariant
                n == self.ownership_history@.len(),
                i <= n,
                history@.len() == i,
                forall|j: int| 0 <= j < i ==> history@[j] == self.ownership_history@[j],
            decreases n - i,
        {
            history.push(self.ownership_history[i]);
            i = i + 1;
        }
        proof {
            assert(history@ =~= self.ownership_history@);
        }
        ProductNFT {
            nft_id: self.nft_id,
            serial_number: self.serial_number.clone(),
            owner: self.owner,
            metadata: self.metadata.snapshot(),
            minted_at: self.minted_at,
            verified: self.verified,
            ownership_history: history,
        }
    }
}

/// The registry: the admin fixed at construction and the token set, in
/// mint order, so that a token's identifier is its position.
pub struct Registry {
    admin: AccountId,
    nfts: Vec<ProductNFT>,
}

impl Registry {
    /// The admin account configured at construction.
    pub closed spec fn spec_admin(self) -> AccountId {
        self.admin
    }

    /// The token set, in mint order.
    pub closed spec fn spec_nfts(self) -> Seq<ProductNFT> {
        self.nfts@
    }

    /// Whether a token exists for the serial number `s`.
    pub open spec fn has_serial(self, s: Seq<char>) -> bool {
        exists|i: int|
            0 <= i < self.spec_nfts().len() && (#[trigger] self.spec_nfts()[i]).serial_number@
                == s
    }

    /// The position of the token for `s` (meaningful when `has_serial(s)`
    /// holds; unique under `wf`).
    pub open spec fn serial_index(self, s: Seq<char>) -> int {
        choose|i: int|
            0 <= i < self.spec_nfts().len() && (#[trigger] self.spec_nfts()[i]).serial_number@
                == s
    }

    /// The registry invariant: identifiers are positions, serial numbers
    /// are unique, and every token's history is consistent.
    pub closed spec fn wf(self) -> bool {
        &&& forall|i: int|
            0 <= i < self.nfts@.len() ==> (#[trigger] self.nfts@[i]).nft_id as int == i
        &&& forall|i: int, j: int|
            0 <= i < j < self.nfts@.len() ==> (#[trigger] self.nfts@[i]).serial_number@ != (
            #[trigger] self.nfts@[j]).serial_number@
        &&& forall|i: int| 0 <= i < self.nfts@.len() ==> (#[trigger] self.nfts@[i]).nft_wf()
    }

    /// A fresh registry with the given admin and no tokens.
    pub fn new(admin: AccountId) -> (r: Registry)
        ensures
            r.wf(),
            r.spec_admin() == admin,
            r.spec_nfts() == Seq::<ProductNFT>::empty(),
    {
        let r = Registry { admin, nfts: Vec::new() };
        proof {
            assert(r.nfts@ =~= Seq::<ProductNFT>::empty());
        }
        r
    }

    /// The admin account.
    pub fn admin(&self) -> (r: AccountId)
        ensures
            r == self.spec_admin(),
    {
        self.admin
    }

    /// Under the registry invariant, serial numbers are unique, so the
    /// token at position `i` is exactly the token looked up under its own
    /// serial number.
    pub proof fn lemma_token_at(self, i: int)
        requires
            self.wf(),
            0 <= i < self.spec_nfts().len(),
        ensures
            self.has_serial(self.spec_nfts()[i].serial_number@),
            self.serial_index(self.spec_nfts()[i].serial_number@) == i,
    {
        let s = self.spec_nfts()[i].serial_number@;
        assert(0 <= i < self.spec_nfts().len() && (#[trigger] self.spec_nfts()[i]).serial_number@
            == s);
        let j = self.serial_index(s);
        if i != j {
            if i < j {
                assert(self.nfts@[i].serial_number@ != self.nfts@[j].serial_number@);
            } else {
                assert(self.nfts@[j].serial_number@ != self.nfts@[i].serial_number@);
            }
        }
    }

    fn find_serial(&self, s: &String) -> (r: Option<usize>)
        ensures
            match r {
                Some(i) => i < self.spec_nfts().len() && self.spec_nfts()[i as int].serial_number@
                    == s@,
                None => !self.has_serial(s@),
            },
    {
        let n = self.nfts.len();
        let mut i: usize = 0;
        while i < n
            invariant
                n == self.nfts@.len(),
                i <= n,
                forall|j: int| 0 <= j < i ==> (#[trigger] self.nfts@[j]).serial_number@ != s@,
            decreases n - i,
        {
            if self.nfts[i].serial_number == *s {
                return Some(i);
            }
            i = i + 1;
        }
        None
    }

    /// The number of tokens minted so far, which is also the next
    /// identifier to be handed out.
    pub fn get_total_supply(&self) -> (r: u64)
        requires
            self.wf(),
        ensures
            r as int == self.spec_nfts().len(),
    {
        proof {
            if self.nfts@.len() > 0 {
                assert(self.nfts@[self.nfts@.len() - 1].nft_id as int == self.nfts@.len() - 1);
            }
        }
        self.nfts.len() as u64
    }

    /// Whether a token exists for a serial number.
    pub fn nft_exists(&self, serial_number: &String) -> (r: bool)
        ensures
            r == self.has_serial(serial_number@),
    {
        match self.find_serial(serial_number) {
            Some(i) => {
                proof {
                    let ii = i as int;
                    assert(0 <= ii < self.spec_nfts().len() && (#[trigger] self.spec_nfts()[ii]).serial_number@
                        == serial_number@);
                }
                true
            },
            None => false,
        }
    }

    /// Mint a token for a product: the caller becomes the owner, the
    /// serial number must be fresh, and the history opens with the mint.
    pub fn mint_product_nft(&mut self, caller: AccountId, request: MintRequest, now: u64) -> (r:
        Result<ProductNFT, RegistryError>)
        requires
            old(self).wf(),
        ensures
            final(self).wf(),
            final(self).spec_admin() == old(self).spec_admin(),
            r is Err ==> *final(self) == *old(self) && r == Err::<ProductNFT, RegistryError>(
                RegistryError::SerialExists,
            ),
            r is Err <==> old(self).has_serial(request.serial_number@),
            r is Ok ==> ({
                let nft = final(self).spec_nfts().last();
                &&& final(self).spec_nfts().len() == old(self).spec_nfts().len() + 1
                &&& forall|j: int|
                    0 <= j < old(self).spec_nfts().len() ==> #[trigger] final(self).spec_nfts()[j]
                        == old(self).spec_nfts()[j]
                &&& nft.nft_id as int == old(self).spec_nfts().len()
                &&& nft.serial_number == request.serial_number
                &&& nft.owner == caller
                &&& nft.metadata == metadata_of(request)
                &&& nft.minted_at == now
                &&& nft.verified == true
                &&& nft.ownership_history@ =~= seq![
                    (OwnershipRecord {
                        owner: caller,
                        timestamp: now,
                        transaction_type: TransactionKind::Mint,
                    }),
                ]
                &&& r->Ok_0.like(nft)
            }),
    {
        match self.find_serial(&request.serial_number) {
            Some(i) => {
                proof {
                    let ii = i as int;
                    assert(0 <= ii < self.spec_nfts().len() && (#[trigger] self.spec_nfts()[ii]).serial_number@
                        == request.serial_number@);
                }
                Err(RegistryError::SerialExists)
            },
            None => {
                let nft_id = self.nfts.len() as u64;
                let mut history: Vec<OwnershipRecord> = Vec::new();
                history.push(
                    OwnershipRecord {
                        owner: caller,
                        timestamp: now,
                        transaction_type: TransactionKind::Mint,
                    },
                );
                let serial_number = request.serial_number.clone();
                let nft = ProductNFT {
                    nft_id,
                    serial_number,
                    owner: caller,
                    metadata: NFTMetadata {
                        serial_number: request.serial_number,
                        product_name: request.product_name,
                        manufacturer: request.manufacturer,
                        manufacture_date: request.manufacture_date,
                        category: request.category,
                        description: request.description,
                        specifications: request.specifications,
                        warranty_info: request.warranty_info,
                        certifications: request.certifications,
                        ipfs_metadata_uri: request.ipfs_metadata_uri,
                    },
                    minted_at: now,
                    verified: true,
                    ownership_history: history,
                };
                let snap = nft.snapshot();
                let ghost pre = *self;
                self.nfts.push(nft);
                proof {
                    assert forall|a: int, b: int|
                        0 <= a < b < self.nfts@.len() implies (#[trigger] self.nfts@[a]).serial_number@
                        != (#[trigger] self.nfts@[b]).serial_number@ by {
                        if b == pre.nfts@.len() as int {
                            assert(!pre.has_serial(self.nfts@[b].serial_number@));
                        }
                    }
                    assert(self.wf());
                }
                Ok(snap)
            },
        }
    }

    /// Look up a token by its identifier and return a copy of it.
    pub fn get_nft(&self, nft_id: u64) -> (r: Result<ProductNFT, RegistryError>)
        requires
            self.wf(),
        ensures
            r is Ok <==> nft_id < self.spec_nfts().len(),
            r is Ok ==> r->Ok_0.like(self.spec_nfts()[nft_id as int]),
            r is Err ==> r == Err::<ProductNFT, RegistryError>(RegistryError::NotFound),
    {
        let n = self.nfts.len();
        if nft_id < n as u64 {
            let i = nft_id as usize;
            Ok(self.nfts[i].snapshot())
        } else {
            Err(RegistryError::NotFound)
        }
    }

    /// Look up a token by its product serial number and return a copy of
    /// it — the authenticity check a product's holder performs.
    pub fn verify_product(&self, serial_number: &String) -> (r: Result<ProductNFT, RegistryError>)
        requires
            self.wf(),
        ensures
            r is Ok <==> self.has_serial(serial_number@),
            r is Ok ==> r->Ok_0.like(self.spec_nfts()[self.serial_index(serial_number@)]),
            r is Err ==> r == Err::<ProductNFT, RegistryError>(RegistryError::NotFound),
    {
        match self.find_serial(serial_number) {
            Some(i) => {
                proof {
                    self.lemma_token_at(i as int);
                }
                Ok(self.nfts[i].snapshot())
            },
            None => Err(RegistryError::NotFound),
        }
    }

    /// Look up a token's metadata by its product serial number.
    pub fn get_metadata(&self, serial_number: &String) -> (r: Result<NFTMetadata, RegistryError>)
        requires
            self.wf(),
        ensures
            r is Ok <==> self.has_serial(serial_number@),
            r is Ok ==> r->Ok_0.like(self.spec_nfts()[self.serial_index(serial_number@)].metadata),
            r is Err ==> r == Err::<NFTMetadata, RegistryError>(RegistryError::NotFound),
    {
        match self.find_serial(serial_number) {
            Some(i) => {
                proof {
                    self.lemma_token_at(i as int);
                }
                Ok(self.nfts[i].metadata.snapshot())
            },
            None => Err(RegistryError::NotFound),
        }
    }

    /// A token's full ownership history, oldest entry first.
    pub fn get_ownership_history(&self, nft_id: u64) -> (r: Result<
        Vec<OwnershipRecord>,
        RegistryError,
    >)
        requires
            self.wf(),
        ensures
            r is Ok <==> nft_id < self.spec_nfts().len(),
            r is Ok ==> r->Ok_0@ == self.spec_nfts()[nft_id as int].ownership_history@,
            r is Err ==> r == Err::<Vec<OwnershipRecord>, RegistryError>(RegistryError::NotFound),
    {
        let n = self.nfts.len();
        if nft_id < n as u64 {
            let i = nft_id as usize;
            let nft = self.nfts[i].snapshot();
            Ok(nft.ownership_history)
        } else {
            Err(RegistryError::NotFound)
        }
    }

    /// Transfer a token to a new owner.  Only the current owner may do
    /// this; the transfer appends to the ownership history.
    pub fn transfer_nft(&mut self, caller: AccountId, nft_id: u64, new_owner: AccountId, now: u64) -> (r:
        Result<ProductNFT, RegistryError>)
        requires
            old(self).wf(),
        ensures
            final(self).wf(),
            final(self).spec_admin() == old(self).spec_admin(),
            r is Err ==> *final(self) == *old(self),
            r == Err::<ProductNFT, RegistryError>(RegistryError::NotFound) <==> nft_id >= old(
                self,
            ).spec_nfts().len(),
            r == Err::<ProductNFT, RegistryError>(RegistryError::Unauthorized) <==> nft_id < old(
                self,
            ).spec_nfts().len() && caller != old(self).spec_nfts()[nft_id as int].owner,
            r is Ok <==> nft_id < old(self).spec_nfts().len() && caller == old(
                self,
            ).spec_nfts()[nft_id as int].owner,
            r is Ok ==> ({
                let n_old = old(self).spec_nfts()[nft_id as int];
                let n_new = final(self).spec_nfts()[nft_id as int];
                &&& final(self).spec_nfts().len() == old(self).spec_nfts().len()
                &&& forall|j: int|
                    0 <= j < old(self).spec_nfts().len() && j != nft_id as int
                        ==> #[trigger] final(self).spec_nfts()[j] == old(self).spec_nfts()[j]
                &&& n_new.nft_id == n_old.nft_id
                &&& n_new.serial_number == n_old.serial_number
                &&& n_new.owner == new_owner
                &&& n_new.metadata.like(n_old.metadata)
                &&& n_new.minted_at == n_old.minted_at
                &&& n_new.verified == n_old.verified
                &&& n_new.ownership_history@ == n_old.ownership_history@.push(
                    (OwnershipRecord {
                        owner: new_owner,
                        timestamp: now,
                        transaction_type: TransactionKind::Transfer,
                    }),
                )
                &&& r->Ok_0.like(n_new)
            }),
    {
        let n = self.nfts.len();
        if nft_id >= n as u64 {
            return Err(RegistryError::NotFound);
        }
        let i = nft_id as usize;
        if self.nfts[i].owner != caller {
            return Err(RegistryError::Unauthorized);
        }
        let mut updated = self.nfts[i].snapshot();
        updated.owner = new_owner;
        updated.ownership_history.push(
            OwnershipRecord { owner: new_owner, timestamp: now, transaction_type: TransactionKind::Transfer },
        );
        let snap = updated.snapshot();
        self.nfts.set(i, updated);
        proof {
            assert(self.wf());
        }
        Ok(snap)
    }

    /// Withdraw the registry's vouch for a product, e.g. a discovered
    /// counterfeit.  Only the admin may do this.
    pub fn revoke_verification(&mut self, caller: AccountId, nft_id: u64) -> (r: Result<
        ProductNFT,
        RegistryError,
    >)
        requires
            old(self).wf(),
        ensures
            final(self).wf(),
            final(self).spec_admin() == old(self).spec_admin(),
            r is Err ==> *final(self) == *old(self),
            r == Err::<ProductNFT, RegistryError>(RegistryError::Unauthorized) <==> caller != old(
                self,
            ).spec_admin(),
            r == Err::<ProductNFT, RegistryError>(RegistryError::NotFound) <==> caller == old(
                self,
            ).spec_admin() && nft_id >= old(self).spec_nfts().len(),
            r is Ok <==> caller == old(self).spec_admin() && nft_id < old(self).spec_nfts().len(),
            r is Ok ==> ({
                let n_old = old(self).spec_nfts()[nft_id as int];
                let n_new = final(self).spec_nfts()[nft_id as int];
                &&& final(self).spec_nfts().len() == old(self).spec_nfts().len()
                &&& forall|j: int|
                    0 <= j < old(self).spec_nfts().len() && j != nft_id as int
                        ==> #[trigger] final(self).spec_nfts()[j] == old(self).spec_nfts()[j]
                &&& n_new.nft_id == n_old.nft_id
                &&& n_new.serial_number == n_old.serial_number
                &&& n_new.owner == n_old.owner
                &&& n_new.metadata.like(n_old.metadata)
                &&& n_new.minted_at == n_old.minted_at
                &&& n_new.verified == false
                &&& n_new.ownership_history@ == n_old.ownership_history@
                &&& r->Ok_0.like(n_new)
            }),
    {
        if caller != self.admin {
            return Err(RegistryError::Unauthorized);
        }
        let n = self.nfts.len();
        if nft_id >= n as u64 {
            return Err(RegistryError::NotFound);
        }
        let i = nft_id as usize;
        let mut updated = self.nfts[i].snapshot();
        updated.verified = false;
        let snap = updated.snapshot();
        self.nfts.set(i, updated);
        proof {
            assert(self.wf());
        }
        Ok(snap)
    }
}

/// The tokens among the first `n` of `s` that `owner` owns, in order.
pub open spec fn owned_prefix(s: Seq<ProductNFT>, owner: AccountId, n: int) -> Seq<ProductNFT>
    decreases n,
{
    if n <= 0 {
        Seq::empty()
    } else if s[n - 1].owner == owner {
        owned_prefix(s, owner, n - 1).push(s[n - 1])
    } else {
        owned_prefix(s, owner, n - 1)
    }
}

impl Registry {
    /// Look up a whole batch of serial numbers at once, pairing each with
    /// its token if one exists.
    pub fn batch_verify_nfts(&self, serial_numbers: &Vec<String>) -> (r: Vec<
        (String, Option<ProductNFT>),
    >)
        requires
            self.wf(),
        ensures
            r@.len() == serial_numbers@.len(),
            forall|j: int|
                0 <= j < r@.len() ==> (#[trigger] r@[j]).0 == serial_numbers@[j] && ((r@[j].1
                    is Some) <==> self.has_serial(serial_numbers@[j]@)) && (r@[j].1 matches Some(
                    nft,
                ) ==> nft.like(self.spec_nfts()[self.serial_index(serial_numbers@[j]@)])),
    {
        let n = serial_numbers.len();
        let mut r: Vec<(String, Option<ProductNFT>)> = Vec::new();
        let mut i: usize = 0;
        while i < n
            invariant
                self.wf(),
                n == serial_numbers@.len(),
                i <= n,
                r@.len() == i,
                forall|j: int|
                    0 <= j < i ==> (#[trigger] r@[j]).0 == serial_numbers@[j] && ((r@[j].1
                        is Some) <==> self.has_serial(serial_numbers@[j]@)) && (r@[j].1 matches Some(
                        nft,
                    ) ==> nft.like(self.spec_nfts()[self.serial_index(serial_numbers@[j]@)])),
            decreases n - i,
        {
            let found = match self.find_serial(&serial_numbers[i]) {
                Some(k) => {
                    proof {
                        self.lemma_token_at(k as int);
                    }
                    Some(self.nfts[k].snapshot())
                },
                None => None,
            };
            r.push((serial_numbers[i].clone(), found));
            i = i + 1;
        }
        r
    }

    /// All tokens the given owner currently holds, in mint order, as a
    /// point-in-time snapshot.
    pub fn get_nfts_by_owner(&self, owner: AccountId) -> (r: Vec<ProductNFT>)
        requires
            self.wf(),
        ensures
            r@.len() == owned_prefix(self.spec_nfts(), owner, self.spec_nfts().len() as int).len(),
            forall|j: int|
                0 <= j < r@.len() ==> (#[trigger] r@[j]).like(
                    owned_prefix(self.spec_nfts(), owner, self.spec_nfts().len() as int)[j],
                ),
    {
        let n = self.nfts.len();
        let mut r: Vec<ProductNFT> = Vec::new();
        let mut i: usize = 0;
        while i < n
            invariant
                self.wf(),
                n == self.nfts@.len(),
                i <= n,
                r@.len() == owned_prefix(self.spec_nfts(), owner, i as int).len(),
                forall|j: int|
                    0 <= j < r@.len() ==> (#[trigger] r@[j]).like(
                        owned_prefix(self.spec_nfts(), owner, i as int)[j],
                    ),
            decreases n - i,
        {
            if self.nfts[i].owner == owner {
                r.push(self.nfts[i].snapshot());
            }
            i = i + 1;
        }
        r
    }
}

} // verus!
