use crate::errors::EscrowError;
use crate::gateway::{spec_payment, Payment};
use vstd::prelude::*;

verus! {

/// One fixed-price listing: the asset, its owner, and the asking price.
#[derive(Clone, Copy, PartialEq, Eq, Structural, Debug)]
pub struct NFTListing {
    pub token_id: u128,
    pub owner: u64,
    pub price: i128,
}

/// The singleton configuration of the storefront.
#[derive(Clone, Copy, PartialEq, Eq, Structural, Debug)]
pub struct StorefrontConfig {
    /// The asset-custody registry the storefront consults and instructs.
    pub nft_address: u64,
    /// The administrator, who may delist any listing.
    pub admin: u64,
}

/// No asset is listed twice.
pub open spec fn unique_listing_ids(s: Seq<NFTListing>) -> bool {
    forall|i: int, j: int| 0 <= i < j < s.len() ==> s[i].token_id != s[j].token_id
}

/// Whether an asset is listed.
pub open spec fn has_sale(s: Seq<NFTListing>, token_id: u128) -> bool {
    exists|i: int| 0 <= i < s.len() && s[i].token_id == token_id
}

/// The listing recorded for an asset, if any.
pub open spec fn find_sale(s: Seq<NFTListing>, token_id: u128) -> Option<NFTListing>
    decreases s.len(),
{
    if s.len() == 0 {
        None
    } else if s[0].token_id == token_id {
        Some(s[0])
    } else {
        find_sale(s.drop_first(), token_id)
    }
}

pub proof fn lemma_sale_absent(s: Seq<NFTListing>, token_id: u128)
    requires
        !has_sale(s, token_id),
    ensures
        find_sale(s, token_id) is None,
    decreases s.len(),
{
    if s.len() > 0 {
        assert(s[0].token_id != token_id);
        assert(forall|i: int|
            0 <= i < s.drop_first().len() ==> s.drop_first()[i] == s[i + 1]);
        lemma_sale_absent(s.drop_first(), token_id);
    }
}

pub proof fn lemma_sale_at_index(s: Seq<NFTListing>, i: int)
    requires
        unique_listing_ids(s),
        0 <= i < s.len(),
    ensures
        find_sale(s, s[i].token_id) == Some(s[i]),
    decreases s.len(),
{
    if i > 0 {
        assert(s[0].token_id != s[i].token_id);
        assert(unique_listing_ids(s.drop_first())) by {
            assert(forall|k: int|
                0 <= k < s.drop_first().len() ==> s.drop_first()[k] == s[k + 1]);
        }
        lemma_sale_at_index(s.drop_first(), i - 1);
    }
}

pub proof fn lemma_sale_push(s: Seq<NFTListing>, e: NFTListing, token_id: u128)
    requires
        !has_sale(s, e.token_id),
    ensures
        e.token_id == token_id ==> find_sale(s.push(e), token_id) == Some(e),
        e.token_id != token_id ==> find_sale(s.push(e), token_id) == find_sale(s, token_id),
    decreases s.len(),
{
    if s.len() == 0 {
        assert(s.push(e).drop_first() =~= Seq::<NFTListing>::empty());
        assert(s.push(e)[0] == e);
        if e.token_id != token_id {
            assert(find_sale(s.push(e), token_id) == find_sale(s.push(e).drop_first(), token_id));
        }
    } else {
        assert(s.push(e).drop_first() =~= s.drop_first().push(e));
        assert(forall|i: int|
            0 <= i < s.drop_first().len() ==> s.drop_first()[i] == s[i + 1]);
        lemma_sale_push(s.drop_first(), e, token_id);
        assert(s.push(e)[0] == s[0]);
        if s[0].token_id == token_id {
            assert(find_sale(s.push(e), token_id) == Some(s[0]));
        } else {
            assert(find_sale(s.push(e), token_id) == find_sale(s.push(e).drop_first(), token_id));
        }
    }
}

pub proof fn lemma_sale_remove(s: Seq<NFTListing>, i: int, token_id: u128)
    requires
        unique_listing_ids(s),
        0 <= i < s.len(),
    ensures
        s[i].token_id == token_id ==> find_sale(s.remove(i), token_id) is None,
        s[i].token_id != token_id ==> find_sale(s.remove(i), token_id) == find_sale(s, token_id),
    decreases s.len(),
{
    if i == 0 {
        assert(s.remove(0) =~= s.drop_first());
        if s[0].token_id == token_id {
            assert(forall|k: int|
                0 <= k < s.drop_first().len() ==> s.drop_first()[k] == s[k + 1]);
            assert(!has_sale(s.drop_first(), token_id));
            lemma_sale_absent(s.drop_first(), token_id);
        }
    } else {
        assert(s.remove(i).drop_first() =~= s.drop_first().remove(i - 1));
        assert(unique_listing_ids(s.drop_first())) by {
            assert(forall|k: int|
                0 <= k < s.drop_first().len() ==> s.drop_first()[k] == s[k + 1]);
        }
        lemma_sale_remove(s.drop_first(), i - 1, token_id);
        assert(s.remove(i)[0] == s[0]);
    }
}

/// Finds the index of an asset's listing, if there is one.
fn find_sale_index(listings: &Vec<NFTListing>, token_id: u128) -> (r: Option<usize>)
    ensures
        match r {
            Some(i) => i < listings@.len() && listings@[i as int].token_id == token_id,
            None => !has_sale(listings@, token_id),
        },
{
    let n: usize = listings.len();
    let mut i: usize = 0;
    while i < n
        invariant
            n == listings@.len(),
            0 <= i <= n,
            forall|k: int| 0 <= k < i ==> listings@[k].token_id != token_id,
        decreases n - i,
    {
        if listings[i].token_id == token_id {
            return Some(i);
        }
        i = i + 1;
    }
    None
}

/// The fixed-price storefront: one listing per asset, bought outright.  The
/// storefront never takes custody of value: a purchase pays the owner from
/// the buyer directly and moves the asset's custody to the buyer.
pub struct NFTStoreFront {
    /// The program's own account.
    pub contract_address: u64,
    /// The configuration; `None` until `initialize` has run.
    pub config: Option<StorefrontConfig>,
    /// The live listings, at most one per asset.
    pub listings: Vec<NFTListing>,
}

impl NFTStoreFront {
    /// Well-formedness: at most one listing per asset, each with a real
    /// asset id and an owner other than the engine.
    pub open spec fn wf(self) -> bool {
        &&& unique_listing_ids(self.listings@)
        &&& forall|i: int|
            0 <= i < self.listings@.len() ==> (#[trigger] self.listings@[i]).token_id != 0
                && self.listings@[i].owner != self.contract_address
    }

    pub open spec fn is_initialized(self) -> bool {
        self.config is Some
    }

    pub open spec fn admin(self) -> u64 {
        self.config->Some_0.admin
    }

    /// The listing recorded for an asset, if any.
    pub open spec fn listing(self, token_id: u128) -> Option<NFTListing> {
        find_sale(self.listings@, token_id)
    }

    /// Why a listing request would be refused, or `None` when it is
    /// accepted.  `from_owns_nft` is the asset registry's answer to whether
    /// `from` holds custody of the asset.
    pub open spec fn list_refusal(
        self,
        from: u64,
        token_id: u128,
        from_owns_nft: bool,
    ) -> Option<EscrowError> {
        if !self.is_initialized() {
            Some(EscrowError::StateViolation)
        } else if !from_owns_nft {
            Some(EscrowError::AuthorizationFailure)
        } else if from == self.contract_address {
            Some(EscrowError::PreconditionViolation)
        } else if token_id == 0 {
            Some(EscrowError::PreconditionViolation)
        } else if self.listing(token_id) is Some {
            Some(EscrowError::StateViolation)
        } else {
            None
        }
    }

    /// Why a delisting would be refused, or `None` when it is accepted.
    pub open spec fn delist_refusal(self, from: u64, token_id: u128) -> Option<EscrowError> {
        if !self.is_initialized() {
            Some(EscrowError::StateViolation)
        } else if self.listing(token_id) is None {
            Some(EscrowError::NotFound)
        } else if from != self.listing(token_id)->Some_0.owner && from != self.admin() {
            Some(EscrowError::AuthorizationFailure)
        } else {
            None
        }
    }

    /// Why a purchase would be refused, or `None` when it is accepted.
    /// `owner_owns_nft` is the asset registry's answer to whether `owner`
    /// holds custody of the asset.
    pub open spec fn purchase_refusal(
        self,
        owner: u64,
        token_id: u128,
        owner_owns_nft: bool,
    ) -> Option<EscrowError> {
        if !self.is_initialized() {
            Some(EscrowError::StateViolation)
        } else if !owner_owns_nft {
            Some(EscrowError::AuthorizationFailure)
        } else if owner == self.contract_address {
            Some(EscrowError::PreconditionViolation)
        } else if token_id == 0 {
            Some(EscrowError::PreconditionViolation)
        } else if self.listing(token_id) is None {
            Some(EscrowError::NotFound)
        } else {
            None
        }
    }

    /// A fresh, uninitialized program instance whose own account is
    /// `contract_address`.
    pub fn new(contract_address: u64) -> (s: NFTStoreFront)
        ensures
            s.wf(),
            !s.is_initialized(),
            s.contract_address == contract_address,
            s.listings@.len() == 0,
    {
        NFTStoreFront { contract_address, config: None, listings: Vec::new() }
    }

    /// Records the registry address and the administrator, exactly once.
    pub fn initialize(&mut self, nft_contract_address: u64, admin: u64) -> (r: Result<
        (),
        EscrowError,
    >)
        requires
            old(self).wf(),
        ensures
            final(self).wf(),
            old(self).is_initialized() ==> r == Err::<(), EscrowError>(
                EscrowError::StateViolation,
            ) && *final(self) == *old(self),
            !old(self).is_initialized() ==> {
                &&& r == Ok::<(), EscrowError>(())
                &&& final(self).config == Some(
                    StorefrontConfig { nft_address: nft_contract_address, admin },
                )
                &&& final(self).listings@ == old(self).listings@
                &&& final(self).contract_address == old(self).contract_address
            },
    {
        if self.config.is_some() {
            return Err(EscrowError::StateViolation);
        }
        self.config = Some(StorefrontConfig { nft_address: nft_contract_address, admin });
        Ok(())
    }

    /// The administrator recorded at initialization.
    pub fn read_administrator(&self) -> (r: Result<u64, EscrowError>)
        ensures
            self.is_initialized() ==> r == Ok::<u64, EscrowError>(self.admin()),
            !self.is_initialized() ==> r == Err::<u64, EscrowError>(EscrowError::StateViolation),
    {
        match self.config {
            Some(c) => Ok(c.admin),
            None => Err(EscrowError::StateViolation),
        }
    }

    /// Whether the program has been initialized.
    pub fn has_administrator(&self) -> (r: bool)
        ensures
            r == self.is_initialized(),
    {
        self.config.is_some()
    }

    /// Lists an asset at a fixed price.  The caller must hold custody of the
    /// asset in the external registry, may not be the engine itself, and the
    /// asset must not be listed already.
    ///
    /// The host authorizes the acting identity as `from` before calling.
    pub fn list_nft(&mut self, from: u64, token_id: u128, price: i128, from_owns_nft: bool) -> (r:
        Result<(), EscrowError>)
        requires
            old(self).wf(),
        ensures
            final(self).wf(),
            r is Err ==> *final(self) == *old(self) && old(self).list_refusal(
                from,
                token_id,
                from_owns_nft,
            ) == Some(r->Err_0),
            r is Ok <==> old(self).list_refusal(from, token_id, from_owns_nft) is None,
            r is Ok ==> {
                &&& final(self).listing(token_id) == Some(
                    NFTListing { token_id, owner: from, price },
                )
                &&& forall|id: u128|
                    id != token_id ==> final(self).listing(id) == old(self).listing(id)
                &&& final(self).config == old(self).config
                &&& final(self).contract_address == old(self).contract_address
            },
    {
        if self.config.is_none() {
            return Err(EscrowError::StateViolation);
        }
        if !from_owns_nft {
            return Err(EscrowError::AuthorizationFailure);
        }
        if from == self.contract_address {
            return Err(EscrowError::PreconditionViolation);
        }
        if token_id == 0 {
            return Err(EscrowError::PreconditionViolation);
        }
        match find_sale_index(&self.listings, token_id) {
            Some(i) => {
                proof {
                    lemma_sale_at_index(self.listings@, i as int);
                }
                Err(EscrowError::StateViolation)
            },
            None => {
                proof {
                    lemma_sale_absent(self.listings@, token_id);
                }
                let l = NFTListing { token_id, owner: from, price };
                proof {
                    lemma_sale_push(self.listings@, l, token_id);
                    assert forall|id: u128| id != token_id implies find_sale(
                        self.listings@.push(l),
                        id,
                    ) == find_sale(self.listings@, id) by {
                        lemma_sale_push(self.listings@, l, id);
                    }
                }
                self.listings.push(l);
                Ok(())
            },
        }
    }

    /// The listing recorded for an asset, or the sentinel record — asset id
    /// zero, owned by the engine at price zero — when the asset is not
    /// listed.
    pub fn get_listed_nft(&self, token_id: u128) -> (l: NFTListing)
        requires
            self.wf(),
        ensures
            self.listing(token_id) is Some ==> l == self.listing(token_id)->Some_0,
            self.listing(token_id) is None ==> l == (NFTListing {
                token_id: 0,
                owner: self.contract_address,
                price: 0,
            }),
    {
        match find_sale_index(&self.listings, token_id) {
            Some(i) => {
                proof {
                    lemma_sale_at_index(self.listings@, i as int);
                }
                self.listings[i]
            },
            None => {
                proof {
                    lemma_sale_absent(self.listings@, token_id);
                }
                NFTListing { token_id: 0, owner: self.contract_address, price: 0 }
            },
        }
    }

    /// Removes a listing.  Only the listing owner or the administrator may
    /// delist; no value and no asset custody moves.
    ///
    /// The host authorizes the acting identity as `from` before calling.
    pub fn delist_nft(&mut self, from: u64, token_id: u128) -> (r: Result<(), EscrowError>)
        requires
            old(self).wf(),
        ensures
            final(self).wf(),
            r is Err ==> *final(self) == *old(self) && old(self).delist_refusal(from, token_id)
                == Some(r->Err_0),
            r is Ok <==> old(self).delist_refusal(from, token_id) is None,
            r is Ok ==> {
                &&& final(self).listing(token_id) is None
                &&& forall|id: u128|
                    id != token_id ==> final(self).listing(id) == old(self).listing(id)
                &&& final(self).config == old(self).config
                &&& final(self).contract_address == old(self).contract_address
            },
    {
        let c = match self.config {
            Some(c) => c,
            None => {
                return Err(EscrowError::StateViolation);
            },
        };
        let i = match find_sale_index(&self.listings, token_id) {
            Some(i) => {
                proof {
                    lemma_sale_at_index(self.listings@, i as int);
                }
                i
            },
            None => {
                proof {
                    lemma_sale_absent(self.listings@, token_id);
                }
                return Err(EscrowError::NotFound);
            },
        };
        if from != self.listings[i].owner && from != c.admin {
            return Err(EscrowError::AuthorizationFailure);
        }
        proof {
            lemma_sale_remove(self.listings@, i as int, token_id);
            assert forall|id: u128| id != token_id implies find_sale(
                self.listings@.remove(i as int),
                id,
            ) == find_sale(self.listings@, id) by {
                lemma_sale_remove(self.listings@, i as int, id);
            }
            assert(forall|k: int|
                0 <= k < self.listings@.remove(i as int).len()
                    ==> self.listings@.remove(i as int)[k] == if k < i as int {
                    self.listings@[k]
                } else {
                    self.listings@[k + 1]
                });
        }
        let _ = self.listings.remove(i);
        Ok(())
    }

    /// Buys a listed asset outright: removes the listing and directs the
    /// host to pay the asking price from the buyer to the owner and to move
    /// the asset's custody to the buyer.
    ///
    /// The host authorizes the acting identity as `buyer` before calling.
    pub fn purchase_listed_nft(
        &mut self,
        owner: u64,
        buyer: u64,
        token_id: u128,
        xlm_address: u64,
        owner_owns_nft: bool,
    ) -> (r: Result<Payment, EscrowError>)
        requires
            old(self).wf(),
        ensures
            final(self).wf(),
            r is Err ==> *final(self) == *old(self) && old(self).purchase_refusal(
                owner,
                token_id,
                owner_owns_nft,
            ) == Some(r->Err_0),
            r is Ok <==> old(self).purchase_refusal(owner, token_id, owner_owns_nft) is None,
            r is Ok ==> {
                &&& r == Ok::<Payment, EscrowError>(
                    spec_payment(
                        xlm_address,
                        buyer,
                        owner,
                        old(self).listing(token_id)->Some_0.price,
                    ),
                )
                &&& final(self).listing(token_id) is None
                &&& forall|id: u128|
                    id != token_id ==> final(self).listing(id) == old(self).listing(id)
                &&& final(self).config == old(self).config
                &&& final(self).contract_address == old(self).contract_address
            },
    {
        if self.config.is_none() {
            return Err(EscrowError::StateViolation);
        }
        if !owner_owns_nft {
            return Err(EscrowError::AuthorizationFailure);
        }
        if owner == self.contract_address {
            return Err(EscrowError::PreconditionViolation);
        }
        if token_id == 0 {
            return Err(EscrowError::PreconditionViolation);
        }
        let i = match find_sale_index(&self.listings, token_id) {
            Some(i) => {
                proof {
                    lemma_sale_at_index(self.listings@, i as int);
                }
                i
            },
            None => {
                proof {
                    lemma_sale_absent(self.listings@, token_id);
                }
                return Err(EscrowError::NotFound);
            },
        };
        proof {
            lemma_sale_remove(self.listings@, i as int, token_id);
            assert forall|id: u128| id != token_id implies find_sale(
                self.listings@.remove(i as int),
                id,
            ) == find_sale(self.listings@, id) by {
                lemma_sale_remove(self.listings@, i as int, id);
            }
            assert(forall|k: int|
                0 <= k < self.listings@.remove(i as int).len()
                    ==> self.listings@.remove(i as int)[k] == if k < i as int {
                    self.listings@[k]
                } else {
                    self.listings@[k + 1]
                });
        }
        let l = self.listings.remove(i);
        Ok(Payment { token: xlm_address, from: buyer, to: owner, amount: l.price })
    }
}

} // verus!
