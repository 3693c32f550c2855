use crate::errors::EscrowError;
use crate::gateway::{spec_payment, Payment};
use vstd::prelude::*;

verus! {

/// One recorded bid: who placed it and at what price.
#[derive(Clone, Copy, PartialEq, Eq, Structural, Debug)]
pub struct Bidder {
    pub user: u64,
    pub price: i128,
}

/// The standing highest bid.  While no real bid has been placed it holds the
/// engine's own account at price zero — the sentinel "no bidder yet".
#[derive(Clone, Copy, PartialEq, Eq, Structural, Debug)]
pub struct HighestBidder {
    pub user: u64,
    pub price: i128,
}

/// One auction listing: the asset, its owner, the auction terms, the history
/// of accepted bids (most recent first) and the standing highest bid.
#[derive(Debug)]
pub struct AuctionNFT {
    pub token_id: u128,
    pub owner: u64,
    pub start_price: i128,
    pub expiration_date: u64,
    pub bidders: Vec<Bidder>,
    pub highest_bidder: HighestBidder,
}

/// The singleton configuration of the auction storefront.
#[derive(Clone, Copy, PartialEq, Eq, Structural, Debug)]
pub struct AuctionConfig {
    /// The asset-custody registry the storefront consults and instructs.
    pub nft_address: u64,
    /// The administrator, who may delist any listing.
    pub admin: u64,
}

/// What a successful bid asks of the host: pull the new bid into custody and,
/// when a real bidder was displaced, refund that bidder in full.
#[derive(Clone, Copy, PartialEq, Eq, Debug)]
pub struct BidOutcome {
    /// Pulls the accepted bid from the bidder into custody.
    pub charge: Payment,
    /// Refunds the displaced bidder, when there was a real one.
    pub refund: Option<Payment>,
}

/// What settling an auction asks of the host: pay the listing owner the
/// winning price out of custody and move the asset to the winner.
#[derive(Clone, Copy, PartialEq, Eq, Debug)]
pub struct SettleOutcome {
    /// Pays the listing owner the standing highest price.
    pub payment: Payment,
    /// The account the asset's custody moves to.
    pub winner: u64,
}

pub open spec fn spec_bidder(user: u64, price: i128) -> Bidder {
    Bidder { user, price }
}

pub open spec fn spec_highest(user: u64, price: i128) -> HighestBidder {
    HighestBidder { user, price }
}

/// A well-formed listing, relative to the engine's own account `own`: a real
/// asset id, an owner other than the engine, a highest bid that is either the
/// sentinel or a real bid by neither the engine nor the owner, and a bid
/// history that descends strictly from the standing highest bid.
pub open spec fn listing_wf(l: AuctionNFT, own: u64) -> bool {
    &&& l.token_id != 0
    &&& l.owner != own
    &&& (l.highest_bidder.user == own ==> l.highest_bidder.price == 0)
    &&& (l.highest_bidder.user != own ==> l.highest_bidder.user != l.owner
        && l.highest_bidder.price > 0)
    &&& forall|i: int|
        0 <= i < l.bidders@.len() ==> (#[trigger] l.bidders@[i]).user != own && l.bidders@[i].user
            != l.owner && l.bidders@[i].price > 0
    &&& forall|i: int, j: int|
        0 <= i < j < l.bidders@.len() ==> l.bidders@[i].price > l.bidders@[j].price
    &&& (l.bidders@.len() == 0 ==> l.highest_bidder.user == own)
    &&& (l.bidders@.len() > 0 ==> l.highest_bidder.user == l.bidders@[0].user
        && l.highest_bidder.price == l.bidders@[0].price)
}

/// The value custody owes against a listing: the standing highest bid when a
/// real bidder holds it, and nothing while the sentinel does.
pub open spec fn live_claim(l: AuctionNFT, own: u64) -> int {
    if l.highest_bidder.user == own {
        0
    } else {
        l.highest_bidder.price as int
    }
}

/// The value custody owes against all listings together.
pub open spec fn live_sum(s: Seq<AuctionNFT>, own: u64) -> int
    decreases s.len(),
{
    if s.len() == 0 {
        0
    } else {
        live_claim(s[0], own) + live_sum(s.drop_first(), own)
    }
}

/// No asset is listed twice.
pub open spec fn unique_ids(s: Seq<AuctionNFT>) -> bool {
    forall|i: int, j: int| 0 <= i < j < s.len() ==> s[i].token_id != s[j].token_id
}

/// Every listing is well-formed.
pub open spec fn all_wf(s: Seq<AuctionNFT>, own: u64) -> bool {
    forall|i: int| 0 <= i < s.len() ==> listing_wf(#[trigger] s[i], own)
}

/// Whether an asset is listed.
pub open spec fn has_listing(s: Seq<AuctionNFT>, token_id: u128) -> bool {
    exists|i: int| 0 <= i < s.len() && s[i].token_id == token_id
}

/// The listing recorded for an asset, if any.
pub open spec fn find_listing(s: Seq<AuctionNFT>, token_id: u128) -> Option<AuctionNFT>
    decreases s.len(),
{
    if s.len() == 0 {
        None
    } else if s[0].token_id == token_id {
        Some(s[0])
    } else {
        find_listing(s.drop_first(), token_id)
    }
}

pub proof fn lemma_find_absent(s: Seq<AuctionNFT>, token_id: u128)
    requires
        !has_listing(s, token_id),
    ensures
        find_listing(s, token_id) is None,
    decreases s.len(),
{
    if s.len() > 0 {
        assert(s[0].token_id != token_id);
        assert(forall|i: int|
            0 <= i < s.drop_first().len() ==> s.drop_first()[i] == s[i + 1]);
        lemma_find_absent(s.drop_first(), token_id);
    }
}

pub proof fn lemma_find_at_index(s: Seq<AuctionNFT>, i: int)
    requires
        unique_ids(s),
        0 <= i < s.len(),
    ensures
        find_listing(s, s[i].token_id) == Some(s[i]),
    decreases s.len(),
{
    if i > 0 {
        assert(s[0].token_id != s[i].token_id);
        assert(unique_ids(s.drop_first())) by {
            assert(forall|k: int|
                0 <= k < s.drop_first().len() ==> s.drop_first()[k] == s[k + 1]);
        }
        lemma_find_at_index(s.drop_first(), i - 1);
    }
}

/// No single listing's claim exceeds the sum owed against all listings, and
/// the sum is non-negative.
pub proof fn lemma_claim_le_live_sum(s: Seq<AuctionNFT>, own: u64, i: int)
    requires
        all_wf(s, own),
        0 <= i < s.len(),
    ensures
        0 <= live_claim(s[i], own),
        live_claim(s[i], own) <= live_sum(s, own),
        live_sum(s, own) >= 0,
    decreases s.len(),
{
    lemma_live_sum_nonneg(s, own);
    if i > 0 {
        assert(forall|k: int|
            0 <= k < s.drop_first().len() ==> s.drop_first()[k] == s[k + 1]);
        lemma_claim_le_live_sum(s.drop_first(), own, i - 1);
    } else {
        lemma_live_sum_nonneg(s.drop_first(), own);
    }
}

pub proof fn lemma_live_sum_nonneg(s: Seq<AuctionNFT>, own: u64)
    requires
        all_wf(s, own),
    ensures
        live_sum(s, own) >= 0,
    decreases s.len(),
{
    if s.len() > 0 {
        assert(forall|k: int|
            0 <= k < s.drop_first().len() ==> s.drop_first()[k] == s[k + 1]);
        lemma_live_sum_nonneg(s.drop_first(), own);
        assert(listing_wf(s[0], own));
    }
}

pub proof fn lemma_live_sum_push(s: Seq<AuctionNFT>, e: AuctionNFT, own: u64)
    ensures
        live_sum(s.push(e), own) == live_sum(s, own) + live_claim(e, own),
    decreases s.len(),
{
    if s.len() == 0 {
        assert(s.push(e).drop_first() =~= Seq::<AuctionNFT>::empty());
        assert(s.push(e)[0] == e);
        assert(live_sum(s.push(e), own) == live_claim(e, own) + live_sum(
            s.push(e).drop_first(),
            own,
        ));
    } else {
        assert(s.push(e).drop_first() =~= s.drop_first().push(e));
        lemma_live_sum_push(s.drop_first(), e, own);
        assert(s.push(e)[0] == s[0]);
        assert(live_sum(s.push(e), own) == live_claim(s[0], own) + live_sum(
            s.push(e).drop_first(),
            own,
        ));
    }
}

pub proof fn lemma_live_sum_update(s: Seq<AuctionNFT>, i: int, v: AuctionNFT, own: u64)
    requires
        0 <= i < s.len(),
    ensures
        live_sum(s.update(i, v), own) == live_sum(s, own) - live_claim(s[i], own) + live_claim(
            v,
            own,
        ),
    decreases s.len(),
{
    if i == 0 {
        assert(s.update(0, v).drop_first() =~= s.drop_first());
        assert(s.update(0, v)[0] == v);
        assert(live_sum(s.update(0, v), own) == live_claim(v, own) + live_sum(
            s.update(0, v).drop_first(),
            own,
        ));
    } else {
        assert(s.update(i, v).drop_first() =~= s.drop_first().update(i - 1, v));
        lemma_live_sum_update(s.drop_first(), i - 1, v, own);
        assert(s.update(i, v)[0] == s[0]);
        assert(live_sum(s.update(i, v), own) == live_claim(s[0], own) + live_sum(
            s.update(i, v).drop_first(),
            own,
        ));
    }
}

pub proof fn lemma_live_sum_remove(s: Seq<AuctionNFT>, i: int, own: u64)
    requires
        0 <= i < s.len(),
    ensures
        live_sum(s.remove(i), own) == live_sum(s, own) - live_claim(s[i], own),
    decreases s.len(),
{
    if i == 0 {
        assert(s.remove(0) =~= s.drop_first());
    } else {
        assert(s.remove(i).drop_first() =~= s.drop_first().remove(i - 1));
        lemma_live_sum_remove(s.drop_first(), i - 1, own);
        assert(s.remove(i)[0] == s[0]);
        assert(live_sum(s.remove(i), own) == live_claim(s[0], own) + live_sum(
            s.remove(i).drop_first(),
            own,
        ));
    }
}

pub proof fn lemma_find_push(s: Seq<AuctionNFT>, e: AuctionNFT, token_id: u128)
    requires
        !has_listing(s, e.token_id),
    ensures
        e.token_id == token_id ==> find_listing(s.push(e), token_id) == Some(e),
        e.token_id != token_id ==> find_listing(s.push(e), token_id) == find_listing(
            s,
            token_id,
        ),
    decreases s.len(),
{
    if s.len() == 0 {
        assert(s.push(e).drop_first() =~= Seq::<AuctionNFT>::empty());
        assert(s.push(e)[0] == e);
        if e.token_id != token_id {
            assert(find_listing(s.push(e), token_id) == find_listing(
                s.push(e).drop_first(),
                token_id,
            ));
        }
    } else {
        assert(s.push(e).drop_first() =~= s.drop_first().push(e));
        assert(forall|i: int|
            0 <= i < s.drop_first().len() ==> s.drop_first()[i] == s[i + 1]);
        lemma_find_push(s.drop_first(), e, token_id);
        assert(s.push(e)[0] == s[0]);
        if s[0].token_id == token_id {
            assert(find_listing(s.push(e), token_id) == Some(s[0]));
            assert(find_listing(s, token_id) == Some(s[0]));
        } else {
            assert(find_listing(s.push(e), token_id) == find_listing(
                s.push(e).drop_first(),
                token_id,
            ));
            assert(find_listing(s, token_id) == find_listing(s.drop_first(), token_id));
        }
    }
}

pub proof fn lemma_find_update(s: Seq<AuctionNFT>, i: int, v: AuctionNFT, token_id: u128)
    requires
        unique_ids(s),
        0 <= i < s.len(),
        v.token_id == s[i].token_id,
    ensures
        s[i].token_id == token_id ==> find_listing(s.update(i, v), token_id) == Some(v),
        s[i].token_id != token_id ==> find_listing(s.update(i, v), token_id) == find_listing(
            s,
            token_id,
        ),
    decreases s.len(),
{
    if i == 0 {
        assert(s.update(0, v).drop_first() =~= s.drop_first());
        assert(s.update(0, v)[0] == v);
    } else {
        assert(s.update(i, v).drop_first() =~= s.drop_first().update(i - 1, v));
        assert(unique_ids(s.drop_first())) by {
            assert(forall|k: int|
                0 <= k < s.drop_first().len() ==> s.drop_first()[k] == s[k + 1]);
        }
        lemma_find_update(s.drop_first(), i - 1, v, token_id);
        assert(s.update(i, v)[0] == s[0]);
    }
}

pub proof fn lemma_find_remove(s: Seq<AuctionNFT>, i: int, token_id: u128)
    requires
        unique_ids(s),
        0 <= i < s.len(),
    ensures
        s[i].token_id == token_id ==> find_listing(s.remove(i), token_id) is None,
        s[i].token_id != token_id ==> find_listing(s.remove(i), token_id) == find_listing(
            s,
            token_id,
        ),
    decreases s.len(),
{
    if i == 0 {
        assert(s.remove(0) =~= s.drop_first());
        if s[0].token_id == token_id {
            assert(forall|k: int|
                0 <= k < s.drop_first().len() ==> s.drop_first()[k] == s[k + 1]);
            assert(!has_listing(s.drop_first(), token_id));
            lemma_find_absent(s.drop_first(), token_id);
        }
    } else {
        assert(s.remove(i).drop_first() =~= s.drop_first().remove(i - 1));
        assert(unique_ids(s.drop_first())) by {
            assert(forall|k: int|
                0 <= k < s.drop_first().len() ==> s.drop_first()[k] == s[k + 1]);
        }
        lemma_find_remove(s.drop_first(), i - 1, token_id);
        assert(s.remove(i)[0] == s[0]);
    }
}

/// Bid monotonicity: the recorded bid history of a well-formed listing
/// descends strictly from the standing highest bid, so every accepted bid was
/// strictly greater than the bid it displaced.
pub proof fn lemma_bid_history_descends(l: AuctionNFT, own: u64, i: int, j: int)
    requires
        listing_wf(l, own),
        0 <= i < j < l.bidders@.len(),
    ensures
        l.bidders@[i].price > l.bidders@[j].price,
        l.bidders@[0].price == l.highest_bidder.price,
{
}

/// Finds the index of an asset's listing, if there is one.
fn find_listing_index(listings: &Vec<AuctionNFT>, token_id: u128) -> (r: Option<usize>)
    ensures
        match r {
            Some(i) => i < listings@.len() && listings@[i as int].token_id == token_id,
            None => !has_listing(listings@, token_id),
        },
{
    let n: usize = listings.len();
    let mut i: usize = 0;
    while i < n
        invariant
            n == listings@.len(),
            0 <= i <= n,
            forall|k: int| 0 <= k < i ==> listings@[k].token_id != token_id,
        decreases n - i,
    {
        if listings[i].token_id == token_id {
            return Some(i);
        }
        i = i + 1;
    }
    None
}

/// Copies a bid history.
fn copy_bidders(v: &Vec<Bidder>) -> (r: Vec<Bidder>)
    ensures
        r@ == v@,
{
    let mut r: Vec<Bidder> = Vec::new();
    let mut i: usize = 0;
    while i < v.len()
        invariant
            0 <= i <= v@.len(),
            r@ == v@.take(i as int),
        decreases v@.len() - i,
    {
        r.push(v[i]);
        proof {
            assert(v@.take(i as int).push(v@[i as int]) =~= v@.take(i + 1));
        }
        i = i + 1;
    }
    proof {
        assert(v@.take(v@.len() as int) =~= v@);
    }
    r
}

/// The time-boxed auction engine: one listing per asset, a strictly
/// ratcheting highest bid with the displaced bidder refunded at once, and
/// settlement after expiration that pays the listing owner and hands the
/// asset to the highest bidder.
///
/// The struct is the program instance's entire persistent state.  `custody`
/// mirrors the balance the program's own account holds in the payment token:
/// the host performs every `Payment` an operation returns, or abandons the
/// new state, so the mirror and the real balance move together.
pub struct NFTAuctionStorefront {
    /// The program's own custody account — also the sentinel bid holder.
    pub contract_address: u64,
    /// The configuration; `None` until `initialize` has run.
    pub config: Option<AuctionConfig>,
    /// The live listings, at most one per asset.
    pub listings: Vec<AuctionNFT>,
    /// The value currently held in custody.
    pub custody: i128,
    /// The total ever pulled into custody by accepted bids.
    pub received: i128,
    /// The total refunded to displaced or delisted bidders.
    pub refunded: i128,
    /// The total paid to listing owners at settlement.
    pub paid_out: i128,
}

impl NFTAuctionStorefront {
    /// Conservation of value: everything ever received is either still in
    /// custody, refunded to a bidder, or paid to a listing owner; and custody
    /// holds exactly the standing real bids.
    pub open spec fn conserved(self) -> bool {
        &&& self.received == self.custody + self.refunded + self.paid_out
        &&& self.custody == live_sum(self.listings@, self.contract_address)
    }

    /// Well-formedness: at most one listing per asset, each listing
    /// well-formed, non-negative running totals, and conservation of value.
    pub open spec fn wf(self) -> bool {
        &&& unique_ids(self.listings@)
        &&& all_wf(self.listings@, self.contract_address)
        &&& self.custody >= 0
        &&& self.received >= 0
        &&& self.refunded >= 0
        &&& self.paid_out >= 0
        &&& self.conserved()
    }

    pub open spec fn is_initialized(self) -> bool {
        self.config is Some
    }

    pub open spec fn admin(self) -> u64 {
        self.config->Some_0.admin
    }

    /// The listing recorded for an asset, if any.
    pub open spec fn listing(self, token_id: u128) -> Option<AuctionNFT> {
        find_listing(self.listings@, token_id)
    }

    /// Why a listing request would be refused, or `None` when it is accepted.
    /// `from_owns_nft` is the asset registry's answer to whether `from` holds
    /// custody of the asset.
    pub open spec fn list_refusal(
        self,
        from: u64,
        token_id: u128,
        from_owns_nft: bool,
    ) -> Option<EscrowError> {
        if !self.is_initialized() {
            Some(EscrowError::StateViolation)
        } else if !from_owns_nft {
            Some(EscrowError::AuthorizationFailure)
        } else if from == self.contract_address {
            Some(EscrowError::PreconditionViolation)
        } else if token_id == 0 {
            Some(EscrowError::PreconditionViolation)
        } else if self.listing(token_id) is Some {
            Some(EscrowError::StateViolation)
        } else {
            None
        }
    }

    /// Why a bid would be refused, or `None` when it is accepted.  A bid that
    /// does not strictly exceed the standing highest bid is a state
    /// violation.
    pub open spec fn bid_refusal(
        self,
        user: u64,
        token_id: u128,
        bid_price: i128,
        now: u64,
    ) -> Option<EscrowError> {
        if user == self.contract_address {
            Some(EscrowError::PreconditionViolation)
        } else if token_id == 0 {
            Some(EscrowError::PreconditionViolation)
        } else if self.listing(token_id) is Some && self.listing(token_id)->Some_0.owner
            == user {
            Some(EscrowError::AuthorizationFailure)
        } else if self.listing(token_id) is None {
            Some(EscrowError::NotFound)
        } else if now > self.listing(token_id)->Some_0.expiration_date {
            Some(EscrowError::StateViolation)
        } else if bid_price <= self.listing(token_id)->Some_0.highest_bidder.price {
            Some(EscrowError::StateViolation)
        } else if self.received + bid_price > i128::MAX {
            Some(EscrowError::PreconditionViolation)
        } else {
            None
        }
    }

    /// Why settlement would be refused, or `None` when it is accepted.
    /// `owner_owns_nft` is the asset registry's answer to whether `owner`
    /// holds custody of the asset.
    pub open spec fn settle_refusal(
        self,
        owner: u64,
        token_id: u128,
        owner_owns_nft: bool,
        now: u64,
    ) -> Option<EscrowError> {
        if !self.is_initialized() {
            Some(EscrowError::StateViolation)
        } else if !owner_owns_nft {
            Some(EscrowError::AuthorizationFailure)
        } else if owner == self.contract_address {
            Some(EscrowError::PreconditionViolation)
        } else if token_id == 0 {
            Some(EscrowError::PreconditionViolation)
        } else if self.listing(token_id) is None {
            Some(EscrowError::NotFound)
        } else if now < self.listing(token_id)->Some_0.expiration_date {
            Some(EscrowError::StateViolation)
        } else {
            None
        }
    }

    /// Why a delisting would be refused, or `None` when it is accepted.
    pub open spec fn delist_refusal(self, from: u64, token_id: u128) -> Option<EscrowError> {
        if !self.is_initialized() {
            Some(EscrowError::StateViolation)
        } else if self.listing(token_id) is None {
            Some(EscrowError::NotFound)
        } else if from != self.listing(token_id)->Some_0.owner && from != self.admin() {
            Some(EscrowError::AuthorizationFailure)
        } else {
            None
        }
    }

    /// A fresh, uninitialized program instance whose custody account is
    /// `contract_address`.
    pub fn new(contract_address: u64) -> (s: NFTAuctionStorefront)
        ensures
            s.wf(),
            !s.is_initialized(),
            s.contract_address == contract_address,
            s.listings@.len() == 0,
            s.custody == 0,
            s.received == 0,
            s.refunded == 0,
            s.paid_out == 0,
    {
        NFTAuctionStorefront {
            contract_address,
            config: None,
            listings: Vec::new(),
            custody: 0,
            received: 0,
            refunded: 0,
            paid_out: 0,
        }
    }

    /// Records the registry address and the administrator.  Permitted
    /// exactly once per program instance: a second call fails and leaves the
    /// original configuration untouched.
    pub fn initialize(&mut self, nft_contract_address: u64, admin: u64) -> (r: Result<
        (),
        EscrowError,
    >)
        requires
            old(self).wf(),
        ensures
            final(self).wf(),
            old(self).is_initialized() ==> r == Err::<(), EscrowError>(
                EscrowError::StateViolation,
            ) && *final(self) == *old(self),
            !old(self).is_initialized() ==> {
                &&& r == Ok::<(), EscrowError>(())
                &&& final(self).config == Some(
                    AuctionConfig { nft_address: nft_contract_address, admin },
                )
                &&& final(self).listings@ == old(self).listings@
                &&& final(self).custody == old(self).custody
                &&& final(self).received == old(self).received
                &&& final(self).refunded == old(self).refunded
                &&& final(self).paid_out == old(self).paid_out
                &&& final(self).contract_address == old(self).contract_address
            },
    {
        if self.config.is_some() {
            return Err(EscrowError::StateViolation);
        }
        self.config = Some(AuctionConfig { nft_address: nft_contract_address, admin });
        Ok(())
    }

    /// The administrator recorded at initialization.
    pub fn read_administrator(&self) -> (r: Result<u64, EscrowError>)
        ensures
            self.is_initialized() ==> r == Ok::<u64, EscrowError>(self.admin()),
            !self.is_initialized() ==> r == Err::<u64, EscrowError>(EscrowError::StateViolation),
    {
        match self.config {
            Some(c) => Ok(c.admin),
            None => Err(EscrowError::StateViolation),
        }
    }

    /// Whether the program has been initialized.
    pub fn has_administrator(&self) -> (r: bool)
        ensures
            r == self.is_initialized(),
    {
        self.config.is_some()
    }

    /// Lists an asset for auction with an initial sentinel bid.  The caller
    /// must hold custody of the asset in the external registry
    /// (`from_owns_nft` is that registry's answer), may not be the engine
    /// itself, and the asset must not be listed already.
    ///
    /// The host authorizes the acting identity as `from` before calling.
    pub fn auction_nft(
        &mut self,
        from: u64,
        token_id: u128,
        price: i128,
        expiration_date: u64,
        from_owns_nft: bool,
    ) -> (r: Result<(), EscrowError>)
        requires
            old(self).wf(),
        ensures
            final(self).wf(),
            r is Err ==> *final(self) == *old(self) && old(self).list_refusal(
                from,
                token_id,
                from_owns_nft,
            ) == Some(r->Err_0),
            r is Ok <==> old(self).list_refusal(from, token_id, from_owns_nft) is None,
            r is Ok ==> {
                &&& final(self).listing(token_id) is Some
                &&& ({
                    let l = final(self).listing(token_id)->Some_0;
                    &&& l.token_id == token_id
                    &&& l.owner == from
                    &&& l.start_price == price
                    &&& l.expiration_date == expiration_date
                    &&& l.bidders@.len() == 0
                    &&& l.highest_bidder == spec_highest(old(self).contract_address, 0)
                })
                &&& forall|id: u128|
                    id != token_id ==> final(self).listing(id) == old(self).listing(id)
                &&& final(self).custody == old(self).custody
                &&& final(self).received == old(self).received
                &&& final(self).refunded == old(self).refunded
                &&& final(self).paid_out == old(self).paid_out
                &&& final(self).config == old(self).config
                &&& final(self).contract_address == old(self).contract_address
            },
    {
        if self.config.is_none() {
            return Err(EscrowError::StateViolation);
        }
        if !from_owns_nft {
            return Err(EscrowError::AuthorizationFailure);
        }
        if from == self.contract_address {
            return Err(EscrowError::PreconditionViolation);
        }
        if token_id == 0 {
            return Err(EscrowError::PreconditionViolation);
        }
        match find_listing_index(&self.listings, token_id) {
            Some(i) => {
                proof {
                    lemma_find_at_index(self.listings@, i as int);
                }
                Err(EscrowError::StateViolation)
            },
            None => {
                proof {
                    lemma_find_absent(self.listings@, token_id);
                }
                let l = AuctionNFT {
                    token_id,
                    owner: from,
                    start_price: price,
                    expiration_date,
                    bidders: Vec::new(),
                    highest_bidder: HighestBidder { user: self.contract_address, price: 0 },
                };
                proof {
                    lemma_live_sum_push(self.listings@, l, self.contract_address);
                    lemma_find_push(self.listings@, l, token_id);
                    assert forall|id: u128| id != token_id implies find_listing(
                        self.listings@.push(l),
                        id,
                    ) == find_listing(self.listings@, id) by {
                        lemma_find_push(self.listings@, l, id);
                    }
                }
                self.listings.push(l);
                Ok(())
            },
        }
    }

    /// The listing recorded for an asset, or the sentinel record — asset id
    /// zero, owned and "bid on" by the engine itself at price zero — when the
    /// asset is not listed.
    pub fn get_auctioned_nft(&self, token_id: u128) -> (l: AuctionNFT)
        requires
            self.wf(),
        ensures
            self.listing(token_id) is Some ==> {
                let e = self.listing(token_id)->Some_0;
                &&& l.token_id == e.token_id
                &&& l.owner == e.owner
                &&& l.start_price == e.start_price
                &&& l.expiration_date == e.expiration_date
                &&& l.bidders@ == e.bidders@
                &&& l.highest_bidder == e.highest_bidder
            },
            self.listing(token_id) is None ==> {
                &&& l.token_id == 0
                &&& l.owner == self.contract_address
                &&& l.start_price == 0
                &&& l.expiration_date == 0
                &&& l.bidders@.len() == 0
                &&& l.highest_bidder == spec_highest(self.contract_address, 0)
            },
    {
        match find_listing_index(&self.listings, token_id) {
            Some(i) => {
                proof {
                    lemma_find_at_index(self.listings@, i as int);
                }
                AuctionNFT {
                    token_id: self.listings[i].token_id,
                    owner: self.listings[i].owner,
                    start_price: self.listings[i].start_price,
                    expiration_date: self.listings[i].expiration_date,
                    bidders: copy_bidders(&self.listings[i].bidders),
                    highest_bidder: self.listings[i].highest_bidder,
                }
            },
            None => {
                proof {
                    lemma_find_absent(self.listings@, token_id);
                }
                AuctionNFT {
                    token_id: 0,
                    owner: self.contract_address,
                    start_price: 0,
                    expiration_date: 0,
                    bidders: Vec::new(),
                    highest_bidder: HighestBidder { user: self.contract_address, price: 0 },
                }
            },
        }
    }

    /// Places a bid.  A bid is accepted only if it strictly exceeds the
    /// standing highest bid and the auction has not expired; the displaced
    /// real bidder, if any, is refunded in the same operation, so custody
    /// grows by exactly the difference between the new and the previous bid.
    ///
    /// The host authorizes the acting identity as `user` before calling.
    pub fn bid_nft(
        &mut self,
        user: u64,
        token_id: u128,
        bid_price: i128,
        xlm_address: u64,
        now: u64,
    ) -> (r: Result<BidOutcome, EscrowError>)
        requires
            old(self).wf(),
        ensures
            final(self).wf(),
            r is Err ==> *final(self) == *old(self) && old(self).bid_refusal(
                user,
                token_id,
                bid_price,
                now,
            ) == Some(r->Err_0),
            r is Ok <==> old(self).bid_refusal(user, token_id, bid_price, now) is None,
            r is Ok ==> ({
                let l = old(self).listing(token_id)->Some_0;
                let prev = l.highest_bidder;
                let prev_claim = live_claim(l, old(self).contract_address);
                &&& bid_price > prev.price
                &&& r->Ok_0.charge == spec_payment(
                    xlm_address,
                    user,
                    old(self).contract_address,
                    bid_price,
                )
                &&& (prev.user == old(self).contract_address ==> r->Ok_0.refund is None)
                &&& (prev.user != old(self).contract_address ==> r->Ok_0.refund == Some(
                    spec_payment(xlm_address, old(self).contract_address, prev.user, prev.price),
                ))
                &&& final(self).listing(token_id) is Some
                &&& ({
                    let l2 = final(self).listing(token_id)->Some_0;
                    &&& l2.token_id == l.token_id
                    &&& l2.owner == l.owner
                    &&& l2.start_price == l.start_price
                    &&& l2.expiration_date == l.expiration_date
                    &&& l2.highest_bidder == spec_highest(user, bid_price)
                    &&& l2.bidders@ == l.bidders@.insert(0, spec_bidder(user, bid_price))
                })
                &&& forall|id: u128|
                    id != token_id ==> final(self).listing(id) == old(self).listing(id)
                &&& final(self).custody == old(self).custody + bid_price - prev_claim
                &&& final(self).received == old(self).received + bid_price
                &&& final(self).refunded == old(self).refunded + prev_claim
                &&& final(self).paid_out == old(self).paid_out
                &&& final(self).config == old(self).config
                &&& final(self).contract_address == old(self).contract_address
            }),
    {
        if user == self.contract_address {
            return Err(EscrowError::PreconditionViolation);
        }
        if token_id == 0 {
            return Err(EscrowError::PreconditionViolation);
        }
        let i = match find_listing_index(&self.listings, token_id) {
            Some(i) => {
                proof {
                    lemma_find_at_index(self.listings@, i as int);
                }
                i
            },
            None => {
                proof {
                    lemma_find_absent(self.listings@, token_id);
                }
                return Err(EscrowError::NotFound);
            },
        };
        if self.listings[i].owner == user {
            return Err(EscrowError::AuthorizationFailure);
        }
        if now > self.listings[i].expiration_date {
            return Err(EscrowError::StateViolation);
        }
        if bid_price <= self.listings[i].highest_bidder.price {
            return Err(EscrowError::StateViolation);
        }
        if bid_price > i128::MAX - self.received {
            return Err(EscrowError::PreconditionViolation);
        }
        let prev = self.listings[i].highest_bidder;
        let prev_claim: i128 = if prev.user == self.contract_address {
            0
        } else {
            prev.price
        };
        proof {
            lemma_claim_le_live_sum(self.listings@, self.contract_address, i as int);
        }
        let mut new_bidders = copy_bidders(&self.listings[i].bidders);
        new_bidders.insert(0, Bidder { user, price: bid_price });
        let l2 = AuctionNFT {
            token_id,
            owner: self.listings[i].owner,
            start_price: self.listings[i].start_price,
            expiration_date: self.listings[i].expiration_date,
            bidders: new_bidders,
            highest_bidder: HighestBidder { user, price: bid_price },
        };
        proof {
            let s = self.listings@;
            let own = self.contract_address;
            assert(l2.bidders@ =~= seq![Bidder { user, price: bid_price }] + s[i as int].bidders@);
            assert(listing_wf(l2, own)) by {
                assert(listing_wf(s[i as int], own));
                assert(forall|k: int|
                    0 <= k < s[i as int].bidders@.len() ==> l2.bidders@[k + 1] == s[
                        i as int
                    ].bidders@[k]);
                assert(l2.bidders@[0] == Bidder { user, price: bid_price });
            }
            lemma_live_sum_update(s, i as int, l2, own);
            lemma_find_update(s, i as int, l2, token_id);
            assert forall|id: u128| id != token_id implies find_listing(
                s.update(i as int, l2),
                id,
            ) == find_listing(s, id) by {
                lemma_find_update(s, i as int, l2, id);
            }
        }
        self.listings[i] = l2;
        self.custody = self.custody + (bid_price - prev_claim);
        self.received = self.received + bid_price;
        self.refunded = self.refunded + prev_claim;
        let refund = if prev.user == self.contract_address {
            None
        } else {
            Some(Payment { token: xlm_address, from: self.contract_address, to: prev.user, amount: prev.price })
        };
        Ok(BidOutcome {
            charge: Payment { token: xlm_address, from: user, to: self.contract_address, amount: bid_price },
            refund,
        })
    }

    /// Settles an expired auction: removes the listing, pays the listing
    /// owner the standing highest price out of custody, and directs the host
    /// to move the asset's custody to the winner.  With no real bid the
    /// sentinel stands: the payment is zero and the "winner" is the engine's
    /// own account.
    pub fn sell_auctioned_nft(
        &mut self,
        owner: u64,
        token_id: u128,
        xlm_address: u64,
        owner_owns_nft: bool,
        now: u64,
    ) -> (r: Result<SettleOutcome, EscrowError>)
        requires
            old(self).wf(),
        ensures
            final(self).wf(),
            r is Err ==> *final(self) == *old(self) && old(self).settle_refusal(
                owner,
                token_id,
                owner_owns_nft,
                now,
            ) == Some(r->Err_0),
            r is Ok <==> old(self).settle_refusal(owner, token_id, owner_owns_nft, now) is None,
            r is Ok ==> ({
                let l = old(self).listing(token_id)->Some_0;
                &&& r->Ok_0.payment == spec_payment(
                    xlm_address,
                    old(self).contract_address,
                    owner,
                    l.highest_bidder.price,
                )
                &&& r->Ok_0.winner == l.highest_bidder.user
                &&& final(self).listing(token_id) is None
                &&& forall|id: u128|
                    id != token_id ==> final(self).listing(id) == old(self).listing(id)
                &&& final(self).custody == old(self).custody - l.highest_bidder.price
                &&& final(self).paid_out == old(self).paid_out + l.highest_bidder.price
                &&& final(self).received == old(self).received
                &&& final(self).refunded == old(self).refunded
                &&& final(self).config == old(self).config
                &&& final(self).contract_address == old(self).contract_address
            }),
    {
        if self.config.is_none() {
            return Err(EscrowError::StateViolation);
        }
        if !owner_owns_nft {
            return Err(EscrowError::AuthorizationFailure);
        }
        if owner == self.contract_address {
            return Err(EscrowError::PreconditionViolation);
        }
        if token_id == 0 {
            return Err(EscrowError::PreconditionViolation);
        }
        let i = match find_listing_index(&self.listings, token_id) {
            Some(i) => {
                proof {
                    lemma_find_at_index(self.listings@, i as int);
                }
                i
            },
            None => {
                proof {
                    lemma_find_absent(self.listings@, token_id);
                }
                return Err(EscrowError::NotFound);
            },
        };
        if now < self.listings[i].expiration_date {
            return Err(EscrowError::StateViolation);
        }
        proof {
            lemma_claim_le_live_sum(self.listings@, self.contract_address, i as int);
            lemma_live_sum_remove(self.listings@, i as int, self.contract_address);
            lemma_find_remove(self.listings@, i as int, token_id);
            assert forall|id: u128| id != token_id implies find_listing(
                self.listings@.remove(i as int),
                id,
            ) == find_listing(self.listings@, id) by {
                lemma_find_remove(self.listings@, i as int, id);
            }
            assert(forall|k: int|
                0 <= k < self.listings@.remove(i as int).len()
                    ==> self.listings@.remove(i as int)[k] == if k < i as int {
                    self.listings@[k]
                } else {
                    self.listings@[k + 1]
                });
        }
        let l = self.listings.remove(i);
        let price = l.highest_bidder.price;
        self.custody = self.custody - price;
        self.paid_out = self.paid_out + price;
        Ok(SettleOutcome {
            payment: Payment {
                token: xlm_address,
                from: self.contract_address,
                to: owner,
                amount: price,
            },
            winner: l.highest_bidder.user,
        })
    }

    /// Removes a listing before settlement.  Only the listing owner or the
    /// administrator may delist; a standing real bid is refunded in full and
    /// the asset's custody is not touched.
    ///
    /// The host authorizes the acting identity as `from` before calling.
    pub fn delist_auctioned_nft(&mut self, from: u64, token_id: u128, xlm_address: u64) -> (r:
        Result<Option<Payment>, EscrowError>)
        requires
            old(self).wf(),
        ensures
            final(self).wf(),
            r is Err ==> *final(self) == *old(self) && old(self).delist_refusal(from, token_id)
                == Some(r->Err_0),
            r is Ok <==> old(self).delist_refusal(from, token_id) is None,
            r is Ok ==> ({
                let l = old(self).listing(token_id)->Some_0;
                let refund = live_claim(l, old(self).contract_address);
                &&& (refund > 0 ==> r->Ok_0 == Some(
                    spec_payment(
                        xlm_address,
                        old(self).contract_address,
                        l.highest_bidder.user,
                        l.highest_bidder.price,
                    ),
                ))
                &&& (refund == 0 ==> r->Ok_0 is None)
                &&& final(self).listing(token_id) is None
                &&& forall|id: u128|
                    id != token_id ==> final(self).listing(id) == old(self).listing(id)
                &&& final(self).custody == old(self).custody - refund
                &&& final(self).refunded == old(self).refunded + refund
                &&& final(self).received == old(self).received
                &&& final(self).paid_out == old(self).paid_out
                &&& final(self).config == old(self).config
                &&& final(self).contract_address == old(self).contract_address
            }),
    {
        let c = match self.config {
            Some(c) => c,
            None => {
                return Err(EscrowError::StateViolation);
            },
        };
        let i = match find_listing_index(&self.listings, token_id) {
            Some(i) => {
                proof {
                    lemma_find_at_index(self.listings@, i as int);
                }
                i
            },
            None => {
                proof {
                    lemma_find_absent(self.listings@, token_id);
                }
                return Err(EscrowError::NotFound);
            },
        };
        if from != self.listings[i].owner && from != c.admin {
            return Err(EscrowError::AuthorizationFailure);
        }
        proof {
            lemma_claim_le_live_sum(self.listings@, self.contract_address, i as int);
            lemma_live_sum_remove(self.listings@, i as int, self.contract_address);
            lemma_find_remove(self.listings@, i as int, token_id);
            assert forall|id: u128| id != token_id implies find_listing(
                self.listings@.remove(i as int),
                id,
            ) == find_listing(self.listings@, id) by {
                lemma_find_remove(self.listings@, i as int, id);
            }
            assert(forall|k: int|
                0 <= k < self.listings@.remove(i as int).len()
                    ==> self.listings@.remove(i as int)[k] == if k < i as int {
                    self.listings@[k]
                } else {
                    self.listings@[k + 1]
                });
        }
        let l = self.listings.remove(i);
        let hb = l.highest_bidder;
        if hb.user != l.owner && hb.price != 0 && hb.user != self.contract_address {
            self.custody = self.custody - hb.price;
            self.refunded = self.refunded + hb.price;
            Ok(
                Some(
                    Payment {
                        token: xlm_address,
                        from: self.contract_address,
                        to: hb.user,
                        amount: hb.price,
                    },
                ),
            )
        } else {
            Ok(None)
        }
    }
}

/// Conservation: at every observation point, everything ever received is
/// either still in custody, refunded to a bidder, or paid to a listing
/// owner — and custody holds exactly the standing real bids.  Every
/// operation preserves well-formedness, so this holds along every sequence
/// of operations.
pub proof fn lemma_auction_conservation(s: NFTAuctionStorefront)
    requires
        s.wf(),
    ensures
        s.received == s.custody + s.refunded + s.paid_out,
        s.custody == live_sum(s.listings@, s.contract_address),
{
}

} // verus!
