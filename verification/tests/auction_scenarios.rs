use escrow_engine::auction::{BidOutcome, NFTAuctionStorefront, SettleOutcome};
use escrow_engine::errors::EscrowError;
use escrow_engine::gateway::Payment;

const ENGINE: u64 = 50;
const ADMIN: u64 = 51;
const REGISTRY: u64 = 52;
const OWNER: u64 = 10;
const ANNA: u64 = 11;
const BEN: u64 = 12;
const XLM: u64 = 5;
const NFT: u128 = 1;
const EXPIRY: u64 = 1000;

fn listed_auction(reserve: i128) -> NFTAuctionStorefront {
    let mut sf = NFTAuctionStorefront::new(ENGINE);
    assert_eq!(sf.initialize(REGISTRY, ADMIN), Ok(()));
    assert_eq!(sf.auction_nft(OWNER, NFT, reserve, EXPIRY, true), Ok(()));
    sf
}

#[test]
fn auction_double_initialize_fails() {
    let mut sf = NFTAuctionStorefront::new(ENGINE);
    assert_eq!(sf.initialize(REGISTRY, ADMIN), Ok(()));
    assert_eq!(sf.initialize(REGISTRY, 77), Err(EscrowError::StateViolation));
    assert_eq!(sf.read_administrator(), Ok(ADMIN));
}

#[test]
fn auction_requires_initialization() {
    let mut sf = NFTAuctionStorefront::new(ENGINE);
    assert!(!sf.has_administrator());
    assert_eq!(sf.auction_nft(OWNER, NFT, 100, EXPIRY, true), Err(EscrowError::StateViolation));
}

#[test]
fn listing_records_the_auction() {
    let sf = listed_auction(100);
    let l = sf.get_auctioned_nft(NFT);
    assert_eq!(l.token_id, NFT);
    assert_eq!(l.owner, OWNER);
    assert_eq!(l.start_price, 100);
    assert_eq!(l.expiration_date, EXPIRY);
    assert!(l.bidders.is_empty());
    assert_eq!(l.highest_bidder.user, ENGINE);
    assert_eq!(l.highest_bidder.price, 0);
}

#[test]
fn unlisted_lookup_returns_the_sentinel_record() {
    let sf = listed_auction(100);
    let l = sf.get_auctioned_nft(2);
    assert_eq!(l.token_id, 0);
    assert_eq!(l.owner, ENGINE);
    assert_eq!(l.highest_bidder.user, ENGINE);
    assert_eq!(l.highest_bidder.price, 0);
}

#[test]
fn listing_refusals() {
    let mut sf = listed_auction(100);
    // Not the asset's holder per the registry.
    assert_eq!(sf.auction_nft(ANNA, 2, 100, EXPIRY, false), Err(EscrowError::AuthorizationFailure));
    // The engine itself may not list.
    assert_eq!(sf.auction_nft(ENGINE, 2, 100, EXPIRY, true), Err(EscrowError::PreconditionViolation));
    // A zero asset id is malformed.
    assert_eq!(sf.auction_nft(ANNA, 0, 100, EXPIRY, true), Err(EscrowError::PreconditionViolation));
    // Already listed.
    assert_eq!(sf.auction_nft(OWNER, NFT, 200, EXPIRY, true), Err(EscrowError::StateViolation));
}

#[test]
fn ratcheting_bids_refund_the_displaced_bidder() {
    // Reserve 100: Anna bids 150 (accepted), Ben bids 120 (rejected), Ben
    // bids 200 (accepted, Anna refunded her 150).
    let mut sf = listed_auction(100);
    let first = sf.bid_nft(ANNA, NFT, 150, XLM, 10);
    assert_eq!(
        first,
        Ok(BidOutcome {
            charge: Payment { token: XLM, from: ANNA, to: ENGINE, amount: 150 },
            refund: None,
        })
    );
    let low = sf.bid_nft(BEN, NFT, 120, XLM, 20);
    assert_eq!(low, Err(EscrowError::StateViolation));
    // The rejected bid changed nothing.
    let l = sf.get_auctioned_nft(NFT);
    assert_eq!(l.highest_bidder.user, ANNA);
    assert_eq!(l.highest_bidder.price, 150);
    let second = sf.bid_nft(BEN, NFT, 200, XLM, 30);
    assert_eq!(
        second,
        Ok(BidOutcome {
            charge: Payment { token: XLM, from: BEN, to: ENGINE, amount: 200 },
            refund: Some(Payment { token: XLM, from: ENGINE, to: ANNA, amount: 150 }),
        })
    );
    let l2 = sf.get_auctioned_nft(NFT);
    assert_eq!(l2.highest_bidder.user, BEN);
    assert_eq!(l2.highest_bidder.price, 200);
    // Most recent bid first, strictly descending.
    assert_eq!(l2.bidders.len(), 2);
    assert_eq!(l2.bidders[0].user, BEN);
    assert_eq!(l2.bidders[0].price, 200);
    assert_eq!(l2.bidders[1].user, ANNA);
    assert_eq!(l2.bidders[1].price, 150);
}

#[test]
fn bid_matching_the_highest_is_rejected() {
    let mut sf = listed_auction(100);
    assert_eq!(
        sf.bid_nft(ANNA, NFT, 150, XLM, 10),
        Ok(BidOutcome {
            charge: Payment { token: XLM, from: ANNA, to: ENGINE, amount: 150 },
            refund: None,
        })
    );
    assert_eq!(sf.bid_nft(BEN, NFT, 150, XLM, 20), Err(EscrowError::StateViolation));
}

#[test]
fn bid_refusals() {
    let mut sf = listed_auction(100);
    // The engine itself may not bid.
    assert_eq!(sf.bid_nft(ENGINE, NFT, 150, XLM, 10), Err(EscrowError::PreconditionViolation));
    // A zero asset id is malformed.
    assert_eq!(sf.bid_nft(ANNA, 0, 150, XLM, 10), Err(EscrowError::PreconditionViolation));
    // The listing owner may not bid.
    assert_eq!(sf.bid_nft(OWNER, NFT, 150, XLM, 10), Err(EscrowError::AuthorizationFailure));
    // An unlisted asset has nothing to bid on.
    assert_eq!(sf.bid_nft(ANNA, 2, 150, XLM, 10), Err(EscrowError::NotFound));
    // The auction has expired.
    assert_eq!(sf.bid_nft(ANNA, NFT, 150, XLM, EXPIRY + 1), Err(EscrowError::StateViolation));
    // A bid exactly at the expiration time still stands.
    assert!(sf.bid_nft(ANNA, NFT, 150, XLM, EXPIRY).is_ok());
}

#[test]
fn settlement_pays_the_owner_and_hands_the_asset_to_the_winner() {
    let mut sf = listed_auction(100);
    assert!(sf.bid_nft(ANNA, NFT, 150, XLM, 10).is_ok());
    assert!(sf.bid_nft(BEN, NFT, 200, XLM, 20).is_ok());
    // Not before expiration.
    assert_eq!(
        sf.sell_auctioned_nft(OWNER, NFT, XLM, true, EXPIRY - 1),
        Err(EscrowError::StateViolation)
    );
    let settled = sf.sell_auctioned_nft(OWNER, NFT, XLM, true, EXPIRY + 1);
    assert_eq!(
        settled,
        Ok(SettleOutcome {
            payment: Payment { token: XLM, from: ENGINE, to: OWNER, amount: 200 },
            winner: BEN,
        })
    );
    // The listing is gone.
    assert_eq!(sf.get_auctioned_nft(NFT).token_id, 0);
    assert_eq!(sf.sell_auctioned_nft(OWNER, NFT, XLM, true, EXPIRY + 1), Err(EscrowError::NotFound));
}

#[test]
fn settlement_with_no_bid_pays_zero_to_the_owner() {
    let mut sf = listed_auction(100);
    let settled = sf.sell_auctioned_nft(OWNER, NFT, XLM, true, EXPIRY + 1);
    assert_eq!(
        settled,
        Ok(SettleOutcome {
            payment: Payment { token: XLM, from: ENGINE, to: OWNER, amount: 0 },
            winner: ENGINE,
        })
    );
}

#[test]
fn delist_before_any_bid_refunds_nothing() {
    let mut sf = listed_auction(100);
    let r = sf.delist_auctioned_nft(OWNER, NFT, XLM);
    assert_eq!(r, Ok(None));
    assert_eq!(sf.get_auctioned_nft(NFT).token_id, 0);
}

#[test]
fn delist_refunds_the_standing_bidder() {
    let mut sf = listed_auction(100);
    assert!(sf.bid_nft(ANNA, NFT, 150, XLM, 10).is_ok());
    let r = sf.delist_auctioned_nft(OWNER, NFT, XLM);
    assert_eq!(r, Ok(Some(Payment { token: XLM, from: ENGINE, to: ANNA, amount: 150 })));
}

#[test]
fn delist_by_admin_is_allowed_by_stranger_is_not() {
    let mut sf = listed_auction(100);
    assert_eq!(sf.delist_auctioned_nft(BEN, NFT, XLM), Err(EscrowError::AuthorizationFailure));
    assert_eq!(sf.delist_auctioned_nft(ADMIN, NFT, XLM), Ok(None));
    assert_eq!(sf.delist_auctioned_nft(ADMIN, NFT, XLM), Err(EscrowError::NotFound));
}
