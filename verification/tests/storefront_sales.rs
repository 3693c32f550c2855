use escrow_engine::errors::EscrowError;
use escrow_engine::gateway::Payment;
use escrow_engine::storefront::{NFTListing, NFTStoreFront};

const ENGINE: u64 = 70;
const ADMIN: u64 = 71;
const REGISTRY: u64 = 72;
const OWNER: u64 = 30;
const BUYER: u64 = 31;
const XLM: u64 = 5;
const NFT: u128 = 1;

fn open_storefront() -> NFTStoreFront {
    let mut sf = NFTStoreFront::new(ENGINE);
    assert_eq!(sf.initialize(REGISTRY, ADMIN), Ok(()));
    sf
}

#[test]
fn storefront_double_initialize_fails() {
    let mut sf = open_storefront();
    assert!(sf.has_administrator());
    assert_eq!(sf.initialize(REGISTRY, 5), Err(EscrowError::StateViolation));
    assert_eq!(sf.read_administrator(), Ok(ADMIN));
}

#[test]
fn listing_records_the_sale() {
    let mut sf = open_storefront();
    assert_eq!(sf.list_nft(OWNER, NFT, 250, true), Ok(()));
    assert_eq!(
        sf.get_listed_nft(NFT),
        NFTListing { token_id: NFT, owner: OWNER, price: 250 }
    );
    // Unlisted assets read back as the sentinel record.
    assert_eq!(
        sf.get_listed_nft(2),
        NFTListing { token_id: 0, owner: ENGINE, price: 0 }
    );
}

#[test]
fn storefront_listing_refusals() {
    let mut sf = open_storefront();
    assert_eq!(sf.list_nft(OWNER, NFT, 250, false), Err(EscrowError::AuthorizationFailure));
    assert_eq!(sf.list_nft(ENGINE, NFT, 250, true), Err(EscrowError::PreconditionViolation));
    assert_eq!(sf.list_nft(OWNER, 0, 250, true), Err(EscrowError::PreconditionViolation));
    assert_eq!(sf.list_nft(OWNER, NFT, 250, true), Ok(()));
    assert_eq!(sf.list_nft(OWNER, NFT, 300, true), Err(EscrowError::StateViolation));
}

#[test]
fn purchase_pays_the_owner_and_removes_the_listing() {
    let mut sf = open_storefront();
    assert_eq!(sf.list_nft(OWNER, NFT, 250, true), Ok(()));
    let r = sf.purchase_listed_nft(OWNER, BUYER, NFT, XLM, true);
    assert_eq!(r, Ok(Payment { token: XLM, from: BUYER, to: OWNER, amount: 250 }));
    assert_eq!(sf.get_listed_nft(NFT).token_id, 0);
    assert_eq!(
        sf.purchase_listed_nft(OWNER, BUYER, NFT, XLM, true),
        Err(EscrowError::NotFound)
    );
}

#[test]
fn purchase_refusals() {
    let mut sf = open_storefront();
    assert_eq!(sf.list_nft(OWNER, NFT, 250, true), Ok(()));
    assert_eq!(
        sf.purchase_listed_nft(OWNER, BUYER, NFT, XLM, false),
        Err(EscrowError::AuthorizationFailure)
    );
    assert_eq!(
        sf.purchase_listed_nft(ENGINE, BUYER, NFT, XLM, true),
        Err(EscrowError::PreconditionViolation)
    );
    assert_eq!(
        sf.purchase_listed_nft(OWNER, BUYER, 0, XLM, true),
        Err(EscrowError::PreconditionViolation)
    );
}

#[test]
fn storefront_delist_rules() {
    let mut sf = open_storefront();
    assert_eq!(sf.list_nft(OWNER, NFT, 250, true), Ok(()));
    assert_eq!(sf.delist_nft(BUYER, NFT), Err(EscrowError::AuthorizationFailure));
    assert_eq!(sf.delist_nft(OWNER, NFT), Ok(()));
    assert_eq!(sf.delist_nft(OWNER, NFT), Err(EscrowError::NotFound));
    // The administrator may delist any listing.
    assert_eq!(sf.list_nft(OWNER, NFT, 250, true), Ok(()));
    assert_eq!(sf.delist_nft(ADMIN, NFT), Ok(()));
}

#[test]
fn storefront_requires_initialization() {
    let mut sf = NFTStoreFront::new(ENGINE);
    assert_eq!(sf.list_nft(OWNER, NFT, 250, true), Err(EscrowError::StateViolation));
    assert_eq!(sf.delist_nft(OWNER, NFT), Err(EscrowError::StateViolation));
    assert_eq!(
        sf.purchase_listed_nft(OWNER, BUYER, NFT, XLM, true),
        Err(EscrowError::StateViolation)
    );
}
