use escrow_engine::errors::EscrowError;
use escrow_engine::nft::NFTContract;
use escrow_engine::sbt::SBTContract;

const ENGINE: u64 = 90;
const ADMIN: u64 = 91;
const ALICE: u64 = 20;
const BOB: u64 = 21;

fn nft_collection() -> NFTContract {
    let mut c = NFTContract::new(ENGINE);
    assert_eq!(c.initialize(ADMIN, String::from("Relics"), String::from("RLC")), Ok(()));
    c
}

#[test]
fn nft_initialize_once() {
    let mut c = nft_collection();
    assert!(c.has_administrator());
    assert_eq!(c.read_administrator(), Ok(ADMIN));
    assert_eq!(
        c.initialize(BOB, String::from("Other"), String::from("OTH")),
        Err(EscrowError::StateViolation)
    );
    assert_eq!(c.read_administrator(), Ok(ADMIN));
    assert_eq!(c.name(), Ok(String::from("Relics")));
    assert_eq!(c.symbol(), Ok(String::from("RLC")));
}

#[test]
fn nft_metadata_requires_initialization() {
    let c = NFTContract::new(ENGINE);
    assert_eq!(c.read_administrator(), Err(EscrowError::StateViolation));
    assert_eq!(c.name(), Err(EscrowError::StateViolation));
    assert_eq!(c.symbol(), Err(EscrowError::StateViolation));
}

#[test]
fn nft_mint_hands_out_consecutive_ids() {
    let mut c = nft_collection();
    assert_eq!(c.mint_nft(ALICE, String::from("ipfs://a")), Ok(1));
    assert_eq!(c.mint_nft(BOB, String::from("ipfs://b")), Ok(2));
    let d1 = c.get_nft_detail(1);
    assert_eq!(d1.owner, ALICE);
    assert_eq!(d1.uri, String::from("ipfs://a"));
    let d2 = c.get_nft_detail(2);
    assert_eq!(d2.owner, BOB);
    assert_eq!(d2.uri, String::from("ipfs://b"));
}

#[test]
fn nft_mint_refusals() {
    let mut c = nft_collection();
    assert_eq!(c.mint_nft(ENGINE, String::from("ipfs://a")), Err(EscrowError::PreconditionViolation));
    assert_eq!(c.mint_nft(ALICE, String::new()), Err(EscrowError::PreconditionViolation));
}

#[test]
fn nft_unminted_detail_is_the_sentinel() {
    let c = nft_collection();
    let d = c.get_nft_detail(9);
    assert_eq!(d.owner, ENGINE);
    assert!(d.uri.is_empty());
}

#[test]
fn nft_ownership_check_is_inverted() {
    let mut c = nft_collection();
    assert_eq!(c.mint_nft(ALICE, String::from("ipfs://a")), Ok(1));
    // `has_nft_owner` reports whether the account is NOT the holder.
    assert!(!c.has_nft_owner(ALICE, 1));
    assert!(c.has_nft_owner(BOB, 1));
    assert!(c.has_nft_owner(ALICE, 2));
}

#[test]
fn nft_transfer_moves_custody_and_keeps_the_reference() {
    let mut c = nft_collection();
    assert_eq!(c.mint_nft(ALICE, String::from("ipfs://a")), Ok(1));
    assert_eq!(c.transfer_nft(ALICE, BOB, 1), Ok(()));
    let d = c.get_nft_detail(1);
    assert_eq!(d.owner, BOB);
    assert_eq!(d.uri, String::from("ipfs://a"));
    // Only the holder may transfer.
    assert_eq!(c.transfer_nft(ALICE, BOB, 1), Err(EscrowError::AuthorizationFailure));
}

#[test]
fn nft_burn_returns_the_record_to_the_contract() {
    let mut c = nft_collection();
    assert_eq!(c.mint_nft(ALICE, String::from("ipfs://a")), Ok(1));
    assert_eq!(c.burn_nft(BOB, 1), Err(EscrowError::AuthorizationFailure));
    assert_eq!(c.burn_nft(ALICE, 1), Ok(()));
    let d = c.get_nft_detail(1);
    assert_eq!(d.owner, ENGINE);
    assert!(d.uri.is_empty());
    // A burned token cannot be burned or transferred again.
    assert_eq!(c.burn_nft(ALICE, 1), Err(EscrowError::AuthorizationFailure));
    assert_eq!(c.transfer_nft(ALICE, BOB, 1), Err(EscrowError::AuthorizationFailure));
}

#[test]
fn sbt_mints_and_reads_back() {
    let mut c = SBTContract::new(ENGINE);
    assert_eq!(c.initialize(ADMIN, String::from("Badges"), String::from("BDG")), Ok(()));
    assert_eq!(
        c.initialize(ADMIN, String::from("Badges"), String::from("BDG")),
        Err(EscrowError::StateViolation)
    );
    assert_eq!(c.mint_sbt(ALICE, String::from("ipfs://badge")), Ok(1));
    let d = c.get_sbt_detail(1);
    assert_eq!(d.owner, ALICE);
    assert_eq!(d.uri, String::from("ipfs://badge"));
    assert!(!c.has_sbt_owner(ALICE, 1));
    assert!(c.has_sbt_owner(BOB, 1));
    assert_eq!(c.name(), Ok(String::from("Badges")));
    assert_eq!(c.symbol(), Ok(String::from("BDG")));
}

#[test]
fn sbt_mint_refusals() {
    let mut c = SBTContract::new(ENGINE);
    assert_eq!(c.initialize(ADMIN, String::from("Badges"), String::from("BDG")), Ok(()));
    assert_eq!(c.mint_sbt(ENGINE, String::from("x")), Err(EscrowError::PreconditionViolation));
    assert_eq!(c.mint_sbt(ALICE, String::new()), Err(EscrowError::PreconditionViolation));
}
