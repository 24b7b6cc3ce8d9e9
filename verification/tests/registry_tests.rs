use proofcart::errors::RegistryError;
use proofcart::registry::{MintRequest, Registry, TransactionKind};

const ADMIN: u64 = 9;
const ALICE: u64 = 1;
const BOB: u64 = 2;

fn request(serial: &str) -> MintRequest {
    MintRequest {
        serial_number: serial.to_string(),
        product_name: "Widget".to_string(),
        manufacturer: "Acme".to_string(),
        manufacture_date: "2024-01-01".to_string(),
        category: "Tools".to_string(),
        description: "A widget".to_string(),
        specifications: "Steel".to_string(),
        warranty_info: "2 years".to_string(),
        certifications: vec!["ISO-9001".to_string()],
        ipfs_metadata_uri: "ipfs://widget".to_string(),
    }
}

#[test]
fn mint_records_everything() {
    let mut r = Registry::new(ADMIN);
    let nft = r.mint_product_nft(ALICE, request("SN-1"), 42).unwrap();
    assert_eq!(nft.nft_id, 0);
    assert_eq!(nft.serial_number, "SN-1");
    assert_eq!(nft.owner, ALICE);
    assert_eq!(nft.minted_at, 42);
    assert!(nft.verified);
    assert_eq!(nft.metadata.product_name, "Widget");
    assert_eq!(nft.metadata.certifications, vec!["ISO-9001".to_string()]);
    assert_eq!(nft.ownership_history.len(), 1);
    assert_eq!(nft.ownership_history[0].owner, ALICE);
    assert_eq!(nft.ownership_history[0].timestamp, 42);
    assert_eq!(nft.ownership_history[0].transaction_type, TransactionKind::Mint);
    assert_eq!(r.get_total_supply(), 1);
}

#[test]
fn duplicate_serial_is_rejected() {
    let mut r = Registry::new(ADMIN);
    r.mint_product_nft(ALICE, request("SN-1"), 1).unwrap();
    let err = r.mint_product_nft(BOB, request("SN-1"), 2).unwrap_err();
    assert_eq!(err, RegistryError::SerialExists);
    assert_eq!(r.get_total_supply(), 1);
    // The kept token is still Alice's.
    assert_eq!(r.verify_product(&"SN-1".to_string()).unwrap().owner, ALICE);
}

#[test]
fn identifiers_are_sequential() {
    let mut r = Registry::new(ADMIN);
    assert_eq!(r.mint_product_nft(ALICE, request("SN-1"), 1).unwrap().nft_id, 0);
    assert_eq!(r.mint_product_nft(ALICE, request("SN-2"), 2).unwrap().nft_id, 1);
    assert_eq!(r.mint_product_nft(BOB, request("SN-3"), 3).unwrap().nft_id, 2);
    assert_eq!(r.get_total_supply(), 3);
    assert_eq!(r.get_nft(1).unwrap().serial_number, "SN-2");
    assert_eq!(r.get_nft(3).unwrap_err(), RegistryError::NotFound);
}

#[test]
fn lookup_by_serial() {
    let mut r = Registry::new(ADMIN);
    r.mint_product_nft(ALICE, request("SN-1"), 1).unwrap();
    assert!(r.nft_exists(&"SN-1".to_string()));
    assert!(!r.nft_exists(&"SN-2".to_string()));
    let nft = r.verify_product(&"SN-1".to_string()).unwrap();
    assert_eq!(nft.nft_id, 0);
    assert_eq!(
        r.verify_product(&"SN-2".to_string()).unwrap_err(),
        RegistryError::NotFound
    );
    let md = r.get_metadata(&"SN-1".to_string()).unwrap();
    assert_eq!(md.serial_number, "SN-1");
    assert_eq!(
        r.get_metadata(&"SN-2".to_string()).unwrap_err(),
        RegistryError::NotFound
    );
}

#[test]
fn transfer_moves_ownership_and_extends_history() {
    let mut r = Registry::new(ADMIN);
    r.mint_product_nft(ALICE, request("SN-1"), 1).unwrap();
    let nft = r.transfer_nft(ALICE, 0, BOB, 7).unwrap();
    assert_eq!(nft.owner, BOB);
    assert_eq!(nft.ownership_history.len(), 2);
    assert_eq!(nft.ownership_history[1].owner, BOB);
    assert_eq!(nft.ownership_history[1].timestamp, 7);
    assert_eq!(nft.ownership_history[1].transaction_type, TransactionKind::Transfer);
    let history = r.get_ownership_history(0).unwrap();
    assert_eq!(history.len(), 2);
    assert_eq!(r.get_ownership_history(1).unwrap_err(), RegistryError::NotFound);
}

#[test]
fn only_the_owner_transfers() {
    let mut r = Registry::new(ADMIN);
    r.mint_product_nft(ALICE, request("SN-1"), 1).unwrap();
    assert_eq!(r.transfer_nft(BOB, 0, BOB, 2).unwrap_err(), RegistryError::Unauthorized);
    assert_eq!(r.transfer_nft(ALICE, 5, BOB, 2).unwrap_err(), RegistryError::NotFound);
    assert_eq!(r.get_nft(0).unwrap().owner, ALICE);
}

#[test]
fn revocation_is_admin_only() {
    let mut r = Registry::new(ADMIN);
    r.mint_product_nft(ALICE, request("SN-1"), 1).unwrap();
    assert_eq!(
        r.revoke_verification(ALICE, 0).unwrap_err(),
        RegistryError::Unauthorized
    );
    assert!(r.get_nft(0).unwrap().verified);
    assert_eq!(
        r.revoke_verification(ADMIN, 9).unwrap_err(),
        RegistryError::NotFound
    );
    let nft = r.revoke_verification(ADMIN, 0).unwrap();
    assert!(!nft.verified);
    assert!(!r.get_nft(0).unwrap().verified);
}

#[test]
fn tokens_by_owner_follow_transfers() {
    let mut r = Registry::new(ADMIN);
    r.mint_product_nft(ALICE, request("SN-1"), 1).unwrap();
    r.mint_product_nft(BOB, request("SN-2"), 2).unwrap();
    r.mint_product_nft(ALICE, request("SN-3"), 3).unwrap();
    let alice_nfts = r.get_nfts_by_owner(ALICE);
    assert_eq!(alice_nfts.len(), 2);
    assert_eq!(alice_nfts[0].serial_number, "SN-1");
    assert_eq!(alice_nfts[1].serial_number, "SN-3");
    r.transfer_nft(ALICE, 0, BOB, 4).unwrap();
    assert_eq!(r.get_nfts_by_owner(ALICE).len(), 1);
    let bob_nfts = r.get_nfts_by_owner(BOB);
    assert_eq!(bob_nfts.len(), 2);
    assert_eq!(r.get_nfts_by_owner(77).len(), 0);
}

#[test]
fn batch_verify_pairs_each_serial() {
    let mut r = Registry::new(ADMIN);
    r.mint_product_nft(ALICE, request("SN-1"), 1).unwrap();
    r.mint_product_nft(BOB, request("SN-2"), 2).unwrap();
    let serials = vec!["SN-2".to_string(), "SN-9".to_string(), "SN-1".to_string()];
    let results = r.batch_verify_nfts(&serials);
    assert_eq!(results.len(), 3);
    assert_eq!(results[0].0, "SN-2");
    assert_eq!(results[0].1.as_ref().unwrap().owner, BOB);
    assert_eq!(results[1].0, "SN-9");
    assert!(results[1].1.is_none());
    assert_eq!(results[2].1.as_ref().unwrap().owner, ALICE);
}

#[test]
fn empty_registry_answers_empty() {
    let r = Registry::new(ADMIN);
    assert_eq!(r.get_total_supply(), 0);
    assert_eq!(r.get_nft(0).unwrap_err(), RegistryError::NotFound);
    assert!(!r.nft_exists(&"SN-1".to_string()));
    assert_eq!(r.get_nfts_by_owner(ALICE).len(), 0);
    assert_eq!(r.admin(), ADMIN);
}
