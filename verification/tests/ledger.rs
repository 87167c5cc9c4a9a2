use nft_program::address::{Address, Authorities, Signer};
use nft_program::calls::{
    Allocation, EditionCreation, IndexCreation, Issuance, LedgerCall, MetadataCreation,
    MetadataUpdate, MintInitialization,
};
use nft_program::derivation::{derive_edition, derive_metadata, derive_ownership_index};
use nft_program::error::NftError;
use nft_program::ledger::Ledger;
use nft_program::metadata::Creator;
use nft_program::records::{EditionRecord, LedgerRecord, OwnershipIndexRecord};

const RENT: u64 = 10;

fn key(n: u8) -> Address {
    Address::new([n; 32])
}

fn signed(n: u8) -> Signer {
    Signer { key: key(n), signed: true }
}

fn unsigned(n: u8) -> Signer {
    Signer { key: key(n), signed: false }
}

const PAYER: u8 = 1;
const AUTHORITY: u8 = 2;
const MINT: u8 = 3;
const TOKEN_PROGRAM: u8 = 4;
const INDEX_PROGRAM: u8 = 5;
const METADATA_PROGRAM: u8 = 6;

fn index_address(owner: u8, mint: u8) -> Address {
    derive_ownership_index(&key(owner), &key(mint), &key(TOKEN_PROGRAM), &key(INDEX_PROGRAM))
        .unwrap()
}

fn metadata_address(mint: u8) -> Address {
    derive_metadata(&key(METADATA_PROGRAM), &key(mint)).unwrap()
}

fn edition_address(mint: u8) -> Address {
    derive_edition(&key(METADATA_PROGRAM), &key(mint)).unwrap()
}

fn authorities() -> Authorities {
    Authorities {
        token_program: key(TOKEN_PROGRAM),
        index_program: key(INDEX_PROGRAM),
        metadata_program: key(METADATA_PROGRAM),
    }
}

fn funded() -> Ledger {
    let mut ledger = Ledger::new(RENT, authorities());
    ledger.deposit(&key(PAYER), 1_000_000);
    ledger.deposit(&key(AUTHORITY), 1_000_000);
    ledger
}

fn allocation() -> Allocation {
    Allocation { funder: signed(AUTHORITY), new_address: key(MINT), size: 82, owner: key(TOKEN_PROGRAM) }
}

fn initialization() -> MintInitialization {
    MintInitialization {
        token_program: key(TOKEN_PROGRAM),
        mint: key(MINT),
        decimals: 0,
        mint_authority: key(AUTHORITY),
        freeze_authority: Some(key(AUTHORITY)),
    }
}

fn index_creation() -> IndexCreation {
    IndexCreation {
        index_program: key(INDEX_PROGRAM),
        token_program: key(TOKEN_PROGRAM),
        payer: signed(PAYER),
        owner: key(PAYER),
        mint: key(MINT),
        index: index_address(PAYER, MINT),
    }
}

fn metadata_creation() -> MetadataCreation {
    MetadataCreation {
        program: key(METADATA_PROGRAM),
        metadata: metadata_address(MINT),
        mint: key(MINT),
        mint_authority: signed(AUTHORITY),
        payer: signed(PAYER),
        update_authority: signed(AUTHORITY),
        name: "Degen Ape #1".to_string(),
        symbol: "DAPE".to_string(),
        uri: "https://example/1.json".to_string(),
        creators: vec![Creator { address: key(AUTHORITY), verified: false, share: 100 }],
        royalty_bps: 100,
        is_mutable: true,
    }
}

fn issuance() -> Issuance {
    Issuance {
        index_program: key(INDEX_PROGRAM),
        token_program: key(TOKEN_PROGRAM),
        mint: key(MINT),
        owner: key(PAYER),
        destination: index_address(PAYER, MINT),
        authority: signed(AUTHORITY),
        amount: 1,
    }
}

fn edition_creation() -> EditionCreation {
    EditionCreation {
        program: key(METADATA_PROGRAM),
        edition: edition_address(MINT),
        mint: key(MINT),
        update_authority: signed(AUTHORITY),
        mint_authority: signed(AUTHORITY),
        metadata: metadata_address(MINT),
        payer: signed(PAYER),
        max_supply: Some(1),
    }
}

fn with_mint() -> Ledger {
    let mut ledger = funded();
    ledger.allocate(&allocation()).unwrap();
    ledger.initialize(&initialization()).unwrap();
    ledger
}

fn created() -> Ledger {
    let mut ledger = with_mint();
    ledger.create_index(&index_creation()).unwrap();
    ledger.create_metadata(&metadata_creation()).unwrap();
    ledger
}

fn minted() -> Ledger {
    let mut ledger = created();
    ledger.issue(&issuance()).unwrap();
    ledger
}

#[test]
fn a_new_ledger_is_empty() {
    let ledger = Ledger::new(RENT, authorities());
    assert_eq!(ledger.authorities(), authorities());
    assert!(!ledger.has_record(&key(MINT)));
    assert_eq!(ledger.balance(&key(PAYER)), 0);
    assert_eq!(ledger.mint_record(&key(MINT)), None);
}

#[test]
fn deposit_adds_up_and_saturates() {
    let mut ledger = Ledger::new(RENT, authorities());
    ledger.deposit(&key(PAYER), 5);
    ledger.deposit(&key(PAYER), 7);
    assert_eq!(ledger.balance(&key(PAYER)), 12);
    assert_eq!(ledger.balance(&key(AUTHORITY)), 0);
    ledger.deposit(&key(PAYER), u64::MAX);
    assert_eq!(ledger.balance(&key(PAYER)), u64::MAX);
}

#[test]
fn allocate_charges_rent_by_the_byte() {
    let mut ledger = funded();
    assert_eq!(ledger.allocate(&allocation()), Ok(()));
    assert_eq!(ledger.balance(&key(AUTHORITY)), 1_000_000 - 82 * RENT);
    assert_eq!(ledger.balance(&key(PAYER)), 1_000_000);
    assert!(ledger.has_record(&key(MINT)));
    assert_eq!(ledger.mint_record(&key(MINT)), None);
}

#[test]
fn allocate_needs_the_funders_signature() {
    let mut ledger = funded();
    let call = Allocation { funder: unsigned(AUTHORITY), ..allocation() };
    assert_eq!(ledger.allocate(&call), Err(NftError::AuthorizationFailure));
    assert!(!ledger.has_record(&key(MINT)));
}

#[test]
fn allocate_refuses_an_address_in_use() {
    let mut ledger = funded();
    ledger.allocate(&allocation()).unwrap();
    assert_eq!(ledger.allocate(&allocation()), Err(NftError::AddressInUse));
    assert_eq!(ledger.balance(&key(AUTHORITY)), 1_000_000 - 82 * RENT);
}

#[test]
fn allocate_needs_the_exact_rent() {
    let mut ledger = Ledger::new(RENT, authorities());
    ledger.deposit(&key(AUTHORITY), 82 * RENT - 1);
    assert_eq!(ledger.allocate(&allocation()), Err(NftError::InsufficientFunding));
    assert_eq!(ledger.balance(&key(AUTHORITY)), 82 * RENT - 1);
    ledger.deposit(&key(AUTHORITY), 1);
    assert_eq!(ledger.allocate(&allocation()), Ok(()));
    assert_eq!(ledger.balance(&key(AUTHORITY)), 0);
}

#[test]
fn rent_beyond_any_balance_is_insufficient_funding() {
    let mut ledger = Ledger::new(u64::MAX, authorities());
    ledger.deposit(&key(AUTHORITY), u64::MAX);
    let call = Allocation { size: u64::MAX, ..allocation() };
    assert_eq!(ledger.allocate(&call), Err(NftError::InsufficientFunding));
}

#[test]
fn initialize_sets_the_ledger_record() {
    let ledger = with_mint();
    assert_eq!(
        ledger.mint_record(&key(MINT)),
        Some(LedgerRecord {
            decimals: 0,
            mint_authority: key(AUTHORITY),
            freeze_authority: Some(key(AUTHORITY)),
            supply: 0,
        })
    );
}

#[test]
fn initialize_before_allocation_is_out_of_order() {
    let mut ledger = funded();
    assert_eq!(ledger.initialize(&initialization()), Err(NftError::OrderingViolation));
}

#[test]
fn initialize_twice_is_refused() {
    let mut ledger = with_mint();
    assert_eq!(ledger.initialize(&initialization()), Err(NftError::AddressInUse));
}

#[test]
fn initialize_needs_storage_of_the_token_authority() {
    let mut ledger = funded();
    ledger.allocate(&Allocation { owner: key(9), ..allocation() }).unwrap();
    assert_eq!(ledger.initialize(&initialization()), Err(NftError::AuthorizationFailure));
}

#[test]
fn initialize_needs_storage_of_the_right_size() {
    let mut ledger = funded();
    ledger.allocate(&Allocation { size: 81, ..allocation() }).unwrap();
    assert_eq!(ledger.initialize(&initialization()), Err(NftError::AuthorizationFailure));
}

#[test]
fn create_index_creates_an_empty_record_and_charges_the_payer() {
    let mut ledger = with_mint();
    assert_eq!(ledger.create_index(&index_creation()), Ok(()));
    assert_eq!(
        ledger.index_record(&index_address(PAYER, MINT)),
        Some(OwnershipIndexRecord { owner: key(PAYER), mint: key(MINT), balance: 0 })
    );
    assert_eq!(ledger.balance(&key(PAYER)), 1_000_000 - 165 * RENT);
}

#[test]
fn create_index_twice_leaves_one_record() {
    let mut ledger = with_mint();
    assert_eq!(ledger.create_index(&index_creation()), Ok(()));
    let paid = ledger.balance(&key(PAYER));
    assert_eq!(ledger.create_index(&index_creation()), Ok(()));
    assert_eq!(ledger.balance(&key(PAYER)), paid);
    assert_eq!(
        ledger.index_record(&index_address(PAYER, MINT)),
        Some(OwnershipIndexRecord { owner: key(PAYER), mint: key(MINT), balance: 0 })
    );
}

#[test]
fn create_index_twice_keeps_the_balance() {
    let mut ledger = minted();
    assert_eq!(ledger.create_index(&index_creation()), Ok(()));
    assert_eq!(ledger.index_record(&index_address(PAYER, MINT)).unwrap().balance, 1);
}

#[test]
fn create_index_refuses_an_address_that_is_not_derived() {
    let mut ledger = with_mint();
    let call = IndexCreation { index: key(77), ..index_creation() };
    assert_eq!(ledger.create_index(&call), Err(NftError::InvalidAccountDerivation));
    assert!(!ledger.has_record(&key(77)));
    let other = IndexCreation { index: index_address(AUTHORITY, MINT), ..index_creation() };
    assert_eq!(ledger.create_index(&other), Err(NftError::InvalidAccountDerivation));
}

#[test]
fn create_index_needs_the_ledger_record() {
    let mut ledger = funded();
    assert_eq!(ledger.create_index(&index_creation()), Err(NftError::OrderingViolation));
    ledger.allocate(&allocation()).unwrap();
    assert_eq!(ledger.create_index(&index_creation()), Err(NftError::OrderingViolation));
}

#[test]
fn create_index_needs_signature_and_funds() {
    let mut ledger = with_mint();
    let call = IndexCreation { payer: unsigned(PAYER), ..index_creation() };
    assert_eq!(ledger.create_index(&call), Err(NftError::AuthorizationFailure));
    let poor = IndexCreation { payer: signed(50), owner: key(PAYER), ..index_creation() };
    assert_eq!(ledger.create_index(&poor), Err(NftError::InsufficientFunding));
}

#[test]
fn create_metadata_records_what_was_asked() {
    let ledger = created();
    let record = ledger.metadata_record(&metadata_address(MINT)).unwrap();
    assert_eq!(record.mint, key(MINT));
    assert_eq!(record.update_authority, key(AUTHORITY));
    assert_eq!(record.name, "Degen Ape #1");
    assert_eq!(record.symbol, "DAPE");
    assert_eq!(record.uri, "https://example/1.json");
    assert_eq!(
        record.creators,
        vec![Creator { address: key(AUTHORITY), verified: false, share: 100 }]
    );
    assert_eq!(record.royalty_bps, 100);
    assert!(record.is_mutable);
    assert_eq!(record.collection, None);
    assert_eq!(record.uses, None);
    assert_eq!(ledger.balance(&key(PAYER)), 1_000_000 - (165 + 679) * RENT);
}

#[test]
fn create_metadata_rejects_bad_shares_before_it_allocates() {
    let mut ledger = with_mint();
    let call = MetadataCreation {
        creators: vec![
            Creator { address: key(AUTHORITY), verified: false, share: 60 },
            Creator { address: key(PAYER), verified: false, share: 30 },
        ],
        ..metadata_creation()
    };
    assert_eq!(ledger.create_metadata(&call), Err(NftError::InvalidMetadata));
    assert!(!ledger.has_record(&metadata_address(MINT)));
    assert_eq!(ledger.balance(&key(PAYER)), 1_000_000);
}

#[test]
fn create_metadata_rejects_a_long_name() {
    let mut ledger = with_mint();
    let call = MetadataCreation { name: "x".repeat(33), ..metadata_creation() };
    assert_eq!(ledger.create_metadata(&call), Err(NftError::InvalidMetadata));
}

#[test]
fn create_metadata_refuses_an_address_that_is_not_derived() {
    let mut ledger = with_mint();
    let call = MetadataCreation { metadata: key(88), ..metadata_creation() };
    assert_eq!(ledger.create_metadata(&call), Err(NftError::InvalidAccountDerivation));
    assert!(!ledger.has_record(&key(88)));
}

#[test]
fn create_metadata_needs_the_mint_authority() {
    let mut ledger = with_mint();
    ledger.deposit(&key(PAYER), 0);
    let stranger = MetadataCreation { mint_authority: signed(60), ..metadata_creation() };
    assert_eq!(ledger.create_metadata(&stranger), Err(NftError::AuthorizationFailure));
    let silent = MetadataCreation { mint_authority: unsigned(AUTHORITY), ..metadata_creation() };
    assert_eq!(ledger.create_metadata(&silent), Err(NftError::AuthorizationFailure));
    let unpaid = MetadataCreation { payer: unsigned(PAYER), ..metadata_creation() };
    assert_eq!(ledger.create_metadata(&unpaid), Err(NftError::AuthorizationFailure));
}

#[test]
fn create_metadata_needs_the_ledger_record_and_a_free_address() {
    let mut ledger = funded();
    assert_eq!(ledger.create_metadata(&metadata_creation()), Err(NftError::OrderingViolation));
    let mut ledger = created();
    assert_eq!(ledger.create_metadata(&metadata_creation()), Err(NftError::AddressInUse));
}

#[test]
fn create_metadata_needs_funds() {
    let mut ledger = with_mint();
    let call = MetadataCreation { payer: signed(50), ..metadata_creation() };
    assert_eq!(ledger.create_metadata(&call), Err(NftError::InsufficientFunding));
}

#[test]
fn issue_moves_supply_and_balance_to_one() {
    let ledger = minted();
    assert_eq!(ledger.mint_record(&key(MINT)).unwrap().supply, 1);
    assert_eq!(ledger.index_record(&index_address(PAYER, MINT)).unwrap().balance, 1);
    assert_eq!(ledger.mint_record(&key(MINT)).unwrap().decimals, 0);
}

#[test]
fn issue_beyond_the_cap_is_refused() {
    let mut ledger = minted();
    assert_eq!(ledger.issue(&issuance()), Err(NftError::SupplyExceeded));
    assert_eq!(ledger.mint_record(&key(MINT)).unwrap().supply, 1);
    let mut fresh = created();
    assert_eq!(
        fresh.issue(&Issuance { amount: 2, ..issuance() }),
        Err(NftError::SupplyExceeded)
    );
    assert_eq!(
        fresh.issue(&Issuance { amount: u64::MAX, ..issuance() }),
        Err(NftError::SupplyExceeded)
    );
    assert_eq!(fresh.mint_record(&key(MINT)).unwrap().supply, 0);
}

#[test]
fn issue_of_nothing_changes_nothing() {
    let mut ledger = created();
    assert_eq!(ledger.issue(&Issuance { amount: 0, ..issuance() }), Ok(()));
    assert_eq!(ledger.mint_record(&key(MINT)).unwrap().supply, 0);
    assert_eq!(ledger.index_record(&index_address(PAYER, MINT)).unwrap().balance, 0);
}

#[test]
fn issue_needs_the_mint_authority() {
    let mut ledger = created();
    assert_eq!(
        ledger.issue(&Issuance { authority: signed(PAYER), ..issuance() }),
        Err(NftError::AuthorizationFailure)
    );
    assert_eq!(
        ledger.issue(&Issuance { authority: unsigned(AUTHORITY), ..issuance() }),
        Err(NftError::AuthorizationFailure)
    );
}

#[test]
fn issue_before_creation_is_out_of_order() {
    let mut ledger = funded();
    assert_eq!(ledger.issue(&issuance()), Err(NftError::OrderingViolation));
    let mut ledger = with_mint();
    assert_eq!(ledger.issue(&issuance()), Err(NftError::OrderingViolation));
}

#[test]
fn issue_into_the_record_of_another_asset_is_refused() {
    let mut ledger = created();
    let other = Address::new([33; 32]);
    ledger
        .allocate(&Allocation { new_address: other, ..allocation() })
        .unwrap();
    ledger
        .initialize(&MintInitialization { mint: other, ..initialization() })
        .unwrap();
    let call = Issuance { mint: other, ..issuance() };
    assert_eq!(ledger.issue(&call), Err(NftError::InvalidAccountDerivation));
}

#[test]
fn create_edition_after_the_issue_caps_at_one() {
    let mut ledger = minted();
    assert_eq!(ledger.create_edition(&edition_creation()), Ok(()));
    assert_eq!(
        ledger.edition_record(&edition_address(MINT)),
        Some(EditionRecord { metadata: metadata_address(MINT), max_supply: Some(1) })
    );
    assert_eq!(ledger.balance(&key(PAYER)), 1_000_000 - (165 + 679 + 282) * RENT);
}

#[test]
fn create_edition_before_the_issue_is_out_of_order() {
    let mut ledger = created();
    assert_eq!(ledger.create_edition(&edition_creation()), Err(NftError::OrderingViolation));
    assert!(!ledger.has_record(&edition_address(MINT)));
    assert_eq!(ledger.edition_record(&edition_address(MINT)), None);
}

#[test]
fn create_edition_twice_is_refused() {
    let mut ledger = minted();
    ledger.create_edition(&edition_creation()).unwrap();
    assert_eq!(ledger.create_edition(&edition_creation()), Err(NftError::EditionAlreadyExists));
}

#[test]
fn create_edition_refuses_addresses_that_are_not_derived() {
    let mut ledger = minted();
    let call = EditionCreation { edition: key(99), ..edition_creation() };
    assert_eq!(ledger.create_edition(&call), Err(NftError::InvalidAccountDerivation));
    let call = EditionCreation { metadata: key(99), ..edition_creation() };
    assert_eq!(ledger.create_edition(&call), Err(NftError::InvalidAccountDerivation));
    assert!(!ledger.has_record(&key(99)));
}

#[test]
fn create_edition_needs_signatures_authorities_and_funds() {
    let mut ledger = minted();
    let call = EditionCreation { payer: unsigned(PAYER), ..edition_creation() };
    assert_eq!(ledger.create_edition(&call), Err(NftError::AuthorizationFailure));
    let call = EditionCreation { mint_authority: signed(PAYER), ..edition_creation() };
    assert_eq!(ledger.create_edition(&call), Err(NftError::AuthorizationFailure));
    let call = EditionCreation { update_authority: signed(PAYER), ..edition_creation() };
    assert_eq!(ledger.create_edition(&call), Err(NftError::AuthorizationFailure));
    let call = EditionCreation { payer: signed(50), ..edition_creation() };
    assert_eq!(ledger.create_edition(&call), Err(NftError::InsufficientFunding));
}

#[test]
fn create_edition_without_records_is_out_of_order() {
    let mut ledger = funded();
    assert_eq!(ledger.create_edition(&edition_creation()), Err(NftError::OrderingViolation));
    let mut ledger = with_mint();
    assert_eq!(ledger.create_edition(&edition_creation()), Err(NftError::OrderingViolation));
}

fn update(is_mutable: bool) -> MetadataUpdate {
    MetadataUpdate {
        metadata: metadata_address(MINT),
        update_authority: signed(AUTHORITY),
        is_mutable,
    }
}

#[test]
fn a_cleared_mutability_flag_cannot_be_set_again() {
    let mut ledger = created();
    assert_eq!(ledger.update_metadata(&update(true)), Ok(()));
    assert!(ledger.metadata_record(&metadata_address(MINT)).unwrap().is_mutable);
    assert_eq!(ledger.update_metadata(&update(false)), Ok(()));
    assert!(!ledger.metadata_record(&metadata_address(MINT)).unwrap().is_mutable);
    assert_eq!(ledger.update_metadata(&update(true)), Err(NftError::MetadataImmutable));
    assert!(!ledger.metadata_record(&metadata_address(MINT)).unwrap().is_mutable);
    assert_eq!(ledger.update_metadata(&update(false)), Ok(()));
    assert!(!ledger.metadata_record(&metadata_address(MINT)).unwrap().is_mutable);
}

#[test]
fn an_update_keeps_the_rest_of_the_record() {
    let mut ledger = created();
    ledger.update_metadata(&update(false)).unwrap();
    let record = ledger.metadata_record(&metadata_address(MINT)).unwrap();
    assert_eq!(record.name, "Degen Ape #1");
    assert_eq!(record.symbol, "DAPE");
    assert_eq!(record.uri, "https://example/1.json");
    assert_eq!(record.royalty_bps, 100);
    assert_eq!(record.creators.len(), 1);
    assert_eq!(record.update_authority, key(AUTHORITY));
}

#[test]
fn an_update_needs_the_update_authority() {
    let mut ledger = created();
    let call = MetadataUpdate { update_authority: signed(PAYER), ..update(false) };
    assert_eq!(ledger.update_metadata(&call), Err(NftError::AuthorizationFailure));
    let call = MetadataUpdate { update_authority: unsigned(AUTHORITY), ..update(false) };
    assert_eq!(ledger.update_metadata(&call), Err(NftError::AuthorizationFailure));
    let call = MetadataUpdate { metadata: key(MINT), ..update(false) };
    assert_eq!(ledger.update_metadata(&call), Err(NftError::OrderingViolation));
}

#[test]
fn apply_carries_out_each_kind_of_request() {
    let mut ledger = funded();
    assert_eq!(ledger.apply(&LedgerCall::Allocate(allocation())), Ok(()));
    assert_eq!(ledger.apply(&LedgerCall::Initialize(initialization())), Ok(()));
    assert_eq!(ledger.apply(&LedgerCall::CreateIndex(index_creation())), Ok(()));
    assert_eq!(ledger.apply(&LedgerCall::CreateMetadata(metadata_creation())), Ok(()));
    assert_eq!(
        ledger.apply(&LedgerCall::CreateEdition(edition_creation())),
        Err(NftError::OrderingViolation)
    );
    assert_eq!(ledger.apply(&LedgerCall::Issue(issuance())), Ok(()));
    assert_eq!(ledger.apply(&LedgerCall::CreateEdition(edition_creation())), Ok(()));
    assert_eq!(ledger.apply(&LedgerCall::UpdateMetadata(update(false))), Ok(()));
    assert_eq!(ledger.apply(&LedgerCall::Issue(issuance())), Err(NftError::SupplyExceeded));
    assert_eq!(ledger.mint_record(&key(MINT)).unwrap().supply, 1);
}

#[test]
fn a_copy_of_a_ledger_holds_the_same() {
    let ledger = minted();
    let mut copy = ledger.duplicate();
    assert_eq!(copy.mint_record(&key(MINT)), ledger.mint_record(&key(MINT)));
    assert_eq!(
        copy.metadata_record(&metadata_address(MINT)),
        ledger.metadata_record(&metadata_address(MINT))
    );
    assert_eq!(copy.balance(&key(PAYER)), ledger.balance(&key(PAYER)));
    copy.create_edition(&edition_creation()).unwrap();
    assert!(copy.has_record(&edition_address(MINT)));
    assert!(!ledger.has_record(&edition_address(MINT)));
}

#[test]
fn two_assets_do_not_touch_each_other() {
    let mut ledger = minted();
    let other = Address::new([33; 32]);
    ledger.allocate(&Allocation { new_address: other, ..allocation() }).unwrap();
    ledger.initialize(&MintInitialization { mint: other, ..initialization() }).unwrap();
    let index = derive_ownership_index(&key(PAYER), &other, &key(TOKEN_PROGRAM), &key(INDEX_PROGRAM))
        .unwrap();
    ledger
        .create_index(&IndexCreation { mint: other, index, ..index_creation() })
        .unwrap();
    ledger
        .issue(&Issuance { mint: other, destination: index, ..issuance() })
        .unwrap();
    assert_eq!(ledger.mint_record(&other).unwrap().supply, 1);
    assert_eq!(ledger.mint_record(&key(MINT)).unwrap().supply, 1);
    assert_eq!(ledger.index_record(&index).unwrap().balance, 1);
    assert_eq!(ledger.index_record(&index_address(PAYER, MINT)).unwrap().balance, 1);
}

#[test]
fn requests_that_name_other_programs_are_refused() {
    let other_token = key(70);
    let other_index = key(71);
    let other_metadata = key(72);

    let mut ledger = funded();
    ledger.allocate(&Allocation { owner: other_token, ..allocation() }).unwrap();
    let call = MintInitialization { token_program: other_token, ..initialization() };
    assert_eq!(ledger.initialize(&call), Err(NftError::AuthorizationFailure));

    let mut ledger = with_mint();
    let index = derive_ownership_index(&key(PAYER), &key(MINT), &other_token, &key(INDEX_PROGRAM))
        .unwrap();
    let call = IndexCreation { token_program: other_token, index, ..index_creation() };
    assert_eq!(ledger.create_index(&call), Err(NftError::AuthorizationFailure));
    let index = derive_ownership_index(&key(PAYER), &key(MINT), &key(TOKEN_PROGRAM), &other_index)
        .unwrap();
    let call = IndexCreation { index_program: other_index, index, ..index_creation() };
    assert_eq!(ledger.create_index(&call), Err(NftError::AuthorizationFailure));
    assert!(!ledger.has_record(&index));

    let metadata = derive_metadata(&other_metadata, &key(MINT)).unwrap();
    let call = MetadataCreation { program: other_metadata, metadata, ..metadata_creation() };
    assert_eq!(ledger.create_metadata(&call), Err(NftError::AuthorizationFailure));
    assert!(!ledger.has_record(&metadata));

    let mut ledger = minted();
    let call = EditionCreation { program: other_metadata, ..edition_creation() };
    assert_eq!(ledger.create_edition(&call), Err(NftError::InvalidAccountDerivation));
}

#[test]
fn an_owner_has_one_record_for_an_asset_however_often_it_is_created() {
    let mut ledger = with_mint();
    for _ in 0..3 {
        assert_eq!(ledger.create_index(&index_creation()), Ok(()));
    }
    assert_eq!(ledger.balance(&key(PAYER)), 1_000_000 - 165 * RENT);
    let second = IndexCreation {
        owner: key(AUTHORITY),
        index: index_address(AUTHORITY, MINT),
        ..index_creation()
    };
    assert_eq!(ledger.create_index(&second), Ok(()));
    assert_ne!(index_address(AUTHORITY, MINT), index_address(PAYER, MINT));
    assert_eq!(ledger.balance(&key(PAYER)), 1_000_000 - 2 * 165 * RENT);
}

#[test]
fn issue_refuses_a_destination_that_is_not_the_owners_derived_record() {
    let mut ledger = created();
    let second = IndexCreation {
        owner: key(AUTHORITY),
        index: index_address(AUTHORITY, MINT),
        ..index_creation()
    };
    ledger.create_index(&second).unwrap();
    let call = Issuance { destination: index_address(AUTHORITY, MINT), ..issuance() };
    assert_eq!(ledger.issue(&call), Err(NftError::InvalidAccountDerivation));
    let call = Issuance { destination: key(90), ..issuance() };
    assert_eq!(ledger.issue(&call), Err(NftError::InvalidAccountDerivation));
    let call = Issuance { owner: key(AUTHORITY), ..issuance() };
    assert_eq!(ledger.issue(&call), Err(NftError::InvalidAccountDerivation));
    assert_eq!(ledger.mint_record(&key(MINT)).unwrap().supply, 0);
    assert_eq!(ledger.index_record(&index_address(AUTHORITY, MINT)).unwrap().balance, 0);
    assert_eq!(ledger.index_record(&index_address(PAYER, MINT)).unwrap().balance, 0);
}

#[test]
fn issue_under_other_programs_is_refused() {
    let mut ledger = created();
    let other = key(70);
    let destination =
        derive_ownership_index(&key(PAYER), &key(MINT), &other, &key(INDEX_PROGRAM)).unwrap();
    let call = Issuance { token_program: other, destination, ..issuance() };
    assert_eq!(ledger.issue(&call), Err(NftError::OrderingViolation));
    let call = Issuance { token_program: other, ..issuance() };
    assert_eq!(ledger.issue(&call), Err(NftError::InvalidAccountDerivation));
    assert_eq!(ledger.mint_record(&key(MINT)).unwrap().supply, 0);
}

#[test]
fn the_unit_of_an_asset_lies_in_one_record() {
    let mut ledger = created();
    let second = IndexCreation {
        owner: key(AUTHORITY),
        index: index_address(AUTHORITY, MINT),
        ..index_creation()
    };
    ledger.create_index(&second).unwrap();
    assert_eq!(ledger.issue(&issuance()), Ok(()));
    let to_second = Issuance {
        owner: key(AUTHORITY),
        destination: index_address(AUTHORITY, MINT),
        ..issuance()
    };
    assert_eq!(ledger.issue(&to_second), Err(NftError::SupplyExceeded));
    assert_eq!(ledger.index_record(&index_address(PAYER, MINT)).unwrap().balance, 1);
    assert_eq!(ledger.index_record(&index_address(AUTHORITY, MINT)).unwrap().balance, 0);
}

#[test]
fn commit_carries_out_a_batch_in_order() {
    let mut ledger = funded();
    let batch = vec![
        LedgerCall::Allocate(allocation()),
        LedgerCall::Initialize(initialization()),
        LedgerCall::CreateIndex(index_creation()),
        LedgerCall::CreateMetadata(metadata_creation()),
        LedgerCall::Issue(issuance()),
        LedgerCall::CreateEdition(edition_creation()),
    ];
    assert_eq!(ledger.commit(&batch), Ok(()));
    assert_eq!(ledger.mint_record(&key(MINT)).unwrap().supply, 1);
    assert!(ledger.edition_record(&edition_address(MINT)).is_some());
    assert_eq!(ledger.commit(&vec![]), Ok(()));
}

#[test]
fn commit_leaves_nothing_of_a_batch_that_fails() {
    let mut ledger = funded();
    let batch = vec![
        LedgerCall::Allocate(allocation()),
        LedgerCall::Initialize(initialization()),
        LedgerCall::CreateEdition(edition_creation()),
        LedgerCall::CreateIndex(index_creation()),
    ];
    assert_eq!(ledger.commit(&batch), Err(NftError::OrderingViolation));
    assert!(!ledger.has_record(&key(MINT)));
    assert_eq!(ledger.balance(&key(AUTHORITY)), 1_000_000);
    let out_of_order = vec![
        LedgerCall::Initialize(initialization()),
        LedgerCall::Allocate(allocation()),
    ];
    assert_eq!(ledger.commit(&out_of_order), Err(NftError::OrderingViolation));
    assert!(!ledger.has_record(&key(MINT)));
}
