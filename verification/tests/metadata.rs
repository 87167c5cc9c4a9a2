use nft_program::address::Address;
use nft_program::error::NftError;
use nft_program::metadata::{validate_creators, validate_metadata, Creator};

fn creator(n: u8, share: u8) -> Creator {
    Creator { address: Address::new([n; 32]), verified: false, share }
}

fn shares(list: &[u8]) -> Vec<Creator> {
    list.iter().enumerate().map(|(i, s)| creator(i as u8, *s)).collect()
}

#[test]
fn one_creator_with_the_full_share_passes() {
    assert_eq!(validate_creators(&shares(&[100])), Ok(()));
}

#[test]
fn shares_that_sum_to_ninety_are_rejected() {
    assert_eq!(validate_creators(&shares(&[60, 30])), Err(NftError::InvalidMetadata));
}

#[test]
fn shares_above_one_hundred_are_rejected() {
    assert_eq!(validate_creators(&shares(&[60, 50])), Err(NftError::InvalidMetadata));
    assert_eq!(validate_creators(&shares(&[101])), Err(NftError::InvalidMetadata));
    assert_eq!(validate_creators(&shares(&[255, 101])), Err(NftError::InvalidMetadata));
}

#[test]
fn an_empty_creators_list_is_rejected() {
    assert_eq!(validate_creators(&shares(&[])), Err(NftError::InvalidMetadata));
}

#[test]
fn five_creators_pass_and_six_do_not() {
    assert_eq!(validate_creators(&shares(&[20, 20, 20, 20, 20])), Ok(()));
    assert_eq!(validate_creators(&shares(&[0, 0, 0, 0, 100])), Ok(()));
    assert_eq!(
        validate_creators(&shares(&[20, 20, 20, 20, 10, 10])),
        Err(NftError::InvalidMetadata)
    );
}

fn texts(name: &str, symbol: &str, uri: &str, royalty: u16) -> Result<(), NftError> {
    validate_metadata(
        &name.to_string(),
        &symbol.to_string(),
        &uri.to_string(),
        &shares(&[100]),
        royalty,
    )
}

#[test]
fn the_example_asset_is_within_the_limits() {
    assert_eq!(texts("Degen Ape #1", "DAPE", "https://example/1.json", 100), Ok(()));
}

#[test]
fn name_is_limited_to_thirty_two_bytes() {
    assert_eq!(texts(&"n".repeat(32), "S", "u", 0), Ok(()));
    assert_eq!(texts(&"n".repeat(33), "S", "u", 0), Err(NftError::InvalidMetadata));
}

#[test]
fn symbol_is_limited_to_ten_bytes() {
    assert_eq!(texts("n", &"S".repeat(10), "u", 0), Ok(()));
    assert_eq!(texts("n", &"S".repeat(11), "u", 0), Err(NftError::InvalidMetadata));
}

#[test]
fn uri_is_limited_to_two_hundred_bytes() {
    assert_eq!(texts("n", "S", &"u".repeat(200), 0), Ok(()));
    assert_eq!(texts("n", "S", &"u".repeat(201), 0), Err(NftError::InvalidMetadata));
}

#[test]
fn limits_count_bytes_and_not_characters() {
    // sixteen two-byte characters fill the name; seventeen do not fit
    assert_eq!(texts(&"\u{e9}".repeat(16), "S", "u", 0), Ok(()));
    assert_eq!(texts(&"\u{e9}".repeat(17), "S", "u", 0), Err(NftError::InvalidMetadata));
}

#[test]
fn royalty_is_limited_to_ten_thousand_basis_points() {
    assert_eq!(texts("n", "S", "u", 10000), Ok(()));
    assert_eq!(texts("n", "S", "u", 10001), Err(NftError::InvalidMetadata));
}

#[test]
fn empty_texts_are_within_the_limits() {
    assert_eq!(texts("", "", "", 0), Ok(()));
}
