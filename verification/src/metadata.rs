use crate::address::Address;
use crate::constants::{
    MAX_CREATORS, MAX_NAME_LENGTH, MAX_ROYALTY_BPS, MAX_SYMBOL_LENGTH, MAX_URI_LENGTH,
};
use crate::error::NftError;
use vstd::prelude::*;
use vstd::string::StringSliceAdditionalSpecFns;
use vstd::utf8::encode_utf8;

verus! {

/// One creator of an asset and the percentage of the royalties that is theirs.
#[derive(Clone, Copy, Debug, PartialEq, Eq)]
pub struct Creator {
    pub address: Address,
    pub verified: bool,
    pub share: u8,
}

/// The length of a text in bytes, as it is stored.
pub open spec fn byte_length(text: Seq<char>) -> nat {
    encode_utf8(text).len()
}

/// The sum of the shares of a list of creators.
pub open spec fn share_total(creators: Seq<Creator>) -> nat
    decreases creators.len(),
{
    if creators.len() == 0 {
        0
    } else {
        share_total(creators.drop_last()) + creators.last().share as nat
    }
}

/// A creators list is valid when it has at most five entries whose shares sum
/// to exactly one hundred.
pub open spec fn creators_valid(creators: Seq<Creator>) -> bool {
    creators.len() <= MAX_CREATORS && share_total(creators) == 100
}

/// The limits on what a metadata record describes.
pub open spec fn metadata_valid(
    name: Seq<char>,
    symbol: Seq<char>,
    uri: Seq<char>,
    creators: Seq<Creator>,
    royalty_bps: u16,
) -> bool {
    &&& byte_length(name) <= MAX_NAME_LENGTH
    &&& byte_length(symbol) <= MAX_SYMBOL_LENGTH
    &&& byte_length(uri) <= MAX_URI_LENGTH
    &&& creators_valid(creators)
    &&& royalty_bps <= MAX_ROYALTY_BPS
}

/// No single share is above the total.
pub proof fn lemma_share_within_total(creators: Seq<Creator>, i: int)
    requires
        0 <= i < creators.len(),
    ensures
        creators[i].share <= share_total(creators),
    decreases creators.len(),
{
    if i < creators.len() - 1 {
        lemma_share_within_total(creators.drop_last(), i);
    }
}

/// In a valid creators list every share lies between 0 and 100.
pub proof fn lemma_valid_shares_bounded(creators: Seq<Creator>)
    requires
        creators_valid(creators),
    ensures
        forall|i: int| 0 <= i < creators.len() ==> creators[i].share <= 100,
{
    assert forall|i: int| 0 <= i < creators.len() implies creators[i].share <= 100 by {
        lemma_share_within_total(creators, i);
    }
}

/// Checks a creators list: at most five entries, shares summing to one hundred.
pub fn validate_creators(creators: &Vec<Creator>) -> (r: Result<(), NftError>)
    ensures
        r is Ok <==> creators_valid(creators@),
        r is Err ==> r == Err::<(), NftError>(NftError::InvalidMetadata),
{
    if creators.len() > MAX_CREATORS {
        return Err(NftError::InvalidMetadata);
    }
    let mut total: u64 = 0;
    let mut i: usize = 0;
    while i < creators.len()
        invariant
            i <= creators.len(),
            creators.len() <= MAX_CREATORS,
            total == share_total(creators@.take(i as int)),
            total <= 255 * i,
        decreases creators.len() - i,
    {
        assert(creators@.take(i + 1).drop_last() =~= creators@.take(i as int));
        total = total + creators[i].share as u64;
        i += 1;
    }
    assert(creators@.take(i as int) =~= creators@);
    if total == 100 {
        Ok(())
    } else {
        Err(NftError::InvalidMetadata)
    }
}

/// Checks what a metadata record is to describe against the limits.
pub fn validate_metadata(
    name: &String,
    symbol: &String,
    uri: &String,
    creators: &Vec<Creator>,
    royalty_bps: u16,
) -> (r: Result<(), NftError>)
    ensures
        r is Ok <==> metadata_valid(name@, symbol@, uri@, creators@, royalty_bps),
        r is Err ==> r == Err::<(), NftError>(NftError::InvalidMetadata),
{
    if name.as_str().as_bytes().len() > MAX_NAME_LENGTH {
        return Err(NftError::InvalidMetadata);
    }
    if symbol.as_str().as_bytes().len() > MAX_SYMBOL_LENGTH {
        return Err(NftError::InvalidMetadata);
    }
    if uri.as_str().as_bytes().len() > MAX_URI_LENGTH {
        return Err(NftError::InvalidMetadata);
    }
    if royalty_bps > MAX_ROYALTY_BPS {
        return Err(NftError::InvalidMetadata);
    }
    validate_creators(creators)
}

} // verus!
