use crate::address::Address;
use crate::error::NftError;
use vstd::prelude::*;

verus! {

/// What `Pubkey::try_find_program_address` yields for a list of seeds under a
/// program identity: the derived address with its bump seed, or nothing where no
/// address can be derived.
pub uninterp spec fn program_address(seeds: Seq<Seq<u8>>, program: Seq<u8>) -> Option<(Seq<u8>, u8)>;

/// The seeds of a vector of byte vectors, each by its view.
pub open spec fn seeds_of(seeds: Seq<Vec<u8>>) -> Seq<Seq<u8>> {
    Seq::new(seeds.len(), |i: int| seeds[i]@)
}

/// Calls `Pubkey::try_find_program_address` of solana-program. The claim is that
/// the outcome is a function of the seeds and the program identity alone, which
/// `program_address` names.
#[verifier::external_body]
fn find_program_address(seeds: &Vec<Vec<u8>>, program: &Address) -> (r: Option<(Address, u8)>)
    ensures
        match r {
            Some(found) => program_address(seeds_of(seeds@), program@) == Some((found.0@, found.1)),
            None => program_address(seeds_of(seeds@), program@) is None,
        },
{
    let slices: Vec<&[u8]> = seeds.iter().map(|s| s.as_slice()).collect();
    let id = anchor_lang::prelude::Pubkey::new_from_array(program.bytes);
    match anchor_lang::prelude::Pubkey::try_find_program_address(&slices, &id) {
        Some((key, bump)) => Some((Address { bytes: key.to_bytes() }, bump)),
        None => None,
    }
}

/// The name space of every address that the metadata authority derives.
pub open spec fn metadata_prefix() -> Seq<u8> {
    seq![109u8, 101u8, 116u8, 97u8, 100u8, 97u8, 116u8, 97u8]
}

/// The last seed of an edition record.
pub open spec fn edition_suffix() -> Seq<u8> {
    seq![101u8, 100u8, 105u8, 116u8, 105u8, 111u8, 110u8]
}

/// The address that seeds derive under a program, without the bump seed.
pub open spec fn derived(seeds: Seq<Seq<u8>>, program: Address) -> Option<Seq<u8>> {
    match program_address(seeds, program@) {
        Some(found) => Some(found.0),
        None => None,
    }
}

/// Where the ownership-index record of an owner and a ledger record lies.
pub open spec fn ownership_index_address(
    owner: Address,
    mint: Address,
    token_program: Address,
    index_program: Address,
) -> Option<Seq<u8>> {
    derived(seq![owner@, token_program@, mint@], index_program)
}

/// Where the metadata record of a ledger record lies.
pub open spec fn metadata_address(metadata_program: Address, mint: Address) -> Option<Seq<u8>> {
    derived(seq![metadata_prefix(), metadata_program@, mint@], metadata_program)
}

/// Where the edition record of a ledger record lies.
pub open spec fn edition_address(metadata_program: Address, mint: Address) -> Option<Seq<u8>> {
    derived(seq![metadata_prefix(), metadata_program@, mint@, edition_suffix()], metadata_program)
}

/// Whether an address is the one that the seeds derive.
pub open spec fn is_derived(given: Address, expected: Option<Seq<u8>>) -> bool {
    expected == Some(given@)
}

/// Derives the address of a list of seeds under a program, with its bump seed.
pub fn derive_address(seeds: &Vec<Vec<u8>>, program: &Address) -> (r: Option<(Address, u8)>)
    ensures
        match r {
            Some(found) => program_address(seeds_of(seeds@), program@) == Some((found.0@, found.1)),
            None => program_address(seeds_of(seeds@), program@) is None,
        },
{
    find_program_address(seeds, program)
}

fn metadata_prefix_bytes() -> (v: Vec<u8>)
    ensures
        v@ == metadata_prefix(),
{
    let v: Vec<u8> = vec![109u8, 101u8, 116u8, 97u8, 100u8, 97u8, 116u8, 97u8];
    assert(v@ =~= metadata_prefix());
    v
}

fn edition_suffix_bytes() -> (v: Vec<u8>)
    ensures
        v@ == edition_suffix(),
{
    let v: Vec<u8> = vec![101u8, 100u8, 105u8, 116u8, 105u8, 111u8, 110u8];
    assert(v@ =~= edition_suffix());
    v
}

fn address_only(found: Option<(Address, u8)>) -> (r: Option<Address>)
    ensures
        match found {
            Some(pair) => r == Some(pair.0),
            None => r is None,
        },
{
    match found {
        Some(pair) => Some(pair.0),
        None => None,
    }
}

/// Derives the address of the ownership-index record of an owner and a ledger
/// record.
pub fn derive_ownership_index(
    owner: &Address,
    mint: &Address,
    token_program: &Address,
    index_program: &Address,
) -> (r: Option<Address>)
    ensures
        match r {
            Some(a) => ownership_index_address(*owner, *mint, *token_program, *index_program)
                == Some(a@),
            None => ownership_index_address(*owner, *mint, *token_program, *index_program) is None,
        },
{
    let seeds: Vec<Vec<u8>> = vec![owner.to_vec(), token_program.to_vec(), mint.to_vec()];
    assert(seeds_of(seeds@) =~= seq![owner@, token_program@, mint@]);
    address_only(find_program_address(&seeds, index_program))
}

/// Derives the address of the metadata record of a ledger record.
pub fn derive_metadata(metadata_program: &Address, mint: &Address) -> (r: Option<Address>)
    ensures
        match r {
            Some(a) => metadata_address(*metadata_program, *mint) == Some(a@),
            None => metadata_address(*metadata_program, *mint) is None,
        },
{
    let seeds: Vec<Vec<u8>> = vec![metadata_prefix_bytes(), metadata_program.to_vec(), mint.to_vec()];
    assert(seeds_of(seeds@) =~= seq![metadata_prefix(), metadata_program@, mint@]);
    address_only(find_program_address(&seeds, metadata_program))
}

/// Derives the address of the edition record of a ledger record.
pub fn derive_edition(metadata_program: &Address, mint: &Address) -> (r: Option<Address>)
    ensures
        match r {
            Some(a) => edition_address(*metadata_program, *mint) == Some(a@),
            None => edition_address(*metadata_program, *mint) is None,
        },
{
    let seeds: Vec<Vec<u8>> = vec![
        metadata_prefix_bytes(),
        metadata_program.to_vec(),
        mint.to_vec(),
        edition_suffix_bytes(),
    ];
    assert(seeds_of(seeds@) =~= seq![
        metadata_prefix(),
        metadata_program@,
        mint@,
        edition_suffix(),
    ]);
    address_only(find_program_address(&seeds, metadata_program))
}

/// Holds an address in a derived role against the one that was derived for the
/// role.
pub fn check_derivation(given: &Address, expected: &Option<Address>) -> (r: Result<(), NftError>)
    ensures
        r is Ok <==> (expected is Some && expected->0@ == given@),
        r is Err ==> r == Err::<(), NftError>(NftError::InvalidAccountDerivation),
{
    match expected {
        Some(a) => {
            proof {
                crate::address::lemma_address_by_bytes(*given, *a);
            }
            if given.same(a) {
                Ok(())
            } else {
                Err(NftError::InvalidAccountDerivation)
            }
        },
        None => Err(NftError::InvalidAccountDerivation),
    }
}

} // verus!
