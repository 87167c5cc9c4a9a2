use crate::address::Address;
use crate::calls::{EditionCreation, MetadataCreation, MetadataCreationModel};
use crate::error::NftError;
use crate::metadata::{byte_length, metadata_valid, validate_metadata, Creator};
use mpl_token_metadata::instruction::{create_master_edition_v3, create_metadata_accounts_v3};
use mpl_token_metadata::state::{Collection, CollectionDetails, Creator as OutsideCreator, Uses};
use vstd::prelude::*;

verus! {

/// The collection link of mpl-token-metadata, carried and never read.
#[verifier::external_type_specification]
#[verifier::external_body]
pub struct ExCollection(Collection);

/// The uses configuration of mpl-token-metadata, carried and never read.
#[verifier::external_type_specification]
#[verifier::external_body]
pub struct ExUses(Uses);

/// The collection details of mpl-token-metadata, carried and never read.
#[verifier::external_type_specification]
#[verifier::external_body]
pub struct ExCollectionDetails(CollectionDetails);

/// One account of an instruction: its address, whether it signs, and whether
/// the instruction may write to it.
#[derive(Clone, Copy, Debug, PartialEq, Eq)]
pub struct AccountMeta {
    pub address: Address,
    pub is_signer: bool,
    pub is_writable: bool,
}

/// An instruction for a program of the ledger, as it goes over the wire.
#[derive(Debug, PartialEq, Eq)]
pub struct Instruction {
    pub program: Address,
    pub accounts: Vec<AccountMeta>,
    pub data: Vec<u8>,
}

/// An account as plain values: the bytes of its address, whether it signs,
/// whether it is writable.
pub type AccountView = (Seq<u8>, bool, bool);

/// The accounts of an instruction as plain values.
pub open spec fn account_views(accounts: Seq<AccountMeta>) -> Seq<AccountView> {
    Seq::new(accounts.len(), |i: int| (accounts[i].address@, accounts[i].is_signer, accounts[i].is_writable))
}

/// A creators list as plain values: address bytes, verified flag, share.
pub open spec fn creator_views(creators: Seq<Creator>) -> Seq<(Seq<u8>, bool, u8)> {
    Seq::new(creators.len(), |i: int| (creators[i].address@, creators[i].verified, creators[i].share))
}

/// The address of the system program: thirty-two zero bytes.
pub open spec fn system_program_id() -> Seq<u8> {
    Seq::new(32, |i: int| 0u8)
}

/// The address of the token program.
pub open spec fn token_program_id() -> Seq<u8> {
    seq![
        6u8, 221u8, 246u8, 225u8, 215u8, 101u8, 161u8, 147u8, 217u8, 203u8, 225u8, 70u8, 206u8,
        235u8, 121u8, 172u8, 28u8, 180u8, 133u8, 237u8, 95u8, 91u8, 55u8, 145u8, 58u8, 140u8,
        245u8, 133u8, 126u8, 255u8, 0u8, 169u8,
    ]
}

/// The data of the instruction that `create_metadata_accounts_v3` builds
/// from the texts, the creators, the royalty and the mutability flag, where
/// it is given no collection, no uses and no collection details.
pub uninterp spec fn metadata_instruction_data(
    name: Seq<char>,
    symbol: Seq<char>,
    uri: Seq<char>,
    creators: Option<Seq<(Seq<u8>, bool, u8)>>,
    royalty_bps: u16,
    is_mutable: bool,
) -> Seq<u8>;

/// The data of the instruction that creates an edition record: the number
/// of the instruction, then whether there is a cap, then the cap in eight
/// bytes, the lowest first.
pub open spec fn edition_instruction_data(max_supply: Option<u64>) -> Seq<u8> {
    match max_supply {
        Some(cap) => seq![17u8, 1u8] + vstd::bytes::spec_u64_to_le_bytes(cap),
        None => seq![17u8, 0u8],
    }
}

/// The data of an edition instruction holds its cap: ten bytes, of which
/// the last eight give the cap back.
pub proof fn lemma_edition_data_holds_the_cap(cap: u64)
    ensures
        edition_instruction_data(Some(cap)).len() == 10,
        edition_instruction_data(Some(cap))[0] == 17,
        edition_instruction_data(Some(cap))[1] == 1,
        vstd::bytes::spec_u64_from_le_bytes(edition_instruction_data(Some(cap)).subrange(2, 10))
            == cap,
        edition_instruction_data(None).len() == 2,
{
    vstd::bytes::lemma_auto_spec_u64_to_from_le_bytes();
    let bytes = vstd::bytes::spec_u64_to_le_bytes(cap);
    assert(edition_instruction_data(Some(cap)).subrange(2, 10) =~= bytes);
}

/// A creators list that may be missing, as plain values.
pub open spec fn listed_creators(creators: Option<&Vec<Creator>>) -> Option<
    Seq<(Seq<u8>, bool, u8)>,
> {
    match creators {
        Some(list) => Some(creator_views(list@)),
        None => None,
    }
}

/// The accounts of the instruction that creates a metadata record, in their
/// order: the metadata record, writable; the ledger record; the mint
/// authority, signing; the payer, signing and writable; the update authority,
/// signing if it did; the system program.
pub open spec fn metadata_accounts(call: MetadataCreationModel) -> Seq<AccountView> {
    seq![
        (call.metadata@, false, true),
        (call.mint@, false, false),
        (call.mint_authority.key@, true, false),
        (call.payer.key@, true, true),
        (call.update_authority.key@, call.update_authority.signed, false),
        (system_program_id(), false, false),
    ]
}

/// The accounts of the instruction that creates an edition record, in their
/// order: the edition record, writable; the ledger record, writable; update
/// authority and mint authority, signing; the payer, signing and writable;
/// the metadata record, writable; the token program; the system program.
pub open spec fn edition_accounts(call: EditionCreation) -> Seq<AccountView> {
    seq![
        (call.edition@, false, true),
        (call.mint@, false, true),
        (call.update_authority.key@, true, false),
        (call.mint_authority.key@, true, false),
        (call.payer.key@, true, true),
        (call.metadata@, false, true),
        (token_program_id(), false, false),
        (system_program_id(), false, false),
    ]
}

/// The accounts that an outside instruction lists, as plain values.
pub open spec fn listed(accounts: Seq<([u8; 32], bool, bool)>) -> Seq<AccountView> {
    Seq::new(accounts.len(), |i: int| (accounts[i].0@, accounts[i].1, accounts[i].2))
}

/// Calls `create_metadata_accounts_v3` of mpl-token-metadata. The keys are,
/// in this order, the program, the metadata record, the ledger record, the
/// mint authority, the payer and the update authority. The claim: the instruction is for the program given and
/// lists the six accounts that the function puts together; and where there is
/// no collection, no uses and no collection details, its data is a function
/// of the texts, creators, royalty and flag alone. Texts and creators must be
/// short enough for their length to be written in four bytes, or the outside
/// function panics.
#[verifier::external_body]
fn build_metadata_instruction(
    keys: [[u8; 32]; 6],
    name: String,
    symbol: String,
    uri: String,
    creators: Option<&Vec<Creator>>,
    royalty_bps: u16,
    signs: bool,
    is_mutable: bool,
    collection: Option<Collection>,
    uses: Option<Uses>,
    details: Option<CollectionDetails>,
) -> (r: ([u8; 32], Vec<([u8; 32], bool, bool)>, Vec<u8>))
    requires
        byte_length(name@) <= u32::MAX,
        byte_length(symbol@) <= u32::MAX,
        byte_length(uri@) <= u32::MAX,
        creators is Some ==> creators->0@.len() <= u32::MAX,
    ensures
        r.0 == keys[0],
        listed(r.1@) == seq![
            (keys[1]@, false, true),
            (keys[2]@, false, false),
            (keys[3]@, true, false),
            (keys[4]@, true, true),
            (keys[5]@, signs, false),
            (system_program_id(), false, false),
        ],
        collection is None && uses is None && details is None ==> r.2@
            == metadata_instruction_data(
            name@,
            symbol@,
            uri@,
            listed_creators(creators),
            royalty_bps,
            is_mutable,
        ),
{
    let [program, metadata, mint, authority, payer, update] = keys;
    let creators = creators.map(|list| list.iter().map(|c| OutsideCreator {
        address: c.address.bytes.into(),
        verified: c.verified,
        share: c.share,
    }).collect());
    let built = create_metadata_accounts_v3(
        program.into(), metadata.into(), mint.into(), authority.into(), payer.into(),
        update.into(), name, symbol, uri, creators, royalty_bps, signs, is_mutable,
        collection, uses, details,
    );
    let accounts = built.accounts.iter().map(|m| (m.pubkey.to_bytes(), m.is_signer, m.is_writable));
    (built.program_id.to_bytes(), accounts.collect(), built.data)
}

/// Calls `create_master_edition_v3` of mpl-token-metadata. The keys are, in
/// this order, the program, the edition record, the ledger record, the update
/// authority, the mint authority, the metadata record and the payer. The
/// claim: the instruction is for the program given, lists the eight accounts
/// that the function puts together, and its data is the number of the
/// instruction among those of the program, seventeen, followed by the cap as
/// borsh writes an optional `u64`.
#[verifier::external_body]
fn build_edition_instruction(keys: [[u8; 32]; 7], max_supply: Option<u64>) -> (r: (
    [u8; 32],
    Vec<([u8; 32], bool, bool)>,
    Vec<u8>,
))
    ensures
        r.0 == keys[0],
        listed(r.1@) == seq![
            (keys[1]@, false, true),
            (keys[2]@, false, true),
            (keys[3]@, true, false),
            (keys[4]@, true, false),
            (keys[6]@, true, true),
            (keys[5]@, false, true),
            (token_program_id(), false, false),
            (system_program_id(), false, false),
        ],
        r.2@ == edition_instruction_data(max_supply),
{
    let [program, edition, mint, update, authority, metadata, payer] = keys;
    let built = create_master_edition_v3(
        program.into(), edition.into(), mint.into(), update.into(), authority.into(),
        metadata.into(), payer.into(), max_supply,
    );
    let accounts = built.accounts.iter().map(|m| (m.pubkey.to_bytes(), m.is_signer, m.is_writable));
    (built.program_id.to_bytes(), accounts.collect(), built.data)
}

fn assemble(program: [u8; 32], accounts: Vec<([u8; 32], bool, bool)>, data: Vec<u8>) -> (r:
    Instruction)
    ensures
        r.program.bytes == program,
        account_views(r.accounts@) == listed(accounts@),
        r.data@ == data@,
{
    let mut metas: Vec<AccountMeta> = Vec::new();
    let mut i: usize = 0;
    while i < accounts.len()
        invariant
            i <= accounts.len(),
            account_views(metas@) == listed(accounts@.take(i as int)),
        decreases accounts.len() - i,
    {
        let entry = accounts[i];
        let ghost before = metas@;
        metas.push(
            AccountMeta {
                address: Address { bytes: entry.0 },
                is_signer: entry.1,
                is_writable: entry.2,
            },
        );
        assert(account_views(metas@) =~= listed(accounts@.take(i + 1))) by {
            assert(before.len() == i) by {
                assert(account_views(before).len() == listed(accounts@.take(i as int)).len());
            }
            assert forall|j: int| 0 <= j < i implies account_views(metas@)[j] == listed(
                accounts@.take(i + 1),
            )[j] by {
                assert(account_views(before)[j] == listed(accounts@.take(i as int))[j]);
            }
        }
        i += 1;
    }
    assert(accounts@.take(i as int) =~= accounts@);
    Instruction { program: Address { bytes: program }, accounts: metas, data }
}

/// The instruction that asks the metadata authority for a metadata record,
/// with its creators and without collection link, uses configuration or
/// collection details. There is none for what lies outside the limits of a
/// metadata record.
pub fn metadata_instruction(call: &MetadataCreation) -> (r: Result<Instruction, NftError>)
    ensures
        r is Ok <==> metadata_valid(
            call@.name,
            call@.symbol,
            call@.uri,
            call@.creators,
            call@.royalty_bps,
        ),
        r is Err ==> r->Err_0 == NftError::InvalidMetadata,
        r is Ok ==> {
            &&& r->Ok_0.program == call.program
            &&& account_views(r->Ok_0.accounts@) == metadata_accounts(call@)
            &&& r->Ok_0.data@ == metadata_instruction_data(
                call@.name,
                call@.symbol,
                call@.uri,
                Some(creator_views(call@.creators)),
                call@.royalty_bps,
                call@.is_mutable,
            )
        },
{
    if validate_metadata(&call.name, &call.symbol, &call.uri, &call.creators, call.royalty_bps).is_err() {
        return Err(NftError::InvalidMetadata);
    }
    let keys = [
        call.program.bytes,
        call.metadata.bytes,
        call.mint.bytes,
        call.mint_authority.key.bytes,
        call.payer.key.bytes,
        call.update_authority.key.bytes,
    ];
    let built = build_metadata_instruction(
        keys,
        call.name.clone(),
        call.symbol.clone(),
        call.uri.clone(),
        Some(&call.creators),
        call.royalty_bps,
        call.update_authority.signed,
        call.is_mutable,
        None,
        None,
        None,
    );
    let r = assemble(built.0, built.1, built.2);
    assert(account_views(r.accounts@) =~= metadata_accounts(call@));
    Ok(r)
}

/// The instruction that asks the metadata authority for an edition record.
pub fn edition_instruction(call: &EditionCreation) -> (r: Instruction)
    ensures
        r.program == call.program,
        account_views(r.accounts@) == edition_accounts(*call),
        r.data@ == edition_instruction_data(call.max_supply),
{
    let keys = [
        call.program.bytes,
        call.edition.bytes,
        call.mint.bytes,
        call.update_authority.key.bytes,
        call.mint_authority.key.bytes,
        call.metadata.bytes,
        call.payer.key.bytes,
    ];
    let built = build_edition_instruction(keys, call.max_supply);
    let r = assemble(built.0, built.1, built.2);
    assert(account_views(r.accounts@) =~= edition_accounts(*call));
    r
}

} // verus!
