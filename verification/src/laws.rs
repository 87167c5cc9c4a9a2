use crate::address::Address;
use crate::calls::{EditionCreation, IndexCreation, Issuance, LedgerCallModel, MetadataUpdate};
use crate::constants::TOKEN_MAX_SUPPLY;
use crate::create::{creation, CreateToken};
use crate::derivation::{edition_address, is_derived, metadata_address};
use crate::error::NftError;
use crate::mint::{minting, MintToken};
use crate::model::LedgerModel;
use vstd::prelude::*;

verus! {

/// No request takes a ledger record away or changes its decimals, and none
/// lowers its supply.
pub proof fn lemma_ledger_record_is_kept(ledger: LedgerModel, call: LedgerCallModel, at: Address)
    requires
        ledger.mint_at(at) is Some,
        ledger.apply(call) is Ok,
    ensures
        ({
            let before = ledger.mint_at(at)->0;
            let after = ledger.apply(call)->Ok_0.mint_at(at);
            &&& after is Some
            &&& after->0.decimals == before.decimals
            &&& after->0.supply >= before.supply
        }),
{
}

/// Once the mutability flag of a metadata record is cleared, it stays
/// cleared whatever request follows.
pub proof fn lemma_cleared_flag_stays_cleared(
    ledger: LedgerModel,
    call: LedgerCallModel,
    at: Address,
)
    requires
        ledger.metadata_at(at) is Some,
        !ledger.metadata_at(at)->0.is_mutable,
        ledger.apply(call) is Ok,
    ensures
        ledger.apply(call)->Ok_0.metadata_at(at) is Some,
        !ledger.apply(call)->Ok_0.metadata_at(at)->0.is_mutable,
{
}

/// An update that asks to set a cleared mutability flag is refused.
pub proof fn lemma_update_cannot_restore(ledger: LedgerModel, call: MetadataUpdate)
    requires
        ledger.metadata_at(call.metadata) is Some,
        !ledger.metadata_at(call.metadata)->0.is_mutable,
        call.is_mutable,
    ensures
        ledger.update_metadata(call) is Err,
{
}

/// Creating the ownership-index record of one owner and one ledger record a
/// second time succeeds and changes nothing: there is one record, at the
/// derived address.
pub proof fn lemma_index_creation_is_idempotent(ledger: LedgerModel, call: IndexCreation)
    requires
        ledger.create_index(call) is Ok,
    ensures
        ({
            let once = ledger.create_index(call)->Ok_0;
            &&& once.holds_index(call.index, call.owner, call.mint)
            &&& once.records.dom() == ledger.records.dom().insert(call.index)
            &&& once.create_index(call) == Ok::<LedgerModel, NftError>(once)
        }),
{
    let once = ledger.create_index(call)->Ok_0;
    assert(once.records.dom() =~= ledger.records.dom().insert(call.index));
}

/// An edition record is never created for a ledger record whose unit has not
/// been issued: with the derived addresses the request fails as out of order,
/// and with others as wrongly derived.
pub proof fn lemma_edition_needs_issued_unit(ledger: LedgerModel, call: EditionCreation)
    requires
        ledger.mint_at(call.mint) is Some,
        ledger.mint_at(call.mint)->0.supply == 0,
    ensures
        ledger.create_edition(call) is Err,
        is_derived(call.edition, edition_address(call.program, call.mint)) && is_derived(
            call.metadata,
            metadata_address(call.program, call.mint),
        ) ==> ledger.create_edition(call) == Err::<LedgerModel, NftError>(
            NftError::OrderingViolation,
        ),
{
}

/// After a committed creation step the supply is zero, so the edition record
/// cannot be created before the unit is issued.
pub proof fn lemma_creation_leaves_no_supply(
    ledger: LedgerModel,
    ctx: CreateToken,
    name: Seq<char>,
    symbol: Seq<char>,
    uri: Seq<char>,
    call: EditionCreation,
)
    requires
        creation(ledger, ctx, name, symbol, uri) is Ok,
        call.mint == ctx.mint_account,
    ensures
        creation(ledger, ctx, name, symbol, uri)->Ok_0.create_edition(call) is Err,
{
    crate::create::lemma_creation_committed(ledger, ctx, name, symbol, uri);
    lemma_edition_needs_issued_unit(creation(ledger, ctx, name, symbol, uri)->Ok_0, call);
}

/// After a committed mint step, a second mint step on the same ledger record
/// fails because the supply is at its cap.
pub proof fn lemma_second_mint_exceeds_supply(ledger: LedgerModel, ctx: MintToken)
    requires
        minting(ledger, ctx) is Ok,
    ensures
        minting(minting(ledger, ctx)->Ok_0, ctx) == Err::<LedgerModel, NftError>(
            NftError::SupplyExceeded,
        ),
{
    crate::mint::lemma_minting_in_steps(ledger, ctx);
    crate::mint::lemma_minting_in_steps(minting(ledger, ctx)->Ok_0, ctx);
}

/// Once the edition record of a ledger record exists, a request for it is
/// refused.
pub proof fn lemma_edition_is_created_once(ledger: LedgerModel, call: EditionCreation)
    requires
        ledger.create_edition(call) is Ok,
    ensures
        ledger.create_edition(call)->Ok_0.create_edition(call) == Err::<LedgerModel, NftError>(
            NftError::EditionAlreadyExists,
        ),
{
}

/// The supply of a ledger record of a well-formed ledger is never above one.
pub proof fn lemma_supply_is_capped(ledger: LedgerModel, at: Address)
    requires
        ledger.well_formed(),
        ledger.mint_at(at) is Some,
    ensures
        ledger.mint_at(at)->0.supply <= TOKEN_MAX_SUPPLY,
{
    assert(ledger.records[at].well_formed());
}

/// An owner has at most one ownership-index record for a ledger record.
pub proof fn lemma_one_index_per_pair(ledger: LedgerModel, first: Address, second: Address)
    requires
        ledger.well_formed(),
        ledger.index_at(first) is Some,
        ledger.index_at(second) is Some,
        ledger.index_at(first)->0.owner == ledger.index_at(second)->0.owner,
        ledger.index_at(first)->0.mint == ledger.index_at(second)->0.mint,
    ensures
        first == second,
{
    assert(ledger.records.contains_key(first));
    assert(ledger.records.contains_key(second));
    crate::address::lemma_address_by_bytes(first, second);
}

/// A ledger record has at most one metadata record.
pub proof fn lemma_one_metadata_per_mint(ledger: LedgerModel, first: Address, second: Address)
    requires
        ledger.well_formed(),
        ledger.metadata_at(first) is Some,
        ledger.metadata_at(second) is Some,
        ledger.metadata_at(first)->0.mint == ledger.metadata_at(second)->0.mint,
    ensures
        first == second,
{
    assert(ledger.records.contains_key(first));
    assert(ledger.records.contains_key(second));
    crate::address::lemma_address_by_bytes(first, second);
}

/// No request takes a record away.
pub proof fn lemma_records_are_kept(ledger: LedgerModel, call: LedgerCallModel, at: Address)
    requires
        ledger.records.contains_key(at),
        ledger.apply(call) is Ok,
    ensures
        ledger.apply(call)->Ok_0.records.contains_key(at),
{
}

/// An edition record never changes: its link and its cap stay what they were,
/// whatever request follows.
pub proof fn lemma_edition_is_terminal(ledger: LedgerModel, call: LedgerCallModel, at: Address)
    requires
        ledger.edition_at(at) is Some,
        ledger.apply(call) is Ok,
    ensures
        ledger.apply(call)->Ok_0.edition_at(at) == ledger.edition_at(at),
{
}

/// The balance of an ownership-index record never goes down, and never goes
/// above that of one unit.
pub proof fn lemma_balance_only_grows(ledger: LedgerModel, call: LedgerCallModel, at: Address)
    requires
        ledger.well_formed(),
        ledger.index_at(at) is Some,
        ledger.apply(call) is Ok,
    ensures
        ({
            let before = ledger.index_at(at)->0;
            let after = ledger.apply(call)->Ok_0.index_at(at);
            &&& after is Some
            &&& after->0.owner == before.owner
            &&& after->0.mint == before.mint
            &&& before.balance <= after->0.balance <= TOKEN_MAX_SUPPLY
        }),
{
    assert(ledger.records.contains_key(at));
}

/// No request changes the authorities or the rent of a ledger.
pub proof fn lemma_apply_keeps_the_terms(ledger: LedgerModel, call: LedgerCallModel)
    requires
        ledger.apply(call) is Ok,
    ensures
        ledger.apply(call)->Ok_0.authorities == ledger.authorities,
        ledger.apply(call)->Ok_0.lamports_per_byte == ledger.lamports_per_byte,
{
}

/// Units are issued on the word of the mint authority alone: the payer, or
/// anyone else, gains no such right.
pub proof fn lemma_only_the_mint_authority_issues(ledger: LedgerModel, call: Issuance)
    requires
        ledger.issue(call) is Ok,
    ensures
        call.authority.signed,
        ledger.mint_at(call.mint) is Some,
        call.authority.key == ledger.mint_at(call.mint)->0.mint_authority,
{
}

/// Metadata is updated on the word of its update authority alone.
pub proof fn lemma_only_the_update_authority_updates(ledger: LedgerModel, call: MetadataUpdate)
    requires
        ledger.update_metadata(call) is Ok,
    ensures
        call.update_authority.signed,
        ledger.metadata_at(call.metadata) is Some,
        call.update_authority.key == ledger.metadata_at(call.metadata)->0.update_authority,
{
}

/// The units of a ledger record lie in one ownership-index record: of two
/// records of one ledger record at most one holds a unit.
pub proof fn lemma_units_lie_in_one_record(ledger: LedgerModel, first: Address, second: Address)
    requires
        ledger.well_formed(),
        first != second,
        ledger.index_at(first) is Some,
        ledger.index_at(second) is Some,
        ledger.index_at(first)->0.mint == ledger.index_at(second)->0.mint,
    ensures
        ledger.index_at(first)->0.balance == 0 || ledger.index_at(second)->0.balance == 0,
{
    assert(ledger.records.contains_key(first));
    assert(ledger.placed(first, ledger.records[first]));
    assert(ledger.records.contains_key(ledger.index_at(first)->0.mint));
}

/// A committed mint step keeps the invariant of the ledger, and leaves the
/// one unit with the payer: every other ownership-index record of the ledger
/// record is empty.
pub proof fn lemma_minted_unit_lies_with_the_payer(
    ledger: LedgerModel,
    ctx: MintToken,
    other: Address,
)
    requires
        ledger.well_formed(),
        minting(ledger, ctx) is Ok,
        other != ctx.associated_token_account,
        minting(ledger, ctx)->Ok_0.index_at(other) is Some,
        minting(ledger, ctx)->Ok_0.index_at(other)->0.mint == ctx.mint_account,
    ensures
        minting(ledger, ctx)->Ok_0.well_formed(),
        minting(ledger, ctx)->Ok_0.index_at(ctx.associated_token_account)->0.balance == 1,
        minting(ledger, ctx)->Ok_0.index_at(ctx.associated_token_account)->0.owner
            == ctx.payer.key,
        minting(ledger, ctx)->Ok_0.index_at(other)->0.balance == 0,
{
    let after = minting(ledger, ctx)->Ok_0;
    crate::upkeep::lemma_apply_all_keeps_well_formed(ledger, crate::mint::minting_calls(ctx));
    crate::mint::lemma_minting_committed(ledger, ctx);
    lemma_units_lie_in_one_record(after, ctx.associated_token_account, other);
}

/// A committed creation step keeps the invariant of the ledger.
pub proof fn lemma_creation_keeps_well_formed(
    ledger: LedgerModel,
    ctx: CreateToken,
    name: Seq<char>,
    symbol: Seq<char>,
    uri: Seq<char>,
)
    requires
        ledger.well_formed(),
        creation(ledger, ctx, name, symbol, uri) is Ok,
    ensures
        creation(ledger, ctx, name, symbol, uri)->Ok_0.well_formed(),
{
    crate::upkeep::lemma_apply_all_keeps_well_formed(
        ledger,
        crate::create::creation_calls(ctx, name, symbol, uri),
    );
}

/// An edition record exists only for a ledger record whose one unit has been
/// issued, and lies at the address derived from that ledger record.
pub proof fn lemma_edition_rests_on_the_issued_unit(ledger: LedgerModel, at: Address)
    requires
        ledger.well_formed(),
        ledger.edition_at(at) is Some,
    ensures
        ledger.metadata_at(ledger.edition_at(at)->0.metadata) is Some,
        ({
            let mint = ledger.metadata_at(ledger.edition_at(at)->0.metadata)->0.mint;
            &&& ledger.mint_at(mint) is Some
            &&& ledger.mint_at(mint)->0.supply == TOKEN_MAX_SUPPLY
            &&& is_derived(at, edition_address(ledger.authorities.metadata_program, mint))
        }),
{
    assert(ledger.records.contains_key(at));
    assert(ledger.placed(at, ledger.records[at]));
}

/// A ledger record has at most one edition record.
pub proof fn lemma_one_edition_per_mint(ledger: LedgerModel, first: Address, second: Address)
    requires
        ledger.well_formed(),
        ledger.edition_at(first) is Some,
        ledger.edition_at(second) is Some,
        ledger.metadata_at(ledger.edition_at(first)->0.metadata) is Some,
        ledger.metadata_at(ledger.edition_at(second)->0.metadata) is Some,
        ledger.metadata_at(ledger.edition_at(first)->0.metadata)->0.mint == ledger.metadata_at(
            ledger.edition_at(second)->0.metadata,
        )->0.mint,
    ensures
        first == second,
{
    lemma_edition_rests_on_the_issued_unit(ledger, first);
    lemma_edition_rests_on_the_issued_unit(ledger, second);
    crate::address::lemma_address_by_bytes(first, second);
}

} // verus!
