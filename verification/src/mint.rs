use crate::address::{Address, Signer};
use crate::calls::{call_models, EditionCreation, Issuance, LedgerCall, LedgerCallModel};
use crate::constants::TOKEN_MAX_SUPPLY;
use crate::derivation::{
    check_derivation, derive_edition, derive_metadata, derive_ownership_index, edition_address,
    is_derived, metadata_address, ownership_index_address,
};
use crate::error::NftError;
use crate::ledger::{outcome, Ledger};
use crate::model::LedgerModel;
use crate::records::EditionRecord;
use vstd::prelude::*;

verus! {

/// The accounts of the mint step.
#[derive(Clone, Copy, Debug, PartialEq, Eq)]
pub struct MintToken {
    pub payer: Signer,
    pub mint_account: Address,
    pub mint_authority: Signer,
    pub associated_token_account: Address,
    pub metadata_account: Address,
    pub master_edition_account: Address,
    pub token_metadata_program: Address,
    pub token_program: Address,
    pub associated_token_program: Address,
}

/// What the mint step issues: the one unit, into the payer's ownership-index
/// record, on the mint authority's word.
pub open spec fn issuance_call(ctx: MintToken) -> Issuance {
    Issuance {
        index_program: ctx.associated_token_program,
        token_program: ctx.token_program,
        mint: ctx.mint_account,
        owner: ctx.payer.key,
        destination: ctx.associated_token_account,
        authority: ctx.mint_authority,
        amount: TOKEN_MAX_SUPPLY,
    }
}

/// The edition record that the mint step asks for: linked to the metadata
/// record, capped at one, with the mint authority as update authority.
pub open spec fn edition_call(ctx: MintToken) -> EditionCreation {
    EditionCreation {
        program: ctx.token_metadata_program,
        edition: ctx.master_edition_account,
        mint: ctx.mint_account,
        update_authority: ctx.mint_authority,
        mint_authority: ctx.mint_authority,
        metadata: ctx.metadata_account,
        payer: ctx.payer,
        max_supply: Some(TOKEN_MAX_SUPPLY),
    }
}

/// What is checked before the mint step touches the ledger: the three
/// derived addresses, the payer's ownership-index record among them, and the
/// two signatures.
pub open spec fn minting_check(ctx: MintToken) -> Result<(), NftError> {
    if !destination_derived(ctx) || !is_derived(
        ctx.master_edition_account,
        edition_address(ctx.token_metadata_program, ctx.mint_account),
    ) || !is_derived(
        ctx.metadata_account,
        metadata_address(ctx.token_metadata_program, ctx.mint_account),
    ) {
        Err(NftError::InvalidAccountDerivation)
    } else if !ctx.payer.signed || !ctx.mint_authority.signed {
        Err(NftError::AuthorizationFailure)
    } else {
        Ok(())
    }
}

/// Whether the destination of the mint step is the derived address of the
/// payer's ownership-index record.
pub open spec fn destination_derived(ctx: MintToken) -> bool {
    is_derived(
        ctx.associated_token_account,
        ownership_index_address(
            ctx.payer.key,
            ctx.mint_account,
            ctx.token_program,
            ctx.associated_token_program,
        ),
    )
}

/// The requests of the mint step in their order: the issue of the one unit,
/// the edition record.
pub open spec fn minting_calls(ctx: MintToken) -> Seq<LedgerCallModel> {
    seq![
        LedgerCallModel::Issue(issuance_call(ctx)),
        LedgerCallModel::CreateEdition(edition_call(ctx)),
    ]
}

/// The mint step: the checks, then the two requests in their order, the
/// second on what the first left. The first failure is the step's.
pub open spec fn minting(ledger: LedgerModel, ctx: MintToken) -> Result<LedgerModel, NftError> {
    match minting_check(ctx) {
        Err(e) => Err(e),
        Ok(_) => ledger.apply_all(minting_calls(ctx)),
    }
}

/// The mint step, operation by operation.
pub proof fn lemma_minting_in_steps(ledger: LedgerModel, ctx: MintToken)
    ensures
        minting(ledger, ctx) == (match minting_check(ctx) {
            Err(e) => Err(e),
            Ok(_) => match ledger.issue(issuance_call(ctx)) {
                Err(e) => Err(e),
                Ok(issued) => issued.create_edition(edition_call(ctx)),
            },
        }),
{
    let calls = minting_calls(ctx);
    let second = calls.drop_first();
    assert(second.drop_first().len() == 0);
    assert(calls[0] == LedgerCallModel::Issue(issuance_call(ctx)));
    assert(second[0] == LedgerCallModel::CreateEdition(edition_call(ctx)));
    reveal_with_fuel(LedgerModel::apply_all, 3);
}

/// The request that issues the one unit.
pub fn issuance_request(ctx: &MintToken) -> (call: Issuance)
    ensures
        call == issuance_call(*ctx),
{
    Issuance {
        index_program: ctx.associated_token_program,
        token_program: ctx.token_program,
        mint: ctx.mint_account,
        owner: ctx.payer.key,
        destination: ctx.associated_token_account,
        authority: ctx.mint_authority,
        amount: TOKEN_MAX_SUPPLY,
    }
}

/// The request for the edition record.
pub fn edition_request(ctx: &MintToken) -> (call: EditionCreation)
    ensures
        call == edition_call(*ctx),
{
    EditionCreation {
        program: ctx.token_metadata_program,
        edition: ctx.master_edition_account,
        mint: ctx.mint_account,
        update_authority: ctx.mint_authority,
        mint_authority: ctx.mint_authority,
        metadata: ctx.metadata_account,
        payer: ctx.payer,
        max_supply: Some(TOKEN_MAX_SUPPLY),
    }
}

/// Checks the accounts of the mint step without touching a ledger.
pub fn validate_minting(ctx: &MintToken) -> (r: Result<(), NftError>)
    ensures
        r == minting_check(*ctx),
{
    let index = derive_ownership_index(
        &ctx.payer.key,
        &ctx.mint_account,
        &ctx.token_program,
        &ctx.associated_token_program,
    );
    if check_derivation(&ctx.associated_token_account, &index).is_err() {
        return Err(NftError::InvalidAccountDerivation);
    }
    let edition = derive_edition(&ctx.token_metadata_program, &ctx.mint_account);
    if check_derivation(&ctx.master_edition_account, &edition).is_err() {
        return Err(NftError::InvalidAccountDerivation);
    }
    let described = derive_metadata(&ctx.token_metadata_program, &ctx.mint_account);
    if check_derivation(&ctx.metadata_account, &described).is_err() {
        return Err(NftError::InvalidAccountDerivation);
    }
    if !ctx.payer.signed || !ctx.mint_authority.signed {
        return Err(NftError::AuthorizationFailure);
    }
    Ok(())
}

/// Issues the one unit into the payer's ownership-index record. A destination
/// that is not the derived address of that record is refused.
pub fn mint_token_to_associated_token_account(ledger: &mut Ledger, ctx: &MintToken) -> (r: Result<
    (),
    NftError,
>)
    requires
        old(ledger).wf(),
    ensures
        final(ledger).wf(),
        outcome(r, final(ledger)@) == old(ledger)@.issue(issuance_call(*ctx)),
        r is Err ==> final(ledger)@ == old(ledger)@,
        !destination_derived(*ctx) ==> r == Err::<(), NftError>(NftError::InvalidAccountDerivation),
{
    let call = issuance_request(ctx);
    ledger.issue(&call)
}

/// Creates the edition record. Before the one unit is issued this fails, and
/// a second edition is refused.
pub fn create_master_edition_account(ledger: &mut Ledger, ctx: &MintToken) -> (r: Result<
    (),
    NftError,
>)
    requires
        old(ledger).wf(),
    ensures
        final(ledger).wf(),
        outcome(r, final(ledger)@) == old(ledger)@.create_edition(edition_call(*ctx)),
        r is Err ==> final(ledger)@ == old(ledger)@,
{
    let call = edition_request(ctx);
    ledger.create_edition(&call)
}

/// What a committed mint step leaves: a supply of one, a balance of one, and
/// the edition record with its cap of one.
pub proof fn lemma_minting_committed(ledger: LedgerModel, ctx: MintToken)
    requires
        minting(ledger, ctx) is Ok,
    ensures
        ({
            let after = minting(ledger, ctx)->Ok_0;
            &&& after.mint_at(ctx.mint_account) is Some
            &&& after.mint_at(ctx.mint_account)->0.supply == 1
            &&& after.index_at(ctx.associated_token_account) is Some
            &&& after.index_at(ctx.associated_token_account)->0.balance == 1
            &&& after.index_at(ctx.associated_token_account)->0.owner == ctx.payer.key
            &&& after.index_at(ctx.associated_token_account)->0.mint == ctx.mint_account
            &&& after.edition_at(ctx.master_edition_account) == Some(
                EditionRecord { metadata: ctx.metadata_account, max_supply: Some(1) },
            )
        }),
{
    lemma_minting_in_steps(ledger, ctx);
}

/// The requests of the mint step in their order, for a ledger or for whoever
/// carries them out; none where a check of the step fails.
pub fn minting_plan(ctx: &MintToken) -> (r: Result<Vec<LedgerCall>, NftError>)
    ensures
        match r {
            Ok(plan) => minting_check(*ctx) is Ok && call_models(plan@) == minting_calls(*ctx),
            Err(e) => minting_check(*ctx) == Err::<(), NftError>(e),
        },
{
    match validate_minting(ctx) {
        Err(e) => {
            return Err(e);
        },
        Ok(()) => {},
    }
    let plan: Vec<LedgerCall> = vec![
        LedgerCall::Issue(issuance_request(ctx)),
        LedgerCall::CreateEdition(edition_request(ctx)),
    ];
    assert(call_models(plan@) =~= minting_calls(*ctx));
    Ok(plan)
}

/// The mint step: issues the one unit into the payer's ownership-index record
/// and creates the edition record. It commits both or nothing, and nothing
/// where the destination is not the derived address of that record. After
/// it the unit lies with the payer and with no one else.
pub fn mint_token(ledger: &mut Ledger, ctx: &MintToken) -> (r: Result<(), NftError>)
    requires
        old(ledger).wf(),
    ensures
        final(ledger).wf(),
        outcome(r, final(ledger)@) == minting(old(ledger)@, *ctx),
        r is Err ==> final(ledger)@ == old(ledger)@,
        !destination_derived(*ctx) ==> r == Err::<(), NftError>(NftError::InvalidAccountDerivation),
        r is Ok ==> {
            &&& final(ledger)@.mint_at(ctx.mint_account) is Some
            &&& final(ledger)@.mint_at(ctx.mint_account)->0.supply == 1
            &&& final(ledger)@.index_at(ctx.associated_token_account) is Some
            &&& final(ledger)@.index_at(ctx.associated_token_account)->0.balance == 1
            &&& final(ledger)@.index_at(ctx.associated_token_account)->0.owner == ctx.payer.key
            &&& forall|other: Address|
                other != ctx.associated_token_account && (#[trigger] final(ledger)@.index_at(
                    other,
                )) is Some && final(ledger)@.index_at(other)->0.mint == ctx.mint_account
                    ==> final(ledger)@.index_at(other)->0.balance == 0
        },
{
    let plan = match minting_plan(ctx) {
        Err(e) => {
            return Err(e);
        },
        Ok(plan) => plan,
    };
    let r = ledger.commit(&plan);
    proof {
        if r is Ok {
            lemma_minting_committed(old(ledger)@, *ctx);
            assert forall|other: Address|
                other != ctx.associated_token_account && (#[trigger] ledger@.index_at(other))
                    is Some && ledger@.index_at(other)->0.mint
                    == ctx.mint_account implies ledger@.index_at(other)->0.balance == 0 by {
                crate::laws::lemma_units_lie_in_one_record(
                    ledger@,
                    ctx.associated_token_account,
                    other,
                );
            }
        }
    }
    r
}

} // verus!
