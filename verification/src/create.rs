use crate::address::{Address, Signer};
use crate::calls::{
    call_models, Allocation, IndexCreation, LedgerCall, LedgerCallModel, MetadataCreation,
    MetadataCreationModel, MintInitialization,
};
use crate::constants::{DEFAULT_ROYALTY_BPS, FULL_SHARE, MINT_SIZE, TOKEN_DECIMALS};
use crate::derivation::{
    check_derivation, derive_metadata, derive_ownership_index, is_derived, metadata_address,
    ownership_index_address,
};
use crate::error::NftError;
use crate::ledger::{outcome, Ledger};
use crate::metadata::{metadata_valid, validate_metadata, Creator};
use crate::model::LedgerModel;
use crate::records::LedgerRecord;
use vstd::prelude::*;

verus! {

/// The accounts of the creation step.
#[derive(Clone, Copy, Debug, PartialEq, Eq)]
pub struct CreateToken {
    pub payer: Signer,
    pub mint_account: Address,
    pub mint_authority: Signer,
    pub associated_token_account: Address,
    pub metadata_account: Address,
    pub token_metadata_program: Address,
    pub token_program: Address,
    pub associated_token_program: Address,
}

/// Reads the size of a ledger record, `anchor_spl::token::Mint::LEN`, which
/// spl-token fixes at 82 bytes.
#[verifier::external_body]
fn mint_account_size() -> (size: u64)
    ensures
        size == MINT_SIZE,
{
    anchor_spl::token::Mint::LEN as u64
}

/// The single creator of a new asset: the mint authority, unverified, with
/// the full share.
pub open spec fn sole_creator(ctx: CreateToken) -> Creator {
    Creator { address: ctx.mint_authority.key, verified: false, share: FULL_SHARE }
}

/// The storage that the creation step asks for: of the size of a ledger
/// record, paid by the mint authority, owned by the token authority.
pub open spec fn allocation_call(ctx: CreateToken) -> Allocation {
    Allocation {
        funder: ctx.mint_authority,
        new_address: ctx.mint_account,
        size: MINT_SIZE,
        owner: ctx.token_program,
    }
}

/// How the creation step initialises the ledger record: no decimals, the
/// mint authority as both mint and freeze authority.
pub open spec fn initialization_call(ctx: CreateToken) -> MintInitialization {
    MintInitialization {
        token_program: ctx.token_program,
        mint: ctx.mint_account,
        decimals: TOKEN_DECIMALS,
        mint_authority: ctx.mint_authority.key,
        freeze_authority: Some(ctx.mint_authority.key),
    }
}

/// The ownership-index record that the creation step asks for: the payer's.
pub open spec fn index_call(ctx: CreateToken) -> IndexCreation {
    IndexCreation {
        index_program: ctx.associated_token_program,
        token_program: ctx.token_program,
        payer: ctx.payer,
        owner: ctx.payer.key,
        mint: ctx.mint_account,
        index: ctx.associated_token_account,
    }
}

/// The metadata record that the creation step asks for: mutable, with the
/// default royalty and the mint authority as update authority and only
/// creator.
pub open spec fn metadata_call(
    ctx: CreateToken,
    name: Seq<char>,
    symbol: Seq<char>,
    uri: Seq<char>,
) -> MetadataCreationModel {
    MetadataCreationModel {
        program: ctx.token_metadata_program,
        metadata: ctx.metadata_account,
        mint: ctx.mint_account,
        mint_authority: ctx.mint_authority,
        payer: ctx.payer,
        update_authority: ctx.mint_authority,
        name,
        symbol,
        uri,
        creators: seq![sole_creator(ctx)],
        royalty_bps: DEFAULT_ROYALTY_BPS,
        is_mutable: true,
    }
}

/// What is checked before the creation step touches the ledger: the derived
/// addresses, the two signatures, and the limits on name, symbol and URI.
pub open spec fn creation_check(
    ctx: CreateToken,
    name: Seq<char>,
    symbol: Seq<char>,
    uri: Seq<char>,
) -> Result<(), NftError> {
    if !is_derived(
        ctx.associated_token_account,
        ownership_index_address(
            ctx.payer.key,
            ctx.mint_account,
            ctx.token_program,
            ctx.associated_token_program,
        ),
    ) || !is_derived(
        ctx.metadata_account,
        metadata_address(ctx.token_metadata_program, ctx.mint_account),
    ) {
        Err(NftError::InvalidAccountDerivation)
    } else if !ctx.payer.signed || !ctx.mint_authority.signed {
        Err(NftError::AuthorizationFailure)
    } else if !metadata_valid(name, symbol, uri, seq![sole_creator(ctx)], DEFAULT_ROYALTY_BPS) {
        Err(NftError::InvalidMetadata)
    } else {
        Ok(())
    }
}

/// The requests of the creation step in their order: the storage of the
/// ledger record, its initialisation, the payer's ownership-index record, the
/// metadata record.
pub open spec fn creation_calls(
    ctx: CreateToken,
    name: Seq<char>,
    symbol: Seq<char>,
    uri: Seq<char>,
) -> Seq<LedgerCallModel> {
    seq![
        LedgerCallModel::Allocate(allocation_call(ctx)),
        LedgerCallModel::Initialize(initialization_call(ctx)),
        LedgerCallModel::CreateIndex(index_call(ctx)),
        LedgerCallModel::CreateMetadata(metadata_call(ctx, name, symbol, uri)),
    ]
}

/// The creation step: the checks, then the four requests in their order,
/// each on what the one before left. The first failure is the step's.
pub open spec fn creation(
    ledger: LedgerModel,
    ctx: CreateToken,
    name: Seq<char>,
    symbol: Seq<char>,
    uri: Seq<char>,
) -> Result<LedgerModel, NftError> {
    match creation_check(ctx, name, symbol, uri) {
        Err(e) => Err(e),
        Ok(_) => ledger.apply_all(creation_calls(ctx, name, symbol, uri)),
    }
}

/// The creation step, operation by operation.
pub proof fn lemma_creation_in_steps(
    ledger: LedgerModel,
    ctx: CreateToken,
    name: Seq<char>,
    symbol: Seq<char>,
    uri: Seq<char>,
)
    ensures
        creation(ledger, ctx, name, symbol, uri) == (match creation_check(ctx, name, symbol, uri) {
            Err(e) => Err(e),
            Ok(_) => match ledger.allocate(allocation_call(ctx)) {
                Err(e) => Err(e),
                Ok(allocated) => match allocated.initialize(initialization_call(ctx)) {
                    Err(e) => Err(e),
                    Ok(initialized) => match initialized.create_index(index_call(ctx)) {
                        Err(e) => Err(e),
                        Ok(indexed) => indexed.create_metadata(
                            metadata_call(ctx, name, symbol, uri),
                        ),
                    },
                },
            },
        }),
{
    let calls = creation_calls(ctx, name, symbol, uri);
    let second = calls.drop_first();
    let third = second.drop_first();
    let fourth = third.drop_first();
    assert(fourth.drop_first().len() == 0);
    assert(calls[0] == LedgerCallModel::Allocate(allocation_call(ctx)));
    assert(second[0] == LedgerCallModel::Initialize(initialization_call(ctx)));
    assert(third[0] == LedgerCallModel::CreateIndex(index_call(ctx)));
    assert(fourth[0] == LedgerCallModel::CreateMetadata(metadata_call(ctx, name, symbol, uri)));
    reveal_with_fuel(LedgerModel::apply_all, 5);
}

/// The request for the storage of the ledger record.
pub fn allocation_request(ctx: &CreateToken) -> (call: Allocation)
    ensures
        call == allocation_call(*ctx),
{
    Allocation {
        funder: ctx.mint_authority,
        new_address: ctx.mint_account,
        size: mint_account_size(),
        owner: ctx.token_program,
    }
}

/// The request that initialises the ledger record.
pub fn initialization_request(ctx: &CreateToken) -> (call: MintInitialization)
    ensures
        call == initialization_call(*ctx),
{
    MintInitialization {
        token_program: ctx.token_program,
        mint: ctx.mint_account,
        decimals: TOKEN_DECIMALS,
        mint_authority: ctx.mint_authority.key,
        freeze_authority: Some(ctx.mint_authority.key),
    }
}

/// The request for the payer's ownership-index record.
pub fn index_request(ctx: &CreateToken) -> (call: IndexCreation)
    ensures
        call == index_call(*ctx),
{
    IndexCreation {
        index_program: ctx.associated_token_program,
        token_program: ctx.token_program,
        payer: ctx.payer,
        owner: ctx.payer.key,
        mint: ctx.mint_account,
        index: ctx.associated_token_account,
    }
}

/// The request for the metadata record.
pub fn metadata_request(
    ctx: &CreateToken,
    token_name: String,
    token_symbol: String,
    token_uri: String,
) -> (call: MetadataCreation)
    ensures
        call@ == metadata_call(*ctx, token_name@, token_symbol@, token_uri@),
{
    let creators: Vec<Creator> = vec![
        Creator { address: ctx.mint_authority.key, verified: false, share: FULL_SHARE },
    ];
    assert(creators@ =~= seq![sole_creator(*ctx)]);
    MetadataCreation {
        program: ctx.token_metadata_program,
        metadata: ctx.metadata_account,
        mint: ctx.mint_account,
        mint_authority: ctx.mint_authority,
        payer: ctx.payer,
        update_authority: ctx.mint_authority,
        name: token_name,
        symbol: token_symbol,
        uri: token_uri,
        creators,
        royalty_bps: DEFAULT_ROYALTY_BPS,
        is_mutable: true,
    }
}

/// Checks the accounts and texts of the creation step without touching a
/// ledger.
pub fn validate_creation(
    ctx: &CreateToken,
    nft_name: &String,
    nft_symbol: &String,
    nft_uri: &String,
) -> (r: Result<(), NftError>)
    ensures
        r == creation_check(*ctx, nft_name@, nft_symbol@, nft_uri@),
{
    let index = derive_ownership_index(
        &ctx.payer.key,
        &ctx.mint_account,
        &ctx.token_program,
        &ctx.associated_token_program,
    );
    if check_derivation(&ctx.associated_token_account, &index).is_err() {
        return Err(NftError::InvalidAccountDerivation);
    }
    let described = derive_metadata(&ctx.token_metadata_program, &ctx.mint_account);
    if check_derivation(&ctx.metadata_account, &described).is_err() {
        return Err(NftError::InvalidAccountDerivation);
    }
    if !ctx.payer.signed || !ctx.mint_authority.signed {
        return Err(NftError::AuthorizationFailure);
    }
    let creators: Vec<Creator> = vec![
        Creator { address: ctx.mint_authority.key, verified: false, share: FULL_SHARE },
    ];
    assert(creators@ =~= seq![sole_creator(*ctx)]);
    match validate_metadata(nft_name, nft_symbol, nft_uri, &creators, DEFAULT_ROYALTY_BPS) {
        Ok(()) => Ok(()),
        Err(_) => Err(NftError::InvalidMetadata),
    }
}

/// Allocates the storage of the ledger record.
pub fn create_mint_account(ledger: &mut Ledger, ctx: &CreateToken) -> (r: Result<(), NftError>)
    requires
        old(ledger).wf(),
    ensures
        final(ledger).wf(),
        outcome(r, final(ledger)@) == old(ledger)@.allocate(allocation_call(*ctx)),
        r is Err ==> final(ledger)@ == old(ledger)@,
{
    let call = allocation_request(ctx);
    ledger.allocate(&call)
}

/// Initialises the ledger record.
pub fn initialize_mint_account(ledger: &mut Ledger, ctx: &CreateToken) -> (r: Result<
    (),
    NftError,
>)
    requires
        old(ledger).wf(),
    ensures
        final(ledger).wf(),
        outcome(r, final(ledger)@) == old(ledger)@.initialize(initialization_call(*ctx)),
        r is Err ==> final(ledger)@ == old(ledger)@,
{
    let call = initialization_request(ctx);
    ledger.initialize(&call)
}

/// Creates the payer's ownership-index record, or leaves the one that is
/// there.
pub fn create_associated_token_account(ledger: &mut Ledger, ctx: &CreateToken) -> (r: Result<
    (),
    NftError,
>)
    requires
        old(ledger).wf(),
    ensures
        final(ledger).wf(),
        outcome(r, final(ledger)@) == old(ledger)@.create_index(index_call(*ctx)),
        r is Err ==> final(ledger)@ == old(ledger)@,
{
    let call = index_request(ctx);
    ledger.create_index(&call)
}

/// Creates the metadata record.
pub fn create_metadata_account(
    ledger: &mut Ledger,
    ctx: &CreateToken,
    token_name: String,
    token_symbol: String,
    token_uri: String,
) -> (r: Result<(), NftError>)
    requires
        old(ledger).wf(),
    ensures
        final(ledger).wf(),
        outcome(r, final(ledger)@) == old(ledger)@.create_metadata(
            metadata_call(*ctx, token_name@, token_symbol@, token_uri@),
        ),
        r is Err ==> final(ledger)@ == old(ledger)@,
{
    let call = metadata_request(ctx, token_name, token_symbol, token_uri);
    ledger.create_metadata(&call)
}

/// What a committed creation step leaves: the ledger record without decimals
/// and without supply, frozen by the mint authority; the payer's empty
/// ownership-index record; and the metadata record as it was asked for.
pub proof fn lemma_creation_committed(
    ledger: LedgerModel,
    ctx: CreateToken,
    name: Seq<char>,
    symbol: Seq<char>,
    uri: Seq<char>,
)
    requires
        creation(ledger, ctx, name, symbol, uri) is Ok,
    ensures
        ({
            let after = creation(ledger, ctx, name, symbol, uri)->Ok_0;
            &&& after.mint_at(ctx.mint_account) == Some(
                LedgerRecord {
                    decimals: 0,
                    mint_authority: ctx.mint_authority.key,
                    freeze_authority: Some(ctx.mint_authority.key),
                    supply: 0,
                },
            )
            &&& after.holds_index(ctx.associated_token_account, ctx.payer.key, ctx.mint_account)
            &&& after.metadata_at(ctx.metadata_account) == Some(
                metadata_call(ctx, name, symbol, uri).record(),
            )
        }),
{
    lemma_creation_in_steps(ledger, ctx, name, symbol, uri);
}

/// The requests of the creation step in their order, for a ledger or for
/// whoever carries them out; none where a check of the step fails.
pub fn creation_plan(
    ctx: &CreateToken,
    nft_name: String,
    nft_symbol: String,
    nft_uri: String,
) -> (r: Result<Vec<LedgerCall>, NftError>)
    ensures
        match r {
            Ok(plan) => creation_check(*ctx, nft_name@, nft_symbol@, nft_uri@) is Ok && call_models(
                plan@,
            ) == creation_calls(*ctx, nft_name@, nft_symbol@, nft_uri@),
            Err(e) => creation_check(*ctx, nft_name@, nft_symbol@, nft_uri@) == Err::<(), NftError>(e),
        },
{
    match validate_creation(ctx, &nft_name, &nft_symbol, &nft_uri) {
        Err(e) => {
            return Err(e);
        },
        Ok(()) => {},
    }
    let plan: Vec<LedgerCall> = vec![
        LedgerCall::Allocate(allocation_request(ctx)),
        LedgerCall::Initialize(initialization_request(ctx)),
        LedgerCall::CreateIndex(index_request(ctx)),
        LedgerCall::CreateMetadata(metadata_request(ctx, nft_name, nft_symbol, nft_uri)),
    ];
    assert(call_models(plan@) =~= creation_calls(*ctx, nft_name@, nft_symbol@, nft_uri@));
    Ok(plan)
}

/// The creation step: allocates and initialises the ledger record, creates
/// the payer's ownership-index record and the metadata record. It commits all
/// of it or nothing.
pub fn create_token(
    ledger: &mut Ledger,
    ctx: &CreateToken,
    nft_name: String,
    nft_symbol: String,
    nft_uri: String,
) -> (r: Result<(), NftError>)
    requires
        old(ledger).wf(),
    ensures
        final(ledger).wf(),
        outcome(r, final(ledger)@) == creation(old(ledger)@, *ctx, nft_name@, nft_symbol@, nft_uri@),
        r is Err ==> final(ledger)@ == old(ledger)@,
        r is Ok ==> final(ledger)@.mint_at(ctx.mint_account) == Some(
            LedgerRecord {
                decimals: 0,
                mint_authority: ctx.mint_authority.key,
                freeze_authority: Some(ctx.mint_authority.key),
                supply: 0,
            },
        ),
{
    let plan = match creation_plan(ctx, nft_name, nft_symbol, nft_uri) {
        Err(e) => {
            return Err(e);
        },
        Ok(plan) => plan,
    };
    let r = ledger.commit(&plan);
    proof {
        if r is Ok {
            lemma_creation_committed(old(ledger)@, *ctx, nft_name@, nft_symbol@, nft_uri@);
        }
    }
    r
}

} // verus!
