use crate::address::{Address, Signer};
use crate::metadata::Creator;
use crate::records::{MetadataModel, MetadataRecord};
use vstd::prelude::*;

verus! {

/// A request for fresh storage of a given size, paid by the funder and handed
/// to an owning authority.
#[derive(Clone, Copy, Debug, PartialEq, Eq)]
pub struct Allocation {
    pub funder: Signer,
    pub new_address: Address,
    pub size: u64,
    pub owner: Address,
}

/// A request to make allocated storage a ledger record.
#[derive(Clone, Copy, Debug, PartialEq, Eq)]
pub struct MintInitialization {
    pub token_program: Address,
    pub mint: Address,
    pub decimals: u8,
    pub mint_authority: Address,
    pub freeze_authority: Option<Address>,
}

/// A request for the ownership-index record of an owner and a ledger record.
#[derive(Clone, Copy, Debug, PartialEq, Eq)]
pub struct IndexCreation {
    pub index_program: Address,
    pub token_program: Address,
    pub payer: Signer,
    pub owner: Address,
    pub mint: Address,
    pub index: Address,
}

/// A request for the metadata record of a ledger record.
#[derive(Debug, PartialEq, Eq)]
pub struct MetadataCreation {
    pub program: Address,
    pub metadata: Address,
    pub mint: Address,
    pub mint_authority: Signer,
    pub payer: Signer,
    pub update_authority: Signer,
    pub name: String,
    pub symbol: String,
    pub uri: String,
    pub creators: Vec<Creator>,
    pub royalty_bps: u16,
    pub is_mutable: bool,
}

/// A request for a metadata record as a value.
pub struct MetadataCreationModel {
    pub program: Address,
    pub metadata: Address,
    pub mint: Address,
    pub mint_authority: Signer,
    pub payer: Signer,
    pub update_authority: Signer,
    pub name: Seq<char>,
    pub symbol: Seq<char>,
    pub uri: Seq<char>,
    pub creators: Seq<Creator>,
    pub royalty_bps: u16,
    pub is_mutable: bool,
}

/// A request to issue units of a ledger record into the ownership-index
/// record of an owner.
#[derive(Clone, Copy, Debug, PartialEq, Eq)]
pub struct Issuance {
    pub index_program: Address,
    pub token_program: Address,
    pub mint: Address,
    pub owner: Address,
    pub destination: Address,
    pub authority: Signer,
    pub amount: u64,
}

/// A request for the edition record of a ledger record.
#[derive(Clone, Copy, Debug, PartialEq, Eq)]
pub struct EditionCreation {
    pub program: Address,
    pub edition: Address,
    pub mint: Address,
    pub update_authority: Signer,
    pub mint_authority: Signer,
    pub metadata: Address,
    pub payer: Signer,
    pub max_supply: Option<u64>,
}

/// A request to set the mutability flag of a metadata record.
#[derive(Clone, Copy, Debug, PartialEq, Eq)]
pub struct MetadataUpdate {
    pub metadata: Address,
    pub update_authority: Signer,
    pub is_mutable: bool,
}

impl View for MetadataCreation {
    type V = MetadataCreationModel;

    open spec fn view(&self) -> MetadataCreationModel {
        MetadataCreationModel {
            program: self.program,
            metadata: self.metadata,
            mint: self.mint,
            mint_authority: self.mint_authority,
            payer: self.payer,
            update_authority: self.update_authority,
            name: self.name@,
            symbol: self.symbol@,
            uri: self.uri@,
            creators: self.creators@,
            royalty_bps: self.royalty_bps,
            is_mutable: self.is_mutable,
        }
    }
}

impl MetadataCreationModel {
    /// The record that the request asks for: it has no collection link and no
    /// uses configuration.
    pub open spec fn record(self) -> MetadataModel {
        MetadataModel {
            mint: self.mint,
            update_authority: self.update_authority.key,
            name: self.name,
            symbol: self.symbol,
            uri: self.uri,
            creators: self.creators,
            royalty_bps: self.royalty_bps,
            is_mutable: self.is_mutable,
            collection: None,
            uses: None,
        }
    }
}

impl MetadataCreation {
    /// The record that the request asks for.
    pub fn record(&self) -> (r: MetadataRecord)
        ensures
            r@ == self@.record(),
    {
        MetadataRecord {
            mint: self.mint,
            update_authority: self.update_authority.key,
            name: self.name.clone(),
            symbol: self.symbol.clone(),
            uri: self.uri.clone(),
            creators: crate::records::copy_creators(&self.creators),
            royalty_bps: self.royalty_bps,
            is_mutable: self.is_mutable,
            collection: None,
            uses: None,
        }
    }
}

/// One request to the ledger.
#[derive(Debug, PartialEq, Eq)]
pub enum LedgerCall {
    Allocate(Allocation),
    Initialize(MintInitialization),
    CreateIndex(IndexCreation),
    CreateMetadata(MetadataCreation),
    Issue(Issuance),
    CreateEdition(EditionCreation),
    UpdateMetadata(MetadataUpdate),
}

/// A request to the ledger as a value.
pub enum LedgerCallModel {
    Allocate(Allocation),
    Initialize(MintInitialization),
    CreateIndex(IndexCreation),
    CreateMetadata(MetadataCreationModel),
    Issue(Issuance),
    CreateEdition(EditionCreation),
    UpdateMetadata(MetadataUpdate),
}

impl View for LedgerCall {
    type V = LedgerCallModel;

    open spec fn view(&self) -> LedgerCallModel {
        match self {
            LedgerCall::Allocate(call) => LedgerCallModel::Allocate(*call),
            LedgerCall::Initialize(call) => LedgerCallModel::Initialize(*call),
            LedgerCall::CreateIndex(call) => LedgerCallModel::CreateIndex(*call),
            LedgerCall::CreateMetadata(call) => LedgerCallModel::CreateMetadata(call@),
            LedgerCall::Issue(call) => LedgerCallModel::Issue(*call),
            LedgerCall::CreateEdition(call) => LedgerCallModel::CreateEdition(*call),
            LedgerCall::UpdateMetadata(call) => LedgerCallModel::UpdateMetadata(*call),
        }
    }
}

/// A list of requests, each as a value.
pub open spec fn call_models(calls: Seq<LedgerCall>) -> Seq<LedgerCallModel> {
    Seq::new(calls.len(), |i: int| calls[i]@)
}

} // verus!
