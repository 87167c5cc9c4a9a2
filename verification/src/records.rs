use crate::address::Address;
use crate::constants::TOKEN_MAX_SUPPLY;
use crate::metadata::{metadata_valid, Creator};
use vstd::prelude::*;

verus! {

/// Storage that was allocated and not yet initialised.
#[derive(Clone, Copy, Debug, PartialEq, Eq)]
pub struct StorageSlot {
    pub size: u64,
    pub owner: Address,
}

/// The record that tracks an asset's decimals, authorities and supply.
#[derive(Clone, Copy, Debug, PartialEq, Eq)]
pub struct LedgerRecord {
    pub decimals: u8,
    pub mint_authority: Address,
    pub freeze_authority: Option<Address>,
    pub supply: u64,
}

/// The record that holds one owner's balance of one asset.
#[derive(Clone, Copy, Debug, PartialEq, Eq)]
pub struct OwnershipIndexRecord {
    pub owner: Address,
    pub mint: Address,
    pub balance: u64,
}

/// The record that describes an asset.
#[derive(Debug, PartialEq, Eq)]
pub struct MetadataRecord {
    pub mint: Address,
    pub update_authority: Address,
    pub name: String,
    pub symbol: String,
    pub uri: String,
    pub creators: Vec<Creator>,
    pub royalty_bps: u16,
    pub is_mutable: bool,
    pub collection: Option<Address>,
    pub uses: Option<u64>,
}

/// A metadata record as a value.
pub struct MetadataModel {
    pub mint: Address,
    pub update_authority: Address,
    pub name: Seq<char>,
    pub symbol: Seq<char>,
    pub uri: Seq<char>,
    pub creators: Seq<Creator>,
    pub royalty_bps: u16,
    pub is_mutable: bool,
    pub collection: Option<Address>,
    pub uses: Option<u64>,
}

/// The record that caps how often an asset can be reproduced.
#[derive(Clone, Copy, Debug, PartialEq, Eq)]
pub struct EditionRecord {
    pub metadata: Address,
    pub max_supply: Option<u64>,
}

/// What the ledger holds at one address.
#[derive(Debug, PartialEq, Eq)]
pub enum Record {
    Storage(StorageSlot),
    Mint(LedgerRecord),
    Index(OwnershipIndexRecord),
    Metadata(MetadataRecord),
    Edition(EditionRecord),
}

/// A record as a value.
pub enum RecordModel {
    Storage(StorageSlot),
    Mint(LedgerRecord),
    Index(OwnershipIndexRecord),
    Metadata(MetadataModel),
    Edition(EditionRecord),
}

impl View for MetadataRecord {
    type V = MetadataModel;

    open spec fn view(&self) -> MetadataModel {
        MetadataModel {
            mint: self.mint,
            update_authority: self.update_authority,
            name: self.name@,
            symbol: self.symbol@,
            uri: self.uri@,
            creators: self.creators@,
            royalty_bps: self.royalty_bps,
            is_mutable: self.is_mutable,
            collection: self.collection,
            uses: self.uses,
        }
    }
}

impl View for Record {
    type V = RecordModel;

    open spec fn view(&self) -> RecordModel {
        match self {
            Record::Storage(slot) => RecordModel::Storage(*slot),
            Record::Mint(mint) => RecordModel::Mint(*mint),
            Record::Index(index) => RecordModel::Index(*index),
            Record::Metadata(metadata) => RecordModel::Metadata(metadata@),
            Record::Edition(edition) => RecordModel::Edition(*edition),
        }
    }
}

impl MetadataModel {
    /// What the record describes lies within the limits.
    pub open spec fn well_formed(self) -> bool {
        metadata_valid(self.name, self.symbol, self.uri, self.creators, self.royalty_bps)
    }
}

impl RecordModel {
    /// What each kind of record must meet by itself: a supply and a balance
    /// never above the cap, metadata within its limits. Where a record must
    /// lie, and what must exist beside it, the ledger says.
    pub open spec fn well_formed(self) -> bool {
        match self {
            RecordModel::Storage(_) => true,
            RecordModel::Mint(mint) => mint.supply <= TOKEN_MAX_SUPPLY,
            RecordModel::Index(index) => index.balance <= TOKEN_MAX_SUPPLY,
            RecordModel::Metadata(metadata) => metadata.well_formed(),
            RecordModel::Edition(_) => true,
        }
    }
}

/// A copy of a creators list.
pub fn copy_creators(creators: &Vec<Creator>) -> (r: Vec<Creator>)
    ensures
        r@ == creators@,
{
    let mut r: Vec<Creator> = Vec::new();
    let mut i: usize = 0;
    while i < creators.len()
        invariant
            i <= creators.len(),
            r@ == creators@.take(i as int),
        decreases creators.len() - i,
    {
        r.push(creators[i]);
        assert(creators@.take(i + 1) =~= creators@.take(i as int).push(creators@[i as int]));
        i += 1;
    }
    assert(creators@.take(i as int) =~= creators@);
    r
}

impl MetadataRecord {
    /// A copy of the record.
    pub fn duplicate(&self) -> (r: MetadataRecord)
        ensures
            r@ == self@,
    {
        MetadataRecord {
            mint: self.mint,
            update_authority: self.update_authority,
            name: self.name.clone(),
            symbol: self.symbol.clone(),
            uri: self.uri.clone(),
            creators: copy_creators(&self.creators),
            royalty_bps: self.royalty_bps,
            is_mutable: self.is_mutable,
            collection: self.collection,
            uses: self.uses,
        }
    }
}

impl Record {
    /// A copy of the record.
    pub fn duplicate(&self) -> (r: Record)
        ensures
            r@ == self@,
    {
        match self {
            Record::Storage(slot) => Record::Storage(*slot),
            Record::Mint(mint) => Record::Mint(*mint),
            Record::Index(index) => Record::Index(*index),
            Record::Metadata(metadata) => Record::Metadata(metadata.duplicate()),
            Record::Edition(edition) => Record::Edition(*edition),
        }
    }
}

} // verus!
