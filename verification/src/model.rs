use crate::address::{Address, Authorities};
use crate::calls::{
    Allocation, EditionCreation, IndexCreation, Issuance, LedgerCallModel, MetadataCreationModel,
    MetadataUpdate, MintInitialization,
};
use crate::constants::{EDITION_SIZE, INDEX_SIZE, METADATA_SIZE, MINT_SIZE, TOKEN_MAX_SUPPLY};
use crate::derivation::{edition_address, is_derived, metadata_address, ownership_index_address};
use crate::error::NftError;
use crate::metadata::metadata_valid;
use crate::records::{
    EditionRecord, LedgerRecord, MetadataModel, OwnershipIndexRecord, RecordModel, StorageSlot,
};
use vstd::prelude::*;

verus! {

/// The state of a ledger: its authorities, the record at each address, the
/// funds of each account, and the rent of one byte of storage.
pub struct LedgerModel {
    pub authorities: Authorities,
    pub records: Map<Address, RecordModel>,
    pub funds: Map<Address, u64>,
    pub lamports_per_byte: u64,
}

impl LedgerModel {
    /// The supply of the ledger record at an address, and zero where none is
    /// there.
    pub open spec fn supply_of(self, at: Address) -> u64 {
        match self.mint_at(at) {
            Some(mint) => mint.supply,
            None => 0,
        }
    }

    /// Whether a record lies where the ledger's authorities derive its
    /// address, beside the records it rests on. An ownership-index record is
    /// derived from its owner and its ledger record, which exists and has
    /// issued at least its balance. A metadata record is derived from its
    /// ledger record, which exists. An edition record is derived from the
    /// ledger record of its metadata record, whose one unit has been issued.
    pub open spec fn placed(self, at: Address, record: RecordModel) -> bool {
        match record {
            RecordModel::Index(index) => {
                &&& is_derived(
                    at,
                    ownership_index_address(
                        index.owner,
                        index.mint,
                        self.authorities.token_program,
                        self.authorities.index_program,
                    ),
                )
                &&& self.mint_at(index.mint) is Some
                &&& index.balance <= self.supply_of(index.mint)
            },
            RecordModel::Metadata(metadata) => {
                &&& is_derived(
                    at,
                    metadata_address(self.authorities.metadata_program, metadata.mint),
                )
                &&& self.mint_at(metadata.mint) is Some
            },
            RecordModel::Edition(edition) => match self.metadata_at(edition.metadata) {
                Some(metadata) => {
                    &&& is_derived(
                        at,
                        edition_address(self.authorities.metadata_program, metadata.mint),
                    )
                    &&& self.supply_of(metadata.mint) == TOKEN_MAX_SUPPLY
                },
                None => false,
            },
            _ => true,
        }
    }

    /// No two ownership-index records of one ledger record hold more between
    /// them than the ledger record has issued.
    pub open spec fn units_accounted(self) -> bool {
        forall|a: Address, b: Address|
            #![trigger self.index_at(a), self.index_at(b)]
            a != b && self.index_at(a) is Some && self.index_at(b) is Some && self.index_at(
                a,
            )->0.mint == self.index_at(b)->0.mint ==> self.index_at(a)->0.balance + self.index_at(
                b,
            )->0.balance <= self.supply_of(self.index_at(a)->0.mint)
    }

    /// Every record meets the invariant of its kind and lies at its derived
    /// address beside the records it rests on, and the units of each ledger
    /// record are accounted for.
    pub open spec fn well_formed(self) -> bool {
        &&& forall|a: Address| #[trigger]
            self.records.contains_key(a) ==> self.records[a].well_formed() && self.placed(
                a,
                self.records[a],
            )
        &&& self.units_accounted()
    }

    /// The funds of an account.
    pub open spec fn balance(self, account: Address) -> u64 {
        if self.funds.contains_key(account) {
            self.funds[account]
        } else {
            0
        }
    }

    /// The ledger after an account has been given funds; an account holds at
    /// most what sixty-four bits can count.
    pub open spec fn deposit(self, account: Address, lamports: u64) -> LedgerModel {
        LedgerModel {
            funds: self.funds.insert(
                account,
                if self.balance(account) + lamports <= u64::MAX {
                    (self.balance(account) + lamports) as u64
                } else {
                    u64::MAX
                },
            ),
            ..self
        }
    }

    /// The rent of storage of a given size.
    pub open spec fn rent_due(self, size: u64) -> nat {
        (self.lamports_per_byte as nat) * (size as nat)
    }

    /// Whether an account can pay the rent of storage of a given size.
    pub open spec fn can_pay(self, funder: Address, size: u64) -> bool {
        self.balance(funder) >= self.rent_due(size)
    }

    /// The ledger after an account has paid the rent of storage of a given size.
    pub open spec fn charged(self, funder: Address, size: u64) -> LedgerModel {
        LedgerModel {
            funds: self.funds.insert(funder, (self.balance(funder) - self.rent_due(size)) as u64),
            ..self
        }
    }

    /// The ledger with a record put at an address.
    pub open spec fn with_record(self, at: Address, record: RecordModel) -> LedgerModel {
        LedgerModel { records: self.records.insert(at, record), ..self }
    }

    /// The ledger record at an address, if one is there.
    pub open spec fn mint_at(self, at: Address) -> Option<LedgerRecord> {
        if self.records.contains_key(at) {
            match self.records[at] {
                RecordModel::Mint(mint) => Some(mint),
                _ => None,
            }
        } else {
            None
        }
    }

    /// The ownership-index record at an address, if one is there.
    pub open spec fn index_at(self, at: Address) -> Option<OwnershipIndexRecord> {
        if self.records.contains_key(at) {
            match self.records[at] {
                RecordModel::Index(index) => Some(index),
                _ => None,
            }
        } else {
            None
        }
    }

    /// The metadata record at an address, if one is there.
    pub open spec fn metadata_at(self, at: Address) -> Option<MetadataModel> {
        if self.records.contains_key(at) {
            match self.records[at] {
                RecordModel::Metadata(metadata) => Some(metadata),
                _ => None,
            }
        } else {
            None
        }
    }

    /// The edition record at an address, if one is there.
    pub open spec fn edition_at(self, at: Address) -> Option<EditionRecord> {
        if self.records.contains_key(at) {
            match self.records[at] {
                RecordModel::Edition(edition) => Some(edition),
                _ => None,
            }
        } else {
            None
        }
    }

    /// Allocating storage: the funder must have signed, the address must be
    /// free, and the funder must be able to pay the rent.
    pub open spec fn allocate(self, call: Allocation) -> Result<LedgerModel, NftError> {
        if !call.funder.signed {
            Err(NftError::AuthorizationFailure)
        } else if self.records.contains_key(call.new_address) {
            Err(NftError::AddressInUse)
        } else if !self.can_pay(call.funder.key, call.size) {
            Err(NftError::InsufficientFunding)
        } else {
            Ok(
                self.charged(call.funder.key, call.size).with_record(
                    call.new_address,
                    RecordModel::Storage(StorageSlot { size: call.size, owner: call.owner }),
                ),
            )
        }
    }

    /// Initialising a ledger record: the storage must have been allocated, of
    /// the size of a ledger record and to the ledger's token authority, and
    /// not have been initialised before. The supply starts at zero.
    pub open spec fn initialize(self, call: MintInitialization) -> Result<LedgerModel, NftError> {
        if !self.records.contains_key(call.mint) {
            Err(NftError::OrderingViolation)
        } else {
            match self.records[call.mint] {
                RecordModel::Storage(slot) => {
                    if call.token_program != self.authorities.token_program || slot.owner
                        != call.token_program || slot.size != MINT_SIZE {
                        Err(NftError::AuthorizationFailure)
                    } else {
                        Ok(
                            self.with_record(
                                call.mint,
                                RecordModel::Mint(
                                    LedgerRecord {
                                        decimals: call.decimals,
                                        mint_authority: call.mint_authority,
                                        freeze_authority: call.freeze_authority,
                                        supply: 0,
                                    },
                                ),
                            ),
                        )
                    }
                },
                _ => Err(NftError::AddressInUse),
            }
        }
    }

    /// Whether the record at an address is the ownership-index record of an
    /// owner and a ledger record.
    pub open spec fn holds_index(self, at: Address, owner: Address, mint: Address) -> bool {
        match self.index_at(at) {
            Some(index) => index.owner == owner && index.mint == mint,
            None => false,
        }
    }

    /// Creating an ownership-index record: the address must be the derived
    /// one, the programs named must be the ledger's, the payer must have
    /// signed and the ledger record must exist. Where the record is already
    /// there, nothing changes.
    pub open spec fn create_index(self, call: IndexCreation) -> Result<LedgerModel, NftError> {
        if !is_derived(
            call.index,
            ownership_index_address(call.owner, call.mint, call.token_program, call.index_program),
        ) {
            Err(NftError::InvalidAccountDerivation)
        } else if call.index_program != self.authorities.index_program || call.token_program
            != self.authorities.token_program || !call.payer.signed {
            Err(NftError::AuthorizationFailure)
        } else if self.mint_at(call.mint) is None {
            Err(NftError::OrderingViolation)
        } else if self.records.contains_key(call.index) {
            if self.holds_index(call.index, call.owner, call.mint) {
                Ok(self)
            } else {
                Err(NftError::AddressInUse)
            }
        } else if !self.can_pay(call.payer.key, INDEX_SIZE) {
            Err(NftError::InsufficientFunding)
        } else {
            Ok(
                self.charged(call.payer.key, INDEX_SIZE).with_record(
                    call.index,
                    RecordModel::Index(
                        OwnershipIndexRecord { owner: call.owner, mint: call.mint, balance: 0 },
                    ),
                ),
            )
        }
    }

    /// Creating a metadata record: the address must be the derived one, the
    /// program named must be the ledger's, payer and mint authority must have
    /// signed, what is described must lie within the limits, the ledger record
    /// must exist under that mint authority, and the address must be free.
    pub open spec fn create_metadata(self, call: MetadataCreationModel) -> Result<
        LedgerModel,
        NftError,
    > {
        if !is_derived(call.metadata, metadata_address(call.program, call.mint)) {
            Err(NftError::InvalidAccountDerivation)
        } else if call.program != self.authorities.metadata_program || !call.payer.signed
            || !call.mint_authority.signed {
            Err(NftError::AuthorizationFailure)
        } else if !metadata_valid(
            call.name,
            call.symbol,
            call.uri,
            call.creators,
            call.royalty_bps,
        ) {
            Err(NftError::InvalidMetadata)
        } else {
            match self.mint_at(call.mint) {
                None => Err(NftError::OrderingViolation),
                Some(mint) => {
                    if mint.mint_authority != call.mint_authority.key {
                        Err(NftError::AuthorizationFailure)
                    } else if self.records.contains_key(call.metadata) {
                        Err(NftError::AddressInUse)
                    } else if !self.can_pay(call.payer.key, METADATA_SIZE) {
                        Err(NftError::InsufficientFunding)
                    } else {
                        Ok(
                            self.charged(call.payer.key, METADATA_SIZE).with_record(
                                call.metadata,
                                RecordModel::Metadata(call.record()),
                            ),
                        )
                    }
                },
            }
        }
    }

    /// Issuing units: the destination must be the derived address of the
    /// owner's ownership-index record, ledger record and ownership-index record
    /// must exist and belong to each other and to the owner, the programs
    /// named must be the ledger's, the mint authority must have signed, and
    /// neither the supply nor the balance may pass the cap.
    pub open spec fn issue(self, call: Issuance) -> Result<LedgerModel, NftError> {
        if !is_derived(
            call.destination,
            ownership_index_address(call.owner, call.mint, call.token_program, call.index_program),
        ) {
            Err(NftError::InvalidAccountDerivation)
        } else {
            match (self.mint_at(call.mint), self.index_at(call.destination)) {
                (Some(mint), Some(index)) => {
                    if index.mint != call.mint || index.owner != call.owner {
                        Err(NftError::InvalidAccountDerivation)
                    } else if call.index_program != self.authorities.index_program
                        || call.token_program != self.authorities.token_program
                        || !call.authority.signed || call.authority.key != mint.mint_authority {
                        Err(NftError::AuthorizationFailure)
                    } else if mint.supply + call.amount > TOKEN_MAX_SUPPLY || index.balance
                        + call.amount > TOKEN_MAX_SUPPLY {
                        Err(NftError::SupplyExceeded)
                    } else {
                        Ok(
                            self.with_record(
                                call.mint,
                                RecordModel::Mint(
                                    LedgerRecord {
                                        supply: (mint.supply + call.amount) as u64,
                                        ..mint
                                    },
                                ),
                            ).with_record(
                                call.destination,
                                RecordModel::Index(
                                    OwnershipIndexRecord {
                                        balance: (index.balance + call.amount) as u64,
                                        ..index
                                    },
                                ),
                            ),
                        )
                    }
                },
                _ => Err(NftError::OrderingViolation),
            }
        }
    }

    /// Creating an edition record: edition and metadata addresses must be the
    /// derived ones, ledger record and metadata record must exist, the one
    /// unit must have been issued, the metadata must describe this ledger
    /// record, the program named must be the ledger's, payer and both
    /// authorities must have signed and be the recorded ones, and the asset
    /// must not have an edition yet.
    pub open spec fn create_edition(self, call: EditionCreation) -> Result<LedgerModel, NftError> {
        if !is_derived(call.edition, edition_address(call.program, call.mint)) || !is_derived(
            call.metadata,
            metadata_address(call.program, call.mint),
        ) {
            Err(NftError::InvalidAccountDerivation)
        } else {
            match (self.mint_at(call.mint), self.metadata_at(call.metadata)) {
                (Some(mint), Some(metadata)) => {
                    if mint.supply != TOKEN_MAX_SUPPLY {
                        Err(NftError::OrderingViolation)
                    } else if metadata.mint != call.mint {
                        Err(NftError::InvalidAccountDerivation)
                    } else if call.program != self.authorities.metadata_program
                        || !call.payer.signed || !call.mint_authority.signed
                        || !call.update_authority.signed || call.mint_authority.key
                        != mint.mint_authority || call.update_authority.key
                        != metadata.update_authority {
                        Err(NftError::AuthorizationFailure)
                    } else if self.records.contains_key(call.edition) {
                        Err(NftError::EditionAlreadyExists)
                    } else if !self.can_pay(call.payer.key, EDITION_SIZE) {
                        Err(NftError::InsufficientFunding)
                    } else {
                        Ok(
                            self.charged(call.payer.key, EDITION_SIZE).with_record(
                                call.edition,
                                RecordModel::Edition(
                                    EditionRecord {
                                        metadata: call.metadata,
                                        max_supply: call.max_supply,
                                    },
                                ),
                            ),
                        )
                    }
                },
                _ => Err(NftError::OrderingViolation),
            }
        }
    }

    /// Updating the mutability flag: the record must exist, its update
    /// authority must have signed, and a cleared flag stays cleared.
    pub open spec fn update_metadata(self, call: MetadataUpdate) -> Result<LedgerModel, NftError> {
        match self.metadata_at(call.metadata) {
            None => Err(NftError::OrderingViolation),
            Some(metadata) => {
                if !call.update_authority.signed || call.update_authority.key
                    != metadata.update_authority {
                    Err(NftError::AuthorizationFailure)
                } else if call.is_mutable && !metadata.is_mutable {
                    Err(NftError::MetadataImmutable)
                } else {
                    Ok(
                        self.with_record(
                            call.metadata,
                            RecordModel::Metadata(
                                MetadataModel { is_mutable: call.is_mutable, ..metadata },
                            ),
                        ),
                    )
                }
            },
        }
    }

    /// What one request does to the ledger.
    pub open spec fn apply(self, call: LedgerCallModel) -> Result<LedgerModel, NftError> {
        match call {
            LedgerCallModel::Allocate(c) => self.allocate(c),
            LedgerCallModel::Initialize(c) => self.initialize(c),
            LedgerCallModel::CreateIndex(c) => self.create_index(c),
            LedgerCallModel::CreateMetadata(c) => self.create_metadata(c),
            LedgerCallModel::Issue(c) => self.issue(c),
            LedgerCallModel::CreateEdition(c) => self.create_edition(c),
            LedgerCallModel::UpdateMetadata(c) => self.update_metadata(c),
        }
    }

    /// What a batch of requests does to the ledger: each request works on
    /// what the one before left, and the first failure is the batch's.
    pub open spec fn apply_all(self, calls: Seq<LedgerCallModel>) -> Result<LedgerModel, NftError>
        decreases calls.len(),
    {
        if calls.len() == 0 {
            Ok(self)
        } else {
            match self.apply(calls[0]) {
                Err(e) => Err(e),
                Ok(next) => next.apply_all(calls.drop_first()),
            }
        }
    }
}

} // verus!
