use crate::address::{Address, Authorities};
use crate::calls::{
    call_models, Allocation, EditionCreation, IndexCreation, Issuance, LedgerCall,
    MetadataCreation, MetadataUpdate, MintInitialization,
};
use crate::constants::{EDITION_SIZE, INDEX_SIZE, METADATA_SIZE, MINT_SIZE, TOKEN_MAX_SUPPLY};
use crate::derivation::{check_derivation, derive_edition, derive_metadata, derive_ownership_index};
use crate::error::NftError;
use crate::metadata::validate_metadata;
use crate::model::LedgerModel;
use crate::records::{
    EditionRecord, LedgerRecord, MetadataRecord, OwnershipIndexRecord, Record, RecordModel,
    StorageSlot,
};
use crate::table::Table;
use vstd::prelude::*;

verus! {

/// A ledger held in memory: its authorities, records by address, funds by
/// account, and the rent of one byte of storage.
pub struct Ledger {
    authorities: Authorities,
    records: Table<Record>,
    funds: Table<u64>,
    lamports_per_byte: u64,
}

impl View for Ledger {
    type V = LedgerModel;

    closed spec fn view(&self) -> LedgerModel {
        LedgerModel {
            authorities: self.authorities,
            records: records_model(self.records.model()),
            funds: self.funds.model(),
            lamports_per_byte: self.lamports_per_byte,
        }
    }
}

/// The records of a table, each as a value.
pub open spec fn records_model(records: Map<Address, Record>) -> Map<Address, RecordModel> {
    records.map_values(|r: Record| r@)
}

/// Tables that hold the same values still do after each is given a record of
/// one and the same value at one address.
proof fn lemma_put_same_value(
    left: Map<Address, Record>,
    right: Map<Address, Record>,
    at: Address,
    ours: Record,
    theirs: Record,
)
    requires
        records_model(left) == records_model(right),
        ours@ == theirs@,
    ensures
        records_model(left.insert(at, ours)) == records_model(right.insert(at, theirs)),
{
    let a = records_model(left.insert(at, ours));
    let b = records_model(right.insert(at, theirs));
    assert forall|k: Address| left.contains_key(k) == right.contains_key(k) by {
        assert(records_model(left).dom().contains(k) == left.contains_key(k));
        assert(records_model(right).dom().contains(k) == right.contains_key(k));
    }
    assert forall|k: Address| #[trigger] left.contains_key(k) implies left[k]@ == right[k]@ by {
        assert(right.contains_key(k));
        assert(records_model(left)[k] == left[k]@);
        assert(records_model(right)[k] == right[k]@);
    }
    assert forall|k: Address| a.contains_key(k) == b.contains_key(k) by {
        assert(a.dom().contains(k) == left.insert(at, ours).contains_key(k));
        assert(b.dom().contains(k) == right.insert(at, theirs).contains_key(k));
    }
    assert forall|k: Address| #[trigger] a.contains_key(k) implies a[k] == b[k] by {
        assert(left.insert(at, ours).contains_key(k));
        assert(right.insert(at, theirs).contains_key(k));
        if k != at {
            assert(left.contains_key(k));
        }
    }
    assert(a =~= b);
}

/// What an operation leaves behind, as the model states it: the new state
/// where it went through, its error where it did not.
pub open spec fn outcome(r: Result<(), NftError>, after: LedgerModel) -> Result<
    LedgerModel,
    NftError,
> {
    match r {
        Ok(()) => Ok(after),
        Err(e) => Err(e),
    }
}

impl Ledger {
    /// Every record meets the invariant of its kind and lies at its derived
    /// address beside the records it rests on, and the units of each ledger
    /// record are accounted for.
    pub open spec fn wf(&self) -> bool {
        self@.well_formed()
    }

    /// A ledger of the given authorities, without records or funds.
    pub fn new(lamports_per_byte: u64, authorities: Authorities) -> (r: Ledger)
        ensures
            r.wf(),
            r@ == (LedgerModel {
                authorities,
                records: Map::empty(),
                funds: Map::empty(),
                lamports_per_byte,
            }),
    {
        let r = Ledger {
            authorities,
            records: Table::new(),
            funds: Table::new(),
            lamports_per_byte,
        };
        assert(r@.records =~= Map::<Address, RecordModel>::empty());
        r
    }

    /// The authorities of the ledger.
    pub fn authorities(&self) -> (r: Authorities)
        ensures
            r == self@.authorities,
    {
        self.authorities
    }

    /// The funds of an account.
    pub fn balance(&self, account: &Address) -> (r: u64)
        ensures
            r == self@.balance(*account),
    {
        match self.funds.get(account) {
            Some(lamports) => *lamports,
            None => 0,
        }
    }

    /// Adds to the funds of an account, up to the most an account can hold.
    pub fn deposit(&mut self, account: &Address, lamports: u64)
        requires
            old(self).wf(),
        ensures
            final(self).wf(),
            final(self)@ == old(self)@.deposit(*account, lamports),
    {
        let held = self.balance(account);
        let total = if lamports <= u64::MAX - held {
            held + lamports
        } else {
            u64::MAX
        };
        self.funds.put(*account, total);
        proof {
            assert(self@.records == old(self)@.records);
            crate::upkeep::lemma_funds_keep_well_formed(old(self)@, self@);
        }
    }

    fn record_at(&self, at: &Address) -> (r: Option<&Record>)
        ensures
            match r {
                Some(record) => self@.records.contains_key(*at) && self@.records[*at] == record@,
                None => !self@.records.contains_key(*at),
            },
    {
        self.records.get(at)
    }

    fn put_record(&mut self, at: Address, record: Record)
        ensures
            final(self)@ == old(self)@.with_record(at, record@),
    {
        self.records.put(at, record);
        assert(self@.records =~= old(self)@.records.insert(at, record@));
    }

    fn charge(&mut self, funder: &Address, size: u64) -> (paid: bool)
        ensures
            paid == old(self)@.can_pay(*funder, size),
            paid ==> final(self)@ == old(self)@.charged(*funder, size),
            !paid ==> final(self)@ == old(self)@,
    {
        let held = self.balance(funder);
        assert((self.lamports_per_byte as u128) * (size as u128) <= u128::MAX) by (nonlinear_arith)
            requires
                self.lamports_per_byte <= u64::MAX,
                size <= u64::MAX,
        ;
        let rent: u128 = (self.lamports_per_byte as u128) * (size as u128);
        if rent > held as u128 {
            return false;
        }
        let left: u64 = (held as u128 - rent) as u64;
        self.funds.put(*funder, left);
        true
    }

    /// Whether an address holds a record.
    pub fn has_record(&self, at: &Address) -> (r: bool)
        ensures
            r == self@.records.contains_key(*at),
    {
        self.record_at(at).is_some()
    }

    /// The ledger record at an address, if one is there.
    pub fn mint_record(&self, at: &Address) -> (r: Option<LedgerRecord>)
        ensures
            r == self@.mint_at(*at),
    {
        match self.record_at(at) {
            Some(Record::Mint(mint)) => Some(*mint),
            _ => None,
        }
    }

    /// The ownership-index record at an address, if one is there.
    pub fn index_record(&self, at: &Address) -> (r: Option<OwnershipIndexRecord>)
        ensures
            r == self@.index_at(*at),
    {
        match self.record_at(at) {
            Some(Record::Index(index)) => Some(*index),
            _ => None,
        }
    }

    /// The metadata record at an address, if one is there.
    pub fn metadata_record(&self, at: &Address) -> (r: Option<&MetadataRecord>)
        ensures
            match r {
                Some(metadata) => self@.metadata_at(*at) == Some(metadata@),
                None => self@.metadata_at(*at) is None,
            },
    {
        match self.record_at(at) {
            Some(Record::Metadata(metadata)) => Some(metadata),
            _ => None,
        }
    }

    /// The edition record at an address, if one is there.
    pub fn edition_record(&self, at: &Address) -> (r: Option<EditionRecord>)
        ensures
            r == self@.edition_at(*at),
    {
        match self.record_at(at) {
            Some(Record::Edition(edition)) => Some(*edition),
            _ => None,
        }
    }

    /// Allocates storage at a fresh address.
    pub fn allocate(&mut self, call: &Allocation) -> (r: Result<(), NftError>)
        requires
            old(self).wf(),
        ensures
            final(self).wf(),
            outcome(r, final(self)@) == old(self)@.allocate(*call),
            r is Err ==> final(self)@ == old(self)@,
    {
        if !call.funder.signed {
            return Err(NftError::AuthorizationFailure);
        }
        if self.has_record(&call.new_address) {
            return Err(NftError::AddressInUse);
        }
        if !self.charge(&call.funder.key, call.size) {
            return Err(NftError::InsufficientFunding);
        }
        self.put_record(
            call.new_address,
            Record::Storage(StorageSlot { size: call.size, owner: call.owner }),
        );
        proof {
            crate::upkeep::lemma_allocate_keeps_well_formed(old(self)@, *call);
        }
        Ok(())
    }

    /// Makes allocated storage a ledger record with a supply of zero.
    pub fn initialize(&mut self, call: &MintInitialization) -> (r: Result<(), NftError>)
        requires
            old(self).wf(),
        ensures
            final(self).wf(),
            outcome(r, final(self)@) == old(self)@.initialize(*call),
            r is Err ==> final(self)@ == old(self)@,
    {
        match self.record_at(&call.mint) {
            None => Err(NftError::OrderingViolation),
            Some(Record::Storage(slot)) => {
                if !call.token_program.same(&self.authorities.token_program) || !slot.owner.same(
                    &call.token_program,
                ) || slot.size != MINT_SIZE {
                    return Err(NftError::AuthorizationFailure);
                }
                self.put_record(
                    call.mint,
                    Record::Mint(
                        LedgerRecord {
                            decimals: call.decimals,
                            mint_authority: call.mint_authority,
                            freeze_authority: call.freeze_authority,
                            supply: 0,
                        },
                    ),
                );
                proof {
                    crate::upkeep::lemma_initialize_keeps_well_formed(old(self)@, *call);
                }
                Ok(())
            },
            Some(_) => Err(NftError::AddressInUse),
        }
    }

    /// Creates the ownership-index record of an owner and a ledger record, or
    /// leaves the one that is there.
    pub fn create_index(&mut self, call: &IndexCreation) -> (r: Result<(), NftError>)
        requires
            old(self).wf(),
        ensures
            final(self).wf(),
            outcome(r, final(self)@) == old(self)@.create_index(*call),
            r is Err ==> final(self)@ == old(self)@,
    {
        let expected = derive_ownership_index(
            &call.owner,
            &call.mint,
            &call.token_program,
            &call.index_program,
        );
        if check_derivation(&call.index, &expected).is_err() {
            return Err(NftError::InvalidAccountDerivation);
        }
        if !call.index_program.same(&self.authorities.index_program) || !call.token_program.same(
            &self.authorities.token_program,
        ) || !call.payer.signed {
            return Err(NftError::AuthorizationFailure);
        }
        if self.mint_record(&call.mint).is_none() {
            return Err(NftError::OrderingViolation);
        }
        match self.record_at(&call.index) {
            Some(Record::Index(index)) => {
                if index.owner.same(&call.owner) && index.mint.same(&call.mint) {
                    return Ok(());
                }
                return Err(NftError::AddressInUse);
            },
            Some(_) => {
                return Err(NftError::AddressInUse);
            },
            None => {},
        }
        if !self.charge(&call.payer.key, INDEX_SIZE) {
            return Err(NftError::InsufficientFunding);
        }
        self.put_record(
            call.index,
            Record::Index(OwnershipIndexRecord { owner: call.owner, mint: call.mint, balance: 0 }),
        );
        proof {
            crate::upkeep::lemma_create_index_keeps_well_formed(old(self)@, *call);
        }
        Ok(())
    }

    /// Creates the metadata record of a ledger record.
    pub fn create_metadata(&mut self, call: &MetadataCreation) -> (r: Result<(), NftError>)
        requires
            old(self).wf(),
        ensures
            final(self).wf(),
            outcome(r, final(self)@) == old(self)@.create_metadata(call@),
            r is Err ==> final(self)@ == old(self)@,
    {
        let expected = derive_metadata(&call.program, &call.mint);
        if check_derivation(&call.metadata, &expected).is_err() {
            return Err(NftError::InvalidAccountDerivation);
        }
        if !call.program.same(&self.authorities.metadata_program) || !call.payer.signed
            || !call.mint_authority.signed {
            return Err(NftError::AuthorizationFailure);
        }
        if validate_metadata(
            &call.name,
            &call.symbol,
            &call.uri,
            &call.creators,
            call.royalty_bps,
        ).is_err() {
            return Err(NftError::InvalidMetadata);
        }
        match self.mint_record(&call.mint) {
            None => {
                return Err(NftError::OrderingViolation);
            },
            Some(mint) => {
                if !mint.mint_authority.same(&call.mint_authority.key) {
                    return Err(NftError::AuthorizationFailure);
                }
            },
        }
        if self.has_record(&call.metadata) {
            return Err(NftError::AddressInUse);
        }
        if !self.charge(&call.payer.key, METADATA_SIZE) {
            return Err(NftError::InsufficientFunding);
        }
        self.put_record(call.metadata, Record::Metadata(call.record()));
        proof {
            crate::upkeep::lemma_create_metadata_keeps_well_formed(old(self)@, call@);
        }
        Ok(())
    }

    /// Issues units of a ledger record into an ownership-index record.
    pub fn issue(&mut self, call: &Issuance) -> (r: Result<(), NftError>)
        requires
            old(self).wf(),
        ensures
            final(self).wf(),
            outcome(r, final(self)@) == old(self)@.issue(*call),
            r is Err ==> final(self)@ == old(self)@,
    {
        let expected = derive_ownership_index(
            &call.owner,
            &call.mint,
            &call.token_program,
            &call.index_program,
        );
        if check_derivation(&call.destination, &expected).is_err() {
            return Err(NftError::InvalidAccountDerivation);
        }
        let mint = match self.mint_record(&call.mint) {
            Some(mint) => mint,
            None => {
                return Err(NftError::OrderingViolation);
            },
        };
        let index = match self.index_record(&call.destination) {
            Some(index) => index,
            None => {
                return Err(NftError::OrderingViolation);
            },
        };
        if !index.mint.same(&call.mint) || !index.owner.same(&call.owner) {
            return Err(NftError::InvalidAccountDerivation);
        }
        if !call.index_program.same(&self.authorities.index_program) || !call.token_program.same(
            &self.authorities.token_program,
        ) || !call.authority.signed || !call.authority.key.same(&mint.mint_authority) {
            return Err(NftError::AuthorizationFailure);
        }
        if call.amount > TOKEN_MAX_SUPPLY || mint.supply > TOKEN_MAX_SUPPLY - call.amount
            || index.balance > TOKEN_MAX_SUPPLY - call.amount {
            return Err(NftError::SupplyExceeded);
        }
        self.put_record(
            call.mint,
            Record::Mint(
                LedgerRecord {
                    decimals: mint.decimals,
                    mint_authority: mint.mint_authority,
                    freeze_authority: mint.freeze_authority,
                    supply: mint.supply + call.amount,
                },
            ),
        );
        self.put_record(
            call.destination,
            Record::Index(
                OwnershipIndexRecord {
                    owner: index.owner,
                    mint: index.mint,
                    balance: index.balance + call.amount,
                },
            ),
        );
        proof {
            crate::upkeep::lemma_issue_keeps_well_formed(old(self)@, *call);
        }
        Ok(())
    }

    /// Creates the edition record of a ledger record whose one unit has been
    /// issued.
    pub fn create_edition(&mut self, call: &EditionCreation) -> (r: Result<(), NftError>)
        requires
            old(self).wf(),
        ensures
            final(self).wf(),
            outcome(r, final(self)@) == old(self)@.create_edition(*call),
            r is Err ==> final(self)@ == old(self)@,
    {
        let edition = derive_edition(&call.program, &call.mint);
        if check_derivation(&call.edition, &edition).is_err() {
            return Err(NftError::InvalidAccountDerivation);
        }
        let described = derive_metadata(&call.program, &call.mint);
        if check_derivation(&call.metadata, &described).is_err() {
            return Err(NftError::InvalidAccountDerivation);
        }
        let mint = match self.mint_record(&call.mint) {
            Some(mint) => mint,
            None => {
                return Err(NftError::OrderingViolation);
            },
        };
        match self.metadata_record(&call.metadata) {
            None => {
                return Err(NftError::OrderingViolation);
            },
            Some(metadata) => {
                if mint.supply != TOKEN_MAX_SUPPLY {
                    return Err(NftError::OrderingViolation);
                }
                if !metadata.mint.same(&call.mint) {
                    return Err(NftError::InvalidAccountDerivation);
                }
                if !call.program.same(&self.authorities.metadata_program) || !call.payer.signed
                    || !call.mint_authority.signed || !call.update_authority.signed
                    || !call.mint_authority.key.same(
                    &mint.mint_authority,
                ) || !call.update_authority.key.same(&metadata.update_authority) {
                    return Err(NftError::AuthorizationFailure);
                }
            },
        }
        if self.has_record(&call.edition) {
            return Err(NftError::EditionAlreadyExists);
        }
        if !self.charge(&call.payer.key, EDITION_SIZE) {
            return Err(NftError::InsufficientFunding);
        }
        self.put_record(
            call.edition,
            Record::Edition(EditionRecord { metadata: call.metadata, max_supply: call.max_supply }),
        );
        proof {
            crate::upkeep::lemma_create_edition_keeps_well_formed(old(self)@, *call);
        }
        Ok(())
    }

    /// Sets the mutability flag of a metadata record; a cleared flag cannot be
    /// set again.
    pub fn update_metadata(&mut self, call: &MetadataUpdate) -> (r: Result<(), NftError>)
        requires
            old(self).wf(),
        ensures
            final(self).wf(),
            outcome(r, final(self)@) == old(self)@.update_metadata(*call),
            r is Err ==> final(self)@ == old(self)@,
    {
        let updated = match self.metadata_record(&call.metadata) {
            None => {
                return Err(NftError::OrderingViolation);
            },
            Some(metadata) => {
                if !call.update_authority.signed || !call.update_authority.key.same(
                    &metadata.update_authority,
                ) {
                    return Err(NftError::AuthorizationFailure);
                }
                if call.is_mutable && !metadata.is_mutable {
                    return Err(NftError::MetadataImmutable);
                }
                assert(self@.records[call.metadata].well_formed());
                let mut copy = metadata.duplicate();
                copy.is_mutable = call.is_mutable;
                copy
            },
        };
        self.put_record(call.metadata, Record::Metadata(updated));
        proof {
            crate::upkeep::lemma_update_metadata_keeps_well_formed(old(self)@, *call);
        }
        Ok(())
    }

    /// Carries out one request.
    pub fn apply(&mut self, call: &LedgerCall) -> (r: Result<(), NftError>)
        requires
            old(self).wf(),
        ensures
            final(self).wf(),
            outcome(r, final(self)@) == old(self)@.apply(call@),
            r is Err ==> final(self)@ == old(self)@,
    {
        match call {
            LedgerCall::Allocate(c) => self.allocate(c),
            LedgerCall::Initialize(c) => self.initialize(c),
            LedgerCall::CreateIndex(c) => self.create_index(c),
            LedgerCall::CreateMetadata(c) => self.create_metadata(c),
            LedgerCall::Issue(c) => self.issue(c),
            LedgerCall::CreateEdition(c) => self.create_edition(c),
            LedgerCall::UpdateMetadata(c) => self.update_metadata(c),
        }
    }

    /// Carries out a batch of requests in their order, and commits all of
    /// them or none.
    pub fn commit(&mut self, calls: &Vec<LedgerCall>) -> (r: Result<(), NftError>)
        requires
            old(self).wf(),
        ensures
            final(self).wf(),
            outcome(r, final(self)@) == old(self)@.apply_all(call_models(calls@)),
            r is Err ==> final(self)@ == old(self)@,
    {
        let mut work = self.duplicate();
        let ghost batch = call_models(calls@);
        assert(batch.skip(0) =~= batch);
        let mut i: usize = 0;
        while i < calls.len()
            invariant
                i <= calls@.len(),
                batch == call_models(calls@),
                work.wf(),
                self@ == old(self)@,
                self.wf(),
                old(self)@.apply_all(batch) == work@.apply_all(batch.skip(i as int)),
            decreases calls.len() - i,
        {
            proof {
                assert(batch.skip(i as int)[0] == calls@[i as int]@);
                assert(batch.skip(i as int).drop_first() =~= batch.skip(i + 1));
            }
            match work.apply(&calls[i]) {
                Err(e) => {
                    return Err(e);
                },
                Ok(()) => {},
            }
            i += 1;
        }
        *self = work;
        Ok(())
    }

    /// A copy of the ledger.
    pub fn duplicate(&self) -> (r: Ledger)
        ensures
            r@ == self@,
    {
        let mut records: Table<Record> = Table::new();
        let mut i: usize = 0;
        while i < self.records.entries.len()
            invariant
                i <= self.records.entries@.len(),
                records_model(records.model()) == records_model(
                    crate::table::entries_map(self.records.entries@.take(i as int)),
                ),
            decreases self.records.entries.len() - i,
        {
            let ghost before = records.model();
            let copy = self.records.entries[i].1.duplicate();
            records.put(self.records.entries[i].0, copy);
            proof {
                let entries = self.records.entries@;
                assert(entries.take(i + 1).drop_last() =~= entries.take(i as int));
                lemma_put_same_value(
                    before,
                    crate::table::entries_map(entries.take(i as int)),
                    entries[i as int].0,
                    copy,
                    entries[i as int].1,
                );
            }
            i += 1;
        }
        assert(self.records.entries@.take(i as int) =~= self.records.entries@);
        let mut funds: Table<u64> = Table::new();
        let mut j: usize = 0;
        while j < self.funds.entries.len()
            invariant
                j <= self.funds.entries@.len(),
                funds.model() == crate::table::entries_map(self.funds.entries@.take(j as int)),
            decreases self.funds.entries.len() - j,
        {
            funds.put(self.funds.entries[j].0, self.funds.entries[j].1);
            proof {
                let entries = self.funds.entries@;
                assert(entries.take(j + 1).drop_last() =~= entries.take(j as int));
            }
            j += 1;
        }
        assert(self.funds.entries@.take(j as int) =~= self.funds.entries@);
        Ledger {
            authorities: self.authorities,
            records,
            funds,
            lamports_per_byte: self.lamports_per_byte,
        }
    }
}

} // verus!
