use crate::address::Address;
use crate::calls::{
    Allocation, EditionCreation, IndexCreation, Issuance, LedgerCallModel, MetadataCreationModel,
    MetadataUpdate, MintInitialization,
};
use crate::model::LedgerModel;
use vstd::prelude::*;

verus! {

/// Where no ownership-index record changed and no supply fell, the units of
/// each ledger record stay accounted for.
proof fn lemma_units_stay_accounted(ledger: LedgerModel, after: LedgerModel)
    requires
        ledger.well_formed(),
        forall|a: Address| #[trigger] after.index_at(a) == ledger.index_at(a),
        forall|m: Address|
            ledger.mint_at(m) is Some ==> #[trigger] after.supply_of(m) >= ledger.supply_of(m),
    ensures
        after.units_accounted(),
{
    assert forall|a: Address, b: Address|
        #![trigger after.index_at(a), after.index_at(b)]
        a != b && after.index_at(a) is Some && after.index_at(b) is Some && after.index_at(
            a,
        )->0.mint == after.index_at(b)->0.mint implies after.index_at(a)->0.balance
        + after.index_at(b)->0.balance <= after.supply_of(after.index_at(a)->0.mint) by {
        assert(ledger.index_at(a) == after.index_at(a));
        assert(ledger.index_at(b) == after.index_at(b));
        assert(ledger.records.contains_key(a));
        assert(ledger.placed(a, ledger.records[a]));
    }
}

/// Funds do not bear on the invariant of the records.
pub proof fn lemma_funds_keep_well_formed(ledger: LedgerModel, after: LedgerModel)
    requires
        ledger.well_formed(),
        after.records == ledger.records,
        after.authorities == ledger.authorities,
    ensures
        after.well_formed(),
{
    assert forall|a: Address| #[trigger] after.records.contains_key(a) implies after.records[a].well_formed()
        && after.placed(a, after.records[a]) by {
        assert(ledger.records.contains_key(a));
        assert(ledger.placed(a, ledger.records[a]));
    }
    lemma_units_stay_accounted(ledger, after);
}

/// Allocating storage keeps the invariant.
pub proof fn lemma_allocate_keeps_well_formed(ledger: LedgerModel, call: Allocation)
    requires
        ledger.well_formed(),
        ledger.allocate(call) is Ok,
    ensures
        ledger.allocate(call)->Ok_0.well_formed(),
{
    let after = ledger.allocate(call)->Ok_0;
    assert forall|a: Address| #[trigger] after.records.contains_key(a) implies after.records[a].well_formed()
        && after.placed(a, after.records[a]) by {
        if a != call.new_address {
            assert(ledger.records.contains_key(a));
            assert(ledger.placed(a, ledger.records[a]));
        }
    }
    lemma_units_stay_accounted(ledger, after);
}

/// Initialising a ledger record keeps the invariant.
pub proof fn lemma_initialize_keeps_well_formed(ledger: LedgerModel, call: MintInitialization)
    requires
        ledger.well_formed(),
        ledger.initialize(call) is Ok,
    ensures
        ledger.initialize(call)->Ok_0.well_formed(),
{
    let after = ledger.initialize(call)->Ok_0;
    assert forall|a: Address| #[trigger] after.records.contains_key(a) implies after.records[a].well_formed()
        && after.placed(a, after.records[a]) by {
        if a != call.mint {
            assert(ledger.records.contains_key(a));
            assert(ledger.placed(a, ledger.records[a]));
            match ledger.records[a] {
                crate::records::RecordModel::Edition(edition) => {
                    assert(ledger.records.contains_key(edition.metadata));
                    assert(ledger.placed(edition.metadata, ledger.records[edition.metadata]));
                },
                _ => {},
            }
        }
    }
    lemma_units_stay_accounted(ledger, after);
}

/// Creating an ownership-index record keeps the invariant.
pub proof fn lemma_create_index_keeps_well_formed(ledger: LedgerModel, call: IndexCreation)
    requires
        ledger.well_formed(),
        ledger.create_index(call) is Ok,
    ensures
        ledger.create_index(call)->Ok_0.well_formed(),
{
    let after = ledger.create_index(call)->Ok_0;
    if after != ledger {
        assert forall|a: Address| #[trigger] after.records.contains_key(a) implies after.records[a].well_formed()
            && after.placed(a, after.records[a]) by {
            if a != call.index {
                assert(ledger.records.contains_key(a));
                assert(ledger.placed(a, ledger.records[a]));
            }
        }
        assert forall|a: Address, b: Address|
            #![trigger after.index_at(a), after.index_at(b)]
            a != b && after.index_at(a) is Some && after.index_at(b) is Some && after.index_at(
                a,
            )->0.mint == after.index_at(b)->0.mint implies after.index_at(a)->0.balance
            + after.index_at(b)->0.balance <= after.supply_of(after.index_at(a)->0.mint) by {
            if a != call.index {
                assert(ledger.index_at(a) == after.index_at(a));
                assert(ledger.records.contains_key(a));
                assert(ledger.placed(a, ledger.records[a]));
            }
            if b != call.index {
                assert(ledger.index_at(b) == after.index_at(b));
                assert(ledger.records.contains_key(b));
                assert(ledger.placed(b, ledger.records[b]));
            }
        }
    }
}

/// Creating a metadata record keeps the invariant.
pub proof fn lemma_create_metadata_keeps_well_formed(
    ledger: LedgerModel,
    call: MetadataCreationModel,
)
    requires
        ledger.well_formed(),
        ledger.create_metadata(call) is Ok,
    ensures
        ledger.create_metadata(call)->Ok_0.well_formed(),
{
    let after = ledger.create_metadata(call)->Ok_0;
    assert forall|a: Address| #[trigger] after.records.contains_key(a) implies after.records[a].well_formed()
        && after.placed(a, after.records[a]) by {
        if a != call.metadata {
            assert(ledger.records.contains_key(a));
            assert(ledger.placed(a, ledger.records[a]));
        }
    }
    lemma_units_stay_accounted(ledger, after);
}

/// Issuing units keeps the invariant.
pub proof fn lemma_issue_keeps_well_formed(ledger: LedgerModel, call: Issuance)
    requires
        ledger.well_formed(),
        ledger.issue(call) is Ok,
    ensures
        ledger.issue(call)->Ok_0.well_formed(),
{
    let after = ledger.issue(call)->Ok_0;
    assert(ledger.records.contains_key(call.mint));
    assert(ledger.records.contains_key(call.destination));
    assert(ledger.placed(call.destination, ledger.records[call.destination]));
    assert forall|a: Address| #[trigger] after.records.contains_key(a) implies after.records[a].well_formed()
        && after.placed(a, after.records[a]) by {
        if a != call.mint && a != call.destination {
            assert(ledger.records.contains_key(a));
            assert(ledger.placed(a, ledger.records[a]));
            match ledger.records[a] {
                crate::records::RecordModel::Edition(edition) => {
                    assert(ledger.records.contains_key(edition.metadata));
                },
                _ => {},
            }
        }
    }
    assert forall|a: Address, b: Address|
        #![trigger after.index_at(a), after.index_at(b)]
        a != b && after.index_at(a) is Some && after.index_at(b) is Some && after.index_at(
            a,
        )->0.mint == after.index_at(b)->0.mint implies after.index_at(a)->0.balance
        + after.index_at(b)->0.balance <= after.supply_of(after.index_at(a)->0.mint) by {
        assert(ledger.index_at(a) is Some);
        assert(ledger.index_at(b) is Some);
        assert(ledger.index_at(a)->0.mint == ledger.index_at(b)->0.mint);
        assert(ledger.records.contains_key(a));
        assert(ledger.placed(a, ledger.records[a]));
    }
}

/// Creating an edition record keeps the invariant.
pub proof fn lemma_create_edition_keeps_well_formed(ledger: LedgerModel, call: EditionCreation)
    requires
        ledger.well_formed(),
        ledger.create_edition(call) is Ok,
    ensures
        ledger.create_edition(call)->Ok_0.well_formed(),
{
    let after = ledger.create_edition(call)->Ok_0;
    assert forall|a: Address| #[trigger] after.records.contains_key(a) implies after.records[a].well_formed()
        && after.placed(a, after.records[a]) by {
        if a != call.edition {
            assert(ledger.records.contains_key(a));
            assert(ledger.placed(a, ledger.records[a]));
        }
    }
    lemma_units_stay_accounted(ledger, after);
}

/// Updating the mutability flag keeps the invariant.
pub proof fn lemma_update_metadata_keeps_well_formed(ledger: LedgerModel, call: MetadataUpdate)
    requires
        ledger.well_formed(),
        ledger.update_metadata(call) is Ok,
    ensures
        ledger.update_metadata(call)->Ok_0.well_formed(),
{
    let after = ledger.update_metadata(call)->Ok_0;
    assert(ledger.records.contains_key(call.metadata));
    assert(ledger.placed(call.metadata, ledger.records[call.metadata]));
    assert forall|a: Address| #[trigger] after.records.contains_key(a) implies after.records[a].well_formed()
        && after.placed(a, after.records[a]) by {
        if a != call.metadata {
            assert(ledger.records.contains_key(a));
            assert(ledger.placed(a, ledger.records[a]));
        }
    }
    lemma_units_stay_accounted(ledger, after);
}

/// Every request keeps the invariant of the ledger: every record within the
/// limits of its kind and at its derived address, no supply above the cap, and
/// the units of each ledger record accounted for.
pub proof fn lemma_apply_keeps_well_formed(ledger: LedgerModel, call: LedgerCallModel)
    requires
        ledger.well_formed(),
        ledger.apply(call) is Ok,
    ensures
        ledger.apply(call)->Ok_0.well_formed(),
{
    match call {
        LedgerCallModel::Allocate(c) => lemma_allocate_keeps_well_formed(ledger, c),
        LedgerCallModel::Initialize(c) => lemma_initialize_keeps_well_formed(ledger, c),
        LedgerCallModel::CreateIndex(c) => lemma_create_index_keeps_well_formed(ledger, c),
        LedgerCallModel::CreateMetadata(c) => lemma_create_metadata_keeps_well_formed(ledger, c),
        LedgerCallModel::Issue(c) => lemma_issue_keeps_well_formed(ledger, c),
        LedgerCallModel::CreateEdition(c) => lemma_create_edition_keeps_well_formed(ledger, c),
        LedgerCallModel::UpdateMetadata(c) => lemma_update_metadata_keeps_well_formed(ledger, c),
    }
}

/// A batch of requests keeps the invariant of the ledger.
pub proof fn lemma_apply_all_keeps_well_formed(ledger: LedgerModel, calls: Seq<LedgerCallModel>)
    requires
        ledger.well_formed(),
        ledger.apply_all(calls) is Ok,
    ensures
        ledger.apply_all(calls)->Ok_0.well_formed(),
    decreases calls.len(),
{
    if calls.len() > 0 {
        lemma_apply_keeps_well_formed(ledger, calls[0]);
        lemma_apply_all_keeps_well_formed(ledger.apply(calls[0])->Ok_0, calls.drop_first());
    }
}

} // verus!
