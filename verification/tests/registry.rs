use lending_indexer::chain::{AssetId, OutPoint, Transaction, Txid};
use lending_indexer::factory_creation::{
    FactoryCreationAction, FactoryCreationEvent, FactoryCreationsTracker, FactoryStep,
    IssuanceFactoryCreation, IssuanceFactoryParameters,
};
use lending_indexer::factory_outputs::{FactoryOutputsTracker, FactoryWatchEntry};
use lending_indexer::offer_participants::OfferParticipantsTracker;
use lending_indexer::offers::{OfferStep, OffersTracker, OffersWatchEntry};
use lending_indexer::models::UtxoType;
use lending_indexer::registry::{PhaseOutcome, TrackerRegistry, TxPhase};

const TXID: Txid = Txid { bytes: [0xcc; 32] };
const ASSET: AssetId = AssetId { bytes: [3; 32] };

fn creation(count: u8, flags: u64) -> IssuanceFactoryCreation {
    IssuanceFactoryCreation {
        parameters: IssuanceFactoryParameters { issuing_utxos_count: count, reissuance_flags: flags },
        factory_asset_id: ASSET,
        auth_vout: 1,
        program_vout: 0,
        auth_script_pubkey: vec![0x00, 0x6a, 0xff],
    }
}

fn tx() -> Transaction {
    Transaction { txid: TXID, input: vec![], output: vec![] }
}

fn registry() -> TrackerRegistry {
    TrackerRegistry::load(
        FactoryOutputsTracker::new(),
        FactoryOutputsTracker::new(),
        OffersTracker::load(&vec![]),
        OfferParticipantsTracker::load(&vec![]),
        true,
    )
}

fn phases(issuance_factory_id: Option<i64>, offer_spent: bool) -> Vec<TxPhase> {
    let mut phases = vec![TxPhase::FactorySpends];
    let mut phase = TxPhase::FactorySpends;
    while phase != TxPhase::Finished {
        // An outcome is read only in its own phase.
        let outcome = match phase {
            TxPhase::FactorySpends => PhaseOutcome { issuance_factory_id, offer_spent: true },
            TxPhase::OfferSpends { .. } => PhaseOutcome { issuance_factory_id: Some(-1), offer_spent },
            _ => PhaseOutcome { issuance_factory_id: Some(-2), offer_spent: !offer_spent },
        };
        phase = TrackerRegistry::process_tx(phase, outcome);
        phases.push(phase);
    }
    phases
}

#[test]
fn offer_creation_needs_an_issuance_and_no_offer_spend() {
    let with_creation = phases(Some(5), false);
    assert_eq!(with_creation.len(), 7);
    assert_eq!(with_creation[1], TxPhase::FactoryAuthSpends { issuance_factory_id: Some(5) });
    assert_eq!(with_creation[2], TxPhase::OfferSpends { issuance_factory_id: Some(5) });
    assert_eq!(
        with_creation[3],
        TxPhase::ParticipantSpends { issuance_factory_id: Some(5), offer_spent: false }
    );
    assert_eq!(
        with_creation[4],
        TxPhase::FactoryCreation { issuance_factory_id: Some(5), offer_spent: false }
    );
    assert_eq!(with_creation[5], TxPhase::OfferCreation { factory_id: 5 });
    assert_eq!(phases(Some(5), true).len(), 6);
    assert_eq!(phases(None, false).len(), 6);
    assert_eq!(phases(None, true).len(), 6);
}

type Event = FactoryCreationEvent<&'static str, u8>;
type Action = FactoryCreationAction<&'static str, u8>;

const DONE: Action = FactoryCreationAction::Finished { outcome: Ok(()) };

fn next(registers: bool, event: Event) -> Action {
    FactoryCreationsTracker::new(2, 0, registers).process_creation_tx(&tx(), event, 9)
}

/// What is done about a transaction, given what comes of each action.
fn actions(
    registers: bool,
    found: Option<IssuanceFactoryCreation>,
    stored: Result<Option<i64>, u8>,
    indexed: Result<(), u8>,
    contract: Option<&'static str>,
) -> Vec<Action> {
    let mut done = vec![];
    let mut event = FactoryCreationEvent::Scanned { found };
    loop {
        let action = next(registers, event);
        event = match &action {
            FactoryCreationAction::InsertFactory { .. } => {
                FactoryCreationEvent::Inserted { created: creation(2, 0), stored }
            }
            FactoryCreationAction::Index { asset_id, .. } => {
                FactoryCreationEvent::Indexed { asset_id: *asset_id, result: indexed }
            }
            FactoryCreationAction::VerifyContract { asset_id } => {
                FactoryCreationEvent::Verified { asset_id: *asset_id, contract }
            }
            FactoryCreationAction::RegisterAsset { .. } => FactoryCreationEvent::Registered,
            FactoryCreationAction::Finished { .. } => {
                done.push(action);
                return done;
            }
        };
        done.push(action);
    }
}

#[test]
fn only_followed_factories_are_stored() {
    let tracker = registry().factory_creations;
    assert_eq!(
        tracker,
        FactoryCreationsTracker {
            issuing_utxos_count: 2,
            reissuance_flags: 0,
            asset_registration: true,
        }
    );
    let scanned = |found| next(true, FactoryCreationEvent::Scanned { found });
    assert_eq!(
        scanned(Some(creation(2, 0))),
        FactoryCreationAction::InsertFactory {
            created: creation(2, 0),
            txid: TXID,
            block_height: 9,
        }
    );
    assert_eq!(scanned(Some(creation(3, 0))), DONE);
    assert_eq!(scanned(Some(creation(2, 1))), DONE);
    assert_eq!(scanned(None), DONE);
    assert!(tracker.verify_factory_parameters(&creation(2, 0).parameters));
    assert!(tracker.is_factory_creation_tx(Some(creation(1, 0))).is_none());
}

#[test]
fn stored_factory_is_seeded_and_announced() {
    let steps = vec![
        FactoryStep::SeedAuthUtxo {
            factory_id: 11,
            txid: TXID,
            vout: 1,
            script_pubkey: vec![0x00, 0x6a, 0xff],
            block_height: 9,
        },
        FactoryStep::SeedProgramUtxo { factory_id: 11, txid: TXID, vout: 0, block_height: 9 },
        FactoryStep::NotifyCreated {
            id: 11,
            height: 9,
            factory_auth_script_pubkey: "006aff".to_string(),
        },
    ];
    let event = FactoryCreationEvent::Inserted { created: creation(2, 0), stored: Ok(Some(11)) };
    assert_eq!(next(false, event), FactoryCreationAction::Index { asset_id: ASSET, steps });
}

#[test]
fn known_factory_is_not_announced_again() {
    let event = FactoryCreationEvent::Inserted { created: creation(2, 0), stored: Ok(None) };
    assert_eq!(
        next(true, event),
        FactoryCreationAction::Index { asset_id: ASSET, steps: vec![] }
    );
}

#[test]
fn asset_is_registered_with_its_verified_contract() {
    for stored in [Ok(Some(11)), Ok(None)] {
        let done = actions(true, Some(creation(2, 0)), stored, Ok(()), Some("terms"));
        assert_eq!(done.len(), 5);
        assert_eq!(done[2], FactoryCreationAction::VerifyContract { asset_id: ASSET });
        assert_eq!(
            done[3],
            FactoryCreationAction::RegisterAsset { asset_id: ASSET, contract: "terms" }
        );
        assert_eq!(done[4], DONE);
    }
}

#[test]
fn asset_without_a_verified_contract_is_not_registered() {
    let done = actions(true, Some(creation(2, 0)), Ok(Some(11)), Ok(()), None);
    assert_eq!(done.len(), 4);
    assert_eq!(done[3], DONE);
}

#[test]
fn no_asset_is_registered_where_registration_is_off() {
    let done = actions(false, Some(creation(2, 0)), Ok(Some(11)), Ok(()), Some("terms"));
    assert_eq!(done.len(), 3);
    assert_eq!(done[2], DONE);
}

#[test]
fn failed_indexing_is_reported_and_nothing_is_registered() {
    let failed = |error| FactoryCreationAction::Finished { outcome: Err(error) };
    let done = actions(true, Some(creation(2, 0)), Err(7), Ok(()), Some("terms"));
    assert_eq!(done.len(), 2);
    assert_eq!(done[1], failed(7));
    let done = actions(true, Some(creation(2, 0)), Ok(Some(11)), Err(8), Some("terms"));
    assert_eq!(done.len(), 3);
    assert_eq!(done[2], failed(8));
}

#[test]
fn aborted_block_leaves_no_trace_in_any_tracker() {
    let at = OutPoint { txid: TXID, vout: 0 };
    let mut registry = registry();
    registry.begin_block();
    registry.factories.watch(at, FactoryWatchEntry { factory_id: 1 });
    registry.factory_auths.watch(at, FactoryWatchEntry { factory_id: 2 });
    let entry = OffersWatchEntry { offer_id: 3, utxo_type: UtxoType::PendingOffer };
    registry.offers.apply(&OfferStep::Watch { outpoint: at, entry });
    registry.abort_block();
    assert_eq!(registry.factories.watched(&at), None);
    assert_eq!(registry.factory_auths.watched(&at), None);
    assert_eq!(registry.offers.watched(&at), None);

    registry.begin_block();
    registry.factories.watch(at, FactoryWatchEntry { factory_id: 1 });
    registry.offers.apply(&OfferStep::Watch { outpoint: at, entry });
    registry.commit_block();
    assert_eq!(registry.factories.watched(&at), Some(FactoryWatchEntry { factory_id: 1 }));
    assert_eq!(registry.offers.watched(&at), Some(entry));
    registry.begin_block();
    registry.factories.unwatch(&at);
    registry.abort_block();
    assert_eq!(registry.factories.watched(&at), Some(FactoryWatchEntry { factory_id: 1 }));
}
