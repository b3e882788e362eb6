use lending_indexer::chain::{AssetId, OutPoint, Transaction, TxIn, TxOut, Txid};
use lending_indexer::models::{outpoint_of_stored, OfferParticipantModel, ParticipantType};
use lending_indexer::offer_participants::{
    OfferParticipantsTracker, ParticipantCreationUtxo, ParticipantSpendAction, ParticipantStep,
    ParticipantWatchEntry,
};

const TXID: Txid = Txid { bytes: [0xbb; 32] };
const TOKEN: [u8; 32] = [6; 32];

fn out(n: u8) -> OutPoint {
    OutPoint { txid: Txid { bytes: [n; 32] }, vout: 2 }
}

fn output(asset: Option<[u8; 32]>, script: &[u8]) -> TxOut {
    TxOut {
        asset: asset.map(|bytes| AssetId { bytes }),
        value: Some(1),
        script_pubkey: script.to_vec(),
    }
}

fn tx(outputs: Vec<TxOut>) -> Transaction {
    Transaction {
        txid: TXID,
        input: vec![TxIn { previous_output: out(1) }, TxIn { previous_output: out(2) }],
        output: outputs,
    }
}

fn participant(txid: Txid, vout: i32, script: &[u8]) -> OfferParticipantModel {
    OfferParticipantModel {
        offer_id: 7,
        participant_type: ParticipantType::Lender,
        script_pubkey: script.to_vec(),
        txid,
        vout,
        created_at_height: 50,
        spent_txid: None,
        spent_at_height: None,
    }
}

fn entry() -> ParticipantWatchEntry {
    ParticipantWatchEntry { offer_id: 7, participant_type: ParticipantType::Lender }
}

fn spend() -> Vec<ParticipantStep> {
    vec![
        ParticipantStep::SpendUtxo { outpoint: out(1), block_height: 50, txid: TXID },
        ParticipantStep::Unwatch { outpoint: out(1) },
    ]
}

fn on_spend(tx: &Transaction) -> Vec<ParticipantStep> {
    OfferParticipantsTracker::on_spend(tx, &out(1), 7, ParticipantType::Lender, &TOKEN, 50)
}

fn tracker() -> OfferParticipantsTracker {
    OfferParticipantsTracker::load(&vec![participant(out(1).txid, 2, &[0x51])])
}

#[test]
fn moved_token_is_watched_at_its_first_output() {
    let tx = tx(vec![
        output(None, &[0x50]),
        output(Some([5; 32]), &[0x51]),
        output(Some(TOKEN), &[0x52, 0x53]),
        output(Some(TOKEN), &[0x54]),
    ]);
    let mut steps = spend();
    steps.push(ParticipantStep::InsertUtxo { participant: participant(TXID, 2, &[0x52, 0x53]) });
    steps.push(ParticipantStep::Watch {
        outpoint: OutPoint { txid: TXID, vout: 2 },
        entry: entry(),
    });
    assert_eq!(on_spend(&tx), steps);

    let mut tracker = tracker();
    for step in &steps {
        tracker.apply(step);
    }
    assert_eq!(tracker.watched(&out(1)), None);
    assert_eq!(tracker.watched(&OutPoint { txid: TXID, vout: 2 }), Some(entry()));
}

#[test]
fn token_sent_to_an_op_return_is_burned() {
    let tx = tx(vec![output(Some(TOKEN), &[0x6a]), output(Some(TOKEN), &[0x51])]);
    assert_eq!(on_spend(&tx), spend());
}

#[test]
fn token_that_is_not_among_the_outputs_is_burned() {
    assert_eq!(on_spend(&tx(vec![output(Some([5; 32]), &[0x51]), output(None, &[])])), spend());
    let short =
        OfferParticipantsTracker::on_spend(
            &tx(vec![output(Some(TOKEN), &[0x51])]),
            &out(1),
            7,
            ParticipantType::Lender,
            &TOKEN[..31],
            50,
        );
    assert_eq!(short, spend());
}

#[test]
fn participant_inputs_are_gone_through_in_order() {
    let mut tracker = tracker();
    let tx = tx(vec![]);
    let mut next = 0;
    assert_eq!(
        tracker.process_tx_spends(&tx, &mut next),
        ParticipantSpendAction::LookUpAsset {
            outpoint: out(1),
            offer_id: 7,
            participant_type: ParticipantType::Lender,
        }
    );
    assert_eq!(next, 1);
    for step in &on_spend(&tx) {
        tracker.apply(step);
    }
    assert_eq!(tracker.process_tx_spends(&tx, &mut next), ParticipantSpendAction::Finished);
    assert_eq!(next, 1);
}

#[test]
fn seeding_records_and_watches_the_token() {
    let utxo = ParticipantCreationUtxo { txid: TXID, vout: 1, script_pubkey: vec![0x51] };
    let steps = OfferParticipantsTracker::seed_creation_participant_utxo(
        7,
        ParticipantType::Lender,
        utxo,
        50,
    );
    assert_eq!(
        steps,
        vec![
            ParticipantStep::InsertUtxo { participant: participant(TXID, 1, &[0x51]) },
            ParticipantStep::Watch { outpoint: OutPoint { txid: TXID, vout: 1 }, entry: entry() },
        ]
    );
}

#[test]
fn participants_are_loaded_from_unspent_records() {
    let mut spent = participant(out(3).txid, 2, &[]);
    spent.spent_txid = Some(TXID);
    let tracker =
        OfferParticipantsTracker::load(&vec![participant(out(1).txid, 2, &[0x51]), spent]);
    assert_eq!(tracker.watched(&out(1)), Some(entry()));
    assert_eq!(tracker.watched(&out(3)), None);
}

#[test]
fn participant_restart_watches_what_was_watched() {
    let tx = tx(vec![output(Some(TOKEN), &[0x51])]);
    let steps = on_spend(&tx);
    let mut running = tracker();
    let mut records = vec![participant(out(1).txid, 2, &[0x51])];
    for step in steps {
        running.apply(&step);
        match step {
            ParticipantStep::SpendUtxo { outpoint, txid, .. } => {
                for r in records.iter_mut() {
                    if outpoint_of_stored(r.txid, r.vout) == outpoint {
                        r.spent_txid = Some(txid);
                    }
                }
            }
            ParticipantStep::InsertUtxo { participant } => records.push(participant),
            _ => {}
        }
    }
    let restarted = OfferParticipantsTracker::load(&records);
    for outpoint in [out(1), out(2), OutPoint { txid: TXID, vout: 0 }] {
        assert_eq!(running.watched(&outpoint), restarted.watched(&outpoint));
    }
}

#[test]
fn blocks_of_the_participants_tracker_are_undone_or_kept() {
    let mut tracker = tracker();
    tracker.begin_block();
    tracker.apply(&ParticipantStep::Unwatch { outpoint: out(1) });
    tracker.abort_block();
    assert_eq!(tracker.watched(&out(1)), Some(entry()));
    tracker.begin_block();
    tracker.apply(&ParticipantStep::Unwatch { outpoint: out(1) });
    tracker.commit_block();
    assert_eq!(tracker.watched(&out(1)), None);
}

#[test]
fn a_token_is_watched_at_one_output_as_it_moves() {
    let mut tracker = tracker();
    let places = [out(1), OutPoint { txid: TXID, vout: 0 }, OutPoint { txid: TXID, vout: 1 }];
    let held = |tracker: &OfferParticipantsTracker| {
        places.iter().filter(|o| tracker.watched(o) == Some(entry())).count()
    };
    assert_eq!(held(&tracker), 1);
    let moved = tx(vec![output(Some(TOKEN), &[0x51]), output(Some(TOKEN), &[0x52])]);
    for step in &on_spend(&moved) {
        tracker.apply(step);
    }
    assert_eq!(held(&tracker), 1);
    assert_eq!(tracker.watched(&places[1]), Some(entry()));

    let burned = tx(vec![output(Some(TOKEN), &[0x6a])]);
    let steps = OfferParticipantsTracker::on_spend(
        &burned,
        &places[1],
        7,
        ParticipantType::Lender,
        &TOKEN,
        51,
    );
    for step in &steps {
        tracker.apply(step);
    }
    assert_eq!(held(&tracker), 0);
}
