use lending_indexer::chain::{AssetId, OutPoint, Transaction, TxIn, TxOut, Txid};
use lending_indexer::models::{
    outpoint_of_stored, OfferModel, OfferRepaymentModel, OfferStatus, OfferUtxoModel, UtxoType,
    VaultType, VaultWatchEntry,
};
use lending_indexer::offers::{
    explicit_output_amount, ActiveOfferSpendKind, LendingOfferRepaymentScan, OfferPlan,
    OfferSpendAction, OfferStep, OffersError, OffersTracker, OffersWatchEntry,
    PartialRepaymentAmounts, SpendScan, SupplyGoals, VaultProgress, VaultsProgress,
};
use std::collections::HashMap;

const HEIGHT: u64 = 1_000;
const OFFER: i64 = 42;
const TXID: Txid = Txid { bytes: [0xaa; 32] };

fn out(n: u8) -> OutPoint {
    OutPoint { txid: Txid { bytes: [n; 32] }, vout: 0 }
}

fn own(vout: u32) -> OutPoint {
    OutPoint { txid: TXID, vout }
}

fn output(value: Option<u64>, script: &[u8]) -> TxOut {
    TxOut { asset: Some(AssetId { bytes: [5; 32] }), value, script_pubkey: script.to_vec() }
}

fn tx(inputs: &[OutPoint], outputs: Vec<TxOut>) -> Transaction {
    Transaction {
        txid: TXID,
        input: inputs.iter().map(|o| TxIn { previous_output: *o }).collect(),
        output: outputs,
    }
}

fn record(outpoint: OutPoint, offer_id: i64, utxo_type: UtxoType) -> OfferUtxoModel {
    OfferUtxoModel {
        offer_id,
        txid: outpoint.txid,
        vout: outpoint.vout as i32,
        utxo_type,
        created_at_height: 1,
        spent_at_height: None,
        spent_txid: None,
    }
}

fn created(vout: i32, utxo_type: UtxoType) -> OfferUtxoModel {
    OfferUtxoModel {
        offer_id: OFFER,
        txid: TXID,
        vout,
        utxo_type,
        created_at_height: 1_000,
        spent_at_height: None,
        spent_txid: None,
    }
}

fn closed(utxo_type: UtxoType) -> OfferUtxoModel {
    OfferUtxoModel {
        spent_at_height: Some(1_000),
        spent_txid: Some(TXID),
        ..created(0, utxo_type)
    }
}

fn entry(utxo_type: UtxoType) -> OffersWatchEntry {
    OffersWatchEntry { offer_id: OFFER, utxo_type }
}

fn spend(outpoint: OutPoint) -> Vec<OfferStep> {
    vec![
        OfferStep::SpendUtxo { outpoint, block_height: HEIGHT, txid: TXID },
        OfferStep::Unwatch { outpoint },
    ]
}

fn status(status: OfferStatus) -> OfferStep {
    OfferStep::UpdateStatus { offer_id: OFFER, status, block_height: HEIGHT }
}

fn debt(debt: i64, collateral: i64) -> OfferStep {
    OfferStep::UpdateDebtAndCollateral { offer_id: OFFER, debt, collateral, block_height: HEIGHT }
}

fn scan() -> LendingOfferRepaymentScan {
    LendingOfferRepaymentScan {
        continuing_offer_vout: Some(0),
        lender_vault_vout: 1,
        protocol_fee_vault_vout: Some(2),
        amount_to_repay: 300,
        debt_before: 1_000,
        debt_after: 700,
    }
}

fn amounts() -> PartialRepaymentAmounts {
    PartialRepaymentAmounts {
        amount_repaid: 300,
        collateral_unlocked: 150,
        debt_before: 1_000,
        debt_after: 700,
        collateral_before: 500,
        collateral_after: 350,
    }
}

fn progress() -> VaultsProgress {
    VaultsProgress {
        lender: VaultProgress { already_supplied: 290, is_finalized: false },
        protocol_fee: VaultProgress { already_supplied: 10, is_finalized: true },
    }
}

fn repayment_tx() -> Transaction {
    tx(
        &[out(1)],
        vec![
            output(Some(350), &[0x51]),
            output(Some(290), &[0x52]),
            output(Some(10), &[0x53]),
            output(None, &[0x54]),
        ],
    )
}

fn vault(vault_type: VaultType, vout: u32, amount: u64, p: VaultProgress) -> OfferStep {
    OfferStep::CreateVault {
        outpoint: own(vout),
        vault: VaultWatchEntry {
            offer_id: OFFER,
            vault_type,
            amount,
            already_supplied: p.already_supplied,
            is_finalized: p.is_finalized,
        },
        block_height: HEIGHT,
    }
}

fn supply(vault_type: VaultType, debt_after: u64) -> OfferStep {
    OfferStep::SupplyVault { offer_id: OFFER, vault_type, debt_after, block_height: HEIGHT }
}

fn partial_record() -> OfferStep {
    OfferStep::InsertRepayment {
        repayment: OfferRepaymentModel {
            id: 0,
            offer_id: OFFER,
            txid: TXID,
            height: 1_000,
            amount_repaid: 300,
            collateral_unlocked: 150,
            debt_before: 1_000,
            debt_after: 700,
            collateral_before: 500,
            collateral_after: 350,
            is_full: false,
        },
    }
}

fn watch(vout: u32, utxo_type: UtxoType) -> Vec<OfferStep> {
    vec![
        OfferStep::InsertUtxo { utxo: created(vout as i32, utxo_type) },
        OfferStep::Watch { outpoint: own(vout), entry: entry(utxo_type) },
    ]
}

fn active(kind: ActiveOfferSpendKind, before: Option<u8>, tx: &Transaction) -> OfferPlan {
    let offer = OfferModel { collateral_remaining: 500 };
    OffersTracker::on_active_offer_spend(tx, &out(1), OFFER, &offer, &kind, &before, HEIGHT)
}

fn partial(
    scan: LendingOfferRepaymentScan,
    amounts: Option<PartialRepaymentAmounts>,
    vaults_after: Option<VaultsProgress>,
) -> ActiveOfferSpendKind {
    ActiveOfferSpendKind::PartialRepayment { scan, amounts, vaults_after }
}

/// What the tracker would watch after a restart from the records.
fn restarted(records: &[OfferUtxoModel], steps: &[OfferStep]) -> OffersTracker {
    let mut records = records.to_vec();
    for step in steps {
        match step {
            OfferStep::SpendUtxo { outpoint, block_height, txid } => {
                for r in records.iter_mut() {
                    if outpoint_of_stored(r.txid, r.vout) == *outpoint {
                        r.spent_at_height = Some(*block_height as i64);
                        r.spent_txid = Some(*txid);
                    }
                }
            }
            OfferStep::InsertUtxo { utxo } => records.push(*utxo),
            _ => {}
        }
    }
    OffersTracker::load(&records)
}

fn assert_survives_restart(records: &[OfferUtxoModel], steps: &[OfferStep]) {
    let mut running = OffersTracker::load(&records.to_vec());
    for step in steps {
        running.apply(step);
    }
    let restarted = restarted(records, steps);
    for outpoint in [out(1), out(2), own(0), own(1), own(2), own(3)] {
        assert_eq!(running.watched(&outpoint), restarted.watched(&outpoint));
    }
}

#[test]
fn load_watches_unspent_records() {
    let mut spent = record(out(2), 8, UtxoType::ActiveOffer);
    spent.spent_txid = Some(TXID);
    let mut far = record(out(3), 9, UtxoType::ActiveOffer);
    far.vout = -1;
    let tracker = OffersTracker::load(&vec![
        record(out(1), 7, UtxoType::PendingOffer),
        spent,
        far,
    ]);
    assert_eq!(
        tracker.watched(&out(1)),
        Some(OffersWatchEntry { offer_id: 7, utxo_type: UtxoType::PendingOffer })
    );
    assert_eq!(tracker.watched(&out(2)), None);
    assert_eq!(tracker.watched(&OutPoint { txid: out(3).txid, vout: u32::MAX }).unwrap().offer_id, 9);
}

#[test]
fn stored_output_index_round_trips() {
    for vout in [0u32, 1, 0x7fff_ffff, 0x8000_0000, u32::MAX] {
        let model = OffersTracker::new_offer_utxo_model(1, TXID, vout, UtxoType::ActiveOffer, 5);
        assert_eq!(outpoint_of_stored(model.txid, model.vout), own(vout));
    }
}

#[test]
fn seeding_records_and_watches_the_pending_offer() {
    let plan = OffersTracker::seed_creation_pending_offer_utxo(OFFER, TXID, 3, HEIGHT);
    assert_eq!(plan.steps, watch(3, UtxoType::PendingOffer));
    assert_eq!(plan.error, None);
    assert_survives_restart(&[record(out(1), 7, UtxoType::ActiveOffer)], &plan.steps);
}

#[test]
fn cancellation_needs_two_null_data_outputs_and_four_in_all() {
    let burn = || output(Some(1), &[0x6a]);
    let pay = || output(Some(1), &[0x51]);
    let cancels = |outputs| OffersTracker::is_offer_cancellation_tx(&tx(&[], outputs));
    assert!(cancels(vec![burn(), burn(), pay(), pay()]));
    assert!(cancels(vec![burn(), burn(), pay(), burn()]));
    assert!(!cancels(vec![burn(), burn(), pay()]));
    assert!(!cancels(vec![burn(), burn(), burn(), pay()]));
    assert!(!cancels(vec![pay(), burn(), pay(), pay()]));
    assert!(!cancels(vec![burn(), pay(), pay(), pay()]));
}

#[test]
fn cancelled_offer_is_archived() {
    let burn = output(Some(1), &[0x6a]);
    let pay = output(Some(1), &[0x51]);
    let tx = tx(&[out(1)], vec![burn.clone(), burn, pay.clone(), pay]);
    let action = OffersTracker::on_spend(&tx, &out(1), OFFER, UtxoType::PendingOffer, HEIGHT);
    let mut steps = spend(out(1));
    steps.push(status(OfferStatus::Cancelled));
    steps.push(debt(0, 0));
    steps.push(OfferStep::InsertUtxo { utxo: closed(UtxoType::Cancellation) });
    assert_survives_restart(&[record(out(1), OFFER, UtxoType::PendingOffer)], &steps);
    assert_eq!(action, OfferSpendAction::Run { plan: OfferPlan { steps, error: None } });
}

#[test]
fn accepted_offer_is_watched_at_its_first_two_outputs() {
    let tx = tx(&[out(1)], vec![output(Some(1), &[0x51])]);
    let action = OffersTracker::on_spend(&tx, &out(1), OFFER, UtxoType::PendingOffer, HEIGHT);
    let mut steps = spend(out(1));
    steps.push(status(OfferStatus::Active));
    steps.extend(watch(0, UtxoType::ActiveOffer));
    steps.extend(watch(1, UtxoType::BorrowerPrincipal));
    assert_survives_restart(&[record(out(1), OFFER, UtxoType::PendingOffer)], &steps);

    let mut tracker = OffersTracker::load(&vec![record(out(1), OFFER, UtxoType::PendingOffer)]);
    for step in &steps {
        tracker.apply(step);
    }
    assert_eq!(tracker.watched(&out(1)), None);
    assert_eq!(tracker.watched(&own(0)), Some(entry(UtxoType::ActiveOffer)));
    assert_eq!(tracker.watched(&own(1)), Some(entry(UtxoType::BorrowerPrincipal)));
    assert_eq!(action, OfferSpendAction::Run { plan: OfferPlan { steps, error: None } });
}

#[test]
fn other_outputs_are_spent_classified_or_left() {
    let tx = tx(&[out(1)], vec![]);
    let on = |utxo_type| OffersTracker::on_spend(&tx, &out(1), OFFER, utxo_type, HEIGHT);
    assert_eq!(
        on(UtxoType::BorrowerPrincipal),
        OfferSpendAction::Run { plan: OfferPlan { steps: spend(out(1)), error: None } }
    );
    assert_eq!(
        on(UtxoType::ActiveOffer),
        OfferSpendAction::Classify { outpoint: out(1), offer_id: OFFER }
    );
    for utxo_type in [UtxoType::Cancellation, UtxoType::Liquidation] {
        assert_eq!(on(utxo_type), OfferSpendAction::Unexpected { utxo_type });
    }
}

#[test]
fn inputs_are_gone_through_in_order() {
    let mut tracker = OffersTracker::load(&vec![
        record(out(1), 7, UtxoType::BorrowerPrincipal),
        record(out(3), 8, UtxoType::ActiveOffer),
    ]);
    let tx = tx(&[out(0), out(1), out(2), out(3)], vec![]);
    let mut scan = SpendScan::new();
    match tracker.process_tx_spends(&tx, HEIGHT, &mut scan) {
        OfferSpendAction::Run { plan } => {
            assert_eq!(plan.steps, spend(out(1)));
            for step in &plan.steps {
                tracker.apply(step);
            }
        }
        other => panic!("{:?}", other),
    }
    assert_eq!(scan, SpendScan { next_input: 2, offer_spent: true });
    assert_eq!(
        tracker.process_tx_spends(&tx, HEIGHT, &mut scan),
        OfferSpendAction::Classify { outpoint: out(3), offer_id: 8 }
    );
    assert_eq!(
        tracker.process_tx_spends(&tx, HEIGHT, &mut scan),
        OfferSpendAction::Finished { offer_spent: true }
    );
    assert_eq!(tracker.watched(&out(1)), None);
}

#[test]
fn a_transaction_with_no_watched_input_spends_no_offer() {
    let tracker = OffersTracker::load(&vec![record(out(1), 7, UtxoType::PendingOffer)]);
    let mut scan = SpendScan::new();
    assert_eq!(
        tracker.process_tx_spends(&tx(&[out(2)], vec![]), HEIGHT, &mut scan),
        OfferSpendAction::Finished { offer_spent: false }
    );
    assert_eq!(scan, SpendScan::new());
}

#[test]
fn first_partial_repayment_opens_the_vaults() {
    let plan = active(partial(scan(), Some(amounts()), Some(progress())), None, &repayment_tx());
    let mut steps = spend(out(1));
    steps.push(debt(700, 350));
    steps.push(partial_record());
    steps.push(vault(VaultType::Lender, 1, 290, progress().lender));
    steps.push(vault(VaultType::ProtocolFee, 2, 10, progress().protocol_fee));
    steps.extend(watch(0, UtxoType::ActiveOffer));
    assert_eq!(plan, OfferPlan { steps, error: None });
    assert_survives_restart(&[record(out(1), OFFER, UtxoType::ActiveOffer)], &plan.steps);
}

#[test]
fn later_partial_repayment_moves_the_vaults_on() {
    let kind = partial(scan(), Some(amounts()), Some(progress()));
    let plan = active(kind, Some(1), &repayment_tx());
    let mut steps = spend(out(1));
    steps.push(debt(700, 350));
    steps.push(partial_record());
    steps.push(supply(VaultType::Lender, 700));
    steps.push(supply(VaultType::ProtocolFee, 700));
    steps.extend(watch(0, UtxoType::ActiveOffer));
    assert_eq!(plan, OfferPlan { steps, error: None });
}

#[test]
fn protocol_vault_is_left_out_where_there_is_none() {
    let scan = LendingOfferRepaymentScan { protocol_fee_vault_vout: None, ..scan() };
    let kind = partial(scan, Some(amounts()), Some(progress()));
    let first = active(kind, None, &repayment_tx());
    assert_eq!(first.steps.len(), 7);
    assert_eq!(first.steps[4], vault(VaultType::Lender, 1, 290, progress().lender));
    let later = active(kind, Some(1), &repayment_tx());
    assert_eq!(later.steps.len(), 7);
    assert_eq!(later.steps[4], supply(VaultType::Lender, 700));
}

#[test]
fn partial_repayment_without_continuing_output_fails_at_once() {
    let scan = LendingOfferRepaymentScan { continuing_offer_vout: None, ..scan() };
    let plan = active(partial(scan, None, None), None, &repayment_tx());
    assert_eq!(
        plan,
        OfferPlan { steps: vec![], error: Some(OffersError::MissingContinuingVout) }
    );
}

#[test]
fn partial_repayment_without_amounts_fails_at_once() {
    let plan = active(partial(scan(), None, Some(progress())), None, &repayment_tx());
    assert_eq!(plan, OfferPlan { steps: vec![], error: Some(OffersError::RepaymentAmounts) });
}

#[test]
fn missing_parameters_stop_a_repayment_after_its_record() {
    let plan = active(partial(scan(), Some(amounts()), None), Some(1), &repayment_tx());
    assert_eq!(plan.error, Some(OffersError::LendingParameters));
    assert_eq!(plan.steps.len(), 4);
    assert_eq!(plan.steps[3], partial_record());
    assert_survives_restart(&[record(out(1), OFFER, UtxoType::ActiveOffer)], &plan.steps);

    let kind = ActiveOfferSpendKind::FullRepayment { scan: scan(), supply_goals: None };
    let plan = active(kind, None, &repayment_tx());
    assert_eq!(plan.error, Some(OffersError::LendingParameters));
    assert_eq!(plan.steps.len(), 3);
}

#[test]
fn vault_outputs_must_be_explicit() {
    let hidden = LendingOfferRepaymentScan { lender_vault_vout: 3, ..scan() };
    let plan = active(partial(hidden, Some(amounts()), Some(progress())), None, &repayment_tx());
    assert_eq!(plan.error, Some(OffersError::LenderVaultOutput { is_full: false }));
    assert_eq!(plan.steps.len(), 4);

    let absent = LendingOfferRepaymentScan { protocol_fee_vault_vout: Some(9), ..scan() };
    let plan = active(partial(absent, Some(amounts()), Some(progress())), None, &repayment_tx());
    assert_eq!(plan.error, Some(OffersError::ProtocolFeeVaultOutput { is_full: false }));
    assert_eq!(plan.steps.len(), 5);

    let goals = Some(SupplyGoals { lender: 1, protocol_fee: 2 });
    let kind = ActiveOfferSpendKind::FullRepayment { scan: hidden, supply_goals: goals };
    let plan = active(kind, None, &repayment_tx());
    assert_eq!(plan.error, Some(OffersError::LenderVaultOutput { is_full: true }));
    let kind = ActiveOfferSpendKind::FullRepayment { scan: absent, supply_goals: goals };
    let plan = active(kind, None, &repayment_tx());
    assert_eq!(plan.error, Some(OffersError::ProtocolFeeVaultOutput { is_full: true }));
}

#[test]
fn full_repayment_ends_the_offer() {
    let scan = LendingOfferRepaymentScan {
        continuing_offer_vout: None,
        amount_to_repay: 1_000,
        debt_after: 0,
        ..scan()
    };
    let goals = SupplyGoals { lender: 990, protocol_fee: 10 };
    let kind = ActiveOfferSpendKind::FullRepayment { scan, supply_goals: Some(goals) };
    let record_step = OfferStep::InsertRepayment {
        repayment: OfferRepaymentModel {
            id: 0,
            offer_id: OFFER,
            txid: TXID,
            height: 1_000,
            amount_repaid: 1_000,
            collateral_unlocked: 500,
            debt_before: 1_000,
            debt_after: 0,
            collateral_before: 500,
            collateral_after: 0,
            is_full: true,
        },
    };
    let filled = |already_supplied| VaultProgress { already_supplied, is_finalized: true };

    let mut steps = spend(out(1));
    steps.push(record_step);
    steps.push(vault(VaultType::Lender, 1, 290, filled(990)));
    steps.push(vault(VaultType::ProtocolFee, 2, 10, filled(10)));
    steps.push(debt(0, 0));
    steps.push(status(OfferStatus::Repaid));
    assert_eq!(active(kind, None, &repayment_tx()), OfferPlan { steps, error: None });

    let mut steps = spend(out(1));
    steps.push(record_step);
    steps.push(supply(VaultType::Lender, 0));
    steps.push(supply(VaultType::ProtocolFee, 0));
    steps.push(debt(0, 0));
    steps.push(status(OfferStatus::Repaid));
    assert_survives_restart(&[record(out(1), OFFER, UtxoType::ActiveOffer)], &steps);
    assert_eq!(active(kind, Some(0), &repayment_tx()), OfferPlan { steps, error: None });
}

#[test]
fn liquidated_offer_is_archived() {
    let plan = active(ActiveOfferSpendKind::Liquidation, None, &repayment_tx());
    let mut steps = spend(out(1));
    steps.push(debt(0, 0));
    steps.push(status(OfferStatus::Liquidated));
    steps.push(OfferStep::InsertUtxo { utxo: closed(UtxoType::Liquidation) });
    assert_eq!(plan, OfferPlan { steps, error: None });
    assert_survives_restart(&[record(out(1), OFFER, UtxoType::ActiveOffer)], &plan.steps);
}

#[test]
fn amounts_keep_the_width_of_the_database() {
    let big = PartialRepaymentAmounts { debt_after: u64::MAX, ..amounts() };
    let plan = active(partial(scan(), Some(big), Some(progress())), Some(1), &repayment_tx());
    assert_eq!(plan.steps[2], debt(-1, 350));
    assert_eq!(OfferModel { collateral_remaining: 500 }.collateral_amount(), 500);
    assert_eq!(OfferModel { collateral_remaining: -1 }.collateral_amount(), u64::MAX);
}

#[test]
fn vaults_are_taken_down_once_for_each_active_offer() {
    let tracker = OffersTracker::load(&vec![
        record(out(1), 7, UtxoType::ActiveOffer),
        record(out(2), 7, UtxoType::ActiveOffer),
        record(out(3), 8, UtxoType::ActiveOffer),
        record(out(4), 9, UtxoType::PendingOffer),
    ]);
    let tx = tx(&[out(1), out(2), out(3), out(4), out(5)], vec![]);
    let snapshots = tracker.vault_snapshots_for_tx(&tx, |id: i64| -> Option<i64> {
        if id == 7 {
            Some(70)
        } else {
            None
        }
    });
    assert_eq!(snapshots, HashMap::from([(7, Some(70)), (8, None)]));
    assert_eq!(OffersTracker::vault_amounts_before(&snapshots, 7), Some(70));
    assert_eq!(OffersTracker::vault_amounts_before(&snapshots, 8), None);
    assert_eq!(OffersTracker::vault_amounts_before(&snapshots, 9), None);
}

#[test]
fn blocks_of_the_offers_tracker_are_undone_or_kept() {
    let mut tracker = OffersTracker::load(&vec![record(out(1), OFFER, UtxoType::PendingOffer)]);
    tracker.begin_block();
    tracker.apply(&OfferStep::Unwatch { outpoint: out(1) });
    assert_eq!(tracker.watched(&out(1)), None);
    tracker.abort_block();
    assert_eq!(tracker.watched(&out(1)), Some(entry(UtxoType::PendingOffer)));
    tracker.begin_block();
    tracker.apply(&OfferStep::Unwatch { outpoint: out(1) });
    tracker.commit_block();
    tracker.abort_block();
    assert_eq!(tracker.watched(&out(1)), None);
}

#[test]
fn explicit_amounts_are_read_by_index() {
    let tx = repayment_tx();
    assert_eq!(explicit_output_amount(&tx, 1), Some(290));
    assert_eq!(explicit_output_amount(&tx, 3), None);
    assert_eq!(explicit_output_amount(&tx, 4), None);
}

#[test]
fn errors_have_messages() {
    assert_eq!(
        OffersError::MissingContinuingVout.message(),
        "partial repayment scan missing continuing_offer_vout"
    );
    assert_eq!(
        OffersError::LenderVaultOutput { is_full: false }.message(),
        "lender vault output not found in tx"
    );
    assert_eq!(
        OffersError::ProtocolFeeVaultOutput { is_full: true }.message(),
        "protocol fee vault output not found in full repayment tx"
    );
}

/// The outputs among some that carry the offer.
fn carriers(tracker: &OffersTracker, outpoints: &[OutPoint]) -> Vec<OutPoint> {
    let carries = |e: OffersWatchEntry| {
        e.utxo_type == UtxoType::PendingOffer || e.utxo_type == UtxoType::ActiveOffer
    };
    outpoints.iter().copied().filter(|o| tracker.watched(o).is_some_and(carries)).collect()
}

#[test]
fn an_offer_is_carried_by_one_output_through_its_life() {
    let places = [out(1), own(0), own(1), own(3)];
    let mut tracker = OffersTracker::load(&vec![]);
    assert_eq!(carriers(&tracker, &places), vec![]);

    for step in &OffersTracker::seed_creation_pending_offer_utxo(OFFER, out(1).txid, 0, 1).steps {
        tracker.apply(step);
    }
    assert_eq!(carriers(&tracker, &places), vec![out(1)]);

    for step in &OffersTracker::handle_offer_acceptance(&out(1), OFFER, TXID, HEIGHT).steps {
        tracker.apply(step);
    }
    assert_eq!(carriers(&tracker, &places), vec![own(0)]);
    assert_eq!(tracker.watched(&own(1)), Some(entry(UtxoType::BorrowerPrincipal)));

    let offer = OfferModel { collateral_remaining: 500 };
    let repaying = Transaction { txid: out(1).txid, ..repayment_tx() };
    let kind = partial(scan(), Some(amounts()), Some(progress()));
    let plan = OffersTracker::on_active_offer_spend(
        &repaying, &own(0), OFFER, &offer, &kind, &None::<u8>, HEIGHT,
    );
    for step in &plan.steps {
        tracker.apply(step);
    }
    assert_eq!(carriers(&tracker, &places), vec![out(1)]);

    for step in &OffersTracker::handle_loan_liquidation(&out(1), OFFER, TXID, HEIGHT).steps {
        tracker.apply(step);
    }
    assert_eq!(carriers(&tracker, &places), vec![]);
    assert_eq!(tracker.watched(&own(1)), Some(entry(UtxoType::BorrowerPrincipal)));
}

#[test]
fn a_plan_leaves_other_entries_alone() {
    let mut tracker = OffersTracker::load(&vec![
        record(out(1), OFFER, UtxoType::PendingOffer),
        record(out(2), 8, UtxoType::ActiveOffer),
    ]);
    for step in &OffersTracker::handle_offer_acceptance(&out(1), OFFER, TXID, HEIGHT).steps {
        tracker.apply(step);
    }
    assert_eq!(
        tracker.watched(&out(2)),
        Some(OffersWatchEntry { offer_id: 8, utxo_type: UtxoType::ActiveOffer })
    );
}

#[test]
fn errors_of_stored_terms_have_messages() {
    assert_eq!(
        OffersError::RepaymentAmounts.message(),
        "partial repayment amounts not available"
    );
    assert_eq!(
        OffersError::LendingParameters.message(),
        "lending offer parameters not available"
    );
    assert_eq!(
        OffersError::LenderVaultOutput { is_full: true }.message(),
        "lender vault output not found in full repayment tx"
    );
    assert_eq!(
        OffersError::ProtocolFeeVaultOutput { is_full: false }.message(),
        "protocol fee vault output not found in tx"
    );
}

#[test]
fn stored_terms_are_asked_at_the_right_amounts() {
    let offer = OfferModel { collateral_remaining: 500 };
    let ask = |scan: LendingOfferRepaymentScan, known: bool, given: bool| {
        ActiveOfferSpendKind::partial_repayment(
            scan,
            &offer,
            |shown: LendingOfferRepaymentScan, collateral: u64| {
                assert_eq!(shown, scan);
                assert_eq!(collateral, 500);
                if given {
                    Some(amounts())
                } else {
                    None
                }
            },
            if known {
                Some(|debt: u64| {
                    assert_eq!(debt, 700);
                    progress()
                })
            } else {
                None
            },
        )
    };
    assert_eq!(ask(scan(), true, true), partial(scan(), Some(amounts()), Some(progress())));
    assert_eq!(ask(scan(), false, true), partial(scan(), Some(amounts()), None));
    assert_eq!(ask(scan(), true, false), partial(scan(), None, None));
    let ending = LendingOfferRepaymentScan { continuing_offer_vout: None, ..scan() };
    assert_eq!(ask(ending, true, true), partial(ending, None, None));
}

#[test]
fn a_transaction_leaves_none_of_its_spent_outputs_watched() {
    let mut tracker = OffersTracker::load(&vec![
        record(out(1), OFFER, UtxoType::PendingOffer),
        record(out(2), 8, UtxoType::BorrowerPrincipal),
        record(out(3), 9, UtxoType::PendingOffer),
    ]);
    let tx = tx(&[out(1), out(2), out(4)], vec![]);
    let mut scan = SpendScan::new();
    while let OfferSpendAction::Run { plan } = tracker.process_tx_spends(&tx, HEIGHT, &mut scan) {
        for step in &plan.steps {
            tracker.apply(step);
        }
    }
    assert!(scan.offer_spent);
    for spent in [out(1), out(2), out(4)] {
        assert_eq!(tracker.watched(&spent), None);
    }
    assert_eq!(tracker.watched(&out(3)).unwrap().offer_id, 9);
    assert_eq!(tracker.watched(&own(0)), Some(entry(UtxoType::ActiveOffer)));
}
