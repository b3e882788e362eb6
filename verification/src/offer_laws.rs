//! What holds of every plan of the offers tracker.

use crate::cache::{changed_only_by, CacheChange, CacheView};
use crate::chain::{OutPoint, TransactionView, Txid};
use crate::models::{
    law_stored_outpoint_round_trip, stored_outpoint, OfferModel, OfferStatus, OfferUtxoModel,
    UtxoType, VaultType,
};
use crate::offers::{
    acceptance_plan, active_spend_plan, cancellation_plan, cancels_offer, closing_utxo,
    entries_after_step, full_repayment_record, new_utxo, spend_action, spend_steps, watch_steps,
    watched_records, ActiveOfferSpendKind, LendingOfferRepaymentScan, OfferSpendActionView,
    OfferStep, OffersWatchEntry,
};
use vstd::prelude::*;

verus! {

/// The outputs watched after a list of steps.
pub open spec fn entries_after(
    entries: Map<OutPoint, OffersWatchEntry>,
    steps: Seq<OfferStep>,
) -> Map<OutPoint, OffersWatchEntry>
    decreases steps.len(),
{
    if steps.len() == 0 {
        entries
    } else {
        entries_after_step(entries_after(entries, steps.drop_last()), steps.last())
    }
}

/// A cache after a list of steps.
pub open spec fn cache_after(
    cache: CacheView<OffersWatchEntry>,
    steps: Seq<OfferStep>,
) -> CacheView<OffersWatchEntry> {
    CacheView { entries: entries_after(cache.entries, steps), ..cache }
}

/// A record after an output was recorded as spent.
pub open spec fn record_after_spend(
    record: OfferUtxoModel,
    outpoint: OutPoint,
    txid: Txid,
    block_height: u64,
) -> OfferUtxoModel {
    if stored_outpoint(record.txid, record.vout) == outpoint {
        OfferUtxoModel {
            spent_at_height: Some(block_height as i64),
            spent_txid: Some(txid),
            ..record
        }
    } else {
        record
    }
}

/// The records of outputs after a step.
pub open spec fn records_after_step(
    records: Seq<OfferUtxoModel>,
    step: OfferStep,
) -> Seq<OfferUtxoModel> {
    match step {
        OfferStep::SpendUtxo { outpoint, block_height, txid } => Seq::new(
            records.len(),
            |i: int| record_after_spend(records[i], outpoint, txid, block_height),
        ),
        OfferStep::InsertUtxo { utxo } => records.push(utxo),
        _ => records,
    }
}

/// The records of outputs after a list of steps.
pub open spec fn records_after(
    records: Seq<OfferUtxoModel>,
    steps: Seq<OfferStep>,
) -> Seq<OfferUtxoModel>
    decreases steps.len(),
{
    if steps.len() == 0 {
        records
    } else {
        records_after_step(records_after(records, steps.drop_last()), steps.last())
    }
}

/// Whether steps keep the watch cache and the records together: started with the
/// outputs that the records say to watch, the cache watches afterwards what the
/// changed records say to watch.
pub open spec fn keeps_cache_and_records_together(steps: Seq<OfferStep>) -> bool {
    forall|records: Seq<OfferUtxoModel>|
        watched_records(#[trigger] records_after(records, steps)) == entries_after(
            watched_records(records),
            steps,
        )
}

/// What is watched after two lists of steps is what is watched after the one, and then
/// the other.
pub proof fn law_steps_are_carried_out_in_turn(
    entries: Map<OutPoint, OffersWatchEntry>,
    a: Seq<OfferStep>,
    b: Seq<OfferStep>,
)
    ensures
        entries_after(entries, a + b) == entries_after(entries_after(entries, a), b),
    decreases b.len(),
{
    if b.len() == 0 {
        assert(a + b =~= a);
    } else {
        assert((a + b).drop_last() =~= a + b.drop_last());
        law_steps_are_carried_out_in_turn(entries, a, b.drop_last());
    }
}

proof fn lemma_records_after_concat(
    records: Seq<OfferUtxoModel>,
    a: Seq<OfferStep>,
    b: Seq<OfferStep>,
)
    ensures
        records_after(records, a + b) == records_after(records_after(records, a), b),
    decreases b.len(),
{
    if b.len() == 0 {
        assert(a + b =~= a);
    } else {
        assert((a + b).drop_last() =~= a + b.drop_last());
        lemma_records_after_concat(records, a, b.drop_last());
    }
}

/// Steps that keep the watch cache and the records together do so one after the other.
pub proof fn law_steps_keep_together_one_after_the_other(a: Seq<OfferStep>, b: Seq<OfferStep>)
    requires
        keeps_cache_and_records_together(a),
        keeps_cache_and_records_together(b),
    ensures
        keeps_cache_and_records_together(a + b),
{
    assert forall|records: Seq<OfferUtxoModel>|
        watched_records(#[trigger] records_after(records, a + b)) == entries_after(
            watched_records(records),
            a + b,
        ) by {
        lemma_records_after_concat(records, a, b);
        law_steps_are_carried_out_in_turn(watched_records(records), a, b);
        let middle = records_after(records, a);
        assert(watched_records(records_after(middle, b)) == entries_after(
            watched_records(middle),
            b,
        ));
    }
}

/// Steps that touch neither the cache nor the records of outputs.
spec fn is_neutral(step: OfferStep) -> bool {
    match step {
        OfferStep::SpendUtxo { .. } | OfferStep::Unwatch { .. } | OfferStep::InsertUtxo { .. }
        | OfferStep::Watch { .. } => false,
        _ => true,
    }
}

/// Steps that touch neither the cache nor the records of outputs keep the two together.
proof fn lemma_together_neutral(steps: Seq<OfferStep>)
    requires
        forall|i: int| 0 <= i < steps.len() ==> is_neutral(#[trigger] steps[i]),
    ensures
        keeps_cache_and_records_together(steps),
    decreases steps.len(),
{
    if steps.len() > 0 {
        let earlier = steps.drop_last();
        lemma_together_neutral(earlier);
        assert(is_neutral(steps[steps.len() - 1]));
        assert forall|records: Seq<OfferUtxoModel>|
            watched_records(#[trigger] records_after(records, steps)) == entries_after(
                watched_records(records),
                steps,
            ) by {
            assert(watched_records(records_after(records, earlier)) == entries_after(
                watched_records(records),
                earlier,
            ));
        }
    }
}

proof fn lemma_watched_after_spend(
    records: Seq<OfferUtxoModel>,
    outpoint: OutPoint,
    txid: Txid,
    block_height: u64,
)
    ensures
        watched_records(
            records_after_step(records, OfferStep::SpendUtxo { outpoint, block_height, txid }),
        ) == watched_records(records).remove(outpoint),
    decreases records.len(),
{
    let step = OfferStep::SpendUtxo { outpoint, block_height, txid };
    let after = records_after_step(records, step);
    if records.len() == 0 {
        assert(watched_records(after) =~= watched_records(records).remove(outpoint));
    } else {
        lemma_watched_after_spend(records.drop_last(), outpoint, txid, block_height);
        assert(after.drop_last() =~= records_after_step(records.drop_last(), step));
        assert(after.last() == record_after_spend(records.last(), outpoint, txid, block_height));
        assert(watched_records(after) =~= watched_records(records).remove(outpoint));
    }
}

proof fn lemma_together_spend(outpoint: OutPoint, txid: Txid, block_height: u64)
    ensures
        keeps_cache_and_records_together(spend_steps(outpoint, txid, block_height)),
{
    let steps = spend_steps(outpoint, txid, block_height);
    reveal_with_fuel(records_after, 3);
    reveal_with_fuel(entries_after, 3);
    assert forall|records: Seq<OfferUtxoModel>|
        watched_records(#[trigger] records_after(records, steps)) == entries_after(
            watched_records(records),
            steps,
        ) by {
        lemma_watched_after_spend(records, outpoint, txid, block_height);
        assert(steps.drop_last().drop_last() =~= seq![]);
        assert(steps.drop_last().last() == steps[0]);
    }
}

proof fn lemma_together_watch(
    offer_id: i64,
    txid: Txid,
    vout: u32,
    utxo_type: UtxoType,
    block_height: u64,
)
    ensures
        keeps_cache_and_records_together(
            watch_steps(offer_id, txid, vout, utxo_type, block_height),
        ),
{
    let steps = watch_steps(offer_id, txid, vout, utxo_type, block_height);
    let utxo = new_utxo(offer_id, txid, vout, utxo_type, block_height);
    reveal_with_fuel(records_after, 3);
    reveal_with_fuel(entries_after, 3);
    law_stored_outpoint_round_trip(OutPoint { txid, vout });
    assert forall|records: Seq<OfferUtxoModel>|
        watched_records(#[trigger] records_after(records, steps)) == entries_after(
            watched_records(records),
            steps,
        ) by {
        assert(steps.drop_last().drop_last() =~= seq![]);
        assert(steps.drop_last().last() == steps[0]);
        assert(records.push(utxo).drop_last() =~= records);
    }
}

proof fn lemma_together_closing(
    offer_id: i64,
    txid: Txid,
    utxo_type: UtxoType,
    block_height: u64,
)
    ensures
        keeps_cache_and_records_together(
            seq![
                OfferStep::InsertUtxo {
                    utxo: closing_utxo(offer_id, txid, utxo_type, block_height),
                },
            ],
        ),
{
    let utxo = closing_utxo(offer_id, txid, utxo_type, block_height);
    let steps = seq![OfferStep::InsertUtxo { utxo }];
    reveal_with_fuel(records_after, 2);
    reveal_with_fuel(entries_after, 2);
    assert forall|records: Seq<OfferUtxoModel>|
        watched_records(#[trigger] records_after(records, steps)) == entries_after(
            watched_records(records),
            steps,
        ) by {
        assert(steps.drop_last() =~= seq![]);
        assert(records.push(utxo).drop_last() =~= records);
    }
}

/// The creation of an offer keeps the watch cache and the records together.
pub proof fn law_seeding_keeps_cache_and_records_together(
    offer_id: i64,
    txid: Txid,
    vout: u32,
    block_height: u64,
)
    ensures
        keeps_cache_and_records_together(
            watch_steps(offer_id, txid, vout, UtxoType::PendingOffer, block_height),
        ),
{
    lemma_together_watch(offer_id, txid, vout, UtxoType::PendingOffer, block_height);
}

/// Spending a pending offer or the principal keeps the watch cache and the records
/// together: a restart from the records watches what was watched before it.
pub proof fn law_spending_keeps_cache_and_records_together(
    old_outpoint: OutPoint,
    entry: OffersWatchEntry,
    tx: TransactionView,
    block_height: u64,
)
    ensures
        spend_action(old_outpoint, entry, tx, block_height) matches OfferSpendActionView::Run {
            plan,
        } ==> keeps_cache_and_records_together(plan.steps),
{
    let txid = tx.txid;
    let id = entry.offer_id;
    let spend = spend_steps(old_outpoint, txid, block_height);
    lemma_together_spend(old_outpoint, txid, block_height);
    lemma_together_neutral(seq![]);
    // Cancellation.
    let updates = seq![
        OfferStep::UpdateStatus { offer_id: id, status: OfferStatus::Cancelled, block_height },
        OfferStep::UpdateDebtAndCollateral { offer_id: id, debt: 0, collateral: 0, block_height },
    ];
    let closing = seq![
        OfferStep::InsertUtxo {
            utxo: closing_utxo(id, txid, UtxoType::Cancellation, block_height),
        },
    ];
    lemma_together_neutral(updates);
    lemma_together_closing(id, txid, UtxoType::Cancellation, block_height);
    law_steps_keep_together_one_after_the_other(updates, closing);
    law_steps_keep_together_one_after_the_other(spend, updates + closing);
    assert(cancellation_plan(old_outpoint, id, txid, block_height).steps =~= spend + (updates
        + closing));
    // Acceptance.
    let status = seq![
        OfferStep::UpdateStatus { offer_id: id, status: OfferStatus::Active, block_height },
    ];
    let active = watch_steps(id, txid, 0, UtxoType::ActiveOffer, block_height);
    let principal = watch_steps(id, txid, 1, UtxoType::BorrowerPrincipal, block_height);
    lemma_together_neutral(status);
    lemma_together_watch(id, txid, 0, UtxoType::ActiveOffer, block_height);
    lemma_together_watch(id, txid, 1, UtxoType::BorrowerPrincipal, block_height);
    law_steps_keep_together_one_after_the_other(spend, status);
    law_steps_keep_together_one_after_the_other(spend + status, active);
    law_steps_keep_together_one_after_the_other(spend + status + active, principal);
}

/// Spending an active offer keeps the watch cache and the records together, also
/// where its plan ends in an error.
pub proof fn law_active_spending_keeps_cache_and_records_together(
    old_outpoint: OutPoint,
    offer_id: i64,
    tx: TransactionView,
    offer: OfferModel,
    kind: ActiveOfferSpendKind,
    is_first_repayment: bool,
    block_height: u64,
)
    ensures
        keeps_cache_and_records_together(
            active_spend_plan(
                old_outpoint,
                offer_id,
                tx,
                offer,
                kind,
                is_first_repayment,
                block_height,
            ).steps,
        ),
{
    let plan = active_spend_plan(
        old_outpoint,
        offer_id,
        tx,
        offer,
        kind,
        is_first_repayment,
        block_height,
    );
    let spend = spend_steps(old_outpoint, tx.txid, block_height);
    lemma_together_spend(old_outpoint, tx.txid, block_height);
    match kind {
        ActiveOfferSpendKind::FullRepayment { scan, supply_goals } => {
            let rest = plan.steps.skip(2);
            assert(plan.steps =~= spend + rest);
            assert forall|i: int| 0 <= i < rest.len() implies is_neutral(#[trigger] rest[i]) by {
                assert(rest[i] == plan.steps[i + 2]);
            }
            lemma_together_neutral(rest);
            law_steps_keep_together_one_after_the_other(spend, rest);
        },
        ActiveOfferSpendKind::PartialRepayment { scan, amounts, vaults_after } => {
            if scan.continuing_offer_vout is None || amounts is None {
                lemma_together_neutral(seq![]);
            } else {
                let continuing = watch_steps(
                    offer_id,
                    tx.txid,
                    scan.continuing_offer_vout->0,
                    UtxoType::ActiveOffer,
                    block_height,
                );
                lemma_together_watch(
                    offer_id,
                    tx.txid,
                    scan.continuing_offer_vout->0,
                    UtxoType::ActiveOffer,
                    block_height,
                );
                let end = if plan.error is Some {
                    plan.steps.len() as int
                } else {
                    plan.steps.len() - 2
                };
                let middle = plan.steps.subrange(2, end);
                assert forall|i: int| 0 <= i < middle.len() implies is_neutral(
                    #[trigger] middle[i],
                ) by {
                    assert(middle[i] == plan.steps[i + 2]);
                }
                lemma_together_neutral(middle);
                law_steps_keep_together_one_after_the_other(spend, middle);
                if plan.error is Some {
                    assert(plan.steps =~= spend + middle);
                } else {
                    assert(plan.steps =~= spend + middle + continuing);
                    law_steps_keep_together_one_after_the_other(spend + middle, continuing);
                }
            }
        },
        ActiveOfferSpendKind::Liquidation => {
            let updates = plan.steps.subrange(2, 4);
            let closing = seq![
                OfferStep::InsertUtxo {
                    utxo: closing_utxo(offer_id, tx.txid, UtxoType::Liquidation, block_height),
                },
            ];
            assert(plan.steps =~= spend + (updates + closing));
            lemma_together_neutral(updates);
            lemma_together_closing(offer_id, tx.txid, UtxoType::Liquidation, block_height);
            law_steps_keep_together_one_after_the_other(updates, closing);
            law_steps_keep_together_one_after_the_other(spend, updates + closing);
        },
    }
}

/// Whether steps leave the cache alone but for the output that a transaction spent
/// and the transaction's own outputs.
pub open spec fn confined(steps: Seq<OfferStep>, spent: OutPoint, txid: Txid) -> bool {
    forall|i: int|
        0 <= i < steps.len() ==> match #[trigger] steps[i] {
            OfferStep::Watch { outpoint, .. } => outpoint.txid == txid,
            OfferStep::Unwatch { outpoint } => outpoint == spent,
            _ => true,
        }
}

/// A plan for a spent output touches no output in the cache but that one, which it at
/// most unwatches, and those of the spending transaction, which it at most watches.
pub proof fn law_spend_plans_are_confined(
    old_outpoint: OutPoint,
    entry: OffersWatchEntry,
    tx: TransactionView,
    block_height: u64,
)
    ensures
        spend_action(old_outpoint, entry, tx, block_height) matches OfferSpendActionView::Run {
            plan,
        } ==> confined(plan.steps, old_outpoint, tx.txid),
{
}

/// The same of a plan for a spent active offer.
pub proof fn law_active_spend_plans_are_confined(
    old_outpoint: OutPoint,
    offer_id: i64,
    tx: TransactionView,
    offer: OfferModel,
    kind: ActiveOfferSpendKind,
    is_first_repayment: bool,
    block_height: u64,
)
    ensures
        confined(
            active_spend_plan(
                old_outpoint,
                offer_id,
                tx,
                offer,
                kind,
                is_first_repayment,
                block_height,
            ).steps,
            old_outpoint,
            tx.txid,
        ),
{
}

/// Confined steps change the cache at most in the spent output and in the spending
/// transaction's own outputs.
pub proof fn law_confined_steps_change_only_their_own_outputs(
    entries: Map<OutPoint, OffersWatchEntry>,
    steps: Seq<OfferStep>,
    spent: OutPoint,
    txid: Txid,
)
    requires
        confined(steps, spent, txid),
    ensures
        changed_only_by(entries, entries_after(entries, steps), spent, txid),
    decreases steps.len(),
{
    if steps.len() > 0 {
        lemma_confined_drop_last(steps, spent, txid);
        law_confined_steps_change_only_their_own_outputs(
            entries,
            steps.drop_last(),
            spent,
            txid,
        );
        assert(steps.last() == steps[steps.len() - 1]);
        let middle = entries_after(entries, steps.drop_last());
        assert forall|other: OutPoint|
            #![trigger entries_after(entries, steps).contains_key(other)]
            #![trigger entries.contains_key(other)]
            other != spent && other.txid != txid implies {
            &&& entries_after(entries, steps).contains_key(other) <==> entries.contains_key(other)
            &&& entries.contains_key(other) ==> entries_after(entries, steps)[other]
                == entries[other]
        } by {
            assert(middle.contains_key(other) <==> entries.contains_key(other));
        }
    }
}

proof fn lemma_confined_drop_last(steps: Seq<OfferStep>, spent: OutPoint, txid: Txid)
    requires
        confined(steps, spent, txid),
        steps.len() > 0,
    ensures
        confined(steps.drop_last(), spent, txid),
{
    let earlier = steps.drop_last();
    assert forall|i: int| 0 <= i < earlier.len() implies match #[trigger] earlier[i] {
        OfferStep::Watch { outpoint, .. } => outpoint.txid == txid,
        OfferStep::Unwatch { outpoint } => outpoint == spent,
        _ => true,
    } by {
        assert(earlier[i] == steps[i]);
    }
}

/// Once steps that start with the spending of an output have been carried out, the
/// output is not watched: the rest of a confined plan does not bring it back.
proof fn lemma_spent_stays_unwatched(
    entries: Map<OutPoint, OffersWatchEntry>,
    steps: Seq<OfferStep>,
    spent: OutPoint,
    txid: Txid,
    block_height: u64,
)
    requires
        confined(steps, spent, txid),
        spent.txid != txid,
        steps.len() >= 2,
        steps.take(2) == spend_steps(spent, txid, block_height),
    ensures
        !entries_after(entries, steps).contains_key(spent),
    decreases steps.len(),
{
    if steps.len() == 2 {
        assert(steps =~= steps.take(2));
        assert(steps.last() == spend_steps(spent, txid, block_height)[1]);
    } else {
        assert(steps.drop_last().take(2) =~= steps.take(2));
        lemma_confined_drop_last(steps, spent, txid);
        lemma_spent_stays_unwatched(entries, steps.drop_last(), spent, txid, block_height);
        assert(steps.last() == steps[steps.len() - 1]);
    }
}

/// Once a plan for a spent output is carried out, the output is watched no longer.
pub proof fn law_spent_output_is_unwatched(
    entries: Map<OutPoint, OffersWatchEntry>,
    old_outpoint: OutPoint,
    entry: OffersWatchEntry,
    tx: TransactionView,
    block_height: u64,
)
    requires
        old_outpoint.txid != tx.txid,
    ensures
        spend_action(old_outpoint, entry, tx, block_height) matches OfferSpendActionView::Run {
            plan,
        } ==> !entries_after(entries, plan.steps).contains_key(old_outpoint),
{
    law_spend_plans_are_confined(old_outpoint, entry, tx, block_height);
    if let OfferSpendActionView::Run { plan } = spend_action(
        old_outpoint,
        entry,
        tx,
        block_height,
    ) {
        assert(plan.steps.take(2) =~= spend_steps(old_outpoint, tx.txid, block_height));
        lemma_spent_stays_unwatched(entries, plan.steps, old_outpoint, tx.txid, block_height);
    }
}

/// The same of a spent active offer, but for a plan that fails at the outset and has no
/// steps.
pub proof fn law_spent_active_offer_is_unwatched(
    entries: Map<OutPoint, OffersWatchEntry>,
    old_outpoint: OutPoint,
    offer_id: i64,
    tx: TransactionView,
    offer: OfferModel,
    kind: ActiveOfferSpendKind,
    is_first_repayment: bool,
    block_height: u64,
)
    requires
        old_outpoint.txid != tx.txid,
    ensures
        ({
            let steps = active_spend_plan(
                old_outpoint,
                offer_id,
                tx,
                offer,
                kind,
                is_first_repayment,
                block_height,
            ).steps;
            steps.len() == 0 || !entries_after(entries, steps).contains_key(old_outpoint)
        }),
{
    let steps = active_spend_plan(
        old_outpoint,
        offer_id,
        tx,
        offer,
        kind,
        is_first_repayment,
        block_height,
    ).steps;
    law_active_spend_plans_are_confined(
        old_outpoint,
        offer_id,
        tx,
        offer,
        kind,
        is_first_repayment,
        block_height,
    );
    if steps.len() > 0 {
        assert(steps.take(2) =~= spend_steps(old_outpoint, tx.txid, block_height));
        lemma_spent_stays_unwatched(entries, steps, old_outpoint, tx.txid, block_height);
    }
}

/// Whether a step ends an offer.
pub open spec fn ends_offer(step: OfferStep) -> bool {
    step matches OfferStep::UpdateStatus { status, .. } && (status == OfferStatus::Cancelled
        || status == OfferStatus::Repaid || status == OfferStatus::Liquidated)
}

/// Whether steps that end an offer also leave it without debt and collateral, and
/// watch nothing more for it.
pub open spec fn ends_cleanly(steps: Seq<OfferStep>, offer_id: i64, block_height: u64) -> bool {
    (exists|i: int| 0 <= i < steps.len() && ends_offer(#[trigger] steps[i])) ==> {
        &&& steps.contains(
            OfferStep::UpdateDebtAndCollateral { offer_id, debt: 0, collateral: 0, block_height },
        )
        &&& forall|i: int| 0 <= i < steps.len() ==> !(#[trigger] steps[i] is Watch)
    }
}

/// A cancelled offer is left without debt and collateral, and nothing more is
/// watched for it.
pub proof fn law_cancelled_offers_end_cleanly(
    old_outpoint: OutPoint,
    entry: OffersWatchEntry,
    tx: TransactionView,
    block_height: u64,
)
    ensures
        spend_action(old_outpoint, entry, tx, block_height) matches OfferSpendActionView::Run {
            plan,
        } ==> ends_cleanly(plan.steps, entry.offer_id, block_height),
{
    let steps = cancellation_plan(old_outpoint, entry.offer_id, tx.txid, block_height).steps;
    assert(steps[3] == (OfferStep::UpdateDebtAndCollateral {
        offer_id: entry.offer_id,
        debt: 0,
        collateral: 0,
        block_height,
    }));
}

/// The same of a repaid and of a liquidated offer. A full repayment and a
/// liquidation end an offer unless they fail; a partial repayment never does.
pub proof fn law_repaid_and_liquidated_offers_end_cleanly(
    old_outpoint: OutPoint,
    offer_id: i64,
    tx: TransactionView,
    offer: OfferModel,
    kind: ActiveOfferSpendKind,
    is_first_repayment: bool,
    block_height: u64,
)
    ensures
        ({
            let plan = active_spend_plan(
                old_outpoint,
                offer_id,
                tx,
                offer,
                kind,
                is_first_repayment,
                block_height,
            );
            &&& ends_cleanly(plan.steps, offer_id, block_height)
            &&& (exists|i: int|
                0 <= i < plan.steps.len() && ends_offer(#[trigger] plan.steps[i])) <==> plan.error
                is None && !(kind is PartialRepayment)
        }),
{
    let plan = active_spend_plan(
        old_outpoint,
        offer_id,
        tx,
        offer,
        kind,
        is_first_repayment,
        block_height,
    );
    let n = plan.steps.len();
    if plan.error is None {
        match kind {
            ActiveOfferSpendKind::FullRepayment { .. } => {
                assert(plan.steps[n - 2] == (OfferStep::UpdateDebtAndCollateral {
                    offer_id,
                    debt: 0,
                    collateral: 0,
                    block_height,
                }));
                assert(ends_offer(plan.steps[n - 1]));
            },
            ActiveOfferSpendKind::PartialRepayment { .. } => {},
            ActiveOfferSpendKind::Liquidation => {
                assert(plan.steps[2] == (OfferStep::UpdateDebtAndCollateral {
                    offer_id,
                    debt: 0,
                    collateral: 0,
                    block_height,
                }));
                assert(ends_offer(plan.steps[3]));
            },
        }
    }
}

/// An accepted offer is watched at the first output of the accepting transaction,
/// the borrower's principal at its second.
pub proof fn law_accepted_offer_is_watched(
    entries: Map<OutPoint, OffersWatchEntry>,
    old_outpoint: OutPoint,
    offer_id: i64,
    txid: Txid,
    block_height: u64,
)
    ensures
        ({
            let after = entries_after(
                entries,
                acceptance_plan(old_outpoint, offer_id, txid, block_height).steps,
            );
            let active = OutPoint { txid, vout: 0 };
            let principal = OutPoint { txid, vout: 1 };
            after == entries.remove(old_outpoint).insert(
                active,
                OffersWatchEntry { offer_id, utxo_type: UtxoType::ActiveOffer },
            ).insert(
                principal,
                OffersWatchEntry { offer_id, utxo_type: UtxoType::BorrowerPrincipal },
            )
        }),
{
    let spend = spend_steps(old_outpoint, txid, block_height);
    let status = seq![
        OfferStep::UpdateStatus { offer_id, status: OfferStatus::Active, block_height },
    ];
    let active = watch_steps(offer_id, txid, 0, UtxoType::ActiveOffer, block_height);
    let principal = watch_steps(offer_id, txid, 1, UtxoType::BorrowerPrincipal, block_height);
    law_steps_are_carried_out_in_turn(entries, spend + status + active, principal);
    law_steps_are_carried_out_in_turn(entries, spend + status, active);
    law_steps_are_carried_out_in_turn(entries, spend, status);
    lemma_entries_after_pair(entries, spend);
    lemma_entries_after_quiet(entries_after(entries, spend), status);
    let accepted = entries_after(entries, spend + status);
    lemma_entries_after_pair(accepted, active);
    lemma_entries_after_pair(entries_after(accepted, active), principal);
}

proof fn lemma_entries_after_pair(
    entries: Map<OutPoint, OffersWatchEntry>,
    steps: Seq<OfferStep>,
)
    requires
        steps.len() == 2,
    ensures
        entries_after(entries, steps) == entries_after_step(
            entries_after_step(entries, steps[0]),
            steps[1],
        ),
{
    reveal_with_fuel(entries_after, 3);
    assert(steps.drop_last().last() == steps[0]);
}

/// Steps that do not touch the cache.
spec fn is_quiet(step: OfferStep) -> bool {
    !(step is Watch) && !(step is Unwatch)
}

proof fn lemma_entries_after_quiet(
    entries: Map<OutPoint, OffersWatchEntry>,
    steps: Seq<OfferStep>,
)
    requires
        forall|i: int| 0 <= i < steps.len() ==> is_quiet(#[trigger] steps[i]),
    ensures
        entries_after(entries, steps) == entries,
    decreases steps.len(),
{
    if steps.len() > 0 {
        assert(is_quiet(steps[steps.len() - 1]));
        lemma_entries_after_quiet(entries, steps.drop_last());
    }
}

/// Steps that spend an output and then leave the cache alone only unwatch it.
proof fn lemma_entries_after_quiet_spend(
    entries: Map<OutPoint, OffersWatchEntry>,
    steps: Seq<OfferStep>,
    spent: OutPoint,
    txid: Txid,
    block_height: u64,
)
    requires
        steps.len() >= 2,
        steps.take(2) == spend_steps(spent, txid, block_height),
        forall|i: int| 2 <= i < steps.len() ==> is_quiet(#[trigger] steps[i]),
    ensures
        entries_after(entries, steps) == entries.remove(spent),
{
    let spend = steps.take(2);
    let rest = steps.skip(2);
    assert(steps =~= spend + rest);
    law_steps_are_carried_out_in_turn(entries, spend, rest);
    lemma_entries_after_pair(entries, spend);
    assert forall|i: int| 0 <= i < rest.len() implies is_quiet(#[trigger] rest[i]) by {
        assert(rest[i] == steps[i + 2]);
    }
    lemma_entries_after_quiet(entries.remove(spent), rest);
}

/// A spend that does not accept an offer changes nothing in the cache but that the
/// spent output is watched no longer.
pub proof fn law_other_spends_only_unwatch(
    entries: Map<OutPoint, OffersWatchEntry>,
    old_outpoint: OutPoint,
    entry: OffersWatchEntry,
    tx: TransactionView,
    block_height: u64,
)
    requires
        !(entry.utxo_type is PendingOffer) || cancels_offer(tx),
    ensures
        spend_action(old_outpoint, entry, tx, block_height) matches OfferSpendActionView::Run {
            plan,
        } ==> entries_after(entries, plan.steps) == entries.remove(old_outpoint),
{
    if let OfferSpendActionView::Run { plan } = spend_action(
        old_outpoint,
        entry,
        tx,
        block_height,
    ) {
        assert(plan.steps.take(2) =~= spend_steps(old_outpoint, tx.txid, block_height));
        lemma_entries_after_quiet_spend(
            entries,
            plan.steps,
            old_outpoint,
            tx.txid,
            block_height,
        );
    }
}

/// The same of a spent active offer that is not carried on: by a full repayment, a
/// liquidation, or a plan that fails. A plan that fails at the outset changes
/// nothing.
pub proof fn law_other_active_spends_only_unwatch(
    entries: Map<OutPoint, OffersWatchEntry>,
    old_outpoint: OutPoint,
    offer_id: i64,
    tx: TransactionView,
    offer: OfferModel,
    kind: ActiveOfferSpendKind,
    is_first_repayment: bool,
    block_height: u64,
)
    ensures
        ({
            let plan = active_spend_plan(
                old_outpoint,
                offer_id,
                tx,
                offer,
                kind,
                is_first_repayment,
                block_height,
            );
            !(kind is PartialRepayment) || plan.error is Some ==> entries_after(
                entries,
                plan.steps,
            ) == if plan.steps.len() == 0 {
                entries
            } else {
                entries.remove(old_outpoint)
            }
        }),
{
    let plan = active_spend_plan(
        old_outpoint,
        offer_id,
        tx,
        offer,
        kind,
        is_first_repayment,
        block_height,
    );
    if (!(kind is PartialRepayment) || plan.error is Some) && plan.steps.len() > 0 {
        assert(plan.steps.take(2) =~= spend_steps(old_outpoint, tx.txid, block_height));
        lemma_entries_after_quiet_spend(
            entries,
            plan.steps,
            old_outpoint,
            tx.txid,
            block_height,
        );
    }
}

/// A new offer is watched at the output that creates it.
pub proof fn law_new_offer_is_watched(
    entries: Map<OutPoint, OffersWatchEntry>,
    offer_id: i64,
    txid: Txid,
    vout: u32,
    block_height: u64,
)
    ensures
        entries_after(
            entries,
            watch_steps(offer_id, txid, vout, UtxoType::PendingOffer, block_height),
        ) == entries.insert(
            OutPoint { txid, vout },
            OffersWatchEntry { offer_id, utxo_type: UtxoType::PendingOffer },
        ),
{
    lemma_entries_after_pair(
        entries,
        watch_steps(offer_id, txid, vout, UtxoType::PendingOffer, block_height),
    );
}

/// A partial repayment that does not fail moves the watch on to the output that
/// continues the offer, and changes no other entry.
pub proof fn law_partially_repaid_offer_is_watched(
    entries: Map<OutPoint, OffersWatchEntry>,
    old_outpoint: OutPoint,
    offer_id: i64,
    tx: TransactionView,
    offer: OfferModel,
    kind: ActiveOfferSpendKind,
    is_first_repayment: bool,
    block_height: u64,
)
    ensures
        ({
            let plan = active_spend_plan(
                old_outpoint,
                offer_id,
                tx,
                offer,
                kind,
                is_first_repayment,
                block_height,
            );
            (kind is PartialRepayment && plan.error is None) ==> {
                let vout = kind->PartialRepayment_scan.continuing_offer_vout;
                &&& vout is Some
                &&& entries_after(entries, plan.steps) == entries.remove(old_outpoint).insert(
                    OutPoint { txid: tx.txid, vout: vout->0 },
                    OffersWatchEntry { offer_id, utxo_type: UtxoType::ActiveOffer },
                )
            }
        }),
{
    let plan = active_spend_plan(
        old_outpoint,
        offer_id,
        tx,
        offer,
        kind,
        is_first_repayment,
        block_height,
    );
    if kind is PartialRepayment && plan.error is None {
        let scan = kind->PartialRepayment_scan;
        let spend = spend_steps(old_outpoint, tx.txid, block_height);
        let continuing = watch_steps(
            offer_id,
            tx.txid,
            scan.continuing_offer_vout->0,
            UtxoType::ActiveOffer,
            block_height,
        );
        let middle = plan.steps.subrange(2, plan.steps.len() - 2);
        assert(plan.steps =~= spend + middle + continuing);
        assert forall|i: int| 0 <= i < middle.len() implies is_quiet(#[trigger] middle[i]) by {
            assert(middle[i] == plan.steps[i + 2]);
        }
        law_steps_are_carried_out_in_turn(entries, spend + middle, continuing);
        law_steps_are_carried_out_in_turn(entries, spend, middle);
        lemma_entries_after_pair(entries, spend);
        lemma_entries_after_quiet(entries_after(entries, spend), middle);
        lemma_entries_after_pair(entries_after(entries, spend), continuing);
    }
}

/// A full repayment is recorded as unlocking all the collateral that was left, and
/// leaving none.
pub proof fn law_full_repayment_unlocks_all_collateral(
    offer_id: i64,
    txid: Txid,
    offer: OfferModel,
    scan: LendingOfferRepaymentScan,
    block_height: u64,
)
    ensures
        ({
            let record = full_repayment_record(offer_id, txid, offer, scan, block_height);
            &&& record.is_full
            &&& record.collateral_before == offer.collateral_remaining
            &&& record.collateral_before - record.collateral_unlocked == record.collateral_after
            &&& record.collateral_after == 0
        }),
{
}

/// Whether a step opens a vault of a type.
pub open spec fn opens_vault(step: OfferStep, vault_type: VaultType) -> bool {
    step matches OfferStep::CreateVault { vault, .. } && vault.vault_type == vault_type
}

/// Whether a step moves a vault of a type on.
pub open spec fn moves_vault_on(step: OfferStep, vault_type: VaultType) -> bool {
    step matches OfferStep::SupplyVault { vault_type: supplied, .. } && supplied == vault_type
}

/// What the outputs show of the repayment that spends an active offer, if one does.
pub open spec fn repayment_scan(kind: ActiveOfferSpendKind) -> Option<LendingOfferRepaymentScan> {
    match kind {
        ActiveOfferSpendKind::FullRepayment { scan, .. } => Some(scan),
        ActiveOfferSpendKind::PartialRepayment { scan, .. } => Some(scan),
        ActiveOfferSpendKind::Liquidation => None,
    }
}

/// The first repayment of an offer opens vaults and moves none on; every later one
/// moves vaults on and opens none. Unless the plan fails, a repayment does so with the
/// lender's vault, and with the protocol's exactly where the transaction has one.
pub proof fn law_vaults_are_opened_once(
    old_outpoint: OutPoint,
    offer_id: i64,
    tx: TransactionView,
    offer: OfferModel,
    kind: ActiveOfferSpendKind,
    is_first_repayment: bool,
    block_height: u64,
)
    ensures
        ({
            let plan = active_spend_plan(
                old_outpoint,
                offer_id,
                tx,
                offer,
                kind,
                is_first_repayment,
                block_height,
            );
            let steps = plan.steps;
            &&& forall|i: int|
                0 <= i < steps.len() ==> if is_first_repayment {
                    !(#[trigger] steps[i] is SupplyVault)
                } else {
                    !(steps[i] is CreateVault)
                }
            &&& plan.error is None && repayment_scan(kind) is Some ==> {
                &&& exists|i: int|
                    0 <= i < steps.len() && if is_first_repayment {
                        opens_vault(#[trigger] steps[i], VaultType::Lender)
                    } else {
                        moves_vault_on(steps[i], VaultType::Lender)
                    }
                &&& repayment_scan(kind)->0.protocol_fee_vault_vout is Some <==> exists|i: int|
                    0 <= i < steps.len() && if is_first_repayment {
                        opens_vault(#[trigger] steps[i], VaultType::ProtocolFee)
                    } else {
                        moves_vault_on(steps[i], VaultType::ProtocolFee)
                    }
            }
        }),
{
    let plan = active_spend_plan(
        old_outpoint,
        offer_id,
        tx,
        offer,
        kind,
        is_first_repayment,
        block_height,
    );
    let steps = plan.steps;
    if plan.error is None && repayment_scan(kind) is Some {
        // Where the steps on the vaults start.
        let at: int = if kind is FullRepayment {
            3
        } else {
            4
        };
        assert(if is_first_repayment {
            opens_vault(steps[at], VaultType::Lender)
        } else {
            moves_vault_on(steps[at], VaultType::Lender)
        });
        if repayment_scan(kind)->0.protocol_fee_vault_vout is Some {
            assert(if is_first_repayment {
                opens_vault(steps[at + 1], VaultType::ProtocolFee)
            } else {
                moves_vault_on(steps[at + 1], VaultType::ProtocolFee)
            });
        }
    }
}

/// Aborting a block undoes every step that was carried out while it was open;
/// committing it keeps them all.
pub proof fn law_blocks_keep_or_undo_every_step(
    cache: CacheView<OffersWatchEntry>,
    steps: Seq<OfferStep>,
)
    ensures
        cache_after(cache.begun(), steps).aborted() == cache.committed(),
        cache_after(cache.begun(), steps).committed() == cache_after(cache, steps).committed(),
{
}

/// The changes to the cache that steps make.
pub open spec fn cache_changes(steps: Seq<OfferStep>) -> Seq<CacheChange<OffersWatchEntry>>
    decreases steps.len(),
{
    if steps.len() == 0 {
        seq![]
    } else {
        let earlier = cache_changes(steps.drop_last());
        match steps.last() {
            OfferStep::Watch { outpoint, entry } => earlier.push(
                CacheChange::Insert(outpoint, entry),
            ),
            OfferStep::Unwatch { outpoint } => earlier.push(CacheChange::Remove(outpoint)),
            _ => earlier,
        }
    }
}

/// Carrying out steps is making their changes to the cache, so what holds of every
/// change of a block holds of every step.
pub proof fn law_steps_make_their_changes(
    cache: CacheView<OffersWatchEntry>,
    steps: Seq<OfferStep>,
)
    ensures
        cache_after(cache, steps) == cache.all_changed(cache_changes(steps)),
    decreases steps.len(),
{
    if steps.len() > 0 {
        law_steps_make_their_changes(cache, steps.drop_last());
        let earlier = cache_changes(steps.drop_last());
        let all = cache_changes(steps);
        if all.len() > earlier.len() {
            assert(all.drop_last() =~= earlier);
        }
    }
}

} // verus!
