//! What holds of a whole transaction, after all that follows from its inputs.

use crate::cache::{
    changed_only_by, changed_only_by_transaction, handled_inputs, is_next_watched,
    law_exactly_the_watched_inputs_are_handled, law_scan_goes_through_the_handled_inputs,
    law_some_input_is_next, spends, spends_distinct_earlier_outputs,
};
use crate::chain::{OutPoint, TransactionView};
use crate::models::{OfferModel, UtxoType};
use crate::offer_carrier_laws::{
    law_active_spending_keeps_one_carrier, law_spending_keeps_one_carrier, one_carrier_per_offer,
};
use crate::offer_laws::{
    entries_after, keeps_cache_and_records_together,
    law_active_spend_plans_are_confined, law_active_spending_keeps_cache_and_records_together,
    law_confined_steps_change_only_their_own_outputs, law_spend_plans_are_confined,
    law_spending_keeps_cache_and_records_together, law_spent_active_offer_is_unwatched,
    law_spent_output_is_unwatched, law_steps_are_carried_out_in_turn,
    law_steps_keep_together_one_after_the_other,
};
use crate::offers::{
    active_spend_plan, spend_action, ActiveOfferSpendKind, OfferPlanView, OfferSpendActionView,
    OffersWatchEntry,
};
use vstd::prelude::*;

verus! {

/// What is found out about an active offer that an input spends.
pub struct ActiveSpendAnswer {
    pub offer: OfferModel,
    pub kind: ActiveOfferSpendKind,
    pub is_first_repayment: bool,
}

/// The plan that is carried out for an input.
pub open spec fn input_plan(
    entries: Map<OutPoint, OffersWatchEntry>,
    tx: TransactionView,
    i: int,
    answer: ActiveSpendAnswer,
    block_height: u64,
) -> OfferPlanView {
    let spent = tx.input[i].previous_output;
    match spend_action(spent, entries[spent], tx, block_height) {
        OfferSpendActionView::Run { plan } => plan,
        OfferSpendActionView::Classify { outpoint, offer_id } => active_spend_plan(
            outpoint,
            offer_id,
            tx,
            answer.offer,
            answer.kind,
            answer.is_first_repayment,
            block_height,
        ),
        OfferSpendActionView::Unexpected { .. } | OfferSpendActionView::Finished { .. } =>
        OfferPlanView::running(seq![]),
    }
}

/// What becomes of a transaction: all steps carried out, with the error that stopped
/// them, if any; whether a watched output was spent; and the inputs that were handled.
pub struct OffersRun {
    pub plan: OfferPlanView,
    pub offer_spent: bool,
    pub handled: Set<int>,
}

/// What becomes of a transaction from an input on. The scan goes to the next input that
/// spends a watched output, the plan for it is carried out, and the scan goes on behind
/// it, until no such input is left or a plan fails. `answers` tells what is found out
/// about the active offer that an input spends.
pub open spec fn offers_run(
    entries: Map<OutPoint, OffersWatchEntry>,
    tx: TransactionView,
    from: int,
    offer_spent: bool,
    answers: spec_fn(int) -> ActiveSpendAnswer,
    block_height: u64,
) -> OffersRun
    decreases tx.input.len() - from,
{
    if exists|i: int| is_next_watched(entries, tx.input, from, i) {
        let i = choose|i: int| is_next_watched(entries, tx.input, from, i);
        let plan = input_plan(entries, tx, i, answers(i), block_height);
        if plan.error is Some {
            OffersRun { plan, offer_spent: true, handled: set![i] }
        } else {
            let rest = offers_run(
                entries_after(entries, plan.steps),
                tx,
                i + 1,
                true,
                answers,
                block_height,
            );
            OffersRun {
                plan: plan.followed_by(rest.plan),
                offer_spent: rest.offer_spent,
                handled: rest.handled.insert(i),
            }
        }
    } else {
        OffersRun { plan: OfferPlanView::running(seq![]), offer_spent, handled: Set::empty() }
    }
}

/// The plan for an input keeps the watch cache and the records together.
proof fn lemma_input_plan_keeps_together(
    entries: Map<OutPoint, OffersWatchEntry>,
    tx: TransactionView,
    i: int,
    answer: ActiveSpendAnswer,
    block_height: u64,
)
    ensures
        keeps_cache_and_records_together(
            input_plan(entries, tx, i, answer, block_height).steps,
        ),
{
    let spent = tx.input[i].previous_output;
    law_spending_keeps_cache_and_records_together(spent, entries[spent], tx, block_height);
    law_active_spending_keeps_cache_and_records_together(
        spent,
        entries[spent].offer_id,
        tx,
        answer.offer,
        answer.kind,
        answer.is_first_repayment,
        block_height,
    );
}

/// A transaction keeps the watch cache and the records together: started with the
/// outputs that the records say to watch, the cache watches after all steps of the
/// transaction what the changed records say to watch, also where a plan fails.
pub proof fn law_transaction_keeps_cache_and_records_together(
    entries: Map<OutPoint, OffersWatchEntry>,
    tx: TransactionView,
    from: int,
    offer_spent: bool,
    answers: spec_fn(int) -> ActiveSpendAnswer,
    block_height: u64,
)
    ensures
        keeps_cache_and_records_together(
            offers_run(entries, tx, from, offer_spent, answers, block_height).plan.steps,
        ),
    decreases tx.input.len() - from,
{
    if exists|i: int| is_next_watched(entries, tx.input, from, i) {
        let i = choose|i: int| is_next_watched(entries, tx.input, from, i);
        let plan = input_plan(entries, tx, i, answers(i), block_height);
        lemma_input_plan_keeps_together(entries, tx, i, answers(i), block_height);
        if plan.error is None {
            let after = entries_after(entries, plan.steps);
            law_transaction_keeps_cache_and_records_together(
                after,
                tx,
                i + 1,
                true,
                answers,
                block_height,
            );
            law_steps_keep_together_one_after_the_other(
                plan.steps,
                offers_run(after, tx, i + 1, true, answers, block_height).plan.steps,
            );
        }
    }
}

proof fn lemma_offer_spent_stays(
    entries: Map<OutPoint, OffersWatchEntry>,
    tx: TransactionView,
    from: int,
    answers: spec_fn(int) -> ActiveSpendAnswer,
    block_height: u64,
)
    ensures
        offers_run(entries, tx, from, true, answers, block_height).offer_spent,
    decreases tx.input.len() - from,
{
    if exists|i: int| is_next_watched(entries, tx.input, from, i) {
        let i = choose|i: int| is_next_watched(entries, tx.input, from, i);
        let plan = input_plan(entries, tx, i, answers(i), block_height);
        if plan.error is None {
            lemma_offer_spent_stays(
                entries_after(entries, plan.steps),
                tx,
                i + 1,
                answers,
                block_height,
            );
        }
    }
}

/// A transaction counts as spending an offer exactly where one of its inputs spends an
/// output that was watched before the transaction.
pub proof fn law_offer_is_spent_where_an_input_was_watched(
    entries: Map<OutPoint, OffersWatchEntry>,
    tx: TransactionView,
    answers: spec_fn(int) -> ActiveSpendAnswer,
    block_height: u64,
)
    ensures
        offers_run(entries, tx, 0, false, answers, block_height).offer_spent <==> exists|i: int|
            0 <= i < tx.input.len() && entries.contains_key(
                #[trigger] tx.input[i].previous_output,
            ),
{
    if exists|i: int|
        0 <= i < tx.input.len() && entries.contains_key(#[trigger] tx.input[i].previous_output) {
        let i = choose|i: int|
            0 <= i < tx.input.len() && entries.contains_key(
                #[trigger] tx.input[i].previous_output,
            );
        law_some_input_is_next(entries, tx.input, 0, i);
        let k = choose|k: int| is_next_watched(entries, tx.input, 0, k);
        let plan = input_plan(entries, tx, k, answers(k), block_height);
        if plan.error is None {
            lemma_offer_spent_stays(
                entries_after(entries, plan.steps),
                tx,
                k + 1,
                answers,
                block_height,
            );
        }
    } else {
        assert forall|i: int| !is_next_watched(entries, tx.input, 0, i) by {
            if is_next_watched(entries, tx.input, 0, i) {
                assert(entries.contains_key(tx.input[i].previous_output));
            }
        }
    }
}

/// Whether a watched output is one that is expected to be spent: not the record of how an
/// offer ended.
pub open spec fn is_expected(entry: OffersWatchEntry) -> bool {
    entry.utxo_type != UtxoType::Cancellation && entry.utxo_type != UtxoType::Liquidation
}

/// The plan for an input changes at most the output that it spends and the transaction's
/// own outputs. Unless it fails, it leaves the spent output unwatched where that is one
/// expected to be spent and not the transaction's own.
proof fn lemma_input_plan(
    entries: Map<OutPoint, OffersWatchEntry>,
    tx: TransactionView,
    i: int,
    answer: ActiveSpendAnswer,
    block_height: u64,
)
    ensures
        ({
            let spent = tx.input[i].previous_output;
            let plan = input_plan(entries, tx, i, answer, block_height);
            let after = entries_after(entries, plan.steps);
            &&& changed_only_by(entries, after, spent, tx.txid)
            &&& plan.error is None && is_expected(entries[spent]) && spent.txid != tx.txid
                ==> !after.contains_key(spent)
        }),
{
    let spent = tx.input[i].previous_output;
    let entry = entries[spent];
    let plan = input_plan(entries, tx, i, answer, block_height);
    law_spend_plans_are_confined(spent, entry, tx, block_height);
    law_active_spend_plans_are_confined(
        spent,
        entry.offer_id,
        tx,
        answer.offer,
        answer.kind,
        answer.is_first_repayment,
        block_height,
    );
    law_confined_steps_change_only_their_own_outputs(entries, plan.steps, spent, tx.txid);
    if spent.txid != tx.txid {
        law_spent_output_is_unwatched(entries, spent, entry, tx, block_height);
        law_spent_active_offer_is_unwatched(
            entries,
            spent,
            entry.offer_id,
            tx,
            answer.offer,
            answer.kind,
            answer.is_first_repayment,
            block_height,
        );
    }
}

/// What is watched after an input was handled.
spec fn input_handler(
    tx: TransactionView,
    answers: spec_fn(int) -> ActiveSpendAnswer,
    block_height: u64,
) -> spec_fn(Map<OutPoint, OffersWatchEntry>, int) -> Map<OutPoint, OffersWatchEntry> {
    |before: Map<OutPoint, OffersWatchEntry>, j: int|
        entries_after(before, input_plan(before, tx, j, answers(j), block_height).steps)
}

proof fn lemma_run_handles_the_handled_inputs(
    entries: Map<OutPoint, OffersWatchEntry>,
    tx: TransactionView,
    from: int,
    offer_spent: bool,
    answers: spec_fn(int) -> ActiveSpendAnswer,
    block_height: u64,
)
    requires
        0 <= from,
        offers_run(entries, tx, from, offer_spent, answers, block_height).plan.error is None,
    ensures
        offers_run(entries, tx, from, offer_spent, answers, block_height).handled
            == handled_inputs(
            entries,
            tx.input,
            from,
            input_handler(tx, answers, block_height),
        ),
    decreases tx.input.len() - from,
{
    let handle = input_handler(tx, answers, block_height);
    law_scan_goes_through_the_handled_inputs(entries, tx.input, from, handle);
    if exists|i: int| is_next_watched(entries, tx.input, from, i) {
        let i = choose|i: int| is_next_watched(entries, tx.input, from, i);
        let plan = input_plan(entries, tx, i, answers(i), block_height);
        lemma_run_handles_the_handled_inputs(
            entries_after(entries, plan.steps),
            tx,
            i + 1,
            true,
            answers,
            block_height,
        );
    }
}

/// Carrying out the plan for one input takes no other input out of its turn: of a
/// transaction that spends no output twice and none of its own, exactly the inputs are
/// handled whose outputs were watched before it, unless a plan fails.
pub proof fn law_exactly_the_spent_offers_are_handled(
    entries: Map<OutPoint, OffersWatchEntry>,
    tx: TransactionView,
    answers: spec_fn(int) -> ActiveSpendAnswer,
    block_height: u64,
    i: int,
)
    requires
        spends_distinct_earlier_outputs(tx),
        offers_run(entries, tx, 0, false, answers, block_height).plan.error is None,
    ensures
        offers_run(entries, tx, 0, false, answers, block_height).handled.contains(i) <==> 0 <= i
            < tx.input.len() && entries.contains_key(tx.input[i].previous_output),
{
    let handle = input_handler(tx, answers, block_height);
    assert forall|before: Map<OutPoint, OffersWatchEntry>, j: int|
        0 <= j < tx.input.len() implies changed_only_by(
        before,
        #[trigger] handle(before, j),
        tx.input[j].previous_output,
        tx.txid,
    ) by {
        lemma_input_plan(before, tx, j, answers(j), block_height);
    }
    lemma_run_handles_the_handled_inputs(entries, tx, 0, false, answers, block_height);
    law_exactly_the_watched_inputs_are_handled(entries, tx, 0, handle, i);
}

/// After a transaction at most one watched output carries an offer, if that was so
/// before it; also where a plan fails.
pub proof fn law_transaction_keeps_one_carrier(
    entries: Map<OutPoint, OffersWatchEntry>,
    tx: TransactionView,
    from: int,
    offer_spent: bool,
    answers: spec_fn(int) -> ActiveSpendAnswer,
    block_height: u64,
)
    requires
        one_carrier_per_offer(entries),
    ensures
        one_carrier_per_offer(
            entries_after(
                entries,
                offers_run(entries, tx, from, offer_spent, answers, block_height).plan.steps,
            ),
        ),
    decreases tx.input.len() - from,
{
    if exists|i: int| is_next_watched(entries, tx.input, from, i) {
        let i = choose|i: int| is_next_watched(entries, tx.input, from, i);
        let spent = tx.input[i].previous_output;
        let answer = answers(i);
        let plan = input_plan(entries, tx, i, answer, block_height);
        law_spending_keeps_one_carrier(entries, spent, tx, block_height);
        if spend_action(spent, entries[spent], tx, block_height) is Classify {
            law_active_spending_keeps_one_carrier(
                entries,
                spent,
                tx,
                answer.offer,
                answer.kind,
                answer.is_first_repayment,
                block_height,
            );
        }
        if plan.error is None {
            let after = entries_after(entries, plan.steps);
            law_transaction_keeps_one_carrier(after, tx, i + 1, true, answers, block_height);
            law_steps_are_carried_out_in_turn(
                entries,
                plan.steps,
                offers_run(after, tx, i + 1, true, answers, block_height).plan.steps,
            );
        }
    }
}

/// A transaction changes what is watched at most in the outputs that it spends and in its
/// own: every other output keeps its entry, also where a plan fails.
pub proof fn law_transaction_leaves_other_offers_alone(
    entries: Map<OutPoint, OffersWatchEntry>,
    tx: TransactionView,
    from: int,
    offer_spent: bool,
    answers: spec_fn(int) -> ActiveSpendAnswer,
    block_height: u64,
)
    requires
        0 <= from,
    ensures
        changed_only_by_transaction(
            entries,
            entries_after(
                entries,
                offers_run(entries, tx, from, offer_spent, answers, block_height).plan.steps,
            ),
            tx,
        ),
    decreases tx.input.len() - from,
{
    if exists|i: int| is_next_watched(entries, tx.input, from, i) {
        let i = choose|i: int| is_next_watched(entries, tx.input, from, i);
        let plan = input_plan(entries, tx, i, answers(i), block_height);
        let middle = entries_after(entries, plan.steps);
        let all = offers_run(entries, tx, from, offer_spent, answers, block_height).plan.steps;
        let after = entries_after(entries, all);
        lemma_input_plan(entries, tx, i, answers(i), block_height);
        if plan.error is None {
            law_transaction_leaves_other_offers_alone(
                middle,
                tx,
                i + 1,
                true,
                answers,
                block_height,
            );
            law_steps_are_carried_out_in_turn(
                entries,
                plan.steps,
                offers_run(middle, tx, i + 1, true, answers, block_height).plan.steps,
            );
        }
        assert forall|other: OutPoint|
            #![trigger after.contains_key(other)]
            #![trigger entries.contains_key(other)]
            other.txid != tx.txid && !spends(tx, other) implies {
            &&& after.contains_key(other) <==> entries.contains_key(other)
            &&& entries.contains_key(other) ==> after[other] == entries[other]
        } by {
            assert(tx.input[i].previous_output != other);
            assert(middle.contains_key(other) <==> entries.contains_key(other));
        }
    }
}

/// An output that is not watched and not the transaction's own stays unwatched.
proof fn lemma_run_watches_only_own_outputs(
    entries: Map<OutPoint, OffersWatchEntry>,
    tx: TransactionView,
    from: int,
    offer_spent: bool,
    answers: spec_fn(int) -> ActiveSpendAnswer,
    block_height: u64,
    outpoint: OutPoint,
)
    requires
        outpoint.txid != tx.txid,
        !entries.contains_key(outpoint),
    ensures
        !entries_after(
            entries,
            offers_run(entries, tx, from, offer_spent, answers, block_height).plan.steps,
        ).contains_key(outpoint),
    decreases tx.input.len() - from,
{
    if exists|i: int| is_next_watched(entries, tx.input, from, i) {
        let i = choose|i: int| is_next_watched(entries, tx.input, from, i);
        let plan = input_plan(entries, tx, i, answers(i), block_height);
        let middle = entries_after(entries, plan.steps);
        lemma_input_plan(entries, tx, i, answers(i), block_height);
        assert(!middle.contains_key(outpoint));
        if plan.error is None {
            lemma_run_watches_only_own_outputs(
                middle,
                tx,
                i + 1,
                true,
                answers,
                block_height,
                outpoint,
            );
            law_steps_are_carried_out_in_turn(
                entries,
                plan.steps,
                offers_run(middle, tx, i + 1, true, answers, block_height).plan.steps,
            );
        }
    }
}

/// After a transaction whose plans do not fail, no output that it spends is watched,
/// unless it is the transaction's own or was watched as the record of how an offer ended.
pub proof fn law_spent_offers_are_unwatched(
    entries: Map<OutPoint, OffersWatchEntry>,
    tx: TransactionView,
    from: int,
    offer_spent: bool,
    answers: spec_fn(int) -> ActiveSpendAnswer,
    block_height: u64,
    j: int,
)
    requires
        0 <= from <= j < tx.input.len(),
        tx.input[j].previous_output.txid != tx.txid,
        entries.contains_key(tx.input[j].previous_output) ==> is_expected(
            entries[tx.input[j].previous_output],
        ),
        offers_run(entries, tx, from, offer_spent, answers, block_height).plan.error is None,
    ensures
        !entries_after(
            entries,
            offers_run(entries, tx, from, offer_spent, answers, block_height).plan.steps,
        ).contains_key(tx.input[j].previous_output),
    decreases tx.input.len() - from,
{
    let spent = tx.input[j].previous_output;
    if !entries.contains_key(spent) {
        lemma_run_watches_only_own_outputs(
            entries,
            tx,
            from,
            offer_spent,
            answers,
            block_height,
            spent,
        );
    } else {
        law_some_input_is_next(entries, tx.input, from, j);
        let i = choose|i: int| is_next_watched(entries, tx.input, from, i);
        let plan = input_plan(entries, tx, i, answers(i), block_height);
        let middle = entries_after(entries, plan.steps);
        lemma_input_plan(entries, tx, i, answers(i), block_height);
        law_steps_are_carried_out_in_turn(
            entries,
            plan.steps,
            offers_run(middle, tx, i + 1, true, answers, block_height).plan.steps,
        );
        if tx.input[i].previous_output == spent {
            lemma_run_watches_only_own_outputs(
                middle,
                tx,
                i + 1,
                true,
                answers,
                block_height,
                spent,
            );
        } else {
            assert(middle.contains_key(spent));
            law_spent_offers_are_unwatched(middle, tx, i + 1, true, answers, block_height, j);
        }
    }
}

} // verus!
