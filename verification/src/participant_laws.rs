//! What holds of every plan of the participants tracker.

use crate::cache::{
    changed_only_by, changed_only_by_transaction, handled_inputs, is_next_watched,
    law_exactly_the_watched_inputs_are_handled, law_scan_goes_through_the_handled_inputs,
    law_some_input_is_next, spends, spends_distinct_earlier_outputs, CacheChange, CacheView,
};
use crate::chain::{op_return, OutPoint, TransactionView, Txid};
use crate::models::{law_stored_outpoint_round_trip, stored_outpoint, OfferParticipantView};
use crate::offer_participants::{
    holds_asset, is_first_holder, new_participant, participant_spend_steps,
    participant_watch_steps, participants_after_step, token_destination, token_spend_steps,
    watched_participants, ParticipantStepView, ParticipantWatchEntry,
};
use vstd::prelude::*;

verus! {

/// The outputs watched after a list of steps.
pub open spec fn participants_after(
    entries: Map<OutPoint, ParticipantWatchEntry>,
    steps: Seq<ParticipantStepView>,
) -> Map<OutPoint, ParticipantWatchEntry>
    decreases steps.len(),
{
    if steps.len() == 0 {
        entries
    } else {
        participants_after_step(participants_after(entries, steps.drop_last()), steps.last())
    }
}

/// A record after an output was recorded as spent.
pub open spec fn participant_after_spend(
    record: OfferParticipantView,
    outpoint: OutPoint,
    txid: Txid,
    block_height: u64,
) -> OfferParticipantView {
    if stored_outpoint(record.txid, record.vout) == outpoint {
        OfferParticipantView {
            spent_at_height: Some(block_height as i64),
            spent_txid: Some(txid),
            ..record
        }
    } else {
        record
    }
}

/// The records of tokens after a step.
pub open spec fn participant_records_after_step(
    records: Seq<OfferParticipantView>,
    step: ParticipantStepView,
) -> Seq<OfferParticipantView> {
    match step {
        ParticipantStepView::SpendUtxo { outpoint, block_height, txid } => Seq::new(
            records.len(),
            |i: int| participant_after_spend(records[i], outpoint, txid, block_height),
        ),
        ParticipantStepView::InsertUtxo { participant } => records.push(participant),
        _ => records,
    }
}

/// The records of tokens after a list of steps.
pub open spec fn participant_records_after(
    records: Seq<OfferParticipantView>,
    steps: Seq<ParticipantStepView>,
) -> Seq<OfferParticipantView>
    decreases steps.len(),
{
    if steps.len() == 0 {
        records
    } else {
        participant_records_after_step(
            participant_records_after(records, steps.drop_last()),
            steps.last(),
        )
    }
}

proof fn lemma_watched_after_spend(
    records: Seq<OfferParticipantView>,
    outpoint: OutPoint,
    txid: Txid,
    block_height: u64,
)
    ensures
        watched_participants(
            participant_records_after_step(
                records,
                ParticipantStepView::SpendUtxo { outpoint, block_height, txid },
            ),
        ) == watched_participants(records).remove(outpoint),
    decreases records.len(),
{
    let step = ParticipantStepView::SpendUtxo { outpoint, block_height, txid };
    let after = participant_records_after_step(records, step);
    if records.len() == 0 {
        assert(watched_participants(after) =~= watched_participants(records).remove(outpoint));
    } else {
        lemma_watched_after_spend(records.drop_last(), outpoint, txid, block_height);
        assert(after.drop_last() =~= participant_records_after_step(records.drop_last(), step));
        assert(watched_participants(after) =~= watched_participants(records).remove(outpoint));
    }
}

proof fn lemma_after_spend_and_watch(
    entries: Map<OutPoint, ParticipantWatchEntry>,
    records: Seq<OfferParticipantView>,
    spend: Seq<ParticipantStepView>,
    watch: Seq<ParticipantStepView>,
)
    requires
        spend.len() == 2,
        watch.len() == 2,
    ensures
        participants_after(entries, spend) == participants_after_step(
            participants_after_step(entries, spend[0]),
            spend[1],
        ),
        participants_after(entries, spend + watch) == participants_after_step(
            participants_after_step(participants_after(entries, spend), watch[0]),
            watch[1],
        ),
        participant_records_after(records, spend) == participant_records_after_step(
            participant_records_after_step(records, spend[0]),
            spend[1],
        ),
        participant_records_after(records, spend + watch) == participant_records_after_step(
            participant_records_after_step(participant_records_after(records, spend), watch[0]),
            watch[1],
        ),
{
    reveal_with_fuel(participants_after, 3);
    reveal_with_fuel(participant_records_after, 3);
    let all = spend + watch;
    assert(all.drop_last().drop_last() =~= spend);
    assert(all.drop_last().last() == watch[0]);
    assert(all.last() == watch[1]);
    assert(spend.drop_last().last() == spend[0]);
}

/// Following a token keeps the watch cache and the records together: a restart
/// from the records watches what was watched before it.
pub proof fn law_token_spending_keeps_cache_and_records_together(
    records: Seq<OfferParticipantView>,
    old_outpoint: OutPoint,
    entry: ParticipantWatchEntry,
    tx: TransactionView,
    asset_id: Seq<u8>,
    block_height: u64,
)
    ensures
        ({
            let steps = token_spend_steps(old_outpoint, entry, tx, asset_id, block_height);
            watched_participants(participant_records_after(records, steps)) == participants_after(
                watched_participants(records),
                steps,
            )
        }),
{
    let spend = participant_spend_steps(old_outpoint, tx.txid, block_height);
    lemma_watched_after_spend(records, old_outpoint, tx.txid, block_height);
    match token_destination(tx.output, asset_id) {
        Some(i) => {
            let participant = new_participant(
                entry.offer_id,
                entry.participant_type,
                tx.txid,
                i as u32,
                tx.output[i].script_pubkey,
                block_height,
            );
            let watch = participant_watch_steps(participant);
            lemma_after_spend_and_watch(watched_participants(records), records, spend, watch);
            let spent = participant_records_after(records, spend);
            assert(spent.push(participant).drop_last() =~= spent);
        },
        None => {
            assert(spend + seq![] =~= spend);
            lemma_after_spend_and_watch(watched_participants(records), records, spend, spend);
        },
    }
}

/// The creation of a token keeps the watch cache and the records together.
pub proof fn law_token_seeding_keeps_cache_and_records_together(
    records: Seq<OfferParticipantView>,
    participant: OfferParticipantView,
)
    requires
        participant.spent_txid is None,
    ensures
        ({
            let steps = participant_watch_steps(participant);
            watched_participants(participant_records_after(records, steps)) == participants_after(
                watched_participants(records),
                steps,
            )
        }),
{
    let steps = participant_watch_steps(participant);
    lemma_after_spend_and_watch(watched_participants(records), records, steps, steps);
    assert(records.push(participant).drop_last() =~= records);
}

/// A token that is spent is watched on at the first output that holds it, unless
/// that is an `OP_RETURN`; a token that is burned is watched no longer. No other
/// entry changes.
pub proof fn law_token_is_followed_or_burned(
    entries: Map<OutPoint, ParticipantWatchEntry>,
    old_outpoint: OutPoint,
    entry: ParticipantWatchEntry,
    tx: TransactionView,
    asset_id: Seq<u8>,
    block_height: u64,
)
    ensures
        participants_after(
            entries,
            token_spend_steps(old_outpoint, entry, tx, asset_id, block_height),
        ) == match token_destination(tx.output, asset_id) {
            Some(i) => entries.remove(old_outpoint).insert(
                OutPoint { txid: tx.txid, vout: i as u32 },
                entry,
            ),
            None => entries.remove(old_outpoint),
        },
        token_destination(tx.output, asset_id) matches Some(i) ==> {
            &&& is_first_holder(tx.output, asset_id, i)
            &&& !op_return(tx.output[i].script_pubkey)
        },
        token_destination(tx.output, asset_id) is None ==> forall|i: int| #[trigger]
            is_first_holder(tx.output, asset_id, i) ==> op_return(tx.output[i].script_pubkey),
{
    let spend = participant_spend_steps(old_outpoint, tx.txid, block_height);
    match token_destination(tx.output, asset_id) {
        Some(i) => {
            let vout = i as u32;
            let participant = new_participant(
                entry.offer_id,
                entry.participant_type,
                tx.txid,
                vout,
                tx.output[i].script_pubkey,
                block_height,
            );
            lemma_after_spend_and_watch(
                entries,
                seq![],
                spend,
                participant_watch_steps(participant),
            );
            law_stored_outpoint_round_trip(OutPoint { txid: tx.txid, vout });
        },
        None => {
            assert(spend + seq![] =~= spend);
            lemma_after_spend_and_watch(entries, seq![], spend, spend);
            assert forall|i: int| #[trigger] is_first_holder(tx.output, asset_id, i) implies op_return(
                tx.output[i].script_pubkey,
            ) by {
                let k = choose|k: int| is_first_holder(tx.output, asset_id, k);
                assert(holds_asset(tx.output[i], asset_id) && holds_asset(tx.output[k], asset_id));
                assert(k == i);
            }
        },
    }
}

/// Whether no two watched outputs hold the token of one side of one offer.
pub open spec fn one_output_per_token(entries: Map<OutPoint, ParticipantWatchEntry>) -> bool {
    forall|a: OutPoint, b: OutPoint|
        #![trigger entries.contains_key(a), entries.contains_key(b)]
        entries.contains_key(a) && entries.contains_key(b) && entries[a] == entries[b] ==> a == b
}

/// A token that moves is still watched at one output only.
pub proof fn law_token_spending_keeps_one_output_per_token(
    entries: Map<OutPoint, ParticipantWatchEntry>,
    old_outpoint: OutPoint,
    tx: TransactionView,
    asset_id: Seq<u8>,
    block_height: u64,
)
    requires
        one_output_per_token(entries),
        entries.contains_key(old_outpoint),
    ensures
        one_output_per_token(
            participants_after(
                entries,
                token_spend_steps(
                    old_outpoint,
                    entries[old_outpoint],
                    tx,
                    asset_id,
                    block_height,
                ),
            ),
        ),
{
    let entry = entries[old_outpoint];
    law_token_is_followed_or_burned(entries, old_outpoint, entry, tx, asset_id, block_height);
    let after = participants_after(
        entries,
        token_spend_steps(old_outpoint, entry, tx, asset_id, block_height),
    );
    assert forall|a: OutPoint, b: OutPoint|
        #![trigger after.contains_key(a), after.contains_key(b)]
        after.contains_key(a) && after.contains_key(b) && after[a] == after[b] implies a == b by {
        assert(entries.contains_key(a) || after[a] == entry);
        assert(entries.contains_key(b) || after[b] == entry);
    }
}

/// A token that is created is watched at one output only, unless it was watched
/// before.
pub proof fn law_token_seeding_keeps_one_output_per_token(
    entries: Map<OutPoint, ParticipantWatchEntry>,
    participant: OfferParticipantView,
)
    requires
        one_output_per_token(entries),
        forall|a: OutPoint| #[trigger]
            entries.contains_key(a) ==> entries[a] != (ParticipantWatchEntry {
                offer_id: participant.offer_id,
                participant_type: participant.participant_type,
            }),
    ensures
        one_output_per_token(participants_after(entries, participant_watch_steps(participant))),
{
    let steps = participant_watch_steps(participant);
    lemma_after_spend_and_watch(entries, seq![], steps, steps);
}

/// A cache after a list of steps.
pub open spec fn participants_cache_after(
    cache: CacheView<ParticipantWatchEntry>,
    steps: Seq<ParticipantStepView>,
) -> CacheView<ParticipantWatchEntry> {
    CacheView { entries: participants_after(cache.entries, steps), ..cache }
}

/// Aborting a block undoes every step that was carried out while it was open;
/// committing it keeps them all.
pub proof fn law_blocks_keep_or_undo_every_token_step(
    cache: CacheView<ParticipantWatchEntry>,
    steps: Seq<ParticipantStepView>,
)
    ensures
        participants_cache_after(cache.begun(), steps).aborted() == cache.committed(),
        participants_cache_after(cache.begun(), steps).committed() == participants_cache_after(
            cache,
            steps,
        ).committed(),
{
}

/// The changes to the cache that steps make.
pub open spec fn participant_changes(steps: Seq<ParticipantStepView>) -> Seq<
    CacheChange<ParticipantWatchEntry>,
>
    decreases steps.len(),
{
    if steps.len() == 0 {
        seq![]
    } else {
        let earlier = participant_changes(steps.drop_last());
        match steps.last() {
            ParticipantStepView::Watch { outpoint, entry } => earlier.push(
                CacheChange::Insert(outpoint, entry),
            ),
            ParticipantStepView::Unwatch { outpoint } => earlier.push(
                CacheChange::Remove(outpoint),
            ),
            _ => earlier,
        }
    }
}

/// Carrying out steps is making their changes to the cache, so what holds of every
/// change of a block holds of every step.
pub proof fn law_token_steps_make_their_changes(
    cache: CacheView<ParticipantWatchEntry>,
    steps: Seq<ParticipantStepView>,
)
    ensures
        participants_cache_after(cache, steps) == cache.all_changed(participant_changes(steps)),
    decreases steps.len(),
{
    if steps.len() > 0 {
        law_token_steps_make_their_changes(cache, steps.drop_last());
        let earlier = participant_changes(steps.drop_last());
        let all = participant_changes(steps);
        if all.len() > earlier.len() {
            assert(all.drop_last() =~= earlier);
        }
    }
}

proof fn lemma_participants_after_concat(
    entries: Map<OutPoint, ParticipantWatchEntry>,
    records: Seq<OfferParticipantView>,
    a: Seq<ParticipantStepView>,
    b: Seq<ParticipantStepView>,
)
    ensures
        participants_after(entries, a + b) == participants_after(participants_after(entries, a), b),
        participant_records_after(records, a + b) == participant_records_after(
            participant_records_after(records, a),
            b,
        ),
    decreases b.len(),
{
    if b.len() == 0 {
        assert(a + b =~= a);
    } else {
        assert((a + b).drop_last() =~= a + b.drop_last());
        lemma_participants_after_concat(entries, records, a, b.drop_last());
    }
}

/// What becomes of a transaction: all steps carried out, and the inputs that were
/// handled.
pub struct TokensRun {
    pub steps: Seq<ParticipantStepView>,
    pub handled: Set<int>,
}

/// What becomes of a transaction from an input on. The scan goes to the next input that
/// spends a watched output, the steps for it are carried out, and the scan goes on behind
/// it. `asset_at` gives the asset looked up for an input.
pub open spec fn tokens_run(
    entries: Map<OutPoint, ParticipantWatchEntry>,
    tx: TransactionView,
    from: int,
    asset_at: spec_fn(int) -> Seq<u8>,
    block_height: u64,
) -> TokensRun
    decreases tx.input.len() - from,
{
    if exists|i: int| is_next_watched(entries, tx.input, from, i) {
        let i = choose|i: int| is_next_watched(entries, tx.input, from, i);
        let steps = input_steps(entries, tx, i, asset_at(i), block_height);
        let rest = tokens_run(
            participants_after(entries, steps),
            tx,
            i + 1,
            asset_at,
            block_height,
        );
        TokensRun { steps: steps + rest.steps, handled: rest.handled.insert(i) }
    } else {
        TokensRun { steps: seq![], handled: Set::empty() }
    }
}

/// The steps that are carried out for an input.
pub open spec fn input_steps(
    entries: Map<OutPoint, ParticipantWatchEntry>,
    tx: TransactionView,
    i: int,
    asset_id: Seq<u8>,
    block_height: u64,
) -> Seq<ParticipantStepView> {
    let spent = tx.input[i].previous_output;
    token_spend_steps(spent, entries[spent], tx, asset_id, block_height)
}

/// A transaction keeps the watch cache and the records of tokens together: started with
/// the outputs that the records say to watch, the cache watches after all its steps what
/// the changed records say to watch.
pub proof fn law_transaction_keeps_tokens_and_records_together(
    records: Seq<OfferParticipantView>,
    tx: TransactionView,
    from: int,
    asset_at: spec_fn(int) -> Seq<u8>,
    block_height: u64,
)
    ensures
        ({
            let entries = watched_participants(records);
            let steps = tokens_run(entries, tx, from, asset_at, block_height).steps;
            watched_participants(participant_records_after(records, steps)) == participants_after(
                entries,
                steps,
            )
        }),
    decreases tx.input.len() - from,
{
    let entries = watched_participants(records);
    if exists|i: int| is_next_watched(entries, tx.input, from, i) {
        let i = choose|i: int| is_next_watched(entries, tx.input, from, i);
        let spent = tx.input[i].previous_output;
        let steps = token_spend_steps(spent, entries[spent], tx, asset_at(i), block_height);
        law_token_spending_keeps_cache_and_records_together(
            records,
            spent,
            entries[spent],
            tx,
            asset_at(i),
            block_height,
        );
        let after = participant_records_after(records, steps);
        law_transaction_keeps_tokens_and_records_together(
            after,
            tx,
            i + 1,
            asset_at,
            block_height,
        );
        lemma_participants_after_concat(
            entries,
            records,
            steps,
            tokens_run(watched_participants(after), tx, i + 1, asset_at, block_height).steps,
        );
    }
}

/// After a transaction every token is watched at one output only, if that was so before
/// it.
pub proof fn law_transaction_keeps_one_output_per_token(
    entries: Map<OutPoint, ParticipantWatchEntry>,
    tx: TransactionView,
    from: int,
    asset_at: spec_fn(int) -> Seq<u8>,
    block_height: u64,
)
    requires
        one_output_per_token(entries),
    ensures
        one_output_per_token(
            participants_after(
                entries,
                tokens_run(entries, tx, from, asset_at, block_height).steps,
            ),
        ),
    decreases tx.input.len() - from,
{
    if exists|i: int| is_next_watched(entries, tx.input, from, i) {
        let i = choose|i: int| is_next_watched(entries, tx.input, from, i);
        let spent = tx.input[i].previous_output;
        let steps = token_spend_steps(spent, entries[spent], tx, asset_at(i), block_height);
        law_token_spending_keeps_one_output_per_token(
            entries,
            spent,
            tx,
            asset_at(i),
            block_height,
        );
        let after = participants_after(entries, steps);
        law_transaction_keeps_one_output_per_token(after, tx, i + 1, asset_at, block_height);
        lemma_participants_after_concat(
            entries,
            seq![],
            steps,
            tokens_run(after, tx, i + 1, asset_at, block_height).steps,
        );
    }
}

/// What is watched after an input was handled.
spec fn token_handler(
    tx: TransactionView,
    asset_at: spec_fn(int) -> Seq<u8>,
    block_height: u64,
) -> spec_fn(Map<OutPoint, ParticipantWatchEntry>, int) -> Map<OutPoint, ParticipantWatchEntry> {
    |before: Map<OutPoint, ParticipantWatchEntry>, j: int|
        participants_after(before, input_steps(before, tx, j, asset_at(j), block_height))
}

/// Handling an input changes at most the output that it spends and the transaction's own
/// outputs, and leaves the spent output unwatched unless it is the transaction's own.
proof fn lemma_input_steps(
    entries: Map<OutPoint, ParticipantWatchEntry>,
    tx: TransactionView,
    i: int,
    asset_id: Seq<u8>,
    block_height: u64,
)
    ensures
        ({
            let spent = tx.input[i].previous_output;
            let after = participants_after(
                entries,
                input_steps(entries, tx, i, asset_id, block_height),
            );
            &&& changed_only_by(entries, after, spent, tx.txid)
            &&& spent.txid != tx.txid ==> !after.contains_key(spent)
        }),
{
    let spent = tx.input[i].previous_output;
    law_token_is_followed_or_burned(entries, spent, entries[spent], tx, asset_id, block_height);
}

proof fn lemma_run_handles_the_handled_inputs(
    entries: Map<OutPoint, ParticipantWatchEntry>,
    tx: TransactionView,
    from: int,
    asset_at: spec_fn(int) -> Seq<u8>,
    block_height: u64,
)
    requires
        0 <= from,
    ensures
        tokens_run(entries, tx, from, asset_at, block_height).handled == handled_inputs(
            entries,
            tx.input,
            from,
            token_handler(tx, asset_at, block_height),
        ),
    decreases tx.input.len() - from,
{
    let handle = token_handler(tx, asset_at, block_height);
    law_scan_goes_through_the_handled_inputs(entries, tx.input, from, handle);
    if exists|i: int| is_next_watched(entries, tx.input, from, i) {
        let i = choose|i: int| is_next_watched(entries, tx.input, from, i);
        let steps = input_steps(entries, tx, i, asset_at(i), block_height);
        lemma_run_handles_the_handled_inputs(
            participants_after(entries, steps),
            tx,
            i + 1,
            asset_at,
            block_height,
        );
    }
}

/// Following one token takes no other out of its turn: of a transaction that spends no
/// output twice and none of its own, exactly the inputs are handled whose outputs were
/// watched before it.
pub proof fn law_exactly_the_spent_tokens_are_handled(
    entries: Map<OutPoint, ParticipantWatchEntry>,
    tx: TransactionView,
    asset_at: spec_fn(int) -> Seq<u8>,
    block_height: u64,
    i: int,
)
    requires
        spends_distinct_earlier_outputs(tx),
    ensures
        tokens_run(entries, tx, 0, asset_at, block_height).handled.contains(i) <==> 0 <= i
            < tx.input.len() && entries.contains_key(tx.input[i].previous_output),
{
    let handle = token_handler(tx, asset_at, block_height);
    assert forall|before: Map<OutPoint, ParticipantWatchEntry>, j: int|
        0 <= j < tx.input.len() implies changed_only_by(
        before,
        #[trigger] handle(before, j),
        tx.input[j].previous_output,
        tx.txid,
    ) by {
        lemma_input_steps(before, tx, j, asset_at(j), block_height);
    }
    lemma_run_handles_the_handled_inputs(entries, tx, 0, asset_at, block_height);
    law_exactly_the_watched_inputs_are_handled(entries, tx, 0, handle, i);
}

/// A transaction changes what is watched at most in the outputs that it spends and in its
/// own: every other output keeps its entry.
pub proof fn law_transaction_leaves_other_tokens_alone(
    entries: Map<OutPoint, ParticipantWatchEntry>,
    tx: TransactionView,
    from: int,
    asset_at: spec_fn(int) -> Seq<u8>,
    block_height: u64,
)
    requires
        0 <= from,
    ensures
        changed_only_by_transaction(
            entries,
            participants_after(
                entries,
                tokens_run(entries, tx, from, asset_at, block_height).steps,
            ),
            tx,
        ),
    decreases tx.input.len() - from,
{
    if exists|i: int| is_next_watched(entries, tx.input, from, i) {
        let i = choose|i: int| is_next_watched(entries, tx.input, from, i);
        let steps = input_steps(entries, tx, i, asset_at(i), block_height);
        let middle = participants_after(entries, steps);
        let rest = tokens_run(middle, tx, i + 1, asset_at, block_height).steps;
        let after = participants_after(entries, steps + rest);
        lemma_input_steps(entries, tx, i, asset_at(i), block_height);
        law_transaction_leaves_other_tokens_alone(middle, tx, i + 1, asset_at, block_height);
        lemma_participants_after_concat(entries, seq![], steps, rest);
        assert forall|other: OutPoint|
            #![trigger after.contains_key(other)]
            #![trigger entries.contains_key(other)]
            other.txid != tx.txid && !spends(tx, other) implies {
            &&& after.contains_key(other) <==> entries.contains_key(other)
            &&& entries.contains_key(other) ==> after[other] == entries[other]
        } by {
            assert(tx.input[i].previous_output != other);
            assert(middle.contains_key(other) <==> entries.contains_key(other));
        }
    }
}

/// An output that is not watched and not the transaction's own stays unwatched.
proof fn lemma_run_watches_only_own_outputs(
    entries: Map<OutPoint, ParticipantWatchEntry>,
    tx: TransactionView,
    from: int,
    asset_at: spec_fn(int) -> Seq<u8>,
    block_height: u64,
    outpoint: OutPoint,
)
    requires
        outpoint.txid != tx.txid,
        !entries.contains_key(outpoint),
    ensures
        !participants_after(
            entries,
            tokens_run(entries, tx, from, asset_at, block_height).steps,
        ).contains_key(outpoint),
    decreases tx.input.len() - from,
{
    if exists|i: int| is_next_watched(entries, tx.input, from, i) {
        let i = choose|i: int| is_next_watched(entries, tx.input, from, i);
        let steps = input_steps(entries, tx, i, asset_at(i), block_height);
        let middle = participants_after(entries, steps);
        lemma_input_steps(entries, tx, i, asset_at(i), block_height);
        assert(!middle.contains_key(outpoint));
        lemma_run_watches_only_own_outputs(
            middle,
            tx,
            i + 1,
            asset_at,
            block_height,
            outpoint,
        );
        lemma_participants_after_concat(
            entries,
            seq![],
            steps,
            tokens_run(middle, tx, i + 1, asset_at, block_height).steps,
        );
    }
}

/// After a transaction no output that it spends is watched, unless it is the
/// transaction's own.
pub proof fn law_spent_tokens_are_unwatched(
    entries: Map<OutPoint, ParticipantWatchEntry>,
    tx: TransactionView,
    from: int,
    asset_at: spec_fn(int) -> Seq<u8>,
    block_height: u64,
    j: int,
)
    requires
        0 <= from <= j < tx.input.len(),
        tx.input[j].previous_output.txid != tx.txid,
    ensures
        !participants_after(
            entries,
            tokens_run(entries, tx, from, asset_at, block_height).steps,
        ).contains_key(tx.input[j].previous_output),
    decreases tx.input.len() - from,
{
    let spent = tx.input[j].previous_output;
    if !entries.contains_key(spent) {
        lemma_run_watches_only_own_outputs(entries, tx, from, asset_at, block_height, spent);
    } else {
        law_some_input_is_next(entries, tx.input, from, j);
        let i = choose|i: int| is_next_watched(entries, tx.input, from, i);
        let steps = input_steps(entries, tx, i, asset_at(i), block_height);
        let middle = participants_after(entries, steps);
        lemma_input_steps(entries, tx, i, asset_at(i), block_height);
        lemma_participants_after_concat(
            entries,
            seq![],
            steps,
            tokens_run(middle, tx, i + 1, asset_at, block_height).steps,
        );
        if tx.input[i].previous_output == spent {
            lemma_run_watches_only_own_outputs(
                middle,
                tx,
                i + 1,
                asset_at,
                block_height,
                spent,
            );
        } else {
            law_spent_tokens_are_unwatched(middle, tx, i + 1, asset_at, block_height, j);
        }
    }
}

} // verus!
