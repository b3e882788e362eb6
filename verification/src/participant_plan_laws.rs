//! Where every token goes, in terms of the outputs of the transaction that spends it.

use crate::chain::{op_return, OutPoint, TransactionView, TxOutView, Txid};
use crate::models::{
    law_stored_outpoint_round_trip, OfferParticipantModel, OfferParticipantView, ParticipantType,
};
use crate::offer_participants::{
    holds_asset, is_first_holder, new_participant, participant_watch_steps, records_view,
    steps_view, token_spend_steps, watched_participants, ParticipantStep, ParticipantStepView,
    ParticipantWatchEntry,
};
use vstd::prelude::*;

verus! {

/// Whether an output openly holds an asset: byte for byte, in the same order, its asset id
/// is the stored one.
pub open spec fn shows_asset(output: TxOutView, asset_id: Seq<u8>) -> bool {
    &&& output.asset is Some
    &&& asset_id.len() == 32
    &&& forall|k: int|
        0 <= k < 32 ==> #[trigger] output.asset->0.bytes@[k] == asset_id[k]
}

proof fn lemma_shown_asset_is_held(output: TxOutView, asset_id: Seq<u8>)
    ensures
        shows_asset(output, asset_id) <==> holds_asset(output, asset_id),
{
    if shows_asset(output, asset_id) {
        assert(output.asset->0.bytes@ =~= asset_id);
    }
}

/// A spent token goes to the first output that shows its asset. The spent output is
/// recorded as spent and unwatched. Then, unless the output is an `OP_RETURN`, the token
/// is recorded as unspent there, under that output's script, and watched there for the
/// same side of the same offer.
pub proof fn law_token_goes_to_the_first_output_that_shows_it(
    old_outpoint: OutPoint,
    entry: ParticipantWatchEntry,
    tx: TransactionView,
    asset_id: Seq<u8>,
    block_height: u64,
    at: int,
)
    requires
        0 <= at < tx.output.len(),
        shows_asset(tx.output[at], asset_id),
        forall|j: int| 0 <= j < at ==> !shows_asset(#[trigger] tx.output[j], asset_id),
    ensures
        ({
            let steps = token_spend_steps(old_outpoint, entry, tx, asset_id, block_height);
            let burned = op_return(tx.output[at].script_pubkey);
            &&& steps.len() == if burned {
                2int
            } else {
                4
            }
            &&& forall|i: int|
                0 <= i < steps.len() ==> match #[trigger] steps[i] {
                    ParticipantStepView::SpendUtxo { outpoint, block_height: height, txid } => i
                        == 0 && outpoint == old_outpoint && height == block_height && txid
                        == tx.txid,
                    ParticipantStepView::Unwatch { outpoint } => i == 1 && outpoint
                        == old_outpoint,
                    ParticipantStepView::InsertUtxo { participant } => {
                        &&& i == 2
                        &&& participant.offer_id == entry.offer_id
                        &&& participant.participant_type == entry.participant_type
                        &&& participant.script_pubkey == tx.output[at].script_pubkey
                        &&& participant.txid == tx.txid
                        &&& participant.vout == (at as u32) as i32
                        &&& participant.created_at_height == block_height as i64
                        &&& participant.spent_txid is None
                        &&& participant.spent_at_height is None
                    },
                    ParticipantStepView::Watch { outpoint, entry: watched } => {
                        &&& i == 3
                        &&& outpoint.txid == tx.txid
                        &&& outpoint.vout == at as u32
                        &&& watched.offer_id == entry.offer_id
                        &&& watched.participant_type == entry.participant_type
                    },
                }
        }),
{
    assert forall|j: int| 0 <= j <= at implies (shows_asset(
        #[trigger] tx.output[j],
        asset_id,
    ) <==> holds_asset(tx.output[j], asset_id)) by {
        lemma_shown_asset_is_held(tx.output[j], asset_id);
    }
    assert(is_first_holder(tx.output, asset_id, at));
    let i = choose|i: int| is_first_holder(tx.output, asset_id, i);
    assert(i == at);
    law_stored_outpoint_round_trip(OutPoint { txid: tx.txid, vout: at as u32 });
}

/// A spent token whose asset no output shows is burned: the spent output is recorded as
/// spent and unwatched, and that is all. So it is where the stored id has not the length
/// of an asset id.
pub proof fn law_token_that_no_output_shows_is_burned(
    old_outpoint: OutPoint,
    entry: ParticipantWatchEntry,
    tx: TransactionView,
    asset_id: Seq<u8>,
    block_height: u64,
)
    requires
        forall|j: int| 0 <= j < tx.output.len() ==> !shows_asset(#[trigger] tx.output[j], asset_id),
    ensures
        ({
            let steps = token_spend_steps(old_outpoint, entry, tx, asset_id, block_height);
            &&& steps.len() == 2
            &&& steps[0] == (ParticipantStepView::SpendUtxo {
                outpoint: old_outpoint,
                block_height,
                txid: tx.txid,
            })
            &&& steps[1] == (ParticipantStepView::Unwatch { outpoint: old_outpoint })
        }),
{
    assert forall|i: int| !is_first_holder(tx.output, asset_id, i) by {
        if 0 <= i < tx.output.len() {
            lemma_shown_asset_is_held(tx.output[i], asset_id);
        }
    }
}

/// A new token is recorded as unspent, at the output, under the script and at the height at
/// which it is created, and then watched there for its side of its offer.
pub proof fn law_new_token_is_recorded_then_watched(
    offer_id: i64,
    participant_type: ParticipantType,
    txid: Txid,
    vout: u32,
    script_pubkey: Seq<u8>,
    block_height: u64,
)
    ensures
        ({
            let record = new_participant(
                offer_id,
                participant_type,
                txid,
                vout,
                script_pubkey,
                block_height,
            );
            let steps = participant_watch_steps(record);
            &&& record.offer_id == offer_id
            &&& record.participant_type == participant_type
            &&& record.script_pubkey == script_pubkey
            &&& record.txid == txid
            &&& record.vout == vout as i32
            &&& record.created_at_height == block_height as i64
            &&& record.spent_txid is None
            &&& record.spent_at_height is None
            &&& steps.len() == 2
            &&& steps[0] == (ParticipantStepView::InsertUtxo { participant: record })
            &&& steps[1] matches ParticipantStepView::Watch { outpoint, entry } && outpoint.txid
                == txid && outpoint.vout == vout && entry.offer_id == offer_id
                && entry.participant_type == participant_type
        }),
{
    law_stored_outpoint_round_trip(OutPoint { txid, vout });
}

/// Whether a record tells to watch an output.
pub open spec fn tells_to_watch_token(record: OfferParticipantView, outpoint: OutPoint) -> bool {
    record.spent_txid is None && record.txid == outpoint.txid && record.vout as u32
        == outpoint.vout
}

/// Where some record of an output is not spent, a restart watches the output, for the
/// side and the offer that the last such record says.
pub proof fn law_unspent_tokens_are_watched(
    records: Seq<OfferParticipantView>,
    outpoint: OutPoint,
    i: int,
)
    requires
        0 <= i < records.len(),
        tells_to_watch_token(records[i], outpoint),
        forall|j: int| i < j < records.len() ==> !tells_to_watch_token(#[trigger] records[j], outpoint),
    ensures
        watched_participants(records).contains_key(outpoint),
        watched_participants(records)[outpoint].offer_id == records[i].offer_id,
        watched_participants(records)[outpoint].participant_type == records[i].participant_type,
    decreases records.len(),
{
    if i < records.len() - 1 {
        let earlier = records.drop_last();
        assert forall|j: int| i < j < earlier.len() implies !tells_to_watch_token(
            #[trigger] earlier[j],
            outpoint,
        ) by {
            assert(earlier[j] == records[j]);
        }
        law_unspent_tokens_are_watched(earlier, outpoint, i);
        assert(!tells_to_watch_token(records[records.len() - 1], outpoint));
    }
}

/// Where no record of an output is unspent, a restart does not watch the output.
pub proof fn law_other_tokens_are_not_watched(records: Seq<OfferParticipantView>, outpoint: OutPoint)
    requires
        forall|j: int| 0 <= j < records.len() ==> !tells_to_watch_token(#[trigger] records[j], outpoint),
    ensures
        !watched_participants(records).contains_key(outpoint),
    decreases records.len(),
{
    if records.len() > 0 {
        let earlier = records.drop_last();
        assert forall|j: int| 0 <= j < earlier.len() implies !tells_to_watch_token(
            #[trigger] earlier[j],
            outpoint,
        ) by {
            assert(earlier[j] == records[j]);
        }
        law_other_tokens_are_not_watched(earlier, outpoint);
        assert(!tells_to_watch_token(records[records.len() - 1], outpoint));
    }
}

/// Steps and records say what their fields hold, one for one and in order.
pub proof fn law_token_steps_and_records_say_what_they_hold(
    steps: Seq<ParticipantStep>,
    records: Seq<OfferParticipantModel>,
    i: int,
)
    ensures
        steps_view(steps).len() == steps.len(),
        records_view(records).len() == records.len(),
        0 <= i < steps.len() ==> match steps[i] {
            ParticipantStep::SpendUtxo { outpoint, block_height, txid } => steps_view(steps)[i]
                == (ParticipantStepView::SpendUtxo { outpoint, block_height, txid }),
            ParticipantStep::Unwatch { outpoint } => steps_view(steps)[i]
                == (ParticipantStepView::Unwatch { outpoint }),
            ParticipantStep::InsertUtxo { participant } => steps_view(steps)[i]
                == (ParticipantStepView::InsertUtxo { participant: participant@ }),
            ParticipantStep::Watch { outpoint, entry } => steps_view(steps)[i]
                == (ParticipantStepView::Watch { outpoint, entry }),
        },
        0 <= i < records.len() ==> {
            let said = records_view(records)[i];
            &&& said.offer_id == records[i].offer_id
            &&& said.participant_type == records[i].participant_type
            &&& said.script_pubkey == records[i].script_pubkey@
            &&& said.txid == records[i].txid
            &&& said.vout == records[i].vout
            &&& said.created_at_height == records[i].created_at_height
            &&& said.spent_txid == records[i].spent_txid
            &&& said.spent_at_height == records[i].spent_at_height
        },
{
}

} // verus!
