//! Tracking of the tokens that stand for the two sides of an offer.
//!
//! Whoever holds a participant token is that side of the offer. The tracker
//! follows each token from output to output until it is burned.

use crate::cache::{is_next_watched, CacheView, WatchCache};
use crate::chain::{
    bytes_equal, copy_bytes, op_return, OutPoint, Transaction, TransactionView, TxOutView, Txid,
};
use crate::models::{
    outpoint_of_stored, stored_outpoint, OfferParticipantModel, OfferParticipantView,
    ParticipantType,
};
use vstd::prelude::*;

verus! {

/// The entry of a watched participant token.
#[derive(Clone, Copy, Debug, PartialEq, Eq, Structural)]
pub struct ParticipantWatchEntry {
    pub offer_id: i64,
    pub participant_type: ParticipantType,
}

/// The output at which a participant token is created.
#[derive(Clone, Debug, PartialEq)]
pub struct ParticipantCreationUtxo {
    pub txid: Txid,
    pub vout: u32,
    pub script_pubkey: Vec<u8>,
}

/// One step on the records of participant tokens or on the watch cache.
#[derive(Debug, PartialEq)]
pub enum ParticipantStep {
    /// Record that an output was spent.
    SpendUtxo { outpoint: OutPoint, block_height: u64, txid: Txid },
    /// Stop watching an output.
    Unwatch { outpoint: OutPoint },
    /// Add the record of an output.
    InsertUtxo { participant: OfferParticipantModel },
    /// Watch an output.
    Watch { outpoint: OutPoint, entry: ParticipantWatchEntry },
}

/// What a [`ParticipantStep`] says.
#[verifier::ext_equal]
pub enum ParticipantStepView {
    SpendUtxo { outpoint: OutPoint, block_height: u64, txid: Txid },
    Unwatch { outpoint: OutPoint },
    InsertUtxo { participant: OfferParticipantView },
    Watch { outpoint: OutPoint, entry: ParticipantWatchEntry },
}

impl View for ParticipantStep {
    type V = ParticipantStepView;

    open spec fn view(&self) -> ParticipantStepView {
        match self {
            ParticipantStep::SpendUtxo { outpoint, block_height, txid } =>
            ParticipantStepView::SpendUtxo {
                outpoint: *outpoint,
                block_height: *block_height,
                txid: *txid,
            },
            ParticipantStep::Unwatch { outpoint } => ParticipantStepView::Unwatch {
                outpoint: *outpoint,
            },
            ParticipantStep::InsertUtxo { participant } => ParticipantStepView::InsertUtxo {
                participant: participant@,
            },
            ParticipantStep::Watch { outpoint, entry } => ParticipantStepView::Watch {
                outpoint: *outpoint,
                entry: *entry,
            },
        }
    }
}

/// The views of a list of steps, in order.
pub open spec fn steps_view(steps: Seq<ParticipantStep>) -> Seq<ParticipantStepView> {
    Seq::new(steps.len(), |i: int| steps[i]@)
}

/// What to do next about a transaction.
#[derive(Debug, PartialEq)]
pub enum ParticipantSpendAction {
    /// Look up the token's asset, plan with [`OfferParticipantsTracker::on_spend`],
    /// carry the plan out, then go on.
    LookUpAsset { outpoint: OutPoint, offer_id: i64, participant_type: ParticipantType },
    /// Nothing is left to do.
    Finished,
}

/// The record of a token at an output.
pub open spec fn new_participant(
    offer_id: i64,
    participant_type: ParticipantType,
    txid: Txid,
    vout: u32,
    script_pubkey: Seq<u8>,
    block_height: u64,
) -> OfferParticipantView {
    OfferParticipantView {
        offer_id,
        participant_type,
        script_pubkey,
        txid,
        vout: vout as i32,
        created_at_height: block_height as i64,
        spent_txid: None,
        spent_at_height: None,
    }
}

/// Steps that record a token at an output and watch the output.
pub open spec fn participant_watch_steps(participant: OfferParticipantView) -> Seq<
    ParticipantStepView,
> {
    seq![
        ParticipantStepView::InsertUtxo { participant },
        ParticipantStepView::Watch {
            outpoint: stored_outpoint(participant.txid, participant.vout),
            entry: ParticipantWatchEntry {
                offer_id: participant.offer_id,
                participant_type: participant.participant_type,
            },
        },
    ]
}

/// Steps that record and unwatch an output that a transaction spent.
pub open spec fn participant_spend_steps(
    outpoint: OutPoint,
    txid: Txid,
    block_height: u64,
) -> Seq<ParticipantStepView> {
    seq![
        ParticipantStepView::SpendUtxo { outpoint, block_height, txid },
        ParticipantStepView::Unwatch { outpoint },
    ]
}

/// Whether an output holds an asset, in the open.
pub open spec fn holds_asset(output: TxOutView, asset_id: Seq<u8>) -> bool {
    output.asset matches Some(asset) && asset.bytes@ == asset_id
}

/// Whether an output is the first of a transaction to hold an asset.
pub open spec fn is_first_holder(output: Seq<TxOutView>, asset_id: Seq<u8>, i: int) -> bool {
    &&& 0 <= i < output.len()
    &&& holds_asset(output[i], asset_id)
    &&& forall|j: int| 0 <= j < i ==> !holds_asset(#[trigger] output[j], asset_id)
}

/// Where a token goes: the output at which it can be watched on, or `None` where
/// it is not among the outputs or is sent to an `OP_RETURN`.
pub open spec fn token_destination(output: Seq<TxOutView>, asset_id: Seq<u8>) -> Option<int> {
    if exists|i: int| is_first_holder(output, asset_id, i) {
        let i = choose|i: int| is_first_holder(output, asset_id, i);
        if op_return(output[i].script_pubkey) {
            None
        } else {
            Some(i)
        }
    } else {
        None
    }
}

/// What follows from a transaction spending the output that holds a token.
pub open spec fn token_spend_steps(
    old_outpoint: OutPoint,
    entry: ParticipantWatchEntry,
    tx: TransactionView,
    asset_id: Seq<u8>,
    block_height: u64,
) -> Seq<ParticipantStepView> {
    participant_spend_steps(old_outpoint, tx.txid, block_height) + match token_destination(
        tx.output,
        asset_id,
    ) {
        Some(i) => participant_watch_steps(
            new_participant(
                entry.offer_id,
                entry.participant_type,
                tx.txid,
                i as u32,
                tx.output[i].script_pubkey,
                block_height,
            ),
        ),
        None => seq![],
    }
}

/// The outputs watched after a step.
pub open spec fn participants_after_step(
    entries: Map<OutPoint, ParticipantWatchEntry>,
    step: ParticipantStepView,
) -> Map<OutPoint, ParticipantWatchEntry> {
    match step {
        ParticipantStepView::Watch { outpoint, entry } => entries.insert(outpoint, entry),
        ParticipantStepView::Unwatch { outpoint } => entries.remove(outpoint),
        _ => entries,
    }
}

/// The views of a list of records, in order.
pub open spec fn records_view(records: Seq<OfferParticipantModel>) -> Seq<OfferParticipantView> {
    Seq::new(records.len(), |i: int| records[i]@)
}

/// The outputs to watch, given the records of participant tokens: those that are
/// not spent. Where two records are of one output, the later counts.
pub open spec fn watched_participants(records: Seq<OfferParticipantView>) -> Map<
    OutPoint,
    ParticipantWatchEntry,
>
    decreases records.len(),
{
    if records.len() == 0 {
        Map::empty()
    } else {
        let earlier = watched_participants(records.drop_last());
        let record = records.last();
        if record.spent_txid is Some {
            earlier
        } else {
            earlier.insert(
                stored_outpoint(record.txid, record.vout),
                ParticipantWatchEntry {
                    offer_id: record.offer_id,
                    participant_type: record.participant_type,
                },
            )
        }
    }
}

/// Watches the outputs that hold participant tokens.
pub struct OfferParticipantsTracker {
    cache: WatchCache<ParticipantWatchEntry>,
}

impl View for OfferParticipantsTracker {
    type V = CacheView<ParticipantWatchEntry>;

    closed spec fn view(&self) -> CacheView<ParticipantWatchEntry> {
        self.cache@
    }
}

impl OfferParticipantsTracker {
    /// Whether the tracker is in order.
    pub closed spec fn wf(&self) -> bool {
        self.cache.wf()
    }

    /// Starts tracking from stored records.
    pub fn load(records: &Vec<OfferParticipantModel>) -> (r: OfferParticipantsTracker)
        ensures
            r.wf(),
            r@.entries == watched_participants(records_view(records@)),
            r@.checkpoint is None,
    {
        let ghost all = records_view(records@);
        let mut cache: WatchCache<ParticipantWatchEntry> = WatchCache::new();
        let mut i: usize = 0;
        while i < records.len()
            invariant
                i <= records.len(),
                all == records_view(records@),
                cache.wf(),
                cache@.entries == watched_participants(all.take(i as int)),
                cache@.checkpoint is None,
            decreases records.len() - i,
        {
            let record = &records[i];
            assert(all.take(i + 1).drop_last() =~= all.take(i as int));
            assert(all.take(i + 1).last() == record@);
            if record.spent_txid.is_none() {
                cache.insert(
                    outpoint_of_stored(record.txid, record.vout),
                    ParticipantWatchEntry {
                        offer_id: record.offer_id,
                        participant_type: record.participant_type,
                    },
                );
            }
            i = i + 1;
        }
        assert(all.take(i as int) =~= all);
        OfferParticipantsTracker { cache }
    }

    /// The entry of a watched output.
    pub fn watched(&self, outpoint: &OutPoint) -> (r: Option<ParticipantWatchEntry>)
        requires
            self.wf(),
        ensures
            r == if self@.entries.contains_key(*outpoint) {
                Some(self@.entries[*outpoint])
            } else {
                None
            },
    {
        self.cache.get(outpoint)
    }

    /// Finds the next input of a transaction, from `next_input` on, that spends a
    /// watched output.
    pub fn process_tx_spends(&self, tx: &Transaction, next_input: &mut usize) -> (r:
        ParticipantSpendAction)
        requires
            self.wf(),
        ensures
            forall|i: int| #[trigger]
                is_next_watched(self@.entries, tx@.input, *old(next_input) as int, i) ==> {
                    let outpoint = tx@.input[i].previous_output;
                    &&& *final(next_input) == i + 1
                    &&& r == (ParticipantSpendAction::LookUpAsset {
                        outpoint,
                        offer_id: self@.entries[outpoint].offer_id,
                        participant_type: self@.entries[outpoint].participant_type,
                    })
                },
            (forall|i: int|
                !is_next_watched(self@.entries, tx@.input, *old(next_input) as int, i)) ==> {
                &&& *final(next_input) == *old(next_input)
                &&& r == ParticipantSpendAction::Finished
            },
    {
        match self.cache.next_watched_input(&tx.input, *next_input) {
            Some((i, entry)) => {
                assert(i < tx.input.len());
                *next_input = i + 1;
                ParticipantSpendAction::LookUpAsset {
                    outpoint: tx.input[i].previous_output,
                    offer_id: entry.offer_id,
                    participant_type: entry.participant_type,
                }
            },
            None => ParticipantSpendAction::Finished,
        }
    }

    /// Opens a block.
    pub fn begin_block(&mut self)
        requires
            old(self).wf(),
        ensures
            final(self).wf(),
            final(self)@ == old(self)@.begun(),
    {
        self.cache.begin_block();
    }

    /// Keeps the changes of the open block.
    pub fn commit_block(&mut self)
        requires
            old(self).wf(),
        ensures
            final(self).wf(),
            final(self)@ == old(self)@.committed(),
    {
        self.cache.commit_block();
    }

    /// Undoes the changes of the open block.
    pub fn abort_block(&mut self)
        requires
            old(self).wf(),
        ensures
            final(self).wf(),
            final(self)@ == old(self)@.aborted(),
    {
        self.cache.abort_block();
    }

    /// Carries out the part of a step that concerns the watch cache.
    pub fn apply(&mut self, step: &ParticipantStep)
        requires
            old(self).wf(),
        ensures
            final(self).wf(),
            final(self)@ == (CacheView {
                entries: participants_after_step(old(self)@.entries, step@),
                ..old(self)@
            }),
    {
        match step {
            ParticipantStep::Watch { outpoint, entry } => self.cache.insert(*outpoint, *entry),
            ParticipantStep::Unwatch { outpoint } => self.cache.remove(outpoint),
            _ => {},
        }
    }

    /// What follows from the creation of a token at an output.
    pub fn seed_creation_participant_utxo(
        offer_id: i64,
        participant_type: ParticipantType,
        utxo: ParticipantCreationUtxo,
        block_height: u64,
    ) -> (r: Vec<ParticipantStep>)
        ensures
            steps_view(r@) == participant_watch_steps(
                new_participant(
                    offer_id,
                    participant_type,
                    utxo.txid,
                    utxo.vout,
                    utxo.script_pubkey@,
                    block_height,
                ),
            ),
    {
        let participant = OfferParticipantsTracker::new_participant_model(
            offer_id,
            participant_type,
            utxo.txid,
            utxo.vout,
            utxo.script_pubkey.as_slice(),
            block_height,
        );
        let mut steps: Vec<ParticipantStep> = Vec::new();
        OfferParticipantsTracker::insert_participant_utxo_tracked(&mut steps, participant);
        steps
    }

    /// What follows from a transaction spending the output that holds a token whose
    /// asset is `target_asset_id`.
    pub fn on_spend(
        tx: &Transaction,
        old_outpoint: &OutPoint,
        offer_id: i64,
        participant_type: ParticipantType,
        target_asset_id: &[u8],
        block_height: u64,
    ) -> (r: Vec<ParticipantStep>)
        ensures
            steps_view(r@) == token_spend_steps(
                *old_outpoint,
                ParticipantWatchEntry { offer_id, participant_type },
                tx@,
                target_asset_id@,
                block_height,
            ),
    {
        let mut steps: Vec<ParticipantStep> = Vec::new();
        steps.push(
            ParticipantStep::SpendUtxo { outpoint: *old_outpoint, block_height, txid: tx.txid },
        );
        steps.push(ParticipantStep::Unwatch { outpoint: *old_outpoint });
        assert(steps_view(steps@) =~= participant_spend_steps(
            *old_outpoint,
            tx.txid,
            block_height,
        ));
        if let Some(i) = OfferParticipantsTracker::find_token(tx, target_asset_id) {
            let output = &tx.output[i];
            assert(tx@.output[i as int] == output@);
            // A token that is sent to an `OP_RETURN` is burned.
            if !output.is_op_return() {
                let participant = OfferParticipantsTracker::new_participant_model(
                    offer_id,
                    participant_type,
                    tx.txid,
                    #[verifier::truncate]
                    (i as u32),
                    output.script_pubkey.as_slice(),
                    block_height,
                );
                OfferParticipantsTracker::insert_participant_utxo_tracked(&mut steps, participant);
            }
        }
        steps
    }

    /// Finds the first output that holds an asset.
    fn find_token(tx: &Transaction, asset_id: &[u8]) -> (r: Option<usize>)
        ensures
            match r {
                Some(i) => is_first_holder(tx@.output, asset_id@, i as int) && i < tx.output.len()
                    && token_destination(tx@.output, asset_id@) == if op_return(
                    tx@.output[i as int].script_pubkey,
                ) {
                    None
                } else {
                    Some(i as int)
                },
                None => token_destination(tx@.output, asset_id@) is None,
            },
    {
        let mut i: usize = 0;
        while i < tx.output.len()
            invariant
                i <= tx.output.len(),
                forall|j: int| 0 <= j < i ==> !holds_asset(#[trigger] tx@.output[j], asset_id@),
            decreases tx.output.len() - i,
        {
            assert(tx@.output[i as int] == tx.output[i as int]@);
            if let Some(asset) = tx.output[i].asset {
                if bytes_equal(asset.bytes.as_slice(), asset_id) {
                    proof {
                        assert(is_first_holder(tx@.output, asset_id@, i as int));
                        let k = choose|k: int| is_first_holder(tx@.output, asset_id@, k);
                        assert(k == i);
                    }
                    return Some(i);
                }
            }
            i = i + 1;
        }
        None
    }

    /// The record of a token at an output.
    pub fn new_participant_model(
        offer_id: i64,
        participant_type: ParticipantType,
        txid: Txid,
        vout: u32,
        script_pubkey: &[u8],
        block_height: u64,
    ) -> (r: OfferParticipantModel)
        ensures
            r@ == new_participant(
                offer_id,
                participant_type,
                txid,
                vout,
                script_pubkey@,
                block_height,
            ),
    {
        OfferParticipantModel {
            offer_id,
            participant_type,
            script_pubkey: copy_bytes(script_pubkey),
            txid,
            vout: #[verifier::truncate]
            (vout as i32),
            created_at_height: #[verifier::truncate]
            (block_height as i64),
            spent_txid: None,
            spent_at_height: None,
        }
    }

    /// Adds the steps that record a token at an output and watch the output.
    fn insert_participant_utxo_tracked(
        steps: &mut Vec<ParticipantStep>,
        participant: OfferParticipantModel,
    )
        ensures
            steps_view(final(steps)@) == steps_view(old(steps)@) + participant_watch_steps(
                participant@,
            ),
    {
        let outpoint = outpoint_of_stored(participant.txid, participant.vout);
        let entry = ParticipantWatchEntry {
            offer_id: participant.offer_id,
            participant_type: participant.participant_type,
        };
        steps.push(ParticipantStep::InsertUtxo { participant });
        steps.push(ParticipantStep::Watch { outpoint, entry });
        assert(steps_view(steps@) =~= steps_view(old(steps)@) + participant_watch_steps(
            participant@,
        ));
    }
}

} // verus!
