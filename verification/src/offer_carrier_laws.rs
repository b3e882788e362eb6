//! At any time at most one watched output carries an offer.

use crate::chain::{OutPoint, TransactionView, Txid};
use crate::models::{OfferModel, UtxoType};
use crate::offer_laws::{
    ends_offer, entries_after, law_accepted_offer_is_watched, law_new_offer_is_watched,
    law_other_active_spends_only_unwatch, law_other_spends_only_unwatch,
    law_partially_repaid_offer_is_watched, law_repaid_and_liquidated_offers_end_cleanly,
};
use crate::offers::{
    active_spend_plan, cancellation_plan, cancels_offer, spend_action, watch_steps,
    ActiveOfferSpendKind, OfferSpendActionView, OffersWatchEntry,
};
use vstd::prelude::*;

verus! {

/// Whether a watched output carries an offer, pending or active.
pub open spec fn carries_offer(entry: OffersWatchEntry) -> bool {
    entry.utxo_type == UtxoType::PendingOffer || entry.utxo_type == UtxoType::ActiveOffer
}

/// Whether no watched output carries an offer.
pub open spec fn no_carrier(entries: Map<OutPoint, OffersWatchEntry>, offer_id: i64) -> bool {
    forall|a: OutPoint| #[trigger]
        entries.contains_key(a) && carries_offer(entries[a]) ==> entries[a].offer_id != offer_id
}

/// Whether no two watched outputs carry the same offer.
pub open spec fn one_carrier_per_offer(entries: Map<OutPoint, OffersWatchEntry>) -> bool {
    forall|a: OutPoint, b: OutPoint|
        #![trigger entries.contains_key(a), entries.contains_key(b)]
        entries.contains_key(a) && entries.contains_key(b) && carries_offer(entries[a])
            && carries_offer(entries[b]) && entries[a].offer_id == entries[b].offer_id ==> a == b
}

/// Once the output that carries an offer is unwatched, none carries it.
proof fn lemma_carrier_removed(entries: Map<OutPoint, OffersWatchEntry>, carrier: OutPoint)
    requires
        one_carrier_per_offer(entries),
    ensures
        one_carrier_per_offer(entries.remove(carrier)),
        entries.contains_key(carrier) && carries_offer(entries[carrier]) ==> no_carrier(
            entries.remove(carrier),
            entries[carrier].offer_id,
        ),
{
    let after = entries.remove(carrier);
    assert forall|a: OutPoint, b: OutPoint|
        #![trigger after.contains_key(a), after.contains_key(b)]
        after.contains_key(a) && after.contains_key(b) && carries_offer(after[a])
            && carries_offer(after[b]) && after[a].offer_id == after[b].offer_id implies a == b by {
        assert(entries.contains_key(a) && entries.contains_key(b));
    }
    if entries.contains_key(carrier) && carries_offer(entries[carrier]) {
        let offer_id = entries[carrier].offer_id;
        assert forall|a: OutPoint| #[trigger]
            after.contains_key(a) && carries_offer(after[a]) implies after[a].offer_id
            != offer_id by {
            assert(entries.contains_key(a) && entries.contains_key(carrier));
        }
    }
}

/// An offer that no output carries can be given one.
proof fn lemma_carrier_added(
    entries: Map<OutPoint, OffersWatchEntry>,
    outpoint: OutPoint,
    entry: OffersWatchEntry,
)
    requires
        one_carrier_per_offer(entries),
        carries_offer(entry) ==> no_carrier(entries, entry.offer_id),
    ensures
        one_carrier_per_offer(entries.insert(outpoint, entry)),
{
    let after = entries.insert(outpoint, entry);
    assert forall|a: OutPoint, b: OutPoint|
        #![trigger after.contains_key(a), after.contains_key(b)]
        after.contains_key(a) && after.contains_key(b) && carries_offer(after[a])
            && carries_offer(after[b]) && after[a].offer_id == after[b].offer_id implies a == b by {
        assert(a != outpoint ==> entries.contains_key(a));
        assert(b != outpoint ==> entries.contains_key(b));
    }
}

/// A new offer is carried by one output only.
pub proof fn law_seeding_keeps_one_carrier(
    entries: Map<OutPoint, OffersWatchEntry>,
    offer_id: i64,
    txid: Txid,
    vout: u32,
    block_height: u64,
)
    requires
        one_carrier_per_offer(entries),
        no_carrier(entries, offer_id),
    ensures
        one_carrier_per_offer(
            entries_after(
                entries,
                watch_steps(offer_id, txid, vout, UtxoType::PendingOffer, block_height),
            ),
        ),
{
    law_new_offer_is_watched(entries, offer_id, txid, vout, block_height);
    lemma_carrier_added(
        entries,
        OutPoint { txid, vout },
        OffersWatchEntry { offer_id, utxo_type: UtxoType::PendingOffer },
    );
}

/// Spending a pending offer or the principal keeps at most one output to an offer.
pub proof fn law_spending_keeps_one_carrier(
    entries: Map<OutPoint, OffersWatchEntry>,
    old_outpoint: OutPoint,
    tx: TransactionView,
    block_height: u64,
)
    requires
        one_carrier_per_offer(entries),
        entries.contains_key(old_outpoint),
    ensures
        spend_action(
            old_outpoint,
            entries[old_outpoint],
            tx,
            block_height,
        ) matches OfferSpendActionView::Run { plan } ==> one_carrier_per_offer(
            entries_after(entries, plan.steps),
        ),
{
    let entry = entries[old_outpoint];
    lemma_carrier_removed(entries, old_outpoint);
    if entry.utxo_type == UtxoType::PendingOffer && !cancels_offer(tx) {
        law_accepted_offer_is_watched(
            entries,
            old_outpoint,
            entry.offer_id,
            tx.txid,
            block_height,
        );
        let removed = entries.remove(old_outpoint);
        let active = OutPoint { txid: tx.txid, vout: 0 };
        let carrier = OffersWatchEntry {
            offer_id: entry.offer_id,
            utxo_type: UtxoType::ActiveOffer,
        };
        lemma_carrier_added(removed, active, carrier);
        lemma_carrier_added(
            removed.insert(active, carrier),
            OutPoint { txid: tx.txid, vout: 1 },
            OffersWatchEntry {
                offer_id: entry.offer_id,
                utxo_type: UtxoType::BorrowerPrincipal,
            },
        );
    } else {
        law_other_spends_only_unwatch(entries, old_outpoint, entry, tx, block_height);
    }
}

/// Spending an active offer keeps at most one output to an offer, also where its plan
/// ends in an error.
pub proof fn law_active_spending_keeps_one_carrier(
    entries: Map<OutPoint, OffersWatchEntry>,
    old_outpoint: OutPoint,
    tx: TransactionView,
    offer: OfferModel,
    kind: ActiveOfferSpendKind,
    is_first_repayment: bool,
    block_height: u64,
)
    requires
        one_carrier_per_offer(entries),
        entries.contains_key(old_outpoint),
        entries[old_outpoint].utxo_type == UtxoType::ActiveOffer,
    ensures
        one_carrier_per_offer(
            entries_after(
                entries,
                active_spend_plan(
                    old_outpoint,
                    entries[old_outpoint].offer_id,
                    tx,
                    offer,
                    kind,
                    is_first_repayment,
                    block_height,
                ).steps,
            ),
        ),
{
    let offer_id = entries[old_outpoint].offer_id;
    lemma_carrier_removed(entries, old_outpoint);
    law_other_active_spends_only_unwatch(
        entries,
        old_outpoint,
        offer_id,
        tx,
        offer,
        kind,
        is_first_repayment,
        block_height,
    );
    law_partially_repaid_offer_is_watched(
        entries,
        old_outpoint,
        offer_id,
        tx,
        offer,
        kind,
        is_first_repayment,
        block_height,
    );
    if kind is PartialRepayment {
        let vout = kind->PartialRepayment_scan.continuing_offer_vout;
        if vout is Some {
            lemma_carrier_added(
                entries.remove(old_outpoint),
                OutPoint { txid: tx.txid, vout: vout->0 },
                OffersWatchEntry { offer_id, utxo_type: UtxoType::ActiveOffer },
            );
        }
    }
}

/// A cancelled offer is carried by no output.
pub proof fn law_cancelled_offer_has_no_carrier(
    entries: Map<OutPoint, OffersWatchEntry>,
    old_outpoint: OutPoint,
    tx: TransactionView,
    block_height: u64,
)
    requires
        one_carrier_per_offer(entries),
        entries.contains_key(old_outpoint),
        entries[old_outpoint].utxo_type == UtxoType::PendingOffer,
        cancels_offer(tx),
    ensures
        no_carrier(
            entries_after(
                entries,
                cancellation_plan(
                    old_outpoint,
                    entries[old_outpoint].offer_id,
                    tx.txid,
                    block_height,
                ).steps,
            ),
            entries[old_outpoint].offer_id,
        ),
{
    let entry = entries[old_outpoint];
    lemma_carrier_removed(entries, old_outpoint);
    law_other_spends_only_unwatch(entries, old_outpoint, entry, tx, block_height);
}

/// An offer that a spend of its active output ends is carried by no output.
pub proof fn law_ended_offer_has_no_carrier(
    entries: Map<OutPoint, OffersWatchEntry>,
    old_outpoint: OutPoint,
    tx: TransactionView,
    offer: OfferModel,
    kind: ActiveOfferSpendKind,
    is_first_repayment: bool,
    block_height: u64,
)
    requires
        one_carrier_per_offer(entries),
        entries.contains_key(old_outpoint),
        entries[old_outpoint].utxo_type == UtxoType::ActiveOffer,
    ensures
        ({
            let offer_id = entries[old_outpoint].offer_id;
            let steps = active_spend_plan(
                old_outpoint,
                offer_id,
                tx,
                offer,
                kind,
                is_first_repayment,
                block_height,
            ).steps;
            (exists|i: int| 0 <= i < steps.len() && ends_offer(#[trigger] steps[i]))
                ==> no_carrier(entries_after(entries, steps), offer_id)
        }),
{
    let offer_id = entries[old_outpoint].offer_id;
    lemma_carrier_removed(entries, old_outpoint);
    law_repaid_and_liquidated_offers_end_cleanly(
        old_outpoint,
        offer_id,
        tx,
        offer,
        kind,
        is_first_repayment,
        block_height,
    );
    law_other_active_spends_only_unwatch(
        entries,
        old_outpoint,
        offer_id,
        tx,
        offer,
        kind,
        is_first_repayment,
        block_height,
    );
}

} // verus!
