//! The trackers together.

use crate::cache::{
    all_changed, law_aborted_block_leaves_no_trace, law_committed_block_stays, CacheChange,
    CacheView,
};
use crate::factory_creation::FactoryCreationsTracker;
use crate::factory_outputs::{FactoryOutputsTracker, FactoryWatchEntry};
use crate::offer_participants::{OfferParticipantsTracker, ParticipantWatchEntry};
use crate::offers::{OffersTracker, OffersWatchEntry};
use vstd::prelude::*;

verus! {

/// How many outputs a followed factory issues from.
pub const ISSUING_UTXOS_COUNT: u8 = 2;

/// The reissuance flags of a followed factory.
pub const REISSUANCE_FLAGS: u64 = 0;

/// All trackers of the indexer.
pub struct TrackerRegistry {
    pub factories: FactoryOutputsTracker,
    pub factory_auths: FactoryOutputsTracker,
    pub factory_creations: FactoryCreationsTracker,
    pub offers: OffersTracker,
    pub participants: OfferParticipantsTracker,
}

/// What all trackers watch, and which factories are followed.
#[verifier::ext_equal]
pub struct RegistryView {
    pub factories: CacheView<FactoryWatchEntry>,
    pub factory_auths: CacheView<FactoryWatchEntry>,
    pub factory_creations: FactoryCreationsTracker,
    pub offers: CacheView<OffersWatchEntry>,
    pub participants: CacheView<ParticipantWatchEntry>,
}

impl View for TrackerRegistry {
    type V = RegistryView;

    open spec fn view(&self) -> RegistryView {
        RegistryView {
            factories: self.factories@,
            factory_auths: self.factory_auths@,
            factory_creations: self.factory_creations,
            offers: self.offers@,
            participants: self.participants@,
        }
    }
}

/// Changes to what the trackers watch.
pub struct RegistryChanges {
    pub factories: Seq<CacheChange<FactoryWatchEntry>>,
    pub factory_auths: Seq<CacheChange<FactoryWatchEntry>>,
    pub offers: Seq<CacheChange<OffersWatchEntry>>,
    pub participants: Seq<CacheChange<ParticipantWatchEntry>>,
}

impl RegistryView {
    /// The trackers when a block is opened.
    pub open spec fn begun(self) -> RegistryView {
        RegistryView {
            factories: self.factories.begun(),
            factory_auths: self.factory_auths.begun(),
            factory_creations: self.factory_creations,
            offers: self.offers.begun(),
            participants: self.participants.begun(),
        }
    }

    /// The trackers when their block is committed.
    pub open spec fn committed(self) -> RegistryView {
        RegistryView {
            factories: self.factories.committed(),
            factory_auths: self.factory_auths.committed(),
            factory_creations: self.factory_creations,
            offers: self.offers.committed(),
            participants: self.participants.committed(),
        }
    }

    /// The trackers when their block is aborted.
    pub open spec fn aborted(self) -> RegistryView {
        RegistryView {
            factories: self.factories.aborted(),
            factory_auths: self.factory_auths.aborted(),
            factory_creations: self.factory_creations,
            offers: self.offers.aborted(),
            participants: self.participants.aborted(),
        }
    }

    /// The trackers after changes.
    pub open spec fn all_changed(self, changes: RegistryChanges) -> RegistryView {
        RegistryView {
            factories: self.factories.all_changed(changes.factories),
            factory_auths: self.factory_auths.all_changed(changes.factory_auths),
            factory_creations: self.factory_creations,
            offers: self.offers.all_changed(changes.offers),
            participants: self.participants.all_changed(changes.participants),
        }
    }

    /// Whether no tracker has a block open.
    pub open spec fn between_blocks(self) -> bool {
        &&& self.factories.checkpoint is None
        &&& self.factory_auths.checkpoint is None
        &&& self.offers.checkpoint is None
        &&& self.participants.checkpoint is None
    }
}

/// What is done about a transaction next, with what is known by then: the factory,
/// if any, whose issuance the transaction spends, and whether the transaction spends
/// an output of an offer.
#[derive(Clone, Copy, Debug, PartialEq, Eq)]
pub enum TxPhase {
    FactorySpends,
    FactoryAuthSpends { issuance_factory_id: Option<i64> },
    OfferSpends { issuance_factory_id: Option<i64> },
    ParticipantSpends { issuance_factory_id: Option<i64>, offer_spent: bool },
    FactoryCreation { issuance_factory_id: Option<i64>, offer_spent: bool },
    OfferCreation { factory_id: i64 },
    Finished,
}

/// What came of a phase. `issuance_factory_id` is read after the spends of
/// factories, `offer_spent` after those of offers.
#[derive(Clone, Copy, Debug, PartialEq, Eq)]
pub struct PhaseOutcome {
    pub issuance_factory_id: Option<i64>,
    pub offer_spent: bool,
}

/// The phase that follows.
pub open spec fn next_phase(phase: TxPhase, outcome: PhaseOutcome) -> TxPhase {
    match phase {
        TxPhase::FactorySpends => TxPhase::FactoryAuthSpends {
            issuance_factory_id: outcome.issuance_factory_id,
        },
        TxPhase::FactoryAuthSpends { issuance_factory_id } => TxPhase::OfferSpends {
            issuance_factory_id,
        },
        TxPhase::OfferSpends { issuance_factory_id } => TxPhase::ParticipantSpends {
            issuance_factory_id,
            offer_spent: outcome.offer_spent,
        },
        TxPhase::ParticipantSpends { issuance_factory_id, offer_spent } =>
        TxPhase::FactoryCreation { issuance_factory_id, offer_spent },
        TxPhase::FactoryCreation { issuance_factory_id, offer_spent } => match issuance_factory_id {
            Some(factory_id) => if offer_spent {
                TxPhase::Finished
            } else {
                TxPhase::OfferCreation { factory_id }
            },
            None => TxPhase::Finished,
        },
        TxPhase::OfferCreation { .. } | TxPhase::Finished => TxPhase::Finished,
    }
}

/// The phase that a transaction is in after some outcomes.
pub open spec fn phase_after(outcomes: Seq<PhaseOutcome>) -> TxPhase
    decreases outcomes.len(),
{
    if outcomes.len() == 0 {
        TxPhase::FactorySpends
    } else {
        next_phase(phase_after(outcomes.drop_last()), outcomes.last())
    }
}

impl TrackerRegistry {
    /// Whether the trackers are in order.
    pub open spec fn wf(&self) -> bool {
        &&& self.factories.wf()
        &&& self.factory_auths.wf()
        &&& self.offers.wf()
        &&& self.participants.wf()
    }

    /// Puts the loaded trackers together. `asset_registration` tells whether assets
    /// of factories are to be registered.
    pub fn load(
        factories: FactoryOutputsTracker,
        factory_auths: FactoryOutputsTracker,
        offers: OffersTracker,
        participants: OfferParticipantsTracker,
        asset_registration: bool,
    ) -> (r: TrackerRegistry)
        requires
            factories.wf(),
            factory_auths.wf(),
            offers.wf(),
            participants.wf(),
        ensures
            r.wf(),
            r@ == (RegistryView {
                factories: factories@,
                factory_auths: factory_auths@,
                factory_creations: FactoryCreationsTracker {
                    issuing_utxos_count: ISSUING_UTXOS_COUNT,
                    reissuance_flags: REISSUANCE_FLAGS,
                    asset_registration,
                },
                offers: offers@,
                participants: participants@,
            }),
    {
        TrackerRegistry {
            factories,
            factory_auths,
            factory_creations: FactoryCreationsTracker::new(
                ISSUING_UTXOS_COUNT,
                REISSUANCE_FLAGS,
                asset_registration,
            ),
            offers,
            participants,
        }
    }

    /// Opens a block in every tracker.
    pub fn begin_block(&mut self)
        requires
            old(self).wf(),
        ensures
            final(self).wf(),
            final(self)@ == old(self)@.begun(),
    {
        self.factories.begin_block();
        self.factory_auths.begin_block();
        self.offers.begin_block();
        self.participants.begin_block();
    }

    /// Keeps the changes of the open block in every tracker.
    pub fn commit_block(&mut self)
        requires
            old(self).wf(),
        ensures
            final(self).wf(),
            final(self)@ == old(self)@.committed(),
    {
        self.factories.commit_block();
        self.factory_auths.commit_block();
        self.offers.commit_block();
        self.participants.commit_block();
    }

    /// Undoes the changes of the open block in every tracker.
    pub fn abort_block(&mut self)
        requires
            old(self).wf(),
        ensures
            final(self).wf(),
            final(self)@ == old(self)@.aborted(),
    {
        self.factories.abort_block();
        self.factory_auths.abort_block();
        self.offers.abort_block();
        self.participants.abort_block();
    }

    /// The phase that follows one that was carried out for a transaction. The first
    /// is [`TxPhase::FactorySpends`].
    pub fn process_tx(phase: TxPhase, outcome: PhaseOutcome) -> (r: TxPhase)
        ensures
            r == next_phase(phase, outcome),
    {
        match phase {
            TxPhase::FactorySpends => TxPhase::FactoryAuthSpends {
                issuance_factory_id: outcome.issuance_factory_id,
            },
            TxPhase::FactoryAuthSpends { issuance_factory_id } => TxPhase::OfferSpends {
                issuance_factory_id,
            },
            TxPhase::OfferSpends { issuance_factory_id } => TxPhase::ParticipantSpends {
                issuance_factory_id,
                offer_spent: outcome.offer_spent,
            },
            TxPhase::ParticipantSpends {
                issuance_factory_id,
                offer_spent,
            } => TxPhase::FactoryCreation { issuance_factory_id, offer_spent },
            TxPhase::FactoryCreation { issuance_factory_id, offer_spent } => {
                if !offer_spent {
                    if let Some(factory_id) = issuance_factory_id {
                        return TxPhase::OfferCreation { factory_id };
                    }
                }
                TxPhase::Finished
            },
            TxPhase::OfferCreation { .. } | TxPhase::Finished => TxPhase::Finished,
        }
    }
}

/// An aborted block leaves no trace in any tracker: whatever changed while it was open,
/// each watches afterwards what it watched just before the block was opened, no block is
/// open, and the same factories are followed.
pub proof fn law_aborted_block_leaves_no_trace_in_any_tracker(
    registry: RegistryView,
    changes: RegistryChanges,
)
    ensures
        ({
            let after = registry.begun().all_changed(changes).aborted();
            &&& after.factories.entries == registry.factories.entries
            &&& after.factory_auths.entries == registry.factory_auths.entries
            &&& after.offers.entries == registry.offers.entries
            &&& after.participants.entries == registry.participants.entries
            &&& after.factory_creations == registry.factory_creations
            &&& after.between_blocks()
        }),
{
    law_aborted_block_leaves_no_trace(registry.factories, changes.factories);
    law_aborted_block_leaves_no_trace(registry.factory_auths, changes.factory_auths);
    law_aborted_block_leaves_no_trace(registry.offers, changes.offers);
    law_aborted_block_leaves_no_trace(registry.participants, changes.participants);
}

/// Every transaction goes through the spends of factories, of their authorisations,
/// of offers and of participants, and then the creation of factories. The creation
/// of an offer follows exactly where the transaction spends an issuance of a factory
/// and no output of an offer; it is looked for under that factory. Then the
/// transaction is done with.
pub proof fn law_offer_creation_needs_an_issuance_and_no_offer_spend(
    outcomes: Seq<PhaseOutcome>,
)
    requires
        outcomes.len() == 5,
    ensures
        phase_after(outcomes.take(0)) is FactorySpends,
        phase_after(outcomes.take(1)) == (TxPhase::FactoryAuthSpends {
            issuance_factory_id: outcomes[0].issuance_factory_id,
        }),
        phase_after(outcomes.take(2)) == (TxPhase::OfferSpends {
            issuance_factory_id: outcomes[0].issuance_factory_id,
        }),
        phase_after(outcomes.take(3)) == (TxPhase::ParticipantSpends {
            issuance_factory_id: outcomes[0].issuance_factory_id,
            offer_spent: outcomes[2].offer_spent,
        }),
        phase_after(outcomes.take(4)) == (TxPhase::FactoryCreation {
            issuance_factory_id: outcomes[0].issuance_factory_id,
            offer_spent: outcomes[2].offer_spent,
        }),
        phase_after(outcomes) == match outcomes[0].issuance_factory_id {
            Some(factory_id) if !outcomes[2].offer_spent => TxPhase::OfferCreation { factory_id },
            _ => TxPhase::Finished,
        },
        forall|last: PhaseOutcome| #[trigger] phase_after(outcomes.push(last)) is Finished,
{
    reveal_with_fuel(phase_after, 6);
    assert(outcomes.drop_last() =~= outcomes.take(4));
    assert(outcomes.take(4).drop_last() =~= outcomes.take(3));
    assert(outcomes.take(3).drop_last() =~= outcomes.take(2));
    assert(outcomes.take(2).drop_last() =~= outcomes.take(1));
    assert(outcomes.take(1).drop_last() =~= outcomes.take(0));
    assert forall|last: PhaseOutcome| #[trigger] phase_after(outcomes.push(last)) is Finished by {
        assert(outcomes.push(last).drop_last() =~= outcomes);
    }
}

/// A committed block stays in every tracker: each watches afterwards what the changes of
/// the block made of what it watched before, no block is open, a later abort undoes
/// nothing, and the same factories are followed.
pub proof fn law_committed_block_stays_in_every_tracker(
    registry: RegistryView,
    changes: RegistryChanges,
)
    ensures
        ({
            let after = registry.begun().all_changed(changes).committed();
            &&& after.factories.entries == all_changed(
                registry.factories.entries,
                changes.factories,
            )
            &&& after.factory_auths.entries == all_changed(
                registry.factory_auths.entries,
                changes.factory_auths,
            )
            &&& after.offers.entries == all_changed(registry.offers.entries, changes.offers)
            &&& after.participants.entries == all_changed(
                registry.participants.entries,
                changes.participants,
            )
            &&& after.factory_creations == registry.factory_creations
            &&& after.between_blocks()
            &&& after.aborted() == after
        }),
{
    law_committed_block_stays(registry.factories, changes.factories);
    law_committed_block_stays(registry.factory_auths, changes.factory_auths);
    law_committed_block_stays(registry.offers, changes.offers);
    law_committed_block_stays(registry.participants, changes.participants);
}

/// The registry says what its trackers watch, each in its own place.
pub proof fn law_registry_says_what_its_trackers_watch(registry: TrackerRegistry)
    ensures
        registry@.factories == registry.factories@,
        registry@.factory_auths == registry.factory_auths@,
        registry@.factory_creations == registry.factory_creations,
        registry@.offers == registry.offers@,
        registry@.participants == registry.participants@,
{
}

} // verus!
