//! Watching the outputs of issuance factories.

use crate::cache::{CacheChange, CacheView, WatchCache};
use crate::chain::OutPoint;
use vstd::prelude::*;

verus! {

/// The entry of a watched output of a factory.
#[derive(Clone, Copy, Debug, PartialEq, Eq, Structural)]
pub struct FactoryWatchEntry {
    pub factory_id: i64,
}

/// Watches one output of each factory, such as its program or its authorisation.
pub struct FactoryOutputsTracker {
    cache: WatchCache<FactoryWatchEntry>,
}

impl View for FactoryOutputsTracker {
    type V = CacheView<FactoryWatchEntry>;

    closed spec fn view(&self) -> CacheView<FactoryWatchEntry> {
        self.cache@
    }
}

impl FactoryOutputsTracker {
    /// Whether the tracker is in order.
    pub closed spec fn wf(&self) -> bool {
        self.cache.wf()
    }

    /// A tracker that watches nothing, with no block open.
    pub fn new() -> (r: FactoryOutputsTracker)
        ensures
            r.wf(),
            r@ == (CacheView::<FactoryWatchEntry> { entries: Map::empty(), checkpoint: None }),
    {
        FactoryOutputsTracker { cache: WatchCache::new() }
    }

    /// The entry of a watched output.
    pub fn watched(&self, outpoint: &OutPoint) -> (r: Option<FactoryWatchEntry>)
        requires
            self.wf(),
        ensures
            r == if self@.entries.contains_key(*outpoint) {
                Some(self@.entries[*outpoint])
            } else {
                None
            },
    {
        self.cache.get(outpoint)
    }

    /// Watches an output of a factory.
    pub fn watch(&mut self, outpoint: OutPoint, entry: FactoryWatchEntry)
        requires
            old(self).wf(),
        ensures
            final(self).wf(),
            final(self)@ == old(self)@.changed(CacheChange::Insert(outpoint, entry)),
    {
        self.cache.insert(outpoint, entry);
    }

    /// Stops watching an output.
    pub fn unwatch(&mut self, outpoint: &OutPoint)
        requires
            old(self).wf(),
        ensures
            final(self).wf(),
            final(self)@ == old(self)@.changed(CacheChange::Remove(*outpoint)),
    {
        self.cache.remove(outpoint);
    }

    /// Opens a block.
    pub fn begin_block(&mut self)
        requires
            old(self).wf(),
        ensures
            final(self).wf(),
            final(self)@ == old(self)@.begun(),
    {
        self.cache.begin_block();
    }

    /// Keeps the changes of the open block.
    pub fn commit_block(&mut self)
        requires
            old(self).wf(),
        ensures
            final(self).wf(),
            final(self)@ == old(self)@.committed(),
    {
        self.cache.commit_block();
    }

    /// Undoes the changes of the open block.
    pub fn abort_block(&mut self)
        requires
            old(self).wf(),
        ensures
            final(self).wf(),
            final(self)@ == old(self)@.aborted(),
    {
        self.cache.abort_block();
    }
}

} // verus!
