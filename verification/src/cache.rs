//! A cache of watched outputs whose changes belong to a block.
//!
//! Changes made while a block is open are kept when the block is committed and
//! undone when it is aborted. They are undone from a journal of the values that
//! they replaced.

use crate::chain::{OutPoint, TransactionView, TxIn, Txid};
use crate::outpoint_map::OutPointMap;
use vstd::prelude::*;

verus! {

/// The outputs that a cache watches and, while a block is open, those that it
/// watched when the block was opened.
#[verifier::ext_equal]
#[verifier::reject_recursive_types(V)]
pub struct CacheView<V> {
    pub entries: Map<OutPoint, V>,
    pub checkpoint: Option<Map<OutPoint, V>>,
}

/// A change to the watched outputs.
pub enum CacheChange<V> {
    Insert(OutPoint, V),
    Remove(OutPoint),
}

/// The watched outputs after a change.
pub open spec fn changed<V>(entries: Map<OutPoint, V>, change: CacheChange<V>) -> Map<OutPoint, V> {
    match change {
        CacheChange::Insert(outpoint, value) => entries.insert(outpoint, value),
        CacheChange::Remove(outpoint) => entries.remove(outpoint),
    }
}

/// The watched outputs after a list of changes, the first of them first.
pub open spec fn all_changed<V>(
    entries: Map<OutPoint, V>,
    changes: Seq<CacheChange<V>>,
) -> Map<OutPoint, V>
    decreases changes.len(),
{
    if changes.len() == 0 {
        entries
    } else {
        changed(all_changed(entries, changes.drop_last()), changes.last())
    }
}

impl<V> CacheView<V> {
    /// The cache when a block is opened. Changes of a block that is still open stay.
    pub open spec fn begun(self) -> CacheView<V> {
        CacheView { entries: self.entries, checkpoint: Some(self.entries) }
    }

    /// The cache when its block is committed.
    pub open spec fn committed(self) -> CacheView<V> {
        CacheView { entries: self.entries, checkpoint: None }
    }

    /// The cache when its block is aborted.
    pub open spec fn aborted(self) -> CacheView<V> {
        CacheView {
            entries: match self.checkpoint {
                Some(entries) => entries,
                None => self.entries,
            },
            checkpoint: None,
        }
    }

    /// The cache after a change.
    pub open spec fn changed(self, change: CacheChange<V>) -> CacheView<V> {
        CacheView { entries: changed(self.entries, change), ..self }
    }

    /// The cache after a list of changes.
    pub open spec fn all_changed(self, changes: Seq<CacheChange<V>>) -> CacheView<V>
        decreases changes.len(),
    {
        if changes.len() == 0 {
            self
        } else {
            self.all_changed(changes.drop_last()).changed(changes.last())
        }
    }
}

/// Whether an input is the first, from an index on, that spends a watched output.
pub open spec fn is_next_watched<V>(
    entries: Map<OutPoint, V>,
    input: Seq<TxIn>,
    from: int,
    i: int,
) -> bool {
    &&& from <= i < input.len()
    &&& entries.contains_key(input[i].previous_output)
    &&& forall|j: int|
        from <= j < i ==> !entries.contains_key(#[trigger] input[j].previous_output)
}

/// Whether a transaction spends no output twice and none of its own, as every
/// transaction of a chain does.
pub open spec fn spends_distinct_earlier_outputs(tx: TransactionView) -> bool {
    &&& forall|j: int, k: int|
        #![trigger tx.input[j], tx.input[k]]
        0 <= j < k < tx.input.len() ==> tx.input[j].previous_output
            != tx.input[k].previous_output
    &&& forall|j: int|
        0 <= j < tx.input.len() ==> (#[trigger] tx.input[j]).previous_output.txid != tx.txid
}

/// Whether the watched outputs changed at most in the output that a transaction
/// spent and in the transaction's own outputs.
pub open spec fn changed_only_by<V>(
    before: Map<OutPoint, V>,
    after: Map<OutPoint, V>,
    spent: OutPoint,
    txid: Txid,
) -> bool {
    forall|other: OutPoint|
        #![trigger after.contains_key(other)]
        #![trigger before.contains_key(other)]
        other != spent && other.txid != txid ==> {
            &&& after.contains_key(other) <==> before.contains_key(other)
            &&& before.contains_key(other) ==> after[other] == before[other]
        }
}

/// Whether the watched outputs changed at most in the outputs that a transaction spends
/// and in the transaction's own outputs.
pub open spec fn changed_only_by_transaction<V>(
    before: Map<OutPoint, V>,
    after: Map<OutPoint, V>,
    tx: TransactionView,
) -> bool {
    forall|other: OutPoint|
        #![trigger after.contains_key(other)]
        #![trigger before.contains_key(other)]
        other.txid != tx.txid && !spends(tx, other) ==> {
            &&& after.contains_key(other) <==> before.contains_key(other)
            &&& before.contains_key(other) ==> after[other] == before[other]
        }
}

/// Whether a transaction spends an output.
pub open spec fn spends(tx: TransactionView, outpoint: OutPoint) -> bool {
    exists|i: int|
        0 <= i < tx.input.len() && (#[trigger] tx.input[i]).previous_output == outpoint
}

/// The inputs of a transaction that are handled, from an index on, when `handle`
/// gives what is watched after an input was handled: each input in turn whose
/// output is watched when its turn comes.
pub open spec fn handled_inputs<V>(
    entries: Map<OutPoint, V>,
    input: Seq<TxIn>,
    from: int,
    handle: spec_fn(Map<OutPoint, V>, int) -> Map<OutPoint, V>,
) -> Set<int>
    decreases input.len() - from,
{
    if from < 0 || from >= input.len() {
        Set::empty()
    } else if entries.contains_key(input[from].previous_output) {
        handled_inputs(handle(entries, from), input, from + 1, handle).insert(from)
    } else {
        handled_inputs(entries, input, from + 1, handle)
    }
}

/// Watched outputs with the entries kept for them.
#[verifier::reject_recursive_types(V)]
pub struct WatchCache<V> {
    entries: OutPointMap<V>,
    journal: Option<Vec<(OutPoint, Option<V>)>>,
}

/// The outputs watched before the change that a journal record undoes.
spec fn restored<V>(entries: Map<OutPoint, V>, record: (OutPoint, Option<V>)) -> Map<OutPoint, V> {
    match record.1 {
        Some(value) => entries.insert(record.0, value),
        None => entries.remove(record.0),
    }
}

/// The outputs watched before the changes that a journal undoes, the last of
/// them first.
spec fn rewound<V>(entries: Map<OutPoint, V>, journal: Seq<(OutPoint, Option<V>)>) -> Map<
    OutPoint,
    V,
>
    decreases journal.len(),
{
    if journal.len() == 0 {
        entries
    } else {
        rewound(restored(entries, journal.last()), journal.drop_last())
    }
}

/// What an output was mapped to, as a journal records it.
spec fn value_at<V>(entries: Map<OutPoint, V>, outpoint: OutPoint) -> Option<V> {
    if entries.contains_key(outpoint) {
        Some(entries[outpoint])
    } else {
        None
    }
}

/// A change with its record rewinds to where it started.
proof fn lemma_journal_push<V>(
    entries: Map<OutPoint, V>,
    journal: Seq<(OutPoint, Option<V>)>,
    change: CacheChange<V>,
)
    ensures
        ({
            let outpoint = match change {
                CacheChange::Insert(outpoint, _) => outpoint,
                CacheChange::Remove(outpoint) => outpoint,
            };
            rewound(
                changed(entries, change),
                journal.push((outpoint, value_at(entries, outpoint))),
            ) == rewound(entries, journal)
        }),
{
    let outpoint = match change {
        CacheChange::Insert(outpoint, _) => outpoint,
        CacheChange::Remove(outpoint) => outpoint,
    };
    let record = (outpoint, value_at(entries, outpoint));
    assert(journal.push(record).drop_last() =~= journal);
    assert(restored(changed(entries, change), record) =~= entries);
}

impl<V> View for WatchCache<V> {
    type V = CacheView<V>;

    closed spec fn view(&self) -> CacheView<V> {
        CacheView {
            entries: self.entries@,
            checkpoint: match self.journal {
                Some(journal) => Some(rewound(self.entries@, journal@)),
                None => None,
            },
        }
    }
}

impl<V: Copy> WatchCache<V> {
    /// Whether the cache is in order.
    pub closed spec fn wf(&self) -> bool {
        self.entries.wf()
    }

    /// A cache that watches nothing, with no block open.
    pub fn new() -> (r: Self)
        ensures
            r.wf(),
            r@ == (CacheView::<V> { entries: Map::empty(), checkpoint: None }),
    {
        WatchCache { entries: OutPointMap::new(), journal: None }
    }

    /// The entry of a watched output.
    pub fn get(&self, outpoint: &OutPoint) -> (r: Option<V>)
        requires
            self.wf(),
        ensures
            r == if self@.entries.contains_key(*outpoint) {
                Some(self@.entries[*outpoint])
            } else {
                None
            },
    {
        self.entries.get(outpoint)
    }

    /// Watches an output.
    pub fn insert(&mut self, outpoint: OutPoint, value: V)
        requires
            old(self).wf(),
        ensures
            final(self).wf(),
            final(self)@ == old(self)@.changed(CacheChange::Insert(outpoint, value)),
    {
        let before = self.entries.get(&outpoint);
        self.entries.insert(outpoint, value);
        if let Some(journal) = &mut self.journal {
            proof {
                lemma_journal_push(old(self).entries@, journal@, CacheChange::Insert(outpoint, value));
            }
            journal.push((outpoint, before));
        }
    }

    /// Stops watching an output.
    pub fn remove(&mut self, outpoint: &OutPoint)
        requires
            old(self).wf(),
        ensures
            final(self).wf(),
            final(self)@ == old(self)@.changed(CacheChange::Remove(*outpoint)),
    {
        let before = self.entries.remove(outpoint);
        if let Some(journal) = &mut self.journal {
            proof {
                lemma_journal_push(old(self).entries@, journal@, CacheChange::Remove(*outpoint));
            }
            journal.push((*outpoint, before));
        }
    }

    /// Finds the first input, from an index on, that spends a watched output.
    pub fn next_watched_input(&self, input: &Vec<TxIn>, from: usize) -> (r: Option<(usize, V)>)
        requires
            self.wf(),
        ensures
            match r {
                Some((i, value)) => {
                    &&& is_next_watched(self@.entries, input@, from as int, i as int)
                    &&& value == self@.entries[input@[i as int].previous_output]
                },
                None => forall|i: int| !is_next_watched(self@.entries, input@, from as int, i),
            },
    {
        let mut i: usize = from;
        while i < input.len()
            invariant
                self.wf(),
                from <= i,
                forall|j: int|
                    from <= j < i && j < input@.len() ==> !self@.entries.contains_key(
                        #[trigger] input@[j].previous_output,
                    ),
            decreases input.len() - i,
        {
            if let Some(value) = self.get(&input[i].previous_output) {
                return Some((i, value));
            }
            i = i + 1;
        }
        None
    }

    /// Opens a block. Changes of a block that is still open stay.
    pub fn begin_block(&mut self)
        requires
            old(self).wf(),
        ensures
            final(self).wf(),
            final(self)@ == old(self)@.begun(),
    {
        self.journal = Some(Vec::new());
    }

    /// Keeps the changes of the open block.
    pub fn commit_block(&mut self)
        requires
            old(self).wf(),
        ensures
            final(self).wf(),
            final(self)@ == old(self)@.committed(),
    {
        self.journal = None;
    }

    /// Undoes the changes of the open block.
    pub fn abort_block(&mut self)
        requires
            old(self).wf(),
        ensures
            final(self).wf(),
            final(self)@ == old(self)@.aborted(),
    {
        if let Some(mut journal) = self.journal.take() {
            while journal.len() > 0
                invariant
                    self.entries.wf(),
                    self.journal is None,
                    rewound(self.entries@, journal@) == old(self)@.aborted().entries,
                decreases journal.len(),
            {
                let ghost records = journal@;
                if let Some((outpoint, before)) = journal.pop() {
                    assert(records.drop_last() =~= journal@);
                    match before {
                        Some(value) => self.entries.insert(outpoint, value),
                        None => {
                            self.entries.remove(&outpoint);
                        },
                    }
                }
            }
        }
    }
}

/// A cache keeps what it watched before a block through every change of the block.
proof fn lemma_changes_keep_checkpoint<V>(cache: CacheView<V>, changes: Seq<CacheChange<V>>)
    ensures
        cache.all_changed(changes).checkpoint == cache.checkpoint,
        cache.all_changed(changes).entries == all_changed(cache.entries, changes),
    decreases changes.len(),
{
    if changes.len() > 0 {
        lemma_changes_keep_checkpoint(cache, changes.drop_last());
    }
}

/// An aborted block leaves no trace: whatever changed while it was open, the cache
/// watches afterwards what it watched just before the block was opened, and no block is
/// open.
pub proof fn law_aborted_block_leaves_no_trace<V>(
    cache: CacheView<V>,
    changes: Seq<CacheChange<V>>,
)
    ensures
        cache.begun().all_changed(changes).aborted() == (CacheView {
            entries: cache.entries,
            checkpoint: None,
        }),
{
    lemma_changes_keep_checkpoint(cache.begun(), changes);
}

/// A committed block keeps all its changes, and no later abort undoes them.
pub proof fn law_committed_block_stays<V>(cache: CacheView<V>, changes: Seq<CacheChange<V>>)
    ensures
        ({
            let after = cache.begun().all_changed(changes).committed();
            &&& after.entries == all_changed(cache.entries, changes)
            &&& after.aborted() == after
        }),
{
    lemma_changes_keep_checkpoint(cache.begun(), changes);
}

/// Opening a block while another is open keeps what the open one changed: it is as if
/// that one had been committed first.
pub proof fn law_reopening_commits_the_open_block<V>(cache: CacheView<V>)
    ensures
        cache.begun() == cache.committed().begun(),
{
}

/// Where an input spends a watched output, there is a first one that does.
pub proof fn law_some_input_is_next<V>(
    entries: Map<OutPoint, V>,
    input: Seq<TxIn>,
    from: int,
    i: int,
)
    requires
        from <= i < input.len(),
        entries.contains_key(input[i].previous_output),
    ensures
        exists|k: int| is_next_watched(entries, input, from, k),
        forall|k: int| #[trigger] is_next_watched(entries, input, from, k) ==> k <= i,
    decreases i - from,
{
    if !is_next_watched(entries, input, from, i) {
        let j = choose|j: int|
            from <= j < i && entries.contains_key(#[trigger] input[j].previous_output);
        law_some_input_is_next(entries, input, from, j);
    }
    assert forall|k: int| #[trigger] is_next_watched(entries, input, from, k) implies k <= i by {
        assert(entries.contains_key(input[i].previous_output));
    }
}

/// Going from one next watched input to the next handles exactly the handled
/// inputs.
pub proof fn law_scan_goes_through_the_handled_inputs<V>(
    entries: Map<OutPoint, V>,
    input: Seq<TxIn>,
    from: int,
    handle: spec_fn(Map<OutPoint, V>, int) -> Map<OutPoint, V>,
)
    requires
        0 <= from,
    ensures
        forall|i: int| #[trigger]
            is_next_watched(entries, input, from, i) ==> handled_inputs(
                entries,
                input,
                from,
                handle,
            ) == handled_inputs(handle(entries, i), input, i + 1, handle).insert(i),
        (forall|i: int| !is_next_watched(entries, input, from, i)) ==> handled_inputs(
            entries,
            input,
            from,
            handle,
        ) == Set::<int>::empty(),
    decreases input.len() - from,
{
    if from < input.len() {
        if entries.contains_key(input[from].previous_output) {
            assert(is_next_watched(entries, input, from, from));
            assert forall|i: int| #[trigger]
                is_next_watched(entries, input, from, i) implies i == from by {
                assert(entries.contains_key(input[from].previous_output));
            }
        } else {
            law_scan_goes_through_the_handled_inputs(entries, input, from + 1, handle);
            assert forall|i: int|
                #![trigger is_next_watched(entries, input, from, i)]
                #![trigger is_next_watched(entries, input, from + 1, i)]
                is_next_watched(entries, input, from, i) <==> is_next_watched(
                    entries,
                    input,
                    from + 1,
                    i,
                ) by {}
        }
    }
}

/// Handling one input takes no other input out of its turn: of a transaction that
/// spends no output twice and none of its own, exactly the inputs are handled whose
/// outputs were watched to begin with.
pub proof fn law_exactly_the_watched_inputs_are_handled<V>(
    entries: Map<OutPoint, V>,
    tx: TransactionView,
    from: int,
    handle: spec_fn(Map<OutPoint, V>, int) -> Map<OutPoint, V>,
    i: int,
)
    requires
        0 <= from,
        spends_distinct_earlier_outputs(tx),
        forall|before: Map<OutPoint, V>, j: int|
            0 <= j < tx.input.len() ==> changed_only_by(
                before,
                #[trigger] handle(before, j),
                tx.input[j].previous_output,
                tx.txid,
            ),
    ensures
        handled_inputs(entries, tx.input, from, handle).contains(i) <==> from <= i < tx.input.len()
            && entries.contains_key(tx.input[i].previous_output),
    decreases tx.input.len() - from,
{
    if from < tx.input.len() {
        if entries.contains_key(tx.input[from].previous_output) {
            let after = handle(entries, from);
            law_exactly_the_watched_inputs_are_handled(after, tx, from + 1, handle, i);
            if from < i < tx.input.len() {
                let other = tx.input[i].previous_output;
                assert(other != tx.input[from].previous_output && other.txid != tx.txid);
                assert(after.contains_key(other) <==> entries.contains_key(other));
            }
        } else {
            law_exactly_the_watched_inputs_are_handled(entries, tx, from + 1, handle, i);
        }
    }
}

/// A change concerns its own output only: an output that is inserted is watched with the
/// new entry, one that is removed is not watched, every other output keeps its entry, and
/// what an abort would go back to stays.
pub proof fn law_change_concerns_its_own_output<V>(
    cache: CacheView<V>,
    outpoint: OutPoint,
    value: V,
    other: OutPoint,
)
    ensures
        ({
            let inserted = cache.changed(CacheChange::Insert(outpoint, value));
            let removed = cache.changed(CacheChange::Remove(outpoint));
            &&& inserted.entries.contains_key(outpoint)
            &&& inserted.entries[outpoint] == value
            &&& !removed.entries.contains_key(outpoint)
            &&& inserted.checkpoint == cache.checkpoint
            &&& removed.checkpoint == cache.checkpoint
            &&& other != outpoint ==> {
                &&& inserted.entries.contains_key(other) <==> cache.entries.contains_key(other)
                &&& removed.entries.contains_key(other) <==> cache.entries.contains_key(other)
                &&& cache.entries.contains_key(other) ==> inserted.entries[other]
                    == cache.entries[other] && removed.entries[other] == cache.entries[other]
            }
        }),
{
}

/// Opening a block and committing one change nothing that is watched; with no block open,
/// neither does an abort; and after a commit or an abort no block is open.
pub proof fn law_block_marks_do_not_change_what_is_watched<V>(cache: CacheView<V>)
    ensures
        cache.begun().entries == cache.entries,
        cache.begun().checkpoint == Some(cache.entries),
        cache.committed().entries == cache.entries,
        cache.committed().checkpoint is None,
        cache.aborted().checkpoint is None,
        cache.checkpoint is None ==> cache.aborted().entries == cache.entries,
        cache.checkpoint matches Some(entries) ==> cache.aborted().entries == entries,
{
}

/// An input is the next to be handled exactly where it spends a watched output and none
/// before it, from where the scan stands, does.
pub proof fn law_next_input_is_the_first_watched<V>(
    entries: Map<OutPoint, V>,
    input: Seq<TxIn>,
    from: int,
    i: int,
)
    ensures
        is_next_watched(entries, input, from, i) ==> from <= i < input.len()
            && entries.contains_key(input[i].previous_output),
        from <= i < input.len() && entries.contains_key(input[i].previous_output) ==> exists|k: int|
            from <= k <= i && #[trigger] is_next_watched(entries, input, from, k),
        forall|k: int| #[trigger]
            is_next_watched(entries, input, from, k) && from <= i < k ==> !entries.contains_key(
                input[i].previous_output,
            ),
{
    if from <= i < input.len() && entries.contains_key(input[i].previous_output) {
        law_some_input_is_next(entries, input, from, i);
        let k = choose|k: int| is_next_watched(entries, input, from, k);
        assert(is_next_watched(entries, input, from, k));
    }
    assert forall|k: int| #[trigger]
        is_next_watched(entries, input, from, k) && from <= i < k implies !entries.contains_key(
        input[i].previous_output,
    ) by {}
}

} // verus!
