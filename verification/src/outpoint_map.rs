//! A map keyed by transaction outputs.
//!
//! Entries are spread over buckets by the first bytes of the transaction id,
//! which are as good as random.

use crate::chain::OutPoint;
use std::collections::HashMap;
use vstd::prelude::*;

verus! {

broadcast use vstd::std_specs::hash::group_hash_axioms;

/// The bucket that an output belongs to.
pub open spec fn bucket_of(outpoint: OutPoint) -> u64 {
    (outpoint.txid.bytes@[0] + outpoint.txid.bytes@[1] * 0x100 + outpoint.txid.bytes@[2] * 0x1_0000
        + outpoint.txid.bytes@[3] * 0x100_0000) as u64
}

fn bucket_number(outpoint: &OutPoint) -> (r: u64)
    ensures
        r == bucket_of(*outpoint),
{
    let bytes = &outpoint.txid.bytes;
    bytes[0] as u64 + bytes[1] as u64 * 0x100 + bytes[2] as u64 * 0x1_0000 + bytes[3] as u64
        * 0x100_0000
}

/// A map from transaction outputs to values.
#[verifier::reject_recursive_types(V)]
pub struct OutPointMap<V> {
    buckets: HashMap<u64, Vec<(OutPoint, V)>>,
    contents: Ghost<Map<OutPoint, V>>,
}

/// Whether a bucket holds exactly the entries of a map that belong to it, each once.
spec fn bucket_holds<V>(bucket: Seq<(OutPoint, V)>, number: u64, contents: Map<OutPoint, V>) -> bool {
    &&& forall|i: int|
        #![trigger bucket[i]]
        0 <= i < bucket.len() ==> {
            &&& bucket_of(bucket[i].0) == number
            &&& contents.contains_key(bucket[i].0)
            &&& contents[bucket[i].0] == bucket[i].1
        }
    &&& forall|i: int, j: int|
        #![trigger bucket[i], bucket[j]]
        0 <= i < j < bucket.len() ==> bucket[i].0 != bucket[j].0
    &&& forall|k: OutPoint| #[trigger]
        contents.contains_key(k) && bucket_of(k) == number ==> exists|i: int|
            0 <= i < bucket.len() && (#[trigger] bucket[i]).0 == k
}

impl<V: Copy> OutPointMap<V> {
    /// Whether the buckets hold the map's contents.
    pub closed spec fn wf(&self) -> bool {
        &&& forall|b: u64| #[trigger]
            self.buckets@.contains_key(b) ==> bucket_holds(
                self.buckets@[b]@,
                b,
                self.contents@,
            )
        &&& forall|k: OutPoint| #[trigger]
            self.contents@.contains_key(k) ==> self.buckets@.contains_key(bucket_of(k))
    }
}

impl<V> View for OutPointMap<V> {
    type V = Map<OutPoint, V>;

    closed spec fn view(&self) -> Map<OutPoint, V> {
        self.contents@
    }
}

/// A bucket keeps its entries when an output that belongs elsewhere comes or goes.
proof fn lemma_other_bucket<V>(
    bucket: Seq<(OutPoint, V)>,
    number: u64,
    contents: Map<OutPoint, V>,
    outpoint: OutPoint,
    value: V,
)
    requires
        bucket_holds(bucket, number, contents),
        bucket_of(outpoint) != number,
    ensures
        bucket_holds(bucket, number, contents.remove(outpoint)),
        bucket_holds(bucket, number, contents.insert(outpoint, value)),
{
    assert forall|k: OutPoint| #[trigger]
        contents.remove(outpoint).contains_key(k) && bucket_of(k) == number implies exists|i: int|
        0 <= i < bucket.len() && (#[trigger] bucket[i]).0 == k by {
        assert(contents.contains_key(k));
    }
    assert forall|k: OutPoint| #[trigger]
        contents.insert(outpoint, value).contains_key(k) && bucket_of(k) == number implies exists|
        i: int,
    |
        0 <= i < bucket.len() && (#[trigger] bucket[i]).0 == k by {
        assert(contents.contains_key(k));
    }
}

/// Taking an output's entry out of its bucket takes it out of the map.
proof fn lemma_bucket_remove<V>(
    bucket: Seq<(OutPoint, V)>,
    number: u64,
    contents: Map<OutPoint, V>,
    at: int,
)
    requires
        bucket_holds(bucket, number, contents),
        0 <= at < bucket.len(),
    ensures
        bucket_holds(bucket.remove(at), number, contents.remove(bucket[at].0)),
{
    let after = bucket.remove(at);
    let rest = contents.remove(bucket[at].0);
    assert forall|i: int|
        #![trigger after[i]]
        0 <= i < after.len() implies after[i] == bucket[if i < at {
        i
    } else {
        i + 1
    }] by {}
    assert forall|k: OutPoint| #[trigger] rest.contains_key(k) && bucket_of(k) == number implies exists|
        i: int,
    |
        0 <= i < after.len() && (#[trigger] after[i]).0 == k by {
        assert(contents.contains_key(k));
        let i = choose|i: int| 0 <= i < bucket.len() && (#[trigger] bucket[i]).0 == k;
        assert(after[if i < at {
            i
        } else {
            i - 1
        }] == bucket[i]);
    }
}

/// Adding an entry for an output that is not in the map adds it to the map.
proof fn lemma_bucket_push<V>(
    bucket: Seq<(OutPoint, V)>,
    contents: Map<OutPoint, V>,
    outpoint: OutPoint,
    value: V,
)
    requires
        bucket_holds(bucket, bucket_of(outpoint), contents),
        !contents.contains_key(outpoint),
    ensures
        bucket_holds(
            bucket.push((outpoint, value)),
            bucket_of(outpoint),
            contents.insert(outpoint, value),
        ),
{
    let after = bucket.push((outpoint, value));
    assert forall|k: OutPoint| #[trigger]
        contents.insert(outpoint, value).contains_key(k) && bucket_of(k) == bucket_of(
            outpoint,
        ) implies exists|i: int| 0 <= i < after.len() && (#[trigger] after[i]).0 == k by {
        if k == outpoint {
            assert(after[bucket.len() as int].0 == k);
        } else {
            assert(contents.contains_key(k));
            let i = choose|i: int| 0 <= i < bucket.len() && (#[trigger] bucket[i]).0 == k;
            assert(after[i] == bucket[i]);
        }
    }
}

/// Finds an output in a bucket.
fn position<V>(bucket: &Vec<(OutPoint, V)>, outpoint: &OutPoint) -> (r: Option<usize>)
    ensures
        match r {
            Some(i) => i < bucket.len() && bucket[i as int].0 == *outpoint,
            None => forall|i: int| 0 <= i < bucket.len() ==> (#[trigger] bucket[i]).0 != *outpoint,
        },
{
    let mut i: usize = 0;
    while i < bucket.len()
        invariant
            i <= bucket.len(),
            forall|j: int| 0 <= j < i ==> (#[trigger] bucket[j]).0 != *outpoint,
        decreases bucket.len() - i,
    {
        if bucket[i].0 == *outpoint {
            return Some(i);
        }
        i = i + 1;
    }
    None
}

impl<V: Copy> OutPointMap<V> {
    /// An empty map.
    pub fn new() -> (r: Self)
        ensures
            r.wf(),
            r@ == Map::<OutPoint, V>::empty(),
    {
        OutPointMap { buckets: HashMap::new(), contents: Ghost(Map::empty()) }
    }

    /// The value at an output.
    pub fn get(&self, outpoint: &OutPoint) -> (r: Option<V>)
        requires
            self.wf(),
        ensures
            r == if self@.contains_key(*outpoint) {
                Some(self@[*outpoint])
            } else {
                None
            },
    {
        let number = bucket_number(outpoint);
        match self.buckets.get(&number) {
            Some(bucket) => {
                assert(self.buckets@.contains_key(number));
                match position(bucket, outpoint) {
                    Some(i) => Some(bucket[i].1),
                    None => None,
                }
            },
            None => None,
        }
    }

    /// Takes the value at an output out of the map.
    pub fn remove(&mut self, outpoint: &OutPoint) -> (r: Option<V>)
        requires
            old(self).wf(),
        ensures
            final(self).wf(),
            final(self)@ == old(self)@.remove(*outpoint),
            r == if old(self)@.contains_key(*outpoint) {
                Some(old(self)@[*outpoint])
            } else {
                None
            },
    {
        let number = bucket_number(outpoint);
        match self.buckets.remove(&number) {
            Some(mut bucket) => {
                assert(old(self).buckets@.contains_key(number));
                let found = match position(&bucket, outpoint) {
                    Some(i) => {
                        proof {
                            lemma_bucket_remove(bucket@, number, self.contents@, i as int);
                        }
                        Some(bucket.remove(i).1)
                    },
                    None => {
                        assert(self.contents@.remove(*outpoint) =~= self.contents@);
                        None
                    },
                };
                let ghost kept = bucket@;
                if bucket.len() > 0 {
                    self.buckets.insert(number, bucket);
                }
                proof {
                    let contents = self.contents@;
                    self.contents@ = contents.remove(*outpoint);
                    assert(bucket_holds(kept, number, self.contents@));
                    assert forall|b: u64| #[trigger]
                        self.buckets@.contains_key(b) implies bucket_holds(
                        self.buckets@[b]@,
                        b,
                        self.contents@,
                    ) by {
                        if b != number {
                            assert(old(self).buckets@.contains_key(b));
                            lemma_other_bucket(
                                self.buckets@[b]@,
                                b,
                                contents,
                                *outpoint,
                                arbitrary(),
                            );
                        }
                    }
                    assert forall|k: OutPoint| #[trigger]
                        self.contents@.contains_key(k) implies self.buckets@.contains_key(
                        bucket_of(k),
                    ) by {
                        assert(contents.contains_key(k));
                    }
                }
                found
            },
            None => {
                assert(self.buckets@ =~= old(self).buckets@);
                assert(self.contents@.remove(*outpoint) =~= self.contents@);
                None
            },
        }
    }

    /// Puts a value at an output, in place of the one that was there.
    pub fn insert(&mut self, outpoint: OutPoint, value: V)
        requires
            old(self).wf(),
        ensures
            final(self).wf(),
            final(self)@ == old(self)@.insert(outpoint, value),
    {
        self.remove(&outpoint);
        let ghost buckets = self.buckets@;
        let number = bucket_number(&outpoint);
        let mut bucket = match self.buckets.remove(&number) {
            Some(bucket) => bucket,
            None => Vec::new(),
        };
        proof {
            assert(bucket_holds(bucket@, number, self.contents@));
            lemma_bucket_push(bucket@, self.contents@, outpoint, value);
        }
        bucket.push((outpoint, value));
        self.buckets.insert(number, bucket);
        proof {
            let contents = self.contents@;
            self.contents@ = contents.insert(outpoint, value);
            assert(self.contents@ =~= old(self).contents@.insert(outpoint, value));
            assert forall|b: u64| #[trigger] self.buckets@.contains_key(b) implies bucket_holds(
                self.buckets@[b]@,
                b,
                self.contents@,
            ) by {
                if b != number {
                    assert(buckets.contains_key(b));
                    lemma_other_bucket(self.buckets@[b]@, b, contents, outpoint, value);
                }
            }
            assert forall|k: OutPoint| #[trigger]
                self.contents@.contains_key(k) implies self.buckets@.contains_key(bucket_of(k)) by {
                if k != outpoint {
                    assert(contents.contains_key(k));
                }
            }
        }
    }
}

} // verus!
