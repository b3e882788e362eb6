use lending_indexer::cache::WatchCache;
use lending_indexer::chain::{OutPoint, TxIn, Txid};
use lending_indexer::outpoint_map::OutPointMap;

fn at(first: u8, last: u8, vout: u32) -> OutPoint {
    let mut bytes = [0u8; 32];
    bytes[0] = first;
    bytes[31] = last;
    OutPoint { txid: Txid { bytes }, vout }
}

#[test]
fn map_keeps_outputs_of_one_bucket_apart() {
    let mut map: OutPointMap<u32> = OutPointMap::new();
    map.insert(at(1, 0, 0), 10);
    map.insert(at(1, 0, 1), 11);
    map.insert(at(1, 9, 0), 12);
    map.insert(at(2, 0, 0), 13);
    assert_eq!(map.get(&at(1, 0, 0)), Some(10));
    assert_eq!(map.get(&at(1, 0, 1)), Some(11));
    assert_eq!(map.get(&at(1, 9, 0)), Some(12));
    assert_eq!(map.get(&at(2, 0, 0)), Some(13));
    assert_eq!(map.get(&at(3, 0, 0)), None);

    map.insert(at(1, 0, 1), 20);
    assert_eq!(map.get(&at(1, 0, 1)), Some(20));
    assert_eq!(map.remove(&at(1, 0, 0)), Some(10));
    assert_eq!(map.remove(&at(1, 0, 0)), None);
    assert_eq!(map.get(&at(1, 0, 1)), Some(20));
    assert_eq!(map.remove(&at(2, 0, 0)), Some(13));
    assert_eq!(map.get(&at(2, 0, 0)), None);
    map.insert(at(2, 0, 0), 14);
    assert_eq!(map.get(&at(2, 0, 0)), Some(14));
}

#[test]
fn aborted_block_leaves_no_trace() {
    let mut cache: WatchCache<u32> = WatchCache::new();
    cache.insert(at(1, 0, 0), 1);
    cache.insert(at(2, 0, 0), 2);
    cache.begin_block();
    cache.remove(&at(1, 0, 0));
    cache.insert(at(2, 0, 0), 22);
    cache.insert(at(2, 0, 0), 23);
    cache.insert(at(3, 0, 0), 3);
    cache.remove(&at(3, 0, 0));
    cache.insert(at(4, 0, 0), 4);
    cache.remove(&at(5, 0, 0));
    assert_eq!(cache.get(&at(2, 0, 0)), Some(23));
    cache.abort_block();
    assert_eq!(cache.get(&at(1, 0, 0)), Some(1));
    assert_eq!(cache.get(&at(2, 0, 0)), Some(2));
    assert_eq!(cache.get(&at(3, 0, 0)), None);
    assert_eq!(cache.get(&at(4, 0, 0)), None);
    assert_eq!(cache.get(&at(5, 0, 0)), None);
}

#[test]
fn committed_block_stays() {
    let mut cache: WatchCache<u32> = WatchCache::new();
    cache.begin_block();
    cache.insert(at(1, 0, 0), 1);
    cache.commit_block();
    cache.abort_block();
    assert_eq!(cache.get(&at(1, 0, 0)), Some(1));
}

#[test]
fn abort_goes_back_to_just_before_the_last_opening() {
    let mut cache: WatchCache<u32> = WatchCache::new();
    cache.insert(at(1, 0, 0), 1);
    cache.begin_block();
    cache.insert(at(2, 0, 0), 2);
    cache.begin_block();
    cache.remove(&at(1, 0, 0));
    cache.remove(&at(2, 0, 0));
    cache.abort_block();
    assert_eq!(cache.get(&at(1, 0, 0)), Some(1));
    assert_eq!(cache.get(&at(2, 0, 0)), Some(2));
    cache.abort_block();
    assert_eq!(cache.get(&at(2, 0, 0)), Some(2));
}

#[test]
fn next_watched_input_goes_in_order() {
    let mut cache: WatchCache<u32> = WatchCache::new();
    cache.insert(at(1, 0, 0), 1);
    cache.insert(at(3, 0, 0), 3);
    let input: Vec<TxIn> = (0u8..5).map(|i| TxIn { previous_output: at(i, 0, 0) }).collect();
    assert_eq!(cache.next_watched_input(&input, 0), Some((1, 1)));
    assert_eq!(cache.next_watched_input(&input, 2), Some((3, 3)));
    assert_eq!(cache.next_watched_input(&input, 4), None);
    assert_eq!(cache.next_watched_input(&input, 9), None);
}
