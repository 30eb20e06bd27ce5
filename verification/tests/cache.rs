use tweetboat::cache::{CacheEntry, InsertToken, OrderedCache, ReplyCache, SeenCache};

fn filled(cache: &mut ReplyCache, key: u64, value: u64) -> InsertToken {
    let token = cache.file_pending(key).unwrap();
    cache.insert(token, value);
    token
}

fn keys(cache: &ReplyCache, upto: u64) -> Vec<u64> {
    (0..=upto).filter(|key| cache.get_entry(*key).is_some()).collect()
}

#[test]
fn cache() {
    let mut cache = ReplyCache::with_capacity(4);

    // Out of order insertion (2 then 1)
    let token = cache.file_pending(2).unwrap();
    assert_eq!(cache.get_entry(2), Some(CacheEntry::Pending));

    cache.insert(token, 12);
    assert_eq!(cache.get_entry(2), Some(CacheEntry::Filled(12)));

    let token = cache.file_pending(1).unwrap();
    assert_eq!(cache.get_entry(1), Some(CacheEntry::Pending));

    cache.insert(token, 11);
    assert_eq!(cache.get_entry(1), Some(CacheEntry::Filled(11)));

    // Quick succession: 2 messages come in before the 1st can be replied
    // to, and they are out of order
    let token_4 = cache.file_pending(4).unwrap(); // idx: 2
    let token_3 = cache.file_pending(3).unwrap(); // idx: 3

    // Insert them back in order
    cache.insert(token_3, 13);
    cache.insert(token_4, 14);

    assert_eq!(cache.get_entry(3), Some(CacheEntry::Filled(13)));
    assert_eq!(cache.get_entry(4), Some(CacheEntry::Filled(14)));

    assert_eq!(cache.len(), 4);

    let token = cache.file_pending(5).unwrap();
    cache.insert(token, 15);

    // Hit capacity, evicted
    assert_eq!(cache.len(), 4);
    assert_eq!(cache.get_entry(5), Some(CacheEntry::Filled(15)));
}

#[test]
fn three_keys_out_of_order_end_up_sorted() {
    let mut cache = ReplyCache::with_capacity(3);
    let t2 = cache.file_pending(2).unwrap();
    cache.insert(t2, 12);
    let t1 = cache.file_pending(1).unwrap();
    cache.insert(t1, 11);
    let t3 = cache.file_pending(3).unwrap();
    cache.insert(t3, 13);
    assert_eq!((t2.idx(), t1.idx(), t3.idx()), (0, 0, 2));
    assert_eq!(cache.len(), 3);
    assert_eq!(cache.get_entry(1), Some(CacheEntry::Filled(11)));
    assert_eq!(cache.get_entry(2), Some(CacheEntry::Filled(12)));
    assert_eq!(cache.get_entry(3), Some(CacheEntry::Filled(13)));
}

#[test]
fn fourth_key_evicts_the_smallest() {
    let mut cache = ReplyCache::with_capacity(3);
    filled(&mut cache, 2, 12);
    filled(&mut cache, 1, 11);
    filled(&mut cache, 3, 13);
    let t4 = cache.file_pending(4).unwrap();
    cache.insert(t4, 14);
    assert_eq!(cache.get_entry(1), None);
    assert_eq!(cache.get_entry(4), Some(CacheEntry::Filled(14)));
    assert_eq!(cache.get_entry(2), Some(CacheEntry::Filled(12)));
    assert_eq!(cache.get_entry(3), Some(CacheEntry::Filled(13)));
    assert_eq!(cache.len(), 3);
}

#[test]
fn stale_place_in_token_falls_back_to_search() {
    let mut cache = ReplyCache::with_capacity(4);
    filled(&mut cache, 1, 11);
    filled(&mut cache, 2, 12);
    let ta = cache.file_pending(4).unwrap();
    assert_eq!(ta.idx(), 2);
    let tb = cache.file_pending(3).unwrap();
    assert_eq!(tb.idx(), 2);
    cache.insert(tb, 13);
    cache.insert(ta, 14);
    assert_eq!(cache.get_entry(3), Some(CacheEntry::Filled(13)));
    assert_eq!(cache.get_entry(4), Some(CacheEntry::Filled(14)));
    assert_eq!(cache.get_entry(2), Some(CacheEntry::Filled(12)));
    assert_eq!(cache.get_entry(1), Some(CacheEntry::Filled(11)));
}

#[test]
fn stale_place_in_token_with_three_places() {
    let mut cache = ReplyCache::with_capacity(3);
    let ta = cache.file_pending(4).unwrap();
    let tb = cache.file_pending(3).unwrap();
    assert_eq!((ta.idx(), tb.idx()), (0, 0));
    cache.insert(tb, 13);
    assert_eq!(cache.get_entry(4), Some(CacheEntry::Pending));
    cache.insert(ta, 14);
    assert_eq!(cache.get_entry(3), Some(CacheEntry::Filled(13)));
    assert_eq!(cache.get_entry(4), Some(CacheEntry::Filled(14)));
    assert_eq!(cache.len(), 2);
}

#[test]
fn eviction_moves_the_place_of_a_later_key() {
    let mut cache = ReplyCache::with_capacity(3);
    filled(&mut cache, 1, 11);
    filled(&mut cache, 2, 12);
    let ta = cache.file_pending(4).unwrap();
    assert_eq!(ta.idx(), 2);
    let tb = cache.file_pending(3).unwrap();
    assert_eq!(tb.idx(), 1);
    cache.insert(tb, 13);
    cache.insert(ta, 14);
    assert_eq!(cache.get_entry(1), None);
    assert_eq!(cache.get_entry(3), Some(CacheEntry::Filled(13)));
    assert_eq!(cache.get_entry(4), Some(CacheEntry::Filled(14)));
}

#[test]
fn second_reservation_of_a_key_is_refused() {
    let mut cache = ReplyCache::with_capacity(3);
    let ts = cache.file_pending(5).unwrap();
    assert_eq!(ts.source(), 5);
    assert_eq!(cache.file_pending(5), None);
    assert_eq!(cache.len(), 1);
    assert_eq!(cache.get_entry(5), Some(CacheEntry::Pending));
    cache.insert(ts, 50);
    assert_eq!(cache.file_pending(5), None);
    assert_eq!(cache.get_entry(5), Some(CacheEntry::Filled(50)));
}

#[test]
fn reopen_returns_the_value_and_leaves_the_key_reserved() {
    let mut cache = ReplyCache::with_capacity(3);
    let token = cache.file_pending(7).unwrap();
    cache.insert(token, 99);
    assert_eq!(cache.take_entry(7), Some(CacheEntry::Filled(99)));
    assert_eq!(cache.get_entry(7), Some(CacheEntry::Pending));
    assert_eq!(cache.take_entry(7), Some(CacheEntry::Pending));
    assert_eq!(cache.file_pending(7), None);
    assert_eq!(cache.take_entry(8), None);
    assert_eq!(cache.len(), 1);
}

#[test]
fn same_value_under_three_keys_is_counted_three_times() {
    let mut seen = SeenCache::with_capacity(3);
    for key in [10u64, 20, 30] {
        let token = seen.file_pending(key).unwrap();
        seen.insert(token, "u".to_string());
    }
    assert_eq!(seen.search_by_value("u"), 3);
    assert_eq!(seen.search_by_value("v"), 0);
}

#[test]
fn search_by_value_counts_filled_entries_only() {
    let mut seen = SeenCache::with_capacity(5);
    assert_eq!(seen.search_by_value("u"), 0);
    let t1 = seen.file_pending(1).unwrap();
    let _t2 = seen.file_pending(2).unwrap();
    let t3 = seen.file_pending(3).unwrap();
    seen.insert(t1, "u".to_string());
    seen.insert(t3, "w".to_string());
    assert_eq!(seen.search_by_value("u"), 1);
    assert_eq!(seen.search_by_value("w"), 1);
    assert_eq!(seen.search_by_value(""), 0);
    assert_eq!(seen.take_entry(1), Some(CacheEntry::Filled("u".to_string())));
    assert_eq!(seen.search_by_value("u"), 0);
    assert_eq!(seen.get_entry(1), Some(&CacheEntry::Pending));
    assert_eq!(seen.get_entry(3), Some(&CacheEntry::Filled("w".to_string())));
    assert_eq!(seen.get_entry(4), None);
    assert_eq!(seen.len(), 3);
}

#[test]
fn keys_stay_sorted_and_single_through_reservations_and_evictions() {
    let mut cache = ReplyCache::with_capacity(4);
    for key in [50u64, 10, 30, 30, 20, 60, 5, 40, 40, 70, 15] {
        let _ = cache.file_pending(key);
        assert!(cache.len() <= 4);
        let present = keys(&cache, 100);
        assert_eq!(present.len(), cache.len());
        assert!(present.windows(2).all(|pair| pair[0] < pair[1]));
    }
    assert_eq!(keys(&cache, 100), vec![15, 50, 60, 70]);
}

#[test]
fn length_never_passes_the_limit() {
    let mut cache = ReplyCache::with_capacity(2);
    for key in 1..=10u64 {
        assert!(cache.file_pending(key).is_some());
        assert!(cache.len() <= 2);
    }
    assert_eq!(keys(&cache, 20), vec![9, 10]);
}

#[test]
fn refused_reservation_on_a_full_cache_still_evicts() {
    let mut cache = ReplyCache::with_capacity(3);
    filled(&mut cache, 1, 11);
    filled(&mut cache, 2, 12);
    filled(&mut cache, 3, 13);
    assert_eq!(cache.file_pending(2), None);
    assert_eq!(keys(&cache, 10), vec![2, 3]);
}

#[test]
fn smallest_key_of_a_full_cache_can_be_reserved_again() {
    let mut cache = ReplyCache::with_capacity(3);
    filled(&mut cache, 1, 11);
    filled(&mut cache, 2, 12);
    filled(&mut cache, 3, 13);
    let token = cache.file_pending(1).unwrap();
    assert_eq!(token.idx(), 0);
    assert_eq!(cache.get_entry(1), Some(CacheEntry::Pending));
    assert_eq!(cache.len(), 3);
}

#[test]
fn token_of_an_evicted_key_changes_nothing() {
    let mut cache = ReplyCache::with_capacity(2);
    let stale = cache.file_pending(1).unwrap();
    filled(&mut cache, 2, 12);
    filled(&mut cache, 3, 13);
    assert_eq!(cache.get_entry(1), None);
    cache.insert(stale, 11);
    assert_eq!(cache.len(), 2);
    assert_eq!(cache.get_entry(1), None);
    assert_eq!(cache.get_entry(2), Some(CacheEntry::Filled(12)));
    assert_eq!(cache.get_entry(3), Some(CacheEntry::Filled(13)));
}

#[test]
fn token_of_an_evicted_key_below_all_keys_changes_nothing() {
    let mut cache = ReplyCache::with_capacity(1);
    let stale = cache.file_pending(9).unwrap();
    filled(&mut cache, 5, 15);
    cache.insert(stale, 19);
    assert_eq!(cache.get_entry(5), Some(CacheEntry::Filled(15)));
    assert_eq!(cache.get_entry(9), None);
    assert_eq!(cache.len(), 1);
}

#[test]
fn cache_without_room_hands_out_nothing() {
    let mut cache = ReplyCache::with_capacity(0);
    assert_eq!(cache.file_pending(1), None);
    assert_eq!(cache.len(), 0);
    assert_eq!(cache.get_entry(1), None);
    assert_eq!(cache.take_entry(1), None);
}

#[test]
fn filling_twice_keeps_the_last_value() {
    let mut cache = ReplyCache::with_capacity(2);
    let token = cache.file_pending(4).unwrap();
    cache.insert(token, 1);
    cache.insert(token, 2);
    assert_eq!(cache.get_entry(4), Some(CacheEntry::Filled(2)));
}

#[test]
fn search_finds_the_place_or_the_opening() {
    let mut store: OrderedCache<u64> = OrderedCache::with_capacity(4);
    assert_eq!(store.capacity(), 4);
    assert_eq!(store.search(5), Err(0));
    for key in [10u64, 20, 30] {
        store.file_pending(key).unwrap();
    }
    assert_eq!(store.search(10), Ok(0));
    assert_eq!(store.search(30), Ok(2));
    assert_eq!(store.search(5), Err(0));
    assert_eq!(store.search(25), Err(2));
    assert_eq!(store.search(35), Err(3));
    assert_eq!(store.len(), 3);
}

#[test]
fn cache_shows_its_entries() {
    let mut cache = ReplyCache::with_capacity(2);
    filled(&mut cache, 3, 33);
    let shown = format!("{cache:?}");
    assert!(shown.contains("ReplyCache"));
    assert!(shown.contains("Filled(33)"));
}
