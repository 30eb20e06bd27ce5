use crate::cache::{
    ascending, count_filled, granted, has_key, lemma_state_at, make_room, reserved, state_of,
    with_state, CacheEntry, InsertToken,
};
use vstd::prelude::*;

verus! {

/// A sorted store holds no key twice.
pub proof fn lemma_ascending_distinct<V>(s: Seq<(u64, CacheEntry<V>)>)
    requires
        ascending(s),
    ensures
        forall|i: int, j: int| 0 <= i < s.len() && 0 <= j < s.len() && i != j ==> s[i].0 != s[j].0,
{
}

/// A reservation keeps the order and the limit: whatever token a sorted
/// store within its limit hands out, the store is sorted and within its
/// limit afterwards.
pub proof fn lemma_reserve_keeps_order<V>(
    s: Seq<(u64, CacheEntry<V>)>,
    capacity: nat,
    key: u64,
    token: Option<InsertToken>,
)
    requires
        ascending(s),
        s.len() <= capacity,
        granted(s, capacity, key, token),
    ensures
        ascending(reserved(s, capacity, key, token)),
        reserved(s, capacity, key, token).len() <= capacity,
{
}

/// Filling or reopening a key changes neither the keys of a store nor
/// their order.
pub proof fn lemma_with_state_keeps_order<V>(
    s: Seq<(u64, CacheEntry<V>)>,
    key: u64,
    state: CacheEntry<V>,
)
    ensures
        with_state(s, key, state).len() == s.len(),
        forall|i: int| 0 <= i < s.len() ==> (#[trigger] with_state(s, key, state)[i]).0 == s[i].0,
        ascending(s) ==> ascending(with_state(s, key, state)),
{
}

/// Once a full store takes a reservation for another key than its smallest,
/// the smallest key is gone, whether or not the reservation was granted, and
/// a lookup no longer finds it. The store is as full as before at most.
pub proof fn lemma_full_store_evicts_smallest<V>(
    s: Seq<(u64, CacheEntry<V>)>,
    capacity: nat,
    key: u64,
    token: Option<InsertToken>,
)
    requires
        ascending(s),
        0 < s.len(),
        s.len() == capacity,
        key != s[0].0,
        granted(s, capacity, key, token),
    ensures
        !has_key(reserved(s, capacity, key, token), s[0].0),
        state_of(reserved(s, capacity, key, token), s[0].0) is None,
        reserved(s, capacity, key, token).len() <= capacity,
{
}

/// A key that was just reserved is refused when it is reserved again,
/// whether the first call handed out a token or found the key taken. The one
/// way round this is an eviction in between: the second call makes room
/// first, so it grants the key again if the store is full by then and the
/// key is its smallest.
pub proof fn lemma_second_reservation_refused<V>(
    s: Seq<(u64, CacheEntry<V>)>,
    capacity: nat,
    key: u64,
    first: Option<InsertToken>,
    second: Option<InsertToken>,
)
    requires
        ascending(s),
        s.len() <= capacity,
        granted(s, capacity, key, first),
        granted(reserved(s, capacity, key, first), capacity, key, second),
        reserved(s, capacity, key, first).len() < capacity || reserved(
            s,
            capacity,
            key,
            first,
        )[0].0 != key,
    ensures
        second is None,
{
    let after = reserved(s, capacity, key, first);
    if let Some(t) = first {
        assert(after[t.idx() as int].0 == key);
    }
    if capacity > 0 && after.len() >= capacity {
        let at = choose|i: int| 0 <= i < after.len() && after[i].0 == key;
        assert(make_room(after, capacity)[at - 1].0 == key);
    }
}

/// Redeeming a token changes no entry of another key, and nothing at all
/// when the key of the token has left the store.
pub proof fn lemma_stale_token_changes_nothing<V>(
    s: Seq<(u64, CacheEntry<V>)>,
    key: u64,
    value: V,
)
    ensures
        forall|i: int|
            0 <= i < s.len() && s[i].0 != key ==> #[trigger] with_state(
                s,
                key,
                CacheEntry::Filled(value),
            )[i] == s[i],
        !has_key(s, key) ==> with_state(s, key, CacheEntry::Filled(value)) == s,
{
}

/// A key that is filled with a value and then reopened gives the value back
/// and is found reserved afterwards.
pub proof fn lemma_reopen_round_trip<V>(s: Seq<(u64, CacheEntry<V>)>, key: u64, value: V)
    requires
        ascending(s),
        has_key(s, key),
    ensures
        ({
            let filled = with_state(s, key, CacheEntry::Filled(value));
            let reopened = with_state(filled, key, CacheEntry::Pending);
            &&& state_of(filled, key) == Some(CacheEntry::Filled(value))
            &&& state_of(reopened, key) == Some(CacheEntry::<V>::Pending)
        }),
{
    let filled = with_state(s, key, CacheEntry::Filled(value));
    let reopened = with_state(filled, key, CacheEntry::Pending);
    let i = choose|i: int| 0 <= i < s.len() && s[i].0 == key;
    lemma_with_state_keeps_order(s, key, CacheEntry::Filled(value));
    lemma_with_state_keeps_order(filled, key, CacheEntry::Pending);
    lemma_state_at(filled, i);
    lemma_state_at(reopened, i);
}

/// The count of a value is at most the length of the store, and it is zero
/// exactly when no entry is filled with the value.
pub proof fn lemma_count_filled_bounds<V>(s: Seq<(u64, CacheEntry<V>)>, value: V)
    ensures
        count_filled(s, value) <= s.len(),
        count_filled(s, value) == 0 <==> forall|i: int|
            0 <= i < s.len() ==> (#[trigger] s[i]).1 != CacheEntry::Filled(value),
    decreases s.len(),
{
    if s.len() > 0 {
        let front = s.drop_last();
        lemma_count_filled_bounds(front, value);
        if count_filled(s, value) == 0 {
            assert forall|i: int| 0 <= i < s.len() implies (#[trigger] s[i]).1
                != CacheEntry::Filled(value) by {
                if i < front.len() {
                    assert(front[i] == s[i]);
                }
            }
        }
    }
}

} // verus!
