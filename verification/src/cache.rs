use std::collections::VecDeque;
use vstd::prelude::*;

verus! {

/// The state of one key in a cache.
#[derive(Clone, Copy, PartialEq, Eq, Debug)]
pub enum CacheEntry<V> {
    /// The key is reserved and has no value yet. A key that was reopened is
    /// in this state too.
    Pending,
    /// The value that belongs to the key is known.
    Filled(V),
}

/// The right to fill in the value of one reserved key.
///
/// A token names its key and the place at which the key stood when the token
/// was handed out. The store may have moved or dropped the entry since then,
/// so the place is only a hint: the key decides.
#[derive(Clone, Copy, PartialEq, Eq, Debug)]
pub struct InsertToken {
    source: u64,
    idx: usize,
}

impl InsertToken {
    /// The key that was reserved.
    pub closed spec fn spec_source(&self) -> u64 {
        self.source
    }

    /// The place of the entry at the time of the reservation.
    pub closed spec fn spec_idx(&self) -> usize {
        self.idx
    }

    /// The key that was reserved.
    #[verifier::when_used_as_spec(spec_source)]
    pub fn source(&self) -> (key: u64)
        ensures
            key == self.source(),
    {
        self.source
    }

    /// The place of the entry at the time of the reservation.
    #[verifier::when_used_as_spec(spec_idx)]
    pub fn idx(&self) -> (idx: usize)
        ensures
            idx == self.idx(),
    {
        self.idx
    }
}

/// The keys stand in strictly ascending order, so no key stands twice.
pub open spec fn ascending<V>(s: Seq<(u64, CacheEntry<V>)>) -> bool {
    forall|i: int, j: int| 0 <= i < j < s.len() ==> s[i].0 < s[j].0
}

/// Some entry of `s` has the key `key`.
pub open spec fn has_key<V>(s: Seq<(u64, CacheEntry<V>)>, key: u64) -> bool {
    exists|i: int| 0 <= i < s.len() && s[i].0 == key
}

/// The state that `s` holds for `key`, if it holds the key.
pub open spec fn state_of<V>(s: Seq<(u64, CacheEntry<V>)>, key: u64) -> Option<CacheEntry<V>> {
    if has_key(s, key) {
        Some(s[choose|i: int| 0 <= i < s.len() && s[i].0 == key].1)
    } else {
        None
    }
}

/// `at` is the place at which a new key `key` enters `s`: every key before
/// it is smaller and every key from it on is larger.
pub open spec fn opening<V>(s: Seq<(u64, CacheEntry<V>)>, key: u64, at: int) -> bool {
    &&& 0 <= at <= s.len()
    &&& forall|i: int| 0 <= i < at ==> s[i].0 < key
    &&& forall|i: int| at <= i < s.len() ==> key < s[i].0
}

/// The place at which a new key `key` enters `s`.
pub open spec fn place_of<V>(s: Seq<(u64, CacheEntry<V>)>, key: u64) -> int {
    choose|at: int| opening(s, key, at)
}

/// What is left of `s` once room has been made for one more entry under the
/// limit `capacity`: a full store loses its first entry, the one with the
/// smallest key.
pub open spec fn make_room<V>(s: Seq<(u64, CacheEntry<V>)>, capacity: nat) -> Seq<
    (u64, CacheEntry<V>),
> {
    if s.len() > 0 && s.len() >= capacity {
        s.drop_first()
    } else {
        s
    }
}

/// `token` is what a store with the entries `s` and the limit `capacity`
/// hands out for `source`: once room is made, a key that is not present gets
/// a token with the key and the place at which it enters; a key that is
/// present gets nothing, and a store without room hands out nothing.
pub open spec fn granted<V>(
    s: Seq<(u64, CacheEntry<V>)>,
    capacity: nat,
    source: u64,
    token: Option<InsertToken>,
) -> bool {
    let base = make_room(s, capacity);
    match token {
        Some(t) => {
            &&& capacity > 0
            &&& !has_key(base, source)
            &&& t.source() == source
            &&& opening(base, source, t.idx() as int)
        },
        None => capacity == 0 || has_key(base, source),
    }
}

/// The entries of a store after `source` was reserved with the outcome
/// `token`: room is made in any case, and where a token was handed out the
/// key has entered as `Pending` at the place that the token names.
pub open spec fn reserved<V>(
    s: Seq<(u64, CacheEntry<V>)>,
    capacity: nat,
    source: u64,
    token: Option<InsertToken>,
) -> Seq<(u64, CacheEntry<V>)> {
    let base = make_room(s, capacity);
    match token {
        Some(t) => base.insert(t.idx() as int, (source, CacheEntry::Pending)),
        None => base,
    }
}

/// `s` with the state of `key` set to `state`; a store without the key is
/// left as it is.
pub open spec fn with_state<V>(
    s: Seq<(u64, CacheEntry<V>)>,
    key: u64,
    state: CacheEntry<V>,
) -> Seq<(u64, CacheEntry<V>)> {
    Seq::new(
        s.len(),
        |i: int|
            if s[i].0 == key {
                (key, state)
            } else {
                s[i]
            },
    )
}

/// The entry at place `i` of a `VecDeque`, for writing. This is
/// `IndexMut::index_mut` of `VecDeque`: what the caller leaves in the slot
/// is the new entry at that place, and no other place changes.
#[verifier::external_body]
fn slot_mut<T>(entries: &mut VecDeque<T>, i: usize) -> (slot: &mut T)
    requires
        i < old(entries)@.len(),
    ensures
        *slot == old(entries)@[i as int],
        final(entries)@ == old(entries)@.update(i as int, *final(slot)),
{
    &mut entries[i]
}

/// A store of at most `capacity` entries, sorted by key, each key reserved
/// first and filled later.
#[derive(Debug)]
pub struct OrderedCache<V> {
    entries: VecDeque<(u64, CacheEntry<V>)>,
    capacity: usize,
}

impl<V> View for OrderedCache<V> {
    type V = Seq<(u64, CacheEntry<V>)>;

    closed spec fn view(&self) -> Seq<(u64, CacheEntry<V>)> {
        self.entries@
    }
}

impl<V> OrderedCache<V> {
    /// The largest number of entries that the store keeps.
    pub closed spec fn spec_capacity(&self) -> usize {
        self.capacity
    }

    /// The store is sorted by key and within its limit.
    pub open spec fn wf(&self) -> bool {
        &&& ascending(self@)
        &&& self@.len() <= self.capacity()
    }

    /// An empty store that keeps at most `capacity` entries.
    pub fn with_capacity(capacity: usize) -> (cache: Self)
        ensures
            cache.wf(),
            cache@ == Seq::<(u64, CacheEntry<V>)>::empty(),
            cache.capacity() == capacity,
    {
        OrderedCache { entries: VecDeque::with_capacity(capacity), capacity }
    }

    /// The largest number of entries that the store keeps.
    #[verifier::when_used_as_spec(spec_capacity)]
    pub fn capacity(&self) -> (capacity: usize)
        ensures
            capacity == self.capacity(),
    {
        self.capacity
    }

    /// The number of entries in the store.
    pub fn len(&self) -> (len: usize)
        ensures
            len == self@.len(),
    {
        self.entries.len()
    }

    /// Looks for `source` by halving the sorted store: `Ok` with the place
    /// of its entry, or `Err` with the place at which it would enter.
    pub fn search(&self, source: u64) -> (found: Result<usize, usize>)
        requires
            self.wf(),
        ensures
            match found {
                Ok(at) => at < self@.len() && self@[at as int].0 == source,
                Err(at) => !has_key(self@, source) && opening(self@, source, at as int),
            },
    {
        let mut low: usize = 0;
        let mut high: usize = self.entries.len();
        while low < high
            invariant
                self.wf(),
                0 <= low <= high <= self.entries@.len(),
                forall|i: int| 0 <= i < low ==> self.entries@[i].0 < source,
                forall|i: int| high <= i < self.entries@.len() ==> source < self.entries@[i].0,
            decreases high - low,
        {
            let mid: usize = low + (high - low) / 2;
            let key: u64 = self.entries[mid].0;
            if key == source {
                return Ok(mid);
            } else if key < source {
                low = mid + 1;
            } else {
                high = mid;
            }
        }
        Err(low)
    }

    /// Reserves `source`.
    ///
    /// A full store first loses the entry with the smallest key, whatever its
    /// state. If the key is then still present, it has an owner and nothing
    /// is handed out. Otherwise a `Pending` entry enters at the place that
    /// keeps the store sorted, and the token records the key and that place.
    /// A store whose limit is zero holds nothing and hands nothing out.
    pub fn file_pending(&mut self, source: u64) -> (token: Option<InsertToken>)
        requires
            old(self).wf(),
        ensures
            final(self).wf(),
            final(self).capacity() == old(self).capacity(),
            granted(old(self)@, old(self).capacity() as nat, source, token),
            final(self)@ == reserved(old(self)@, old(self).capacity() as nat, source, token),
    {
        if self.capacity == 0 {
            return None;
        }
        if self.entries.len() == self.capacity {
            self.entries.pop_front();
        }
        let len: usize = self.entries.len();
        if len > 0 {
            // Keys mostly arrive in order: a key above the last one goes to the end.
            let last: u64 = self.entries[len - 1].0;
            if last < source {
                self.entries.push_back((source, CacheEntry::Pending));
                return Some(InsertToken { source, idx: len });
            }
        }
        match self.search(source) {
            Err(idx) => {
                self.entries.insert(idx, (source, CacheEntry::Pending));
                Some(InsertToken { source, idx })
            },
            Ok(_) => None,
        }
    }

    /// Redeems `token`: the entry of its key becomes `Filled(reply)`.
    ///
    /// The place in the token is tried first; if another key stands there by
    /// now, the key is searched for. A key that has left the store leaves
    /// the store unchanged, and `reply` is dropped.
    pub fn insert(&mut self, token: InsertToken, reply: V)
        requires
            old(self).wf(),
        ensures
            final(self).wf(),
            final(self).capacity() == old(self).capacity(),
            final(self)@ == with_state(old(self)@, token.source(), CacheEntry::Filled(reply)),
    {
        let at: Option<usize> = if token.idx < self.entries.len() && self.entries[token.idx].0
            == token.source {
            Some(token.idx)
        } else {
            match self.search(token.source) {
                Ok(idx) => Some(idx),
                Err(_) => None,
            }
        };
        if let Some(idx) = at {
            let slot = slot_mut(&mut self.entries, idx);
            *slot = (token.source, CacheEntry::Filled(reply));
        }
    }

    /// The state of `source`, if the store holds the key. Nothing changes.
    pub fn get_entry(&self, source: u64) -> (entry: Option<&CacheEntry<V>>)
        requires
            self.wf(),
        ensures
            match entry {
                Some(state) => state_of(self@, source) == Some(*state),
                None => state_of(self@, source) is None,
            },
    {
        match self.search(source) {
            Ok(idx) => {
                proof {
                    lemma_state_at(self@, idx as int);
                }
                Some(&self.entries[idx].1)
            },
            Err(_) => None,
        }
    }

    /// Takes the state of `source` out of the store and leaves the key
    /// reserved: the entry stays, as `Pending`.
    pub fn take_entry(&mut self, source: u64) -> (entry: Option<CacheEntry<V>>)
        requires
            old(self).wf(),
        ensures
            final(self).wf(),
            final(self).capacity() == old(self).capacity(),
            entry == state_of(old(self)@, source),
            final(self)@ == with_state(old(self)@, source, CacheEntry::Pending),
    {
        match self.search(source) {
            Ok(idx) => {
                proof {
                    lemma_state_at(self@, idx as int);
                }
                let slot = slot_mut(&mut self.entries, idx);
                let mut state: CacheEntry<V> = CacheEntry::Pending;
                std::mem::swap(&mut slot.1, &mut state);
                Some(state)
            },
            Err(_) => None,
        }
    }
}

/// A key enters a store at one place only, the one that `place_of` names.
pub proof fn lemma_place_of<V>(s: Seq<(u64, CacheEntry<V>)>, key: u64, at: int)
    requires
        opening(s, key, at),
    ensures
        place_of(s, key) == at,
{
    let other = place_of(s, key);
    if other < at {
        assert(s[other].0 < key);
    } else if at < other {
        assert(s[at].0 < key);
    }
}

/// In a sorted store the entry at place `at` is the one that `state_of`
/// finds for its key.
pub proof fn lemma_state_at<V>(s: Seq<(u64, CacheEntry<V>)>, at: int)
    requires
        ascending(s),
        0 <= at < s.len(),
    ensures
        has_key(s, s[at].0),
        state_of(s, s[at].0) == Some(s[at].1),
{
    let key = s[at].0;
    let found = choose|i: int| 0 <= i < s.len() && s[i].0 == key;
    assert(found == at) by {
        if found < at {
            assert(s[found].0 < s[at].0);
        } else if at < found {
            assert(s[at].0 < s[found].0);
        }
    }
}

/// The number of entries of `s` that are filled with `value`.
pub open spec fn count_filled<V>(s: Seq<(u64, CacheEntry<V>)>, value: V) -> nat
    decreases s.len(),
{
    if s.len() == 0 {
        0
    } else {
        count_filled(s.drop_last(), value) + if s.last().1 == CacheEntry::Filled(value) {
            1nat
        } else {
            0nat
        }
    }
}

/// A state whose value is a string, with the string taken as its characters.
pub open spec fn text_state(state: CacheEntry<String>) -> CacheEntry<Seq<char>> {
    match state {
        CacheEntry::Pending => CacheEntry::Pending,
        CacheEntry::Filled(text) => CacheEntry::Filled(text@),
    }
}

/// A store of strings, each string taken as its characters.
pub open spec fn text_view(s: Seq<(u64, CacheEntry<String>)>) -> Seq<(u64, CacheEntry<Seq<char>>)> {
    Seq::new(s.len(), |i: int| (s[i].0, text_state(s[i].1)))
}

impl OrderedCache<String> {
    /// Counts the entries that are filled with the text `needle`, by going
    /// through the whole store.
    pub fn search_by_value(&self, needle: &str) -> (count: usize)
        ensures
            count == count_filled(text_view(self@), needle@),
    {
        let wanted: String = String::from_str(needle);
        let len: usize = self.entries.len();
        let mut count: usize = 0;
        let mut i: usize = 0;
        while i < len
            invariant
                len == self.entries@.len(),
                wanted@ == needle@,
                0 <= i <= len,
                count <= i,
                count == count_filled(text_view(self.entries@).take(i as int), needle@),
            decreases len - i,
        {
            let hit: bool = match &self.entries[i].1 {
                CacheEntry::Filled(text) => *text == wanted,
                CacheEntry::Pending => false,
            };
            proof {
                let all = text_view(self.entries@);
                assert(all.take(i + 1).drop_last() =~= all.take(i as int));
                assert(all.take(i + 1).last() == all[i as int]);
            }
            if hit {
                count = count + 1;
            }
            i = i + 1;
        }
        proof {
            let all = text_view(self.entries@);
            assert(all.take(len as int) =~= all);
        }
        count
    }
}

/// Replies by the message they answer: the key is the id of a source
/// message, the value the id of the reply that was sent for it.
///
/// A message that needs a reply is entered as `Pending` as soon as it is
/// seen, so that an edit or a second sighting finds it while the reply is
/// still on its way. Once the reply has gone out, the token of the
/// reservation fills the entry in. An entry stays until newer keys push it
/// out at the small end.
#[derive(Debug)]
pub struct ReplyCache {
    store: OrderedCache<u64>,
}

impl View for ReplyCache {
    type V = Seq<(u64, CacheEntry<u64>)>;

    closed spec fn view(&self) -> Seq<(u64, CacheEntry<u64>)> {
        self.store@
    }
}

impl ReplyCache {
    /// The largest number of entries that the cache keeps.
    pub closed spec fn capacity(&self) -> usize {
        self.store.capacity()
    }

    /// The cache is sorted by key and within its limit.
    pub open spec fn wf(&self) -> bool {
        &&& ascending(self@)
        &&& self@.len() <= self.capacity()
    }

    /// An empty cache that keeps at most `capacity` entries.
    pub fn with_capacity(capacity: usize) -> (cache: Self)
        ensures
            cache.wf(),
            cache@ == Seq::<(u64, CacheEntry<u64>)>::empty(),
            cache.capacity() == capacity,
    {
        ReplyCache { store: OrderedCache::with_capacity(capacity) }
    }

    /// The number of entries in the cache.
    pub fn len(&self) -> (len: usize)
        ensures
            len == self@.len(),
    {
        self.store.len()
    }

    /// Reserves the source message `source` before its reply exists.
    ///
    /// A full cache first loses the entry with the smallest key. If the key
    /// is then still present, another caller owns it and `None` is returned.
    /// Otherwise a `Pending` entry enters in key order and its token is
    /// returned. A cache whose limit is zero hands out nothing.
    pub fn file_pending(&mut self, source: u64) -> (token: Option<InsertToken>)
        requires
            old(self).wf(),
        ensures
            final(self).wf(),
            final(self).capacity() == old(self).capacity(),
            granted(old(self)@, old(self).capacity() as nat, source, token),
            final(self)@ == reserved(old(self)@, old(self).capacity() as nat, source, token),
    {
        self.store.file_pending(source)
    }

    /// Completes a reservation once the reply `reply` has been sent. If the
    /// key of the token has left the cache, nothing changes.
    pub fn insert(&mut self, token: InsertToken, reply: u64)
        requires
            old(self).wf(),
        ensures
            final(self).wf(),
            final(self).capacity() == old(self).capacity(),
            final(self)@ == with_state(old(self)@, token.source(), CacheEntry::Filled(reply)),
    {
        self.store.insert(token, reply)
    }

    /// The state of `source`, found by halving the sorted cache.
    pub fn get_entry(&self, source: u64) -> (entry: Option<CacheEntry<u64>>)
        requires
            self.wf(),
        ensures
            entry == state_of(self@, source),
    {
        match self.store.get_entry(source) {
            Some(CacheEntry::Filled(reply)) => Some(CacheEntry::Filled(*reply)),
            Some(CacheEntry::Pending) => Some(CacheEntry::Pending),
            None => None,
        }
    }

    /// The state of `source`, which is set back to `Pending` by the call.
    pub fn take_entry(&mut self, source: u64) -> (entry: Option<CacheEntry<u64>>)
        requires
            old(self).wf(),
        ensures
            final(self).wf(),
            final(self).capacity() == old(self).capacity(),
            entry == state_of(old(self)@, source),
            final(self)@ == with_state(old(self)@, source, CacheEntry::Pending),
    {
        self.store.take_entry(source)
    }
}

/// Taking strings as their characters changes neither the keys of a store
/// nor the places of its entries.
pub proof fn lemma_text_view_keys(s: Seq<(u64, CacheEntry<String>)>)
    ensures
        text_view(s).len() == s.len(),
        ascending(text_view(s)) == ascending(s),
        forall|key: u64| has_key(text_view(s), key) == has_key(s, key),
        forall|key: u64, at: int| opening(text_view(s), key, at) == opening(s, key, at),
{
    let t = text_view(s);
    assert forall|i: int| 0 <= i < s.len() implies #[trigger] t[i].0 == s[i].0 by {}
    if ascending(s) {
        assert forall|i: int, j: int| 0 <= i < j < t.len() implies t[i].0 < t[j].0 by {
            assert(s[i].0 < s[j].0);
        }
    }
    if ascending(t) {
        assert forall|i: int, j: int| 0 <= i < j < s.len() implies s[i].0 < s[j].0 by {
            assert(t[i].0 < t[j].0);
        }
    }
    assert forall|key: u64| has_key(t, key) == has_key(s, key) by {
        if has_key(t, key) {
            let i = choose|i: int| 0 <= i < t.len() && t[i].0 == key;
            assert(s[i].0 == key);
        }
        if has_key(s, key) {
            let i = choose|i: int| 0 <= i < s.len() && s[i].0 == key;
            assert(t[i].0 == key);
        }
    }
    assert forall|key: u64, at: int| opening(t, key, at) == opening(s, key, at) by {
        if opening(t, key, at) {
            assert forall|i: int| 0 <= i < at implies s[i].0 < key by {
                assert(t[i].0 < key);
            }
            assert forall|i: int| at <= i < s.len() implies key < s[i].0 by {
                assert(key < t[i].0);
            }
        }
        if opening(s, key, at) {
            assert forall|i: int| 0 <= i < at implies t[i].0 < key by {
                assert(s[i].0 < key);
            }
            assert forall|i: int| at <= i < t.len() implies key < t[i].0 by {
                assert(key < s[i].0);
            }
        }
    }
}

/// In a sorted store of strings, the state of a key taken as characters is
/// the state that the store of characters holds for the key.
pub proof fn lemma_text_view_state(s: Seq<(u64, CacheEntry<String>)>, key: u64)
    requires
        ascending(s),
    ensures
        state_of(text_view(s), key) == match state_of(s, key) {
            Some(state) => Some(text_state(state)),
            None => None,
        },
{
    lemma_text_view_keys(s);
    if has_key(s, key) {
        let i = choose|i: int| 0 <= i < s.len() && s[i].0 == key;
        lemma_state_at(s, i);
        lemma_state_at(text_view(s), i);
    }
}

/// Texts that were already seen, by the message that carried them: the key
/// is the id of a message, the value the text that was seen in it.
#[derive(Debug)]
pub struct SeenCache {
    store: OrderedCache<String>,
}

impl View for SeenCache {
    type V = Seq<(u64, CacheEntry<Seq<char>>)>;

    closed spec fn view(&self) -> Seq<(u64, CacheEntry<Seq<char>>)> {
        text_view(self.store@)
    }
}

impl SeenCache {
    /// The largest number of entries that the cache keeps.
    pub closed spec fn capacity(&self) -> usize {
        self.store.capacity()
    }

    /// The cache is sorted by key and within its limit.
    pub open spec fn wf(&self) -> bool {
        &&& ascending(self@)
        &&& self@.len() <= self.capacity()
    }

    /// An empty cache that keeps at most `capacity` entries.
    pub fn with_capacity(capacity: usize) -> (cache: Self)
        ensures
            cache.wf(),
            cache@ == Seq::<(u64, CacheEntry<Seq<char>>)>::empty(),
            cache.capacity() == capacity,
    {
        SeenCache { store: OrderedCache::with_capacity(capacity) }
    }

    /// The number of entries in the cache.
    pub fn len(&self) -> (len: usize)
        ensures
            len == self@.len(),
    {
        self.store.len()
    }

    /// Reserves the message `source` before its text is entered. The rules
    /// are those of `ReplyCache::file_pending`.
    pub fn file_pending(&mut self, source: u64) -> (token: Option<InsertToken>)
        requires
            old(self).wf(),
        ensures
            final(self).wf(),
            final(self).capacity() == old(self).capacity(),
            granted(old(self)@, old(self).capacity() as nat, source, token),
            final(self)@ == reserved(old(self)@, old(self).capacity() as nat, source, token),
    {
        proof {
            lemma_text_view_keys(self.store@);
        }
        let token = self.store.file_pending(source);
        proof {
            let capacity = old(self).capacity() as nat;
            let inner = make_room(old(self).store@, capacity);
            let base = make_room(old(self)@, capacity);
            assert(base =~= text_view(inner));
            lemma_text_view_keys(inner);
            lemma_text_view_keys(self.store@);
        }
        token
    }

    /// Completes a reservation with the text `value`. If the key of the
    /// token has left the cache, nothing changes.
    pub fn insert(&mut self, token: InsertToken, value: String)
        requires
            old(self).wf(),
        ensures
            final(self).wf(),
            final(self).capacity() == old(self).capacity(),
            final(self)@ == with_state(old(self)@, token.source(), CacheEntry::Filled(value@)),
    {
        proof {
            lemma_text_view_keys(self.store@);
        }
        self.store.insert(token, value);
        proof {
            lemma_text_view_keys(self.store@);
        }
    }

    /// The state of `source`, found by halving the sorted cache.
    pub fn get_entry(&self, source: u64) -> (entry: Option<&CacheEntry<String>>)
        requires
            self.wf(),
        ensures
            state_of(self@, source) == match entry {
                Some(state) => Some(text_state(*state)),
                None => None,
            },
    {
        proof {
            lemma_text_view_keys(self.store@);
            lemma_text_view_state(self.store@, source);
        }
        self.store.get_entry(source)
    }

    /// The state of `source`, which is set back to `Pending` by the call.
    pub fn take_entry(&mut self, source: u64) -> (entry: Option<CacheEntry<String>>)
        requires
            old(self).wf(),
        ensures
            final(self).wf(),
            final(self).capacity() == old(self).capacity(),
            state_of(old(self)@, source) == match entry {
                Some(state) => Some(text_state(state)),
                None => None,
            },
            final(self)@ == with_state(old(self)@, source, CacheEntry::Pending),
    {
        proof {
            lemma_text_view_keys(self.store@);
            lemma_text_view_state(self.store@, source);
        }
        let entry = self.store.take_entry(source);
        proof {
            lemma_text_view_keys(self.store@);
        }
        entry
    }

    /// The number of entries that are filled with the text `needle`.
    pub fn search_by_value(&self, needle: &str) -> (count: usize)
        ensures
            count == count_filled(self@, needle@),
    {
        self.store.search_by_value(needle)
    }
}

} // verus!
