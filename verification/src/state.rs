use crate::cache::{
    ascending, count_filled, granted, state_of, CacheEntry, InsertToken, ReplyCache, SeenCache,
};
use crate::config::{seen_size_of, Config};
use crate::dispatch::{
    actions_for_sent, actions_view, dispatch_plan, on_create, on_delete, on_update, Action,
    ActionView, Event, EventView, StateView,
};
use crate::pass::optional_text;
use crate::repost::{add_repost_counts, repost_counts};
use vstd::prelude::*;
use vstd::rwlock::{RwLock, RwLockPredicate};

verus! {

/// What a shared reply cache always holds: a cache that is sorted and
/// within its limit, with the limit it was made with.
pub struct ReplyLimit {
    pub capacity: usize,
}

impl RwLockPredicate<ReplyCache> for ReplyLimit {
    open spec fn inv(self, cache: ReplyCache) -> bool {
        cache.wf() && cache.capacity() == self.capacity
    }
}

/// What a shared cache of seen texts always holds: a cache that is sorted
/// and within its limit, with the limit it was made with.
pub struct SeenLimit {
    pub capacity: usize,
}

impl RwLockPredicate<SeenCache> for SeenLimit {
    open spec fn inv(self, cache: SeenCache) -> bool {
        cache.wf() && cache.capacity() == self.capacity
    }
}

/// `s` may be what a cache with the limit `capacity` holds: it is sorted and
/// within the limit.
pub open spec fn fits<V>(s: Seq<(u64, CacheEntry<V>)>, capacity: nat) -> bool {
    ascending(s) && s.len() <= capacity
}

/// A reply cache for many tasks: any number of readers at a time, or one
/// writer.
///
/// Each call takes the guard, does its one step on the cache and gives the
/// guard back before it returns, so no guard is ever held while a task
/// waits for something else. Between two calls other tasks may have changed
/// the cache: a call promises what holds of its step on the cache as it
/// stood when the guard was taken, whatever that was.
pub struct SharedReplies {
    lock: RwLock<ReplyCache, ReplyLimit>,
}

impl SharedReplies {
    /// The largest number of entries that the cache keeps.
    pub closed spec fn capacity(&self) -> usize {
        self.lock.pred().capacity
    }

    /// An empty shared cache that keeps at most `capacity` entries.
    pub fn with_capacity(capacity: usize) -> (shared: Self)
        ensures
            shared.capacity() == capacity,
    {
        SharedReplies {
            lock: RwLock::new(ReplyCache::with_capacity(capacity), Ghost(ReplyLimit { capacity })),
        }
    }

    /// The number of entries in the cache as it stood while the guard was
    /// held. Other tasks may fill or empty the cache before and after, so
    /// any number up to the limit may come, and the limit is all that can be
    /// promised of it.
    pub fn len(&self) -> (len: usize)
        ensures
            len <= self.capacity(),
    {
        let guard = self.lock.acquire_read();
        let len = guard.borrow().len();
        guard.release_read();
        len
    }

    /// Reserves `source`, as `ReplyCache::file_pending` does.
    pub fn file_pending(&self, source: u64) -> (token: Option<InsertToken>)
        ensures
            exists|before: Seq<(u64, CacheEntry<u64>)>|
                fits(before, self.capacity() as nat) && #[trigger] granted(
                    before,
                    self.capacity() as nat,
                    source,
                    token,
                ),
    {
        let (mut cache, guard) = self.lock.acquire_write();
        let ghost before = cache@;
        let token = cache.file_pending(source);
        guard.release_write(cache);
        assert(granted(before, self.capacity() as nat, source, token));
        token
    }

    /// Completes a reservation, as `ReplyCache::insert` does.
    pub fn insert(&self, token: InsertToken, reply: u64) {
        let (mut cache, guard) = self.lock.acquire_write();
        cache.insert(token, reply);
        guard.release_write(cache);
    }

    /// The state of `source`.
    pub fn get_entry(&self, source: u64) -> (entry: Option<CacheEntry<u64>>)
        ensures
            exists|now: Seq<(u64, CacheEntry<u64>)>|
                fits(now, self.capacity() as nat) && entry == #[trigger] state_of(now, source),
    {
        let guard = self.lock.acquire_read();
        let ghost now = guard.view()@;
        let entry = guard.borrow().get_entry(source);
        guard.release_read();
        assert(entry == state_of(now, source));
        entry
    }

    /// The state of `source`, which is set back to `Pending` by the call.
    pub fn take_entry(&self, source: u64) -> (entry: Option<CacheEntry<u64>>)
        ensures
            exists|before: Seq<(u64, CacheEntry<u64>)>|
                fits(before, self.capacity() as nat) && entry == #[trigger] state_of(
                    before,
                    source,
                ),
    {
        let (mut cache, guard) = self.lock.acquire_write();
        let ghost before = cache@;
        let entry = cache.take_entry(source);
        guard.release_write(cache);
        assert(entry == state_of(before, source));
        entry
    }
}

/// A cache of seen texts for many tasks, under the same rules as
/// `SharedReplies`.
pub struct SharedSeen {
    lock: RwLock<SeenCache, SeenLimit>,
}

impl SharedSeen {
    /// The largest number of entries that the cache keeps.
    pub closed spec fn capacity(&self) -> usize {
        self.lock.pred().capacity
    }

    /// An empty shared cache that keeps at most `capacity` entries.
    pub fn with_capacity(capacity: usize) -> (shared: Self)
        ensures
            shared.capacity() == capacity,
    {
        SharedSeen {
            lock: RwLock::new(SeenCache::with_capacity(capacity), Ghost(SeenLimit { capacity })),
        }
    }

    /// The number of entries in the cache as it stood while the guard was
    /// held. Other tasks may fill or empty the cache before and after, so
    /// any number up to the limit may come, and the limit is all that can be
    /// promised of it.
    pub fn len(&self) -> (len: usize)
        ensures
            len <= self.capacity(),
    {
        let guard = self.lock.acquire_read();
        let len = guard.borrow().len();
        guard.release_read();
        len
    }

    /// Whether the cache holds the message `source`.
    pub fn knows(&self, source: u64) -> (known: bool)
        ensures
            exists|now: Seq<(u64, CacheEntry<Seq<char>>)>|
                fits(now, self.capacity() as nat) && known == (#[trigger] state_of(
                    now,
                    source,
                ) is Some),
    {
        let guard = self.lock.acquire_read();
        let ghost now = guard.view()@;
        let known = guard.borrow().get_entry(source).is_some();
        guard.release_read();
        assert(known == (state_of(now, source) is Some));
        known
    }

    /// The number of entries that are filled with the text `needle`.
    pub fn search_by_value(&self, needle: &str) -> (count: usize)
        ensures
            exists|now: Seq<(u64, CacheEntry<Seq<char>>)>|
                fits(now, self.capacity() as nat) && count == #[trigger] count_filled(
                    now,
                    needle@,
                ),
    {
        let guard = self.lock.acquire_read();
        let ghost now = guard.view()@;
        let count = guard.borrow().search_by_value(needle);
        guard.release_read();
        assert(count == count_filled(now, needle@));
        count
    }

    /// Notes in the text of a reply how often its link was posted before,
    /// and remembers the link, as `add_repost_counts` does, in one step under
    /// the guard.
    pub fn add_repost_counts(&self, reply_id: u64, content: &str) -> (out: Option<String>)
        ensures
            exists|before: Seq<(u64, CacheEntry<Seq<char>>)>|
                fits(before, self.capacity() as nat) && optional_text(out) == (#[trigger] repost_counts(
                    before,
                    self.capacity() as nat,
                    reply_id,
                    content@,
                )).1,
    {
        let (mut cache, guard) = self.lock.acquire_write();
        let ghost before = cache@;
        let out = add_repost_counts(&mut cache, reply_id, content);
        guard.release_write(cache);
        assert(optional_text(out) == repost_counts(
            before,
            self.capacity() as nat,
            reply_id,
            content@,
        ).1);
        out
    }
}

/// All that the tasks of the bot share: the settings and the two caches,
/// each cache behind a guard of its own.
pub struct State {
    pub config: Config,
    pub replies: SharedReplies,
    pub seen: SharedSeen,
}

/// `actions` is what `dispatch_plan` asks for when the caches hold `replies`
/// and `seen`, and the two may be what the caches of `state` hold.
pub open spec fn answers(
    state: &State,
    event: EventView,
    replies: Seq<(u64, CacheEntry<u64>)>,
    seen: Seq<(u64, CacheEntry<Seq<char>>)>,
    actions: Seq<ActionView>,
) -> bool {
    &&& fits(replies, state.replies.capacity() as nat)
    &&& fits(seen, state.seen.capacity() as nat)
    &&& actions == dispatch_plan(
        StateView { config: state.config@, replies, seen },
        state.replies.capacity() as nat,
        state.seen.capacity() as nat,
        event,
    ).1
}

impl State {
    /// The state at the start: the settings, and two empty caches of the
    /// sizes that the settings ask for.
    pub fn new(config: Config) -> (state: State)
        ensures
            state.config@ == config@,
            state.replies.capacity() == config@.reply_cache_size,
            state.seen.capacity() == seen_size_of(config@),
    {
        let replies = SharedReplies::with_capacity(config.reply_cache_size);
        let seen = SharedSeen::with_capacity(config.seen_size());
        State { config, replies, seen }
    }
}

/// Takes one event to the shared caches, and says what is to be done about
/// it.
///
/// Each cache is changed in one step under its guard, and every guard is
/// given back before the call returns. Other tasks may change the caches
/// between two calls, so the actions are those that `dispatch_plan` asks
/// for on the caches as they stood when the guards were taken: the reply
/// cache first, the cache of seen links after it.
pub fn dispatch_event(state: &State, event: &Event) -> (actions: Vec<Action>)
    ensures
        exists|replies: Seq<(u64, CacheEntry<u64>)>, seen: Seq<(u64, CacheEntry<Seq<char>>)>|
            #[trigger] answers(state, event@, replies, seen, actions_view(actions@)),
{
    let ghost no_replies = Seq::<(u64, CacheEntry<u64>)>::empty();
    let ghost no_seen = Seq::<(u64, CacheEntry<Seq<char>>)>::empty();
    match event {
        Event::MessageCreate(message) => {
            let (mut replies, guard) = state.replies.lock.acquire_write();
            let ghost before = replies@;
            let actions = on_create(&state.config, &mut replies, message);
            guard.release_write(replies);
            assert(answers(state, event@, before, no_seen, actions_view(actions@)));
            actions
        },
        Event::MessageUpdate(message) => {
            let guard = state.replies.lock.acquire_read();
            let ghost replies = guard.view()@;
            let entry = guard.borrow().get_entry(message.id);
            guard.release_read();
            let (mut seen, guard) = state.seen.lock.acquire_write();
            let ghost before = seen@;
            let actions = on_update(&state.config, entry, &mut seen, message);
            guard.release_write(seen);
            assert(answers(state, event@, replies, before, actions_view(actions@)));
            actions
        },
        Event::MessageDelete(message) => {
            let (mut replies, guard) = state.replies.lock.acquire_write();
            let ghost before = replies@;
            let actions = on_delete(&mut replies, message);
            guard.release_write(replies);
            assert(answers(state, event@, before, no_seen, actions_view(actions@)));
            actions
        },
        Event::ReplySent(reply) => {
            state.replies.insert(reply.token, reply.id);
            let (mut seen, guard) = state.seen.lock.acquire_write();
            let ghost before = seen@;
            let text = add_repost_counts(&mut seen, reply.id, reply.content.as_str());
            guard.release_write(seen);
            let actions = actions_for_sent(reply, text);
            assert(answers(state, event@, no_replies, before, actions_view(actions@)));
            actions
        },
        Event::Other => {
            let actions: Vec<Action> = Vec::new();
            assert(actions_view(actions@) =~= Seq::empty());
            assert(answers(state, event@, no_replies, no_seen, actions_view(actions@)));
            actions
        },
    }
}

} // verus!
