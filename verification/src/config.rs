use crate::pass::{passes_view, Pass, PassView};
use vstd::prelude::*;

verus! {

/// The settings of the bot.
pub struct Config {
    /// The token with which the bot signs in.
    pub token: String,
    /// The number of source messages whose reply is remembered.
    pub reply_cache_size: usize,
    /// The number of replies whose link is remembered; the size of the
    /// reply cache where this is not set.
    pub seen_cache_size: Option<usize>,
    /// The users whose messages are left alone.
    pub ignored_users: Vec<u64>,
    /// How long to wait before the embeds of a message are suppressed, in
    /// milliseconds.
    pub suppress_delay_millis: u64,
    /// The rules for rewriting links, in the order in which they apply.
    pub passes: Vec<Pass>,
}

/// The settings by the values that they hold.
pub struct ConfigView {
    pub token: Seq<char>,
    pub reply_cache_size: usize,
    pub seen_cache_size: Option<usize>,
    pub ignored_users: Seq<u64>,
    pub suppress_delay_millis: u64,
    pub passes: Seq<PassView>,
}

impl View for Config {
    type V = ConfigView;

    open spec fn view(&self) -> ConfigView {
        ConfigView {
            token: self.token@,
            reply_cache_size: self.reply_cache_size,
            seen_cache_size: self.seen_cache_size,
            ignored_users: self.ignored_users@,
            suppress_delay_millis: self.suppress_delay_millis,
            passes: passes_view(self.passes@),
        }
    }
}

/// The size of the cache of seen links that the settings ask for.
pub open spec fn seen_size_of(config: ConfigView) -> usize {
    match config.seen_cache_size {
        Some(size) => size,
        None => config.reply_cache_size,
    }
}

impl Config {
    /// The size of the cache of seen links: the size that is set for it, or
    /// else the size of the reply cache.
    pub fn seen_size(&self) -> (size: usize)
        ensures
            size == seen_size_of(self@),
    {
        match self.seen_cache_size {
            Some(size) => size,
            None => self.reply_cache_size,
        }
    }

    /// Whether the messages of `user` are left alone.
    pub fn ignores(&self, user: u64) -> (ignored: bool)
        ensures
            ignored == self@.ignored_users.contains(user),
    {
        let mut i: usize = 0;
        while i < self.ignored_users.len()
            invariant
                0 <= i <= self.ignored_users@.len(),
                forall|j: int| 0 <= j < i ==> self.ignored_users@[j] != user,
            decreases self.ignored_users@.len() - i,
        {
            if self.ignored_users[i] == user {
                return true;
            }
            i = i + 1;
        }
        false
    }
}

} // verus!
