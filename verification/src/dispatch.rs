use crate::cache::{
    has_key, lemma_place_of, make_room, place_of, state_of, with_state, CacheEntry, InsertToken,
    ReplyCache, SeenCache,
};
use crate::config::{Config, ConfigView};
use crate::pass::{applied_all, optional_text, Pass};
use crate::repost::{add_repost_counts, repost_counts};
use vstd::prelude::*;

verus! {

/// A message that was sent to a channel.
#[derive(Clone, PartialEq, Eq, Debug)]
pub struct Created {
    pub id: u64,
    pub channel_id: u64,
    pub author_id: u64,
    pub author_is_bot: bool,
    pub content: String,
    pub has_embeds: bool,
}

/// A message that was edited.
#[derive(Clone, PartialEq, Eq, Debug)]
pub struct Edited {
    pub id: u64,
    pub channel_id: u64,
    pub content: String,
    pub has_embeds: bool,
}

/// A message that was deleted.
#[derive(Clone, PartialEq, Eq, Debug)]
pub struct Deleted {
    pub id: u64,
    pub channel_id: u64,
}

/// A reply of the bot that has gone out, with the token of the reservation
/// that it was sent for.
#[derive(Clone, PartialEq, Eq, Debug)]
pub struct Sent {
    pub token: InsertToken,
    pub id: u64,
    pub channel_id: u64,
    pub content: String,
}

/// What the bot is told.
#[derive(Clone, PartialEq, Eq, Debug)]
pub enum Event {
    MessageCreate(Created),
    MessageUpdate(Edited),
    MessageDelete(Deleted),
    ReplySent(Sent),
    /// Anything else; the bot does nothing about it.
    Other,
}

/// What the bot asks to be done.
#[derive(Clone, PartialEq, Eq, Debug)]
pub enum Action {
    /// Suppress the embeds of a message, after the given delay.
    SuppressEmbeds { channel_id: u64, message_id: u64, delay_millis: u64 },
    /// Send `content` as a reply to the message `reply_to`, and then tell
    /// the bot that it was sent, with this token.
    CreateReply { channel_id: u64, reply_to: u64, content: String, token: InsertToken },
    /// Give a message a new text, or leave its text where `text` is not
    /// set.
    UpdateMessage { channel_id: u64, message_id: u64, text: Option<String> },
    /// Delete a message.
    DeleteMessage { channel_id: u64, message_id: u64 },
}

/// A message that was sent, by the values that it holds.
pub struct CreatedView {
    pub id: u64,
    pub channel_id: u64,
    pub author_id: u64,
    pub author_is_bot: bool,
    pub content: Seq<char>,
    pub has_embeds: bool,
}

/// A message that was edited, by the values that it holds.
pub struct EditedView {
    pub id: u64,
    pub channel_id: u64,
    pub content: Seq<char>,
    pub has_embeds: bool,
}

/// A reply that has gone out, by the values that it holds.
pub struct SentView {
    pub source: u64,
    pub id: u64,
    pub channel_id: u64,
    pub content: Seq<char>,
}

/// An action by the values that it holds; a token by its key and its place.
pub enum ActionView {
    SuppressEmbeds { channel_id: u64, message_id: u64, delay_millis: u64 },
    CreateReply { channel_id: u64, reply_to: u64, content: Seq<char>, source: u64, idx: usize },
    UpdateMessage { channel_id: u64, message_id: u64, text: Option<Seq<char>> },
    DeleteMessage { channel_id: u64, message_id: u64 },
}

impl View for Created {
    type V = CreatedView;

    open spec fn view(&self) -> CreatedView {
        CreatedView {
            id: self.id,
            channel_id: self.channel_id,
            author_id: self.author_id,
            author_is_bot: self.author_is_bot,
            content: self.content@,
            has_embeds: self.has_embeds,
        }
    }
}

impl View for Edited {
    type V = EditedView;

    open spec fn view(&self) -> EditedView {
        EditedView {
            id: self.id,
            channel_id: self.channel_id,
            content: self.content@,
            has_embeds: self.has_embeds,
        }
    }
}

impl View for Sent {
    type V = SentView;

    open spec fn view(&self) -> SentView {
        SentView {
            source: self.token.source(),
            id: self.id,
            channel_id: self.channel_id,
            content: self.content@,
        }
    }
}

impl View for Action {
    type V = ActionView;

    open spec fn view(&self) -> ActionView {
        match *self {
            Action::SuppressEmbeds { channel_id, message_id, delay_millis } => {
                ActionView::SuppressEmbeds { channel_id, message_id, delay_millis }
            },
            Action::CreateReply { channel_id, reply_to, content, token } => {
                ActionView::CreateReply {
                    channel_id,
                    reply_to,
                    content: content@,
                    source: token.source(),
                    idx: token.idx(),
                }
            },
            Action::UpdateMessage { channel_id, message_id, text } => {
                ActionView::UpdateMessage { channel_id, message_id, text: optional_text(text) }
            },
            Action::DeleteMessage { channel_id, message_id } => {
                ActionView::DeleteMessage { channel_id, message_id }
            },
        }
    }
}

/// A list of actions, each by its view.
pub open spec fn actions_view(actions: Seq<Action>) -> Seq<ActionView> {
    Seq::new(actions.len(), |i: int| actions[i]@)
}

/// The request to suppress the embeds of a message, if it has any.
pub open spec fn suppression(
    config: ConfigView,
    channel_id: u64,
    message_id: u64,
    has_embeds: bool,
) -> Seq<ActionView> {
    if has_embeds {
        seq![
            ActionView::SuppressEmbeds {
                channel_id,
                message_id,
                delay_millis: config.suppress_delay_millis,
            },
        ]
    } else {
        Seq::empty()
    }
}

/// What a new message does to the reply cache, and what is to be done.
///
/// A message of a bot or of an ignored user, or one without a link, does
/// nothing. Otherwise the embeds of the message are suppressed if it has
/// any, and the message is reserved; if the reservation is granted, the
/// rewritten links are to be sent as a reply.
pub open spec fn create_plan(
    config: ConfigView,
    replies: Seq<(u64, CacheEntry<u64>)>,
    capacity: nat,
    message: CreatedView,
) -> (Seq<(u64, CacheEntry<u64>)>, Seq<ActionView>) {
    if message.author_is_bot || config.ignored_users.contains(message.author_id) {
        (replies, Seq::empty())
    } else {
        match applied_all(config.passes, message.content) {
            None => (replies, Seq::empty()),
            Some(content) => {
                let suppress = suppression(
                    config,
                    message.channel_id,
                    message.id,
                    message.has_embeds,
                );
                let base = make_room(replies, capacity);
                if capacity == 0 || has_key(base, message.id) {
                    (base, suppress)
                } else {
                    let at = place_of(base, message.id);
                    (
                        base.insert(at, (message.id, CacheEntry::Pending)),
                        suppress.push(
                            ActionView::CreateReply {
                                channel_id: message.channel_id,
                                reply_to: message.id,
                                content,
                                source: message.id,
                                idx: at as usize,
                            },
                        ),
                    )
                }
            },
        }
    }
}

/// What a reply that has gone out does to the two caches, and what is to
/// be done: the reservation is filled with the reply, the links of the
/// reply are entered as seen, and the reply gets a new text if one of them
/// was seen before.
pub open spec fn sent_plan(
    replies: Seq<(u64, CacheEntry<u64>)>,
    seen: Seq<(u64, CacheEntry<Seq<char>>)>,
    seen_capacity: nat,
    reply: SentView,
) -> (Seq<(u64, CacheEntry<u64>)>, Seq<(u64, CacheEntry<Seq<char>>)>, Seq<ActionView>) {
    let counts = repost_counts(seen, seen_capacity, reply.id, reply.content);
    (
        with_state(replies, reply.source, CacheEntry::Filled(reply.id)),
        counts.0,
        sent_actions(reply, counts.1),
    )
}

/// What an edited message does to the cache of seen links, and what is to
/// be done, given the state `entry` that the reply cache holds for the
/// message.
///
/// A message that the reply cache does not know does nothing. Otherwise its
/// embeds are suppressed if it has any; and if its reply has gone out and
/// the message has a text, the reply follows the edit: it gets the links of
/// the new text, or it is deleted where the new text has none.
pub open spec fn update_plan(
    config: ConfigView,
    entry: Option<CacheEntry<u64>>,
    seen: Seq<(u64, CacheEntry<Seq<char>>)>,
    seen_capacity: nat,
    message: EditedView,
) -> (Seq<(u64, CacheEntry<Seq<char>>)>, Seq<ActionView>) {
    match entry {
        None => (seen, Seq::empty()),
        Some(state) => {
            let suppress = suppression(
                config,
                message.channel_id,
                message.id,
                message.has_embeds,
            );
            match state {
                CacheEntry::Filled(reply_id) => if message.content.len() > 0 {
                    match applied_all(config.passes, message.content) {
                        Some(content) => {
                            let counts = repost_counts(seen, seen_capacity, reply_id, content);
                            (
                                counts.0,
                                suppress.push(
                                    ActionView::UpdateMessage {
                                        channel_id: message.channel_id,
                                        message_id: reply_id,
                                        text: counts.1,
                                    },
                                ),
                            )
                        },
                        None => (
                            seen,
                            suppress.push(
                                ActionView::DeleteMessage {
                                    channel_id: message.channel_id,
                                    message_id: reply_id,
                                },
                            ),
                        ),
                    }
                } else {
                    (seen, suppress)
                },
                CacheEntry::Pending => (seen, suppress),
            }
        },
    }
}

/// What a deleted message does to the reply cache, and what is to be done:
/// the message stays reserved, and its reply is deleted if it has gone out.
pub open spec fn delete_plan(
    replies: Seq<(u64, CacheEntry<u64>)>,
    id: u64,
    channel_id: u64,
) -> (Seq<(u64, CacheEntry<u64>)>, Seq<ActionView>) {
    (
        with_state(replies, id, CacheEntry::Pending),
        match state_of(replies, id) {
            Some(CacheEntry::Filled(reply_id)) => seq![
                ActionView::DeleteMessage { channel_id, message_id: reply_id },
            ],
            _ => Seq::empty(),
        },
    )
}

/// Decides what to do about a new message.
pub fn on_create(config: &Config, replies: &mut ReplyCache, message: &Created) -> (actions: Vec<
    Action,
>)
    requires
        old(replies).wf(),
    ensures
        final(replies).wf(),
        final(replies).capacity() == old(replies).capacity(),
        (final(replies)@, actions_view(actions@)) == create_plan(
            config@,
            old(replies)@,
            old(replies).capacity() as nat,
            message@,
        ),
{
    let mut actions: Vec<Action> = Vec::new();
    if message.author_is_bot || config.ignores(message.author_id) {
        return actions;
    }
    match Pass::apply_all(config.passes.as_slice(), message.content.as_str()) {
        None => actions,
        Some(content) => {
            if message.has_embeds {
                actions.push(
                    Action::SuppressEmbeds {
                        channel_id: message.channel_id,
                        message_id: message.id,
                        delay_millis: config.suppress_delay_millis,
                    },
                );
            }
            match replies.file_pending(message.id) {
                Some(token) => {
                    proof {
                        lemma_place_of(
                            make_room(old(replies)@, old(replies).capacity() as nat),
                            message.id,
                            token.idx() as int,
                        );
                    }
                    actions.push(
                        Action::CreateReply {
                            channel_id: message.channel_id,
                            reply_to: message.id,
                            content,
                            token,
                        },
                    );
                    actions
                },
                None => actions,
            }
        },
    }
}

/// What is to be done once the links of a reply were counted: the reply gets
/// the text with the count, if there is one.
pub open spec fn sent_actions(reply: SentView, text: Option<Seq<char>>) -> Seq<ActionView> {
    match text {
        Some(text) => seq![
            ActionView::UpdateMessage {
                channel_id: reply.channel_id,
                message_id: reply.id,
                text: Some(text),
            },
        ],
        None => Seq::empty(),
    }
}

/// Says what is to be done once the links of a reply were counted.
pub fn actions_for_sent(reply: &Sent, text: Option<String>) -> (actions: Vec<Action>)
    ensures
        actions_view(actions@) == sent_actions(reply@, optional_text(text)),
{
    let mut actions: Vec<Action> = Vec::new();
    if let Some(text) = text {
        actions.push(
            Action::UpdateMessage {
                channel_id: reply.channel_id,
                message_id: reply.id,
                text: Some(text),
            },
        );
    }
    actions
}

/// Decides what to do once a reply has gone out.
pub fn on_sent(replies: &mut ReplyCache, seen: &mut SeenCache, reply: &Sent) -> (actions: Vec<
    Action,
>)
    requires
        old(replies).wf(),
        old(seen).wf(),
    ensures
        final(replies).wf(),
        final(replies).capacity() == old(replies).capacity(),
        final(seen).wf(),
        final(seen).capacity() == old(seen).capacity(),
        (final(replies)@, final(seen)@, actions_view(actions@)) == sent_plan(
            old(replies)@,
            old(seen)@,
            old(seen).capacity() as nat,
            reply@,
        ),
{
    replies.insert(reply.token, reply.id);
    let text = add_repost_counts(seen, reply.id, reply.content.as_str());
    actions_for_sent(reply, text)
}

/// Decides what to do about an edited message, given the state `entry`
/// that the reply cache holds for it.
pub fn on_update(
    config: &Config,
    entry: Option<CacheEntry<u64>>,
    seen: &mut SeenCache,
    message: &Edited,
) -> (actions: Vec<Action>)
    requires
        old(seen).wf(),
    ensures
        final(seen).wf(),
        final(seen).capacity() == old(seen).capacity(),
        (final(seen)@, actions_view(actions@)) == update_plan(
            config@,
            entry,
            old(seen)@,
            old(seen).capacity() as nat,
            message@,
        ),
{
    let mut actions: Vec<Action> = Vec::new();
    let state = match entry {
        None => {
            return actions;
        },
        Some(state) => state,
    };
    if message.has_embeds {
        actions.push(
            Action::SuppressEmbeds {
                channel_id: message.channel_id,
                message_id: message.id,
                delay_millis: config.suppress_delay_millis,
            },
        );
    }
    match state {
        CacheEntry::Filled(reply_id) => {
            if !message.content.as_str().is_empty() {
                match Pass::apply_all(config.passes.as_slice(), message.content.as_str()) {
                    Some(content) => {
                        let text = add_repost_counts(seen, reply_id, content.as_str());
                        actions.push(
                            Action::UpdateMessage {
                                channel_id: message.channel_id,
                                message_id: reply_id,
                                text,
                            },
                        );
                    },
                    None => {
                        actions.push(
                            Action::DeleteMessage {
                                channel_id: message.channel_id,
                                message_id: reply_id,
                            },
                        );
                    },
                }
            }
        },
        CacheEntry::Pending => {},
    }
    actions
}

/// Decides what to do about a deleted message.
pub fn on_delete(replies: &mut ReplyCache, message: &Deleted) -> (actions: Vec<Action>)
    requires
        old(replies).wf(),
    ensures
        final(replies).wf(),
        final(replies).capacity() == old(replies).capacity(),
        (final(replies)@, actions_view(actions@)) == delete_plan(
            old(replies)@,
            message.id,
            message.channel_id,
        ),
{
    let mut actions: Vec<Action> = Vec::new();
    match replies.take_entry(message.id) {
        Some(CacheEntry::Filled(reply_id)) => {
            actions.push(
                Action::DeleteMessage { channel_id: message.channel_id, message_id: reply_id },
            );
        },
        _ => {},
    }
    actions
}

/// The settings and the two caches, by the values that they hold.
pub struct StateView {
    pub config: ConfigView,
    pub replies: Seq<(u64, CacheEntry<u64>)>,
    pub seen: Seq<(u64, CacheEntry<Seq<char>>)>,
}

/// The view of an event.
pub enum EventView {
    MessageCreate(CreatedView),
    MessageUpdate(EditedView),
    MessageDelete { id: u64, channel_id: u64 },
    ReplySent(SentView),
    Other,
}

impl View for Event {
    type V = EventView;

    open spec fn view(&self) -> EventView {
        match *self {
            Event::MessageCreate(message) => EventView::MessageCreate(message@),
            Event::MessageUpdate(message) => EventView::MessageUpdate(message@),
            Event::MessageDelete(message) => EventView::MessageDelete {
                id: message.id,
                channel_id: message.channel_id,
            },
            Event::ReplySent(reply) => EventView::ReplySent(reply@),
            Event::Other => EventView::Other,
        }
    }
}

/// What an event does to the two caches, and what is to be done about it.
pub open spec fn dispatch_plan(
    state: StateView,
    reply_capacity: nat,
    seen_capacity: nat,
    event: EventView,
) -> (StateView, Seq<ActionView>) {
    match event {
        EventView::MessageCreate(message) => {
            let plan = create_plan(state.config, state.replies, reply_capacity, message);
            (StateView { config: state.config, replies: plan.0, seen: state.seen }, plan.1)
        },
        EventView::MessageUpdate(message) => {
            let plan = update_plan(
                state.config,
                state_of(state.replies, message.id),
                state.seen,
                seen_capacity,
                message,
            );
            (StateView { config: state.config, replies: state.replies, seen: plan.0 }, plan.1)
        },
        EventView::MessageDelete { id, channel_id } => {
            let plan = delete_plan(state.replies, id, channel_id);
            (StateView { config: state.config, replies: plan.0, seen: state.seen }, plan.1)
        },
        EventView::ReplySent(reply) => {
            let plan = sent_plan(state.replies, state.seen, seen_capacity, reply);
            (StateView { config: state.config, replies: plan.0, seen: plan.1 }, plan.2)
        },
        EventView::Other => (state, Seq::empty()),
    }
}

/// Takes one event to a pair of caches that have one owner: changes the
/// caches as the event asks, and says what is to be done about it.
pub fn dispatch_owned(
    config: &Config,
    replies: &mut ReplyCache,
    seen: &mut SeenCache,
    event: &Event,
) -> (actions: Vec<Action>)
    requires
        old(replies).wf(),
        old(seen).wf(),
    ensures
        final(replies).wf(),
        final(replies).capacity() == old(replies).capacity(),
        final(seen).wf(),
        final(seen).capacity() == old(seen).capacity(),
        (
            StateView { config: config@, replies: final(replies)@, seen: final(seen)@ },
            actions_view(actions@),
        ) == dispatch_plan(
            StateView { config: config@, replies: old(replies)@, seen: old(seen)@ },
            old(replies).capacity() as nat,
            old(seen).capacity() as nat,
            event@,
        ),
{
    match event {
        Event::MessageCreate(message) => on_create(config, replies, message),
        Event::MessageUpdate(message) => {
            let entry = replies.get_entry(message.id);
            on_update(config, entry, seen, message)
        },
        Event::MessageDelete(message) => on_delete(replies, message),
        Event::ReplySent(reply) => on_sent(replies, seen, reply),
        Event::Other => Vec::new(),
    }
}

} // verus!
