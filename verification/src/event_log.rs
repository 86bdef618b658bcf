//! The per-conversation event log kept for the live UI, and the global
//! status message shown while a long operation runs.

use vstd::prelude::*;
use crate::keyed::{
    key_lookup, key_position, lemma_append_value, lemma_replace_value,
};
use crate::text::{
    chars_of, ends_with, ends_with_exec, slice_of, starts_with, starts_with_exec, string_from,
};

verus! {

/// The most events kept in memory for one conversation.
pub const MAX_EVENTS_PER_CONVERSATION: usize = 1000;

/// One logged event of a conversation; `timestamp` is in milliseconds.
pub struct ConversationEvent {
    pub timestamp: i64,
    pub event_type: String,
    pub message: String,
}

impl ConversationEvent {
    /// A copy of the event, field by field.
    pub fn copy(&self) -> (r: ConversationEvent)
        ensures
            r == *self,
    {
        ConversationEvent {
            timestamp: self.timestamp,
            event_type: self.event_type.clone(),
            message: self.message.clone(),
        }
    }
}

/// Copies of a list of events.
pub fn copy_events(events: &Vec<ConversationEvent>) -> (r: Vec<ConversationEvent>)
    ensures
        r@ == events@,
{
    let mut r: Vec<ConversationEvent> = Vec::new();
    let mut i: usize = 0;
    while i < events.len()
        invariant
            i <= events.len(),
            r@ == events@.take(i as int),
        decreases events.len() - i,
    {
        r.push(events[i].copy());
        proof {
            assert(events@.take(i + 1) =~= events@.take(i as int).push(events@[i as int]));
        }
        i += 1;
    }
    proof {
        assert(events@.take(i as int) =~= events@);
    }
    r
}

/// The suffix `.txt`.
pub open spec fn txt_suffix() -> Seq<char> {
    seq!['.', 't', 'x', 't']
}

/// The key of a conversation id: the id without any trailing `.txt`
/// suffixes (what `str::trim_end_matches(".txt")` gives).
pub open spec fn conversation_key(id: Seq<char>) -> Seq<char>
    decreases id.len(),
{
    if ends_with(id, txt_suffix()) {
        conversation_key(id.take(id.len() - 4))
    } else {
        id
    }
}

/// The conversation key of `conversation_id`.
pub fn conversation_key_of(conversation_id: &str) -> (r: String)
    ensures
        r@ == conversation_key(conversation_id@),
{
    let suffix = chars_of(".txt");
    assert(suffix@ == txt_suffix()) by {
        reveal_strlit(".txt");
    }
    let mut id = chars_of(conversation_id);
    while ends_with_exec(&id, &suffix)
        invariant
            suffix@ == txt_suffix(),
            conversation_key(id@) == conversation_key(conversation_id@),
        decreases id.len(),
    {
        let n = id.len();
        let ghost before = id@;
        id = slice_of(&id, 0, n - 4);
        assert(id@ == before.take(n - 4));
    }
    string_from(&id)
}

/// An id with `.txt` appended names the same conversation as the id.
pub proof fn lemma_txt_suffix_same_conversation(id: Seq<char>)
    ensures
        conversation_key(id + txt_suffix()) == conversation_key(id),
{
    let s = id + txt_suffix();
    assert(s.skip(s.len() - 4) =~= txt_suffix());
    assert(s.take(s.len() - 4) =~= id);
}

/// A conversation key is its own key.
pub proof fn lemma_conversation_key_idempotent(id: Seq<char>)
    ensures
        conversation_key(conversation_key(id)) == conversation_key(id),
    decreases id.len(),
{
    if ends_with(id, txt_suffix()) {
        lemma_conversation_key_idempotent(id.take(id.len() - 4));
    }
}

/// After logging an event, the newest stored event of the conversation is
/// that event, and at most `MAX_EVENTS_PER_CONVERSATION` are kept: all of
/// them while there is room, else the newest ones.
pub proof fn lemma_logged_event_is_newest(before: Seq<ConversationEvent>, e: ConversationEvent)
    ensures
        keep_last(before.push(e), MAX_EVENTS_PER_CONVERSATION as nat).last() == e,
        keep_last(before.push(e), MAX_EVENTS_PER_CONVERSATION as nat).len() <= MAX_EVENTS_PER_CONVERSATION,
        before.len() < MAX_EVENTS_PER_CONVERSATION ==> keep_last(
            before.push(e),
            MAX_EVENTS_PER_CONVERSATION as nat,
        ) == before.push(e),
        before.len() >= MAX_EVENTS_PER_CONVERSATION ==> keep_last(
            before.push(e),
            MAX_EVENTS_PER_CONVERSATION as nat,
        ).len() == MAX_EVENTS_PER_CONVERSATION,
{
}

/// The last `n` items of `s` (all of them where there are at most `n`).
pub open spec fn keep_last<T>(s: Seq<T>, n: nat) -> Seq<T> {
    if s.len() > n {
        s.subrange(s.len() - n, s.len() as int)
    } else {
        s
    }
}

/// The events a conversation holds after `es` were logged into it, one by
/// one in order, starting from `start` (each step as `log_event` takes it).
pub open spec fn logged(start: Seq<ConversationEvent>, es: Seq<ConversationEvent>) -> Seq<ConversationEvent>
    decreases es.len(),
{
    if es.len() == 0 {
        start
    } else {
        keep_last(logged(start, es.drop_last()).push(es.last()), MAX_EVENTS_PER_CONVERSATION as nat)
    }
}

/// Keeping the newest `n` before adding one more keeps what keeping the
/// newest `n` after it would.
proof fn lemma_keep_last_push<T>(t: Seq<T>, x: T, n: nat)
    requires
        n > 0,
    ensures
        keep_last(keep_last(t, n).push(x), n) == keep_last(t.push(x), n),
{
    if t.len() > n {
        assert(keep_last(keep_last(t, n).push(x), n) =~= keep_last(t.push(x), n));
    }
}

/// Logging events one by one into a conversation with none keeps the newest
/// `MAX_EVENTS_PER_CONVERSATION` of them, oldest first: all of them while
/// there are at most that many, the oldest dropped first after that; a
/// conversation never holds more.
pub proof fn lemma_logs_keep_newest(es: Seq<ConversationEvent>)
    ensures
        logged(Seq::empty(), es) == keep_last(es, MAX_EVENTS_PER_CONVERSATION as nat),
        logged(Seq::empty(), es).len() <= MAX_EVENTS_PER_CONVERSATION,
    decreases es.len(),
{
    if es.len() > 0 {
        lemma_logs_keep_newest(es.drop_last());
        lemma_keep_last_push(es.drop_last(), es.last(), MAX_EVENTS_PER_CONVERSATION as nat);
        assert(es.drop_last().push(es.last()) =~= es);
    }
}

/// The in-memory event store: for each conversation key, its events,
/// oldest first.
pub struct EventStore {
    conversations: Vec<(String, Vec<ConversationEvent>)>,
}

impl EventStore {
    /// The events stored for conversation key `key` (none where it has none).
    pub closed spec fn events(self, key: Seq<char>) -> Seq<ConversationEvent> {
        match key_lookup(self.conversations@, key) {
            Some(v) => v@,
            None => Seq::empty(),
        }
    }

    /// Does the store hold an entry for conversation key `key`?
    pub closed spec fn has(self, key: Seq<char>) -> bool {
        key_lookup(self.conversations@, key) is Some
    }

    /// An empty store.
    pub fn new() -> (s: EventStore)
        ensures
            forall|k: Seq<char>| !s.has(k) && s.events(k) == Seq::<ConversationEvent>::empty(),
    {
        EventStore { conversations: Vec::new() }
    }

    /// Replace the events of `key` by `events`, creating the entry where
    /// there is none.
    fn set_events(&mut self, key: String, events: Vec<ConversationEvent>)
        ensures
            final(self).has(key@),
            final(self).events(key@) == events@,
            forall|k: Seq<char>|
                k != key@ ==> final(self).events(k) == old(self).events(k) && final(self).has(k)
                    == old(self).has(k),
    {
        let ghost kv = key@;
        match key_position(&self.conversations, key.as_str()) {
            Some(i) => {
                self.conversations.set(i, (key, events));
                proof {
                    lemma_replace_value(old(self).conversations@, self.conversations@, i as int, kv);
                }
            },
            None => {
                self.conversations.push((key, events));
                proof {
                    lemma_append_value(old(self).conversations@, self.conversations@, kv);
                }
            },
        }
    }

    /// The stored events of `key`, copied.
    fn stored(&self, key: &str) -> (r: Vec<ConversationEvent>)
        ensures
            r@ == self.events(key@),
    {
        match key_position(&self.conversations, key) {
            Some(i) => copy_events(&self.conversations[i].1),
            None => Vec::new(),
        }
    }
}

/// Log an event at time `timestamp` (milliseconds): it is appended to the
/// events of the conversation's key, of which the newest
/// `MAX_EVENTS_PER_CONVERSATION` are kept. Returns the key and the event, for
/// the caller to persist.
pub fn log_event(
    store: &mut EventStore,
    conversation_id: &str,
    event_type: &str,
    message: &str,
    timestamp: i64,
) -> (r: (String, ConversationEvent))
    ensures
        r.0@ == conversation_key(conversation_id@),
        r.1.timestamp == timestamp,
        r.1.event_type@ == event_type@,
        r.1.message@ == message@,
        final(store).has(r.0@),
        final(store).events(r.0@) == keep_last(
            old(store).events(r.0@).push(r.1),
            MAX_EVENTS_PER_CONVERSATION as nat,
        ),
        forall|k: Seq<char>|
            k != r.0@ ==> final(store).events(k) == old(store).events(k) && final(store).has(k)
                == old(store).has(k),
{
    let key = conversation_key_of(conversation_id);
    let event = ConversationEvent {
        timestamp,
        event_type: event_type.to_string(),
        message: message.to_string(),
    };
    let mut events = store.stored(key.as_str());
    events.push(event.copy());
    let ghost pushed = events@;
    if events.len() > MAX_EVENTS_PER_CONVERSATION {
        let n = events.len();
        events = events.split_off(n - MAX_EVENTS_PER_CONVERSATION);
    }
    assert(events@ == keep_last(pushed, MAX_EVENTS_PER_CONVERSATION as nat));
    store.set_events(key.clone(), events);
    (key, event)
}

/// The events in memory for a conversation, oldest first (empty where the
/// store has none; the caller then looks in persistent storage).
pub fn get_events(store: &EventStore, conversation_id: &str) -> (r: Vec<ConversationEvent>)
    ensures
        r@ == store.events(conversation_key(conversation_id@)),
{
    let key = conversation_key_of(conversation_id);
    store.stored(key.as_str())
}

/// Remember events read back from persistent storage for a conversation that
/// had none in memory, and return them. An empty list changes nothing.
pub fn restore_events(
    store: &mut EventStore,
    conversation_id: &str,
    loaded: Vec<ConversationEvent>,
) -> (r: Vec<ConversationEvent>)
    ensures
        r@ == loaded@,
        loaded@.len() > 0 ==> final(store).events(conversation_key(conversation_id@)) == loaded@,
        loaded@.len() > 0 ==> final(store).has(conversation_key(conversation_id@)),
        forall|k: Seq<char>|
            (loaded@.len() == 0 || k != conversation_key(conversation_id@)) ==> final(store).events(
                k,
            ) == old(store).events(k) && final(store).has(k) == old(store).has(k),
{
    if loaded.len() > 0 {
        let key = conversation_key_of(conversation_id);
        let copy = copy_events(&loaded);
        store.set_events(key, copy);
    }
    loaded
}

/// The prefix of the stored level of an event.
pub open spec fn event_level_prefix() -> Seq<char> {
    seq!['e', 'v', 'e', 'n', 't', ':']
}

/// The event type stored under a log level: the level without a leading
/// `event:`, or the level itself.
pub open spec fn event_type_of_level(level: Seq<char>) -> Seq<char> {
    if starts_with(level, event_level_prefix()) {
        level.skip(6)
    } else {
        level
    }
}

/// The log level under which an event of type `event_type` is stored.
pub fn event_level(event_type: &str) -> (r: String)
    ensures
        r@ == event_level_prefix() + event_type@,
{
    let mut v = chars_of("event:");
    assert(v@ == event_level_prefix()) by {
        reveal_strlit("event:");
    }
    crate::text::append_str(&mut v, event_type);
    string_from(&v)
}

/// An event read back from a stored row: its level, message and time in
/// seconds.
pub fn event_from_row(level: &str, message: String, timestamp_secs: i64) -> (r: ConversationEvent)
    requires
        i64::MIN <= timestamp_secs * 1000 <= i64::MAX,
    ensures
        r.event_type@ == event_type_of_level(level@),
        r.message == message,
        r.timestamp == timestamp_secs * 1000,
{
    let l = chars_of(level);
    let prefix = chars_of("event:");
    assert(prefix@ == event_level_prefix()) by {
        reveal_strlit("event:");
    }
    let event_type = if starts_with_exec(&l, &prefix) {
        let n = l.len();
        let rest = slice_of(&l, 6, n);
        string_from(&rest)
    } else {
        level.to_string()
    };
    ConversationEvent { timestamp: timestamp_secs * 1000, event_type, message }
}

/// Set the global status message; an empty message clears it.
pub fn set_global_status(status: &mut Option<String>, message: &str)
    ensures
        message@.len() == 0 ==> *final(status) is None,
        message@.len() > 0 ==> (*final(status) matches Some(s) && s@ == message@),
{
    *status = if message.is_empty() {
        None
    } else {
        Some(message.to_string())
    };
}

/// Clear the global status message.
pub fn clear_global_status(status: &mut Option<String>)
    ensures
        *final(status) is None,
{
    *status = None;
}

/// The global status message, copied.
pub fn get_global_status(status: &Option<String>) -> (r: Option<String>)
    ensures
        r == *status,
{
    match status {
        Some(s) => Some(s.clone()),
        None => None,
    }
}

} // verus!
