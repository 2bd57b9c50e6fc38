use vstd::prelude::*;
use std::collections::HashMap;
use crate::attach::{MediaItem, MediaKind};

verus! {

/// A JSON value as the long-poll supplier delivers it.
pub enum Json {
    Null,
    Bool(bool),
    /// A non-negative integer.
    UInt(u64),
    /// A negative integer.
    NegInt(i64),
    /// A number with a fraction or exponent; its value is never read.
    Fractional,
    Str(String),
    Array(Vec<Json>),
    Object(Vec<(String, Json)>),
}

/// Event type code of a new message.
pub const NEW_MESSAGE: i64 = 4;

/// Event type code of an edited message.
pub const EDITED_MESSAGE: i64 = 5;

/// Chat ids from here up are group conversations; lower ids are private chats.
pub const GROUP_CHAT_THRESHOLD: u64 = 2000000000;

pub open spec fn at(v: Json, i: int) -> Option<Json> {
    match v {
        Json::Array(items) => if 0 <= i < items.len() {
            Some(items@[i])
        } else {
            None
        },
        _ => None,
    }
}

pub open spec fn entry(entries: Seq<(String, Json)>, key: Seq<char>) -> Option<Json>
    decreases entries.len(),
{
    if entries.len() == 0 {
        None
    } else if entries[0].0@ == key {
        Some(entries[0].1)
    } else {
        entry(entries.skip(1), key)
    }
}

pub open spec fn field(v: Json, key: Seq<char>) -> Option<Json> {
    match v {
        Json::Object(entries) => entry(entries@, key),
        _ => None,
    }
}

pub open spec fn as_u64(v: Option<Json>) -> Option<u64> {
    match v {
        Some(Json::UInt(n)) => Some(n),
        _ => None,
    }
}

pub open spec fn as_i64(v: Option<Json>) -> Option<i64> {
    match v {
        Some(Json::UInt(n)) => if n <= i64::MAX as u64 {
            Some(n as i64)
        } else {
            None
        },
        Some(Json::NegInt(n)) => Some(n),
        _ => None,
    }
}

pub open spec fn as_str(v: Option<Json>) -> Option<Seq<char>> {
    match v {
        Some(Json::Str(s)) => Some(s@),
        _ => None,
    }
}

pub open spec fn field_of(v: Option<Json>, key: Seq<char>) -> Option<Json> {
    match v {
        Some(o) => field(o, key),
        None => None,
    }
}

pub open spec fn event_code(ev: Json) -> Option<i64> {
    as_i64(at(ev, 0))
}

pub open spec fn event_id(ev: Json) -> Option<u64> {
    as_u64(at(ev, 1))
}

pub open spec fn event_chat(ev: Json) -> Option<u64> {
    as_u64(at(ev, 3))
}

pub open spec fn event_text(ev: Json) -> Option<Seq<char>> {
    as_str(at(ev, 5))
}

pub open spec fn event_from(ev: Json) -> Option<Seq<char>> {
    as_str(field_of(at(ev, 6), "from"@))
}

pub open spec fn reply_marker(ev: Json) -> Option<Seq<char>> {
    as_str(field_of(at(ev, 7), "reply"@))
}

/// The element at `i` of an array.
pub fn json_at(v: &Json, i: usize) -> (r: Option<&Json>)
    ensures
        match r {
            Some(x) => at(*v, i as int) == Some(*x),
            None => at(*v, i as int) is None,
        },
{
    match v {
        Json::Array(items) => if i < items.len() {
            Some(&items[i])
        } else {
            None
        },
        _ => None,
    }
}

/// The value under `key` in an object; the first such entry.
pub fn json_field<'a>(v: &'a Json, key: &str) -> (r: Option<&'a Json>)
    ensures
        match r {
            Some(x) => field(*v, key@) == Some(*x),
            None => field(*v, key@) is None,
        },
{
    match v {
        Json::Object(entries) => {
            let k = String::from_str(key);
            let mut i: usize = 0;
            assert(entries@.skip(0) =~= entries@);
            while i < entries.len()
                invariant
                    k@ == key@,
                    i <= entries.len(),
                    entry(entries@.skip(i as int), key@) == entry(entries@, key@),
                    field(*v, key@) == entry(entries@, key@),
                decreases entries.len() - i,
            {
                assert(entries@.skip(i as int).skip(1) =~= entries@.skip(i + 1));
                assert(entries@.skip(i as int)[0] == entries@[i as int]);
                if entries[i].0 == k {
                    return Some(&entries[i].1);
                }
                i = i + 1;
            }
            None
        },
        _ => None,
    }
}

pub fn json_u64(v: Option<&Json>) -> (r: Option<u64>)
    ensures
        r == as_u64(match v { Some(x) => Some(*x), None => None }),
{
    match v {
        Some(Json::UInt(n)) => Some(*n),
        _ => None,
    }
}

pub fn json_i64(v: Option<&Json>) -> (r: Option<i64>)
    ensures
        r == as_i64(match v { Some(x) => Some(*x), None => None }),
{
    match v {
        Some(Json::UInt(n)) => if *n <= i64::MAX as u64 {
            Some(*n as i64)
        } else {
            None
        },
        Some(Json::NegInt(n)) => Some(*n),
        _ => None,
    }
}

pub fn json_str(v: Option<&Json>) -> (r: Option<String>)
    ensures
        match r {
            Some(s) => as_str(match v { Some(x) => Some(*x), None => None }) == Some(s@),
            None => as_str(match v { Some(x) => Some(*x), None => None }) is None,
        },
{
    match v {
        Some(Json::Str(s)) => Some(s.clone()),
        _ => None,
    }
}

pub fn json_field_of<'a>(v: Option<&'a Json>, key: &str) -> (r: Option<&'a Json>)
    ensures
        match r {
            Some(x) => field_of(match v { Some(y) => Some(*y), None => None }, key@) == Some(*x),
            None => field_of(match v { Some(y) => Some(*y), None => None }, key@) is None,
        },
{
    match v {
        Some(o) => json_field(o, key),
        None => None,
    }
}

/// Where a mirrored chat goes on the destination side.
pub enum ChatTarget {
    Id(i64),
    Username(String),
}

impl ChatTarget {
    pub fn duplicate(&self) -> (r: ChatTarget)
        ensures
            r == *self,
    {
        match self {
            ChatTarget::Id(i) => ChatTarget::Id(*i),
            ChatTarget::Username(s) => ChatTarget::Username(s.clone()),
        }
    }
}

/// Source chat id to destination chat; read-only once loaded.
pub struct ChatMapping {
    chats: HashMap<u64, ChatTarget>,
}

impl View for ChatMapping {
    type V = Map<u64, ChatTarget>;

    closed spec fn view(&self) -> Map<u64, ChatTarget> {
        self.chats@
    }
}

impl ChatMapping {
    pub fn new() -> (r: ChatMapping)
        ensures
            r@ == Map::<u64, ChatTarget>::empty(),
    {
        ChatMapping { chats: HashMap::new() }
    }

    pub fn insert(&mut self, source: u64, target: ChatTarget)
        ensures
            final(self)@ == old(self)@.insert(source, target),
    {
        self.chats.insert(source, target);
    }

    pub fn get(&self, source: u64) -> (r: Option<&ChatTarget>)
        ensures
            match r {
                Some(t) => self@.contains_key(source) && self@[source] == *t,
                None => !self@.contains_key(source),
            },
    {
        self.chats.get(&source)
    }
}

/// The destination message that a source message produced: a plain text
/// message, or a media group whose text lives in its first item's caption.
#[derive(Clone, Copy, Debug, PartialEq, Eq, Structural)]
pub enum DestRef {
    TextMessage(i32),
    MediaCaption(i32),
}

/// Source message id to the destination message it produced.
pub struct CorrelationStore {
    entries: HashMap<u64, DestRef>,
}

impl View for CorrelationStore {
    type V = Map<u64, DestRef>;

    closed spec fn view(&self) -> Map<u64, DestRef> {
        self.entries@
    }
}

impl CorrelationStore {
    pub fn new() -> (r: CorrelationStore)
        ensures
            r@ == Map::<u64, DestRef>::empty(),
    {
        CorrelationStore { entries: HashMap::new() }
    }

    pub fn get(&self, id: u64) -> (r: Option<DestRef>)
        ensures
            match r {
                Some(d) => self@.contains_key(id) && self@[id] == d,
                None => !self@.contains_key(id),
            },
    {
        match self.entries.get(&id) {
            Some(d) => Some(*d),
            None => None,
        }
    }

    pub fn record(&mut self, id: u64, dest: DestRef)
        ensures
            final(self)@ == old(self)@.insert(id, dest),
    {
        self.entries.insert(id, dest);
    }
}

#[verifier::external_type_specification]
#[verifier::external_body]
pub struct ExJsonValue(serde_json::Value);

/// What JSON parsing makes of a text: its value, or nothing when the text is
/// not JSON.
pub uninterp spec fn json_of(s: Seq<char>) -> Option<Json>;

/// Relies on `serde_json::Value`'s variants: turns a parsed value into the
/// library's model variant for variant, numbers by `as_u64` then `as_i64`.
#[verifier::external_body]
fn json_from_value(v: serde_json::Value) -> Json {
    match v {
        serde_json::Value::Null => Json::Null,
        serde_json::Value::Bool(b) => Json::Bool(b),
        serde_json::Value::Number(n) => match (n.as_u64(), n.as_i64()) {
            (Some(u), _) => Json::UInt(u),
            (None, Some(i)) => Json::NegInt(i),
            (None, None) => Json::Fractional,
        },
        serde_json::Value::String(s) => Json::Str(s),
        serde_json::Value::Array(a) => Json::Array(a.into_iter().map(json_from_value).collect()),
        serde_json::Value::Object(o) => Json::Object(o.into_iter().map(|(k, v)| (k, json_from_value(v))).collect()),
    }
}

/// Relies on `serde_json::from_str::<serde_json::Value>`: the outcome depends
/// on the text alone.
#[verifier::external_body]
fn parse_json(s: &str) -> (r: Option<Json>)
    ensures
        r == json_of(s@),
{
    match serde_json::from_str::<serde_json::Value>(s) {
        Ok(v) => Some(json_from_value(v)),
        Err(_) => None,
    }
}

/// The conversation-local id that a reply marker names.
pub open spec fn marker_cmid(parsed: Option<Json>) -> Option<u64> {
    as_u64(field_of(parsed, "conversation_message_id"@))
}

/// Reads the conversation-local id out of a parsed reply marker.
pub fn marker_message_id(parsed: &Option<Json>) -> (r: Option<u64>)
    ensures
        r == marker_cmid(*parsed),
{
    match parsed {
        Some(v) => json_u64(json_field(v, "conversation_message_id")),
        None => None,
    }
}

/// The conversation-local id that the reply marker text names, if it is JSON
/// holding one.
pub fn reply_message_id(marker: &str) -> (r: Option<u64>)
    ensures
        r == marker_cmid(json_of(marker@)),
{
    let parsed = parse_json(marker);
    marker_message_id(&parsed)
}

/// What the dispatcher does with one raw event.
pub enum Plan {
    /// Not a relayed event, a private chat, an unmapped chat, or an edit of a
    /// message that was never relayed.
    Ignore,
    /// The event lacks a field at an expected position.
    Malformed,
    /// Relay a new message.
    Send {
        id: u64,
        source_chat: u64,
        chat: ChatTarget,
        text: String,
        from: String,
        reply_to: Option<u64>,
    },
    /// Edit the destination message that `target` names.
    Edit { id: u64, chat: ChatTarget, text: String, from: String, target: DestRef },
}

/// The decision of a plan, without its data.
pub enum PlanShape {
    Ignore,
    Malformed,
    Send,
    Edit(DestRef),
}

pub open spec fn shape(p: Plan) -> PlanShape {
    match p {
        Plan::Ignore => PlanShape::Ignore,
        Plan::Malformed => PlanShape::Malformed,
        Plan::Send { .. } => PlanShape::Send,
        Plan::Edit { target, .. } => PlanShape::Edit(target),
    }
}

/// The decision for an event: only new and edited messages of mapped group
/// chats are relayed, and an edit only where the message was relayed before.
pub open spec fn planned(ev: Json, chats: Map<u64, ChatTarget>, store: Map<u64, DestRef>) -> PlanShape {
    let code = event_code(ev);
    if code != Some(NEW_MESSAGE) && code != Some(EDITED_MESSAGE) {
        PlanShape::Ignore
    } else if event_id(ev) is None || event_chat(ev) is None {
        PlanShape::Malformed
    } else if event_chat(ev).unwrap() < GROUP_CHAT_THRESHOLD {
        PlanShape::Ignore
    } else if event_text(ev) is None || event_from(ev) is None {
        PlanShape::Malformed
    } else if !chats.contains_key(event_chat(ev).unwrap()) {
        PlanShape::Ignore
    } else if code == Some(NEW_MESSAGE) {
        PlanShape::Send
    } else if store.contains_key(event_id(ev).unwrap()) {
        PlanShape::Edit(store[event_id(ev).unwrap()])
    } else {
        PlanShape::Ignore
    }
}

pub open spec fn planned_reply(ev: Json) -> Option<u64> {
    match reply_marker(ev) {
        Some(m) => marker_cmid(json_of(m)),
        None => None,
    }
}

/// Classifies a raw event and gathers what relaying it needs.
pub fn plan_event(ev: &Json, chats: &ChatMapping, store: &CorrelationStore) -> (r: Plan)
    ensures
        shape(r) == planned(*ev, chats@, store@),
        match r {
            Plan::Send { id, source_chat, chat, text, from, reply_to } => Some(id) == event_id(*ev)
                && Some(source_chat) == event_chat(*ev) && chat
                == chats@[event_chat(*ev).unwrap()] && Some(text@) == event_text(*ev) && Some(
                from@,
            ) == event_from(*ev) && reply_to == planned_reply(*ev),
            Plan::Edit { id, chat, text, from, .. } => Some(id) == event_id(*ev) && chat
                == chats@[event_chat(*ev).unwrap()] && Some(text@) == event_text(*ev) && Some(
                from@,
            ) == event_from(*ev),
            _ => true,
        },
{
    let code = json_i64(json_at(ev, 0));
    let is_new = match code {
        Some(c) => c == NEW_MESSAGE,
        None => false,
    };
    let is_edit = match code {
        Some(c) => c == EDITED_MESSAGE,
        None => false,
    };
    if !is_new && !is_edit {
        return Plan::Ignore;
    }
    let id = match json_u64(json_at(ev, 1)) {
        Some(x) => x,
        None => return Plan::Malformed,
    };
    let chat_id = match json_u64(json_at(ev, 3)) {
        Some(x) => x,
        None => return Plan::Malformed,
    };
    if chat_id < GROUP_CHAT_THRESHOLD {
        return Plan::Ignore;
    }
    let text = match json_str(json_at(ev, 5)) {
        Some(t) => t,
        None => return Plan::Malformed,
    };
    let from = match json_str(json_field_of(json_at(ev, 6), "from")) {
        Some(f) => f,
        None => return Plan::Malformed,
    };
    let chat = match chats.get(chat_id) {
        Some(t) => t.duplicate(),
        None => return Plan::Ignore,
    };
    if is_new {
        let reply_to = match json_str(json_field_of(json_at(ev, 7), "reply")) {
            Some(m) => reply_message_id(m.as_str()),
            None => None,
        };
        Plan::Send { id, source_chat: chat_id, chat, text, from, reply_to }
    } else {
        match store.get(id) {
            Some(target) => Plan::Edit { id, chat, text, from, target },
            None => Plan::Ignore,
        }
    }
}

/// The destination message to reply to: the one that the replied-to source
/// message produced, if it was relayed.
pub fn reply_target(store: &CorrelationStore, source: Option<u64>) -> (r: Option<i32>)
    ensures
        r == match source {
            Some(s) => if store@.contains_key(s) {
                match store@[s] {
                    DestRef::TextMessage(m) => Some(m),
                    DestRef::MediaCaption(m) => Some(m),
                }
            } else {
                None
            },
            None => None,
        },
{
    match source {
        Some(s) => match store.get(s) {
            Some(DestRef::TextMessage(m)) => Some(m),
            Some(DestRef::MediaCaption(m)) => Some(m),
            None => None,
        },
        None => None,
    }
}

/// One item of a media group; only the first carries the caption.
pub struct OutMedia {
    pub kind: MediaKind,
    pub url: String,
    pub caption: Option<String>,
}

/// What goes to the destination for a new message.
pub enum Outgoing {
    /// A media group, the message text in the first item's caption.
    MediaGroup { items: Vec<OutMedia>, reply_to: Option<i32> },
    /// A plain text message, sent with link previews off.
    Text { body: String, reply_to: Option<i32> },
}

/// Builds the destination message: a media group when there is media to
/// relay, the body as the first item's caption; else a text message.
pub fn outgoing_message(body: String, media: Vec<MediaItem>, reply_to: Option<i32>) -> (r: Outgoing)
    ensures
        (r is MediaGroup) == (media.len() > 0),
        match r {
            Outgoing::MediaGroup { items, reply_to: rt } => rt == reply_to && items.len()
                == media.len() && forall|i: int|
                0 <= i < items.len() ==> (#[trigger] items@[i]).kind == media@[i].kind
                    && items@[i].url@ == media@[i].url@ && (if i == 0 {
                    items@[i].caption is Some && items@[i].caption.unwrap()@ == body@
                } else {
                    items@[i].caption is None
                }),
            Outgoing::Text { body: b, reply_to: rt } => rt == reply_to && b@ == body@,
        },
{
    if media.len() == 0 {
        return Outgoing::Text { body, reply_to };
    }
    let mut items: Vec<OutMedia> = Vec::new();
    let mut i: usize = 0;
    while i < media.len()
        invariant
            i <= media.len(),
            items.len() == i,
            forall|k: int|
                0 <= k < i ==> (#[trigger] items@[k]).kind == media@[k].kind && items@[k].url@
                    == media@[k].url@ && (if k == 0 {
                    items@[k].caption is Some && items@[k].caption.unwrap()@ == body@
                } else {
                    items@[k].caption is None
                }),
        decreases media.len() - i,
    {
        let caption = if i == 0 {
            Some(body.clone())
        } else {
            None
        };
        items.push(OutMedia { kind: media[i].kind, url: media[i].url.clone(), caption });
        i = i + 1;
    }
    Outgoing::MediaGroup { items, reply_to }
}

/// The correlation that relaying a new message as `out` leaves, when its
/// first destination message got `dest_id`.
pub open spec fn sent_ref(out: Outgoing, dest_id: i32) -> DestRef {
    if out is MediaGroup {
        DestRef::MediaCaption(dest_id)
    } else {
        DestRef::TextMessage(dest_id)
    }
}

/// Records that source message `id` was relayed as `out`, whose first
/// destination message got `dest_id`.
pub fn record_sent(store: &mut CorrelationStore, id: u64, out: &Outgoing, dest_id: i32)
    ensures
        final(store)@ == old(store)@.insert(id, sent_ref(*out, dest_id)),
{
    let dest = match out {
        Outgoing::MediaGroup { .. } => DestRef::MediaCaption(dest_id),
        Outgoing::Text { .. } => DestRef::TextMessage(dest_id),
    };
    store.record(id, dest);
}

/// How to bring an earlier destination message up to date.
pub enum EditAction {
    Text { message: i32, body: String },
    Caption { message: i32, body: String },
}

/// A text edit for a text message, a caption edit for a media group.
pub fn edit_action(target: DestRef, body: String) -> (r: EditAction)
    ensures
        match target {
            DestRef::TextMessage(m) => r matches EditAction::Text { message, body: b } && message
                == m && b@ == body@,
            DestRef::MediaCaption(m) => r matches EditAction::Caption { message, body: b }
                && message == m && b@ == body@,
        },
{
    match target {
        DestRef::TextMessage(m) => EditAction::Text { message: m, body },
        DestRef::MediaCaption(m) => EditAction::Caption { message: m, body },
    }
}

/// Relaying a new message adds exactly one correlation, under its id: a
/// media caption when there was media to relay, else a text message. `out`
/// is a message built from `media_count` media items, as `outgoing_message`
/// builds it.
pub proof fn lemma_send_records_one_entry(
    store: Map<u64, DestRef>,
    id: u64,
    out: Outgoing,
    media_count: nat,
    dest_id: i32,
)
    requires
        (out is MediaGroup) == (media_count > 0),
    ensures
        store.insert(id, sent_ref(out, dest_id)).dom() == store.dom().insert(id),
        (store.insert(id, sent_ref(out, dest_id))[id] is MediaCaption) == (media_count > 0),
        (store.insert(id, sent_ref(out, dest_id))[id] is TextMessage) == (media_count == 0),
{
}

/// An edit of a message that has no correlation is never planned as a
/// destination call.
pub proof fn lemma_edit_without_correlation(
    ev: Json,
    chats: Map<u64, ChatTarget>,
    store: Map<u64, DestRef>,
)
    requires
        event_code(ev) == Some(EDITED_MESSAGE),
        event_id(ev) is Some,
        !store.contains_key(event_id(ev).unwrap()),
    ensures
        !(planned(ev, chats, store) is Send),
        !(planned(ev, chats, store) is Edit),
{
}

/// Events of private chats never reach the formatter, whatever their type.
pub proof fn lemma_private_chat_ignored(
    ev: Json,
    chats: Map<u64, ChatTarget>,
    store: Map<u64, DestRef>,
)
    requires
        event_chat(ev) is Some,
        event_chat(ev).unwrap() < GROUP_CHAT_THRESHOLD,
    ensures
        !(planned(ev, chats, store) is Send),
        !(planned(ev, chats, store) is Edit),
{
}

} // verus!
