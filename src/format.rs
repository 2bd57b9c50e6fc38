use vstd::prelude::*;
use crate::attach::{action_phrase, opt_view, ChatAction, MediaItem, Resolved, SourceMessage};
use crate::markup::{escape_reserved, free_of, markdown_escape, sanitized};
use crate::mention::{format_text, mention_split, plain_text, rendered, rendered_plain, well_split};
use crate::text::{decimal, i64_to_decimal, parse_i32, signed_value};

verus! {

/// What to do to name the sender of a message.
#[derive(Clone, Copy, Debug, PartialEq, Eq, Structural)]
pub enum SenderQuery {
    /// Look up the profile of this user.
    Lookup(i32),
    /// An automated or community actor: no lookup, a fixed label.
    Bot,
    /// The actor id cannot be read: the placeholder.
    Unreadable,
}

/// A user's profile as the source platform returns it.
pub struct UserProfile {
    pub id: i64,
    pub first_name: String,
    pub last_name: String,
}

pub open spec fn query_for_value(v: int) -> SenderQuery {
    if i32::MIN <= v <= i32::MAX {
        if v > 0 { SenderQuery::Lookup(v as i32) } else { SenderQuery::Bot }
    } else {
        SenderQuery::Unreadable
    }
}

pub open spec fn query_for_text(s: Seq<char>) -> SenderQuery {
    match signed_value(s) {
        Some(v) => query_for_value(v),
        None => SenderQuery::Unreadable,
    }
}

pub open spec fn profile_link(p: UserProfile) -> Seq<char> {
    "["@ + sanitized(p.first_name@) + " "@ + sanitized(p.last_name@) + "](https://vk.com/id"@
        + decimal(p.id as int) + ")"@
}

pub open spec fn placeholder_name() -> Seq<char> {
    "???"@
}

/// The display name of a sender, given what the profile lookup returned.
pub open spec fn sender_name(q: SenderQuery, fetched: Option<UserProfile>) -> Seq<char> {
    match q {
        SenderQuery::Lookup(_) => match fetched {
            Some(p) => profile_link(p),
            None => placeholder_name(),
        },
        SenderQuery::Bot => "БОТ"@,
        SenderQuery::Unreadable => placeholder_name(),
    }
}

/// The body segment: the action phrase where there is one, else the text
/// with its mentions rendered.
pub open spec fn body_segment(text: Seq<char>, action: Option<Seq<char>>) -> Seq<char> {
    match action {
        Some(p) => p,
        None => rendered(mention_split(text).0, mention_split(text).1),
    }
}

/// The destination message: the sender in bold, a newline, the body segment
/// followed by a newline when it is not empty, then the attachment block.
pub open spec fn message_body(sender: Seq<char>, segment: Seq<char>, block: Seq<char>) -> Seq<char> {
    "*"@ + sender + "*\n"@ + segment + (if segment.len() == 0 {
        Seq::empty()
    } else {
        "\n"@
    }) + block
}

/// How to name the sender whose actor id is `id`.
pub fn sender_query_for_id(id: i64) -> (r: SenderQuery)
    ensures
        r == query_for_value(id as int),
{
    if id < i32::MIN as i64 || id > i32::MAX as i64 {
        SenderQuery::Unreadable
    } else if id > 0 {
        SenderQuery::Lookup(id as i32)
    } else {
        SenderQuery::Bot
    }
}

/// How to name the sender whose actor id is written in `from`.
pub fn sender_query(from: &str) -> (r: SenderQuery)
    ensures
        r == query_for_text(from@),
{
    match parse_i32(from) {
        Some(v) => sender_query_for_id(v as i64),
        None => SenderQuery::Unreadable,
    }
}

/// The senders to name for a fetched message's forwarded messages: one per
/// forwarded message, in order; none for a chat action, whose forwarded
/// messages are not described.
pub fn forward_sender_queries(msg: &SourceMessage) -> (r: Vec<SenderQuery>)
    ensures
        msg.action is Some ==> r.len() == 0,
        msg.action is None ==> r.len() == msg.forwarded.len() && forall|i: int|
            0 <= i < r.len() ==> #[trigger] r@[i] == query_for_value(msg.forwarded@[i].from_id as int),
{
    let mut r: Vec<SenderQuery> = Vec::new();
    if msg.action.is_some() {
        return r;
    }
    let mut i: usize = 0;
    while i < msg.forwarded.len()
        invariant
            msg.action is None,
            i <= msg.forwarded.len(),
            r.len() == i,
            forall|k: int|
                0 <= k < i ==> #[trigger] r@[k] == query_for_value(msg.forwarded@[k].from_id as int),
        decreases msg.forwarded.len() - i,
    {
        r.push(sender_query_for_id(msg.forwarded[i].from_id));
        i = i + 1;
    }
    r
}

/// A link to a user's profile labelled with the user's name.
pub fn profile_label(p: &UserProfile) -> (r: String)
    ensures
        r@ == profile_link(*p),
{
    let mut r = String::from_str("[");
    r.append(markdown_escape(p.first_name.as_str()).as_str());
    r.append(" ");
    r.append(markdown_escape(p.last_name.as_str()).as_str());
    r.append("](https://vk.com/id");
    r.append(i64_to_decimal(p.id).as_str());
    r.append(")");
    r
}

/// The sender's display name: the profile link when the lookup succeeded,
/// the fixed label for automated actors, else the placeholder.
pub fn get_sender(q: SenderQuery, fetched: Option<UserProfile>) -> (r: String)
    ensures
        r@ == sender_name(q, fetched),
{
    match q {
        SenderQuery::Lookup(_) => match fetched {
            Some(p) => profile_label(&p),
            None => String::from_str("???"),
        },
        SenderQuery::Bot => String::from_str("БОТ"),
        SenderQuery::Unreadable => String::from_str("???"),
    }
}

/// Composes the destination message from the sender's display name, the raw
/// body text and the resolved attachments; hands back the media to relay.
pub fn format_message(sender: &str, text: &str, resolved: Resolved) -> (r: (String, Vec<MediaItem>))
    ensures
        r.0@ == message_body(
            sender@,
            body_segment(text@, opt_view(resolved.action)),
            resolved.text@,
        ),
        r.1@ == resolved.media@,
        well_split(text@, mention_split(text@).0, mention_split(text@).1),
        resolved.action is None && free_of(text@, '&') ==> r.0@ == message_body(
            sender@,
            rendered_plain(mention_split(text@).0, mention_split(text@).1),
            resolved.text@,
        ),
        resolved.action is None && plain_text(text@) ==> r.0@ == message_body(
            sender@,
            escape_reserved(text@),
            resolved.text@,
        ),
{
    let rendered_text = format_text(text);
    let segment = match resolved.action {
        Some(a) => a,
        None => rendered_text,
    };
    let mut msg = String::from_str("*");
    msg.append(sender);
    msg.append("*\n");
    msg.append(segment.as_str());
    let ghost before = msg@;
    if segment.unicode_len() != 0 {
        msg.append("\n");
    } else {
        assert(before + Seq::<char>::empty() =~= before);
    }
    msg.append(resolved.text.as_str());
    (msg, resolved.media)
}

/// A chat action replaces the body whatever the text was: the message is the
/// sender, the action's phrase and nothing else.
pub proof fn lemma_action_replaces_body(sender: Seq<char>, text: Seq<char>, a: ChatAction)
    ensures
        message_body(sender, body_segment(text, Some(action_phrase(a))), Seq::empty()) == "*"@
            + sender + "*\n"@ + action_phrase(a) + "\n"@,
{
    reveal_strlit("_изменил\\(а\\) фотографию_");
    reveal_strlit("_удалил\\(а\\) фотографию_");
    reveal_strlit("_создал\\(а\\) чат_");
    reveal_strlit("_обновил\\(а\\) название чата_");
    reveal_strlit("_пригласил\\(а\\) пользователя_");
    reveal_strlit("_исключил\\(а\\) пользователя_");
    reveal_strlit("_закрепил\\(а\\) сообщение_");
    reveal_strlit("_открепил\\(а\\) сообщение_");
    reveal_strlit("_присоединился по ссылке_");
    assert(action_phrase(a).len() > 0);
    let m = "*"@ + sender + "*\n"@ + action_phrase(a) + "\n"@;
    assert(m + Seq::<char>::empty() =~= m);
}

/// An empty text leaves only the sender's name in bold before the
/// attachment block.
pub proof fn lemma_empty_text_body(sender: Seq<char>, block: Seq<char>)
    ensures
        message_body(sender, escape_reserved(Seq::empty()), block) == "*"@ + sender + "*\n"@
            + block,
{
    assert(escape_reserved(Seq::<char>::empty()) =~= Seq::<char>::empty());
    let h = "*"@ + sender + "*\n"@;
    assert(h + Seq::<char>::empty() =~= h);
}

} // verus!
