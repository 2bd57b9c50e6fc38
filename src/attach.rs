use vstd::prelude::*;
use crate::markup::{markdown_escape, quote_block, quote_lines, sanitized};
use crate::text::{decimal, i64_to_decimal};

verus! {

/// Who published a reposted wall post.
pub enum PostAuthor {
    Profile { first_name: String, last_name: String },
    Group { name: String },
    Unknown,
}

impl Default for PostAuthor {
    fn default() -> (r: Self)
        ensures
            r is Unknown,
    {
        PostAuthor::Unknown
    }
}

/// Direct file links of a video, by resolution; absent where the source gives none.
pub struct VideoFiles {
    pub mp4_720: Option<String>,
    pub mp4_480: Option<String>,
    pub mp4_360: Option<String>,
    pub mp4_240: Option<String>,
    pub mp4_144: Option<String>,
}

/// One attachment of a source message.
pub enum SourceAttachment {
    Photo { url: String },
    Video { files: VideoFiles, player: String },
    Doc { title: String, url: String, preview_video: Option<String> },
    AudioMessage { link_ogg: String },
    Poll { question: String },
    Wall { to_id: i64, id: i64, from: PostAuthor },
    Sticker { sticker_id: i64 },
    Link { url: String, title: String, caption: String },
    Unsupported,
}

/// A chat-management event carried in place of message content.
#[derive(Clone, Copy, Debug, PartialEq, Eq, Structural)]
pub enum ChatAction {
    PhotoUpdate,
    PhotoRemove,
    Create,
    TitleUpdate,
    InviteUser,
    KickUser,
    PinMessage,
    UnpinMessage,
    InviteUserByLink,
}

/// A forwarded message: who wrote it and its text.
pub struct Forwarded {
    pub from_id: i64,
    pub text: String,
}

/// The full source message as the source platform returns it.
pub struct SourceMessage {
    pub attachments: Vec<SourceAttachment>,
    pub forwarded: Vec<Forwarded>,
    pub action: Option<ChatAction>,
}

#[derive(Clone, Copy, Debug, PartialEq, Eq, Structural)]
pub enum MediaKind {
    Photo,
    Voice,
    Video,
}

/// A media item relayed by reference.
pub struct MediaItem {
    pub kind: MediaKind,
    pub url: String,
}

/// What the resolver makes of a source message: the relayable media, the
/// textual attachment block, and the description of a chat action.
pub struct Resolved {
    pub media: Vec<MediaItem>,
    pub text: String,
    pub action: Option<String>,
}

pub open spec fn media_view(v: Seq<MediaItem>) -> Seq<(MediaKind, Seq<char>)> {
    v.map_values(|m: MediaItem| (m.kind, m.url@))
}

pub open spec fn strings_view(v: Seq<String>) -> Seq<Seq<char>> {
    v.map_values(|s: String| s@)
}

pub open spec fn opt_view(o: Option<String>) -> Option<Seq<char>> {
    match o {
        Some(s) => Some(s@),
        None => None,
    }
}

/// The fixed phrase for each chat action.
pub open spec fn action_phrase(a: ChatAction) -> Seq<char> {
    match a {
        ChatAction::PhotoUpdate => "_изменил\\(а\\) фотографию_"@,
        ChatAction::PhotoRemove => "_удалил\\(а\\) фотографию_"@,
        ChatAction::Create => "_создал\\(а\\) чат_"@,
        ChatAction::TitleUpdate => "_обновил\\(а\\) название чата_"@,
        ChatAction::InviteUser => "_пригласил\\(а\\) пользователя_"@,
        ChatAction::KickUser => "_исключил\\(а\\) пользователя_"@,
        ChatAction::PinMessage => "_закрепил\\(а\\) сообщение_"@,
        ChatAction::UnpinMessage => "_открепил\\(а\\) сообщение_"@,
        ChatAction::InviteUserByLink => "_присоединился по ссылке_"@,
    }
}

/// The best available direct video link, from 720p down to 144p.
pub open spec fn best_video(f: VideoFiles) -> Option<Seq<char>> {
    if f.mp4_720 is Some {
        opt_view(f.mp4_720)
    } else if f.mp4_480 is Some {
        opt_view(f.mp4_480)
    } else if f.mp4_360 is Some {
        opt_view(f.mp4_360)
    } else if f.mp4_240 is Some {
        opt_view(f.mp4_240)
    } else {
        opt_view(f.mp4_144)
    }
}

pub open spec fn author_name(a: PostAuthor) -> Seq<char> {
    match a {
        PostAuthor::Profile { first_name, last_name } => first_name@ + " "@ + last_name@,
        PostAuthor::Group { name } => name@,
        PostAuthor::Unknown => "Неизвестно"@,
    }
}

pub open spec fn sticker_url(id: i64) -> Seq<char> {
    "https://vk.com/sticker/1-"@ + decimal(id as int) + "-128b"@
}

/// The media link an attachment offers, before it is parsed as a URL.
pub open spec fn media_source(a: SourceAttachment) -> Option<(MediaKind, Seq<char>)> {
    match a {
        SourceAttachment::Photo { url } => Some((MediaKind::Photo, url@)),
        SourceAttachment::Sticker { sticker_id } => Some((MediaKind::Photo, sticker_url(sticker_id))),
        SourceAttachment::Doc { preview_video: Some(v), .. } => Some((MediaKind::Video, v@)),
        SourceAttachment::AudioMessage { link_ogg } => Some((MediaKind::Voice, link_ogg@)),
        SourceAttachment::Video { files, .. } => match best_video(files) {
            Some(u) => Some((MediaKind::Video, u)),
            None => None,
        },
        _ => None,
    }
}

pub open spec fn unsupported_line() -> Seq<char> {
    "Вложение не поддерживается"@
}

/// The description line an attachment gives, if any.
pub open spec fn description(a: SourceAttachment) -> Option<Seq<char>> {
    match a {
        SourceAttachment::Unsupported => Some(unsupported_line()),
        SourceAttachment::Doc { title, url, .. } => Some(
            "["@ + sanitized(title@) + "]("@ + url@ + ")"@,
        ),
        SourceAttachment::Video { files, player } => if best_video(files) is Some {
            None
        } else {
            Some("[Видео]("@ + player@ + ")"@)
        },
        SourceAttachment::Poll { question } => Some("📊 _"@ + sanitized(question@) + "_"@),
        SourceAttachment::Wall { to_id, id, from } => Some(
            "[Публикация от "@ + sanitized(author_name(from)) + "](https://vk.com/wall"@
                + decimal(to_id as int) + "_"@ + decimal(id as int) + ")"@,
        ),
        SourceAttachment::Link { url, title, caption } => Some(
            "Ссылка _["@ + sanitized(title@) + " \\| "@ + sanitized(caption@) + "]("@ + url@
                + ")_"@,
        ),
        _ => None,
    }
}

/// What URL parsing makes of a link: its serialized form, or nothing when it
/// is no valid URL.
pub uninterp spec fn url_normalized(s: Seq<char>) -> Option<Seq<char>>;

/// The media item an attachment contributes.
pub open spec fn media_of(a: SourceAttachment) -> Option<(MediaKind, Seq<char>)> {
    match media_source(a) {
        Some((k, u)) => match url_normalized(u) {
            Some(n) => Some((k, n)),
            None => None,
        },
        None => None,
    }
}

pub open spec fn opt_seq<T>(o: Option<T>) -> Seq<T> {
    match o {
        Some(x) => seq![x],
        None => Seq::empty(),
    }
}

/// The description lines an attachment contributes: a placeholder where its
/// media link is no valid URL, then its own description.
pub open spec fn lines_of(a: SourceAttachment) -> Seq<Seq<char>> {
    let failed = media_source(a) is Some && url_normalized(media_source(a).unwrap().1) is None;
    (if failed { seq![unsupported_line()] } else { Seq::empty() }) + opt_seq(description(a))
}

pub open spec fn media_list(atts: Seq<SourceAttachment>) -> Seq<(MediaKind, Seq<char>)>
    decreases atts.len(),
{
    if atts.len() == 0 {
        Seq::empty()
    } else {
        media_list(atts.drop_last()) + opt_seq(media_of(atts.last()))
    }
}

pub open spec fn lines_list(atts: Seq<SourceAttachment>) -> Seq<Seq<char>>
    decreases atts.len(),
{
    if atts.len() == 0 {
        Seq::empty()
    } else {
        lines_list(atts.drop_last()) + lines_of(atts.last())
    }
}

pub open spec fn forward_line(sender: Seq<char>, text: Seq<char>) -> Seq<char> {
    "Пересланное сообщение от "@ + sender + "\n>"@ + quote_lines(sanitized(text)) + "||"@
}

pub open spec fn forward_lines(fwd: Seq<Forwarded>, senders: Seq<Seq<char>>) -> Seq<Seq<char>> {
    Seq::new(fwd.len(), |i: int| forward_line(senders[i], fwd[i].text@))
}

pub open spec fn joined_lines(lines: Seq<Seq<char>>) -> Seq<char>
    decreases lines.len(),
{
    if lines.len() == 0 {
        Seq::empty()
    } else {
        joined_lines(lines.drop_last()) + "\n"@ + lines.last()
    }
}

/// The attachment block: a header and one line per description, or nothing.
pub open spec fn attachment_block(lines: Seq<Seq<char>>) -> Seq<char> {
    if lines.len() == 0 {
        Seq::empty()
    } else {
        "🔗 *Вложения*:"@ + joined_lines(lines)
    }
}

/// Relies on `url::Url::parse` and its serialization: the outcome depends on
/// the text alone.
#[verifier::external_body]
fn parse_url(s: &str) -> (r: Option<String>)
    ensures
        opt_view(r) == url_normalized(s@),
{
    url::Url::parse(s).ok().map(|u| u.to_string())
}

/// The fixed phrase that stands for a chat action.
pub fn action_text(a: ChatAction) -> (r: String)
    ensures
        r@ == action_phrase(a),
{
    match a {
        ChatAction::PhotoUpdate => String::from_str("_изменил\\(а\\) фотографию_"),
        ChatAction::PhotoRemove => String::from_str("_удалил\\(а\\) фотографию_"),
        ChatAction::Create => String::from_str("_создал\\(а\\) чат_"),
        ChatAction::TitleUpdate => String::from_str("_обновил\\(а\\) название чата_"),
        ChatAction::InviteUser => String::from_str("_пригласил\\(а\\) пользователя_"),
        ChatAction::KickUser => String::from_str("_исключил\\(а\\) пользователя_"),
        ChatAction::PinMessage => String::from_str("_закрепил\\(а\\) сообщение_"),
        ChatAction::UnpinMessage => String::from_str("_открепил\\(а\\) сообщение_"),
        ChatAction::InviteUserByLink => String::from_str("_присоединился по ссылке_"),
    }
}

fn clone_opt(o: &Option<String>) -> (r: Option<String>)
    ensures
        opt_view(r) == opt_view(*o),
{
    match o {
        Some(s) => Some(s.clone()),
        None => None,
    }
}

/// The best available direct video link, from 720p down to 144p.
pub fn pick_video(f: &VideoFiles) -> (r: Option<String>)
    ensures
        opt_view(r) == best_video(*f),
{
    if f.mp4_720.is_some() {
        clone_opt(&f.mp4_720)
    } else if f.mp4_480.is_some() {
        clone_opt(&f.mp4_480)
    } else if f.mp4_360.is_some() {
        clone_opt(&f.mp4_360)
    } else if f.mp4_240.is_some() {
        clone_opt(&f.mp4_240)
    } else {
        clone_opt(&f.mp4_144)
    }
}

/// The display name of a post's author.
pub fn author_label(a: &PostAuthor) -> (r: String)
    ensures
        r@ == author_name(*a),
{
    match a {
        PostAuthor::Profile { first_name, last_name } => {
            let mut r = first_name.clone();
            r.append(" ");
            r.append(last_name.as_str());
            r
        },
        PostAuthor::Group { name } => name.clone(),
        PostAuthor::Unknown => String::from_str("Неизвестно"),
    }
}

/// The media link an attachment offers, before URL parsing.
pub fn media_link(a: &SourceAttachment) -> (r: Option<(MediaKind, String)>)
    ensures
        match r {
            Some((k, u)) => media_source(*a) == Some((k, u@)),
            None => media_source(*a) is None,
        },
{
    match a {
        SourceAttachment::Photo { url } => Some((MediaKind::Photo, url.clone())),
        SourceAttachment::Sticker { sticker_id } => {
            let mut u = String::from_str("https://vk.com/sticker/1-");
            let n = i64_to_decimal(*sticker_id);
            u.append(n.as_str());
            u.append("-128b");
            Some((MediaKind::Photo, u))
        },
        SourceAttachment::Doc { preview_video: Some(v), .. } => Some((MediaKind::Video, v.clone())),
        SourceAttachment::AudioMessage { link_ogg } => Some((MediaKind::Voice, link_ogg.clone())),
        SourceAttachment::Video { files, .. } => match pick_video(files) {
            Some(u) => Some((MediaKind::Video, u)),
            None => None,
        },
        _ => None,
    }
}

/// The description line an attachment gives, if any.
pub fn describe(a: &SourceAttachment) -> (r: Option<String>)
    ensures
        opt_view(r) == description(*a),
{
    match a {
        SourceAttachment::Unsupported => Some(String::from_str("Вложение не поддерживается")),
        SourceAttachment::Doc { title, url, .. } => {
            let mut r = String::from_str("[");
            r.append(markdown_escape(title.as_str()).as_str());
            r.append("](");
            r.append(url.as_str());
            r.append(")");
            Some(r)
        },
        SourceAttachment::Video { files, player } => {
            if pick_video(files).is_some() {
                None
            } else {
                let mut r = String::from_str("[Видео](");
                r.append(player.as_str());
                r.append(")");
                Some(r)
            }
        },
        SourceAttachment::Poll { question } => {
            let mut r = String::from_str("📊 _");
            r.append(markdown_escape(question.as_str()).as_str());
            r.append("_");
            Some(r)
        },
        SourceAttachment::Wall { to_id, id, from } => {
            let mut r = String::from_str("[Публикация от ");
            r.append(markdown_escape(author_label(from).as_str()).as_str());
            r.append("](https://vk.com/wall");
            r.append(i64_to_decimal(*to_id).as_str());
            r.append("_");
            r.append(i64_to_decimal(*id).as_str());
            r.append(")");
            Some(r)
        },
        SourceAttachment::Link { url, title, caption } => {
            let mut r = String::from_str("Ссылка _[");
            r.append(markdown_escape(title.as_str()).as_str());
            r.append(" \\| ");
            r.append(markdown_escape(caption.as_str()).as_str());
            r.append("](");
            r.append(url.as_str());
            r.append(")_");
            Some(r)
        },
        _ => None,
    }
}

/// What a media link contributes once parsed: the media item under its
/// serialized URL, or the placeholder line when it is no valid URL.
pub fn place_media(kind: MediaKind, parsed: Option<String>) -> (r: (Option<MediaItem>, Vec<String>))
    ensures
        match parsed {
            Some(u) => r.0 is Some && r.0.unwrap().kind == kind && r.0.unwrap().url@ == u@
                && r.1.len() == 0,
            None => r.0 is None && strings_view(r.1@) == seq![unsupported_line()],
        },
{
    let mut lines: Vec<String> = Vec::new();
    match parsed {
        Some(u) => (Some(MediaItem { kind, url: u }), lines),
        None => {
            lines.push(String::from_str("Вложение не поддерживается"));
            assert(strings_view(lines@) =~= seq![unsupported_line()]);
            (None, lines)
        },
    }
}

/// The media item and the description lines of one attachment.
pub fn classify_attachment(a: &SourceAttachment) -> (r: (Option<MediaItem>, Vec<String>))
    ensures
        match r.0 {
            Some(m) => media_of(*a) == Some((m.kind, m.url@)),
            None => media_of(*a) is None,
        },
        strings_view(r.1@) == lines_of(*a),
{
    let (item, mut lines) = match media_link(a) {
        Some((k, u)) => place_media(k, parse_url(u.as_str())),
        None => (None, Vec::new()),
    };
    match describe(a) {
        Some(d) => lines.push(d),
        None => {},
    }
    assert(strings_view(lines@) =~= lines_of(*a));
    (item, lines)
}

/// The line that describes a forwarded message: its sender and its text as a
/// quoted block.
pub fn forward_text(sender: &str, text: &str) -> (r: String)
    ensures
        r@ == forward_line(sender@, text@),
{
    let mut r = String::from_str("Пересланное сообщение от ");
    r.append(sender);
    r.append("\n>");
    r.append(quote_block(markdown_escape(text).as_str()).as_str());
    r.append("||");
    r
}

/// Joins description lines under the attachments header; nothing when there
/// are none.
pub fn attachments_block(lines: &Vec<String>) -> (r: String)
    ensures
        r@ == attachment_block(strings_view(lines@)),
{
    let ghost lv = strings_view(lines@);
    if lines.len() == 0 {
        return String::new();
    }
    let mut out = String::from_str("🔗 *Вложения*:");
    let mut i: usize = 0;
    assert(lv.take(0) =~= Seq::<Seq<char>>::empty());
    while i < lines.len()
        invariant
            lv == strings_view(lines@),
            i <= lines.len(),
            out@ == "🔗 *Вложения*:"@ + joined_lines(lv.take(i as int)),
        decreases lines.len() - i,
    {
        assert(lv.take(i + 1).drop_last() =~= lv.take(i as int));
        out.append("\n");
        out.append(lines[i].as_str());
        i = i + 1;
    }
    assert(lv.take(i as int) =~= lv);
    out
}

/// Resolves a fetched source message: the relayable media, the attachment
/// block (attachment descriptions, then forwarded messages), or, for a chat
/// action, only its phrase. `forward_senders` holds the resolved display name
/// of each forwarded message's sender; it is not read for a chat action.
pub fn resolve_attachments(msg: &SourceMessage, forward_senders: &Vec<String>) -> (r: Resolved)
    requires
        msg.action is Some || forward_senders.len() == msg.forwarded.len(),
    ensures
        match msg.action {
            Some(a) => r.media.len() == 0 && r.text@.len() == 0 && opt_view(r.action) == Some(
                action_phrase(a),
            ),
            None => media_view(r.media@) == media_list(msg.attachments@) && r.text@
                == attachment_block(
                lines_list(msg.attachments@) + forward_lines(
                    msg.forwarded@,
                    strings_view(forward_senders@),
                ),
            ) && r.action is None,
        },
{
    if let Some(a) = msg.action {
        return Resolved { media: Vec::new(), text: String::new(), action: Some(action_text(a)) };
    }
    let ghost atts = msg.attachments@;
    let mut media: Vec<MediaItem> = Vec::new();
    let mut lines: Vec<String> = Vec::new();
    let mut i: usize = 0;
    assert(atts.take(0) =~= Seq::<SourceAttachment>::empty());
    assert(media_view(media@) =~= Seq::<(MediaKind, Seq<char>)>::empty());
    assert(strings_view(lines@) =~= Seq::<Seq<char>>::empty());
    while i < msg.attachments.len()
        invariant
            atts == msg.attachments@,
            i <= atts.len(),
            media_view(media@) == media_list(atts.take(i as int)),
            strings_view(lines@) == lines_list(atts.take(i as int)),
        decreases atts.len() - i,
    {
        let (item, mut more) = classify_attachment(&msg.attachments[i]);
        assert(atts.take(i + 1).drop_last() =~= atts.take(i as int));
        assert(atts.take(i + 1).last() == atts[i as int]);
        let ghost m0 = media@;
        let ghost l0 = lines@;
        let ghost more0 = more@;
        match item {
            Some(m) => media.push(m),
            None => {},
        }
        assert(media_view(media@) =~= media_view(m0) + opt_seq(media_of(atts[i as int])));
        lines.append(&mut more);
        assert(strings_view(lines@) =~= strings_view(l0) + strings_view(more0));
        i = i + 1;
    }
    assert(atts.take(i as int) =~= atts);
    let ghost fwd = msg.forwarded@;
    let ghost senders = strings_view(forward_senders@);
    let ghost base = strings_view(lines@);
    let mut j: usize = 0;
    assert(base + forward_lines(fwd, senders).take(0) =~= base);
    while j < msg.forwarded.len()
        invariant
            fwd == msg.forwarded@,
            senders == strings_view(forward_senders@),
            forward_senders.len() == fwd.len(),
            j <= fwd.len(),
            strings_view(lines@) == base + forward_lines(fwd, senders).take(j as int),
        decreases fwd.len() - j,
    {
        let line = forward_text(forward_senders[j].as_str(), msg.forwarded[j].text.as_str());
        let ghost l0 = lines@;
        lines.push(line);
        assert(strings_view(lines@) =~= strings_view(l0).push(line@));
        assert(forward_lines(fwd, senders).take(j + 1) =~= forward_lines(fwd, senders).take(
            j as int,
        ).push(line@));
        j = j + 1;
    }
    assert(forward_lines(fwd, senders).take(j as int) =~= forward_lines(fwd, senders));
    let text = attachments_block(&lines);
    Resolved { media, text, action: None }
}

} // verus!
