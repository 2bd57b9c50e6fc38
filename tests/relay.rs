use vk_relay::attach::{
    place_media, resolve_attachments, ChatAction, Forwarded, MediaKind, PostAuthor, Resolved, SourceAttachment,
    SourceMessage, VideoFiles,
};
use vk_relay::dispatch::{
    edit_action, marker_message_id, outgoing_message, reply_message_id, plan_event, record_sent, reply_target, ChatMapping, ChatTarget,
    CorrelationStore, DestRef, EditAction, Json, Outgoing, Plan,
};
use vk_relay::format::{
    forward_sender_queries, format_message, get_sender, sender_query, sender_query_for_id, SenderQuery,
    UserProfile,
};
use vk_relay::markup::{escape_markup, markdown_escape, quote_block};
use vk_relay::mention::format_text;

fn s(x: &str) -> String {
    x.to_string()
}

fn event(code: u64, id: u64, chat: u64, text: &str, from: &str, extra: Option<Json>) -> Json {
    let mut items = vec![
        Json::UInt(code),
        Json::UInt(id),
        Json::UInt(0),
        Json::UInt(chat),
        Json::UInt(1700000000),
        Json::Str(s(text)),
        Json::Object(vec![(s("from"), Json::Str(s(from)))]),
    ];
    if let Some(e) = extra {
        items.push(e);
    }
    Json::Array(items)
}

fn mapping() -> ChatMapping {
    let mut m = ChatMapping::new();
    m.insert(2000000001, ChatTarget::Id(-100123));
    m
}

fn ivan() -> String {
    get_sender(
        SenderQuery::Lookup(5),
        Some(UserProfile { id: 5, first_name: s("Ivan"), last_name: s("Petrov") }),
    )
}

fn no_attachments() -> Resolved {
    resolve_attachments(
        &SourceMessage { attachments: vec![], forwarded: vec![], action: None },
        &vec![],
    )
}

#[test]
fn escapes_every_reserved_character() {
    assert_eq!(
        escape_markup("\\_*[]()~`>#+-=|{}.!a"),
        "\\\\\\_\\*\\[\\]\\(\\)\\~\\`\\>\\#\\+\\-\\=\\|\\{\\}\\.\\!a"
    );
}

#[test]
fn sanitizer_decodes_breaks_and_entities_first() {
    assert_eq!(markdown_escape("a<br>b"), "a\nb");
    assert_eq!(markdown_escape("1 &gt; 2 &lt; 3."), "1 \\> 2 < 3\\.");
    assert_eq!(markdown_escape("a\\b"), "a\\\\b");
    assert_eq!(markdown_escape(""), "");
}

#[test]
fn escaped_text_reads_back_unchanged() {
    let text = "x_1 * (y) = z!";
    let escaped = escape_markup(text);
    let mut read = String::new();
    let mut chars = escaped.chars();
    while let Some(c) = chars.next() {
        if c == '\\' {
            read.push(chars.next().unwrap());
        } else {
            read.push(c);
        }
    }
    assert_eq!(read, text);
}

#[test]
fn quotes_each_line() {
    assert_eq!(quote_block("a\nb\nc"), "a\n>b\n>c");
}

#[test]
fn mention_becomes_link() {
    assert_eq!(format_text("hi [id5|Ivan]!"), "hi [Ivan](https://vk.com/id5)\\!");
}

#[test]
fn mentions_keep_their_order() {
    assert_eq!(
        format_text("[id1|A] x\n[club2|B_b]."),
        "[A](https://vk.com/id1) x\n[B_b](https://vk.com/club2)\\."
    );
}

#[test]
fn two_mentions_on_one_line() {
    assert_eq!(
        format_text("[id1|Ann] hi [club2|Grp]"),
        "[Ann](https://vk.com/id1) hi [Grp](https://vk.com/club2)"
    );
}

#[test]
fn body_with_attachment_block() {
    let msg = SourceMessage { attachments: vec![SourceAttachment::Unsupported], forwarded: vec![], action: None };
    let (body, _) = format_message("S", "hi", resolve_attachments(&msg, &vec![]));
    assert_eq!(body, "*S*\nhi\n🔗 *Вложения*:\nВложение не поддерживается");
    let (empty, _) = format_message("S", "", resolve_attachments(&msg, &vec![]));
    assert_eq!(empty, "*S*\n🔗 *Вложения*:\nВложение не поддерживается");
}

#[test]
fn forwarded_senders_to_name() {
    let fwd = |action| SourceMessage {
        attachments: vec![],
        forwarded: vec![Forwarded { from_id: 5, text: s("a") }, Forwarded { from_id: -2, text: s("b") }],
        action,
    };
    assert_eq!(forward_sender_queries(&fwd(None)), vec![SenderQuery::Lookup(5), SenderQuery::Bot]);
    assert!(forward_sender_queries(&fwd(Some(ChatAction::Create))).is_empty());
    let resolved = resolve_attachments(&fwd(Some(ChatAction::Create)), &vec![]);
    assert_eq!(resolved.action.as_deref(), Some("_создал\\(а\\) чат_"));
}

#[test]
fn text_without_mentions_is_only_escaped() {
    assert_eq!(format_text("[idx|A]"), "\\[idx\\|A\\]");
}

#[test]
fn sender_queries() {
    assert_eq!(sender_query("5"), SenderQuery::Lookup(5));
    assert_eq!(sender_query("+7"), SenderQuery::Lookup(7));
    assert_eq!(sender_query("0"), SenderQuery::Bot);
    assert_eq!(sender_query("-12"), SenderQuery::Bot);
    assert_eq!(sender_query("abc"), SenderQuery::Unreadable);
    assert_eq!(sender_query("99999999999"), SenderQuery::Unreadable);
    assert_eq!(sender_query_for_id(-3), SenderQuery::Bot);
    assert_eq!(sender_query_for_id(3000000000), SenderQuery::Unreadable);
}

#[test]
fn sender_labels() {
    assert_eq!(ivan(), "[Ivan Petrov](https://vk.com/id5)");
    assert_eq!(get_sender(SenderQuery::Lookup(5), None), "???");
    assert_eq!(get_sender(SenderQuery::Bot, None), "БОТ");
    assert_eq!(get_sender(SenderQuery::Unreadable, None), "???");
    let odd = get_sender(
        SenderQuery::Lookup(8),
        Some(UserProfile { id: 8, first_name: s("A.B"), last_name: s("C-D") }),
    );
    assert_eq!(odd, "[A\\.B C\\-D](https://vk.com/id8)");
}

#[test]
fn new_text_message_scenario() {
    let ev = event(4, 10, 2000000001, "hello *world*", "5", Some(Json::Object(vec![])));
    let chats = mapping();
    let mut store = CorrelationStore::new();
    let plan = plan_event(&ev, &chats, &store);
    let (id, text, from, reply_to) = match plan {
        Plan::Send { id, source_chat: 2000000001, chat: ChatTarget::Id(-100123), text, from, reply_to } => {
            (id, text, from, reply_to)
        },
        _ => panic!("expected a send"),
    };
    assert_eq!(id, 10);
    assert_eq!(from, "5");
    assert_eq!(reply_to, None);
    assert_eq!(sender_query(&from), SenderQuery::Lookup(5));
    let (body, media) = format_message(&ivan(), &text, no_attachments());
    assert_eq!(body, "*[Ivan Petrov](https://vk.com/id5)*\nhello \\*world\\*\n");
    let out = outgoing_message(body.clone(), media, reply_target(&store, None));
    match &out {
        Outgoing::Text { body: b, reply_to } => {
            assert_eq!(b, &body);
            assert_eq!(*reply_to, None);
        },
        _ => panic!("expected a text message"),
    }
    record_sent(&mut store, 10, &out, 77);
    assert_eq!(store.get(10), Some(DestRef::TextMessage(77)));
}

#[test]
fn edit_scenario() {
    let chats = mapping();
    let mut store = CorrelationStore::new();
    store.record(10, DestRef::TextMessage(77));
    let ev = event(5, 10, 2000000001, "hello again", "5", None);
    let plan = plan_event(&ev, &chats, &store);
    let (text, target) = match plan {
        Plan::Edit { id: 10, text, target, .. } => (text, target),
        _ => panic!("expected an edit"),
    };
    assert_eq!(target, DestRef::TextMessage(77));
    let (body, _) = format_message(&ivan(), &text, no_attachments());
    match edit_action(target, body) {
        EditAction::Text { message, body } => {
            assert_eq!(message, 77);
            assert_eq!(body, "*[Ivan Petrov](https://vk.com/id5)*\nhello again\n");
        },
        _ => panic!("expected a text edit"),
    }
    assert_eq!(store.get(10), Some(DestRef::TextMessage(77)));
    assert_eq!(store.get(11), None);
}

#[test]
fn caption_edit_for_media_group() {
    match edit_action(DestRef::MediaCaption(3), s("x")) {
        EditAction::Caption { message: 3, body } => assert_eq!(body, "x"),
        _ => panic!("expected a caption edit"),
    }
}

#[test]
fn photo_without_body_scenario() {
    let msg = SourceMessage {
        attachments: vec![SourceAttachment::Photo { url: s("https://example.com/p.jpg") }],
        forwarded: vec![],
        action: None,
    };
    let resolved = resolve_attachments(&msg, &vec![]);
    assert_eq!(resolved.text, "");
    let (body, media) = format_message("Sender", "", resolved);
    assert_eq!(body, "*Sender*\n");
    let out = outgoing_message(body, media, Some(4));
    match &out {
        Outgoing::MediaGroup { items, reply_to } => {
            assert_eq!(items.len(), 1);
            assert!(items[0].kind == MediaKind::Photo);
            assert_eq!(items[0].url, "https://example.com/p.jpg");
            assert_eq!(items[0].caption.as_deref(), Some("*Sender*\n"));
            assert_eq!(*reply_to, Some(4));
        },
        _ => panic!("expected a media group"),
    }
    let mut store = CorrelationStore::new();
    record_sent(&mut store, 12, &out, 90);
    assert_eq!(store.get(12), Some(DestRef::MediaCaption(90)));
}

#[test]
fn only_first_media_item_has_caption() {
    let msg = SourceMessage {
        attachments: vec![
            SourceAttachment::Sticker { sticker_id: 42 },
            SourceAttachment::AudioMessage { link_ogg: s("https://example.com/v.ogg") },
        ],
        forwarded: vec![],
        action: None,
    };
    let resolved = resolve_attachments(&msg, &vec![]);
    assert_eq!(resolved.media.len(), 2);
    assert_eq!(resolved.media[0].url, "https://vk.com/sticker/1-42-128b");
    assert!(resolved.media[1].kind == MediaKind::Voice);
    let out = outgoing_message(s("body"), resolved.media, None);
    match out {
        Outgoing::MediaGroup { items, .. } => {
            assert_eq!(items[0].caption.as_deref(), Some("body"));
            assert_eq!(items[1].caption, None);
        },
        _ => panic!("expected a media group"),
    }
}

#[test]
fn action_replaces_body() {
    let msg = SourceMessage {
        attachments: vec![SourceAttachment::Photo { url: s("https://example.com/p.jpg") }],
        forwarded: vec![],
        action: Some(ChatAction::TitleUpdate),
    };
    let resolved = resolve_attachments(&msg, &vec![]);
    assert_eq!(resolved.media.len(), 0);
    let (body, media) = format_message("S", "ignored text", resolved);
    assert_eq!(body, "*S*\n_обновил\\(а\\) название чата_\n");
    assert!(media.is_empty());
}

#[test]
fn descriptions_of_attachments() {
    let msg = SourceMessage {
        attachments: vec![
            SourceAttachment::Doc { title: s("a.pdf"), url: s("https://vk.com/doc1"), preview_video: None },
            SourceAttachment::Unsupported,
            SourceAttachment::Video {
                files: VideoFiles { mp4_720: None, mp4_480: None, mp4_360: None, mp4_240: None, mp4_144: None },
                player: s("https://vk.com/video_ext"),
            },
            SourceAttachment::Poll { question: s("Why?") },
            SourceAttachment::Wall { to_id: -1, id: 2, from: PostAuthor::Group { name: s("Club") } },
            SourceAttachment::Link { url: s("https://ex.com"), title: s("T"), caption: s("c.d") },
        ],
        forwarded: vec![Forwarded { from_id: 5, text: s("line1\nline2") }],
        action: None,
    };
    let resolved = resolve_attachments(&msg, &vec![s("Fwd")]);
    assert!(resolved.media.is_empty());
    assert_eq!(
        resolved.text,
        "🔗 *Вложения*:\n[a\\.pdf](https://vk.com/doc1)\nВложение не поддерживается\n[Видео](https://vk.com/video_ext)\n📊 _Why?_\n[Публикация от Club](https://vk.com/wall-1_2)\nСсылка _[T \\| c\\.d](https://ex.com)_\nПересланное сообщение от Fwd\n>line1\n>line2||"
    );
}

#[test]
fn video_prefers_highest_resolution() {
    let msg = SourceMessage {
        attachments: vec![SourceAttachment::Video {
            files: VideoFiles {
                mp4_720: None,
                mp4_480: Some(s("https://example.com/480.mp4")),
                mp4_360: Some(s("https://example.com/360.mp4")),
                mp4_240: None,
                mp4_144: None,
            },
            player: s("https://vk.com/p"),
        }],
        forwarded: vec![],
        action: None,
    };
    let resolved = resolve_attachments(&msg, &vec![]);
    assert_eq!(resolved.media.len(), 1);
    assert!(resolved.media[0].kind == MediaKind::Video);
    assert_eq!(resolved.media[0].url, "https://example.com/480.mp4");
    assert_eq!(resolved.text, "");
}

#[test]
fn doc_with_video_preview_gives_both() {
    let msg = SourceMessage {
        attachments: vec![SourceAttachment::Doc {
            title: s("clip"),
            url: s("https://vk.com/doc2"),
            preview_video: Some(s("https://example.com/clip.mp4")),
        }],
        forwarded: vec![],
        action: None,
    };
    let resolved = resolve_attachments(&msg, &vec![]);
    assert_eq!(resolved.media.len(), 1);
    assert_eq!(resolved.text, "🔗 *Вложения*:\n[clip](https://vk.com/doc2)");
}

#[test]
fn wall_post_authors() {
    let mk = |from: PostAuthor| SourceMessage {
        attachments: vec![SourceAttachment::Wall { to_id: 3, id: 4, from }],
        forwarded: vec![],
        action: None,
    };
    let p = resolve_attachments(&mk(PostAuthor::Profile { first_name: s("A"), last_name: s("B") }), &vec![]);
    assert_eq!(p.text, "🔗 *Вложения*:\n[Публикация от A B](https://vk.com/wall3_4)");
    let u = resolve_attachments(&mk(PostAuthor::default()), &vec![]);
    assert_eq!(u.text, "🔗 *Вложения*:\n[Публикация от Неизвестно](https://vk.com/wall3_4)");
}

#[test]
fn invalid_media_link_falls_back_to_placeholder() {
    let msg = SourceMessage {
        attachments: vec![SourceAttachment::Photo { url: s("not a url") }],
        forwarded: vec![],
        action: None,
    };
    let resolved = resolve_attachments(&msg, &vec![]);
    assert!(resolved.media.is_empty());
    assert_eq!(resolved.text, "🔗 *Вложения*:\nВложение не поддерживается");
}

#[test]
fn edit_without_correlation_is_ignored() {
    let store = CorrelationStore::new();
    let ev = event(5, 10, 2000000001, "x", "5", None);
    assert!(matches!(plan_event(&ev, &mapping(), &store), Plan::Ignore));
}

#[test]
fn private_chats_are_ignored() {
    let mut store = CorrelationStore::new();
    store.record(10, DestRef::TextMessage(1));
    let mut chats = mapping();
    chats.insert(100, ChatTarget::Id(1));
    for code in [4, 5] {
        let ev = event(code, 10, 100, "x", "5", None);
        assert!(matches!(plan_event(&ev, &chats, &store), Plan::Ignore));
    }
}

#[test]
fn unknown_chats_and_codes_are_ignored() {
    let store = CorrelationStore::new();
    let ev = event(4, 10, 2000000002, "x", "5", None);
    assert!(matches!(plan_event(&ev, &mapping(), &store), Plan::Ignore));
    let other = event(3, 10, 2000000001, "x", "5", None);
    assert!(matches!(plan_event(&other, &mapping(), &store), Plan::Ignore));
    assert!(matches!(plan_event(&Json::Null, &mapping(), &store), Plan::Ignore));
}

#[test]
fn malformed_events() {
    let store = CorrelationStore::new();
    let short = Json::Array(vec![Json::UInt(4), Json::Str(s("x"))]);
    assert!(matches!(plan_event(&short, &mapping(), &store), Plan::Malformed));
    let no_from = Json::Array(vec![
        Json::UInt(4),
        Json::UInt(1),
        Json::UInt(0),
        Json::UInt(2000000001),
        Json::UInt(0),
        Json::Str(s("t")),
        Json::Object(vec![]),
    ]);
    assert!(matches!(plan_event(&no_from, &mapping(), &store), Plan::Malformed));
}

#[test]
fn reply_marker_is_resolved() {
    let extra = Json::Object(vec![(s("reply"), Json::Str(s("{\"conversation_message_id\":7}")))]);
    let ev = event(4, 11, 2000000001, "re", "5", Some(extra));
    let mut store = CorrelationStore::new();
    match plan_event(&ev, &mapping(), &store) {
        Plan::Send { reply_to, .. } => assert_eq!(reply_to, Some(7)),
        _ => panic!("expected a send"),
    }
    store.record(99, DestRef::MediaCaption(55));
    assert_eq!(reply_target(&store, Some(99)), Some(55));
    assert_eq!(reply_target(&store, Some(98)), None);
    let bad = Json::Object(vec![(s("reply"), Json::Str(s("not json")))]);
    match plan_event(&event(4, 12, 2000000001, "re", "5", Some(bad)), &mapping(), &store) {
        Plan::Send { reply_to, .. } => assert_eq!(reply_to, None),
        _ => panic!("expected a send"),
    }
}

#[test]
fn media_links_are_normalized() {
    let msg = SourceMessage {
        attachments: vec![SourceAttachment::Photo { url: s("HTTPS://Example.COM") }],
        forwarded: vec![],
        action: None,
    };
    let resolved = resolve_attachments(&msg, &vec![]);
    assert_eq!(resolved.media.len(), 1);
    assert_eq!(resolved.media[0].url, "https://example.com/");
}

#[test]
fn group_threshold_boundary() {
    let store = CorrelationStore::new();
    let mut chats = ChatMapping::new();
    chats.insert(1999999999, ChatTarget::Id(1));
    chats.insert(2000000000, ChatTarget::Username(s("@relay")));
    let below = event(4, 1, 1999999999, "x", "5", None);
    assert!(matches!(plan_event(&below, &chats, &store), Plan::Ignore));
    let at = event(4, 1, 2000000000, "x", "5", None);
    match plan_event(&at, &chats, &store) {
        Plan::Send { chat: ChatTarget::Username(name), .. } => assert_eq!(name, "@relay"),
        _ => panic!("expected a send"),
    }
}

#[test]
fn non_integer_codes_are_ignored() {
    let store = CorrelationStore::new();
    let neg = Json::Array(vec![Json::NegInt(-4), Json::UInt(1)]);
    assert!(matches!(plan_event(&neg, &mapping(), &store), Plan::Ignore));
    let frac = Json::Array(vec![Json::Fractional, Json::UInt(1)]);
    assert!(matches!(plan_event(&frac, &mapping(), &store), Plan::Ignore));
}

#[test]
fn empty_text_and_no_attachments() {
    let (body, media) = format_message("S", "", no_attachments());
    assert_eq!(body, "*S*\n");
    assert!(media.is_empty());
}

#[test]
fn integer_edges() {
    assert_eq!(sender_query("-2147483648"), SenderQuery::Bot);
    assert_eq!(sender_query("2147483647"), SenderQuery::Lookup(2147483647));
    assert_eq!(sender_query("2147483648"), SenderQuery::Unreadable);
    assert_eq!(sender_query(""), SenderQuery::Unreadable);
    assert_eq!(sender_query("-"), SenderQuery::Unreadable);
    assert_eq!(sender_query("+-5"), SenderQuery::Unreadable);
    assert_eq!(sender_query("12a"), SenderQuery::Unreadable);
    assert_eq!(sender_query("007"), SenderQuery::Lookup(7));
    let msg = SourceMessage {
        attachments: vec![SourceAttachment::Wall { to_id: i64::MIN, id: 0, from: PostAuthor::Unknown }],
        forwarded: vec![],
        action: None,
    };
    let resolved = resolve_attachments(&msg, &vec![]);
    assert!(resolved.text.ends_with("(https://vk.com/wall-9223372036854775808_0)"));
}

#[test]
fn reply_markers() {
    assert_eq!(reply_message_id("{\"conversation_message_id\":7,\"x\":[1,{}]}"), Some(7));
    assert_eq!(reply_message_id("{\"conversation_message_id\":-1}"), None);
    assert_eq!(reply_message_id("{\"conversation_message_id\":\"7\"}"), None);
    assert_eq!(reply_message_id("[7]"), None);
    assert_eq!(reply_message_id("{"), None);
    let parsed = Some(Json::Object(vec![(s("conversation_message_id"), Json::UInt(3))]));
    assert_eq!(marker_message_id(&parsed), Some(3));
    assert_eq!(marker_message_id(&None), None);
}

#[test]
fn parsed_media_or_placeholder() {
    let (item, lines) = place_media(MediaKind::Voice, Some(s("https://example.com/a.ogg")));
    let item = item.unwrap();
    assert!(item.kind == MediaKind::Voice);
    assert_eq!(item.url, "https://example.com/a.ogg");
    assert!(lines.is_empty());
    let (none, lines) = place_media(MediaKind::Photo, None);
    assert!(none.is_none());
    assert_eq!(lines, vec![s("Вложение не поддерживается")]);
}

#[test]
fn line_breaks_and_angle_brackets() {
    assert_eq!(markdown_escape("a<br>b"), "a\nb");
    assert_eq!(markdown_escape("a<b"), "a<b");
    assert_eq!(format_text("[id1|Ann] a<br>b [club2|Grp]"), "[Ann](https://vk.com/id1) a\nb [Grp](https://vk.com/club2)");
}
