//! The rows that the screens show.

use hexatalk::state::message::{Message, WindowMessage};
use hexatalk::state::trust::TrustBadge;
use hexatalk::state::types::{
    AdminUserDetail, AdminUserRow, BlockedUser, ChannelSummary, ChatMessage, ConversationSummary,
    Friend, FriendSuggestion, IncomingRequest, MemberRoleTag, MessageReport, OutgoingRequest,
    PeopleHit, ServerMemberRow, ServerSummary,
};
use hexatalk::strmap::{StrMap, StrSet};
use hexatalk::ui::admin_rows::{admin_detail_view, admin_user_rows, DetailDates, RowDates};
use hexatalk::ui::chat_rows::{
    chat_message_rows, chat_rows_with, display_messages, MessageLabels, Viewer,
};
use hexatalk::ui::colors::{
    badge_for_platform_role, hex_color, initial, initial_or, is_color_text, parse_hex_color, Rgb,
};
use hexatalk::ui::theme::{
    accent_button_style, c_accent, emoji_font, handle_key_press, presence_dot, rail_badge_label,
    toggle_label, white, ButtonStatus,
};
use hexatalk::ui::viewmodel::{
    blocked_rows, channel_rows, conversation_rows, friend_row, friend_rows, group_candidate_rows,
    incoming_request_row, incoming_request_rows, join, member_row, member_rows,
    outgoing_request_row, outgoing_request_rows, people_hit_rows, pinned_row, pinned_rows,
    report_row, report_rows, server_rows, suggestion_rows, trust_badge_label,
};

fn s(t: &str) -> String {
    t.to_string()
}

fn friend() -> Friend {
    Friend {
        user_id: s("u1"),
        username: s("ann"),
        display_name: s("Ann"),
        last_seen_at: 0,
        presence: s("dnd"),
        avatar_color: s("#0a0B0c"),
        avatar_image_url: s("https://a"),
        public_key: String::new(),
        status_message: String::new(),
        nickname: s("éva"),
        favorite: true,
        private_note: String::new(),
        friends_since: 0,
        mutual_servers: vec![s("One"), s("Two")],
        is_staff: false,
    }
}

fn message(id: &str, author: &str, body: &str) -> ChatMessage {
    ChatMessage {
        id: s(id),
        author_id: s(author),
        author_name: s(author),
        author_avatar_color: s("#010203"),
        author_avatar_url: String::new(),
        author_is_bot: false,
        author_plus_active: false,
        body: s(body),
        kind: s("text"),
        attachment_url: String::new(),
        attachment_key: None,
        attachment_nonce: None,
        reactions: vec![(s("+1"), 2, true)],
        reply_to: None,
        encrypted: true,
        sent_at: 1_700_000_000_000,
        deleted: false,
        edited: false,
        pinned: false,
    }
}

fn viewer(is_admin: bool) -> Viewer {
    Viewer {
        user_id: s("me"),
        is_admin,
        names: vec![s("Maria"), s("maria")],
        everyone_allowed: true,
        reporting_message_id: Some(s("2")),
        voice_note_tag: s("voice"),
    }
}

fn labels(day: &str) -> MessageLabels {
    MessageLabels { day: s(day), time: s("10:00"), age: s("Just now") }
}

#[test]
fn colors_are_read_or_replaced() {
    assert_eq!(hex_color("#0a0B0c"), Rgb { r: 10, g: 11, b: 12 });
    assert_eq!(hex_color("ffffff"), Rgb { r: 255, g: 255, b: 255 });
    assert_eq!(hex_color("fff"), Rgb { r: 61, g: 148, b: 107 });
    assert_eq!(hex_color("gg0000"), Rgb { r: 61, g: 0, b: 0 });
    assert_eq!(parse_hex_color("#102030"), Some(Rgb { r: 16, g: 32, b: 48 }));
    assert_eq!(parse_hex_color("gg0000"), None);
    assert_eq!(parse_hex_color("#12"), None);
    assert!(is_color_text("#010203"));
    assert!(is_color_text("whatever"));
    // Six bytes that cannot be cut in twos.
    assert!(!is_color_text("aéaaa"));
    assert!(is_color_text("ééé"));
}

#[test]
fn initials_are_upper_case() {
    assert_eq!(initial("ann"), "A");
    assert_eq!(initial("éva"), "É");
    assert_eq!(initial("ßa"), "SS");
    assert_eq!(initial(""), "?");
    assert_eq!(initial_or("", "#"), "#");
    assert_eq!(badge_for_platform_role("admin").text, "STAFF");
    assert_eq!(badge_for_platform_role("moderator").text, "MOD");
    assert_eq!(badge_for_platform_role("owner").text, "OWNER");
    assert_eq!(badge_for_platform_role("user").text, "");
}

#[test]
fn friends_have_rows() {
    let r = friend_row(&friend(), true, "1d ago", Some(&TrustBadge::Verified));
    assert_eq!(r.label, "★ éva");
    assert_eq!(r.subtitle, "@ann · One, Two");
    assert_eq!(r.meta, "Do not disturb · friends since 1d ago");
    assert_eq!(r.initial, "É");
    assert_eq!(r.avatar_color, Rgb { r: 10, g: 11, b: 12 });
    assert_eq!(r.trust_badge, "verified");
    let mut f = friend();
    f.status_message = s("busy");
    f.favorite = false;
    f.nickname = String::new();
    let r = friend_row(&f, false, "", Some(&TrustBadge::FingerprintChanged { old: s("x") }));
    assert_eq!((r.label.as_str(), r.subtitle.as_str()), ("Ann", "@ann · busy"));
    assert_eq!(r.trust_badge, "changed");
    assert_eq!(trust_badge_label(None), "");

    let mut badges = StrMap::new();
    badges.insert(s("u1"), TrustBadge::Verified);
    let rows = friend_rows(&[friend()], &badges);
    assert_eq!(rows[0].trust_badge, "verified");
    assert!(rows[0].online);

    let mut selected = StrSet::new();
    selected.toggle(s("u1"));
    assert!(group_candidate_rows(&[friend()], &selected)[0].selected);
    assert!(!group_candidate_rows(&[friend()], &StrSet::new())[0].selected);
    assert_eq!(join(&vec![s("a"), s("b"), s("c")], "-"), "a-b-c");
    assert_eq!(join(&Vec::new(), "-"), "");
}

#[test]
fn requests_and_people_have_rows() {
    let q = IncomingRequest {
        request_id: s("r"),
        from_user_id: s("u"),
        from_username: s("zoe"),
        from_display_name: s("Zoe"),
        from_avatar_color: String::new(),
        from_avatar_image_url: String::new(),
        note: s("hi"),
        sent_at: 1,
        from_status_message: s("here"),
        mutual_servers: Vec::new(),
        presence: s("online"),
        is_staff: false,
    };
    let r = incoming_request_row(&q, "2m ago");
    assert_eq!(r.from_display_name, "Zoe");
    assert!(r.sub.contains("@zoe"));
    assert!(r.sub.contains("2m ago"));
    assert_eq!(incoming_request_rows(&[q]).len(), 1);

    let o = OutgoingRequest {
        request_id: s("r"),
        to_user_id: s("u"),
        to_username: s("zoe"),
        to_display_name: s("Zoe"),
        to_avatar_color: String::new(),
        to_avatar_image_url: String::new(),
        note: String::new(),
        sent_at: 1,
    };
    let r = outgoing_request_row(&o, "2m ago");
    assert!(r.sent_label.contains("2m ago"));
    assert_eq!(outgoing_request_rows(&[o])[0].initial, "Z");

    let hit = PeopleHit {
        user_id: s("u"),
        username: s("zoe"),
        display_name: s("zoe"),
        avatar_color: String::new(),
        avatar_image_url: String::new(),
        status_message: String::new(),
        presence: s("idle"),
        relation: s("none"),
        incoming_request_id: String::new(),
        mutual_servers: vec![s("One")],
        is_staff: true,
    };
    let rows = people_hit_rows(&[hit]);
    assert!(rows[0].is_staff);
    assert_eq!(rows[0].relation, "none");

    let suggestion = |id: &str| FriendSuggestion {
        user_id: s(id),
        username: s(id),
        display_name: s(id),
        avatar_color: String::new(),
        avatar_image_url: String::new(),
        status_message: String::new(),
        presence: String::new(),
        mutual_servers: Vec::new(),
    };
    let many: Vec<FriendSuggestion> = (0..9).map(|i| suggestion(&format!("u{i}"))).collect();
    assert_eq!(suggestion_rows(&many).len(), 6);
    let blocked = [BlockedUser { user_id: s("u"), display_name: s("U") }];
    assert_eq!(blocked_rows(&blocked)[0].display_name, "U");
}

#[test]
fn chats_servers_and_channels_have_rows() {
    let c = ConversationSummary {
        conversation_id: s("c"),
        title: s("T"),
        kind: s("group"),
        peer_user_id: None,
        last_message_at: 0,
        unread: true,
        mention_count: 3,
        is_support: false,
    };
    let rows = conversation_rows(&[c], Some("c"));
    assert!(rows[0].active && rows[0].unread);
    let server = ServerSummary {
        server_id: s("s"),
        name: s("one"),
        is_owner: false,
        invite_code: String::new(),
        icon_url: String::new(),
        custom_slug: String::new(),
        description: String::new(),
        created_at: 0,
        welcome_channel_id: String::new(),
        invites_paused: false,
    };
    let rows = server_rows(&[server], None);
    assert!(!rows[0].active);
    assert_eq!(rows[0].initial, "O");
    let channel = |id: &str, kind: &str, announcement: bool, muted: bool| ChannelSummary {
        conversation_id: s(id),
        name: s(id),
        channel_type: s(kind),
        mention_count: 0,
        category_id: String::new(),
        position: 0,
        is_announcement: announcement,
        is_system: false,
        muted,
        can_send: true,
        permissions: 0,
    };
    let list = [
        channel("news", "text", true, false),
        channel("talk", "text", false, true),
        channel("room", "voice", false, false),
    ];
    let text: Vec<String> = channel_rows(&list, None, false).into_iter().map(|r| r.label).collect();
    assert_eq!(text, vec!["!  news", "#  talk 🔇"]);
    let voice = channel_rows(&list, Some("room"), true);
    assert_eq!(voice[0].label, "v  room");
    assert!(voice[0].active && voice.len() == 1);
}

#[test]
fn members_have_badges() {
    let member = |owner: bool, bot: bool, role: &str| ServerMemberRow {
        user_id: s("u"),
        display_name: s("ann"),
        username: s("ann"),
        avatar_color: String::new(),
        avatar_image_url: String::new(),
        is_owner: owner,
        is_bot: bot,
        platform_role: s(role),
        plus_active: true,
        last_seen_at: 0,
        roles: vec![MemberRoleTag { role_id: s("r"), name: s("Mod"), color: s("#ff0000") }],
    };
    assert_eq!(member_row(&member(true, false, "admin"), true).badge.text, "OWNER");
    assert_eq!(member_row(&member(false, false, "admin"), true).badge.text, "STAFF");
    assert_eq!(member_row(&member(false, true, "user"), true).badge.text, "*bot");
    assert_eq!(member_row(&member(false, true, "moderator"), true).badge.text, "MOD");
    let rows = member_rows(&[member(false, false, "user")]);
    assert!(!rows[0].online);
    assert_eq!(rows[0].roles[0].color, Rgb { r: 255, g: 0, b: 0 });
}

#[test]
fn pins_and_reports_have_rows() {
    let r = pinned_row(&message("1", "ann", "hello"), s("10:00"));
    assert_eq!(r.author_name, "ann");
    assert_eq!(r.body, "hello");
    assert!(r.meta.contains("10:00"));
    assert_eq!(pinned_rows(&[message("1", "ann", "hello")])[0].id, "1");
    let report = MessageReport {
        report_id: s("r"),
        message_id: s("m"),
        conversation_label: s("#a"),
        reporter_username: s("ann"),
        author_username: s("bob"),
        message_body: s("spam!"),
        reason: s("illegal_content"),
        status: s("open"),
        created_at: 0,
    };
    let r = report_row(&report, s("1h ago"));
    assert_eq!((r.reporter_username.as_str(), r.author_username.as_str()), ("@ann", "@bob"));
    assert_eq!((r.reason, r.age_label.as_str()), ("Illegal content", "1h ago"));
    assert_eq!(report_rows(&[report])[0].age_label, "");
}

#[test]
fn admins_see_users() {
    let user = |name: &str, role: &str, banned: bool, expires: i64| AdminUserRow {
        user_id: s(name),
        username: s(name),
        display_name: name.to_uppercase(),
        role: s(role),
        banned,
        ban_expires_at: expires,
        muted: false,
        mute_expires_at: 0,
        plus_active: true,
        plus_expires_at: 5,
    };
    let dates = || RowDates { ban_until: s("Monday"), mute_until: s("?"), plus_until: s("June") };
    let users = vec![user("ann", "user", true, 9), user("bob", "owner", true, 0)];
    let rows = admin_user_rows(&users, &[dates(), dates()], "", "ann");
    assert_eq!(rows[0].status_line, "user · temp ban · until Monday · PLUS until June");
    assert_eq!(rows[1].status_line, "owner · permanent ban · PLUS until June");
    assert!(rows[0].role_locked && rows[1].role_locked);
    let found = admin_user_rows(&users, &[dates(), dates()], " BO ", "me");
    assert_eq!(found.len(), 1);
    assert_eq!(found[0].user_id, "bob");

    let detail = AdminUserDetail {
        user_id: s("u"),
        username: s("ann"),
        display_name: s("Ann"),
        role: s("user"),
        banned: true,
        ban_expires_at: 0,
        muted: true,
        mute_expires_at: 7,
        is_bot: false,
        bio: String::new(),
        status_message: String::new(),
        avatar_color: String::new(),
        avatar_image_url: String::new(),
        created_at: 0,
        online: true,
        last_seen_at: 0,
        server_names: vec![s("One"), s("Two")],
        friend_count: 3,
    };
    let detail_dates = || DetailDates {
        ban_until: s("b"),
        mute_until: s("m"),
        created: s("c"),
        last_seen: s("l"),
    };
    let v = admin_detail_view(Some(&detail), detail_dates());
    assert_eq!(v.ban_label, "permanent ban");
    assert_eq!(v.mute_label, "muted until m");
    assert_eq!(v.servers_label, "One, Two");
    assert_eq!(v.last_seen_label, "—");
    assert!(!admin_detail_view(None, detail_dates()).open);
}

#[test]
fn a_chat_has_lines_between_days() {
    let msgs = vec![
        message("1", "me", "a"),
        message("2", "me", "b"),
        message("3", "ann", "c"),
        message("4", "ann", "d"),
    ];
    let rows = chat_rows_with(
        &msgs,
        None,
        &vec![labels("Monday"), labels("Monday"), labels("Monday"), labels("Today")],
        &viewer(false),
    );
    let ids: Vec<&str> = rows.iter().map(|r| r.id.as_str()).collect();
    assert_eq!(ids, vec!["date-sep-1", "1", "2", "3", "date-sep-4", "4"]);
    assert_eq!(rows[0].body, "Monday");
    let grouped: Vec<bool> = rows.iter().map(|r| r.grouped).collect();
    assert_eq!(grouped, vec![false, false, true, false, false, false]);
    assert!(rows[2].reporting);
    assert_eq!(rows[1].reactions[0].count, 2);
}

#[test]
fn rows_grant_what_the_viewer_may_do() {
    let mut gone = message("1", "ann", "x");
    gone.deleted = true;
    let mut call = message("3", "me", "Call");
    call.kind = s("call");
    let msgs = vec![gone, message("2", "me", "mine"), call];
    let l = || vec![labels("d"), labels("d"), labels("d")];
    let user = chat_rows_with(&msgs, None, &l(), &viewer(false));
    let admin = chat_rows_with(&msgs, None, &l(), &viewer(true));
    // The line, then the three messages.
    assert!(!user[1].can_purge && !user[1].can_delete && !user[1].body_danger);
    assert_eq!(admin[1].body, "x (deleted)");
    assert!(admin[1].can_purge && admin[1].body_danger && !admin[1].can_edit);
    assert!(user[2].can_edit && user[2].can_delete && !user[2].can_report);
    assert!(user[3].is_call_log && !user[3].can_edit && !user[3].can_delete);
    assert!(admin[3].can_delete);
}

#[test]
fn messages_say_what_they_are() {
    let mut voice = message("1", "ann", "voice");
    voice.attachment_url = s("https://f");
    let mut ping = message("2", "ann", "hey @Maria");
    ping.edited = true;
    ping.reply_to = Some((s("bob"), s("what?")));
    let rows = chat_rows_with(&[voice, ping], None, &vec![labels("d"), labels("d")], &viewer(false));
    assert!(rows[1].is_voice_note && rows[1].has_attachment && !rows[1].attachment_loading);
    assert_eq!(rows[1].body, "");
    assert!(rows[2].mentions_me);
    assert_eq!(rows[2].ping_label, "pinged just now");
    assert_eq!(rows[2].meta, "10:00 (edited)");
    assert_eq!(rows[2].reply_line, "↩ bob: what?");
}

#[test]
fn live_messages_come_last() {
    let stored = [message("1", "ann", "a")];
    let live = [message("2", "me", "b")];
    let all = display_messages(&stored, Some(&live));
    assert_eq!(all.iter().map(|m| m.id.as_str()).collect::<Vec<_>>(), vec!["1", "2"]);
    let rows = chat_message_rows(&stored, Some(&live), &viewer(false));
    assert_eq!(rows.len(), 3);
    assert_eq!(rows[1].meta.len(), 5);
}

#[test]
fn the_theme_is_one_of_values() {
    assert_eq!(rail_badge_label(0), None);
    assert_eq!(rail_badge_label(7).unwrap(), "7");
    assert_eq!(rail_badge_label(10).unwrap(), "9+");
    assert_ne!(presence_dot(true), presence_dot(false));
    assert_eq!(toggle_label(true), "ON");
    assert_eq!(emoji_font("windows", false), "Segoe UI Emoji");
    let hover = accent_button_style(ButtonStatus::Hovered);
    let plain = accent_button_style(ButtonStatus::Active);
    assert_ne!(hover, plain);
    assert_eq!(c_accent().a, 1000);
    assert_eq!(white().r, 1000);
    assert!(matches!(handle_key_press(true), Some(Message::Window(WindowMessage::EscapePressed))));
    assert!(handle_key_press(false).is_none());
}
