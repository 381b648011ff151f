//! The update loop: signing in and out, friends, chats, calls and the window.

use hexatalk::state::app::{App, Config, Now, SavedAudio};
use hexatalk::state::compose::{clear_progress, ClearProgress};
use hexatalk::state::effect::{Arg, Call, CallKind, Effect, PeerCmd, PickPurpose, Reply};
use hexatalk::state::jobs::{period, Job};
use hexatalk::state::message::{
    AuthMessage, CallMessage, ChannelMessage, ComposeMessage, FeedMessage, Message, PaletteMessage,
    PeerEvent, PeerMessage, PrefsMessage, ProfileMessage, RoleMessage, RoomMessage, SealedMessage,
    ServerMessage, SocialMessage, VoiceMessage, WindowMessage,
};
use hexatalk::state::types::{
    is_online, is_online_at, AuthMode, Blob, CallRole, ChannelSummary, ChatMessage, ConversationSummary, Friend,
    GroupKey, ImagePick, IncomingMessage, IncomingRequest, MyCallInfo, Opened, ServerRoleRow,
    ServerSummary, Session, SidebarTab, WindowAction,
};
use hexatalk::state::voice::clamp_gain;
use hexatalk::strmap::{StrMap, StrSet};
use hexatalk::tray::TrayEvent;
use hexatalk::update_check::UpdateOutcome;

const UNIX: i64 = 1_700_000_000_000;

fn at(tick_ms: u64) -> Now {
    Now { tick_ms, unix_ms: UNIX }
}

fn s(t: &str) -> String {
    t.to_string()
}

fn fresh(token: Option<&str>) -> (App, Vec<Effect>) {
    App::new(
        Config {
            deployment_url: s("https://backend"),
            default_avatar_color: s("#4db884"),
            clear_history_ctrl: s("ctrl:clear"),
            decrypt_failed: s("[cannot decrypt]"),
            voice_note_tag: s("voice"),
            max_background_peers: 2,
            device_name: s("linux · pc"),
        },
        token.map(s),
        SavedAudio {
            input_device: Some(s("mic")),
            output_device: None,
            noise_gate: 7,
            voice_gains: StrMap::new(),
        },
    )
}

fn session() -> Session {
    Session {
        token: s("tok"),
        user_id: s("me"),
        username: s("maria"),
        display_name: s("Maria"),
        platform_role: s("user"),
        is_admin: false,
        is_moderator: false,
        avatar_color: s("#112233"),
        status_message: String::new(),
        bio: String::new(),
        avatar_image_url: s("https://a/me.png"),
        store_chat_history: true,
        hide_online_status: false,
        friends_only_dms: false,
        discoverable: true,
        friend_request_privacy: s("everyone"),
        presence_status: s("online"),
        email: s("m@x.org"),
        email_verified: false,
        plus_active: false,
        plus_expires_at: 0,
        profile_banner_url: String::new(),
    }
}

fn signed_in() -> App {
    let (mut app, _) = fresh(None);
    app.update_at(Message::Auth(AuthMessage::Connected), at(0));
    app.update_at(Message::Auth(AuthMessage::AuthFinished(Ok(session()))), at(1));
    app
}

fn friend(id: &str, presence: &str) -> Friend {
    Friend {
        user_id: s(id),
        username: s(id),
        display_name: s(id),
        last_seen_at: 0,
        presence: s(presence),
        avatar_color: String::new(),
        avatar_image_url: String::new(),
        public_key: String::new(),
        status_message: String::new(),
        nickname: String::new(),
        favorite: false,
        private_note: String::new(),
        friends_since: 0,
        mutual_servers: Vec::new(),
        is_staff: false,
    }
}

fn conversation(id: &str, kind: &str, peer: Option<&str>, last: i64, unread: bool) -> ConversationSummary {
    ConversationSummary {
        conversation_id: s(id),
        title: format!("title of {id}"),
        kind: s(kind),
        peer_user_id: peer.map(s),
        last_message_at: last,
        unread,
        mention_count: 0,
        is_support: false,
    }
}

fn message(id: &str, author: &str, body: &str) -> ChatMessage {
    ChatMessage {
        id: s(id),
        author_id: s(author),
        author_name: s(author),
        author_avatar_color: String::new(),
        author_avatar_url: String::new(),
        author_is_bot: false,
        author_plus_active: false,
        body: s(body),
        kind: s("text"),
        attachment_url: String::new(),
        attachment_key: None,
        attachment_nonce: None,
        reactions: Vec::new(),
        reply_to: None,
        encrypted: false,
        sent_at: UNIX,
        deleted: false,
        edited: false,
        pinned: false,
    }
}

fn plain(m: ChatMessage) -> IncomingMessage {
    IncomingMessage {
        message: m,
        body: Blob { sealed: false, opened: None },
        snippet: Blob { sealed: false, opened: None },
    }
}

/// The open chat is the DM `dm` with `ann`, whose channel is up.
fn in_dm() -> App {
    let mut app = signed_in();
    app.update_at(
        Message::Feed(FeedMessage::ConversationsUpdated(vec![conversation(
            "dm",
            "direct",
            Some("ann"),
            5,
            false,
        )])),
        at(2),
    );
    app.update_at(Message::Room(RoomMessage::OpenConversationDirect(s("dm"))), at(3));
    app.update_at(Message::Peer(PeerMessage::PeerCmdReady(s("ann"))), at(4));
    app.update_at(
        Message::Peer(PeerMessage::PeerEvent(
            s("ann"),
            PeerEvent::Connected {
                sas_emojis: s("a b"),
                transport: s("direct"),
                remote_fingerprint: s("fp"),
            },
        )),
        at(5),
    );
    app
}

/// The open chat is the group `g`, whose key is known.
fn in_group() -> App {
    let mut app = signed_in();
    app.update_at(
        Message::Feed(FeedMessage::ConversationsUpdated(vec![conversation(
            "g", "group", None, 5, false,
        )])),
        at(2),
    );
    app.update_at(Message::Room(RoomMessage::OpenConversationDirect(s("g"))), at(3));
    app.update_at(
        Message::Feed(FeedMessage::GroupKeysLoaded { keys: Vec::new(), pending: None }),
        at(4),
    );
    app.update_at(
        Message::Feed(FeedMessage::GroupKeyLoaded(s("g"), GroupKey { epoch: 3, key: [9; 32] })),
        at(4),
    );
    app
}

fn type_in(app: &mut App, text: &str) -> Vec<Effect> {
    app.update_at(Message::Compose(ComposeMessage::MessageInputChanged(s(text))), at(1_000_000))
}

fn calls(fx: &[Effect]) -> Vec<&Call> {
    fx.iter()
        .filter_map(|e| match e {
            Effect::Call(c) => Some(c),
            _ => None,
        })
        .collect()
}

fn text_arg<'a>(c: &'a Call, name: &str) -> &'a str {
    match c.args.iter().find(|(k, _)| *k == name) {
        Some((_, Arg::Str(v))) => v.as_str(),
        _ => panic!("no text argument {name}"),
    }
}

fn notices(fx: &[Effect]) -> Vec<(&str, &str)> {
    fx.iter()
        .filter_map(|e| match e {
            Effect::Notify { title, body } => Some((title.as_str(), body.as_str())),
            _ => None,
        })
        .collect()
}

#[test]
fn the_client_starts_by_connecting() {
    let (app, fx) = fresh(None);
    assert!(matches!(&fx[0], Effect::Connect { url } if url == "https://backend"));
    assert!(matches!(fx[1], Effect::CheckForUpdate));
    assert_eq!(fx.len(), 2);
    assert_eq!(app.link.connect_status, "Connecting to Convex...");
    assert_eq!(app.audio.noise_gate, 7);
    assert!(app.window.members_panel_open);
}

#[test]
fn a_saved_session_is_restored() {
    let (mut app, _) = fresh(Some("old"));
    let fx = app.update_at(Message::Auth(AuthMessage::Connected), at(0));
    let c = calls(&fx)[0];
    assert_eq!(c.function, "auth:me");
    assert_eq!(text_arg(c, "sessionToken"), "old");
    assert!(matches!(&c.reply, Reply::RestoreFinished { token } if token == "old"));
    let fx = app.update_at(Message::Auth(AuthMessage::RestoreFinished(Ok(session()))), at(1));
    assert!(matches!(&fx[0], Effect::FetchImage { url, .. } if url == "https://a/me.png"));
    assert!(matches!(&fx[1], Effect::LoadIdentity { user_id } if user_id == "me"));
    assert!(app.email.code_sent);
    let (mut app, _) = fresh(Some("old"));
    let fx = app.update_at(Message::Auth(AuthMessage::RestoreFinished(Err(s("x")))), at(1));
    assert!(matches!(fx[0], Effect::ClearSession));
}

#[test]
fn sign_up_is_checked_before_it_is_sent() {
    let (mut app, _) = fresh(None);
    app.auth.auth_mode = AuthMode::Register;
    let refused = |app: &mut App| {
        let fx = app.update_at(Message::Auth(AuthMessage::SubmitAuth), at(0));
        assert!(fx.is_empty());
        app.auth.auth_error.clone().unwrap()
    };
    assert_eq!(refused(&mut app), "Still connecting… wait a second, or press Retry.");
    app.update_at(Message::Auth(AuthMessage::Connected), at(0));
    assert_eq!(refused(&mut app), "Enter a username and password");
    app.auth.password_input = s("123");
    app.auth.username_input = s("ab");
    assert_eq!(refused(&mut app), "Username must be at least 3 characters");
    app.auth.username_input = s("a b c");
    assert_eq!(refused(&mut app), "Username can only use letters, numbers, _ and -");
    app.auth.username_input = s(" Ab_c ");
    assert_eq!(refused(&mut app), "Password must be at least 6 characters");
    app.auth.password_input = s("123456");
    app.auth.email_input = s("nobody");
    assert_eq!(refused(&mut app), "Enter a valid email address");
    app.auth.email_input = s(" N@X.org ");
    let fx = app.update_at(Message::Auth(AuthMessage::SubmitAuth), at(0));
    let c = calls(&fx)[0];
    assert_eq!(c.function, "auth:signUp");
    assert_eq!(c.kind, CallKind::Action);
    assert_eq!(text_arg(c, "username"), "ab_c");
    assert_eq!(text_arg(c, "displayName"), "ab_c");
    assert_eq!(text_arg(c, "email"), "n@x.org");
    assert!(app.auth.auth_busy);
    // A second click while the first is on its way does nothing.
    assert!(app.update_at(Message::Auth(AuthMessage::SubmitAuth), at(0)).is_empty());
}

#[test]
fn signing_in_saves_the_session() {
    let (mut app, _) = fresh(None);
    app.update_at(Message::Auth(AuthMessage::Connected), at(0));
    let fx = app.update_at(Message::Auth(AuthMessage::AuthFinished(Ok(session()))), at(7));
    assert!(matches!(&fx[0], Effect::SaveSession(x) if x.token == "tok"));
    let c = calls(&fx)[0];
    assert_eq!(c.function, "prefs:touchSession");
    assert_eq!(text_arg(c, "deviceName"), "linux · pc");
    assert_eq!(app.toast, Some((s("Signed in"), 7)));
    // Toasts go by themselves.
    app.update_at(Message::Window(WindowMessage::Tick), at(3006));
    assert!(app.toast.is_some());
    app.update_at(Message::Window(WindowMessage::Tick), at(3007));
    assert!(app.toast.is_none());
}

#[test]
fn the_vault_key_comes_from_the_identity() {
    let mut app = signed_in();
    let fx = app.update_at(
        Message::Auth(AuthMessage::IdentityLoaded(Ok(hexatalk::state::message::Identity {
            public_key: s("pk"),
            private_key: [5; 32],
        }))),
        at(2),
    );
    assert_eq!(text_arg(calls(&fx)[0], "publicKey"), "pk");
    assert_eq!(
        app.peers.vault_key,
        Some(hexatalk::state::history::vault_key_from_identity_private(&[5; 32]))
    );
    app.update_at(Message::Auth(AuthMessage::IdentityLoaded(Err(s("gone")))), at(2));
    assert_eq!(app.chat.error, Some(s("peerseal identity: gone")));
}

#[test]
fn nothing_is_asked_while_signed_out() {
    let (mut app, _) = fresh(None);
    app.update_at(Message::Auth(AuthMessage::Connected), at(0));
    let messages = vec![
        Message::Social(SocialMessage::ToggleFavorite(s("x"))),
        Message::Social(SocialMessage::FriendsUpdated(vec![friend("ann", "online")])),
        Message::Server(ServerMessage::CreateServer),
        Message::Compose(ComposeMessage::SendMessage),
        Message::Window(WindowMessage::Tick),
        Message::Prefs(PrefsMessage::ToggleHideOnline),
        Message::Room(RoomMessage::OpenConversationWithFriend(s("x"))),
    ];
    for m in messages {
        let fx = app.update_at(m, at(1));
        assert!(!fx.iter().any(|e| matches!(e, Effect::Call(_) | Effect::Upload(_))));
    }
}

#[test]
fn signing_out_leaves_nothing_behind() {
    let mut app = in_dm();
    app.update_at(
        Message::Social(SocialMessage::FriendsUpdated(vec![friend("ann", "online")])),
        at(6),
    );
    let fx = app.update_at(Message::Auth(AuthMessage::LogOut), at(9));
    assert!(matches!(fx[0], Effect::ClearSession));
    assert_eq!(calls(&fx)[0].function, "auth:signOut");
    let fx = app.update_at(Message::Auth(AuthMessage::LoggedOut), at(9));
    assert!(fx.iter().any(
        |e| matches!(e, Effect::SendPeerCmd { peer_id, cmd: PeerCmd::Shutdown } if peer_id == "ann")
    ));
    assert!(app.session.is_none());
    assert!(app.social.friends.is_empty());
    assert!(app.inbox.conversations.is_empty());
    assert!(app.place.conversation.is_none());
    assert!(app.peers.channels.keys().is_empty());
    // Without a session there is nothing to ask the backend.
    let fx = app.update_at(Message::Auth(AuthMessage::LogOut), at(9));
    assert!(calls(&fx).is_empty());
}

#[test]
fn friends_who_leave_lose_their_channel() {
    let mut app = in_dm();
    let fx = app.update_at(
        Message::Social(SocialMessage::FriendsUpdated(vec![
            friend("ann", "offline"),
            friend("bob", "online"),
        ])),
        at(6),
    );
    assert!(fx.iter().any(
        |e| matches!(e, Effect::SendPeerCmd { peer_id, cmd: PeerCmd::Shutdown } if peer_id == "ann")
    ));
    let c = calls(&fx);
    assert_eq!(c.len(), 1);
    assert_eq!(c[0].function, "conversations:getOrCreateDirect");
    assert_eq!(text_arg(c[0], "friendUserId"), "bob");
    assert!(!app.peers.connected.contains("ann"));
}

#[test]
fn friend_requests_are_announced_and_sent() {
    let mut app = signed_in();
    let request = |id: &str, note: &str| IncomingRequest {
        request_id: s(id),
        from_user_id: s("u"),
        from_username: s("zoe"),
        from_display_name: s("Zoe"),
        from_avatar_color: String::new(),
        from_avatar_image_url: String::new(),
        note: s(note),
        sent_at: 0,
        from_status_message: String::new(),
        mutual_servers: Vec::new(),
        presence: String::new(),
        is_staff: false,
    };
    // The first list is no news.
    let fx =
        app.update_at(Message::Social(SocialMessage::RequestsUpdated(vec![request("1", "")])), at(2));
    assert!(notices(&fx).is_empty());
    let fx = app.update_at(
        Message::Social(SocialMessage::RequestsUpdated(vec![request("1", ""), request("2", "hey")])),
        at(2),
    );
    assert_eq!(notices(&fx), vec![("Friend request", "Zoe (@zoe): hey")]);

    app.social.friends = vec![friend("Bob", "online")];
    for (input, why) in [
        ("  @ ", "Enter a username"),
        ("@BOB", "You're already friends"),
        ("Maria", "You can't add yourself"),
    ] {
        app.social.add_friend_input = s(input);
        let fx = app.update_at(Message::Social(SocialMessage::SendFriendRequest), at(3));
        assert!(fx.is_empty());
        assert_eq!(app.social.add_friend_status.as_deref(), Some(why));
    }
    app.social.add_friend_input = s("@Zoe");
    app.social.add_friend_note = s(" hi ");
    let fx = app.update_at(Message::Social(SocialMessage::SendFriendRequest), at(3));
    let c = calls(&fx)[0];
    assert_eq!(text_arg(c, "toUsername"), "zoe");
    assert_eq!(text_arg(c, "note"), "hi");
    assert!(app.update_at(Message::Social(SocialMessage::SendFriendRequest), at(3)).is_empty());
}

#[test]
fn news_are_announced_once_and_marked_read_once() {
    let mut app = signed_in();
    let list = |a: i64, b: i64, unread: bool| {
        vec![
            conversation("a", "group", None, a, unread),
            conversation("b", "group", None, b, false),
        ]
    };
    let update = |app: &mut App, l: Vec<ConversationSummary>| {
        app.update_at(Message::Feed(FeedMessage::ConversationsUpdated(l)), at(2))
    };
    update(&mut app, list(1, 1, false));
    app.update_at(Message::Room(RoomMessage::OpenConversationDirect(s("a"))), at(3));
    // The open chat is no news, but is marked as read.
    let fx = update(&mut app, list(2, 1, true));
    assert!(notices(&fx).is_empty());
    assert!(matches!(&fx[0], Effect::MarkRead { conversation_id } if conversation_id == "a"));
    // The same list again: nothing more to mark.
    assert!(update(&mut app, list(2, 1, true)).is_empty());
    let fx = update(&mut app, list(2, 9, false));
    assert_eq!(notices(&fx), vec![("HexaTalk", "New message · title of b")]);
}

#[test]
fn muted_channels_announce_nothing() {
    let mut app = signed_in();
    let list = |last: i64| vec![conversation("c", "channel", None, last, false)];
    app.update_at(Message::Feed(FeedMessage::ConversationsUpdated(list(1))), at(2));
    app.servers.channels = vec![ChannelSummary {
        conversation_id: s("c"),
        name: s("c"),
        channel_type: s("text"),
        mention_count: 0,
        category_id: String::new(),
        position: 0,
        is_announcement: false,
        is_system: false,
        muted: true,
        can_send: true,
        permissions: 0,
    }];
    let fx = app.update_at(Message::Feed(FeedMessage::ConversationsUpdated(list(2))), at(3));
    assert!(fx.is_empty());
    app.servers.channels[0].muted = false;
    let fx = app.update_at(Message::Feed(FeedMessage::ConversationsUpdated(list(3))), at(4));
    assert_eq!(notices(&fx).len(), 1);
}

#[test]
fn live_channels_do_not_mix() {
    let mut app = in_dm();
    app.update_at(
        Message::Peer(PeerMessage::PeerEvent(s("bob"), PeerEvent::Error(s("gone")))),
        at(8),
    );
    assert_eq!(app.peers.connected.get("ann"), Some(&true));
    assert_eq!(app.peers.connected.get("bob"), Some(&false));
    assert_eq!(app.peers.status.get("bob").unwrap(), "gone");
    assert!(app.chat.error.is_none());
    let fx = app.update_at(
        Message::Peer(PeerMessage::PeerEvent(s("bob"), PeerEvent::Text(s("hi")))),
        at(9),
    );
    assert_eq!(notices(&fx), vec![("Talkyss", "New message · Peer")]);
    assert!(app.peers.live.get("ann").is_none());
    assert_eq!(app.peers.live.get("bob").unwrap().len(), 1);
}

#[test]
fn groups_are_made_of_chosen_friends() {
    let mut app = signed_in();
    for id in ["bob", "ann", "cid", "bob"] {
        app.update_at(Message::Room(RoomMessage::ToggleGroupMember(s(id))), at(2));
    }
    assert_eq!(app.groups.selected.items, vec![s("ann"), s("cid")]);
    let fx = app.update_at(Message::Room(RoomMessage::CreateGroup), at(3));
    assert!(fx.is_empty());
    assert_eq!(app.groups.status.as_deref(), Some("Enter a name and select at least one friend"));
    app.groups.name_input = s(" Trip ");
    let fx = app.update_at(Message::Room(RoomMessage::CreateGroup), at(3));
    assert_eq!(text_arg(calls(&fx)[0], "name"), "Trip");
    assert!(calls(&fx)[0]
        .args
        .iter()
        .any(|(k, a)| *k == "memberUserIds" && matches!(a, Arg::Strs(v) if v.len() == 2)));
}

#[test]
fn sealed_texts_are_shown_opened_or_as_failed() {
    let mut app = in_group();
    let encrypted = || {
        let mut m = message("1", "ann", "ciphertext");
        m.encrypted = true;
        m
    };
    let sealed = |opened: Option<&str>| IncomingMessage {
        message: encrypted(),
        body: Blob {
            sealed: true,
            opened: opened.map(|t| Opened {
                text: s(t),
                attachment_key: Some(s("k")),
                attachment_nonce: Some(s("n")),
            }),
        },
        snippet: Blob { sealed: false, opened: None },
    };
    app.update_at(Message::Feed(FeedMessage::MessagesUpdated(vec![sealed(Some("hello"))])), at(5));
    assert_eq!(app.chat.messages[0].body, "hello");
    assert!(app.chat.messages[0].encrypted);
    assert_eq!(app.chat.messages[0].attachment_key.as_deref(), Some("k"));
    app.update_at(Message::Feed(FeedMessage::MessagesUpdated(vec![sealed(None)])), at(5));
    assert_eq!(app.chat.messages[0].body, "[cannot decrypt]");
}

#[test]
fn mentions_ping_while_we_look_away() {
    let mut app = in_group();
    app.update_at(Message::Window(WindowMessage::WindowFocusChanged(false)), at(5));
    let fx = app.update_at(
        Message::Feed(FeedMessage::MessagesUpdated(vec![plain(message("1", "ann", "hi @maria"))])),
        at(6),
    );
    assert_eq!(notices(&fx), vec![("ann mentioned you", "hi @maria")]);
    assert!(matches!(fx.last(), Some(Effect::ScrollToBottom)));
    // The same message again is not new.
    let fx = app.update_at(
        Message::Feed(FeedMessage::MessagesUpdated(vec![plain(message("1", "ann", "hi @maria"))])),
        at(6),
    );
    assert!(notices(&fx).is_empty());
    // In front of the window nothing pings.
    app.update_at(Message::Window(WindowMessage::WindowFocusChanged(true)), at(5));
    let fx = app.update_at(
        Message::Feed(FeedMessage::MessagesUpdated(vec![plain(message("2", "ann", "@everyone"))])),
        at(6),
    );
    assert!(notices(&fx).is_empty());
}

#[test]
fn dms_go_over_the_live_channel() {
    let mut app = in_dm();
    type_in(&mut app, " hello ");
    let fx = app.update_at(Message::Compose(ComposeMessage::SendMessage), at(10));
    assert!(matches!(
        &fx[0],
        Effect::SendPeerCmd { peer_id, cmd: PeerCmd::SendText(t) } if peer_id == "ann" && t == "hello"
    ));
    assert!(matches!(fx[1], Effect::ScrollToBottom));
    let c = calls(&fx)[0];
    assert_eq!(c.function, "messages:send");
    assert_eq!(text_arg(c, "body"), "hello");
    assert!(app.composer.send_busy);
    let live = app.peers.live.get("ann").unwrap();
    assert_eq!(live[0].body, "hello");
    assert_eq!(live[0].id, format!("peer-out-{UNIX}-0"));
    // Nothing more goes out until the first is through.
    type_in(&mut app, "more");
    assert!(app.update_at(Message::Compose(ComposeMessage::SendMessage), at(11)).is_empty());
    assert_eq!(app.composer.input, "more");
}

#[test]
fn dms_wait_while_the_channel_is_down() {
    let mut app = in_dm();
    app.update_at(
        Message::Peer(PeerMessage::PeerEvent(s("ann"), PeerEvent::Disconnected)),
        at(9),
    );
    type_in(&mut app, "hello");
    let fx = app.update_at(Message::Compose(ComposeMessage::SendMessage), at(10));
    assert!(fx.is_empty());
    assert_eq!(app.composer.input, "hello");
    assert!(app.chat.error.is_some());
}

#[test]
fn stored_history_can_be_switched_off() {
    let mut app = in_dm();
    app.chat.store_enabled = false;
    type_in(&mut app, "hello");
    let fx = app.update_at(Message::Compose(ComposeMessage::SendMessage), at(10));
    assert!(calls(&fx).is_empty());
    assert!(!app.composer.send_busy);
}

fn sealed_for(conversation: &str, body: Option<&str>) -> Message {
    let sealed = body.map(|b| SealedMessage { body: s(b), attachment: None });
    Message::Compose(ComposeMessage::MessageSealed(s(conversation), sealed))
}

#[test]
fn group_messages_are_sealed_first() {
    let mut app = in_group();
    type_in(&mut app, "secret");
    let fx = app.update_at(Message::Compose(ComposeMessage::SendMessage), at(10));
    assert_eq!(fx.len(), 1);
    assert!(matches!(
        &fx[0],
        Effect::SealMessage { conversation_id, key, body, attachment: None }
            if conversation_id == "g" && key.epoch == 3 && body == "secret"
    ));
    assert_eq!(app.composer.input, "");
    assert!(app.composer.send_busy);
    let fx = app.update_at(sealed_for("g", Some("TGK1...")), at(11));
    let c = calls(&fx)[0];
    assert_eq!(text_arg(c, "body"), "TGK1...");
    assert_eq!(text_arg(c, "conversationId"), "g");
    assert!(c.args.iter().any(|(k, a)| *k == "encrypted" && matches!(a, Arg::Bool(true))));
    assert_eq!(app.composer.input, "");
    assert!(app.composer.send_busy);
    assert!(app.composer.sealing.is_none());
    app.update_at(Message::Compose(ComposeMessage::MessageSentFinished(Ok(()))), at(12));
    assert!(!app.composer.send_busy);
}

#[test]
fn a_message_that_cannot_be_sealed_comes_back() {
    let mut app = in_group();
    type_in(&mut app, " again");
    app.composer.reply = Some((s("m0"), s("Ann"), s("hi")));
    app.update_at(Message::Compose(ComposeMessage::SendMessage), at(10));
    assert!(app.composer.reply.is_none());
    assert!(app.update_at(sealed_for("g", None), at(11)).is_empty());
    assert_eq!(app.chat.error.as_deref(), Some("Could not encrypt message"));
    assert_eq!(app.composer.input, " again");
    assert_eq!(app.composer.reply, Some((s("m0"), s("Ann"), s("hi"))));
    assert!(!app.composer.send_busy);
    // With no one waiting for it, a seal is of no use.
    assert!(app.update_at(sealed_for("g", Some("TGK1")), at(12)).is_empty());
    assert_eq!(app.composer.input, " again");
}

#[test]
fn a_sealed_message_goes_to_its_own_chat() {
    let mut app = in_group();
    type_in(&mut app, "for g");
    app.update_at(Message::Compose(ComposeMessage::SendMessage), at(10));
    // No second message while the first is being sealed.
    type_in(&mut app, "more");
    assert!(app.update_at(Message::Compose(ComposeMessage::SendMessage), at(10)).is_empty());
    // Another chat is opened before the seal is there.
    app.place.conversation = Some(s("h"));
    assert!(app.update_at(sealed_for("h", Some("TGK1")), at(11)).is_empty());
    let fx = app.update_at(sealed_for("g", Some("TGK1")), at(11));
    assert_eq!(calls(&fx).len(), 1);
    assert_eq!(text_arg(calls(&fx)[0], "conversationId"), "g");
    assert_eq!(app.composer.input, "more");
}

#[test]
fn without_a_key_a_group_message_waits() {
    let mut app = in_group();
    app.group_keys = None;
    type_in(&mut app, "secret");
    let fx = app.update_at(Message::Compose(ComposeMessage::SendMessage), at(10));
    assert!(calls(&fx).is_empty());
    assert_eq!(
        app.chat.error.as_deref(),
        Some("Encrypting… group key not ready yet. Wait a second or reopen the chat.")
    );
}

#[test]
fn edits_of_sealed_messages_are_sealed() {
    let mut app = in_group();
    app.update_at(
        Message::Compose(ComposeMessage::EditMessage(s("m1"), s("old"), true)),
        at(9),
    );
    type_in(&mut app, "new");
    let fx = app.update_at(Message::Compose(ComposeMessage::SendMessage), at(10));
    assert!(matches!(&fx[0], Effect::SealEdit { body, message_id, .. } if body == "new" && message_id == "m1"));
    let fx = app.update_at(
        Message::Compose(ComposeMessage::EditSealed(s("m1"), Some(s("TGK1")))),
        at(11),
    );
    assert_eq!(calls(&fx)[0].function, "messages:edit");
    assert_eq!(text_arg(calls(&fx)[0], "body"), "TGK1");
    assert_eq!(text_arg(calls(&fx)[0], "messageId"), "m1");
    assert_eq!(app.composer.input, "");
    app.update_at(Message::Compose(ComposeMessage::EditFinished(Ok(()))), at(12));

    app.update_at(
        Message::Compose(ComposeMessage::EditMessage(s("m1"), s("old"), true)),
        at(13),
    );
    type_in(&mut app, "newer");
    app.update_at(Message::Compose(ComposeMessage::SendMessage), at(14));
    assert!(app.composer.send_busy);
    app.update_at(Message::Compose(ComposeMessage::EditSealed(s("m1"), None)), at(15));
    assert_eq!(app.chat.error.as_deref(), Some("Could not re-encrypt edited message"));
    assert_eq!(app.composer.input, "newer");
    assert!(app.composer.editing_id.is_none());
    assert!(!app.composer.send_busy);
}

#[test]
fn long_messages_stay_in_the_composer() {
    let mut app = in_group();
    type_in(&mut app, &"x".repeat(4001));
    assert!(app.update_at(Message::Compose(ComposeMessage::SendMessage), at(10)).is_empty());
    assert_eq!(app.chat.error.as_deref(), Some("Message is too long (max 4000 characters)"));
}

#[test]
fn typing_is_told_now_and_then() {
    let mut app = in_group();
    let fx = app.update_at(Message::Compose(ComposeMessage::MessageInputChanged(s("a"))), at(100));
    assert!(matches!(fx[0], Effect::TypingPing { typing: true, .. }));
    let fx = app.update_at(Message::Compose(ComposeMessage::MessageInputChanged(s("ab"))), at(101));
    assert!(fx.is_empty());
    let fx = app.update_at(Message::Compose(ComposeMessage::MessageInputChanged(s(""))), at(102));
    assert!(matches!(fx[0], Effect::TypingPing { typing: false, .. }));
}

#[test]
fn chats_are_cleared_on_both_sides() {
    let mut app = in_dm();
    app.update_at(Message::Compose(ComposeMessage::ToggleClearChatConfirm), at(9));
    let fx = app.update_at(Message::Compose(ComposeMessage::ConfirmClearChat), at(10));
    assert!(matches!(&fx[0], Effect::SendPeerCmd { cmd: PeerCmd::SendText(t), .. } if t == "ctrl:clear"));
    assert!(matches!(&fx[1], Effect::WipeChat { user_id, .. } if user_id == "me"));
    assert!(matches!(&fx[2], Effect::ClearConversation { conversation_id, .. } if conversation_id == "dm"));
    assert!(app.chat.clear_busy);
    assert!(matches!(clear_progress(3, 4, false), ClearProgress::Again(7)));
    assert!(matches!(
        clear_progress(3, 4, true),
        ClearProgress::Finished(t) if t == "Chat cleared · 7 messages removed from Convex"
    ));
    assert!(matches!(
        clear_progress(0, 0, true),
        ClearProgress::Finished(t) if t == "Chat cleared (Convex + local caches)"
    ));
}

#[test]
fn a_peer_can_ask_for_a_wipe() {
    let mut app = in_dm();
    app.update_at(
        Message::Peer(PeerMessage::PeerEvent(s("ann"), PeerEvent::Text(s("hi")))),
        at(9),
    );
    assert_eq!(app.peers.live.get("ann").unwrap()[0].body, "hi");
    let fx = app.update_at(
        Message::Peer(PeerMessage::PeerEvent(s("ann"), PeerEvent::Text(s("ctrl:clear")))),
        at(10),
    );
    assert!(fx.iter().any(|e| matches!(e, Effect::WipeChat { .. })));
    assert!(app.peers.live.get("ann").is_none());
}

#[test]
fn a_wipe_spares_the_other_chats() {
    let mut app = in_dm();
    for peer in ["ann", "bob"] {
        app.update_at(
            Message::Peer(PeerMessage::PeerEvent(
                s(peer),
                PeerEvent::Photo { bytes: vec![1], content_type: s("image/png") },
            )),
            at(9),
        );
    }
    let picture = |app: &App, peer: &str| app.peers.live.get(peer).unwrap()[0].attachment_url.clone();
    let (anns, bobs) = (picture(&app, "ann"), picture(&app, "bob"));
    app.update_at(
        Message::Peer(PeerMessage::PeerEvent(s("ann"), PeerEvent::Text(s("ctrl:clear")))),
        at(10),
    );
    assert!(app.peers.live.get("ann").is_none());
    assert!(app.images.get(&anns).is_none());
    assert_eq!(app.peers.live.get("bob").unwrap().len(), 1);
    assert_eq!(app.images.get(&bobs), Some(&vec![1]));
}

#[test]
fn everyone_is_offered_where_it_pings() {
    let mut app = in_group();
    let mut offers = |kind: &str| {
        app.place.kind = Some(s(kind));
        type_in(&mut app, "@ev");
        app.composer.suggestions.contains(&s("everyone"))
    };
    assert!(offers("group"));
    assert!(offers("channel"));
    assert!(!offers("voice"));
    assert!(!offers("direct"));
}

#[test]
fn invites_wait_for_the_channel() {
    let mut app = signed_in();
    let fx = app.update_at(
        Message::Peer(PeerMessage::PeerInviteUpdated(s("ann"), Some(s("payload")))),
        at(2),
    );
    assert!(fx.is_empty());
    app.update_at(Message::Peer(PeerMessage::PeerInvitePublished(s("ann"), Ok(()))), at(2));
    assert_eq!(app.peers.status.get("ann").unwrap(), "Invite saved — waiting for peer…");
    let fx = app.update_at(Message::Peer(PeerMessage::PeerCmdReady(s("ann"))), at(3));
    assert!(matches!(&fx[0], Effect::SendPeerCmd { cmd: PeerCmd::InvitePayload(p), .. } if p == "payload"));
    assert!(matches!(&fx[1], Effect::SendPeerCmd { cmd: PeerCmd::InvitePublished, .. }));
}

#[test]
fn the_bell_rings_for_calls() {
    let mut app = in_dm();
    let ringing = |is_caller: bool, status: &str| {
        Message::Call(CallMessage::MyCallUpdated(Some(MyCallInfo {
            call_id: s("c1"),
            is_caller,
            status: s(status),
            peer_display_name: s("Ann"),
            offer_sdp: s("sdp"),
        })))
    };
    let fx = app.update_at(ringing(false, "ringing"), at(9));
    assert!(fx.iter().any(|e| matches!(e, Effect::RingtoneStart)));
    app.update_at(Message::Call(CallMessage::AcceptCall), at(10));
    assert!(matches!(&app.calls.role, Some(CallRole::Callee { call_id, .. }) if call_id == "c1"));
    assert_eq!(app.calls.engine_key.as_deref(), Some("callee-c1"));
    let fx = app.update_at(ringing(false, "active"), at(11));
    assert!(fx.iter().any(|e| matches!(e, Effect::RingtoneStop)));
    app.update_at(Message::Call(CallMessage::MyCallUpdated(None)), at(12));
    assert!(app.calls.role.is_none());
    app.update_at(Message::Call(CallMessage::StartCall), at(13));
    assert_eq!(app.calls.engine_key, Some(format!("caller-{UNIX}")));
    assert_eq!(app.calls.status_text.as_deref(), Some("Calling..."));
}

#[test]
fn closing_hides_or_quits() {
    let (mut app, _) = fresh(None);
    app.update_at(
        Message::Window(WindowMessage::UpdateCheckFinished(UpdateOutcome::Downloaded {
            path: s("/x.new"),
            version: s("2"),
        })),
        at(1),
    );
    assert_eq!(app.toast, Some((s("Update ready (v2) — installs on next restart"), 1)));
    let fx = app.update_at(Message::Window(WindowMessage::CheckForUpdate), at(2));
    assert!(fx.is_empty());
    app.update_at(Message::Window(WindowMessage::TrayEvent(TrayEvent::Ready)), at(2));
    let fx = app.update_at(Message::Window(WindowMessage::WindowCloseRequested), at(3));
    assert!(fx.is_empty());
    assert_eq!(app.window.pending_action, Some(WindowAction::HideToTray));
    assert!(!app.window.window_focused);
    app.update_at(
        Message::Window(WindowMessage::TrayEvent(TrayEvent::Unavailable(s("no icon")))),
        at(4),
    );
    let fx = app.update_at(Message::Window(WindowMessage::WindowCloseRequested), at(5));
    assert!(matches!(&fx[0], Effect::StageExeSwap { path, relaunch: false } if path == "/x.new"));
    assert_eq!(app.window.pending_action, Some(WindowAction::Exit));
}

#[test]
fn the_admin_tab_loads_itself() {
    let mut app = signed_in();
    app.window.chat_filter_input = s("x");
    let fx = app.update_at(Message::Window(WindowMessage::SidebarTabChanged(SidebarTab::Admin)), at(2));
    assert_eq!(fx.iter().filter(|e| matches!(e, Effect::Dispatch(Message::Admin(_)))).count(), 2);
    assert_eq!(app.window.chat_filter_input, "");
}

#[test]
fn escape_closes_one_thing_at_a_time() {
    let mut app = in_group();
    app.update_at(Message::Palette(PaletteMessage::OpenCommandPalette), at(5));
    app.composer.reply = Some((s("m"), s("ann"), s("hi")));
    app.toast = Some((s("t"), 0));
    app.chat.error = Some(s("e"));
    let escape = |app: &mut App| {
        app.update_at(Message::Window(WindowMessage::EscapePressed), at(6));
    };
    escape(&mut app);
    assert!(!app.palette.open && app.composer.reply.is_some());
    escape(&mut app);
    assert!(app.composer.reply.is_none() && app.toast.is_some());
    escape(&mut app);
    assert!(app.toast.is_none() && app.chat.error.is_some());
    escape(&mut app);
    assert!(app.chat.error.is_none());
    escape(&mut app);
    assert!(app.place.conversation.is_some());
}

#[test]
fn permissions_and_overwrites_click_through() {
    let mut app = signed_in();
    app.roles.list = vec![ServerRoleRow {
        role_id: s("r"),
        name: s("Mod"),
        color: String::new(),
        position: 0,
        permissions: 5,
    }];
    let fx = app.update_at(Message::Role(RoleMessage::ToggleRolePermission(s("r"), 4)), at(2));
    let bits = |fx: &[Effect]| match calls(fx)[0].args.iter().find(|(k, _)| *k == "permissions") {
        Some((_, Arg::Num(n))) => *n,
        _ => panic!("no bits"),
    };
    assert_eq!(bits(&fx), 1);
    let fx = app.update_at(Message::Role(RoleMessage::ToggleRolePermission(s("r"), 8)), at(2));
    assert_eq!(bits(&fx), 13);

    app.update_at(Message::Channel(ChannelMessage::EditChannelPerms(s("c"))), at(3));
    app.update_at(
        Message::Channel(ChannelMessage::ChannelOverwritesLoaded(Ok((s("c"), vec![(s("r"), 0, 0)])))),
        at(3),
    );
    app.update_at(Message::Channel(ChannelMessage::SelectChannelPermRole(s("r"))), at(3));
    let mut seen = Vec::new();
    for _ in 0..3 {
        app.update_at(Message::Channel(ChannelMessage::CycleChannelOverwritePerm(2)), at(4));
        seen.push(app.channels.overwrites.get("r").copied());
    }
    // What says nothing any more is gone.
    assert_eq!(seen, vec![Some((2, 0)), Some((0, 2)), None]);
}

#[test]
fn privacy_flags_flip_back_on_failure() {
    let mut app = signed_in();
    let fx = app.update_at(Message::Prefs(PrefsMessage::ToggleHideOnline), at(2));
    assert_eq!(calls(&fx)[0].function, "prefs:setPrivacyFlags");
    assert!(app.session.as_ref().unwrap().hide_online_status);
    app.update_at(Message::Prefs(PrefsMessage::ToggleHideOnline), at(2));
    assert!(!app.session.as_ref().unwrap().hide_online_status);
}

#[test]
fn pictures_are_picked_and_uploaded() {
    let mut app = signed_in();
    let fx = app.update_at(Message::Profile(ProfileMessage::PickAvatarImage), at(2));
    assert!(matches!(fx[0], Effect::PickImage(PickPurpose::Avatar)));
    let fx = app.update_at(
        Message::Profile(ProfileMessage::AvatarFilePicked(ImagePick::Ready(vec![1], s("image/png")))),
        at(3),
    );
    assert!(fx.iter().any(|e| matches!(e, Effect::Upload(u) if u.bytes == vec![1] && u.content_type == "image/png")));
}

#[test]
fn volumes_are_clamped() {
    assert_eq!(clamp_gain(0.5f32.to_bits()), 0.5f32.to_bits());
    assert_eq!(clamp_gain(9.0f32.to_bits()), 5.0f32.to_bits());
    assert_eq!(clamp_gain((-1.0f32).to_bits()), 0.0f32.to_bits());
    let mut app = signed_in();
    app.update_at(
        Message::Voice(VoiceMessage::VoiceVolumeChanged(s("ann"), 9.0f32.to_bits())),
        at(2),
    );
    assert_eq!(app.audio.voice_gains.get("ann"), Some(&5.0f32.to_bits()));
}

#[test]
fn jobs_follow_the_state() {
    let (app, _) = fresh(None);
    let none = StrSet::new();
    assert!(matches!(app.subscription_at(&none, true, at(0)).as_slice(), [Job::Tray, Job::UpdateCheck]));

    let mut app = in_dm();
    app.update_at(
        Message::Feed(FeedMessage::ConversationsUpdated(
            ["ann", "bob", "cid"]
                .iter()
                .map(|p| conversation(&format!("dm-{p}"), "direct", Some(p), 5, false))
                .collect(),
        )),
        at(6),
    );
    app.update_at(
        Message::Social(SocialMessage::FriendsUpdated(vec![
            friend("ann", "online"),
            friend("bob", "idle"),
            friend("cid", "dnd"),
        ])),
        at(6),
    );
    let mut hosted = StrSet::new();
    hosted.toggle(s("bob"));
    let jobs = app.subscription_at(&hosted, false, at(7));
    let peers: Vec<&str> = jobs
        .iter()
        .filter_map(|j| match j {
            Job::PeerSession { peer_id, .. } => Some(peer_id.as_str()),
            _ => None,
        })
        .collect();
    // Two in the background; the open DM is among them.
    assert_eq!(peers, vec!["ann", "bob"]);
    let waiting: Vec<&str> = jobs
        .iter()
        .filter_map(|j| match j {
            Job::PeerInvite { peer_id, .. } => Some(peer_id.as_str()),
            _ => None,
        })
        .collect();
    assert_eq!(waiting, vec!["ann"]);
    assert!(jobs.iter().any(|j| matches!(j, Job::Messages(c) if c == "dm")));
    assert!(!jobs.iter().any(|j| matches!(j, Job::AdminUsers | Job::RingTick)));
    assert_eq!(app.subscription(&hosted, true).len(), jobs.len() + 1);
}

#[test]
fn presence_is_recent() {
    assert!(is_online_at(UNIX - 89_999, UNIX));
    assert!(!is_online_at(UNIX - 90_000, UNIX));
    assert!(!is_online_at(0, 10));
    assert!(!is_online_at(i64::MIN, i64::MAX));
    assert!(is_online(i64::MAX));
    assert!(!is_online(0));
    assert!(friend("a", "idle").is_online_like());
    assert!(!friend("a", "offline").is_online_like());
    let mut f = friend("a", "offline");
    f.nickname = s("Al");
    assert_eq!(f.label(), "Al");
}

#[test]
fn servers_are_joined_by_code() {
    let mut app = signed_in();
    app.servers.join_code_input = s(" https://x/invite/AB12/ ");
    let fx = app.update_at(Message::Server(ServerMessage::JoinServer), at(2));
    let c = calls(&fx)[0];
    assert_eq!(text_arg(c, "inviteCode"), "AB12");
    let fx = app.update_at(Message::Server(ServerMessage::CopyInviteLink(s("AB12"))), at(2));
    assert!(matches!(&fx[0], Effect::Clipboard(t) if t == "hexatalk://invite/AB12"));
    app.update_at(
        Message::Server(ServerMessage::ServersUpdated(vec![ServerSummary {
            server_id: s("s1"),
            name: s("One"),
            is_owner: true,
            invite_code: s("AB12"),
            icon_url: s("https://i"),
            custom_slug: String::new(),
            description: String::new(),
            created_at: 0,
            welcome_channel_id: String::new(),
            invites_paused: false,
        }])),
        at(3),
    );
    app.update_at(Message::Server(ServerMessage::SelectServer(s("s1"))), at(4));
    assert_eq!(app.servers.selected.as_ref().unwrap().name, "One");
}

#[test]
fn the_clock_is_read_where_none_is_given() {
    let mut app = signed_in();
    app.update(Message::Window(WindowMessage::ClearToast), 5);
    assert!(app.toast.is_none());
    let before = app.composer.input.len();
    app.update(Message::Compose(ComposeMessage::MentionSuggestionPicked(s("ann"))), 6);
    assert!(app.composer.input.len() >= before);
}

#[test]
fn timers_have_their_periods() {
    assert_eq!(period(&Job::Tick), Some((5_000, false)));
    assert_eq!(period(&Job::UpdateCheck), Some((30 * 60 * 1_000, true)));
    assert_eq!(period(&Job::RingTick), Some((2_000, false)));
    assert_eq!(period(&Job::AnimateMembersPanel), Some((16, false)));
    assert_eq!(period(&Job::Friends), None);
    assert_eq!(period(&Job::Call(s("c"))), None);
}
