//! Writing, sending and changing messages.

use crate::state::app::{
    make_call, mutation, session_call, shared_key_kind, toasts, App, Chat, Composer, Draft, Now,
};
use crate::state::effect::{
    arg, args_view, both, nothing, one, opt_text, two, views, Arg, ArgView, CallKind, CallView,
    Effect, EffectView, PeerCmd, PeerCmdView, PickPurpose, Reply, Upload,
};
use crate::state::lifecycle::{
    copy_opt, is_shared_key_kind, key_wanted, stop_typing, typing_stopped, wipe_files, wiped,
};
use crate::state::message::{ComposeMessage, SealedMessage};
use crate::state::peers::sent_live;
use crate::state::types::{ImagePick, PendingAttachment, Session};
use crate::strmap::texts;
use crate::text::{
    cat2, cat3, char_count, decimal, digits, is_text, owned, same, text_is, trim, trimmed,
};
use crate::ui::mentions::{complete, completed, suggests};
use vstd::prelude::*;

verus! {

/// The longest message, in characters.
pub const MAX_MESSAGE_CHARS: usize = 4000;

/// The "typing" mark is refreshed at most this often.
pub const TYPING_PING_MS: u64 = 2000;

// ---------- Small pieces ----------

/// Only the error line of the chat changed, and it shows `text`.
pub open spec fn says(pre: App, text: Seq<char>, post: App) -> bool {
    &&& post == (App { chat: Chat { error: post.chat.error, ..pre.chat }, ..pre })
    &&& text_is(post.chat.error, text)
}

/// The composer holds no text.
pub open spec fn input_cleared(pre: Composer, post: Composer) -> bool {
    &&& post == (Composer { input: post.input, suggestions: post.suggestions, ..pre })
    &&& post.input@.len() == 0
    &&& post.suggestions@.len() == 0
}

/// The friend's channel is up.
pub open spec fn is_connected(app: App, peer_id: Seq<char>) -> bool {
    app.peers.connected@.contains_key(peer_id) && app.peers.connected@[peer_id]
}

impl App {
    fn say(&mut self, text: &str) -> (fx: Vec<Effect>)
        ensures
            says(*old(self), text@, *final(self)),
            views(fx@).len() == 0,
    {
        self.chat.error = Some(owned(text));
        nothing()
    }

    fn clear_input(&mut self)
        ensures
            *final(self) == (App { composer: final(self).composer, ..*old(self) }),
            input_cleared(old(self).composer, final(self).composer),
    {
        self.composer.input = String::new();
        self.composer.suggestions = Vec::new();
    }

    fn peer_is_connected(&self, peer_id: &str) -> (r: bool)
        ensures
            r == is_connected(*self, peer_id@),
    {
        match self.peers.connected.get(peer_id) {
            Some(b) => *b,
            None => false,
        }
    }
}

// ---------- Typing ----------

/// The "typing" mark is due for a refresh.
pub open spec fn ping_due(last: Option<u64>, now: Now) -> bool {
    match last {
        Some(t) => now.tick_ms >= t + TYPING_PING_MS,
        None => true,
    }
}

/// What typing does: the text is taken over, suggestions follow it, and the
/// others learn that we type or stopped.
pub open spec fn input_step(pre: App, value: String, now: Now, post: App, fx: Seq<EffectView>) -> bool {
    let typed = App {
        composer: Composer { input: value, suggestions: post.composer.suggestions, ..pre.composer },
        ..pre
    };
    &&& suggests(value@, pre.mention_names(), 8, texts(post.composer.suggestions@))
    &&& match pre.place.conversation {
        None => post == typed && fx.len() == 0,
        Some(c) => if trimmed(value@).len() == 0 {
            post == typing_stopped(typed) && fx == stop_typing(pre)
        } else if ping_due(pre.composer.last_typing_ping, now) {
            &&& post == (App {
                composer: Composer {
                    typing_active: true,
                    last_typing_ping: Some(now.tick_ms),
                    ..typed.composer
                },
                ..pre
            })
            &&& fx == seq![EffectView::TypingPing { conversation_id: c@, typing: true }]
        } else {
            post == typed && fx.len() == 0
        },
    }
}

impl App {
    fn input_changed(&mut self, value: String, now: Now) -> (fx: Vec<Effect>)
        ensures
            input_step(*old(self), value, now, *final(self), views(fx@)),
    {
        let now_empty = trim(&value).as_str().is_empty();
        self.composer.input = value;
        self.composer.suggestions = self.compute_mention_suggestions();
        assert(self.mention_names() == old(self).mention_names());
        let conversation = copy_opt(&self.place.conversation);
        match conversation {
            None => nothing(),
            Some(c) => {
                if now_empty {
                    return self.stop_typing_task();
                }
                let due = match self.composer.last_typing_ping {
                    Some(t) => now.tick_ms >= t && now.tick_ms - t >= TYPING_PING_MS,
                    None => true,
                };
                if due {
                    self.composer.typing_active = true;
                    self.composer.last_typing_ping = Some(now.tick_ms);
                    one(Effect::TypingPing { conversation_id: c, typing: true })
                } else {
                    nothing()
                }
            },
        }
    }
}

// ---------- Sending ----------

/// The arguments of a message.
pub open spec fn message_args(
    conversation: Seq<char>,
    body: Seq<char>,
    encrypted: bool,
    reply_to: Option<Seq<char>>,
) -> Seq<(Seq<char>, ArgView)> {
    seq![("conversationId"@, ArgView::Str(conversation)), ("body"@, ArgView::Str(body))] + (
    if encrypted {
        seq![("encrypted"@, ArgView::Bool(true))]
    } else {
        Seq::empty()
    }) + (match reply_to {
        Some(id) => seq![("replyToMessageId"@, ArgView::Str(id))],
        None => Seq::empty(),
    })
}

/// The call that stores a message on the backend.
pub open spec fn send_call(
    token: Seq<char>,
    conversation: Seq<char>,
    body: Seq<char>,
    encrypted: bool,
    reply_to: Option<Seq<char>>,
) -> CallView {
    session_call(
        token,
        CallKind::Mutation,
        "messages:send"@,
        message_args(conversation, body, encrypted, reply_to),
        Reply::MessageSentFinished,
    )
}

/// What stores a message on the backend; its attachment, if it has one, is
/// uploaded first.
pub open spec fn store_message(
    token: Seq<char>,
    send: CallView,
    attachment: Option<(Seq<u8>, Seq<char>)>,
) -> Seq<EffectView> {
    match attachment {
        Some((bytes, content_type)) => seq![
            EffectView::Upload {
                ask: session_call(
                    token,
                    CallKind::Mutation,
                    "messages:generateAttachmentUploadUrl"@,
                    seq![],
                    Reply::MessageSentFinished,
                ),
                bytes,
                content_type,
                send,
                storage_arg: "attachmentStorageId"@,
                strict: true,
            },
        ],
        None => seq![EffectView::Call(send)],
    }
}

fn store(
    token: String,
    conversation: String,
    body: String,
    encrypted: bool,
    reply_to: Option<String>,
    attachment: Option<(Vec<u8>, String)>,
) -> (fx: Vec<Effect>)
    ensures
        views(fx@) == store_message(
            token@,
            send_call(
                token@,
                conversation@,
                body@,
                encrypted,
                opt_text(reply_to),
            ),
            match attachment {
                Some((b, c)) => Some((b@, c@)),
                None => None,
            },
        ),
{
    let ghost want = message_args(
        conversation@,
        body@,
        encrypted,
        opt_text(reply_to),
    );
    let mut extra: Vec<(&'static str, Arg)> = Vec::new();
    extra.push(("conversationId", Arg::Str(conversation)));
    extra.push(("body", Arg::Str(body)));
    if encrypted {
        extra.push(("encrypted", Arg::Bool(true)));
    }
    match reply_to {
        Some(id) => {
            extra.push(("replyToMessageId", Arg::Str(id)));
        },
        None => {},
    }
    assert(args_view(extra@) =~= want);
    let send = make_call(
        token.clone(),
        CallKind::Mutation,
        "messages:send",
        extra,
        Reply::MessageSentFinished,
    );
    match attachment {
        Some((bytes, content_type)) => {
            let none: Vec<(&'static str, Arg)> = Vec::new();
            assert(args_view(none@) =~= seq![]);
            one(
                Effect::Upload(
                    Upload {
                        ask: make_call(
                            token,
                            CallKind::Mutation,
                            "messages:generateAttachmentUploadUrl",
                            none,
                            Reply::MessageSentFinished,
                        ),
                        bytes,
                        content_type,
                        send,
                        storage_arg: "attachmentStorageId",
                        strict: true,
                    },
                ),
            )
        },
        None => one(Effect::Call(send)),
    }
}

/// An attachment by what it holds.
pub open spec fn attachment_view(a: Option<PendingAttachment>) -> Option<(Seq<u8>, Seq<char>)> {
    match a {
        Some(a) => Some((a.bytes@, a.content_type@)),
        None => None,
    }
}

// ---------- Sending in a DM ----------

/// Why nothing can be sent over the live channel of the open DM, if so.
pub open spec fn dm_problem(app: App) -> Option<Seq<char>> {
    match app.place.peer_id {
        None => Some("Secure channel is not running"@),
        Some(p) => if !is_connected(app, p@) {
            Some(
                if app.peers.status@.contains_key(p@) {
                    app.peers.status@[p@]@
                } else {
                    "Secure channel not connected yet"@
                },
            )
        } else if !app.peers.channels@.contains_key(p@) {
            Some("Secure channel is not running"@)
        } else {
            None
        },
    }
}

/// Messages of this DM are also stored on the backend.
pub open spec fn stores_dm(app: App, session: Session) -> bool {
    session.store_chat_history && app.chat.store_enabled
}

/// What went over the live channel.
pub open spec fn live_cmd(body: Seq<char>, attachment: Option<PendingAttachment>) -> PeerCmdView {
    match attachment {
        Some(a) => PeerCmdView::SendPhoto { bytes: a.bytes@, content_type: a.content_type@ },
        None => PeerCmdView::SendText(body),
    }
}

/// A message went over the live channel of a DM: it stands among the live
/// messages, and a copy is stored on the backend where both switches allow it.
pub open spec fn dm_sent(
    pre: App,
    session: Session,
    peer_id: Seq<char>,
    conversation: Seq<char>,
    body: Seq<char>,
    now: Now,
    post: App,
    fx: Seq<EffectView>,
) -> bool {
    let attachment = pre.composer.attachment;
    &&& post == (App {
        composer: Composer {
            input: post.composer.input,
            suggestions: post.composer.suggestions,
            attachment: None,
            reply: None,
            send_busy: stores_dm(pre, session),
            ..pre.composer
        },
        chat: Chat { error: None, ..pre.chat },
        peers: post.peers,
        images: post.images,
        ..pre
    })
    &&& post.composer.input@.len() == 0
    &&& post.composer.suggestions@.len() == 0
    &&& sent_live(
        App { peers: pre.peers, images: pre.images, ..post },
        session,
        peer_id,
        if attachment is Some {
            Seq::empty()
        } else {
            body
        },
        match attachment {
            Some(a) => Some(a.bytes@),
            None => None,
        },
        now,
        post,
    )
    &&& fx == seq![
        EffectView::SendPeerCmd { peer_id, cmd: live_cmd(body, attachment) },
        EffectView::ScrollToBottom,
    ] + (if stores_dm(pre, session) {
        store_message(
            session.token@,
            send_call(session.token@, conversation, body, false, None),
            attachment_view(attachment),
        )
    } else {
        Seq::empty()
    })
}

/// What sending does in a DM: nothing is edited there, and nothing is sent
/// while the live channel is down.
pub open spec fn dm_step(
    pre: App,
    session: Session,
    body: Seq<char>,
    now: Now,
    post: App,
    fx: Seq<EffectView>,
) -> bool {
    if pre.composer.editing_id is Some {
        &&& says(
            App { composer: Composer { editing_id: None, ..pre.composer }, ..pre },
            "Edits aren't supported on the live secure channel yet"@,
            post,
        )
        &&& fx.len() == 0
    } else {
        match dm_problem(pre) {
            Some(text) => says(pre, text, post) && fx.len() == 0,
            None => match pre.place.conversation {
                Some(c) => if body.len() == 0 && pre.composer.attachment is None {
                    post == pre && fx.len() == 0
                } else {
                    dm_sent(pre, session, pre.place.peer_id->0@, c@, body, now, post, fx)
                },
                None => post == pre && fx.len() == 0,
            },
        }
    }
}

impl App {
    fn problem_of_dm(&self) -> (r: Option<String>)
        ensures
            opt_text(r) == dm_problem(*self),
    {
        match &self.place.peer_id {
            None => Some(owned("Secure channel is not running")),
            Some(p) => {
                if !self.peer_is_connected(p) {
                    match self.peers.status.get(p) {
                        Some(s) => Some(s.clone()),
                        None => Some(owned("Secure channel not connected yet")),
                    }
                } else if !self.peers.channels.contains(p) {
                    Some(owned("Secure channel is not running"))
                } else {
                    None
                }
            },
        }
    }

    fn send_in_dm(&mut self, session: Session, body: String, now: Now) -> (fx: Vec<Effect>)
        requires
            !old(self).composer.send_busy,
        ensures
            dm_step(*old(self), session, body@, now, *final(self), views(fx@)),
    {
        if self.composer.editing_id.is_some() {
            self.composer.editing_id = None;
            return self.say("Edits aren't supported on the live secure channel yet");
        }
        match self.problem_of_dm() {
            Some(text) => {
                return self.say(&text);
            },
            None => {},
        }
        let peer = copy_opt(&self.place.peer_id);
        let conversation = copy_opt(&self.place.conversation);
        match (peer, conversation) {
            (Some(peer_id), Some(c)) => {
                if body.as_str().is_empty() && self.composer.attachment.is_none() {
                    return nothing();
                }
                self.send_live(session, peer_id, c, body, now)
            },
            _ => nothing(),
        }
    }

    fn send_live(
        &mut self,
        session: Session,
        peer_id: String,
        conversation: String,
        body: String,
        now: Now,
    ) -> (fx: Vec<Effect>)
        requires
            !old(self).composer.send_busy,
        ensures
            dm_sent(
                *old(self),
                session,
                peer_id@,
                conversation@,
                body@,
                now,
                *final(self),
                views(fx@),
            ),
    {
        let stores = session.store_chat_history && self.chat.store_enabled;
        let attachment = self.composer.attachment.take();
        self.clear_input();
        self.composer.reply = None;
        self.composer.send_busy = stores;
        self.chat.error = None;
        let token = session.token.clone();
        match attachment {
            Some(a) => {
                let PendingAttachment { bytes, content_type } = a;
                let live = two(
                    Effect::SendPeerCmd {
                        peer_id: peer_id.clone(),
                        cmd: PeerCmd::SendPhoto {
                            bytes: bytes.clone(),
                            content_type: content_type.clone(),
                        },
                    },
                    Effect::ScrollToBottom,
                );
                self.push_local_peer_message(
                    &session,
                    &peer_id,
                    String::new(),
                    Some(bytes.clone()),
                    now,
                );
                if !stores {
                    assert(views(live@) =~= views(live@) + Seq::<EffectView>::empty());
                    return live;
                }
                both(
                    live,
                    store(token, conversation, body, false, None, Some((bytes, content_type))),
                )
            },
            None => {
                let live = two(
                    Effect::SendPeerCmd {
                        peer_id: peer_id.clone(),
                        cmd: PeerCmd::SendText(body.clone()),
                    },
                    Effect::ScrollToBottom,
                );
                self.push_local_peer_message(&session, &peer_id, body.clone(), None, now);
                if !stores {
                    assert(views(live@) =~= views(live@) + Seq::<EffectView>::empty());
                    return live;
                }
                both(live, store(token, conversation, body, false, None, None))
            },
        }
    }
}

// ---------- Sealing ----------

/// The id of the open chat; empty where none is open.
pub open spec fn open_chat(app: App) -> Seq<char> {
    match app.place.conversation {
        Some(c) => c@,
        None => Seq::empty(),
    }
}

/// The draft left the composer and is being sealed; an edit leaves the pending
/// attachment and reply where they are.
pub open spec fn draft_taken(pre: App, d: Draft, post: App) -> bool {
    &&& post == (App {
        composer: Composer {
            input: post.composer.input,
            suggestions: post.composer.suggestions,
            attachment: if d.message_id is None {
                None
            } else {
                pre.composer.attachment
            },
            reply: if d.message_id is None {
                None
            } else {
                pre.composer.reply
            },
            send_busy: true,
            sealing: Some(d),
            ..pre.composer
        },
        ..pre
    })
    &&& post.composer.input@.len() == 0
    &&& post.composer.suggestions@.len() == 0
    &&& d.conversation_id@ == open_chat(pre)
    &&& d.input == pre.composer.input
    &&& d.suggestions == pre.composer.suggestions
    &&& d.message_id is None ==> d.attachment == pre.composer.attachment && d.reply
        == pre.composer.reply
}

/// The chat of the draft is still open, and nothing was entered there since.
pub open spec fn room_for(app: App, d: Draft) -> bool {
    &&& open_chat(app) == d.conversation_id@
    &&& app.composer.input@.len() == 0
    &&& d.message_id is None ==> app.composer.attachment is None && app.composer.reply is None
}

/// Nothing is being sealed any more; the draft is back in the composer, where
/// there is room for it.
pub open spec fn put_back(pre: App, d: Draft) -> App {
    let idle = Composer { send_busy: false, sealing: None, ..pre.composer };
    App {
        composer: if !room_for(pre, d) {
            idle
        } else if d.message_id is None {
            Composer {
                input: d.input,
                suggestions: d.suggestions,
                attachment: d.attachment,
                reply: d.reply,
                ..idle
            }
        } else {
            Composer { input: d.input, suggestions: d.suggestions, ..idle }
        },
        ..pre
    }
}

impl App {
    fn open_chat_id(&self) -> (r: String)
        ensures
            r@ == open_chat(*self),
    {
        match &self.place.conversation {
            Some(c) => c.clone(),
            None => {
                let r = String::new();
                assert(r@ =~= open_chat(*self));
                r
            },
        }
    }

    fn take_draft(&mut self, message_id: Option<String>)
        ensures
            final(self).composer.sealing is Some,
            final(self).composer.sealing->0.message_id == message_id,
            draft_taken(*old(self), final(self).composer.sealing->0, *final(self)),
    {
        let conversation_id = self.open_chat_id();
        let mut input = String::new();
        let mut suggestions: Vec<String> = Vec::new();
        std::mem::swap(&mut input, &mut self.composer.input);
        std::mem::swap(&mut suggestions, &mut self.composer.suggestions);
        let (attachment, reply) = if message_id.is_none() {
            (self.composer.attachment.take(), self.composer.reply.take())
        } else {
            (None, None)
        };
        self.composer.send_busy = true;
        self.composer.sealing = Some(
            Draft { conversation_id, message_id, input, suggestions, attachment, reply },
        );
    }

    fn put_draft_back(&mut self, d: Draft)
        ensures
            *final(self) == put_back(*old(self), d),
    {
        let fresh = d.message_id.is_none();
        let room = same(&self.open_chat_id(), &d.conversation_id)
            && self.composer.input.as_str().is_empty() && (!fresh || (
        self.composer.attachment.is_none() && self.composer.reply.is_none()));
        self.composer.send_busy = false;
        self.composer.sealing = None;
        if room {
            let Draft { input, suggestions, attachment, reply, .. } = d;
            self.composer.input = input;
            self.composer.suggestions = suggestions;
            if fresh {
                self.composer.attachment = attachment;
                self.composer.reply = reply;
            }
        }
    }
}

// ---------- Sending an edit ----------

/// The call that replaces the body of a message.
pub open spec fn edit_call(app: App, message_id: Seq<char>, body: Seq<char>) -> Seq<EffectView> {
    mutation(
        app,
        "messages:edit"@,
        seq![("messageId"@, ArgView::Str(message_id)), ("body"@, ArgView::Str(body))],
        Reply::EditFinished,
    )
}

/// The new body of a message is on its way.
pub open spec fn edit_sent(
    pre: App,
    message_id: Seq<char>,
    body: Seq<char>,
    post: App,
    fx: Seq<EffectView>,
) -> bool {
    &&& post == (App {
        composer: Composer {
            input: post.composer.input,
            suggestions: post.composer.suggestions,
            send_busy: true,
            ..pre.composer
        },
        ..pre
    })
    &&& post.composer.input@.len() == 0
    &&& post.composer.suggestions@.len() == 0
    &&& fx == edit_call(pre, message_id, body)
}

/// What sending does while a message is edited: the edit mode ends, and a
/// body that was encrypted is sealed again before it is sent.
pub open spec fn edit_step(
    pre: App,
    message_id: Seq<char>,
    body: Seq<char>,
    post: App,
    fx: Seq<EffectView>,
) -> bool {
    let mid = App { composer: Composer { editing_id: None, ..pre.composer }, ..pre };
    let conversation = open_chat(pre);
    if body.len() == 0 {
        post == mid && fx.len() == 0
    } else if pre.composer.editing_encrypted && shared_key_kind(pre.place.kind) {
        match pre.key_of(conversation) {
            Some(key) => {
                &&& post.composer.sealing is Some
                &&& text_is(post.composer.sealing->0.message_id, message_id)
                &&& draft_taken(mid, post.composer.sealing->0, post)
                &&& fx == seq![
                    EffectView::SealEdit { conversation_id: conversation, key, body, message_id },
                ]
            },
            None => {
                &&& says(mid, "Group key not ready — wait a moment and try again"@, post)
                &&& fx.len() == 0
            },
        }
    } else {
        edit_sent(mid, message_id, body, post, fx)
    }
}

impl App {
    fn send_edit(&mut self, message_id: String, body: String) -> (fx: Vec<Effect>)
        ensures
            edit_sent(*old(self), message_id@, body@, *final(self), views(fx@)),
    {
        let fx = self.ask_edit(message_id, body);
        self.clear_input();
        self.composer.send_busy = true;
        fx
    }

    fn ask_edit(&self, message_id: String, body: String) -> (fx: Vec<Effect>)
        ensures
            views(fx@) == edit_call(*self, message_id@, body@),
    {
        self.ask2(
            CallKind::Mutation,
            "messages:edit",
            "messageId",
            Arg::Str(message_id),
            "body",
            Arg::Str(body),
            Reply::EditFinished,
        )
    }

    fn submit_edit(&mut self, message_id: String, body: String) -> (fx: Vec<Effect>)
        ensures
            edit_step(*old(self), message_id@, body@, *final(self), views(fx@)),
    {
        self.composer.editing_id = None;
        if body.as_str().is_empty() {
            return nothing();
        }
        if self.composer.editing_encrypted && is_shared_key_kind(&self.place.kind) {
            let conversation_id = self.open_chat_id();
            match self.group_key(&conversation_id) {
                Some(key) => {
                    self.take_draft(Some(message_id.clone()));
                    one(Effect::SealEdit { conversation_id, key, body, message_id })
                },
                None => self.say("Group key not ready — wait a moment and try again"),
            }
        } else {
            self.send_edit(message_id, body)
        }
    }

    fn edit_sealed(&mut self, message_id: String, sealed: Option<String>) -> (fx: Vec<Effect>)
        ensures
            edit_sealed_step(*old(self), message_id@, opt_text(sealed), *final(self), views(fx@)),
    {
        let d = match self.composer.sealing.take() {
            Some(d) => d,
            None => {
                return nothing();
            },
        };
        if !is_text(&d.message_id, &message_id) {
            self.composer.sealing = Some(d);
            return nothing();
        }
        match (self.online_token(), sealed) {
            (Some(_), Some(body)) => {
                self.composer.send_busy = true;
                self.ask_edit(message_id, body)
            },
            (Some(_), None) => {
                self.put_draft_back(d);
                self.say("Could not re-encrypt edited message")
            },
            (None, _) => {
                self.put_draft_back(d);
                nothing()
            },
        }
    }
}

/// What follows once an edited body was sealed: it goes to its message.
pub open spec fn edit_sealed_step(
    pre: App,
    message_id: Seq<char>,
    sealed: Option<Seq<char>>,
    post: App,
    fx: Seq<EffectView>,
) -> bool {
    match pre.composer.sealing {
        Some(d) => if !text_is(d.message_id, message_id) {
            post == pre && fx.len() == 0
        } else {
            match (pre.token(), sealed) {
                (Some(_), Some(body)) => {
                    &&& post == (App {
                        composer: Composer { send_busy: true, sealing: None, ..pre.composer },
                        ..pre
                    })
                    &&& fx == edit_call(pre, message_id, body)
                },
                (Some(_), None) => says(
                    put_back(pre, d),
                    "Could not re-encrypt edited message"@,
                    post,
                ) && fx.len() == 0,
                (None, _) => post == put_back(pre, d) && fx.len() == 0,
            }
        },
        None => post == pre && fx.len() == 0,
    }
}

// ---------- Sending in a group or channel ----------

/// A message is on its way to the backend.
pub open spec fn message_sent(
    pre: App,
    token: Seq<char>,
    conversation: Seq<char>,
    body: Seq<char>,
    encrypted: bool,
    attachment: Option<(Seq<u8>, Seq<char>)>,
    post: App,
    fx: Seq<EffectView>,
) -> bool {
    &&& post == (App {
        composer: Composer {
            input: post.composer.input,
            suggestions: post.composer.suggestions,
            attachment: None,
            reply: None,
            send_busy: true,
            ..typing_stopped(pre).composer
        },
        chat: Chat { error: None, ..pre.chat },
        ..pre
    })
    &&& post.composer.input@.len() == 0
    &&& post.composer.suggestions@.len() == 0
    &&& fx == stop_typing(pre) + store_message(
        token,
        send_call(
            token,
            conversation,
            body,
            encrypted,
            match pre.composer.reply {
                Some(r) => Some(r.0@),
                None => None,
            },
        ),
        attachment,
    )
}

/// What sending does in a chat of the backend: nothing goes out in the clear
/// where the chat has a shared key.
pub open spec fn post_step(
    pre: App,
    token: Seq<char>,
    body: Seq<char>,
    post: App,
    fx: Seq<EffectView>,
) -> bool {
    match pre.place.conversation {
        None => post == pre && fx.len() == 0,
        Some(c) => if body.len() == 0 && pre.composer.attachment is None {
            post == pre && fx.len() == 0
        } else if shared_key_kind(pre.place.kind) {
            match pre.key_of(c@) {
                None => {
                    &&& says(
                        pre,
                        "Encrypting… group key not ready yet. Wait a second or reopen the chat."@,
                        post,
                    )
                    &&& fx == key_wanted(post)
                },
                Some(key) => {
                    &&& post.composer.sealing is Some
                    &&& post.composer.sealing->0.message_id is None
                    &&& draft_taken(pre, post.composer.sealing->0, post)
                    &&& fx == seq![
                        EffectView::SealMessage {
                            conversation_id: c@,
                            key,
                            body,
                            attachment: match pre.composer.attachment {
                                Some(a) => Some(a.bytes@),
                                None => None,
                            },
                        },
                    ]
                },
            }
        } else {
            message_sent(
                pre,
                token,
                c@,
                body,
                false,
                attachment_view(pre.composer.attachment),
                post,
                fx,
            )
        },
    }
}

/// The sealed message goes to the chat that it was sealed for. Where that is
/// still open, its error is gone and the others see us stop typing.
pub open spec fn seal_sent(
    pre: App,
    token: Seq<char>,
    d: Draft,
    s: SealedMessage,
    post: App,
    fx: Seq<EffectView>,
) -> bool {
    let here = text_is(pre.place.conversation, d.conversation_id@);
    &&& post == (App {
        composer: Composer {
            send_busy: true,
            sealing: None,
            ..if here {
                typing_stopped(pre).composer
            } else {
                pre.composer
            }
        },
        chat: Chat {
            error: if here {
                None
            } else {
                pre.chat.error
            },
            ..pre.chat
        },
        ..pre
    })
    &&& fx == (if here {
        stop_typing(pre)
    } else {
        Seq::empty()
    }) + store_message(
        token,
        send_call(
            token,
            d.conversation_id@,
            s.body@,
            true,
            match d.reply {
                Some(r) => Some(r.0@),
                None => None,
            },
        ),
        sealed_attachment(s),
    )
}

/// A sealed attachment, as it is uploaded.
pub open spec fn sealed_attachment(s: SealedMessage) -> Option<(Seq<u8>, Seq<char>)> {
    match s.attachment {
        Some(b) => Some((b@, "application/octet-stream"@)),
        None => None,
    }
}

/// What follows once a message was sealed for a chat.
pub open spec fn sealed_step(
    pre: App,
    conversation: Seq<char>,
    sealed: Option<SealedMessage>,
    post: App,
    fx: Seq<EffectView>,
) -> bool {
    match pre.composer.sealing {
        Some(d) => if d.message_id is Some || d.conversation_id@ != conversation {
            post == pre && fx.len() == 0
        } else {
            match (pre.token(), sealed) {
                (Some(t), Some(s)) => seal_sent(pre, t, d, s, post, fx),
                (Some(_), None) => says(put_back(pre, d), "Could not encrypt message"@, post)
                    && fx.len() == 0,
                (None, _) => post == put_back(pre, d) && fx.len() == 0,
            }
        },
        None => post == pre && fx.len() == 0,
    }
}

impl App {
    fn send_stored(
        &mut self,
        token: String,
        conversation: String,
        body: String,
        attachment: Option<(Vec<u8>, String)>,
    ) -> (fx: Vec<Effect>)
        ensures
            message_sent(
                *old(self),
                token@,
                conversation@,
                body@,
                false,
                match attachment {
                    Some((b, c)) => Some((b@, c@)),
                    None => None,
                },
                *final(self),
                views(fx@),
            ),
    {
        let stop = self.stop_typing_task();
        let reply_to = match self.composer.reply.take() {
            Some(r) => Some(r.0),
            None => None,
        };
        self.clear_input();
        self.composer.attachment = None;
        self.composer.send_busy = true;
        self.chat.error = None;
        both(stop, store(token, conversation, body, false, reply_to, attachment))
    }

    fn submit_post(&mut self, token: String, body: String) -> (fx: Vec<Effect>)
        ensures
            post_step(*old(self), token@, body@, *final(self), views(fx@)),
    {
        let conversation = copy_opt(&self.place.conversation);
        match conversation {
            None => nothing(),
            Some(c) => {
                if body.as_str().is_empty() && self.composer.attachment.is_none() {
                    return nothing();
                }
                if is_shared_key_kind(&self.place.kind) {
                    return match self.group_key(&c) {
                        None => {
                            self.chat.error = Some(
                                owned(
                                    "Encrypting… group key not ready yet. Wait a second or reopen the chat.",
                                ),
                            );
                            self.ensure_group_key()
                        },
                        Some(key) => {
                            let attachment = match &self.composer.attachment {
                                Some(a) => Some(a.bytes.clone()),
                                None => None,
                            };
                            self.take_draft(None);
                            one(Effect::SealMessage { conversation_id: c, key, body, attachment })
                        },
                    };
                }
                let attachment = match self.composer.attachment.take() {
                    Some(a) => {
                        let PendingAttachment { bytes, content_type } = a;
                        Some((bytes, content_type))
                    },
                    None => None,
                };
                self.send_stored(token, c, body, attachment)
            },
        }
    }

    fn message_sealed(&mut self, conversation: String, sealed: Option<SealedMessage>) -> (fx: Vec<
        Effect,
    >)
        ensures
            sealed_step(*old(self), conversation@, sealed, *final(self), views(fx@)),
    {
        let d = match self.composer.sealing.take() {
            Some(d) => d,
            None => {
                return nothing();
            },
        };
        if d.message_id.is_some() || !same(&d.conversation_id, &conversation) {
            self.composer.sealing = Some(d);
            return nothing();
        }
        match (self.online_token(), sealed) {
            (Some(token), Some(s)) => self.send_sealed(token, d, s),
            (Some(_), None) => {
                self.put_draft_back(d);
                self.say("Could not encrypt message")
            },
            (None, _) => {
                self.put_draft_back(d);
                nothing()
            },
        }
    }

    fn send_sealed(&mut self, token: String, d: Draft, s: SealedMessage) -> (fx: Vec<Effect>)
        requires
            old(self).composer.sealing is None,
        ensures
            seal_sent(*old(self), token@, d, s, *final(self), views(fx@)),
    {
        let stop = if is_text(&self.place.conversation, &d.conversation_id) {
            self.chat.error = None;
            self.stop_typing_task()
        } else {
            nothing()
        };
        self.composer.send_busy = true;
        let Draft { conversation_id, reply, .. } = d;
        let reply_to = match reply {
            Some(r) => Some(r.0),
            None => None,
        };
        let SealedMessage { body, attachment } = s;
        let attachment = match attachment {
            Some(b) => Some((b, owned("application/octet-stream"))),
            None => None,
        };
        both(stop, store(token, conversation_id, body, true, reply_to, attachment))
    }
}

/// What the "send" button does.
pub open spec fn send_step(pre: App, now: Now, post: App, fx: Seq<EffectView>) -> bool {
    let body = trimmed(pre.composer.input@);
    match pre.session {
        Some(session) => if !pre.link.connected || pre.composer.send_busy {
            post == pre && fx.len() == 0
        } else if body.len() > MAX_MESSAGE_CHARS {
            says(pre, "Message is too long (max 4000 characters)"@, post) && fx.len() == 0
        } else if text_is(pre.place.kind, "direct"@) {
            dm_step(pre, session, body, now, post, fx)
        } else {
            match pre.composer.editing_id {
                Some(id) => edit_step(pre, id@, body, post, fx),
                None => post_step(pre, session.token@, body, post, fx),
            }
        },
        None => post == pre && fx.len() == 0,
    }
}

impl App {
    fn send_message(&mut self, now: Now) -> (fx: Vec<Effect>)
        ensures
            send_step(*old(self), now, *final(self), views(fx@)),
    {
        let session = match &self.session {
            Some(s) => s.copy(),
            None => {
                return nothing();
            },
        };
        if !self.link.connected || self.composer.send_busy {
            return nothing();
        }
        let body = trim(&self.composer.input);
        if char_count(&body) > MAX_MESSAGE_CHARS {
            return self.say("Message is too long (max 4000 characters)");
        }
        if is_text(&self.place.kind, "direct") {
            return self.send_in_dm(session, body, now);
        }
        match copy_opt(&self.composer.editing_id) {
            Some(id) => self.submit_edit(id, body),
            None => self.submit_post(session.token, body),
        }
    }
}

// ---------- Clearing a chat ----------

/// The peer of an open DM is asked to wipe too, where the channel is up.
pub open spec fn ask_to_wipe(app: App) -> Seq<EffectView> {
    match app.place.peer_id {
        Some(p) => if text_is(app.place.kind, "direct"@) && is_connected(app, p@)
            && app.peers.channels@.contains_key(p@) {
            seq![
                EffectView::SendPeerCmd {
                    peer_id: p@,
                    cmd: PeerCmdView::SendText(app.config.clear_history_ctrl@),
                },
            ]
        } else {
            Seq::empty()
        },
        None => Seq::empty(),
    }
}

/// What the second click on "Clear chat" does.
pub open spec fn clear_step(pre: App, now: Now, post: App, fx: Seq<EffectView>) -> bool {
    if text_is(pre.place.kind, "channel"@) || text_is(pre.place.kind, "voice"@) {
        &&& post == (App {
            chat: Chat { clear_confirm: false, ..pre.chat },
            toast: post.toast,
            ..pre
        })
        &&& toasts(post.toast, "Server channels can't be wiped this way"@, now)
        &&& fx.len() == 0
    } else {
        match (pre.token(), pre.place.conversation) {
            (Some(t), Some(c)) => if pre.chat.clear_busy {
                post == pre && fx.len() == 0
            } else {
                &&& wiped(
                    App {
                        chat: Chat {
                            clear_busy: true,
                            clear_confirm: false,
                            error: None,
                            ..pre.chat
                        },
                        ..pre
                    },
                    post,
                )
                &&& fx == ask_to_wipe(pre) + wipe_files(pre) + seq![
                    EffectView::ClearConversation { token: t, conversation_id: c@ },
                ]
            },
            _ => post == pre && fx.len() == 0,
        }
    }
}

impl App {
    fn wipe_request(&self) -> (fx: Vec<Effect>)
        ensures
            views(fx@) == ask_to_wipe(*self),
    {
        match &self.place.peer_id {
            Some(p) => {
                if is_text(&self.place.kind, "direct") && self.peer_is_connected(p)
                    && self.peers.channels.contains(p) {
                    one(
                        Effect::SendPeerCmd {
                            peer_id: p.clone(),
                            cmd: PeerCmd::SendText(self.config.clear_history_ctrl.clone()),
                        },
                    )
                } else {
                    nothing()
                }
            },
            None => nothing(),
        }
    }

    fn confirm_clear_chat(&mut self, now: Now) -> (fx: Vec<Effect>)
        ensures
            clear_step(*old(self), now, *final(self), views(fx@)),
    {
        if is_text(&self.place.kind, "channel") || is_text(&self.place.kind, "voice") {
            self.chat.clear_confirm = false;
            self.show_toast("Server channels can't be wiped this way", now);
            return nothing();
        }
        let conversation = copy_opt(&self.place.conversation);
        match (self.online_token(), conversation) {
            (Some(token), Some(c)) => {
                if self.chat.clear_busy {
                    return nothing();
                }
                let request = self.wipe_request();
                self.chat.clear_busy = true;
                self.chat.clear_confirm = false;
                self.chat.error = None;
                let files = self.wipe_local_chat_history();
                both(
                    both(request, files),
                    one(Effect::ClearConversation { token, conversation_id: c }),
                )
            },
            _ => nothing(),
        }
    }
}

/// How far the removal of a chat from the backend got.
pub enum ClearProgress {
    /// Ask for the next batch; so many messages are gone.
    Again(u64),
    /// Done, with what to tell the user.
    Finished(String),
}

/// What a batch of the removal leads to.
pub fn clear_progress(total: u64, purged: u64, done: bool) -> (r: ClearProgress)
    requires
        total + purged <= u64::MAX,
    ensures
        match r {
            ClearProgress::Again(n) => !done && n == total + purged,
            ClearProgress::Finished(text) => done && text@ == if total + purged == 0 {
                "Chat cleared (Convex + local caches)"@
            } else {
                "Chat cleared · "@ + digits((total + purged) as nat)
                    + " messages removed from Convex"@
            },
        },
{
    let total: u64 = total + purged;
    if !done {
        ClearProgress::Again(total)
    } else if total == 0 {
        ClearProgress::Finished(owned("Chat cleared (Convex + local caches)"))
    } else {
        ClearProgress::Finished(
            cat3(
                "Chat cleared · ",
                &decimal(total),
                " messages removed from Convex",
            ),
        )
    }
}

// ---------- The messages ----------

/// Only the chat pane changed, to `chat`.
pub open spec fn chat_is(pre: App, chat: Chat, post: App, fx: Seq<EffectView>) -> bool {
    post == (App { chat, ..pre }) && fx.len() == 0
}

/// A call about one message.
pub open spec fn about_message(app: App, function: Seq<char>, message_id: Seq<char>, reply: Reply) -> Seq<
    EffectView,
> {
    mutation(app, function, seq![("messageId"@, ArgView::Str(message_id))], reply)
}

/// What a message about the composer does.
pub open spec fn compose_step(pre: App, m: ComposeMessage, now: Now, post: App, fx: Seq<EffectView>) -> bool {
    match m {
        ComposeMessage::MessageInputChanged(value) => input_step(pre, value, now, post, fx),
        ComposeMessage::MentionSuggestionPicked(name) => {
            &&& post == (App {
                composer: Composer {
                    input: post.composer.input,
                    suggestions: post.composer.suggestions,
                    ..pre.composer
                },
                ..pre
            })
            &&& post.composer.input@ == completed(pre.composer.input@, name@)
            &&& post.composer.suggestions@.len() == 0
            &&& fx.len() == 0
        },
        ComposeMessage::PickAttachmentImage => {
            &&& post == pre
            &&& fx == seq![EffectView::PickImage(PickPurpose::Attachment)]
        },
        ComposeMessage::AttachmentFilePicked(ImagePick::Cancelled) => post == pre && fx.len() == 0,
        ComposeMessage::AttachmentFilePicked(ImagePick::TooLarge) => {
            says(pre, "Attachment must be smaller than 5MB"@, post) && fx.len() == 0
        },
        ComposeMessage::AttachmentFilePicked(ImagePick::Ready(bytes, content_type)) => {
            &&& post == (App {
                composer: Composer {
                    attachment: Some(PendingAttachment { bytes, content_type }),
                    ..pre.composer
                },
                chat: Chat { error: None, ..pre.chat },
                ..pre
            })
            &&& fx.len() == 0
        },
        ComposeMessage::RemovePendingAttachment => {
            &&& post == (App { composer: Composer { attachment: None, ..pre.composer }, ..pre })
            &&& fx.len() == 0
        },
        ComposeMessage::OpenAttachmentPreview(url) => chat_is(
            pre,
            Chat { preview_url: Some(url), ..pre.chat },
            post,
            fx,
        ),
        ComposeMessage::CloseAttachmentPreview => chat_is(
            pre,
            Chat { preview_url: None, ..pre.chat },
            post,
            fx,
        ),
        ComposeMessage::SendMessage => send_step(pre, now, post, fx),
        ComposeMessage::MessageSealed(c, sealed) => sealed_step(pre, c@, sealed, post, fx),
        ComposeMessage::EditSealed(id, sealed) => edit_sealed_step(
            pre,
            id@,
            opt_text(sealed),
            post,
            fx,
        ),
        ComposeMessage::MessageSentFinished(r) => {
            &&& post == (App {
                composer: Composer { send_busy: pre.composer.sealing is Some, ..pre.composer },
                chat: Chat { error: r.err(), ..pre.chat },
                ..pre
            })
            &&& fx.len() == 0
        },
        ComposeMessage::EditMessage(id, body, encrypted) => {
            &&& post == (App {
                composer: Composer {
                    editing_id: Some(id),
                    editing_encrypted: encrypted,
                    input: body,
                    ..pre.composer
                },
                ..pre
            })
            &&& fx.len() == 0
        },
        ComposeMessage::CancelEdit => {
            &&& post == (App { composer: post.composer, ..pre })
            &&& input_cleared(Composer { editing_id: None, ..pre.composer }, post.composer)
            &&& fx.len() == 0
        },
        ComposeMessage::EditFinished(Ok(())) => {
            &&& post == (App {
                composer: Composer { send_busy: pre.composer.sealing is Some, ..pre.composer },
                chat: Chat { error: None, ..pre.chat },
                toast: post.toast,
                ..pre
            })
            &&& toasts(post.toast, "Message updated"@, now)
            &&& fx.len() == 0
        },
        ComposeMessage::EditFinished(Err(err)) => {
            &&& post == (App {
                composer: Composer { send_busy: pre.composer.sealing is Some, ..pre.composer },
                chat: Chat { error: Some(err), ..pre.chat },
                ..pre
            })
            &&& fx.len() == 0
        },
        ComposeMessage::DeleteMessage(id) => {
            post == pre && fx == about_message(
                pre,
                "messages:remove"@,
                id@,
                Reply::DeleteFinished,
            )
        },
        ComposeMessage::DeleteFinished(r) | ComposeMessage::PurgeFinished(r)
        | ComposeMessage::ReactionToggled(r) => match r {
            Ok(()) => post == pre && fx.len() == 0,
            Err(err) => chat_is(pre, Chat { error: Some(err), ..pre.chat }, post, fx),
        },
        ComposeMessage::PurgeMessage(id) => {
            post == pre && fx == about_message(pre, "messages:purge"@, id@, Reply::PurgeFinished)
        },
        ComposeMessage::CopyMessage(text) => {
            &&& post == (App { toast: post.toast, ..pre })
            &&& toasts(post.toast, "Copied to clipboard"@, now)
            &&& fx == seq![EffectView::Clipboard(text@)]
        },
        ComposeMessage::ToggleReaction(id, emoji) => {
            &&& post == pre
            &&& fx == mutation(
                pre,
                "messages:toggleReaction"@,
                seq![("messageId"@, ArgView::Str(id@)), ("emoji"@, ArgView::Str(emoji@))],
                Reply::ReactionToggled,
            )
        },
        ComposeMessage::ReplyToMessage(id, author, snippet) => {
            &&& post == (App {
                composer: Composer { reply: Some((id, author, snippet)), ..pre.composer },
                ..pre
            })
            &&& fx.len() == 0
        },
        ComposeMessage::CancelReply => {
            &&& post == (App { composer: Composer { reply: None, ..pre.composer }, ..pre })
            &&& fx.len() == 0
        },
        ComposeMessage::MessageHovered(id) => chat_is(
            pre,
            Chat { hovered_id: id, ..pre.chat },
            post,
            fx,
        ),
        ComposeMessage::TogglePinsPanel => chat_is(
            pre,
            Chat { pins_panel_open: !pre.chat.pins_panel_open, ..pre.chat },
            post,
            fx,
        ),
        ComposeMessage::PinMessage(id) => {
            post == pre && fx == about_message(pre, "messages:pinMessage"@, id@, Reply::PinToggled)
        },
        ComposeMessage::UnpinMessage(id) => {
            post == pre && fx == about_message(
                pre,
                "messages:unpinMessage"@,
                id@,
                Reply::PinToggled,
            )
        },
        ComposeMessage::PinToggled(r) => chat_is(pre, Chat { error: r.err(), ..pre.chat }, post, fx),
        ComposeMessage::ArmReportMessage(id) => chat_is(
            pre,
            Chat { reporting_id: Some(id), ..pre.chat },
            post,
            fx,
        ),
        ComposeMessage::CancelReportMessage => chat_is(
            pre,
            Chat { reporting_id: None, ..pre.chat },
            post,
            fx,
        ),
        ComposeMessage::SubmitMessageReport(id, body, reason) => {
            &&& post == (App { chat: Chat { reporting_id: None, ..pre.chat }, ..pre })
            &&& fx == mutation(
                pre,
                "reports:reportMessage"@,
                seq![
                    ("messageId"@, ArgView::Str(id@)),
                    ("messageBody"@, ArgView::Str(body@)),
                    ("reason"@, ArgView::Str(reason@)),
                ],
                Reply::MessageReportFinished,
            )
        },
        ComposeMessage::MessageReportFinished(Ok(())) => {
            &&& post == (App { toast: post.toast, ..pre })
            &&& toasts(post.toast, "Reported to staff"@, now)
            &&& fx.len() == 0
        },
        ComposeMessage::MessageReportFinished(Err(err)) => chat_is(
            pre,
            Chat { error: Some(err), ..pre.chat },
            post,
            fx,
        ),
        ComposeMessage::ToggleClearChatConfirm => chat_is(
            pre,
            Chat {
                clear_confirm: if pre.chat.clear_busy {
                    pre.chat.clear_confirm
                } else {
                    !pre.chat.clear_confirm
                },
                ..pre.chat
            },
            post,
            fx,
        ),
        ComposeMessage::ConfirmClearChat => clear_step(pre, now, post, fx),
        ComposeMessage::ClearChatFinished(Ok(status)) => {
            &&& wiped(
                App { chat: Chat { clear_busy: false, ..pre.chat }, toast: post.toast, ..pre },
                post,
            )
            &&& toasts(post.toast, status@, now)
            &&& fx == wipe_files(pre)
        },
        ComposeMessage::ClearChatFinished(Err(err)) => {
            &&& post == (App {
                chat: Chat { clear_busy: false, error: post.chat.error, ..pre.chat },
                toast: post.toast,
                ..pre
            })
            &&& text_is(post.chat.error, "Server history: "@ + err@)
            &&& toasts(post.toast, "Local caches cleared"@, now)
            &&& fx.len() == 0
        },
    }
}

impl App {
    fn ask_about(&self, function: &'static str, message_id: &String, reply: Reply) -> (fx: Vec<Effect>)
        ensures
            views(fx@) == about_message(*self, function@, message_id@, reply),
    {
        self.ask1(CallKind::Mutation, function, "messageId", arg(message_id), reply)
    }

    /// An outcome that only matters where it is an error.
    fn chat_failed(&mut self, r: Result<(), String>) -> (fx: Vec<Effect>)
        ensures
            match r {
                Ok(()) => *final(self) == *old(self) && views(fx@).len() == 0,
                Err(err) => chat_is(
                    *old(self),
                    Chat { error: Some(err), ..old(self).chat },
                    *final(self),
                    views(fx@),
                ),
            },
    {
        match r {
            Ok(_) => {},
            Err(err) => {
                self.chat.error = Some(err);
            },
        }
        nothing()
    }

    fn clear_finished(&mut self, r: Result<String, String>, now: Now) -> (fx: Vec<Effect>)
        ensures
            compose_step(
                *old(self),
                ComposeMessage::ClearChatFinished(r),
                now,
                *final(self),
                views(fx@),
            ),
    {
        self.chat.clear_busy = false;
        match r {
            Ok(status) => {
                self.show_toast(&status, now);
                self.wipe_local_chat_history()
            },
            Err(err) => {
                self.chat.error = Some(cat2("Server history: ", &err));
                self.show_toast("Local caches cleared", now);
                nothing()
            },
        }
    }

    fn edit_finished(&mut self, r: Result<(), String>, now: Now) -> (fx: Vec<Effect>)
        ensures
            compose_step(
                *old(self),
                ComposeMessage::EditFinished(r),
                now,
                *final(self),
                views(fx@),
            ),
    {
        self.composer.send_busy = self.composer.sealing.is_some();
        match r {
            Ok(_) => {
                self.chat.error = None;
                self.show_toast("Message updated", now);
            },
            Err(err) => {
                self.chat.error = Some(err);
            },
        }
        nothing()
    }

    fn attachment_picked(&mut self, pick: ImagePick) -> (fx: Vec<Effect>)
        ensures
            compose_step(
                *old(self),
                ComposeMessage::AttachmentFilePicked(pick),
                Now { tick_ms: 0, unix_ms: 0 },
                *final(self),
                views(fx@),
            ),
    {
        match pick {
            ImagePick::Cancelled => nothing(),
            ImagePick::TooLarge => self.say("Attachment must be smaller than 5MB"),
            ImagePick::Ready(bytes, content_type) => {
                self.composer.attachment = Some(PendingAttachment { bytes, content_type });
                self.chat.error = None;
                nothing()
            },
        }
    }

    /// Handles a message about the composer.
    #[verifier::rlimit(60)]
    pub fn update_compose(&mut self, m: ComposeMessage, now: Now) -> (fx: Vec<Effect>)
        ensures
            compose_step(*old(self), m, now, *final(self), views(fx@)),
    {
        match m {
            ComposeMessage::MessageInputChanged(value) => self.input_changed(value, now),
            ComposeMessage::MentionSuggestionPicked(name) => {
                self.composer.input = complete(&self.composer.input, &name);
                self.composer.suggestions = Vec::new();
                nothing()
            },
            ComposeMessage::PickAttachmentImage => one(Effect::PickImage(PickPurpose::Attachment)),
            ComposeMessage::AttachmentFilePicked(pick) => self.attachment_picked(pick),
            ComposeMessage::RemovePendingAttachment => {
                self.composer.attachment = None;
                nothing()
            },
            ComposeMessage::OpenAttachmentPreview(url) => {
                self.chat.preview_url = Some(url);
                nothing()
            },
            ComposeMessage::CloseAttachmentPreview => {
                self.chat.preview_url = None;
                nothing()
            },
            ComposeMessage::SendMessage => self.send_message(now),
            ComposeMessage::MessageSealed(c, sealed) => self.message_sealed(c, sealed),
            ComposeMessage::EditSealed(id, sealed) => self.edit_sealed(id, sealed),
            ComposeMessage::MessageSentFinished(r) => {
                self.composer.send_busy = self.composer.sealing.is_some();
                self.chat.error = r.err();
                nothing()
            },
            ComposeMessage::EditMessage(id, body, encrypted) => {
                self.composer.editing_id = Some(id);
                self.composer.editing_encrypted = encrypted;
                self.composer.input = body;
                nothing()
            },
            ComposeMessage::CancelEdit => {
                self.composer.editing_id = None;
                self.clear_input();
                nothing()
            },
            ComposeMessage::EditFinished(r) => self.edit_finished(r, now),
            ComposeMessage::DeleteMessage(id) => self.ask_about(
                "messages:remove",
                &id,
                Reply::DeleteFinished,
            ),
            ComposeMessage::DeleteFinished(r) => self.chat_failed(r),
            ComposeMessage::PurgeMessage(id) => self.ask_about(
                "messages:purge",
                &id,
                Reply::PurgeFinished,
            ),
            ComposeMessage::PurgeFinished(r) => self.chat_failed(r),
            ComposeMessage::CopyMessage(text) => {
                self.show_toast("Copied to clipboard", now);
                one(Effect::Clipboard(text))
            },
            ComposeMessage::ToggleReaction(id, emoji) => self.ask2(
                CallKind::Mutation,
                "messages:toggleReaction",
                "messageId",
                Arg::Str(id),
                "emoji",
                Arg::Str(emoji),
                Reply::ReactionToggled,
            ),
            ComposeMessage::ReactionToggled(r) => self.chat_failed(r),
            ComposeMessage::ReplyToMessage(id, author, snippet) => {
                self.composer.reply = Some((id, author, snippet));
                nothing()
            },
            ComposeMessage::CancelReply => {
                self.composer.reply = None;
                nothing()
            },
            ComposeMessage::MessageHovered(id) => {
                self.chat.hovered_id = id;
                nothing()
            },
            ComposeMessage::TogglePinsPanel => {
                self.chat.pins_panel_open = !self.chat.pins_panel_open;
                nothing()
            },
            ComposeMessage::PinMessage(id) => self.ask_about(
                "messages:pinMessage",
                &id,
                Reply::PinToggled,
            ),
            ComposeMessage::UnpinMessage(id) => self.ask_about(
                "messages:unpinMessage",
                &id,
                Reply::PinToggled,
            ),
            ComposeMessage::PinToggled(r) => {
                self.chat.error = r.err();
                nothing()
            },
            ComposeMessage::ArmReportMessage(id) => {
                self.chat.reporting_id = Some(id);
                nothing()
            },
            ComposeMessage::CancelReportMessage => {
                self.chat.reporting_id = None;
                nothing()
            },
            ComposeMessage::SubmitMessageReport(id, body, reason) => {
                self.chat.reporting_id = None;
                self.ask3(
                    CallKind::Mutation,
                    "reports:reportMessage",
                    "messageId",
                    Arg::Str(id),
                    "messageBody",
                    Arg::Str(body),
                    "reason",
                    Arg::Str(reason),
                    Reply::MessageReportFinished,
                )
            },
            ComposeMessage::MessageReportFinished(Ok(_)) => {
                self.show_toast("Reported to staff", now);
                nothing()
            },
            ComposeMessage::MessageReportFinished(Err(err)) => {
                self.chat.error = Some(err);
                nothing()
            },
            ComposeMessage::ToggleClearChatConfirm => {
                if !self.chat.clear_busy {
                    self.chat.clear_confirm = !self.chat.clear_confirm;
                }
                nothing()
            },
            ComposeMessage::ConfirmClearChat => self.confirm_clear_chat(now),
            ComposeMessage::ClearChatFinished(r) => self.clear_finished(r, now),
        }
    }
}

} // verus!
