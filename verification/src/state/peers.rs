//! Live secure channels: what they report, and their invites.

use crate::state::app::{mutation, toasts, App, Chat, Now, Peers};
use crate::state::effect::{
    both, nothing, one, opt_bytes, two, views, Arg, ArgView, CallKind, Effect, EffectView, PeerCmd,
    PeerCmdView, Reply,
};
use crate::state::history::{media_tag, media_url_tag};
use crate::state::keyed::{find, row};
use crate::state::lifecycle::{wipe_files, wiped};
use crate::state::message::{Message, PeerEvent, PeerMessage};
use crate::state::types::{ChatMessage, ConversationSummary, Session};
use crate::text::{
    cat2, cat4, decimal, decimal_signed, digits, is_text, owned, same, signed_digits, text_is,
};
use crate::ui::mentions::{excerpt, mentions_any, pings, snippet};
use vstd::prelude::*;

verus! {

// ---------- Direct conversations ----------

/// The conversation is the DM with this user.
pub open spec fn is_direct_with(c: ConversationSummary, id: Seq<char>) -> bool {
    c.kind@ == "direct"@ && text_is(c.peer_user_id, id)
}

/// The id of the first DM with this user.
pub open spec fn direct_with(list: Seq<ConversationSummary>, id: Seq<char>) -> Option<Seq<char>>
    decreases list.len(),
{
    if list.len() == 0 {
        None
    } else {
        match direct_with(list.drop_last(), id) {
            Some(c) => Some(c),
            None => if is_direct_with(list.last(), id) {
                Some(list.last().conversation_id@)
            } else {
                None
            },
        }
    }
}

proof fn lemma_direct_stays(list: Seq<ConversationSummary>, id: Seq<char>, n: int)
    requires
        0 <= n <= list.len(),
        direct_with(list.take(n), id) is Some,
    ensures
        direct_with(list, id) == direct_with(list.take(n), id),
    decreases list.len() - n,
{
    if n < list.len() {
        assert(list.take(n + 1).drop_last() =~= list.take(n));
        lemma_direct_stays(list, id, n + 1);
    } else {
        assert(list.take(n) =~= list);
    }
}

/// [`direct_with`], computed.
pub fn find_direct(list: &Vec<ConversationSummary>, id: &str) -> (r: Option<String>)
    ensures
        match r {
            Some(c) => direct_with(list@, id@) == Some(c@),
            None => direct_with(list@, id@) is None,
        },
{
    let mut i: usize = 0;
    assert(list@.take(0) =~= Seq::<ConversationSummary>::empty());
    while i < list.len()
        invariant
            i <= list@.len(),
            direct_with(list@.take(i as int), id@) is None,
        decreases list@.len() - i,
    {
        let c = &list[i];
        assert(list@.take(i + 1).drop_last() =~= list@.take(i as int));
        assert(list@.take(i + 1).last() == list@[i as int]);
        if same(&c.kind, "direct") && is_text(&c.peer_user_id, id) {
            proof {
                lemma_direct_stays(list@, id@, i + 1);
            }
            return Some(c.conversation_id.clone());
        }
        i += 1;
    }
    assert(list@.take(list@.len() as int) =~= list@);
    None
}

// ---------- Live messages ----------

/// The live messages of a friend.
pub open spec fn live_list(live: Map<Seq<char>, Vec<ChatMessage>>, id: Seq<char>) -> Seq<ChatMessage> {
    if live.contains_key(id) {
        live[id]@
    } else {
        Seq::empty()
    }
}

/// `m` was added behind a friend's live messages.
pub open spec fn live_added(
    pre: Map<Seq<char>, Vec<ChatMessage>>,
    id: Seq<char>,
    m: ChatMessage,
    post: Map<Seq<char>, Vec<ChatMessage>>,
) -> bool {
    &&& post == pre.insert(id, post[id])
    &&& post[id]@ == live_list(pre, id).push(m)
}

/// A text is set under a key.
pub open spec fn put_text(
    pre: Map<Seq<char>, String>,
    key: Seq<char>,
    text: Seq<char>,
    post: Map<Seq<char>, String>,
) -> bool {
    post == pre.insert(key, post[key]) && post[key]@ == text
}

/// Who wrote a live message.
pub struct Author {
    pub id: Seq<char>,
    pub name: Seq<char>,
    pub color: Seq<char>,
    pub picture: Seq<char>,
}

/// `m` is a live message with this id, author, body and attachment, sent now.
pub open spec fn is_live_message(
    m: ChatMessage,
    id: Seq<char>,
    author: Author,
    body: Seq<char>,
    attachment: Seq<char>,
    now: Now,
) -> bool {
    &&& m.id@ == id
    &&& m.author_id@ == author.id
    &&& m.author_name@ == author.name
    &&& m.author_avatar_color@ == author.color
    &&& m.author_avatar_url@ == author.picture
    &&& !m.author_is_bot
    &&& !m.author_plus_active
    &&& m.body@ == body
    &&& m.kind@ == "text"@
    &&& m.attachment_url@ == attachment
    &&& m.attachment_key is None
    &&& m.attachment_nonce is None
    &&& m.reactions@.len() == 0
    &&& m.reply_to is None
    &&& m.encrypted
    &&& m.sent_at == now.unix_ms
    &&& !m.deleted
    &&& !m.edited
    &&& !m.pinned
}

/// The id of a live message: a prefix, the time, and a number.
pub open spec fn live_id(prefix: Seq<char>, now: Now, n: nat) -> Seq<char> {
    prefix + signed_digits(now.unix_ms as int) + "-"@ + digits(n)
}

fn make_live_id(prefix: &str, now: Now, n: u64) -> (r: String)
    ensures
        r@ == live_id(prefix@, now, n as nat),
{
    cat4(prefix, &decimal_signed(now.unix_ms), "-", &decimal(n))
}

/// A live message.
fn live_message(
    id: String,
    author_id: String,
    author_name: String,
    color: String,
    picture: String,
    body: String,
    attachment: String,
    now: Now,
) -> (m: ChatMessage)
    ensures
        is_live_message(
            m,
            id@,
            Author { id: author_id@, name: author_name@, color: color@, picture: picture@ },
            body@,
            attachment@,
            now,
        ),
{
    ChatMessage {
        id,
        author_id,
        author_name,
        author_avatar_color: color,
        author_avatar_url: picture,
        author_is_bot: false,
        author_plus_active: false,
        body,
        kind: owned("text"),
        attachment_url: attachment,
        attachment_key: None,
        attachment_nonce: None,
        reactions: Vec::new(),
        reply_to: None,
        encrypted: true,
        sent_at: now.unix_ms,
        deleted: false,
        edited: false,
        pinned: false,
    }
}

impl Peers {
    /// Number of live messages of a friend.
    fn live_count(&self, id: &str) -> (n: u64)
        ensures
            n == live_list(self.live@, id@).len(),
    {
        match self.live.get(id) {
            Some(list) => list.len() as u64,
            None => 0,
        }
    }

    /// Adds a live message.
    fn add_live(&mut self, id: String, m: ChatMessage)
        ensures
            *final(self) == (Peers { live: final(self).live, ..*old(self) }),
            live_added(old(self).live@, id@, m, final(self).live@),
    {
        let ghost before = self.live@;
        let mut list = match self.live.take(&id) {
            Some(list) => list,
            None => Vec::new(),
        };
        list.push(m);
        let ghost k = id@;
        self.live.insert(id, list);
        assert(self.live@ =~= before.insert(k, self.live@[k]));
        assert(self.live@[k]@ =~= live_list(before, k).push(m));
    }
}

// ---------- What we send ourselves ----------

/// The message that we just sent stands among the friend's live messages; its
/// picture, if it has one, is at hand.
pub open spec fn sent_live(
    pre: App,
    session: Session,
    peer_id: Seq<char>,
    body: Seq<char>,
    photo: Option<Seq<u8>>,
    now: Now,
    post: App,
) -> bool {
    let id = live_id("peer-out-"@, now, live_list(pre.peers.live@, peer_id).len());
    let url = if photo is Some {
        media_tag(id)
    } else {
        Seq::empty()
    };
    &&& post == (App { peers: post.peers, images: post.images, ..pre })
    &&& post.peers == (Peers { live: post.peers.live, ..pre.peers })
    &&& exists|m: ChatMessage|
        {
            &&& #[trigger] live_added(pre.peers.live@, peer_id, m, post.peers.live@)
            &&& is_live_message(
                m,
                id,
                Author {
                    id: session.user_id@,
                    name: session.display_name@,
                    color: session.avatar_color@,
                    picture: session.avatar_image_url@,
                },
                body,
                url,
                now,
            )
        }
    &&& match photo {
        Some(bytes) => post.images@ == pre.images@.insert(url, post.images@[url])
            && post.images@[url]@ == bytes,
        None => post.images == pre.images,
    }
}

impl App {
    /// Adds what we just sent to the friend's live messages.
    pub fn push_local_peer_message(
        &mut self,
        session: &Session,
        peer_id: &str,
        body: String,
        photo: Option<Vec<u8>>,
        now: Now,
    )
        ensures
            sent_live(
                *old(self),
                *session,
                peer_id@,
                body@,
                opt_bytes(photo),
                now,
                *final(self),
            ),
    {
        let n = self.peers.live_count(peer_id);
        let id = make_live_id("peer-out-", now, n);
        let mut url = String::new();
        match photo {
            Some(bytes) => {
                url = media_url_tag(&id);
                self.images.insert(url.clone(), bytes);
            },
            None => {},
        }
        let m = live_message(
            id,
            session.user_id.clone(),
            session.display_name.clone(),
            session.avatar_color.clone(),
            session.avatar_image_url.clone(),
            body,
            url,
            now,
        );
        self.peers.add_live(owned(peer_id), m);
    }
}

// ---------- What a channel reports ----------

/// The DM with this friend is open.
pub open spec fn viewing(app: App, id: Seq<char>) -> bool {
    text_is(app.place.peer_id, id)
}

/// How a friend is called in a notification.
pub open spec fn peer_name(app: App, id: Seq<char>) -> Seq<char> {
    match row(app.social.friends@, id) {
        Some(f) => f.shown_name(),
        None => "Peer"@,
    }
}

/// The sound and the notification for a message, unless its chat is in front
/// of the user.
pub open spec fn announced(app: App, id: Seq<char>, title: Seq<char>, body: Seq<char>) -> Seq<
    EffectView,
> {
    if app.window.window_focused && viewing(app, id) {
        Seq::empty()
    } else {
        seq![EffectView::Beep, EffectView::Notify { title, body }]
    }
}

/// The chat scrolls down, where it is the one that is open.
pub open spec fn scrolled(app: App, id: Seq<char>) -> Seq<EffectView> {
    if viewing(app, id) {
        seq![EffectView::ScrollToBottom]
    } else {
        Seq::empty()
    }
}

/// A text message arrived over a live channel.
pub open spec fn text_arrived(
    pre: App,
    id: Seq<char>,
    text: Seq<char>,
    now: Now,
    post: App,
    fx: Seq<EffectView>,
) -> bool {
    let name = peer_name(pre, id);
    let pinged = pings(text, pre.my_names());
    &&& post == (App { peers: Peers { live: post.peers.live, ..pre.peers }, ..pre })
    &&& exists|m: ChatMessage|
        {
            &&& #[trigger] live_added(pre.peers.live@, id, m, post.peers.live@)
            &&& is_live_message(
                m,
                live_id("peer-in-"@, now, live_list(pre.peers.live@, id).len()),
                Author { id, name, color: Seq::empty(), picture: Seq::empty() },
                text,
                Seq::empty(),
                now,
            )
        }
    &&& fx == if pinged {
        announced(pre, id, name + " mentioned you"@, excerpt(text, 140))
    } else {
        announced(pre, id, "Talkyss"@, "New message · "@ + name)
    } + scrolled(pre, id)
}

/// A picture arrived over a live channel.
pub open spec fn photo_arrived(
    pre: App,
    id: Seq<char>,
    bytes: Vec<u8>,
    now: Now,
    post: App,
    fx: Seq<EffectView>,
) -> bool {
    let name = peer_name(pre, id);
    let message_id = live_id("peer-photo-"@, now, pre.peers.photo_seq as nat);
    &&& post == (App {
        peers: Peers {
            live: post.peers.live,
            photo_seq: pre.peers.photo_seq.wrapping_add(1),
            ..pre.peers
        },
        images: post.images,
        ..pre
    })
    &&& post.images@ == pre.images@.insert(media_tag(message_id), bytes)
    &&& exists|m: ChatMessage|
        {
            &&& #[trigger] live_added(pre.peers.live@, id, m, post.peers.live@)
            &&& is_live_message(
                m,
                message_id,
                Author { id, name, color: Seq::empty(), picture: Seq::empty() },
                Seq::empty(),
                media_tag(message_id),
                now,
            )
        }
    &&& fx == announced(pre, id, "Talkyss"@, "New message · "@ + name) + scrolled(pre, id)
}

/// The host side asks for its invite to be published.
pub open spec fn invite_offered(
    pre: App,
    peer_id: String,
    payload: Seq<char>,
    expires_at_ms: int,
    post: App,
    fx: Seq<EffectView>,
) -> bool {
    match direct_with(pre.inbox.conversations@, peer_id@) {
        Some(c) => if pre.token() is None {
            post == pre && fx.len() == 0
        } else {
            &&& post == (App { peers: Peers { status: post.peers.status, ..pre.peers }, ..pre })
            &&& put_text(
                pre.peers.status@,
                peer_id@,
                "Publishing invite…"@,
                post.peers.status@,
            )
            &&& fx == mutation(
                pre,
                "peer:publishInvite"@,
                seq![
                    ("conversationId"@, ArgView::Str(c)),
                    ("invitePayload"@, ArgView::Str(payload)),
                    ("expiresAt"@, ArgView::Num(expires_at_ms)),
                ],
                Reply::PeerInvitePublished { peer_id },
            )
        },
        None => {
            &&& post == pre
            &&& if pre.token() is None {
                fx.len() == 0
            } else {
                &&& fx.len() == 1
                &&& fx[0] matches EffectView::Dispatch(
                    Message::Peer(PeerMessage::PeerInvitePublished(p, Err(e))),
                ) && p@ == peer_id@ && e@ == "no direct conversation yet"@
            }
        },
    }
}

/// What an event of a friend's channel does.
pub open spec fn peer_event_step(
    pre: App,
    peer_id: String,
    ev: PeerEvent,
    now: Now,
    post: App,
    fx: Seq<EffectView>,
) -> bool {
    let id = peer_id@;
    match ev {
        PeerEvent::Status(s) => {
            &&& post == (App { peers: Peers { status: post.peers.status, ..pre.peers }, ..pre })
            &&& post.peers.status@ == pre.peers.status@.insert(id, s)
            &&& fx.len() == 0
        },
        PeerEvent::HostInvite { payload, expires_at_ms } => invite_offered(
            pre,
            peer_id,
            payload@,
            expires_at_ms as int,
            post,
            fx,
        ),
        PeerEvent::Connected { sas_emojis, transport, remote_fingerprint } => {
            &&& post == (App {
                peers: Peers {
                    connected: post.peers.connected,
                    sas: post.peers.sas,
                    transport: post.peers.transport,
                    remote_fp: post.peers.remote_fp,
                    status: post.peers.status,
                    ..pre.peers
                },
                chat: Chat {
                    error: if viewing(pre, id) {
                        None
                    } else {
                        pre.chat.error
                    },
                    ..pre.chat
                },
                ..pre
            })
            &&& post.peers.connected@ == pre.peers.connected@.insert(id, true)
            &&& post.peers.sas@ == pre.peers.sas@.insert(id, sas_emojis)
            &&& post.peers.transport@ == pre.peers.transport@.insert(id, transport)
            &&& post.peers.remote_fp@ == pre.peers.remote_fp@.insert(id, remote_fingerprint)
            &&& put_text(pre.peers.status@, id, "Secure channel ready"@, post.peers.status@)
            &&& fx.len() == 0
        },
        PeerEvent::Text(text) => if text@ != pre.config.clear_history_ctrl@ {
            text_arrived(pre, id, text@, now, post, fx)
        } else if viewing(pre, id) {
            &&& wiped(pre, App { toast: pre.toast, ..post })
            &&& toasts(post.toast, "Peer cleared this chat"@, now)
            &&& fx == wipe_files(pre)
        } else {
            post == pre && fx.len() == 0
        },
        PeerEvent::Photo { bytes, content_type } => photo_arrived(pre, id, bytes, now, post, fx),
        PeerEvent::Error(err) => {
            &&& post == (App {
                peers: Peers {
                    connected: post.peers.connected,
                    status: post.peers.status,
                    ..pre.peers
                },
                chat: Chat {
                    error: if viewing(pre, id) {
                        Some(err)
                    } else {
                        pre.chat.error
                    },
                    ..pre.chat
                },
                ..pre
            })
            &&& post.peers.connected@ == pre.peers.connected@.insert(id, false)
            &&& post.peers.status@ == pre.peers.status@.insert(id, err)
            &&& fx.len() == 0
        },
        PeerEvent::Disconnected => {
            &&& post == (App {
                peers: Peers {
                    connected: post.peers.connected,
                    status: post.peers.status,
                    channels: post.peers.channels,
                    ..pre.peers
                },
                ..pre
            })
            &&& post.peers.connected@ == pre.peers.connected@.insert(id, false)
            &&& if pre.peers.status@.contains_key(id) {
                post.peers.status == pre.peers.status
            } else {
                put_text(pre.peers.status@, id, "Secure channel closed"@, post.peers.status@)
            }
            &&& post.peers.channels@ == pre.peers.channels@.remove(id)
            &&& fx == seq![EffectView::ForgetPeer { peer_id: id }]
        },
    }
}

impl App {
    /// [`viewing`], computed.
    fn is_viewing(&self, id: &str) -> (r: bool)
        ensures
            r == viewing(*self, id@),
    {
        is_text(&self.place.peer_id, id)
    }

    /// [`peer_name`], computed.
    fn peer_label(&self, id: &str) -> (r: String)
        ensures
            r@ == peer_name(*self, id@),
    {
        match find(&self.social.friends, id) {
            Some(i) => owned(self.social.friends[i].label()),
            None => owned("Peer"),
        }
    }

    /// [`announced`], computed.
    fn announce(&self, id: &str, title: String, body: String) -> (fx: Vec<Effect>)
        ensures
            views(fx@) == announced(*self, id@, title@, body@),
    {
        if self.window.window_focused && self.is_viewing(id) {
            nothing()
        } else {
            two(Effect::Beep, Effect::Notify { title, body })
        }
    }

    /// [`scrolled`], computed.
    fn scroll(&self, id: &str) -> (fx: Vec<Effect>)
        ensures
            views(fx@) == scrolled(*self, id@),
    {
        if self.is_viewing(id) {
            one(Effect::ScrollToBottom)
        } else {
            nothing()
        }
    }

    fn on_text(&mut self, peer_id: String, text: String, now: Now) -> (fx: Vec<Effect>)
        ensures
            text_arrived(*old(self), peer_id@, text@, now, *final(self), views(fx@)),
    {
        let name = self.peer_label(&peer_id);
        let names = self.my_mention_names();
        let fx = if mentions_any(&text, names.as_slice()) {
            self.announce(&peer_id, cat2(&name, " mentioned you"), snippet(&text, 140))
        } else {
            self.announce(&peer_id, owned("Talkyss"), cat2("New message · ", &name))
        };
        let fx = both(fx, self.scroll(&peer_id));
        let n = self.peers.live_count(&peer_id);
        let m = live_message(
            make_live_id("peer-in-", now, n),
            peer_id.clone(),
            name,
            String::new(),
            String::new(),
            text,
            String::new(),
            now,
        );
        self.peers.add_live(peer_id, m);
        fx
    }

    fn on_photo(&mut self, peer_id: String, bytes: Vec<u8>, now: Now) -> (fx: Vec<Effect>)
        ensures
            photo_arrived(*old(self), peer_id@, bytes, now, *final(self), views(fx@)),
    {
        let name = self.peer_label(&peer_id);
        let fx = self.announce(&peer_id, owned("Talkyss"), cat2("New message · ", &name));
        let fx = both(fx, self.scroll(&peer_id));
        let id = make_live_id("peer-photo-", now, self.peers.photo_seq);
        self.peers.photo_seq = self.peers.photo_seq.wrapping_add(1);
        let url = media_url_tag(&id);
        self.images.insert(url.clone(), bytes);
        let m = live_message(
            id,
            peer_id.clone(),
            name,
            String::new(),
            String::new(),
            String::new(),
            url,
            now,
        );
        self.peers.add_live(peer_id, m);
        fx
    }

    fn on_host_invite(&mut self, peer_id: String, payload: String, expires_at_ms: i64) -> (fx: Vec<
        Effect,
    >)
        ensures
            invite_offered(
                *old(self),
                peer_id,
                payload@,
                expires_at_ms as int,
                *final(self),
                views(fx@),
            ),
    {
        if self.online_token().is_none() {
            return nothing();
        }
        match find_direct(&self.inbox.conversations, &peer_id) {
            Some(c) => {
                let fx = self.ask3(
                    CallKind::Mutation,
                    "peer:publishInvite",
                    "conversationId",
                    Arg::Str(c),
                    "invitePayload",
                    Arg::Str(payload),
                    "expiresAt",
                    Arg::Num(expires_at_ms),
                    Reply::PeerInvitePublished { peer_id: peer_id.clone() },
                );
                self.peers.status.insert(peer_id, owned("Publishing invite…"));
                fx
            },
            None => one(
                Effect::Dispatch(
                    Message::Peer(
                        PeerMessage::PeerInvitePublished(
                            peer_id,
                            Err(owned("no direct conversation yet")),
                        ),
                    ),
                ),
            ),
        }
    }

    /// Handles what the live channel of a friend reports. Channels run for
    /// every online friend, so events arrive for any of them, not just for
    /// the one whose DM is open.
    pub fn handle_peer_event(&mut self, peer_id: String, ev: PeerEvent, now: Now) -> (fx: Vec<Effect>)
        ensures
            peer_event_step(*old(self), peer_id, ev, now, *final(self), views(fx@)),
    {
        let is_viewing = self.is_viewing(&peer_id);
        match ev {
            PeerEvent::Status(s) => {
                self.peers.status.insert(peer_id, s);
                nothing()
            },
            PeerEvent::HostInvite { payload, expires_at_ms } => self.on_host_invite(
                peer_id,
                payload,
                expires_at_ms,
            ),
            PeerEvent::Connected { sas_emojis, transport, remote_fingerprint } => {
                self.peers.connected.insert(peer_id.clone(), true);
                self.peers.sas.insert(peer_id.clone(), sas_emojis);
                self.peers.transport.insert(peer_id.clone(), transport);
                self.peers.remote_fp.insert(peer_id.clone(), remote_fingerprint);
                self.peers.status.insert(peer_id, owned("Secure channel ready"));
                if is_viewing {
                    self.chat.error = None;
                }
                nothing()
            },
            PeerEvent::Text(text) => {
                if same(&text, &self.config.clear_history_ctrl) {
                    if is_viewing {
                        let fx = self.wipe_local_chat_history();
                        self.show_toast("Peer cleared this chat", now);
                        fx
                    } else {
                        nothing()
                    }
                } else {
                    self.on_text(peer_id, text, now)
                }
            },
            PeerEvent::Photo { bytes, content_type: _ } => self.on_photo(peer_id, bytes, now),
            PeerEvent::Error(err) => {
                self.peers.connected.insert(peer_id.clone(), false);
                self.peers.status.insert(peer_id, err.clone());
                if is_viewing {
                    self.chat.error = Some(err);
                }
                nothing()
            },
            PeerEvent::Disconnected => {
                self.peers.connected.insert(peer_id.clone(), false);
                if !self.peers.status.contains(&peer_id) {
                    self.peers.status.insert(peer_id.clone(), owned("Secure channel closed"));
                }
                let _ = self.peers.channels.take(&peer_id);
                one(Effect::ForgetPeer { peer_id })
            },
        }
    }
}

// ---------- Messages ----------

/// A command to a friend's channel.
pub open spec fn to_peer(id: Seq<char>, cmd: PeerCmdView) -> EffectView {
    EffectView::SendPeerCmd { peer_id: id, cmd }
}

/// What was waiting for a channel that now takes commands.
pub open spec fn waiting_commands(peers: Peers, id: Seq<char>) -> Seq<EffectView> {
    let invite = if peers.pending_invite@.contains_key(id) {
        seq![to_peer(id, PeerCmdView::InvitePayload(peers.pending_invite@[id]@))]
    } else {
        Seq::empty()
    };
    let published = if peers.pending_published@.contains_key(id) {
        match peers.pending_published@[id] {
            Ok(()) => seq![to_peer(id, PeerCmdView::InvitePublished)],
            Err(err) => seq![to_peer(id, PeerCmdView::InvitePublishFailed(err@))],
        }
    } else {
        Seq::empty()
    };
    invite + published
}

/// What a message about live channels does.
pub open spec fn peer_step(pre: App, m: PeerMessage, now: Now, post: App, fx: Seq<EffectView>) -> bool {
    match m {
        PeerMessage::PeerEvent(id, ev) => peer_event_step(pre, id, ev, now, post, fx),
        PeerMessage::PeerCmdReady(id) => {
            &&& post == (App {
                peers: Peers {
                    channels: post.peers.channels,
                    pending_invite: post.peers.pending_invite,
                    pending_published: post.peers.pending_published,
                    ..pre.peers
                },
                ..pre
            })
            &&& post.peers.channels@ == pre.peers.channels@.insert(id@, ())
            &&& post.peers.pending_invite@ == pre.peers.pending_invite@.remove(id@)
            &&& post.peers.pending_published@ == pre.peers.pending_published@.remove(id@)
            &&& fx == waiting_commands(pre.peers, id@)
        },
        PeerMessage::PeerInviteUpdated(id, Some(payload)) => if pre.peers.channels@.contains_key(
            id@,
        ) {
            post == pre && fx == seq![to_peer(id@, PeerCmdView::InvitePayload(payload@))]
        } else {
            &&& post == (App {
                peers: Peers { pending_invite: post.peers.pending_invite, ..pre.peers },
                ..pre
            })
            &&& post.peers.pending_invite@ == pre.peers.pending_invite@.insert(id@, payload)
            &&& fx.len() == 0
        },
        PeerMessage::PeerInviteUpdated(_, None) => post == pre && fx.len() == 0,
        PeerMessage::PeerInvitePublished(id, result) => {
            let told = pre.peers.channels@.contains_key(id@);
            &&& post == (App {
                peers: Peers {
                    status: post.peers.status,
                    pending_published: post.peers.pending_published,
                    ..pre.peers
                },
                ..pre
            })
            &&& put_text(
                pre.peers.status@,
                id@,
                match result {
                    Ok(()) => "Invite saved — waiting for peer…"@,
                    Err(err) => "Invite publish failed: "@ + err@,
                },
                post.peers.status@,
            )
            &&& if told {
                &&& post.peers.pending_published == pre.peers.pending_published
                &&& fx == seq![
                    to_peer(
                        id@,
                        match result {
                            Ok(()) => PeerCmdView::InvitePublished,
                            Err(err) => PeerCmdView::InvitePublishFailed(err@),
                        },
                    ),
                ]
            } else {
                &&& post.peers.pending_published@ == pre.peers.pending_published@.insert(id@, result)
                &&& fx.len() == 0
            }
        },
        PeerMessage::DirectConversationEnsured => post == pre && fx.len() == 0,
    }
}

impl App {
    /// Handles a message about live channels.
    pub fn update_peers(&mut self, m: PeerMessage, now: Now) -> (fx: Vec<Effect>)
        ensures
            peer_step(*old(self), m, now, *final(self), views(fx@)),
    {
        match m {
            PeerMessage::PeerEvent(id, ev) => self.handle_peer_event(id, ev, now),
            PeerMessage::PeerCmdReady(id) => {
                let invite = match self.peers.pending_invite.take(&id) {
                    Some(payload) => one(
                        Effect::SendPeerCmd {
                            peer_id: id.clone(),
                            cmd: PeerCmd::InvitePayload(payload),
                        },
                    ),
                    None => nothing(),
                };
                let published = match self.peers.pending_published.take(&id) {
                    Some(Ok(())) => one(
                        Effect::SendPeerCmd { peer_id: id.clone(), cmd: PeerCmd::InvitePublished },
                    ),
                    Some(Err(err)) => one(
                        Effect::SendPeerCmd {
                            peer_id: id.clone(),
                            cmd: PeerCmd::InvitePublishFailed(err),
                        },
                    ),
                    None => nothing(),
                };
                self.peers.channels.insert(id, ());
                both(invite, published)
            },
            PeerMessage::PeerInviteUpdated(id, Some(payload)) => {
                if self.peers.channels.contains(&id) {
                    one(Effect::SendPeerCmd { peer_id: id, cmd: PeerCmd::InvitePayload(payload) })
                } else {
                    self.peers.pending_invite.insert(id, payload);
                    nothing()
                }
            },
            PeerMessage::PeerInviteUpdated(_, None) => nothing(),
            PeerMessage::PeerInvitePublished(id, result) => {
                let (text, cmd) = match &result {
                    Ok(_) => (owned("Invite saved — waiting for peer…"), PeerCmd::InvitePublished),
                    Err(err) => (
                        cat2("Invite publish failed: ", err),
                        PeerCmd::InvitePublishFailed(err.clone()),
                    ),
                };
                self.peers.status.insert(id.clone(), text);
                if self.peers.channels.contains(&id) {
                    one(Effect::SendPeerCmd { peer_id: id, cmd })
                } else {
                    self.peers.pending_published.insert(id, result);
                    nothing()
                }
            },
            PeerMessage::DirectConversationEnsured => nothing(),
        }
    }
}

} // verus!
