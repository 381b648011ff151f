//! Helpers that the message handlers lean on: ending live channels and calls,
//! wiping a chat, resetting the session, and asking for keys.

use crate::state::app::{
    no_peers, query, shared_key_kind, Admin, App, AuthForm, Calls, Channels, Chat, Composer, Peers,
    Place, ProfilePane, Servers, Settings, Share, Social, WindowState,
};
use crate::state::effect::{
    arg, both, nothing, one, opt_text, views, ArgView, CallKind, Effect, EffectView, PeerCmd,
    PeerCmdView, Reply,
};
use crate::state::history::{is_media_tag, is_media_url_tag};
use crate::state::peers::live_list;
use crate::state::types::{ChatMessage, ServerSettingsCategory, SettingsCategory, SidebarTab};
use crate::strmap::{texts, StrMap, StrSet};
use crate::text::{is_text, owned};
use vstd::prelude::*;

verus! {

// ---------- Live channels ----------

/// Everything about one friend's channel is forgotten, and nothing else.
pub open spec fn peer_stopped(pre: Peers, id: Seq<char>, post: Peers) -> bool {
    &&& post.public_key == pre.public_key
    &&& post.vault_key == pre.vault_key
    &&& post.photo_seq == pre.photo_seq
    &&& post.channels@ == pre.channels@.remove(id)
    &&& post.connected@ == pre.connected@.remove(id)
    &&& post.status@ == pre.status@.remove(id)
    &&& post.sas@ == pre.sas@.remove(id)
    &&& post.transport@ == pre.transport@.remove(id)
    &&& post.remote_fp@ == pre.remote_fp@.remove(id)
    &&& post.live@ == pre.live@.remove(id)
    &&& post.pending_invite@ == pre.pending_invite@.remove(id)
    &&& post.pending_published@ == pre.pending_published@.remove(id)
}

/// The command that ends a friend's channel.
pub open spec fn shutdown(id: Seq<char>) -> EffectView {
    EffectView::SendPeerCmd { peer_id: id, cmd: PeerCmdView::Shutdown }
}

/// The commands that end these friends' channels.
pub open spec fn shutdowns(ids: Seq<Seq<char>>) -> Seq<EffectView> {
    Seq::new(ids.len(), |i: int| shutdown(ids[i]))
}

impl Peers {
    /// Shuts down and forgets one friend's channel (they went offline, or
    /// were unfriended or blocked).
    pub fn stop_peer_session_for(&mut self, peer_id: &str) -> (fx: Vec<Effect>)
        ensures
            peer_stopped(*old(self), peer_id@, *final(self)),
            views(fx@) == if old(self).channels@.contains_key(peer_id@) {
                seq![shutdown(peer_id@)]
            } else {
                Seq::empty()
            },
    {
        let fx = match self.channels.take(peer_id) {
            Some(_) => one(Effect::SendPeerCmd { peer_id: owned(peer_id), cmd: PeerCmd::Shutdown }),
            None => nothing(),
        };
        let _ = self.connected.take(peer_id);
        let _ = self.status.take(peer_id);
        let _ = self.sas.take(peer_id);
        let _ = self.transport.take(peer_id);
        let _ = self.remote_fp.take(peer_id);
        let _ = self.live.take(peer_id);
        let _ = self.pending_invite.take(peer_id);
        let _ = self.pending_published.take(peer_id);
        fx
    }

    /// Ends every live channel.
    pub fn stop_all_peer_sessions(&mut self) -> (fx: Vec<Effect>)
        ensures
            no_peers(*final(self)),
            final(self).public_key == old(self).public_key,
            final(self).vault_key == old(self).vault_key,
            final(self).photo_seq == old(self).photo_seq,
            views(fx@) == shutdowns(old(self).channels.order()),
    {
        let ids = self.channels.keys();
        let ghost order = self.channels.order();
        let mut fx: Vec<Effect> = Vec::new();
        let mut i: usize = 0;
        while i < ids.len()
            invariant
                i <= ids@.len(),
                texts(ids@) == order,
                views(fx@).len() == i,
                forall|k: int| 0 <= k < i ==> #[trigger] views(fx@)[k] == shutdown(order[k]),
            decreases ids@.len() - i,
        {
            let e = Effect::SendPeerCmd { peer_id: ids[i].clone(), cmd: PeerCmd::Shutdown };
            let ghost before = views(fx@);
            fx.push(e);
            assert(views(fx@) =~= before.push(e@));
            assert(order[i as int] == ids@[i as int]@);
            i += 1;
        }
        assert(order.len() == ids@.len());
        assert(views(fx@) =~= shutdowns(order));
        self.channels.clear();
        self.connected.clear();
        self.status.clear();
        self.sas.clear();
        self.transport.clear();
        self.remote_fp.clear();
        self.live.clear();
        self.pending_invite.clear();
        self.pending_published.clear();
        fx
    }
}

// ---------- Screen share ----------

/// No share is on screen.
pub open spec fn share_cleared(s: Share) -> Share {
    Share { picker_open: false, is_sharing: false, remote_frame: None, view_expanded: false, ..s }
}

/// The share of a call that is about to start.
pub open spec fn share_reset(pre: Share, post: Share) -> bool {
    &&& post == (Share {
        channel_open: true,
        targets: post.targets,
        ..share_cleared(pre)
    })
    &&& post.targets@.len() == 0
}

impl Share {
    /// Clears what is on screen when a call ends.
    pub fn clear_share_ui(&mut self)
        ensures
            *final(self) == share_cleared(*old(self)),
    {
        self.picker_open = false;
        self.is_sharing = false;
        self.remote_frame = None;
        self.view_expanded = false;
    }

    /// Prepares the share of a call that is about to start; its command
    /// channel is made anew.
    pub fn reset_share_state(&mut self) -> (fx: Vec<Effect>)
        ensures
            share_reset(*old(self), *final(self)),
            views(fx@) == seq![EffectView::ResetShareChannel],
    {
        self.channel_open = true;
        self.picker_open = false;
        self.targets = Vec::new();
        self.is_sharing = false;
        self.remote_frame = None;
        self.view_expanded = false;
        one(Effect::ResetShareChannel)
    }
}

// ---------- Wiping a chat ----------

/// One of the messages shows the picture at `url`.
pub open spec fn shows_picture(messages: Seq<ChatMessage>, url: Seq<char>) -> bool {
    exists|i: int| 0 <= i < messages.len() && (#[trigger] messages[i]).attachment_url@ == url
}

/// A picture of the local vault that one of the messages shows.
pub open spec fn media_shown(messages: Seq<ChatMessage>, url: Seq<char>) -> bool {
    is_media_tag(url) && shows_picture(messages, url)
}

/// The live messages of the open DM.
pub open spec fn open_live(app: App) -> Seq<ChatMessage> {
    match app.place.peer_id {
        Some(p) => live_list(app.peers.live@, p@),
        None => Seq::empty(),
    }
}

/// A picture of the local vault that the open chat shows.
pub open spec fn open_chat_media(app: App, url: Seq<char>) -> bool {
    media_shown(app.chat.messages@, url) || media_shown(open_live(app), url)
}

/// The open chat's messages and drafts are gone, with its live messages and
/// the pictures of the vault that any of them shows; other chats keep theirs.
pub open spec fn wiped(pre: App, post: App) -> bool {
    &&& post == (App {
        images: post.images,
        chat: post.chat,
        peers: post.peers,
        composer: post.composer,
        ..pre
    })
    &&& post.images@ == Map::new(
        |k: Seq<char>| pre.images@.contains_key(k) && !open_chat_media(pre, k),
        |k: Seq<char>| pre.images@[k],
    )
    &&& post.chat == (Chat {
        messages: post.chat.messages,
        hovered_id: None,
        clear_confirm: false,
        ..pre.chat
    })
    &&& post.chat.messages@.len() == 0
    &&& post.peers == (Peers { live: post.peers.live, ..pre.peers })
    &&& post.peers.live@ == match pre.place.peer_id {
        Some(p) => pre.peers.live@.remove(p@),
        None => pre.peers.live@,
    }
    &&& post.composer == (Composer {
        attachment: None,
        reply: None,
        editing_id: None,
        input: post.composer.input,
        ..pre.composer
    })
    &&& post.composer.input@.len() == 0
}

/// Where someone is signed in, the chat's files are removed.
pub open spec fn wipe_files(pre: App) -> Seq<EffectView> {
    match pre.session {
        Some(s) => seq![
            EffectView::WipeChat {
                user_id: s.user_id@,
                conversation_id: opt_text(pre.place.conversation),
                peer_id: opt_text(pre.place.peer_id),
            },
        ],
        None => Seq::empty(),
    }
}

/// A copy of an optional text.
pub fn copy_opt(s: &Option<String>) -> (r: Option<String>)
    ensures
        r == *s,
{
    match s {
        Some(s) => Some(s.clone()),
        None => None,
    }
}

/// Removes the pictures of the local vault that the messages show.
fn drop_media(images: &mut StrMap<Vec<u8>>, messages: &Vec<ChatMessage>)
    ensures
        final(images)@ == Map::new(
            |k: Seq<char>| old(images)@.contains_key(k) && !media_shown(messages@, k),
            |k: Seq<char>| old(images)@[k],
        ),
{
    let ghost start = images@;
    let mut i: usize = 0;
    while i < messages.len()
        invariant
            i <= messages@.len(),
            forall|k: Seq<char>|
                #[trigger] images@.contains_key(k) <==> start.contains_key(k) && !media_shown(
                    messages@.take(i as int),
                    k,
                ),
            forall|k: Seq<char>| #[trigger] images@.contains_key(k) ==> images@[k] == start[k],
        decreases messages@.len() - i,
    {
        let ghost before = messages@.take(i as int);
        let ghost after = messages@.take(i + 1);
        let url = &messages[i].attachment_url;
        assert forall|k: Seq<char>| shows_picture(after, k) <==> shows_picture(before, k) || k
            == url@ by {
            if shows_picture(before, k) {
                let j = choose|j: int|
                    0 <= j < before.len() && (#[trigger] before[j]).attachment_url@ == k;
                assert(after[j] == before[j]);
            }
            if shows_picture(after, k) {
                let j = choose|j: int|
                    0 <= j < after.len() && (#[trigger] after[j]).attachment_url@ == k;
                if j < i {
                    assert(before[j] == after[j]);
                }
            }
            assert(after[i as int].attachment_url@ == url@);
        }
        if is_media_url_tag(url) {
            let _ = images.take(url);
        }
        i += 1;
    }
    assert(messages@.take(messages@.len() as int) =~= messages@);
    assert(images@ =~= Map::new(
        |k: Seq<char>| start.contains_key(k) && !media_shown(messages@, k),
        |k: Seq<char>| start[k],
    ));
}

impl App {
    /// Drops the messages and drafts of the open chat, and asks for its
    /// leftover files to be removed.
    pub fn wipe_local_chat_history(&mut self) -> (fx: Vec<Effect>)
        ensures
            wiped(*old(self), *final(self)),
            views(fx@) == wipe_files(*old(self)),
    {
        let fx = match &self.session {
            Some(s) => one(
                Effect::WipeChat {
                    user_id: s.user_id.clone(),
                    conversation_id: copy_opt(&self.place.conversation),
                    peer_id: copy_opt(&self.place.peer_id),
                },
            ),
            None => nothing(),
        };
        drop_media(&mut self.images, &self.chat.messages);
        match copy_opt(&self.place.peer_id) {
            Some(p) => match self.peers.live.take(&p) {
                Some(live) => drop_media(&mut self.images, &live),
                None => {},
            },
            None => {},
        }
        assert(self.images@ =~= Map::new(
            |k: Seq<char>| old(self).images@.contains_key(k) && !open_chat_media(*old(self), k),
            |k: Seq<char>| old(self).images@[k],
        ));
        self.chat.messages = Vec::new();
        self.composer.attachment = None;
        self.composer.reply = None;
        self.composer.editing_id = None;
        self.composer.input = String::new();
        self.chat.hovered_id = None;
        self.chat.clear_confirm = false;
        fx
    }
}

// ---------- Resetting the session ----------

/// Nobody is signed in any more: what belonged to the session is gone, the
/// connection, the settings of this machine and the pictures stay.
pub open spec fn session_reset(pre: App, post: App) -> bool {
    &&& post == (App {
        session: None,
        toast: None,
        group_keys: None,
        window: post.window,
        peers: post.peers,
        social: post.social,
        admin: post.admin,
        groups: post.groups,
        servers: post.servers,
        channels: post.channels,
        voice: post.voice,
        inbox: post.inbox,
        place: Place { conversation: None, kind: None, peer_id: None, peer_name: None },
        chat: post.chat,
        composer: post.composer,
        calls: Calls {
            my_call: None,
            role: None,
            engine_key: None,
            muted: false,
            output_muted: false,
            status_text: None,
        },
        share: share_cleared(pre.share),
        profile: ProfilePane { viewing: None, error: None },
        settings: post.settings,
        auth: post.auth,
        ..pre
    })
    &&& people_reset(pre, post)
    &&& places_reset(pre, post)
    &&& forms_reset(pre, post)
}

/// The part of [`session_reset`] about people.
pub open spec fn people_reset(pre: App, post: App) -> bool {
    &&& post.window == (WindowState {
        sidebar_tab: SidebarTab::Chats,
        chat_filter_input: post.window.chat_filter_input,
        ..pre.window
    })
    &&& post.window.chat_filter_input@.len() == 0
    &&& no_peers(post.peers)
    &&& post.peers.public_key is None
    &&& post.peers.vault_key is None
    &&& post.peers.photo_seq == pre.peers.photo_seq
    &&& post.social == (Social {
        friends: post.social.friends,
        incoming_requests: post.social.incoming_requests,
        outgoing_requests: post.social.outgoing_requests,
        blocked: post.social.blocked,
        friends_filter_input: post.social.friends_filter_input,
        friend_request_busy: false,
        add_friend_input: post.social.add_friend_input,
        add_friend_note: post.social.add_friend_note,
        add_friend_status: None,
        requests_loaded: false,
        ..pre.social
    })
    &&& post.social.friends@.len() == 0
    &&& post.social.incoming_requests@.len() == 0
    &&& post.social.outgoing_requests@.len() == 0
    &&& post.social.blocked@.len() == 0
    &&& post.social.friends_filter_input@.len() == 0
    &&& post.social.add_friend_input@.len() == 0
    &&& post.social.add_friend_note@.len() == 0
    &&& post.admin == (Admin {
        users: post.admin.users,
        status: None,
        search_input: post.admin.search_input,
        filter: 0,
        stats: None,
        detail_user_id: None,
        user_detail: None,
        ..pre.admin
    })
    &&& post.admin.users@.len() == 0
    &&& post.admin.search_input@.len() == 0
}

/// The part of [`session_reset`] about chats and servers.
pub open spec fn places_reset(pre: App, post: App) -> bool {
    &&& !post.groups.open
    &&& post.groups.name_input@.len() == 0
    &&& post.groups.selected.items@.len() == 0
    &&& post.groups.status is None
    &&& post.servers == (Servers {
        list: post.servers.list,
        selected: None,
        channels: post.servers.channels,
        members: post.servers.members,
        new_name_input: post.servers.new_name_input,
        join_code_input: post.servers.join_code_input,
        status: None,
        settings_open: false,
        settings_category: ServerSettingsCategory::Overview,
        confirm_delete: false,
        description_input: post.servers.description_input,
        confirm_transfer_owner_id: None,
        stats: None,
        ..pre.servers
    })
    &&& post.servers.list@.len() == 0
    &&& post.servers.channels@.len() == 0
    &&& post.servers.members@.len() == 0
    &&& post.servers.new_name_input@.len() == 0
    &&& post.servers.join_code_input@.len() == 0
    &&& post.servers.description_input@.len() == 0
    &&& post.channels == (Channels {
        new_open: false,
        new_name_input: post.channels.new_name_input,
        renaming_id: None,
        rename_input: post.channels.rename_input,
        ..pre.channels
    })
    &&& post.channels.new_name_input@.len() == 0
    &&& post.channels.rename_input@.len() == 0
    &&& post.voice.users@.len() == 0
    &&& post.voice.active_channel is None
    &&& post.voice.room_status is None
    &&& post.inbox.conversations@.len() == 0
    &&& !post.inbox.loaded
    &&& post.inbox.seen_last_message_at@ == Map::<Seq<char>, i64>::empty()
    &&& post.inbox.last_marked_read_at@ == Map::<Seq<char>, i64>::empty()
}

/// The part of [`session_reset`] about the open chat and the forms.
pub open spec fn forms_reset(pre: App, post: App) -> bool {
    &&& post.chat == (Chat {
        messages: post.chat.messages,
        pinned_messages: post.chat.pinned_messages,
        pins_panel_open: false,
        error: None,
        hovered_id: None,
        clear_confirm: false,
        clear_busy: false,
        typing_names: post.chat.typing_names,
        ..pre.chat
    })
    &&& post.chat.messages@.len() == 0
    &&& post.chat.pinned_messages@.len() == 0
    &&& post.chat.typing_names@.len() == 0
    &&& post.composer == (Composer {
        input: post.composer.input,
        editing_id: None,
        attachment: None,
        reply: None,
        send_busy: false,
        sealing: None,
        typing_active: false,
        last_typing_ping: None,
        ..pre.composer
    })
    &&& post.composer.input@.len() == 0
    &&& post.settings == (Settings {
        open: false,
        category: SettingsCategory::Account,
        profile_status: None,
        password_status: None,
        current_password_input: post.settings.current_password_input,
        new_password_input: post.settings.new_password_input,
        confirm_password_input: post.settings.confirm_password_input,
        ..pre.settings
    })
    &&& post.settings.current_password_input@.len() == 0
    &&& post.settings.new_password_input@.len() == 0
    &&& post.settings.confirm_password_input@.len() == 0
    &&& post.auth == (AuthForm {
        username_input: post.auth.username_input,
        password_input: post.auth.password_input,
        display_name_input: post.auth.display_name_input,
        auth_error: None,
        auth_busy: false,
        ..pre.auth
    })
    &&& post.auth.username_input@.len() == 0
    &&& post.auth.password_input@.len() == 0
    &&& post.auth.display_name_input@.len() == 0
}

impl App {
    /// Signs out on this side: every live channel is shut down and what
    /// belonged to the session is dropped.
    pub fn reset_session(&mut self) -> (fx: Vec<Effect>)
        ensures
            session_reset(*old(self), *final(self)),
            views(fx@) == shutdowns(old(self).peers.channels.order()) + seq![
                EffectView::ResetCallMutes,
            ],
    {
        self.session = None;
        self.toast = None;
        self.group_keys = None;
        let fx = self.peers.stop_all_peer_sessions();
        self.reset_people();
        self.reset_places();
        self.reset_forms();
        both(fx, one(Effect::ResetCallMutes))
    }

    fn reset_people(&mut self)
        requires
            no_peers(old(self).peers),
        ensures
            *final(self) == (App {
                window: final(self).window,
                peers: final(self).peers,
                social: final(self).social,
                admin: final(self).admin,
                ..*old(self)
            }),
            people_reset(*old(self), *final(self)),
    {
        self.window.sidebar_tab = SidebarTab::Chats;
        self.window.chat_filter_input = String::new();
        self.peers.public_key = None;
        self.peers.vault_key = None;
        self.social.friends = Vec::new();
        self.social.incoming_requests = Vec::new();
        self.social.outgoing_requests = Vec::new();
        self.social.blocked = Vec::new();
        self.social.friends_filter_input = String::new();
        self.social.friend_request_busy = false;
        self.social.add_friend_input = String::new();
        self.social.add_friend_note = String::new();
        self.social.add_friend_status = None;
        self.social.requests_loaded = false;
        self.admin.users = Vec::new();
        self.admin.status = None;
        self.admin.search_input = String::new();
        self.admin.filter = 0;
        self.admin.stats = None;
        self.admin.detail_user_id = None;
        self.admin.user_detail = None;
    }

    fn reset_places(&mut self)
        ensures
            *final(self) == (App {
                groups: final(self).groups,
                servers: final(self).servers,
                channels: final(self).channels,
                voice: final(self).voice,
                inbox: final(self).inbox,
                place: Place { conversation: None, kind: None, peer_id: None, peer_name: None },
                ..*old(self)
            }),
            places_reset(*old(self), *final(self)),
    {
        self.groups.open = false;
        self.groups.name_input = String::new();
        self.groups.selected = StrSet::new();
        self.groups.status = None;
        self.servers.list = Vec::new();
        self.servers.selected = None;
        self.servers.channels = Vec::new();
        self.servers.members = Vec::new();
        self.servers.new_name_input = String::new();
        self.servers.join_code_input = String::new();
        self.servers.status = None;
        self.servers.settings_open = false;
        self.servers.settings_category = ServerSettingsCategory::Overview;
        self.servers.confirm_delete = false;
        self.servers.description_input = String::new();
        self.servers.confirm_transfer_owner_id = None;
        self.servers.stats = None;
        self.channels.new_open = false;
        self.channels.new_name_input = String::new();
        self.channels.renaming_id = None;
        self.channels.rename_input = String::new();
        self.voice.users = Vec::new();
        self.voice.active_channel = None;
        self.voice.room_status = None;
        self.inbox.conversations = Vec::new();
        self.inbox.loaded = false;
        self.inbox.seen_last_message_at.clear();
        self.inbox.last_marked_read_at.clear();
        self.place.conversation = None;
        self.place.kind = None;
        self.place.peer_id = None;
        self.place.peer_name = None;
    }

    fn reset_forms(&mut self)
        ensures
            *final(self) == (App {
                chat: final(self).chat,
                composer: final(self).composer,
                calls: Calls {
                    my_call: None,
                    role: None,
                    engine_key: None,
                    muted: false,
                    output_muted: false,
                    status_text: None,
                },
                share: share_cleared(old(self).share),
                profile: ProfilePane { viewing: None, error: None },
                settings: final(self).settings,
                auth: final(self).auth,
                ..*old(self)
            }),
            forms_reset(*old(self), *final(self)),
    {
        self.chat.messages = Vec::new();
        self.chat.pinned_messages = Vec::new();
        self.chat.pins_panel_open = false;
        self.chat.error = None;
        self.chat.hovered_id = None;
        self.chat.clear_confirm = false;
        self.chat.clear_busy = false;
        self.chat.typing_names = Vec::new();
        self.composer.input = String::new();
        self.composer.editing_id = None;
        self.composer.attachment = None;
        self.composer.reply = None;
        self.composer.send_busy = false;
        self.composer.sealing = None;
        self.composer.typing_active = false;
        self.composer.last_typing_ping = None;
        self.calls.my_call = None;
        self.calls.role = None;
        self.calls.engine_key = None;
        self.calls.muted = false;
        self.calls.output_muted = false;
        self.calls.status_text = None;
        self.share.clear_share_ui();
        self.profile.viewing = None;
        self.profile.error = None;
        self.settings.open = false;
        self.settings.category = SettingsCategory::Account;
        self.settings.profile_status = None;
        self.settings.password_status = None;
        self.settings.current_password_input = String::new();
        self.settings.new_password_input = String::new();
        self.settings.confirm_password_input = String::new();
        self.auth.username_input = String::new();
        self.auth.password_input = String::new();
        self.auth.display_name_input = String::new();
        self.auth.auth_error = None;
        self.auth.auth_busy = false;
    }
}

// ---------- Typing ----------

/// We do not count as typing.
pub open spec fn typing_stopped(pre: App) -> App {
    if pre.composer.typing_active {
        App {
            composer: Composer { typing_active: false, last_typing_ping: None, ..pre.composer },
            ..pre
        }
    } else {
        pre
    }
}

/// The others are told that we stopped, where they were told that we type.
pub open spec fn stop_typing(pre: App) -> Seq<EffectView> {
    match pre.place.conversation {
        Some(c) => if pre.composer.typing_active {
            seq![EffectView::TypingPing { conversation_id: c@, typing: false }]
        } else {
            Seq::empty()
        },
        None => Seq::empty(),
    }
}

impl App {
    /// If we were signalling "typing" in the open chat, tells the others that
    /// we stopped.
    pub fn stop_typing_task(&mut self) -> (fx: Vec<Effect>)
        ensures
            *final(self) == typing_stopped(*old(self)),
            views(fx@) == stop_typing(*old(self)),
    {
        if !self.composer.typing_active {
            return nothing();
        }
        self.composer.typing_active = false;
        self.composer.last_typing_ping = None;
        match &self.place.conversation {
            Some(c) => one(Effect::TypingPing { conversation_id: c.clone(), typing: false }),
            None => nothing(),
        }
    }
}

// ---------- Keys and preferences ----------

/// The identity is read, where we are connected and signed in.
pub open spec fn load_identity(app: App) -> Seq<EffectView> {
    match app.session {
        Some(s) => if app.link.connected {
            seq![EffectView::LoadIdentity { user_id: s.user_id@ }]
        } else {
            Seq::empty()
        },
        None => Seq::empty(),
    }
}

/// The storage preference of the open chat is asked for.
pub open spec fn load_store_pref(app: App) -> Seq<EffectView> {
    match app.place.conversation {
        Some(c) => query(
            app,
            "prefs:getConversationStore"@,
            seq![("conversationId"@, ArgView::Str(c@))],
            Reply::ConversationStorePrefLoaded,
        ),
        None => Seq::empty(),
    }
}

/// What is done to have the key of the open chat: nothing where it needs none
/// or has it, else the stored keys are read first, and then the key is
/// obtained.
pub open spec fn key_wanted(app: App) -> Seq<EffectView> {
    match app.session {
        Some(s) => match app.place.conversation {
            Some(c) => if !app.link.connected || !shared_key_kind(app.place.kind) {
                Seq::empty()
            } else if app.group_keys is None {
                seq![EffectView::LoadGroupKeys { user_id: s.user_id@, pending: None }]
            } else if app.key_of(c@) is Some {
                Seq::empty()
            } else {
                seq![
                    EffectView::ObtainGroupKey {
                        token: s.token@,
                        conversation_id: c@,
                        user_id: s.user_id@,
                    },
                ]
            },
            None => Seq::empty(),
        },
        None => Seq::empty(),
    }
}

/// [`shared_key_kind`], computed.
pub fn is_shared_key_kind(kind: &Option<String>) -> (r: bool)
    ensures
        r == shared_key_kind(*kind),
{
    is_text(kind, "group") || is_text(kind, "channel") || is_text(kind, "voice")
}

impl App {
    /// Reads the identity, so that its public key gets published.
    pub fn ensure_identity_key(&self) -> (fx: Vec<Effect>)
        ensures
            views(fx@) == load_identity(*self),
    {
        match &self.session {
            Some(s) => if self.link.connected {
                one(Effect::LoadIdentity { user_id: s.user_id.clone() })
            } else {
                nothing()
            },
            None => nothing(),
        }
    }

    /// Asks whether the open chat stores history.
    pub fn load_conversation_store_pref(&self) -> (fx: Vec<Effect>)
        ensures
            views(fx@) == load_store_pref(*self),
    {
        match &self.place.conversation {
            Some(c) => self.ask1(
                CallKind::Query,
                "prefs:getConversationStore",
                "conversationId",
                arg(c),
                Reply::ConversationStorePrefLoaded,
            ),
            None => nothing(),
        }
    }

    /// Loads or bootstraps the shared key of the open group or channel.
    pub fn ensure_group_key(&self) -> (fx: Vec<Effect>)
        ensures
            views(fx@) == key_wanted(*self),
    {
        match &self.session {
            Some(s) => match &self.place.conversation {
                Some(c) => if !self.link.connected || !is_shared_key_kind(&self.place.kind) {
                    nothing()
                } else if self.group_keys.is_none() {
                    one(Effect::LoadGroupKeys { user_id: s.user_id.clone(), pending: None })
                } else if self.group_key(c).is_some() {
                    nothing()
                } else {
                    one(
                        Effect::ObtainGroupKey {
                            token: s.token.clone(),
                            conversation_id: c.clone(),
                            user_id: s.user_id.clone(),
                        },
                    )
                },
                None => nothing(),
            },
            None => nothing(),
        }
    }
}

} // verus!
