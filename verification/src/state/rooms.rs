//! Opening chats, and making groups.

use crate::state::app::{
    mutation, toasts, App, Chat, Composer, Groups, Now, Place, ProfilePane, Servers, WindowState,
};
use crate::state::effect::{
    arg, both, nothing, one, views, Arg, ArgView, CallKind, Effect, EffectView, Reply,
};
use crate::state::keyed::{find, row};
use crate::state::lifecycle::{
    copy_opt, key_wanted, load_store_pref, stop_typing, typing_stopped,
};
use crate::state::message::{Message, RoomMessage, VoiceMessage};
use crate::state::types::{ChannelSummary, ConversationSummary, SidebarTab};
use crate::strmap::{texts, StrSet};
use crate::text::{cat2, is_text, owned, same, text_is, trim, trimmed};
use vstd::prelude::*;

verus! {

/// The chat pane and the composer are empty.
pub open spec fn emptied(pre: App, post: App) -> bool {
    &&& post.chat == (Chat {
        messages: post.chat.messages,
        pinned_messages: post.chat.pinned_messages,
        pins_panel_open: false,
        error: None,
        hovered_id: None,
        clear_confirm: false,
        clear_busy: false,
        typing_names: post.chat.typing_names,
        ..pre.chat
    })
    &&& post.chat.messages@.len() == 0
    &&& post.chat.pinned_messages@.len() == 0
    &&& post.chat.typing_names@.len() == 0
    &&& post.composer == (Composer {
        input: post.composer.input,
        suggestions: post.composer.suggestions,
        attachment: None,
        reply: None,
        editing_id: None,
        ..typing_stopped(pre).composer
    })
    &&& post.composer.input@.len() == 0
    &&& post.composer.suggestions@.len() == 0
}

/// The open chat is this one.
pub open spec fn placed(
    place: Place,
    conversation: Seq<char>,
    kind: Seq<char>,
    peer_id: Option<String>,
    name: Seq<char>,
) -> bool {
    &&& text_is(place.conversation, conversation)
    &&& text_is(place.kind, kind)
    &&& place.peer_id == peer_id
    &&& text_is(place.peer_name, name)
}

/// The mark that a chat was read.
pub open spec fn read_mark(conversation: Seq<char>) -> Seq<EffectView> {
    seq![EffectView::MarkRead { conversation_id: conversation }]
}

impl App {
    /// Moves to a chat; the others in the old one are told that we stopped
    /// typing.
    fn enter(&mut self, conversation: String, kind: String, peer_id: Option<String>, name: String) -> (fx:
        Vec<Effect>)
        ensures
            *final(self) == (App {
                place: final(self).place,
                chat: final(self).chat,
                composer: final(self).composer,
                ..*old(self)
            }),
            final(self).place == (Place {
                conversation: Some(conversation),
                kind: Some(kind),
                peer_id,
                peer_name: Some(name),
            }),
            emptied(*old(self), *final(self)),
            views(fx@) == stop_typing(*old(self)),
    {
        let fx = self.stop_typing_task();
        self.place.conversation = Some(conversation);
        self.place.kind = Some(kind);
        self.place.peer_id = peer_id;
        self.place.peer_name = Some(name);
        self.chat.messages = Vec::new();
        self.chat.pinned_messages = Vec::new();
        self.chat.pins_panel_open = false;
        self.chat.error = None;
        self.chat.hovered_id = None;
        self.chat.clear_confirm = false;
        self.chat.clear_busy = false;
        self.chat.typing_names = Vec::new();
        self.composer.input = String::new();
        self.composer.suggestions = Vec::new();
        self.composer.attachment = None;
        self.composer.reply = None;
        self.composer.editing_id = None;
        fx
    }
}

/// A support chat was opened.
pub open spec fn support_opened(
    pre: App,
    title: Seq<char>,
    peer_id: String,
    conversation: Seq<char>,
    now: Now,
    post: App,
    fx: Seq<EffectView>,
) -> bool {
    &&& post == (App {
        profile: ProfilePane { viewing: None, error: None },
        window: WindowState { sidebar_tab: SidebarTab::Chats, ..pre.window },
        toast: post.toast,
        place: post.place,
        chat: post.chat,
        composer: post.composer,
        ..pre
    })
    &&& placed(post.place, conversation, "direct"@, Some(peer_id), title)
    &&& emptied(pre, post)
    &&& toasts(post.toast, "Support chat opened"@, now)
    &&& fx == stop_typing(pre) + read_mark(conversation) + load_store_pref(post)
}

/// A DM with a friend was opened.
pub open spec fn dm_opened(
    pre: App,
    title: Seq<char>,
    peer_id: Option<String>,
    conversation: Seq<char>,
    post: App,
    fx: Seq<EffectView>,
) -> bool {
    &&& post == (App {
        window: WindowState { sidebar_tab: SidebarTab::Chats, ..pre.window },
        servers: Servers { selected: None, ..pre.servers },
        place: post.place,
        chat: post.chat,
        composer: post.composer,
        ..pre
    })
    &&& placed(post.place, conversation, "direct"@, peer_id, title)
    &&& emptied(pre, post)
    &&& fx == stop_typing(pre) + read_mark(conversation) + load_store_pref(post)
}

/// A chat of the list is opened.
pub open spec fn listed_opened(pre: App, c: ConversationSummary, post: App, fx: Seq<EffectView>) -> bool {
    &&& post == (App {
        window: WindowState { sidebar_tab: SidebarTab::Chats, ..pre.window },
        servers: Servers { selected: None, ..pre.servers },
        place: post.place,
        chat: post.chat,
        composer: post.composer,
        ..pre
    })
    &&& placed(post.place, c.conversation_id@, c.kind@, c.peer_user_id, c.title@)
    &&& emptied(pre, post)
    &&& fx == stop_typing(pre) + read_mark(c.conversation_id@) + load_store_pref(post) + if c.kind@
        == "group"@ {
        key_wanted(post)
    } else {
        Seq::empty()
    }
}

/// A channel of the selected server is opened; a voice channel is joined
/// right away, unless we are in it.
pub open spec fn channel_opened(pre: App, c: ChannelSummary, post: App, fx: Seq<EffectView>) -> bool {
    let voice = c.channel_type@ == "voice"@;
    &&& post == (App {
        place: post.place,
        chat: post.chat,
        composer: post.composer,
        ..pre
    })
    &&& placed(
        post.place,
        c.conversation_id@,
        if voice {
            "voice"@
        } else {
            "channel"@
        },
        None,
        if voice {
            "v "@ + c.name@
        } else {
            "#"@ + c.name@
        },
    )
    &&& emptied(pre, post)
    &&& fx == stop_typing(pre) + load_store_pref(post) + read_mark(c.conversation_id@) + key_wanted(
        post,
    ) + if voice && !text_is(pre.voice.active_channel, c.conversation_id@) {
        seq![EffectView::Dispatch(Message::Voice(VoiceMessage::JoinVoiceChannel))]
    } else {
        Seq::empty()
    }
}

/// A group was made, and is open.
pub open spec fn group_created(
    pre: App,
    title: Seq<char>,
    conversation: Seq<char>,
    post: App,
    fx: Seq<EffectView>,
) -> bool {
    &&& post == (App {
        groups: post.groups,
        place: post.place,
        chat: post.chat,
        window: WindowState { sidebar_tab: SidebarTab::Chats, ..pre.window },
        ..pre
    })
    &&& !post.groups.open
    &&& post.groups.name_input@.len() == 0
    &&& post.groups.selected.items@.len() == 0
    &&& post.groups.status is None
    &&& placed(post.place, conversation, "group"@, None, title)
    &&& post.chat == (Chat {
        messages: post.chat.messages,
        pinned_messages: post.chat.pinned_messages,
        pins_panel_open: false,
        ..pre.chat
    })
    &&& post.chat.messages@.len() == 0
    &&& post.chat.pinned_messages@.len() == 0
    &&& fx == key_wanted(post)
}

/// The call that makes a group of the chosen friends.
pub open spec fn group_call(app: App, name: String) -> Seq<EffectView> {
    mutation(
        app,
        "conversations:createGroup"@,
        seq![
            ("name"@, ArgView::Str(name@)),
            ("memberUserIds"@, ArgView::Strs(texts(app.groups.selected.items@))),
        ],
        Reply::GroupCreateFinished { name },
    )
}

/// What the "create group" button does.
pub open spec fn create_group_step(pre: App, post: App, fx: Seq<EffectView>) -> bool {
    let name = trimmed(pre.groups.name_input@);
    if pre.token() is None {
        post == pre && fx.len() == 0
    } else if name.len() == 0 || pre.groups.selected.items@.len() == 0 {
        &&& post == (App { groups: Groups { status: post.groups.status, ..pre.groups }, ..pre })
        &&& text_is(post.groups.status, "Enter a name and select at least one friend"@)
        &&& fx.len() == 0
    } else {
        &&& post == pre
        &&& fx.len() == 1
        &&& exists|label: String|
            {
                &&& label@ == name
                &&& fx == #[trigger] group_call(pre, label)
            }
    }
}

/// The set after the member was added or removed.
pub open spec fn toggled(pre: StrSet, id: Seq<char>, post: StrSet) -> bool {
    &&& post@ == if pre@.contains(id) {
        pre@.remove(id)
    } else {
        pre@.insert(id)
    }
    &&& pre.wf() ==> post.wf()
}

/// What opening the DM with a friend asks for.
pub open spec fn open_friend(app: App, user_id: Seq<char>) -> Seq<EffectView> {
    match row(app.social.friends@, user_id) {
        Some(f) => mutation(
            app,
            "conversations:getOrCreateDirect"@,
            seq![("friendUserId"@, ArgView::Str(f.user_id@))],
            Reply::ConversationOpened { title: f.display_name, peer_id: f.user_id },
        ),
        None => Seq::empty(),
    }
}

/// The call that opens a support chat.
pub open spec fn support_call(app: App, title: String, user_id: String) -> Seq<EffectView> {
    mutation(
        app,
        "conversations:openSupportDm"@,
        seq![("peerUserId"@, ArgView::Str(user_id@))],
        Reply::SupportDmOpened { title, peer_id: user_id },
    )
}

/// What asking for a support chat does.
pub open spec fn open_support(app: App, user_id: String, fx: Seq<EffectView>) -> bool {
    if app.token() is None {
        fx.len() == 0
    } else {
        exists|title: String|
            {
                &&& title@ == match app.profile.viewing {
                    Some(p) => p.display_name@,
                    None => "Support"@,
                }
                &&& fx == #[trigger] support_call(app, title, user_id)
            }
    }
}

/// What a message about opening chats does.
pub open spec fn room_step(pre: App, m: RoomMessage, now: Now, post: App, fx: Seq<EffectView>) -> bool {
    match m {
        RoomMessage::OpenSupportDm(user_id) => post == pre && open_support(pre, user_id, fx),
        RoomMessage::SupportDmOpened(Ok((title, peer_id, conversation))) => support_opened(
            pre,
            title@,
            peer_id,
            conversation@,
            now,
            post,
            fx,
        ),
        RoomMessage::SupportDmOpened(Err(err)) => {
            &&& post == (App { profile: ProfilePane { error: Some(err), ..pre.profile }, ..pre })
            &&& fx.len() == 0
        },
        RoomMessage::OpenConversationWithFriend(user_id) => post == pre && fx == open_friend(
            pre,
            user_id@,
        ),
        RoomMessage::OpenConversationDirect(id) => match row(pre.inbox.conversations@, id@) {
            Some(c) => listed_opened(pre, c, post, fx),
            None => post == pre && fx.len() == 0,
        },
        RoomMessage::ConversationOpened(Ok((title, peer_id, conversation))) => dm_opened(
            pre,
            title@,
            peer_id,
            conversation@,
            post,
            fx,
        ),
        RoomMessage::ConversationOpened(Err(err)) => {
            &&& post == (App { chat: Chat { error: Some(err), ..pre.chat }, ..pre })
            &&& fx.len() == 0
        },
        RoomMessage::OpenChannel(id) => match row(pre.servers.channels@, id@) {
            Some(c) => channel_opened(pre, c, post, fx),
            None => post == pre && fx.len() == 0,
        },
        RoomMessage::ToggleGroupPanel => {
            &&& post == (App {
                groups: Groups { open: !pre.groups.open, status: None, ..pre.groups },
                ..pre
            })
            &&& fx.len() == 0
        },
        RoomMessage::GroupNameInputChanged(value) => {
            &&& post == (App { groups: Groups { name_input: value, ..pre.groups }, ..pre })
            &&& fx.len() == 0
        },
        RoomMessage::ToggleGroupMember(user_id) => {
            &&& post == (App { groups: Groups { selected: post.groups.selected, ..pre.groups }, ..pre })
            &&& toggled(pre.groups.selected, user_id@, post.groups.selected)
            &&& fx.len() == 0
        },
        RoomMessage::CreateGroup => create_group_step(pre, post, fx),
        RoomMessage::GroupCreateFinished(Ok((title, conversation))) => group_created(
            pre,
            title@,
            conversation@,
            post,
            fx,
        ),
        RoomMessage::GroupCreateFinished(Err(err)) => {
            &&& post == (App { groups: Groups { status: Some(err), ..pre.groups }, ..pre })
            &&& fx.len() == 0
        },
    }
}

impl App {
    fn open_support_dm(&self, user_id: String) -> (fx: Vec<Effect>)
        ensures
            open_support(*self, user_id, views(fx@)),
    {
        let title = match &self.profile.viewing {
            Some(p) => p.display_name.clone(),
            None => owned("Support"),
        };
        let fx = self.ask1(
            CallKind::Mutation,
            "conversations:openSupportDm",
            "peerUserId",
            arg(&user_id),
            Reply::SupportDmOpened { title, peer_id: user_id },
        );
        assert(views(fx@) == support_call(*self, title, user_id));
        fx
    }

    fn support_dm_opened(&mut self, title: String, peer_id: String, conversation: String, now: Now) -> (fx:
        Vec<Effect>)
        ensures
            support_opened(
                *old(self),
                title@,
                peer_id,
                conversation@,
                now,
                *final(self),
                views(fx@),
            ),
    {
        self.profile.viewing = None;
        self.profile.error = None;
        self.window.sidebar_tab = SidebarTab::Chats;
        self.show_toast("Support chat opened", now);
        let mark = one(Effect::MarkRead { conversation_id: conversation.clone() });
        let stop = self.enter(conversation, owned("direct"), Some(peer_id), title);
        both(both(stop, mark), self.load_conversation_store_pref())
    }

    fn open_with_friend(&self, user_id: &str) -> (fx: Vec<Effect>)
        ensures
            views(fx@) == open_friend(*self, user_id@),
    {
        match find(&self.social.friends, user_id) {
            Some(i) => {
                let f = &self.social.friends[i];
                self.ask1(
                    CallKind::Mutation,
                    "conversations:getOrCreateDirect",
                    "friendUserId",
                    arg(&f.user_id),
                    Reply::ConversationOpened {
                        title: f.display_name.clone(),
                        peer_id: f.user_id.clone(),
                    },
                )
            },
            None => nothing(),
        }
    }

    /// Opens a chat of the list.
    pub fn open_listed(&mut self, id: &str) -> (fx: Vec<Effect>)
        ensures
            match row(old(self).inbox.conversations@, id@) {
                Some(c) => listed_opened(*old(self), c, *final(self), views(fx@)),
                None => *final(self) == *old(self) && views(fx@).len() == 0,
            },
    {
        match find(&self.inbox.conversations, id) {
            Some(i) => {
                let c = &self.inbox.conversations[i];
                let conversation = c.conversation_id.clone();
                let kind = c.kind.clone();
                let peer_id = copy_opt(&c.peer_user_id);
                let title = c.title.clone();
                let group = same(&kind, "group");
                let mark = one(Effect::MarkRead { conversation_id: conversation.clone() });
                let stop = self.enter(conversation, kind, peer_id, title);
                self.window.sidebar_tab = SidebarTab::Chats;
                self.servers.selected = None;
                let pref = self.load_conversation_store_pref();
                let key = if group {
                    self.ensure_group_key()
                } else {
                    nothing()
                };
                both(both(both(stop, mark), pref), key)
            },
            None => nothing(),
        }
    }

    fn conversation_opened(&mut self, title: String, peer_id: Option<String>, conversation: String) -> (fx:
        Vec<Effect>)
        ensures
            dm_opened(*old(self), title@, peer_id, conversation@, *final(self), views(fx@)),
    {
        let mark = one(Effect::MarkRead { conversation_id: conversation.clone() });
        let stop = self.enter(conversation, owned("direct"), peer_id, title);
        self.window.sidebar_tab = SidebarTab::Chats;
        self.servers.selected = None;
        both(both(stop, mark), self.load_conversation_store_pref())
    }

    /// Opens a channel of the selected server.
    pub fn open_channel(&mut self, id: &str) -> (fx: Vec<Effect>)
        ensures
            match row(old(self).servers.channels@, id@) {
                Some(c) => channel_opened(*old(self), c, *final(self), views(fx@)),
                None => *final(self) == *old(self) && views(fx@).len() == 0,
            },
    {
        match find(&self.servers.channels, id) {
            Some(i) => {
                let c = &self.servers.channels[i];
                let conversation = c.conversation_id.clone();
                let voice = same(&c.channel_type, "voice");
                let (kind, name) = if voice {
                    (owned("voice"), cat2("v ", &c.name))
                } else {
                    (owned("channel"), cat2("#", &c.name))
                };
                let join = if voice && !is_text(&self.voice.active_channel, &conversation) {
                    one(Effect::Dispatch(Message::Voice(VoiceMessage::JoinVoiceChannel)))
                } else {
                    nothing()
                };
                let mark = one(Effect::MarkRead { conversation_id: conversation.clone() });
                let stop = self.enter(conversation, kind, None, name);
                let pref = self.load_conversation_store_pref();
                let key = self.ensure_group_key();
                both(both(both(both(stop, pref), mark), key), join)
            },
            None => nothing(),
        }
    }

    fn create_group(&mut self) -> (fx: Vec<Effect>)
        ensures
            create_group_step(*old(self), *final(self), views(fx@)),
    {
        if self.online_token().is_none() {
            return nothing();
        }
        let name = trim(&self.groups.name_input);
        if name.as_str().is_empty() || self.groups.selected.items.len() == 0 {
            self.groups.status = Some(owned("Enter a name and select at least one friend"));
            return nothing();
        }
        let members = self.selected_ids();
        let fx = self.ask2(
            CallKind::Mutation,
            "conversations:createGroup",
            "name",
            arg(&name),
            "memberUserIds",
            Arg::Strs(members),
            Reply::GroupCreateFinished { name: name.clone() },
        );
        assert(views(fx@) == group_call(*self, name));
        fx
    }

    fn selected_ids(&self) -> (r: Vec<String>)
        ensures
            texts(r@) == texts(self.groups.selected.items@),
    {
        let mut r: Vec<String> = Vec::new();
        let mut i: usize = 0;
        while i < self.groups.selected.items.len()
            invariant
                i <= self.groups.selected.items@.len(),
                r@.len() == i,
                forall|k: int|
                    0 <= k < i ==> (#[trigger] r@[k])@ == self.groups.selected.items@[k]@,
            decreases self.groups.selected.items@.len() - i,
        {
            r.push(self.groups.selected.items[i].clone());
            i += 1;
        }
        assert(texts(r@) =~= texts(self.groups.selected.items@));
        r
    }

    fn group_create_finished(&mut self, title: String, conversation: String) -> (fx: Vec<Effect>)
        ensures
            group_created(*old(self), title@, conversation@, *final(self), views(fx@)),
    {
        self.groups.open = false;
        self.groups.name_input = String::new();
        self.groups.selected = StrSet::new();
        self.groups.status = None;
        self.place.conversation = Some(conversation);
        self.place.kind = Some(owned("group"));
        self.place.peer_id = None;
        self.place.peer_name = Some(title);
        self.chat.messages = Vec::new();
        self.chat.pinned_messages = Vec::new();
        self.chat.pins_panel_open = false;
        self.window.sidebar_tab = SidebarTab::Chats;
        self.ensure_group_key()
    }

    /// Handles a message about opening chats.
    pub fn update_rooms(&mut self, m: RoomMessage, now: Now) -> (fx: Vec<Effect>)
        ensures
            room_step(*old(self), m, now, *final(self), views(fx@)),
    {
        match m {
            RoomMessage::OpenSupportDm(user_id) => self.open_support_dm(user_id),
            RoomMessage::SupportDmOpened(Ok((title, peer_id, conversation))) => self.support_dm_opened(
                title,
                peer_id,
                conversation,
                now,
            ),
            RoomMessage::SupportDmOpened(Err(err)) => {
                self.profile.error = Some(err);
                nothing()
            },
            RoomMessage::OpenConversationWithFriend(user_id) => self.open_with_friend(&user_id),
            RoomMessage::OpenConversationDirect(id) => self.open_listed(&id),
            RoomMessage::ConversationOpened(Ok((title, peer_id, conversation))) => self.conversation_opened(
                title,
                peer_id,
                conversation,
            ),
            RoomMessage::ConversationOpened(Err(err)) => {
                self.chat.error = Some(err);
                nothing()
            },
            RoomMessage::OpenChannel(id) => self.open_channel(&id),
            RoomMessage::ToggleGroupPanel => {
                self.groups.open = !self.groups.open;
                self.groups.status = None;
                nothing()
            },
            RoomMessage::GroupNameInputChanged(value) => {
                self.groups.name_input = value;
                nothing()
            },
            RoomMessage::ToggleGroupMember(user_id) => {
                self.groups.selected.toggle(user_id);
                nothing()
            },
            RoomMessage::CreateGroup => self.create_group(),
            RoomMessage::GroupCreateFinished(Ok((title, conversation))) => self.group_create_finished(
                title,
                conversation,
            ),
            RoomMessage::GroupCreateFinished(Err(err)) => {
                self.groups.status = Some(err);
                nothing()
            },
        }
    }
}

} // verus!
