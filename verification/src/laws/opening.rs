//! Opening chats, groups and voice rooms, and looking after channels.

use crate::laws::asked::{
    changes, changes_server, lemma_request, online, switch, text,
};
use crate::state::app::{App, Now};
use crate::state::effect::{ArgView, EffectView, Reply};
use crate::state::keyed::{lemma_position, lemma_position_is};
use crate::state::lifecycle::{load_store_pref, stop_typing};
use crate::state::message::{
    ChannelMessage, Message, RoomMessage, RoomVoiceEvent, VoiceMessage,
};
use crate::state::update::step;
use crate::state::voice::clamped_gain;
use crate::strmap::texts;
use crate::text::{text_is, trimmed};
use vstd::prelude::*;

verus! {

/// Nothing of another chat is on screen: no message, no draft, no reply, no
/// edit, no attachment, and no error.
pub open spec fn clean(app: App) -> bool {
    &&& app.chat.messages@.len() == 0
    &&& app.chat.pinned_messages@.len() == 0
    &&& app.chat.typing_names@.len() == 0
    &&& app.chat.error is None
    &&& !app.chat.clear_confirm
    &&& app.composer.input@.len() == 0
    &&& app.composer.suggestions@.len() == 0
    &&& app.composer.attachment is None
    &&& app.composer.reply is None
    &&& app.composer.editing_id is None
    &&& !app.composer.typing_active
}

/// A chat of the list opens as what the list says it is, with nothing of the
/// chat before, and counts as read; a chat that is not listed does not open.
pub proof fn listed_chats_open(
    pre: App,
    id: String,
    now: Now,
    post: App,
    fx: Seq<EffectView>,
    k: int,
)
    requires
        step(pre, Message::Room(RoomMessage::OpenConversationDirect(id)), now, post, fx),
    ensures
        (forall|j: int|
            0 <= j < pre.inbox.conversations@.len() ==> (
            #[trigger] pre.inbox.conversations@[j]).conversation_id@ != id@) ==> post == pre
            && fx.len() == 0,
        0 <= k < pre.inbox.conversations@.len() && pre.inbox.conversations@[k].conversation_id@
            == id@ && (forall|j: int|
            0 <= j < k ==> (#[trigger] pre.inbox.conversations@[j]).conversation_id@ != id@) ==> {
            let c = pre.inbox.conversations@[k];
            &&& text_is(post.place.conversation, c.conversation_id@)
            &&& text_is(post.place.kind, c.kind@)
            &&& post.place.peer_id == c.peer_user_id
            &&& text_is(post.place.peer_name, c.title@)
            &&& clean(post)
            &&& post.servers.selected is None
            &&& post.window.sidebar_tab is Chats
            &&& fx.contains(EffectView::MarkRead { conversation_id: id@ })
            &&& pre.place.conversation is Some && pre.composer.typing_active ==> fx.contains(
                EffectView::TypingPing {
                    conversation_id: pre.place.conversation->0@,
                    typing: false,
                },
            )
            &&& post.peers == pre.peers
        },
{
    lemma_position(pre.inbox.conversations@, id@);
    if 0 <= k < pre.inbox.conversations@.len() && pre.inbox.conversations@[k].conversation_id@ == id@
        && (forall|j: int|
        0 <= j < k ==> (#[trigger] pre.inbox.conversations@[j]).conversation_id@ != id@) {
        lemma_position_is(pre.inbox.conversations@, id@, k);
        let n = stop_typing(pre).len();
        assert(fx[n as int] == EffectView::MarkRead { conversation_id: id@ });
        if n == 1 {
            assert(fx[0] is TypingPing);
        }
    }
}

/// A channel opens under its own name, as a voice channel where it is one,
/// with nothing of the chat before, and counts as read; a voice channel is
/// joined unless we are in it, a text channel is not.
pub proof fn channels_open(
    pre: App,
    id: String,
    now: Now,
    post: App,
    fx: Seq<EffectView>,
    k: int,
)
    requires
        step(pre, Message::Room(RoomMessage::OpenChannel(id)), now, post, fx),
        0 <= k < pre.servers.channels@.len(),
        pre.servers.channels@[k].conversation_id@ == id@,
        forall|j: int|
            0 <= j < k ==> (#[trigger] pre.servers.channels@[j]).conversation_id@ != id@,
    ensures
        ({
            let c = pre.servers.channels@[k];
            let join = EffectView::Dispatch(Message::Voice(VoiceMessage::JoinVoiceChannel));
            &&& text_is(post.place.conversation, id@)
            &&& post.place.peer_id is None
            &&& c.channel_type@ == "voice"@ ==> text_is(post.place.kind, "voice"@) && text_is(
                post.place.peer_name,
                "v "@ + c.name@,
            )
            &&& c.channel_type@ != "voice"@ ==> text_is(post.place.kind, "channel"@) && text_is(
                post.place.peer_name,
                "#"@ + c.name@,
            )
            &&& clean(post)
            &&& post.servers == pre.servers
            &&& post.voice == pre.voice
            &&& fx.contains(EffectView::MarkRead { conversation_id: id@ })
            &&& c.channel_type@ == "voice"@ && !text_is(pre.voice.active_channel, id@) ==> fx.len()
                > 0 && fx.last() == join
            &&& c.channel_type@ != "voice"@ || text_is(pre.voice.active_channel, id@)
                ==> forall|i: int| 0 <= i < fx.len() ==> !(#[trigger] fx[i] is Dispatch)
        }),
{
    lemma_position_is(pre.servers.channels@, id@, k);
    let a = stop_typing(pre);
    let b = load_store_pref(post);
    assert(fx[(a.len() + b.len()) as int] == EffectView::MarkRead { conversation_id: id@ });
}

/// A direct chat that was asked for opens with that peer; a failure is shown
/// and the open chat stays.
pub proof fn asked_for_chats_open(
    pre: App,
    m: RoomMessage,
    now: Now,
    post: App,
    fx: Seq<EffectView>,
)
    requires
        step(pre, Message::Room(m), now, post, fx),
    ensures
        m is ConversationOpened && m->ConversationOpened_0 is Ok ==> {
            let (title, peer, chat) = m->ConversationOpened_0->Ok_0;
            &&& text_is(post.place.conversation, chat@)
            &&& text_is(post.place.kind, "direct"@)
            &&& post.place.peer_id == peer
            &&& text_is(post.place.peer_name, title@)
            &&& clean(post)
            &&& post.servers.selected is None
            &&& fx.contains(EffectView::MarkRead { conversation_id: chat@ })
        },
        m is ConversationOpened && m->ConversationOpened_0 is Err ==> post.place == pre.place
            && post.chat.messages == pre.chat.messages && post.composer == pre.composer
            && post.chat.error == Some(m->ConversationOpened_0->Err_0) && fx.len() == 0,
        m is SupportDmOpened && m->SupportDmOpened_0 is Ok ==> {
            let (title, peer, chat) = m->SupportDmOpened_0->Ok_0;
            &&& text_is(post.place.conversation, chat@)
            &&& text_is(post.place.kind, "direct"@)
            &&& post.place.peer_id == Some(peer)
            &&& text_is(post.place.peer_name, title@)
            &&& clean(post)
            &&& post.profile.viewing is None
            &&& fx.contains(EffectView::MarkRead { conversation_id: chat@ })
        },
        m is SupportDmOpened && m->SupportDmOpened_0 is Err ==> post.place == pre.place
            && post.profile.error == Some(m->SupportDmOpened_0->Err_0) && fx.len() == 0,
        m is GroupCreateFinished && m->GroupCreateFinished_0 is Ok ==> {
            let (title, chat) = m->GroupCreateFinished_0->Ok_0;
            &&& text_is(post.place.conversation, chat@)
            &&& text_is(post.place.kind, "group"@)
            &&& post.place.peer_id is None
            &&& text_is(post.place.peer_name, title@)
            &&& post.chat.messages@.len() == 0
            &&& !post.groups.open
            &&& post.groups.name_input@.len() == 0
            &&& post.groups.selected.items@.len() == 0
            &&& post.groups.status is None
        },
        m is GroupCreateFinished && m->GroupCreateFinished_0 is Err ==> post.place == pre.place
            && post.groups.status == Some(m->GroupCreateFinished_0->Err_0) && post.groups.selected
            == pre.groups.selected && post.groups.name_input == pre.groups.name_input,
{
    let n = stop_typing(pre).len();
    if m is ConversationOpened && m->ConversationOpened_0 is Ok {
        let (title, peer, chat) = m->ConversationOpened_0->Ok_0;
        assert(fx[n as int] == EffectView::MarkRead { conversation_id: chat@ });
    }
    if m is SupportDmOpened && m->SupportDmOpened_0 is Ok {
        let (title, peer, chat) = m->SupportDmOpened_0->Ok_0;
        assert(fx[n as int] == EffectView::MarkRead { conversation_id: chat@ });
    }
}

/// Asking for the direct chat with a friend names that friend; nobody else can
/// be asked for.
pub proof fn friends_are_opened(
    pre: App,
    id: String,
    now: Now,
    post: App,
    fx: Seq<EffectView>,
    token: Seq<char>,
    k: int,
)
    requires
        step(pre, Message::Room(RoomMessage::OpenConversationWithFriend(id)), now, post, fx),
        online(pre, token),
    ensures
        post == pre,
        (forall|j: int|
            0 <= j < pre.social.friends@.len() ==> (#[trigger] pre.social.friends@[j]).user_id@
                != id@) ==> fx.len() == 0,
        0 <= k < pre.social.friends@.len() && pre.social.friends@[k].user_id@ == id@ && (forall|j: int|
            0 <= j < k ==> (#[trigger] pre.social.friends@[j]).user_id@ != id@) ==> changes(
            fx,
            token,
            "conversations:getOrCreateDirect"@,
            seq![text("friendUserId"@, id@)],
            Reply::ConversationOpened {
                title: pre.social.friends@[k].display_name,
                peer_id: pre.social.friends@[k].user_id,
            },
        ),
{
    broadcast use lemma_request;

    lemma_position(pre.social.friends@, id@);
    if 0 <= k < pre.social.friends@.len() && pre.social.friends@[k].user_id@ == id@ && (forall|j: int|
        0 <= j < k ==> (#[trigger] pre.social.friends@[j]).user_id@ != id@) {
        lemma_position_is(pre.social.friends@, id@, k);
    }
}

/// A group is made of the friends who were chosen and has the name that was
/// entered; without either nothing is asked for. Choosing a friend again takes
/// them out.
pub proof fn groups_are_made_of_the_chosen(
    pre: App,
    m: RoomMessage,
    now: Now,
    post: App,
    fx: Seq<EffectView>,
    token: Seq<char>,
    other: Seq<char>,
)
    requires
        step(pre, Message::Room(m), now, post, fx),
        online(pre, token),
    ensures
        m is CreateGroup && (trimmed(pre.groups.name_input@).len() == 0
            || pre.groups.selected.items@.len() == 0) ==> fx.len() == 0 && text_is(
            post.groups.status,
            "Enter a name and select at least one friend"@,
        ),
        m is CreateGroup && trimmed(pre.groups.name_input@).len() > 0
            && pre.groups.selected.items@.len() > 0 ==> post == pre && fx.len() == 1 && fx[0] is Call
            && ({
            let call = fx[0]->Call_0;
            &&& call.function == "conversations:createGroup"@
            &&& call.args.len() == 3
            &&& call.args.contains(text("sessionToken"@, token))
            &&& call.args.contains(text("name"@, trimmed(pre.groups.name_input@)))
            &&& call.args.contains(
                ("memberUserIds"@, ArgView::Strs(texts(pre.groups.selected.items@))),
            )
            &&& call.reply is GroupCreateFinished
            &&& call.reply->GroupCreateFinished_name@ == trimmed(pre.groups.name_input@)
        }),
        m is ToggleGroupMember ==> {
            let id = m->ToggleGroupMember_0@;
            &&& post.groups.selected@.contains(id) == !pre.groups.selected@.contains(id)
            &&& other != id ==> post.groups.selected@.contains(other)
                == pre.groups.selected@.contains(other)
            &&& post.groups.name_input == pre.groups.name_input
            &&& fx.len() == 0
        },
        m is GroupNameInputChanged ==> post.groups.name_input == m->GroupNameInputChanged_0
            && post.groups.selected == pre.groups.selected && fx.len() == 0,
        m is ToggleGroupPanel ==> post.groups.open == !pre.groups.open && post.groups.status is None
            && fx.len() == 0,
        m is OpenSupportDm ==> post == pre && fx.len() == 1 && fx[0] is Call && ({
            let call = fx[0]->Call_0;
            &&& call.function == "conversations:openSupportDm"@
            &&& call.args.len() == 2
            &&& call.args.contains(text("sessionToken"@, token))
            &&& call.args.contains(text("peerUserId"@, m->OpenSupportDm_0@))
            &&& call.reply is SupportDmOpened
            &&& call.reply->SupportDmOpened_peer_id == m->OpenSupportDm_0
            &&& pre.profile.viewing is Some ==> call.reply->SupportDmOpened_title@
                == pre.profile.viewing->0.display_name@
        }),
{
    broadcast use lemma_request;

    if m is CreateGroup && trimmed(pre.groups.name_input@).len() > 0
        && pre.groups.selected.items@.len() > 0 {
        let call = fx[0]->Call_0;
        let args = seq![
            text("name"@, trimmed(pre.groups.name_input@)),
            ("memberUserIds"@, ArgView::Strs(texts(pre.groups.selected.items@))),
        ];
        assert(call.args.contains(args[0]));
        assert(call.args.contains(args[1]));
    }
    if m is OpenSupportDm {
        let call = fx[0]->Call_0;
        let args = seq![text("peerUserId"@, m->OpenSupportDm_0@)];
        assert(call.args.contains(args[0]));
    }
}

/// Channels: what is asked for names the channel that was clicked, and moves
/// go the way that was clicked.
pub proof fn channel_buttons(
    pre: App,
    m: ChannelMessage,
    now: Now,
    post: App,
    fx: Seq<EffectView>,
    token: Seq<char>,
)
    requires
        step(pre, Message::Channel(m), now, post, fx),
        online(pre, token),
    ensures
        m is MoveChannelUp ==> post == pre && changes(
            fx,
            token,
            "channels:moveChannel"@,
            seq![
                text("conversationId"@, m->MoveChannelUp_0@),
                text("direction"@, "up"@),
            ],
            Reply::MoveChannelFinished,
        ),
        m is MoveChannelDown ==> post == pre && changes(
            fx,
            token,
            "channels:moveChannel"@,
            seq![
                text("conversationId"@, m->MoveChannelDown_0@),
                text("direction"@, "down"@),
            ],
            Reply::MoveChannelFinished,
        ),
        m is DeleteChannel ==> changes(
            fx,
            token,
            "servers:deleteChannel"@,
            seq![text("conversationId"@, m->DeleteChannel_0@)],
            Reply::DeleteChannelFinished,
        ),
        m is DeleteChannel && text_is(pre.place.conversation, m->DeleteChannel_0@)
            ==> post.place.conversation is None && post.chat.messages@.len() == 0,
        m is DeleteChannel && !text_is(pre.place.conversation, m->DeleteChannel_0@) ==> post == pre,
        m is CreateChannel ==> post == pre,
        m is CreateChannel && pre.servers.selected is Some && trimmed(
            pre.channels.new_name_input@,
        ).len() > 0 ==> changes_server(
            pre,
            fx,
            token,
            "servers:createChannel"@,
            seq![
                text("name"@, trimmed(pre.channels.new_name_input@)),
                text(
                    "channelType"@,
                    if pre.channels.new_is_voice {
                        "voice"@
                    } else {
                        "text"@
                    },
                ),
            ],
            Reply::CreateChannelFinished,
        ),
        m is CreateChannel && trimmed(pre.channels.new_name_input@).len() == 0 ==> fx.len() == 0,
        m is RenameChannel ==> post == pre,
        m is RenameChannel && pre.channels.renaming_id is Some && trimmed(
            pre.channels.rename_input@,
        ).len() > 0 ==> changes(
            fx,
            token,
            "servers:renameChannel"@,
            seq![
                text("conversationId"@, pre.channels.renaming_id->0@),
                text("name"@, trimmed(pre.channels.rename_input@)),
            ],
            Reply::RenameChannelFinished,
        ),
        m is RenameChannel && (pre.channels.renaming_id is None || trimmed(
            pre.channels.rename_input@,
        ).len() == 0) ==> fx.len() == 0,
        m is StartRenameChannel ==> post.channels.renaming_id == Some(m->StartRenameChannel_0)
            && post.channels.rename_input == m->StartRenameChannel_1 && fx.len() == 0,
        m is CancelRenameChannel ==> post.channels.renaming_id is None
            && post.channels.rename_input@.len() == 0 && fx.len() == 0,
        m is NewChannelIsVoice ==> post.channels.new_is_voice == m->NewChannelIsVoice_0,
        m is ToggleNewChannelIsVoice ==> post.channels.new_is_voice == !pre.channels.new_is_voice,
        m is ToggleNewChannelInput ==> post.channels.new_open == !pre.channels.new_open,
        m is NewChannelNameChanged ==> post.channels.new_name_input == m->NewChannelNameChanged_0,
        m is RenameChannelInputChanged ==> post.channels.rename_input
            == m->RenameChannelInputChanged_0,
        m is ChannelsUpdated ==> post.servers.channels == m->ChannelsUpdated_0,
        m is CreateChannelFinished && m->CreateChannelFinished_0 is Ok ==> !post.channels.new_open
            && post.channels.new_name_input@.len() == 0 && !post.channels.new_is_voice
            && post.servers.status is None,
        m is CreateChannelFinished && m->CreateChannelFinished_0 is Err ==> post.channels
            == pre.channels && post.servers.status == Some(m->CreateChannelFinished_0->Err_0),
        m is RenameChannelFinished && m->RenameChannelFinished_0 is Ok
            ==> post.channels.renaming_id is None && post.channels.rename_input@.len() == 0,
        m is RenameChannelFinished && m->RenameChannelFinished_0 is Err ==> post.channels
            == pre.channels && post.servers.status == Some(m->RenameChannelFinished_0->Err_0),
        m is DeleteChannelFinished ==> post.servers.status == m->DeleteChannelFinished_0.err(),
        m is MoveChannelFinished ==> post.servers.status == m->MoveChannelFinished_0.err(),
{
    broadcast use lemma_request;

}

/// Muting turns the switch of the open channel over, in its row as in what is
/// asked for, and no other row.
pub proof fn the_open_channel_is_muted(
    pre: App,
    now: Now,
    post: App,
    fx: Seq<EffectView>,
    token: Seq<char>,
    k: int,
    other: int,
)
    requires
        step(pre, Message::Channel(ChannelMessage::ToggleChannelMute), now, post, fx),
        online(pre, token),
        0 <= k < pre.servers.channels@.len(),
        text_is(pre.place.conversation, pre.servers.channels@[k].conversation_id@),
        forall|j: int|
            0 <= j < k ==> (#[trigger] pre.servers.channels@[j]).conversation_id@
                != pre.servers.channels@[k].conversation_id@,
        0 <= other < pre.servers.channels@.len(),
        other != k,
    ensures
        post.servers.channels@.len() == pre.servers.channels@.len(),
        post.servers.channels@[k].muted == !pre.servers.channels@[k].muted,
        post.servers.channels@[k].conversation_id == pre.servers.channels@[k].conversation_id,
        post.servers.channels@[k].name == pre.servers.channels@[k].name,
        post.servers.channels@[other] == pre.servers.channels@[other],
        changes(
            fx,
            token,
            "channels:setMute"@,
            seq![
                text("scope"@, "conversation"@),
                text("targetId"@, pre.servers.channels@[k].conversation_id@),
                switch("muted"@, post.servers.channels@[k].muted),
            ],
            Reply::ChannelMuteFinished { muted: post.servers.channels@[k].muted },
        ),
{
    broadcast use lemma_request;

    lemma_position_is(pre.servers.channels@, pre.servers.channels@[k].conversation_id@, k);
}

/// Voice rooms: joining is about the open chat, leaving about the room that we
/// are in, whatever chat is open; joining one ends a private call.
pub proof fn voice_rooms_are_joined_and_left(
    pre: App,
    m: VoiceMessage,
    now: Now,
    post: App,
    fx: Seq<EffectView>,
    token: Seq<char>,
)
    requires
        step(pre, Message::Voice(m), now, post, fx),
        online(pre, token),
    ensures
        m is JoinVoiceChannel ==> post == pre,
        m is JoinVoiceChannel && pre.place.conversation is Some ==> changes(
            fx,
            token,
            "voice:join"@,
            seq![text("conversationId"@, pre.place.conversation->0@)],
            Reply::VoiceJoined { conversation_id: pre.place.conversation->0 },
        ),
        m is JoinVoiceChannel && pre.place.conversation is None ==> fx.len() == 0,
        m is LeaveVoiceChannel ==> post.voice.active_channel is None && post.voice.room_status is None
            && post.voice.users@.len() == 0,
        m is LeaveVoiceChannel && pre.voice.active_channel is Some ==> changes(
            fx,
            token,
            "voice:leave"@,
            seq![text("conversationId"@, pre.voice.active_channel->0@)],
            Reply::VoiceLeft,
        ),
        m is LeaveVoiceChannel && pre.voice.active_channel is None ==> changes(
            fx,
            token,
            "voice:leave"@,
            seq![],
            Reply::VoiceLeft,
        ),
        m is VoiceActionFinished && m->VoiceActionFinished_0 is Ok
            && m->VoiceActionFinished_0->Ok_0 is Some ==> post.voice.active_channel
            == m->VoiceActionFinished_0->Ok_0 && post.calls.role is None && fx.len() == 0,
        m is VoiceActionFinished && m->VoiceActionFinished_0 is Ok
            && m->VoiceActionFinished_0->Ok_0 is None ==> post.voice.active_channel
            == pre.voice.active_channel && post.voice.room_status is None && post.calls == pre.calls,
        m is VoiceActionFinished && m->VoiceActionFinished_0 is Err ==> post.servers.status == Some(
            m->VoiceActionFinished_0->Err_0,
        ) && post.voice.active_channel == pre.voice.active_channel && post.calls == pre.calls,
        m is VoiceUsersUpdated ==> post.voice.users == m->VoiceUsersUpdated_0
            && post.voice.active_channel == pre.voice.active_channel,
{
    broadcast use lemma_request;

}

/// What the engine of a voice room reports is shown.
pub proof fn the_room_is_reported(
    pre: App,
    ev: RoomVoiceEvent,
    now: Now,
    post: App,
    fx: Seq<EffectView>,
)
    requires
        step(pre, Message::Voice(VoiceMessage::RoomVoiceEngineEvent(ev)), now, post, fx),
    ensures
        fx.len() == 0,
        post.voice.active_channel == pre.voice.active_channel,
        ev is Connecting ==> text_is(post.voice.room_status, "Connecting voice…"@),
        ev is Connected ==> text_is(post.voice.room_status, "Voice connected"@),
        ev is Status ==> post.voice.room_status == Some(ev->Status_0),
        ev is Failed ==> post.voice.room_status == Some(ev->Failed_0) && post.chat.error == Some(
            ev->Failed_0,
        ),
        ev is Ended && pre.voice.active_channel is None ==> post.voice.room_status is None,
        ev is Ended && pre.voice.active_channel is Some ==> post.voice.room_status
            == pre.voice.room_status,
        !(ev is Failed) ==> post.chat == pre.chat,
{
}

/// The volume of one person is kept under their id, brought into the range
/// from silence to five times as loud, and nobody else's changes. The bits are
/// those of a floating point number; what lies in the range stays as it is.
pub proof fn volumes_stay_in_range(
    pre: App,
    id: String,
    bits: u32,
    now: Now,
    post: App,
    fx: Seq<EffectView>,
    other: Seq<char>,
)
    requires
        step(pre, Message::Voice(VoiceMessage::VoiceVolumeChanged(id, bits)), now, post, fx),
        other != id@,
    ensures
        post.audio.voice_gains@.contains_key(id@),
        bits <= 0x40A0_0000 ==> post.audio.voice_gains@[id@] == bits,
        0x40A0_0000 < bits <= 0x7F80_0000 ==> post.audio.voice_gains@[id@] == 0x40A0_0000,
        0x8000_0000 < bits <= 0xFF80_0000 ==> post.audio.voice_gains@[id@] == 0,
        clamped_gain(post.audio.voice_gains@[id@]) == post.audio.voice_gains@[id@],
        post.audio.voice_gains@.contains_key(other) <==> pre.audio.voice_gains@.contains_key(other),
        pre.audio.voice_gains@.contains_key(other) ==> post.audio.voice_gains@[other]
            == pre.audio.voice_gains@[other],
        fx == seq![EffectView::PersistSettings],
{
}

} // verus!
