//! What is said in passing.

use crate::state::app::{App, Now};
use crate::state::effect::EffectView;
use crate::state::message::{Message, ServerMessage, SocialMessage};
use crate::state::update::step;
use crate::text::digits;
use vstd::prelude::*;

verus! {

/// A toast with this text begins now.
pub open spec fn said_now(app: App, words: Seq<char>, now: Now) -> bool {
    app.toast is Some && {
        let (shown, since) = app.toast->0;
        shown@ == words && since == now.tick_ms
    }
}

/// What is said of friends is what happened: a favorite was added or removed,
/// so many requests were answered, someone was blocked, or why not.
pub proof fn said_of_friends(pre: App, m: SocialMessage, now: Now, post: App, fx: Seq<EffectView>)
    requires
        step(pre, Message::Social(m), now, post, fx),
    ensures
        m is FavoriteToggled && m->FavoriteToggled_0 is Ok && (m->FavoriteToggled_0->Ok_0).1
            ==> said_now(post, "Added to favorites"@, now),
        m is FavoriteToggled && m->FavoriteToggled_0 is Ok && !(m->FavoriteToggled_0->Ok_0).1
            ==> said_now(post, "Removed from favorites"@, now),
        m is RespondAllFinished && m->RespondAllFinished_0 is Ok ==> said_now(
            post,
            "Updated "@ + digits(m->RespondAllFinished_0->Ok_0 as nat) + " request(s)"@,
            now,
        ),
        m is RespondAllFinished && m->RespondAllFinished_0 is Err ==> post.social.add_friend_status
            == Some(m->RespondAllFinished_0->Err_0),
        m is FriendRequestFinished && m->FriendRequestFinished_0 is Ok ==> said_now(
            post,
            "Friend request sent"@,
            now,
        ),
        m is ProfileFriendRequestFinished && m->ProfileFriendRequestFinished_0 is Ok ==> said_now(
            post,
            "Friend request sent"@,
            now,
        ),
        m is ProfileFriendRequestFinished && m->ProfileFriendRequestFinished_0 is Err ==> said_now(
            post,
            m->ProfileFriendRequestFinished_0->Err_0@,
            now,
        ),
        m is RequestRespondFinished && m->RequestRespondFinished_0 is Ok ==> said_now(
            post,
            "Friend request updated"@,
            now,
        ),
        m is CancelOutgoingFinished && m->CancelOutgoingFinished_0 is Ok ==> said_now(
            post,
            "Request cancelled"@,
            now,
        ),
        m is BlockFinished && m->BlockFinished_0 is Ok ==> said_now(post, "User blocked"@, now),
        m is BlockFinished && m->BlockFinished_0 is Err ==> said_now(
            post,
            m->BlockFinished_0->Err_0@,
            now,
        ),
        m is PeopleSearchFinished && m->PeopleSearchFinished_0 is Err
            ==> post.social.add_friend_status == Some(m->PeopleSearchFinished_0->Err_0),
{
}

/// What is said of servers and channels is what happened there; a new icon is
/// fetched anew, and without one nothing is.
pub proof fn said_of_servers(
    pre: App,
    m: ServerMessage,
    now: Now,
    post: App,
    fx: Seq<EffectView>,
    other: Seq<char>,
)
    requires
        step(pre, Message::Server(m), now, post, fx),
    ensures
        m is CustomSlugFinished && m->CustomSlugFinished_0 is Ok
            && m->CustomSlugFinished_0->Ok_0@.len() == 0 ==> said_now(
            post,
            "Custom URL cleared"@,
            now,
        ),
        m is CustomSlugFinished && m->CustomSlugFinished_0 is Ok
            && m->CustomSlugFinished_0->Ok_0@.len() > 0 ==> said_now(
            post,
            "URL set: /"@ + m->CustomSlugFinished_0->Ok_0@,
            now,
        ),
        m is RenameServerFinished && m->RenameServerFinished_0 is Ok ==> said_now(
            post,
            "Server name updated"@,
            now,
        ),
        m is CreateServerFinished && m->CreateServerFinished_0 is Ok ==> said_now(
            post,
            "Server created"@,
            now,
        ),
        m is JoinServerFinished && m->JoinServerFinished_0 is Ok ==> said_now(
            post,
            "Joined server"@,
            now,
        ),
        m is ServerIconRemoveFinished && m->ServerIconRemoveFinished_0 is Ok ==> said_now(
            post,
            "Server icon removed"@,
            now,
        ) && post.images == pre.images,
        m is ServerIconUploadFinished && m->ServerIconUploadFinished_0 is Ok ==> {
            let url = m->ServerIconUploadFinished_0->Ok_0@;
            &&& said_now(post, "Server icon updated"@, now)
            &&& url.len() > 0 ==> fx == seq![EffectView::FetchImage { url, key: None, nonce: None }]
                && !post.images@.contains_key(url)
            &&& url.len() == 0 ==> fx.len() == 0
            &&& other != url || url.len() == 0 ==> (post.images@.contains_key(other)
                <==> pre.images@.contains_key(other))
        },
        m is ToggleServerSettings && post.servers.settings_open ==> !post.channels.new_open
            && post.channels.new_name_input@.len() == 0 && !post.channels.new_is_voice
            && post.channels.renaming_id is None,
        m is ToggleServerSettings && !post.servers.settings_open ==> post.channels.new_open
            == pre.channels.new_open && post.channels.new_name_input == pre.channels.new_name_input
            && post.channels.renaming_id is None && post.servers.rename_input
            == pre.servers.rename_input && post.servers.description_input
            == pre.servers.description_input,
{
}

/// What is said of the rest is what happened.
pub proof fn said_of_the_rest(pre: App, m: Message, now: Now, post: App, fx: Seq<EffectView>)
    requires
        step(pre, m, now, post, fx),
    ensures
        m is Channel && m->Channel_0 is ChannelMuteFinished && m->Channel_0->ChannelMuteFinished_0
            is Ok && m->Channel_0->ChannelMuteFinished_0->Ok_0 ==> said_now(
            post,
            "Channel muted"@,
            now,
        ),
        m is Channel && m->Channel_0 is ChannelMuteFinished && m->Channel_0->ChannelMuteFinished_0
            is Ok && !m->Channel_0->ChannelMuteFinished_0->Ok_0 ==> said_now(
            post,
            "Channel unmuted"@,
            now,
        ),
        m is Channel && m->Channel_0 is ChannelMuteFinished && m->Channel_0->ChannelMuteFinished_0
            is Err ==> post.chat.error == Some(m->Channel_0->ChannelMuteFinished_0->Err_0),
        m is Prefs && m->Prefs_0 is StoreHistoryGlobalFinished
            && m->Prefs_0->StoreHistoryGlobalFinished_0 is Ok ==> said_now(
            post,
            if m->Prefs_0->StoreHistoryGlobalFinished_0->Ok_0 {
                "Chat history storage: ON"@
            } else {
                "Chat history storage: OFF (ephemeral)"@
            },
            now,
        ),
        m is Prefs && m->Prefs_0 is StoreHistoryChatFinished
            && m->Prefs_0->StoreHistoryChatFinished_0 is Ok ==> said_now(
            post,
            if m->Prefs_0->StoreHistoryChatFinished_0->Ok_0 {
                "This chat: history ON"@
            } else {
                "This chat: history OFF"@
            },
            now,
        ),
        m is Prefs && m->Prefs_0 is SignOutOthersFinished && m->Prefs_0->SignOutOthersFinished_0 is Ok
            ==> said_now(
            post,
            "Signed out "@ + digits(m->Prefs_0->SignOutOthersFinished_0->Ok_0 as nat)
                + " other session(s)"@,
            now,
        ),
        m is Voice && m->Voice_0 is VoiceActionFinished && m->Voice_0->VoiceActionFinished_0 is Ok
            ==> said_now(
            post,
            if m->Voice_0->VoiceActionFinished_0->Ok_0 is Some {
                "Joined voice — mesh connecting"@
            } else {
                "Left voice"@
            },
            now,
        ),
        m is Compose && m->Compose_0 is CopyMessage ==> said_now(post, "Copied to clipboard"@, now),
        m is Compose && m->Compose_0 is EditFinished && m->Compose_0->EditFinished_0 is Ok
            ==> said_now(post, "Message updated"@, now),
        m is Compose && m->Compose_0 is MessageReportFinished
            && m->Compose_0->MessageReportFinished_0 is Ok ==> said_now(
            post,
            "Reported to staff"@,
            now,
        ),
        m is Compose && m->Compose_0 is ClearChatFinished && m->Compose_0->ClearChatFinished_0 is Ok
            ==> said_now(post, m->Compose_0->ClearChatFinished_0->Ok_0@, now),
        m is Palette && m->Palette_0 is CommandPaletteSearchFinished
            && m->Palette_0->CommandPaletteSearchFinished_0 is Err ==> said_now(
            post,
            m->Palette_0->CommandPaletteSearchFinished_0->Err_0@,
            now,
        ),
{
}

} // verus!
