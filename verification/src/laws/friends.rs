//! Friends, and requests to become one.

use crate::laws::asked::{changes, lemma_request, looks_up, offline, online, switch, text};
use crate::state::app::{fetches, mutation, plain_jobs, App, ImageJobView, Now};
use crate::state::peers::{direct_with, is_direct_with};
use crate::state::effect::{EffectView, PeerCmdView, Reply};
use crate::state::keyed::{lemma_position, lemma_position_is, position};
use crate::state::message::{Message, SocialMessage};
use crate::state::social::{
    announce_request, ended, fetch_pictures, first_new, missing_directs, online_id, pictures,
    request_text, stale_peers,
};
use crate::state::types::{ConversationSummary, Friend, IncomingRequest};
use crate::state::update::step;
use crate::text::{ascii_lower_text, lowercase, stripped_start, text_is, trimmed, Strip};
use vstd::prelude::*;

verus! {

/// What the answers to requests ask for: each answer goes to the request that
/// was clicked, and says what was clicked.
pub proof fn answers_say_what_was_clicked(
    pre: App,
    m: SocialMessage,
    now: Now,
    post: App,
    fx: Seq<EffectView>,
    token: Seq<char>,
)
    requires
        step(pre, Message::Social(m), now, post, fx),
        online(pre, token),
    ensures
        m is RespondRequest ==> post == pre && changes(
            fx,
            token,
            "friends:respondRequest"@,
            seq![
                text("requestId"@, m->RespondRequest_0@),
                switch("accept"@, m->RespondRequest_1),
            ],
            Reply::RequestRespondFinished,
        ),
        m is RespondAllIncoming ==> post == pre && changes(
            fx,
            token,
            "friends:respondAllIncoming"@,
            seq![switch("accept"@, m->RespondAllIncoming_0)],
            Reply::RespondAllFinished,
        ),
        m is CancelOutgoingRequest ==> post == pre && changes(
            fx,
            token,
            "friends:cancelRequest"@,
            seq![text("requestId"@, m->CancelOutgoingRequest_0@)],
            Reply::CancelOutgoingFinished,
        ),
{
    broadcast use lemma_request;

}

/// What the buttons at a person ask for: each names that person.
pub proof fn friend_buttons(
    pre: App,
    m: SocialMessage,
    now: Now,
    post: App,
    fx: Seq<EffectView>,
    token: Seq<char>,
)
    requires
        step(pre, Message::Social(m), now, post, fx),
        online(pre, token),
    ensures
        m is RemoveFriend ==> post == pre && changes(
            fx,
            token,
            "friends:removeFriend"@,
            seq![text("friendUserId"@, m->RemoveFriend_0@)],
            Reply::RemoveFriendFinished,
        ),
        m is BlockUser ==> changes(
            fx,
            token,
            "friends:blockUser"@,
            seq![text("userId"@, m->BlockUser_0@)],
            Reply::BlockFinished,
        ) && post.social.confirm_block_user_id is None && post.social.friends == pre.social.friends,
        m is UnblockUser ==> post == pre && changes(
            fx,
            token,
            "friends:unblockUser"@,
            seq![text("userId"@, m->UnblockUser_0@)],
            Reply::UnblockFinished,
        ),
        m is ToggleFavorite ==> post == pre && changes(
            fx,
            token,
            "friends:toggleFavorite"@,
            seq![text("friendUserId"@, m->ToggleFavorite_0@)],
            Reply::FavoriteToggled { friend_id: m->ToggleFavorite_0 },
        ),
        m is SendFriendRequestToUser && !pre.social.friend_request_busy ==> changes(
            fx,
            token,
            "friends:sendRequest"@,
            seq![text("toUsername"@, m->SendFriendRequestToUser_0@)],
            Reply::ProfileFriendRequestFinished,
        ) && post.social.friend_request_busy,
        m is SendFriendRequestToUser && pre.social.friend_request_busy ==> post == pre && fx.len()
            == 0,
        m is ConfirmBlockUser ==> post.social.confirm_block_user_id == Some(m->ConfirmBlockUser_0)
            && fx.len() == 0,
        m is CancelBlockUser ==> post.social.confirm_block_user_id is None && fx.len() == 0,
        m is SetFriendsFilter ==> post.social.friends_filter == m->SetFriendsFilter_0 && fx.len()
            == 0,
        m is FriendsFilterChanged ==> post.social.friends_filter_input == m->FriendsFilterChanged_0
            && fx.len() == 0,
{
    broadcast use lemma_request;

}

/// Without a connection or a session nothing is asked for.
pub proof fn nothing_is_asked_offline(
    pre: App,
    m: SocialMessage,
    now: Now,
    post: App,
    fx: Seq<EffectView>,
)
    requires
        step(pre, Message::Social(m), now, post, fx),
        offline(pre),
        m is RespondRequest || m is RespondAllIncoming || m is CancelOutgoingRequest
            || m is RemoveFriend || m is BlockUser || m is UnblockUser || m is ToggleFavorite
            || m is SendFriendRequest || m is SendFriendRequestToUser || m is CyclePresenceStatus
            || m is CycleFriendRequestPrivacy,
    ensures
        fx.len() == 0,
        post == pre,
{
    broadcast use lemma_request;

}

/// The name that is asked for: lower case, without the space around it or the
/// `@` in front.
pub open spec fn asked_name(input: Seq<char>) -> Seq<char> {
    lowercase(stripped_start(trimmed(input), Strip::Only('@')))
}

/// A friend request goes to the name that was entered, with the note where one
/// was written; not to nobody, to someone who is a friend already, to
/// ourselves, or while another is on its way.
pub proof fn requests_go_to_strangers(
    pre: App,
    now: Now,
    post: App,
    fx: Seq<EffectView>,
    token: Seq<char>,
)
    requires
        step(pre, Message::Social(SocialMessage::SendFriendRequest), now, post, fx),
        online(pre, token),
    ensures
        ({
            let name = asked_name(pre.social.add_friend_input@);
            let note = trimmed(pre.social.add_friend_note@);
            let is_friend = exists|i: int|
                0 <= i < pre.social.friends@.len() && ascii_lower_text(
                    (#[trigger] pre.social.friends@[i]).username@,
                ) == ascii_lower_text(name);
            let is_us = ascii_lower_text(pre.session->0.username@) == ascii_lower_text(name);
            let refused = pre.social.friend_request_busy || name.len() == 0 || is_friend || is_us;
            &&& refused ==> fx.len() == 0 && post.social.friend_request_busy
                == pre.social.friend_request_busy && post.social.add_friend_input
                == pre.social.add_friend_input
            &&& !pre.social.friend_request_busy && name.len() == 0 ==> text_is(
                post.social.add_friend_status,
                "Enter a username"@,
            )
            &&& !pre.social.friend_request_busy && name.len() > 0 && is_friend ==> text_is(
                post.social.add_friend_status,
                "You're already friends"@,
            )
            &&& !pre.social.friend_request_busy && name.len() > 0 && !is_friend && is_us ==> text_is(
                post.social.add_friend_status,
                "You can't add yourself"@,
            )
            &&& !refused ==> post.social.friend_request_busy && changes(
                fx,
                token,
                "friends:sendRequest"@,
                if note.len() == 0 {
                    seq![text("toUsername"@, name)]
                } else {
                    seq![text("toUsername"@, name), text("note"@, note)]
                },
                Reply::FriendRequestFinished,
            )
        }),
{
    broadcast use lemma_request;

}

/// What is typed into the search: two characters or more are looked for, less
/// shows nobody; notes longer than two hundred characters are not taken over.
pub proof fn people_are_looked_for(
    pre: App,
    m: SocialMessage,
    now: Now,
    post: App,
    fx: Seq<EffectView>,
    token: Seq<char>,
)
    requires
        step(pre, Message::Social(m), now, post, fx),
        online(pre, token),
    ensures
        m is AddFriendInputChanged ==> {
            let name = stripped_start(trimmed(m->AddFriendInputChanged_0@), Strip::Only('@'));
            &&& post.social.add_friend_input == m->AddFriendInputChanged_0
            &&& name.len() >= 2 ==> looks_up(
                fx,
                token,
                "friends:searchPeople"@,
                seq![text("query"@, name)],
                Reply::PeopleSearchFinished,
            )
            &&& name.len() < 2 ==> fx.len() == 0 && post.social.people_hits@.len() == 0
        },
        m is AddFriendNoteChanged ==> fx.len() == 0 && (m->AddFriendNoteChanged_0@.len() <= 200
            ==> post.social.add_friend_note == m->AddFriendNoteChanged_0) && (
        m->AddFriendNoteChanged_0@.len() > 200 ==> post == pre),
        m is PeopleSearchFinished && m->PeopleSearchFinished_0 is Ok ==> post.social.people_hits
            == m->PeopleSearchFinished_0->Ok_0,
{
    broadcast use lemma_request;

}

/// Outcomes: the form is free again and empty after a success; a failure says
/// why and keeps what was entered.
pub proof fn request_outcomes(
    pre: App,
    m: SocialMessage,
    now: Now,
    post: App,
    fx: Seq<EffectView>,
)
    requires
        step(pre, Message::Social(m), now, post, fx),
    ensures
        m is FriendRequestFinished ==> {
            &&& !post.social.friend_request_busy
            &&& fx.len() == 0
            &&& m->FriendRequestFinished_0 is Ok ==> post.social.add_friend_input@.len() == 0
                && post.social.add_friend_note@.len() == 0
            &&& m->FriendRequestFinished_0 is Err ==> post.social.add_friend_status == Some(
                m->FriendRequestFinished_0->Err_0,
            ) && post.social.add_friend_input == pre.social.add_friend_input
        },
        m is ProfileFriendRequestFinished ==> !post.social.friend_request_busy && post.toast is Some
            && fx.len() == 0,
        m is RequestRespondFinished && m->RequestRespondFinished_0 is Err
            ==> post.social.add_friend_status == Some(m->RequestRespondFinished_0->Err_0),
        m is CancelOutgoingFinished && m->CancelOutgoingFinished_0 is Err
            ==> post.social.add_friend_status == Some(m->CancelOutgoingFinished_0->Err_0),
        m is RemoveFriendFinished && m->RemoveFriendFinished_0 is Err
            ==> post.social.add_friend_status == Some(m->RemoveFriendFinished_0->Err_0),
        m is FavoriteToggled && m->FavoriteToggled_0 is Err ==> post.social.add_friend_status
            == Some(m->FavoriteToggled_0->Err_0) && post.social.friends == pre.social.friends,
        m is BlockFinished && m->BlockFinished_0 is Err ==> post.toast is Some && {
            let (shown, at) = post.toast->0;
            shown@ == m->BlockFinished_0->Err_0@
        },
        m is BlockedUpdated ==> post.social.blocked == m->BlockedUpdated_0,
        m is SuggestionsUpdated ==> post.social.suggestions == m->SuggestionsUpdated_0,
        m is OutgoingRequestsUpdated ==> post.social.outgoing_requests
            == m->OutgoingRequestsUpdated_0,
        m is SocialStatsUpdated ==> post.social.social_stats == m->SocialStatsUpdated_0,
{
}

/// A favorite is marked at the friend whom the server named, as the server
/// said, and at nobody else; nothing else of the friend changes.
pub proof fn favorites_are_marked_where_they_belong(
    pre: App,
    id: String,
    favorite: bool,
    now: Now,
    post: App,
    fx: Seq<EffectView>,
    k: int,
)
    requires
        step(
            pre,
            Message::Social(SocialMessage::FavoriteToggled(Ok((id, favorite)))),
            now,
            post,
            fx,
        ),
        0 <= k < pre.social.friends@.len(),
        forall|j: int|
            0 <= j < k ==> (#[trigger] pre.social.friends@[j]).user_id@
                != pre.social.friends@[k].user_id@,
    ensures
        post.social.friends@.len() == pre.social.friends@.len(),
        pre.social.friends@[k].user_id@ == id@ ==> post.social.friends@[k].favorite == favorite,
        pre.social.friends@[k].user_id@ != id@ ==> post.social.friends@[k] == pre.social.friends@[k],
        post.social.friends@[k].user_id == pre.social.friends@[k].user_id,
        post.social.friends@[k].nickname == pre.social.friends@[k].nickname,
        post.social.friends@[k].presence == pre.social.friends@[k].presence,
        fx.len() == 0,
{
    lemma_position(pre.social.friends@, id@);
    if pre.social.friends@[k].user_id@ == id@ {
        lemma_position_is(pre.social.friends@, id@, k);
    }
}

/// Our presence and who may ask us go round, and what they change to is what
/// is asked for.
pub proof fn presence_is_what_is_asked_for(
    pre: App,
    m: SocialMessage,
    now: Now,
    post: App,
    fx: Seq<EffectView>,
    token: Seq<char>,
)
    requires
        step(pre, Message::Social(m), now, post, fx),
        online(pre, token),
    ensures
        m is CyclePresenceStatus ==> {
            &&& post.session is Some
            &&& changes(
                fx,
                token,
                "friends:setPresenceStatus"@,
                seq![text("status"@, post.session->0.presence_status@)],
                Reply::PrivacyFlagFinished,
            )
            &&& post.session->0.token == pre.session->0.token
            &&& post.session->0.user_id == pre.session->0.user_id
            &&& post.session->0.friend_request_privacy == pre.session->0.friend_request_privacy
            &&& ({
                let was = pre.session->0.presence_status@;
                let is = post.session->0.presence_status@;
                &&& was == "online"@ ==> is == "idle"@
                &&& was == "idle"@ ==> is == "dnd"@
                &&& was == "dnd"@ ==> is == "invisible"@
                &&& was == "invisible"@ ==> is == "online"@
                &&& was != is
            })
        },
        m is CycleFriendRequestPrivacy ==> {
            &&& post.session is Some
            &&& changes(
                fx,
                token,
                "prefs:setPrivacyFlags"@,
                seq![text("friendRequestPrivacy"@, post.session->0.friend_request_privacy@)],
                Reply::PrivacyFlagFinished,
            )
            &&& post.session->0.token == pre.session->0.token
            &&& post.session->0.presence_status == pre.session->0.presence_status
            &&& ({
                let was = pre.session->0.friend_request_privacy@;
                let is = post.session->0.friend_request_privacy@;
                &&& was == "everyone"@ ==> is == "mutual_servers"@
                &&& was == "mutual_servers"@ ==> is == "nobody"@
                &&& was == "nobody"@ ==> is == "everyone"@
                &&& was != is
            })
        },
{
    broadcast use lemma_request;

    reveal_strlit("online");
    reveal_strlit("idle");
    reveal_strlit("dnd");
    reveal_strlit("invisible");
    reveal_strlit("everyone");
    reveal_strlit("mutual_servers");
    reveal_strlit("nobody");
    assert("online"@.len() == 6 && "idle"@.len() == 4 && "dnd"@.len() == 3 && "invisible"@.len()
        == 9);
    assert("everyone"@.len() == 8 && "mutual_servers"@.len() == 14 && "nobody"@.len() == 6);
}

/// A friend of the list with this id counts as online: by their presence, or
/// because they were seen in the last minute and a half.
pub open spec fn counts_as_online(friends: Seq<Friend>, id: Seq<char>, now: Now) -> bool {
    exists|i: int|
        {
            &&& 0 <= i < friends.len()
            &&& (#[trigger] friends[i]).user_id@ == id
            &&& here(friends[i], now)
        }
}

/// The friend is online, idle, not to be disturbed, or was just seen.
pub open spec fn here(f: Friend, now: Now) -> bool {
    ||| f.presence@ == "online"@
    ||| f.presence@ == "idle"@
    ||| f.presence@ == "dnd"@
    ||| f.last_seen_at > 0 && now.unix_ms - f.last_seen_at < 90_000
}

/// One of the chats is the direct chat with this person.
pub open spec fn has_direct_chat(chats: Seq<ConversationSummary>, id: Seq<char>) -> bool {
    exists|i: int|
        0 <= i < chats.len() && (#[trigger] chats[i]).kind@ == "direct"@ && text_is(
            chats[i].peer_user_id,
            id,
        )
}

/// The same entry is under a key in both maps, or none in either.
pub open spec fn same_under<V>(a: Map<Seq<char>, V>, b: Map<Seq<char>, V>, key: Seq<char>) -> bool {
    (a.contains_key(key) <==> b.contains_key(key)) && (a.contains_key(key) ==> a[key] == b[key])
}

proof fn lemma_direct(chats: Seq<ConversationSummary>, id: Seq<char>)
    ensures
        direct_with(chats, id) is Some <==> has_direct_chat(chats, id),
    decreases chats.len(),
{
    if chats.len() > 0 {
        let t = chats.drop_last();
        lemma_direct(t, id);
        if has_direct_chat(t, id) {
            let i = choose|i: int|
                0 <= i < t.len() && (#[trigger] t[i]).kind@ == "direct"@ && text_is(
                    t[i].peer_user_id,
                    id,
                );
            assert(chats[i].kind@ == "direct"@);
        }
        if has_direct_chat(chats, id) {
            let i = choose|i: int|
                0 <= i < chats.len() && (#[trigger] chats[i]).kind@ == "direct"@ && text_is(
                    chats[i].peer_user_id,
                    id,
                );
            if i < t.len() {
                assert(t[i].kind@ == "direct"@);
            }
        }
        if is_direct_with(chats.last(), id) {
            assert(chats[chats.len() - 1].kind@ == "direct"@);
        }
    }
}

/// The effect asks for a direct chat with this person, and for nothing else.
pub open spec fn asks_for_direct(e: EffectView, token: Seq<char>, id: Seq<char>) -> bool {
    changes(
        seq![e],
        token,
        "conversations:getOrCreateDirect"@,
        seq![text("friendUserId"@, id)],
        Reply::DirectConversationEnsured,
    )
}

/// The friend is here and has no direct chat with us yet.
pub open spec fn wants_direct(app: App, f: Friend, now: Now) -> bool {
    here(f, now) && !has_direct_chat(app.inbox.conversations@, f.user_id@)
}

proof fn lemma_asks_for(app: App, id: Seq<char>, token: Seq<char>)
    requires
        online(app, token),
    ensures
        ({
            let one = mutation(
                app,
                "conversations:getOrCreateDirect"@,
                seq![text("friendUserId"@, id)],
                Reply::DirectConversationEnsured,
            );
            one.len() == 1 && asks_for_direct(one[0], token, id)
        }),
{
    broadcast use lemma_request;

    let one = mutation(
        app,
        "conversations:getOrCreateDirect"@,
        seq![text("friendUserId"@, id)],
        Reply::DirectConversationEnsured,
    );
    assert(seq![one[0]] =~= one);
}

proof fn lemma_missing(app: App, friends: Seq<Friend>, now: Now, token: Seq<char>, k: int)
    requires
        online(app, token),
        0 <= k < friends.len(),
        here(friends[k], now),
        !has_direct_chat(app.inbox.conversations@, friends[k].user_id@),
    ensures
        exists|i: int|
            0 <= i < missing_directs(app, friends, now).len() && asks_for_direct(
                #[trigger] missing_directs(app, friends, now)[i],
                token,
                friends[k].user_id@,
            ),
    decreases friends.len(),
{
    let t = friends.drop_last();
    let before = missing_directs(app, t, now);
    let all = missing_directs(app, friends, now);
    if k < t.len() {
        lemma_missing(app, t, now, token, k);
        let i = choose|i: int|
            0 <= i < before.len() && asks_for_direct(#[trigger] before[i], token, t[k].user_id@);
        assert(all[i] == before[i]);
    } else {
        lemma_direct(app.inbox.conversations@, friends[k].user_id@);
        lemma_asks_for(app, friends[k].user_id@, token);
        assert(asks_for_direct(all[before.len() as int], token, friends[k].user_id@));
    }
}

proof fn lemma_asked(app: App, friends: Seq<Friend>, now: Now, token: Seq<char>, i: int)
    requires
        online(app, token),
        0 <= i < missing_directs(app, friends, now).len(),
    ensures
        exists|k: int|
            0 <= k < friends.len() && wants_direct(app, #[trigger] friends[k], now)
                && asks_for_direct(
                missing_directs(app, friends, now)[i],
                token,
                friends[k].user_id@,
            ),
    decreases friends.len(),
{
    if friends.len() > 0 {
        let t = friends.drop_last();
        let f = friends.last();
        let before = missing_directs(app, t, now);
        let all = missing_directs(app, friends, now);
        if i < before.len() {
            lemma_asked(app, t, now, token, i);
            assert(all[i] == before[i]);
            let k = choose|k: int|
                0 <= k < t.len() && wants_direct(app, #[trigger] t[k], now) && asks_for_direct(
                    before[i],
                    token,
                    t[k].user_id@,
                );
            assert(friends[k] == t[k]);
        } else {
            lemma_direct(app.inbox.conversations@, f.user_id@);
            lemma_asks_for(app, f.user_id@, token);
            assert(wants_direct(app, friends[friends.len() - 1], now));
        }
    }
}

proof fn lemma_ended(order: Seq<Seq<char>>, gone: Set<Seq<char>>, id: Seq<char>)
    ensures
        ended(order, gone).contains(
            EffectView::SendPeerCmd { peer_id: id, cmd: PeerCmdView::Shutdown },
        ) <==> order.contains(id) && gone.contains(id),
        forall|i: int|
            0 <= i < ended(order, gone).len() ==> (#[trigger] ended(order, gone)[i]) is SendPeerCmd,
    decreases order.len(),
{
    if order.len() > 0 {
        let t = order.drop_last();
        lemma_ended(t, gone, id);
        let before = ended(t, gone);
        let all = ended(order, gone);
        let e = EffectView::SendPeerCmd { peer_id: id, cmd: PeerCmdView::Shutdown };
        if all.contains(e) {
            let i = choose|i: int| 0 <= i < all.len() && all[i] == e;
            if i < before.len() {
                assert(before[i] == e);
                assert(before.contains(e));
                let j = choose|j: int| 0 <= j < t.len() && t[j] == id;
                assert(order[j] == id);
            } else {
                assert(order[order.len() - 1] == id);
            }
        }
        if order.contains(id) && gone.contains(id) {
            let j = choose|j: int| 0 <= j < order.len() && order[j] == id;
            if j < t.len() {
                assert(t[j] == id);
                assert(t.contains(id));
                assert(before.contains(e));
                let i = choose|i: int| 0 <= i < before.len() && before[i] == e;
                assert(all[i] == e);
            } else {
                assert(all[all.len() - 1] == e);
            }
        }
    }
}

proof fn lemma_only_fetches(images: Map<Seq<char>, Vec<u8>>, jobs: Seq<ImageJobView>)
    ensures
        forall|i: int|
            0 <= i < fetches(images, jobs).len() ==> (#[trigger] fetches(images, jobs)[i]) is FetchImage,
    decreases jobs.len(),
{
    if jobs.len() > 0 {
        lemma_only_fetches(images, jobs.drop_last());
    }
}

/// A fresh friends list is shown as it is. The live channel of a friend who
/// counts as online stays untouched; that of anyone else is told to end, and
/// all that is known of it is forgotten.
pub proof fn channels_follow_the_friends_list(
    pre: App,
    friends: Vec<Friend>,
    now: Now,
    post: App,
    fx: Seq<EffectView>,
    id: Seq<char>,
)
    requires
        step(pre, Message::Social(SocialMessage::FriendsUpdated(friends)), now, post, fx),
    ensures
        post.social.friends == friends,
        post.chat == pre.chat,
        post.composer == pre.composer,
        counts_as_online(friends@, id, now) ==> {
            &&& same_under(pre.peers.channels@, post.peers.channels@, id)
            &&& same_under(pre.peers.connected@, post.peers.connected@, id)
            &&& same_under(pre.peers.status@, post.peers.status@, id)
            &&& same_under(pre.peers.sas@, post.peers.sas@, id)
            &&& same_under(pre.peers.live@, post.peers.live@, id)
        },
        !counts_as_online(friends@, id, now) ==> {
            &&& !post.peers.channels@.contains_key(id)
            &&& !post.peers.connected@.contains_key(id)
            &&& !post.peers.status@.contains_key(id)
            &&& pre.peers.channels@.contains_key(id) ==> !post.peers.sas@.contains_key(id)
                && !post.peers.transport@.contains_key(id) && !post.peers.remote_fp@.contains_key(id)
                && !post.peers.live@.contains_key(id) && !post.peers.pending_invite@.contains_key(id)
                && !post.peers.pending_published@.contains_key(id)
        },
        fx.contains(
            EffectView::SendPeerCmd { peer_id: id, cmd: PeerCmdView::Shutdown },
        ) <==> pre.peers.channels@.contains_key(id) && !counts_as_online(friends@, id, now),
{
    let stale = stale_peers(pre.peers, friends@, now);
    let order = pre.peers.channels.order();
    pre.peers.channels.order_lists_keys();
    lemma_ended(order, stale, id);
    assert(online_id(friends@, now, id) == counts_as_online(friends@, id, now)) by {
        if online_id(friends@, now, id) {
            let i = choose|i: int|
                0 <= i < friends@.len() && (#[trigger] friends@[i]).user_id@ == id
                    && friends@[i].online_like(now.unix_ms as int);
            assert(here(friends@[i], now));
        }
        if counts_as_online(friends@, id, now) {
            let i = choose|i: int|
                0 <= i < friends@.len() && (#[trigger] friends@[i]).user_id@ == id && here(
                    friends@[i],
                    now,
                );
            assert(friends@[i].online_like(now.unix_ms as int));
        }
    }
    let a = fetch_pictures(pre, friends@);
    let b = missing_directs(pre, friends@, now);
    let c = ended(order, stale);
    lemma_only_fetches(pre.images@, plain_jobs(pictures(friends@)));
    lemma_only_calls(pre, friends@, now);
    let e = EffectView::SendPeerCmd { peer_id: id, cmd: PeerCmdView::Shutdown };
    if fx.contains(e) {
        let i = choose|i: int| 0 <= i < fx.len() && fx[i] == e;
        if i < a.len() {
            assert(fx[i] == a[i]);
        } else if i < a.len() + b.len() {
            assert(fx[i] == b[i - a.len()]);
        } else {
            assert(fx[i] == c[i - a.len() - b.len()]);
            assert(c.contains(e));
        }
    }
    if c.contains(e) {
        let i = choose|i: int| 0 <= i < c.len() && c[i] == e;
        assert(fx[a.len() + b.len() + i] == e);
    }
}

proof fn lemma_only_calls(app: App, friends: Seq<Friend>, now: Now)
    ensures
        forall|i: int|
            0 <= i < missing_directs(app, friends, now).len() ==> (#[trigger] missing_directs(
                app,
                friends,
                now,
            )[i]) is Call,
    decreases friends.len(),
{
    if friends.len() > 0 {
        lemma_only_calls(app, friends.drop_last(), now);
    }
}

/// A direct chat is asked for with each friend who is here and has none.
pub proof fn direct_chats_are_asked_for(
    pre: App,
    friends: Vec<Friend>,
    now: Now,
    post: App,
    fx: Seq<EffectView>,
    token: Seq<char>,
    k: int,
)
    requires
        step(pre, Message::Social(SocialMessage::FriendsUpdated(friends)), now, post, fx),
        online(pre, token),
        0 <= k < friends@.len(),
        here(friends@[k], now),
        !has_direct_chat(pre.inbox.conversations@, friends@[k].user_id@),
    ensures
        exists|i: int|
            0 <= i < fx.len() && asks_for_direct(#[trigger] fx[i], token, friends@[k].user_id@),
{
    let a = fetch_pictures(pre, friends@);
    let b = missing_directs(pre, friends@, now);
    lemma_missing(pre, friends@, now, token, k);
    let i = choose|i: int|
        0 <= i < b.len() && asks_for_direct(#[trigger] b[i], token, friends@[k].user_id@);
    assert(fx[a.len() + i] == b[i]);
}

/// With a fresh friends list nothing else is asked of the backend than direct
/// chats with friends who are here and have none.
pub proof fn only_direct_chats_are_asked_for(
    pre: App,
    friends: Vec<Friend>,
    now: Now,
    post: App,
    fx: Seq<EffectView>,
    token: Seq<char>,
    i: int,
)
    requires
        step(pre, Message::Social(SocialMessage::FriendsUpdated(friends)), now, post, fx),
        online(pre, token),
        0 <= i < fx.len(),
        fx[i] is Call,
    ensures
        exists|k: int|
            0 <= k < friends@.len() && wants_direct(pre, #[trigger] friends@[k], now)
                && asks_for_direct(fx[i], token, friends@[k].user_id@),
{
    let stale = stale_peers(pre.peers, friends@, now);
    let a = fetch_pictures(pre, friends@);
    let b = missing_directs(pre, friends@, now);
    let c = ended(pre.peers.channels.order(), stale);
    lemma_only_fetches(pre.images@, plain_jobs(pictures(friends@)));
    lemma_ended(pre.peers.channels.order(), stale, Seq::empty());
    if i < a.len() {
        assert(fx[i] == a[i]);
    } else if i < a.len() + b.len() {
        assert(fx[i] == b[i - a.len()]);
        lemma_asked(pre, friends@, now, token, i - a.len());
    } else {
        assert(fx[i] == c[i - a.len() - b.len()]);
    }
}

/// The request was not there before.
pub open spec fn is_new(before: Seq<IncomingRequest>, r: IncomingRequest) -> bool {
    forall|i: int| 0 <= i < before.len() ==> (#[trigger] before[i]).request_id@ != r.request_id@
}

proof fn lemma_first_new(old: Seq<IncomingRequest>, new: Seq<IncomingRequest>)
    ensures
        match first_new(old, new) {
            Some(r) => new.contains(r) && is_new(old, r),
            None => forall|i: int| 0 <= i < new.len() ==> !is_new(old, #[trigger] new[i]),
        },
    decreases new.len(),
{
    if new.len() > 0 {
        let t = new.drop_last();
        lemma_first_new(old, t);
        lemma_position(old, new.last().request_id@);
        match first_new(old, t) {
            Some(r) => {
                let i = choose|i: int| 0 <= i < t.len() && t[i] == r;
                assert(new[i] == r);
            },
            None => {
                if position(old, new.last().request_id@) is None {
                    assert(new[new.len() - 1] == new.last());
                } else {
                    assert forall|i: int| 0 <= i < new.len() implies !is_new(
                        old,
                        #[trigger] new[i],
                    ) by {
                        if i < t.len() {
                            assert(!is_new(old, t[i]));
                        } else {
                            let j = position(old, new.last().request_id@)->0;
                            assert(old[j].request_id@ == new[i].request_id@);
                        }
                    }
                }
            },
        }
    }
}

/// New friend requests are announced once the list was known and grew, with
/// the name of whoever sent one that was not there before.
pub proof fn new_requests_are_announced(
    pre: App,
    requests: Vec<IncomingRequest>,
    now: Now,
    post: App,
    fx: Seq<EffectView>,
)
    requires
        step(pre, Message::Social(SocialMessage::RequestsUpdated(requests)), now, post, fx),
    ensures
        post.social.incoming_requests == requests,
        post.social.requests_loaded,
        fx.contains(EffectView::NotifyPing) <==> pre.social.requests_loaded && requests@.len()
            > pre.social.incoming_requests@.len() && exists|i: int|
            0 <= i < requests@.len() && is_new(
                pre.social.incoming_requests@,
                #[trigger] requests@[i],
            ),
        forall|n: int|
            0 <= n < fx.len() && (#[trigger] fx[n]) is Notify ==> exists|i: int|
                {
                    let r = #[trigger] requests@[i];
                    let who = r.from_display_name@ + " (@"@ + r.from_username@;
                    &&& 0 <= i < requests@.len()
                    &&& is_new(pre.social.incoming_requests@, r)
                    &&& fx[n]->Notify_title == "Friend request"@
                    &&& fx[n]->Notify_body == if r.note@.len() == 0 {
                        who + ") wants to add you as a friend"@
                    } else {
                        who + "): "@ + r.note@
                    }
                },
{
    let old_list = pre.social.incoming_requests@;
    lemma_first_new(old_list, requests@);
    let a = announce_request(pre.social, requests@);
    let b = fetch_pictures(pre, requests@);
    lemma_only_fetches(pre.images@, plain_jobs(pictures(requests@)));
    assert forall|n: int| a.len() <= n < fx.len() implies (#[trigger] fx[n]) is FetchImage by {
        assert(fx[n] == b[n - a.len()]);
    }
    assert forall|n: int| 0 <= n < a.len() implies #[trigger] fx[n] == a[n] by {}
    if a.len() > 0 {
        assert(fx[0] == EffectView::NotifyPing);
        let r = first_new(old_list, requests@)->0;
        let i = choose|i: int| 0 <= i < requests@.len() && requests@[i] == r;
        assert(is_new(old_list, requests@[i]));
        assert(fx[1]->Notify_body == request_text(requests@[i]));
    }
}

} // verus!
