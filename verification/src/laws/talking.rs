//! The live channels to friends.

use crate::laws::asked::{changes, lemma_request, number, online, text};
use crate::state::app::{App, Now};
use crate::state::effect::{EffectView, PeerCmdView, Reply};
use crate::state::keyed::{lemma_position, lemma_position_is};
use crate::state::message::{Message, PeerEvent, PeerMessage};
use crate::state::peers::{direct_with, is_direct_with};
use crate::state::types::{ChatMessage, ConversationSummary};
use crate::state::update::step;
use crate::text::text_is;
use crate::ui::mentions::{excerpt, pings};
use vstd::prelude::*;

verus! {

/// What was said live with a friend so far.
pub open spec fn said(app: App, friend: Seq<char>) -> Seq<ChatMessage> {
    if app.peers.live@.contains_key(friend) {
        app.peers.live@[friend]@
    } else {
        Seq::empty()
    }
}

/// The chat with the friend is open and the window in front.
pub open spec fn looked_at(app: App, friend: Seq<char>) -> bool {
    app.window.window_focused && text_is(app.place.peer_id, friend)
}

/// The friend is listed, and goes by this name.
pub open spec fn goes_by(app: App, friend: Seq<char>, name: Seq<char>) -> bool {
    exists|k: int|
        {
            &&& 0 <= k < app.social.friends@.len()
            &&& (#[trigger] app.social.friends@[k]).user_id@ == friend
            &&& forall|j: int|
                0 <= j < k ==> (#[trigger] app.social.friends@[j]).user_id@ != friend
            &&& name == if app.social.friends@[k].nickname@.len() > 0 {
                app.social.friends@[k].nickname@
            } else {
                app.social.friends@[k].display_name@
            }
        }
}

/// What a friend writes stands behind what was said with that friend, with the
/// friend as its author and the text as it came. It is announced unless we
/// look at it, by name, and as a mention where it names us; the view follows
/// where the chat is open.
pub proof fn what_friends_write_is_shown(
    pre: App,
    id: String,
    words: String,
    now: Now,
    post: App,
    fx: Seq<EffectView>,
    name: Seq<char>,
)
    requires
        step(
            pre,
            Message::Peer(PeerMessage::PeerEvent(id, PeerEvent::Text(words))),
            now,
            post,
            fx,
        ),
        words@ != pre.config.clear_history_ctrl@,
    ensures
        said(post, id@).len() == said(pre, id@).len() + 1,
        said(post, id@).drop_last() == said(pre, id@),
        ({
            let m = said(post, id@).last();
            &&& m.author_id@ == id@
            &&& m.body@ == words@
            &&& m.sent_at == now.unix_ms
            &&& m.attachment_url@.len() == 0
            &&& m.kind@ == "text"@
            &&& !m.deleted
            &&& goes_by(pre, id@, name) ==> m.author_name@ == name
        }),
        fx.contains(EffectView::Beep) <==> !looked_at(pre, id@),
        fx.contains(EffectView::ScrollToBottom) <==> text_is(pre.place.peer_id, id@),
        !looked_at(pre, id@) && goes_by(pre, id@, name) ==> {
            let ours = if pre.session is Some {
                seq![pre.session->0.display_name@, pre.session->0.username@]
            } else {
                Seq::empty()
            };
            &&& pings(words@, ours) ==> fx.contains(
                EffectView::Notify {
                    title: name + " mentioned you"@,
                    body: excerpt(words@, 140),
                },
            )
            &&& !pings(words@, ours) ==> fx.contains(
                EffectView::Notify { title: "Talkyss"@, body: "New message · "@ + name },
            )
        },
        post.chat == pre.chat,
        post.images == pre.images,
{
    lemma_position(pre.social.friends@, id@);
    if goes_by(pre, id@, name) {
        let k = choose|k: int|
            {
                &&& 0 <= k < pre.social.friends@.len()
                &&& (#[trigger] pre.social.friends@[k]).user_id@ == id@
                &&& forall|j: int|
                    0 <= j < k ==> (#[trigger] pre.social.friends@[j]).user_id@ != id@
                &&& name == if pre.social.friends@[k].nickname@.len() > 0 {
                    pre.social.friends@[k].nickname@
                } else {
                    pre.social.friends@[k].display_name@
                }
            };
        lemma_position_is(pre.social.friends@, id@, k);
    }
    assert(said(post, id@).drop_last() =~= said(pre, id@));
    if !looked_at(pre, id@) {
        assert(fx[0] == EffectView::Beep);
        assert(fx[1] is Notify);
    }
    if text_is(pre.place.peer_id, id@) {
        assert(fx[fx.len() - 1] == EffectView::ScrollToBottom);
    }
}

/// A picture that a friend sends is at hand under the address that its message
/// shows.
pub proof fn pictures_are_at_hand(
    pre: App,
    id: String,
    ev: PeerEvent,
    now: Now,
    post: App,
    fx: Seq<EffectView>,
)
    requires
        step(pre, Message::Peer(PeerMessage::PeerEvent(id, ev)), now, post, fx),
        ev is Photo,
    ensures
        said(post, id@).len() == said(pre, id@).len() + 1,
        said(post, id@).drop_last() == said(pre, id@),
        ({
            let m = said(post, id@).last();
            &&& m.author_id@ == id@
            &&& m.body@.len() == 0
            &&& post.images@.contains_key(m.attachment_url@)
            &&& post.images@[m.attachment_url@] == ev->Photo_bytes
            &&& forall|url: Seq<char>|
                url != m.attachment_url@ ==> (#[trigger] post.images@.contains_key(url)
                    <==> pre.images@.contains_key(url))
        }),
        fx.contains(EffectView::Beep) <==> !looked_at(pre, id@),
{
    assert(said(post, id@).drop_last() =~= said(pre, id@));
    if !looked_at(pre, id@) {
        assert(fx[0] == EffectView::Beep);
    }
}

/// A friend's wish to clear the chat is met where that chat is open, and never
/// shown as a message.
pub proof fn wishes_to_clear_are_met(
    pre: App,
    id: String,
    words: String,
    now: Now,
    post: App,
    fx: Seq<EffectView>,
)
    requires
        step(
            pre,
            Message::Peer(PeerMessage::PeerEvent(id, PeerEvent::Text(words))),
            now,
            post,
            fx,
        ),
        words@ == pre.config.clear_history_ctrl@,
    ensures
        text_is(pre.place.peer_id, id@) ==> post.chat.messages@.len() == 0 && said(post, id@).len()
            == 0,
        text_is(pre.place.peer_id, id@) && pre.session is Some ==> fx == seq![
            EffectView::WipeChat {
                user_id: pre.session->0.user_id@,
                conversation_id: match pre.place.conversation {
                    Some(c) => Some(c@),
                    None => None,
                },
                peer_id: Some(id@),
            },
        ],
        !text_is(pre.place.peer_id, id@) ==> post == pre && fx.len() == 0,
{
}

/// What a channel reports of itself is shown for that friend: it is up with
/// what both sides compare, it failed, or it is gone.
pub proof fn channels_report(
    pre: App,
    id: String,
    ev: PeerEvent,
    now: Now,
    post: App,
    fx: Seq<EffectView>,
)
    requires
        step(pre, Message::Peer(PeerMessage::PeerEvent(id, ev)), now, post, fx),
    ensures
        ev is Connected ==> {
            &&& post.peers.connected@.contains_key(id@)
            &&& post.peers.connected@[id@]
            &&& post.peers.sas@.contains_key(id@)
            &&& post.peers.sas@[id@] == ev->Connected_sas_emojis
            &&& post.peers.transport@[id@] == ev->Connected_transport
            &&& post.peers.remote_fp@[id@] == ev->Connected_remote_fingerprint
            &&& post.peers.status@.contains_key(id@)
            &&& text_is(Some(post.peers.status@[id@]), "Secure channel ready"@)
            &&& text_is(pre.place.peer_id, id@) ==> post.chat.error is None
            &&& !text_is(pre.place.peer_id, id@) ==> post.chat.error == pre.chat.error
        },
        ev is Status ==> post.peers.status@.contains_key(id@) && post.peers.status@[id@]
            == ev->Status_0 && post.peers.connected == pre.peers.connected,
        ev is Error ==> {
            &&& post.peers.connected@.contains_key(id@)
            &&& !post.peers.connected@[id@]
            &&& post.peers.status@.contains_key(id@)
            &&& post.peers.status@[id@] == ev->Error_0
            &&& text_is(pre.place.peer_id, id@) ==> post.chat.error == Some(ev->Error_0)
            &&& !text_is(pre.place.peer_id, id@) ==> post.chat == pre.chat
        },
        ev is Disconnected ==> {
            &&& post.peers.connected@.contains_key(id@)
            &&& !post.peers.connected@[id@]
            &&& !post.peers.channels@.contains_key(id@)
            &&& fx == seq![EffectView::ForgetPeer { peer_id: id@ }]
            &&& post.peers.status@.contains_key(id@)
            &&& pre.peers.status@.contains_key(id@) ==> post.peers.status@[id@]
                == pre.peers.status@[id@]
            &&& !pre.peers.status@.contains_key(id@) ==> post.peers.status@[id@]@
                == "Secure channel closed"@
            &&& said(post, id@) == said(pre, id@)
        },
        ev is Connected || ev is Status || ev is Error ==> fx.len() == 0 && post.peers.live
            == pre.peers.live && post.peers.channels == pre.peers.channels,
{
}

proof fn lemma_direct_is(chats: Seq<ConversationSummary>, id: Seq<char>, k: int)
    requires
        0 <= k < chats.len(),
        is_direct_with(chats[k], id),
        forall|j: int| 0 <= j < k ==> !is_direct_with(#[trigger] chats[j], id),
    ensures
        direct_with(chats, id) == Some(chats[k].conversation_id@),
    decreases chats.len(),
{
    let t = chats.drop_last();
    if k < t.len() {
        assert forall|j: int| 0 <= j < k implies !is_direct_with(#[trigger] t[j], id) by {
            assert(!is_direct_with(chats[j], id));
        }
        lemma_direct_is(t, id, k);
    } else {
        assert forall|j: int| 0 <= j < t.len() implies !is_direct_with(#[trigger] t[j], id) by {
            assert(!is_direct_with(chats[j], id));
        }
        lemma_no_direct(t, id);
    }
}

proof fn lemma_no_direct(chats: Seq<ConversationSummary>, id: Seq<char>)
    requires
        forall|j: int| 0 <= j < chats.len() ==> !is_direct_with(#[trigger] chats[j], id),
    ensures
        direct_with(chats, id) is None,
    decreases chats.len(),
{
    if chats.len() > 0 {
        let t = chats.drop_last();
        assert forall|j: int| 0 <= j < t.len() implies !is_direct_with(#[trigger] t[j], id) by {
            assert(!is_direct_with(chats[j], id));
        }
        lemma_no_direct(t, id);
        assert(!is_direct_with(chats[chats.len() - 1], id));
    }
}

/// An invite is published in the direct chat with the friend whom it is for,
/// as it is and with its end.
pub proof fn invites_are_published_in_their_chat(
    pre: App,
    id: String,
    ev: PeerEvent,
    now: Now,
    post: App,
    fx: Seq<EffectView>,
    token: Seq<char>,
    k: int,
)
    requires
        step(pre, Message::Peer(PeerMessage::PeerEvent(id, ev)), now, post, fx),
        ev is HostInvite,
        online(pre, token),
        0 <= k < pre.inbox.conversations@.len(),
        pre.inbox.conversations@[k].kind@ == "direct"@,
        text_is(pre.inbox.conversations@[k].peer_user_id, id@),
        forall|j: int|
            0 <= j < k ==> !((#[trigger] pre.inbox.conversations@[j]).kind@ == "direct"@ && text_is(
                pre.inbox.conversations@[j].peer_user_id,
                id@,
            )),
    ensures
        changes(
            fx,
            token,
            "peer:publishInvite"@,
            seq![
                text("conversationId"@, pre.inbox.conversations@[k].conversation_id@),
                text("invitePayload"@, ev->HostInvite_payload@),
                number("expiresAt"@, ev->HostInvite_expires_at_ms as int),
            ],
            Reply::PeerInvitePublished { peer_id: id },
        ),
        post.peers.status@.contains_key(id@),
        post.peers.connected == pre.peers.connected,
{
    broadcast use lemma_request;

    let chats = pre.inbox.conversations@;
    assert forall|j: int| 0 <= j < k implies !is_direct_with(#[trigger] chats[j], id@) by {
        assert(!(chats[j].kind@ == "direct"@ && text_is(chats[j].peer_user_id, id@)));
    }
    lemma_direct_is(chats, id@, k);
}

/// An invite that arrives reaches the friend's channel: at once where that
/// takes commands, else as soon as it does, and just once. So does the outcome
/// of publishing our own.
pub proof fn invites_reach_the_channel(
    pre: App,
    m: PeerMessage,
    now: Now,
    post: App,
    fx: Seq<EffectView>,
)
    requires
        step(pre, Message::Peer(m), now, post, fx),
    ensures
        m is PeerInviteUpdated && m->PeerInviteUpdated_1 is Some ==> {
            let id = m->PeerInviteUpdated_0@;
            let payload = m->PeerInviteUpdated_1->0;
            &&& pre.peers.channels@.contains_key(id) ==> post == pre && fx == seq![
                EffectView::SendPeerCmd {
                    peer_id: id,
                    cmd: PeerCmdView::InvitePayload(payload@),
                },
            ]
            &&& !pre.peers.channels@.contains_key(id) ==> fx.len() == 0
                && post.peers.pending_invite@.contains_key(id) && post.peers.pending_invite@[id]
                == payload
        },
        m is PeerInviteUpdated && m->PeerInviteUpdated_1 is None ==> post == pre && fx.len() == 0,
        m is PeerCmdReady ==> {
            let id = m->PeerCmdReady_0@;
            &&& post.peers.channels@.contains_key(id)
            &&& !post.peers.pending_invite@.contains_key(id)
            &&& !post.peers.pending_published@.contains_key(id)
            &&& pre.peers.pending_invite@.contains_key(id) ==> fx.contains(
                EffectView::SendPeerCmd {
                    peer_id: id,
                    cmd: PeerCmdView::InvitePayload(pre.peers.pending_invite@[id]@),
                },
            )
            &&& pre.peers.pending_published@.contains_key(id)
                && pre.peers.pending_published@[id] is Ok ==> fx.contains(
                EffectView::SendPeerCmd { peer_id: id, cmd: PeerCmdView::InvitePublished },
            )
            &&& pre.peers.pending_published@.contains_key(id)
                && pre.peers.pending_published@[id] is Err ==> fx.contains(
                EffectView::SendPeerCmd {
                    peer_id: id,
                    cmd: PeerCmdView::InvitePublishFailed(
                        pre.peers.pending_published@[id]->Err_0@,
                    ),
                },
            )
            &&& !pre.peers.pending_invite@.contains_key(id)
                && !pre.peers.pending_published@.contains_key(id) ==> fx.len() == 0
            &&& forall|i: int|
                0 <= i < fx.len() ==> (#[trigger] fx[i]) is SendPeerCmd
                    && fx[i]->SendPeerCmd_peer_id == id
        },
        m is PeerInvitePublished ==> {
            let id = m->PeerInvitePublished_0@;
            let r = m->PeerInvitePublished_1;
            &&& pre.peers.channels@.contains_key(id) && r is Ok ==> fx == seq![
                EffectView::SendPeerCmd { peer_id: id, cmd: PeerCmdView::InvitePublished },
            ]
            &&& pre.peers.channels@.contains_key(id) && r is Err ==> fx == seq![
                EffectView::SendPeerCmd {
                    peer_id: id,
                    cmd: PeerCmdView::InvitePublishFailed(r->Err_0@),
                },
            ]
            &&& !pre.peers.channels@.contains_key(id) ==> fx.len() == 0
                && post.peers.pending_published@.contains_key(id) && post.peers.pending_published@[id]
                == r
            &&& post.peers.status@.contains_key(id)
            &&& r is Err ==> post.peers.status@[id]@ == "Invite publish failed: "@ + r->Err_0@
        },
{
    if m is PeerCmdReady {
        let id = m->PeerCmdReady_0@;
        if pre.peers.pending_invite@.contains_key(id) {
            assert(fx[0] is SendPeerCmd);
        }
        if pre.peers.pending_published@.contains_key(id) {
            assert(fx[fx.len() - 1] is SendPeerCmd);
        }
    }
}

} // verus!
