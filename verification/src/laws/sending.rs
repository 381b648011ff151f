//! What leaves the composer.

use crate::laws::asked::{carries, changes, lemma_request, offline, online, switch, text};
use crate::state::app::{session_call, App, Now};
use crate::state::compose::message_args;
use crate::state::effect::{CallKind, CallView, EffectView, PeerCmdView, Reply};
use crate::state::message::{ComposeMessage, Message};
use crate::state::types::ImagePick;
use crate::state::update::step;
use crate::text::{text_is, trimmed};
use vstd::prelude::*;

verus! {

/// The chat has a key that its members share.
pub open spec fn shares_a_key(kind: Option<String>) -> bool {
    text_is(kind, "group"@) || text_is(kind, "channel"@) || text_is(kind, "voice"@)
}

/// The call stores a message in a chat: it has the session token, the chat,
/// the body, the mark of an encrypted message where it is one, the message
/// that is replied to where there is one, and nothing else.
pub open spec fn stores(
    call: CallView,
    token: Seq<char>,
    chat: Seq<char>,
    body: Seq<char>,
    encrypted: bool,
    reply: Option<(String, String, String)>,
) -> bool {
    &&& call.kind == CallKind::Mutation
    &&& call.function == "messages:send"@
    &&& call.reply == Reply::MessageSentFinished
    &&& call.args.contains(text("sessionToken"@, token))
    &&& call.args.contains(text("conversationId"@, chat))
    &&& call.args.contains(text("body"@, body))
    &&& encrypted ==> call.args.contains(switch("encrypted"@, true))
    &&& reply is Some ==> call.args.contains(text("replyToMessageId"@, (reply->0).0@))
    &&& call.args.len() == 3 + (if encrypted {
        1int
    } else {
        0
    }) + (if reply is Some {
        1int
    } else {
        0
    })
}

/// The last effect stores a message: by the call itself, or, where something
/// is attached, by an upload of that which the call follows.
pub open spec fn ends_in_store(
    fx: Seq<EffectView>,
    token: Seq<char>,
    chat: Seq<char>,
    body: Seq<char>,
    encrypted: bool,
    reply: Option<(String, String, String)>,
    attached: Option<(Seq<u8>, Seq<char>)>,
) -> bool {
    &&& fx.len() > 0
    &&& match attached {
        None => fx.last() is Call && stores(
            fx.last()->Call_0,
            token,
            chat,
            body,
            encrypted,
            reply,
        ),
        Some((bytes, kind)) => {
            &&& fx.last() is Upload
            &&& fx.last()->Upload_bytes == bytes
            &&& fx.last()->Upload_content_type == kind
            &&& fx.last()->storage_arg == "attachmentStorageId"@
            &&& fx.last()->strict
            &&& fx.last()->ask.function == "messages:generateAttachmentUploadUrl"@
            &&& carries(fx.last()->ask, token, seq![])
            &&& stores(fx.last()->send, token, chat, body, encrypted, reply)
        },
    }
}

/// No effect stores a message.
pub open spec fn stores_nothing(fx: Seq<EffectView>) -> bool {
    forall|i: int| 0 <= i < fx.len() ==> !(#[trigger] fx[i] is Call) && !(fx[i] is Upload)
}

proof fn lemma_stores(
    token: Seq<char>,
    chat: Seq<char>,
    body: Seq<char>,
    encrypted: bool,
    reply: Option<(String, String, String)>,
    reply_to: Option<Seq<char>>,
)
    requires
        reply is Some <==> reply_to is Some,
        reply is Some ==> reply_to->0 == (reply->0).0@,
    ensures
        stores(
            session_call(
                token,
                CallKind::Mutation,
                "messages:send"@,
                message_args(chat, body, encrypted, reply_to),
                Reply::MessageSentFinished,
            ),
            token,
            chat,
            body,
            encrypted,
            reply,
        ),
{
    let args = message_args(chat, body, encrypted, reply_to);
    let call = session_call(
        token,
        CallKind::Mutation,
        "messages:send"@,
        args,
        Reply::MessageSentFinished,
    );
    assert(call.args[0] == text("sessionToken"@, token));
    assert(call.args[1] == text("conversationId"@, chat));
    assert(call.args[2] == text("body"@, body));
    if encrypted {
        assert(call.args[3] == switch("encrypted"@, true));
    }
    if reply is Some {
        assert(call.args[call.args.len() - 1] == text("replyToMessageId"@, (reply->0).0@));
    }
}

/// What was attached, by its bytes and kind.
pub open spec fn attached(app: App) -> Option<(Seq<u8>, Seq<char>)> {
    match app.composer.attachment {
        Some(a) => Some((a.bytes@, a.content_type@)),
        None => None,
    }
}

/// A new message is about to be sent: we are online and nothing else is on its
/// way, a chat is open, nothing is edited, and there is something to send that
/// is not too long.
pub open spec fn ready_to_send(app: App, token: Seq<char>) -> bool {
    &&& online(app, token)
    &&& !app.composer.send_busy
    &&& app.place.conversation is Some
    &&& app.composer.editing_id is None
    &&& trimmed(app.composer.input@).len() <= 4000
    &&& trimmed(app.composer.input@).len() > 0 || app.composer.attachment is Some
}

/// A message in a chat without a shared key is stored as it was written, with
/// the message that it replies to, if any, and what is attached; the composer
/// is empty after that.
pub proof fn plain_messages_are_stored(
    pre: App,
    now: Now,
    post: App,
    fx: Seq<EffectView>,
    token: Seq<char>,
)
    requires
        step(pre, Message::Compose(ComposeMessage::SendMessage), now, post, fx),
        ready_to_send(pre, token),
        !shares_a_key(pre.place.kind),
        !text_is(pre.place.kind, "direct"@),
    ensures
        ends_in_store(
            fx,
            token,
            pre.place.conversation->0@,
            trimmed(pre.composer.input@),
            false,
            pre.composer.reply,
            attached(pre),
        ),
        post.composer.input@.len() == 0,
        post.composer.reply is None,
        post.composer.attachment is None,
        post.composer.send_busy,
        post.chat.error is None,
{
    lemma_stores(
        token,
        pre.place.conversation->0@,
        trimmed(pre.composer.input@),
        false,
        pre.composer.reply,
        match pre.composer.reply {
            Some(r) => Some(r.0@),
            None => None,
        },
    );
    if pre.composer.attachment is Some {
        let ask = fx.last()->ask;
        assert(ask.args[0] == text("sessionToken"@, token));
    }
}

/// In a chat with a shared key nothing leaves in the clear: the text and what
/// is attached are sealed with the key of that chat, and the reply is kept
/// until that is done. Without the key nothing is sent and the text stays.
pub proof fn shared_chats_are_sealed_first(
    pre: App,
    now: Now,
    post: App,
    fx: Seq<EffectView>,
    token: Seq<char>,
)
    requires
        step(pre, Message::Compose(ComposeMessage::SendMessage), now, post, fx),
        ready_to_send(pre, token),
        shares_a_key(pre.place.kind),
    ensures
        stores_nothing(fx),
        pre.group_keys is Some && pre.group_keys->0@.contains_key(pre.place.conversation->0@) ==> {
            let chat = pre.place.conversation->0@;
            &&& fx == seq![
                EffectView::SealMessage {
                    conversation_id: chat,
                    key: pre.group_keys->0@[chat],
                    body: trimmed(pre.composer.input@),
                    attachment: match pre.composer.attachment {
                        Some(a) => Some(a.bytes@),
                        None => None,
                    },
                },
            ]
            &&& post.composer.sealing is Some
            &&& post.composer.sealing->0.conversation_id@ == chat
            &&& post.composer.sealing->0.message_id is None
            &&& post.composer.sealing->0.reply == pre.composer.reply
            &&& post.composer.sealing->0.attachment == pre.composer.attachment
            &&& post.composer.sealing->0.input == pre.composer.input
            &&& post.composer.input@.len() == 0
            &&& post.composer.reply is None
            &&& post.composer.attachment is None
            &&& post.composer.send_busy
        },
        !(pre.group_keys is Some && pre.group_keys->0@.contains_key(
            pre.place.conversation->0@,
        )) ==> post.composer == pre.composer && post.chat.error is Some,
{
    reveal_strlit("channel");
    reveal_strlit("voice");
    reveal_strlit("group");
    reveal_strlit("direct");
    assert("direct"@[0] == 'd' && "channel"@[0] == 'c' && "group"@[0] == 'g' && "voice"@[0] == 'v');
}

/// A sealed message is stored in the chat that it was sealed for, marked as
/// encrypted, and with the message that it replies to as any other.
pub proof fn sealed_messages_are_stored(
    pre: App,
    m: ComposeMessage,
    now: Now,
    post: App,
    fx: Seq<EffectView>,
    token: Seq<char>,
)
    requires
        step(pre, Message::Compose(m), now, post, fx),
        m is MessageSealed,
        m->MessageSealed_1 is Some,
        online(pre, token),
        pre.composer.sealing is Some,
        pre.composer.sealing->0.message_id is None,
        pre.composer.sealing->0.conversation_id@ == m->MessageSealed_0@,
    ensures
        ends_in_store(
            fx,
            token,
            pre.composer.sealing->0.conversation_id@,
            m->MessageSealed_1->0.body@,
            true,
            pre.composer.sealing->0.reply,
            match m->MessageSealed_1->0.attachment {
                Some(b) => Some((b@, "application/octet-stream"@)),
                None => None,
            },
        ),
        post.composer.sealing is None,
        post.composer.input == pre.composer.input,
        post.composer.reply == pre.composer.reply,
        post.composer.attachment == pre.composer.attachment,
{
    let d = pre.composer.sealing->0;
    lemma_stores(
        token,
        d.conversation_id@,
        m->MessageSealed_1->0.body@,
        true,
        d.reply,
        match d.reply {
            Some(r) => Some(r.0@),
            None => None,
        },
    );
    if m->MessageSealed_1->0.attachment is Some {
        let ask = fx.last()->ask;
        assert(ask.args[0] == text("sessionToken"@, token));
    }
}

/// What could not be sealed is not sent: it goes back to where it was written,
/// unless something else stands there by now.
pub proof fn unsealed_messages_come_back(
    pre: App,
    m: ComposeMessage,
    now: Now,
    post: App,
    fx: Seq<EffectView>,
    token: Seq<char>,
)
    requires
        step(pre, Message::Compose(m), now, post, fx),
        m is MessageSealed,
        m->MessageSealed_1 is None,
        online(pre, token),
        pre.composer.sealing is Some,
        pre.composer.sealing->0.message_id is None,
        pre.composer.sealing->0.conversation_id@ == m->MessageSealed_0@,
    ensures
        fx.len() == 0,
        post.composer.sealing is None,
        !post.composer.send_busy,
        text_is(post.chat.error, "Could not encrypt message"@),
        text_is(pre.place.conversation, m->MessageSealed_0@) && pre.composer.input@.len() == 0
            && pre.composer.attachment is None && pre.composer.reply is None ==> {
            let d = pre.composer.sealing->0;
            &&& post.composer.input == d.input
            &&& post.composer.attachment == d.attachment
            &&& post.composer.reply == d.reply
        },
        pre.composer.input@.len() > 0 ==> post.composer.input == pre.composer.input
            && post.composer.reply == pre.composer.reply && post.composer.attachment
            == pre.composer.attachment,
{
}

/// Nothing is sent while we are offline or something is on its way, when there
/// is nothing to send, or when it is too long.
pub proof fn nothing_is_sent_without_need(pre: App, now: Now, post: App, fx: Seq<EffectView>)
    requires
        step(pre, Message::Compose(ComposeMessage::SendMessage), now, post, fx),
    ensures
        offline(pre) || pre.composer.send_busy ==> post == pre && fx.len() == 0,
        trimmed(pre.composer.input@).len() > 4000 ==> stores_nothing(fx) && post.composer
            == pre.composer,
        trimmed(pre.composer.input@).len() == 0 && pre.composer.attachment is None ==> stores_nothing(
            fx,
        ),
        pre.place.conversation is None && pre.composer.editing_id is None ==> stores_nothing(fx),
{
}

/// The live channel of the open direct chat is up.
pub open spec fn channel_up(app: App) -> bool {
    &&& app.place.peer_id is Some
    &&& app.peers.connected@.contains_key(app.place.peer_id->0@)
    &&& app.peers.connected@[app.place.peer_id->0@]
    &&& app.peers.channels@.contains_key(app.place.peer_id->0@)
}

/// In a direct chat a message goes to the peer over the live channel, the text
/// as it was written or the picture; it is stored on the backend too exactly
/// where both switches are on. With the channel down nothing is sent, the text
/// stays, and the state of the channel is given as the reason.
pub proof fn direct_messages_go_to_the_peer(
    pre: App,
    now: Now,
    post: App,
    fx: Seq<EffectView>,
    token: Seq<char>,
)
    requires
        step(pre, Message::Compose(ComposeMessage::SendMessage), now, post, fx),
        ready_to_send(pre, token),
        text_is(pre.place.kind, "direct"@),
    ensures
        !channel_up(pre) ==> fx.len() == 0 && post.composer == pre.composer && post.peers
            == pre.peers && post.chat.error is Some,
        ({
            let peer = pre.place.peer_id->0@;
            let down = pre.place.peer_id is Some && !(pre.peers.connected@.contains_key(peer)
                && pre.peers.connected@[peer]);
            &&& down && pre.peers.status@.contains_key(peer) ==> post.chat.error->0@
                == pre.peers.status@[peer]@
            &&& down && !pre.peers.status@.contains_key(peer) ==> post.chat.error->0@
                == "Secure channel not connected yet"@
            &&& !down && !channel_up(pre) ==> post.chat.error->0@
                == "Secure channel is not running"@
        }),
        channel_up(pre) ==> {
            let peer = pre.place.peer_id->0@;
            &&& fx.len() >= 1
            &&& fx[0] == EffectView::SendPeerCmd {
                peer_id: peer,
                cmd: match pre.composer.attachment {
                    Some(a) => PeerCmdView::SendPhoto {
                        bytes: a.bytes@,
                        content_type: a.content_type@,
                    },
                    None => PeerCmdView::SendText(trimmed(pre.composer.input@)),
                },
            }
            &&& forall|i: int| 1 <= i < fx.len() ==> !(#[trigger] fx[i] is SendPeerCmd)
            &&& pre.session->0.store_chat_history && pre.chat.store_enabled ==> ends_in_store(
                fx,
                token,
                pre.place.conversation->0@,
                trimmed(pre.composer.input@),
                false,
                None,
                attached(pre),
            )
            &&& !(pre.session->0.store_chat_history && pre.chat.store_enabled) ==> stores_nothing(fx)
            &&& post.composer.input@.len() == 0
            &&& post.composer.attachment is None
            &&& post.composer.reply is None
            &&& post.peers.live@.contains_key(peer)
            &&& post.peers.live@[peer]@.len() > 0
            &&& post.peers.live@[peer]@.last().author_id@ == pre.session->0.user_id@
            &&& post.peers.live@[peer]@.last().body@ == if pre.composer.attachment is Some {
                Seq::empty()
            } else {
                trimmed(pre.composer.input@)
            }
            &&& post.peers.live@[peer]@.drop_last() == if pre.peers.live@.contains_key(peer) {
                pre.peers.live@[peer]@
            } else {
                Seq::empty()
            }
        },
{
    if channel_up(pre) {
        lemma_stores(
            token,
            pre.place.conversation->0@,
            trimmed(pre.composer.input@),
            false,
            None,
            None,
        );
        let session = pre.session->0;
        if session.store_chat_history && pre.chat.store_enabled {
            if pre.composer.attachment is Some {
                let ask = fx.last()->ask;
                assert(ask.args[0] == text("sessionToken"@, token));
            }
        }
    }
}

/// An edit replaces the body of the message that is edited, and no other; where
/// the body was encrypted in a chat with a shared key it is sealed first.
pub proof fn edits_replace_their_message(
    pre: App,
    now: Now,
    post: App,
    fx: Seq<EffectView>,
    token: Seq<char>,
)
    requires
        step(pre, Message::Compose(ComposeMessage::SendMessage), now, post, fx),
        online(pre, token),
        !pre.composer.send_busy,
        pre.composer.editing_id is Some,
        0 < trimmed(pre.composer.input@).len() <= 4000,
        pre.place.conversation is Some,
    ensures
        post.composer.editing_id is None,
        text_is(pre.place.kind, "direct"@) ==> fx.len() == 0,
        !text_is(pre.place.kind, "direct"@) && !(pre.composer.editing_encrypted && shares_a_key(
            pre.place.kind,
        )) ==> changes(
            fx,
            token,
            "messages:edit"@,
            seq![
                text("messageId"@, pre.composer.editing_id->0@),
                text("body"@, trimmed(pre.composer.input@)),
            ],
            Reply::EditFinished,
        ) && post.composer.reply == pre.composer.reply && post.composer.attachment
            == pre.composer.attachment,
        pre.composer.editing_encrypted && shares_a_key(pre.place.kind) ==> {
            let chat = pre.place.conversation->0@;
            &&& stores_nothing(fx)
            &&& pre.group_keys is Some && pre.group_keys->0@.contains_key(chat) ==> fx == seq![
                EffectView::SealEdit {
                    conversation_id: chat,
                    key: pre.group_keys->0@[chat],
                    body: trimmed(pre.composer.input@),
                    message_id: pre.composer.editing_id->0@,
                },
            ]
            &&& !(pre.group_keys is Some && pre.group_keys->0@.contains_key(chat)) ==> fx.len() == 0
        },
{
    broadcast use lemma_request;

    reveal_strlit("channel");
    reveal_strlit("voice");
    reveal_strlit("group");
    reveal_strlit("direct");
    assert("direct"@[0] == 'd' && "channel"@[0] == 'c' && "group"@[0] == 'g' && "voice"@[0] == 'v');
}

/// A sealed edit goes to the message that it was sealed for.
pub proof fn sealed_edits_replace_their_message(
    pre: App,
    m: ComposeMessage,
    now: Now,
    post: App,
    fx: Seq<EffectView>,
    token: Seq<char>,
)
    requires
        step(pre, Message::Compose(m), now, post, fx),
        m is EditSealed,
        online(pre, token),
    ensures
        pre.composer.sealing is Some && text_is(
            pre.composer.sealing->0.message_id,
            m->EditSealed_0@,
        ) && m->EditSealed_1 is Some ==> changes(
            fx,
            token,
            "messages:edit"@,
            seq![
                text("messageId"@, m->EditSealed_0@),
                text("body"@, m->EditSealed_1->0@),
            ],
            Reply::EditFinished,
        ) && post.composer.sealing is None,
        pre.composer.sealing is None || !text_is(
            pre.composer.sealing->0.message_id,
            m->EditSealed_0@,
        ) ==> post == pre && fx.len() == 0,
        m->EditSealed_1 is None ==> fx.len() == 0,
{
    broadcast use lemma_request;

}

/// What the buttons at a message ask for: each names that message.
pub proof fn message_buttons(
    pre: App,
    m: ComposeMessage,
    now: Now,
    post: App,
    fx: Seq<EffectView>,
    token: Seq<char>,
)
    requires
        step(pre, Message::Compose(m), now, post, fx),
        online(pre, token),
    ensures
        m is DeleteMessage ==> post == pre && changes(
            fx,
            token,
            "messages:remove"@,
            seq![text("messageId"@, m->DeleteMessage_0@)],
            Reply::DeleteFinished,
        ),
        m is PurgeMessage ==> post == pre && changes(
            fx,
            token,
            "messages:purge"@,
            seq![text("messageId"@, m->PurgeMessage_0@)],
            Reply::PurgeFinished,
        ),
        m is PinMessage ==> post == pre && changes(
            fx,
            token,
            "messages:pinMessage"@,
            seq![text("messageId"@, m->PinMessage_0@)],
            Reply::PinToggled,
        ),
        m is UnpinMessage ==> post == pre && changes(
            fx,
            token,
            "messages:unpinMessage"@,
            seq![text("messageId"@, m->UnpinMessage_0@)],
            Reply::PinToggled,
        ),
        m is ToggleReaction ==> post == pre && changes(
            fx,
            token,
            "messages:toggleReaction"@,
            seq![
                text("messageId"@, m->ToggleReaction_0@),
                text("emoji"@, m->ToggleReaction_1@),
            ],
            Reply::ReactionToggled,
        ),
        m is SubmitMessageReport ==> changes(
            fx,
            token,
            "reports:reportMessage"@,
            seq![
                text("messageId"@, m->SubmitMessageReport_0@),
                text("messageBody"@, m->SubmitMessageReport_1@),
                text("reason"@, m->SubmitMessageReport_2@),
            ],
            Reply::MessageReportFinished,
        ) && post.chat.reporting_id is None,
        m is CopyMessage ==> fx == seq![EffectView::Clipboard(m->CopyMessage_0@)] && post.composer
            == pre.composer && post.chat == pre.chat,
        m is ReplyToMessage ==> post.composer.reply == Some(
            (m->ReplyToMessage_0, m->ReplyToMessage_1, m->ReplyToMessage_2),
        ) && post.composer.input == pre.composer.input && fx.len() == 0,
        m is CancelReply ==> post.composer.reply is None && post.composer.input
            == pre.composer.input && fx.len() == 0,
        m is EditMessage ==> post.composer.editing_id == Some(m->EditMessage_0)
            && post.composer.input == m->EditMessage_1 && post.composer.editing_encrypted
            == m->EditMessage_2 && fx.len() == 0,
        m is CancelEdit ==> post.composer.editing_id is None && post.composer.input@.len() == 0
            && post.composer.reply == pre.composer.reply && fx.len() == 0,
        m is ArmReportMessage ==> post.chat.reporting_id == Some(m->ArmReportMessage_0) && fx.len()
            == 0,
        m is CancelReportMessage ==> post.chat.reporting_id is None && fx.len() == 0,
        m is TogglePinsPanel ==> post.chat.pins_panel_open == !pre.chat.pins_panel_open && fx.len()
            == 0,
        m is OpenAttachmentPreview ==> post.chat.preview_url == Some(m->OpenAttachmentPreview_0)
            && fx.len() == 0,
        m is CloseAttachmentPreview ==> post.chat.preview_url is None && fx.len() == 0,
        m is RemovePendingAttachment ==> post.composer.attachment is None && post.composer.input
            == pre.composer.input && fx.len() == 0,
        m is MessageHovered ==> post.chat.hovered_id == m->MessageHovered_0,
{
    broadcast use lemma_request;

}

/// A picked picture is attached with its kind, one that is too large is not
/// and the reason is shown, and without a pick nothing changes.
pub proof fn picked_pictures_are_attached(
    pre: App,
    pick: ImagePick,
    now: Now,
    post: App,
    fx: Seq<EffectView>,
)
    requires
        step(
            pre,
            Message::Compose(ComposeMessage::AttachmentFilePicked(pick)),
            now,
            post,
            fx,
        ),
    ensures
        fx.len() == 0,
        post.composer.input == pre.composer.input,
        pick is Ready ==> post.composer.attachment is Some && post.composer.attachment->0.bytes
            == pick->Ready_0 && post.composer.attachment->0.content_type == pick->Ready_1
            && post.chat.error is None,
        pick is TooLarge ==> post.composer == pre.composer && text_is(
            post.chat.error,
            "Attachment must be smaller than 5MB"@,
        ),
        pick is Cancelled ==> post == pre,
{
}

/// Outcomes: a failure is shown, a success clears the error line, and the next
/// message can be sent unless one is still being sealed.
pub proof fn outcomes_free_the_composer(
    pre: App,
    m: ComposeMessage,
    now: Now,
    post: App,
    fx: Seq<EffectView>,
)
    requires
        step(pre, Message::Compose(m), now, post, fx),
    ensures
        m is MessageSentFinished ==> {
            &&& post.composer.send_busy == (pre.composer.sealing is Some)
            &&& m->MessageSentFinished_0 is Ok ==> post.chat.error is None
            &&& m->MessageSentFinished_0 is Err ==> post.chat.error == Some(
                m->MessageSentFinished_0->Err_0,
            )
            &&& fx.len() == 0
        },
        m is EditFinished ==> {
            &&& post.composer.send_busy == (pre.composer.sealing is Some)
            &&& m->EditFinished_0 is Ok ==> post.chat.error is None && post.toast is Some
            &&& m->EditFinished_0 is Err ==> post.chat.error == Some(m->EditFinished_0->Err_0)
            &&& fx.len() == 0
        },
        m is DeleteFinished && m->DeleteFinished_0 is Err ==> post.chat.error == Some(
            m->DeleteFinished_0->Err_0,
        ),
        m is DeleteFinished && m->DeleteFinished_0 is Ok ==> post == pre,
        m is PurgeFinished && m->PurgeFinished_0 is Err ==> post.chat.error == Some(
            m->PurgeFinished_0->Err_0,
        ),
        m is PurgeFinished && m->PurgeFinished_0 is Ok ==> post == pre,
        m is ReactionToggled && m->ReactionToggled_0 is Err ==> post.chat.error == Some(
            m->ReactionToggled_0->Err_0,
        ),
        m is ReactionToggled && m->ReactionToggled_0 is Ok ==> post == pre,
        m is PinToggled && m->PinToggled_0 is Err ==> post.chat.error == Some(
            m->PinToggled_0->Err_0,
        ),
        m is PinToggled && m->PinToggled_0 is Ok ==> post.chat.error is None,
        m is MessageReportFinished && m->MessageReportFinished_0 is Err ==> post.chat.error == Some(
            m->MessageReportFinished_0->Err_0,
        ),
{
}

/// Clearing a chat asks first, never touches a server's channels, and removes
/// what is on screen of the open chat and nothing of another.
pub proof fn clearing_is_confirmed(
    pre: App,
    m: ComposeMessage,
    now: Now,
    post: App,
    fx: Seq<EffectView>,
    token: Seq<char>,
)
    requires
        step(pre, Message::Compose(m), now, post, fx),
    ensures
        m is ToggleClearChatConfirm ==> fx.len() == 0 && post.chat.messages == pre.chat.messages && (
        !pre.chat.clear_busy ==> post.chat.clear_confirm == !pre.chat.clear_confirm),
        m is ConfirmClearChat && (text_is(pre.place.kind, "channel"@) || text_is(
            pre.place.kind,
            "voice"@,
        )) ==> fx.len() == 0 && post.chat.messages == pre.chat.messages && post.peers == pre.peers
            && post.images == pre.images,
        m is ConfirmClearChat && !(text_is(pre.place.kind, "channel"@) || text_is(
            pre.place.kind,
            "voice"@,
        )) && online(pre, token) && pre.place.conversation is Some && !pre.chat.clear_busy ==> {
            &&& post.chat.messages@.len() == 0
            &&& post.chat.clear_busy
            &&& !post.chat.clear_confirm
            &&& fx.len() > 0
            &&& fx.last() == EffectView::ClearConversation {
                token,
                conversation_id: pre.place.conversation->0@,
            }
            &&& fx.contains(
                EffectView::WipeChat {
                    user_id: pre.session->0.user_id@,
                    conversation_id: Some(pre.place.conversation->0@),
                    peer_id: match pre.place.peer_id {
                        Some(p) => Some(p@),
                        None => None,
                    },
                },
            )
            &&& forall|i: int|
                0 <= i < fx.len() && (#[trigger] fx[i]) is SendPeerCmd ==> {
                    &&& text_is(pre.place.kind, "direct"@)
                    &&& text_is(pre.place.peer_id, fx[i]->SendPeerCmd_peer_id)
                    &&& fx[i]->SendPeerCmd_cmd == PeerCmdView::SendText(
                        pre.config.clear_history_ctrl@,
                    )
                }
            &&& text_is(pre.place.kind, "direct"@) && channel_up(pre) ==> fx[0] is SendPeerCmd
        },
        m is ClearChatFinished ==> !post.chat.clear_busy,
        m is ClearChatFinished && m->ClearChatFinished_0 is Ok ==> post.chat.messages@.len() == 0,
        m is ClearChatFinished && m->ClearChatFinished_0 is Err ==> post.chat.messages
            == pre.chat.messages && text_is(
            post.chat.error,
            "Server history: "@ + m->ClearChatFinished_0->Err_0@,
        ),
{
    if m is ConfirmClearChat && online(pre, token) && pre.place.conversation is Some
        && !pre.chat.clear_busy && !(text_is(pre.place.kind, "channel"@) || text_is(
        pre.place.kind,
        "voice"@,
    )) {
        assert(fx[fx.len() - 2] is WipeChat);
    }
}

} // verus!
