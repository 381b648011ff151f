//! Calls and screen sharing.

use crate::laws::asked::{changes, lemma_request, never_says, offline, online, switch, text};
use crate::state::app::{App, Now};
use crate::state::effect::{EffectView, Reply};
use crate::state::message::{CallEvent, CallMessage, Message};
use crate::state::types::CallRole;
use crate::state::update::step;
use crate::text::text_is;
use vstd::prelude::*;

verus! {

/// Someone else calls us and we have not answered.
pub open spec fn someone_calls(app: App) -> bool {
    app.calls.my_call is Some && app.calls.my_call->0.status@ == "ringing"@
        && !app.calls.my_call->0.is_caller
}

/// We have no part in a call, and nothing of a screen share is on screen.
pub open spec fn out_of_calls(app: App) -> bool {
    &&& app.calls.role is None
    &&& app.calls.engine_key is None
    &&& !app.share.is_sharing
    &&& !app.share.picker_open
    &&& app.share.remote_frame is None
}

/// Declining refuses the call that rings: the backend is told so of this call,
/// and is never told to accept it.
pub proof fn declining_refuses(pre: App, now: Now, post: App, fx: Seq<EffectView>, token: Seq<char>)
    requires
        step(pre, Message::Call(CallMessage::DeclineCall), now, post, fx),
    ensures
        post == pre,
        pre.calls.my_call is Some && online(pre, token) ==> changes(
            fx,
            token,
            "calls:respond"@,
            seq![text("callId"@, pre.calls.my_call->0.call_id@), switch("accept"@, false)],
            Reply::CallActionFinished,
        ),
        pre.calls.my_call is None || offline(pre) ==> fx.len() == 0,
        never_says(fx, switch("accept"@, true)),
{
    broadcast use lemma_request;

}

/// Hanging up leaves the call at once and ends it on the backend; what the
/// server says of the call stays until it says otherwise.
pub proof fn hanging_up_ends(pre: App, now: Now, post: App, fx: Seq<EffectView>, token: Seq<char>)
    requires
        step(pre, Message::Call(CallMessage::HangUp), now, post, fx),
    ensures
        out_of_calls(post),
        post.calls.status_text is None,
        post.calls.my_call == pre.calls.my_call,
        pre.calls.my_call is Some && online(pre, token) ==> changes(
            fx,
            token,
            "calls:endCall"@,
            seq![text("callId"@, pre.calls.my_call->0.call_id@)],
            Reply::CallActionFinished,
        ),
        pre.calls.my_call is None || offline(pre) ==> fx.len() == 0,
{
    broadcast use lemma_request;

}

/// Accepting joins the call that someone else started, with what they offered
/// and nothing muted; our own call cannot be accepted.
pub proof fn accepting_joins(pre: App, now: Now, post: App, fx: Seq<EffectView>)
    requires
        step(pre, Message::Call(CallMessage::AcceptCall), now, post, fx),
    ensures
        pre.calls.my_call is Some && !pre.calls.my_call->0.is_caller ==> {
            let call = pre.calls.my_call->0;
            &&& post.calls.role == Some(
                CallRole::Callee { call_id: call.call_id, offer_sdp: call.offer_sdp },
            )
            &&& text_is(post.calls.engine_key, "callee-"@ + call.call_id@)
            &&& text_is(post.calls.status_text, "Connecting..."@)
            &&& !post.calls.muted
            &&& !post.calls.output_muted
            &&& post.calls.my_call == pre.calls.my_call
            &&& !post.share.is_sharing
            &&& post.share.channel_open
            &&& fx.contains(EffectView::ResetCallMutes)
            &&& fx.contains(EffectView::ResetShareChannel)
        },
        pre.calls.my_call is None || pre.calls.my_call->0.is_caller ==> post == pre && fx.len() == 0,
        forall|i: int| 0 <= i < fx.len() ==> !(#[trigger] fx[i] is Call),
{
    if fx.len() == 2 {
        assert(fx[0] == EffectView::ResetCallMutes && fx[1] == EffectView::ResetShareChannel);
    }
}

/// A call goes to the other side of the open DM, and only while we are in no
/// other.
pub proof fn calls_go_to_the_open_dm(pre: App, now: Now, post: App, fx: Seq<EffectView>)
    requires
        step(pre, Message::Call(CallMessage::StartCall), now, post, fx),
    ensures
        pre.place.conversation is Some && pre.place.peer_id is Some && text_is(
            pre.place.kind,
            "direct"@,
        ) && pre.calls.my_call is None ==> {
            &&& post.calls.role == Some(
                CallRole::Caller {
                    conversation_id: pre.place.conversation->0,
                    callee_id: pre.place.peer_id->0,
                },
            )
            &&& post.calls.engine_key is Some
            &&& text_is(post.calls.status_text, "Calling..."@)
            &&& !post.calls.muted
            &&& !post.calls.output_muted
            &&& !post.share.is_sharing
            &&& post.share.channel_open
        },
        pre.calls.my_call is Some || !text_is(pre.place.kind, "direct"@) || pre.place.peer_id is None
            || pre.place.conversation is None ==> post == pre && fx.len() == 0,
        post.calls.my_call == pre.calls.my_call,
{
}

/// The bell starts when someone begins to call us and stops when that is over,
/// whoever ended it; the notification says who calls. Once the server knows of
/// no call, nothing of it is left.
pub proof fn the_bell_rings_for_callers(pre: App, m: CallMessage, now: Now, post: App, fx: Seq<EffectView>)
    requires
        step(pre, Message::Call(m), now, post, fx),
        m is MyCallUpdated,
    ensures
        post.calls.my_call == m->MyCallUpdated_0,
        fx.contains(EffectView::RingtoneStart) <==> !someone_calls(pre) && someone_calls(post),
        fx.contains(EffectView::RingtoneStop) <==> someone_calls(pre) && !someone_calls(post),
        !someone_calls(pre) && someone_calls(post) ==> fx.contains(
            EffectView::Notify {
                title: "Incoming call"@,
                body: post.calls.my_call->0.peer_display_name@ + " is calling you"@,
            },
        ),
        post.calls.my_call is None ==> out_of_calls(post) && post.calls.status_text is None,
        post.calls.my_call is Some ==> post.calls.role == pre.calls.role && post.calls.engine_key
            == pre.calls.engine_key && post.share == pre.share,
{
    if fx.len() == 2 {
        assert(fx[0] == EffectView::RingtoneStart && fx[1] is Notify);
    } else if fx.len() == 1 {
        assert(fx[0] == EffectView::RingtoneStop);
    }
}

/// The microphone switch turns the microphone over and nothing else.
pub proof fn mute_is_a_switch(pre: App, now: Now, post: App, fx: Seq<EffectView>)
    requires
        step(pre, Message::Call(CallMessage::ToggleMute), now, post, fx),
    ensures
        post.calls.muted == !pre.calls.muted,
        post.calls.output_muted == pre.calls.output_muted,
        post.calls.role == pre.calls.role,
        post.calls.my_call == pre.calls.my_call,
        fx.len() == 0,
{
}

/// The switch for both directions mutes both, unless both were muted: then it
/// opens both.
pub proof fn mute_all_treats_both_alike(pre: App, now: Now, post: App, fx: Seq<EffectView>)
    requires
        step(pre, Message::Call(CallMessage::ToggleMuteAll), now, post, fx),
    ensures
        post.calls.muted == post.calls.output_muted,
        post.calls.muted <==> !(pre.calls.muted && pre.calls.output_muted),
        post.calls.role == pre.calls.role,
        fx.len() == 0,
{
}

/// A call that failed is over on our side, is ended on the backend so that it
/// blocks no other, and its reason is shown.
pub proof fn failed_calls_are_torn_down(
    pre: App,
    why: String,
    now: Now,
    post: App,
    fx: Seq<EffectView>,
    token: Seq<char>,
)
    requires
        step(
            pre,
            Message::Call(CallMessage::CallEngineEvent(CallEvent::Failed(why))),
            now,
            post,
            fx,
        ),
    ensures
        out_of_calls(post),
        text_is(post.calls.status_text, "Call failed: "@ + why@),
        text_is(post.chat.error, "Call failed: "@ + why@),
        pre.calls.my_call is Some && online(pre, token) ==> changes(
            fx,
            token,
            "calls:endCall"@,
            seq![text("callId"@, pre.calls.my_call->0.call_id@)],
            Reply::Ignored,
        ),
        pre.calls.my_call is None || offline(pre) ==> fx.len() == 0,
{
    broadcast use lemma_request;

}

/// What the engine reports is what the banner and the share pane show.
pub proof fn the_engine_is_believed(pre: App, ev: CallEvent, now: Now, post: App, fx: Seq<EffectView>)
    requires
        step(pre, Message::Call(CallMessage::CallEngineEvent(ev)), now, post, fx),
    ensures
        ev is Created ==> post == pre,
        ev is Connecting ==> text_is(post.calls.status_text, "Connecting..."@) && post.calls.role
            == pre.calls.role,
        ev is Connected ==> text_is(post.calls.status_text, "Connected"@) && post.calls.role
            == pre.calls.role,
        ev is Ended ==> out_of_calls(post) && post.calls.status_text is None,
        ev is ScreenFrame ==> post.share.remote_frame == Some(ev->ScreenFrame_0),
        ev is ScreenShareStopped ==> post.share.remote_frame is None && post.share.is_sharing
            == pre.share.is_sharing && post.share.stats_line@.len() == 0,
        ev is ScreenShareFailed ==> !post.share.is_sharing && post.chat.error == Some(
            ev->ScreenShareFailed_0,
        ) && post.share.remote_frame == pre.share.remote_frame,
        ev is PeerMuteStream ==> {
            let muted = ev->PeerMuteStream_0;
            &&& post.share.system_audio == !muted
            &&& pre.share.channel_open ==> fx == seq![EffectView::SetSystemAudio(!muted)]
            &&& !pre.share.channel_open ==> fx.len() == 0
            &&& muted ==> text_is(post.chat.error, "Peer muted your stream audio"@)
            &&& !muted ==> post.chat.error == pre.chat.error
        },
        ev matches CallEvent::ShareStats { fps, kbps, frame_kb, system_audio } ==> {
            let line = post.share.stats_line@;
            &&& system_audio ==> line == fps@ + " fps · "@ + kbps@ + " kbps · "@ + (frame_kb@
                + " KB/frame · sys audio"@)
            &&& !system_audio ==> line == fps@ + " fps · "@ + kbps@ + " kbps · "@ + (frame_kb@
                + " KB/frame"@)
            &&& post.share.is_sharing == pre.share.is_sharing
        },
        !(ev is Failed) && !(ev is PeerMuteStream) ==> fx.len() == 0,
        post.calls.my_call == pre.calls.my_call,
{
}

/// A failed action is shown in the banner and the chat; one that went through
/// changes nothing.
pub proof fn call_actions_report(pre: App, r: Result<(), String>, now: Now, post: App, fx: Seq<EffectView>)
    requires
        step(pre, Message::Call(CallMessage::CallActionFinished(r)), now, post, fx),
    ensures
        fx.len() == 0,
        r is Ok ==> post == pre,
        r is Err ==> post.calls.status_text == Some(r->Err_0) && post.chat.error == Some(r->Err_0)
            && post.calls.role == pre.calls.role && post.calls.my_call == pre.calls.my_call,
{
}

/// What is picked is what is shared: a window by its title, a monitor by its
/// name, with the system's sound as switched. Without a call to carry it, or
/// for anything else, nothing is shared.
pub proof fn picked_targets_are_shared(
    pre: App,
    id: String,
    name: Seq<char>,
    window: bool,
    now: Now,
    post: App,
    fx: Seq<EffectView>,
)
    requires
        step(pre, Message::Call(CallMessage::StartShare(id)), now, post, fx),
        id@ == if window {
            "window:"@ + name
        } else {
            "monitor:"@ + name
        },
    ensures
        !post.share.picker_open,
        pre.share.channel_open ==> post.share.is_sharing && fx == seq![
            EffectView::StartShare {
                window,
                name,
                include_system_audio: pre.share.system_audio,
            },
        ],
        !pre.share.channel_open ==> post.share.is_sharing == pre.share.is_sharing && fx.len() == 0,
{
    reveal_strlit("window:");
    reveal_strlit("monitor:");
    assert("window:"@[0] == 'w' && "monitor:"@[0] == 'm');
    let p = if window {
        "window:"@
    } else {
        "monitor:"@
    };
    assert(id@.take(p.len() as int) =~= p);
    assert(id@.subrange(p.len() as int, id@.len() as int) =~= name);
    assert(id@[0] == p[0]);
    if window {
        assert(id@.take("monitor:"@.len() as int)[0] == id@[0] || id@.len() < "monitor:"@.len());
    }
}

/// The switches of the share pane: stopping stops the share, muting mutes what
/// the other side streams, and the system's sound is told only while we share.
pub proof fn share_switches(pre: App, m: CallMessage, now: Now, post: App, fx: Seq<EffectView>)
    requires
        step(pre, Message::Call(m), now, post, fx),
    ensures
        m is StopShare ==> {
            &&& !post.share.is_sharing
            &&& post.share.stats_line@.len() == 0
            &&& pre.share.channel_open ==> fx == seq![EffectView::StopShare]
            &&& !pre.share.channel_open ==> fx.len() == 0
        },
        m is ToggleStreamMute ==> {
            &&& post.share.remote_muted == !pre.share.remote_muted
            &&& pre.share.channel_open ==> fx == seq![
                EffectView::SetRemoteStreamMuted(post.share.remote_muted),
            ]
            &&& !pre.share.channel_open ==> fx.len() == 0
        },
        m is ToggleShareSystemAudio ==> {
            &&& post.share.system_audio == !pre.share.system_audio
            &&& post.share.is_sharing == pre.share.is_sharing
            &&& pre.share.channel_open && pre.share.is_sharing ==> fx == seq![
                EffectView::SetSystemAudio(post.share.system_audio),
            ]
            &&& !pre.share.channel_open || !pre.share.is_sharing ==> fx.len() == 0
        },
        m is ToggleShareViewSize ==> post.share.view_expanded == !pre.share.view_expanded && fx.len()
            == 0,
        m is ToggleSharePicker ==> {
            &&& post.share.picker_open == !pre.share.picker_open
            &&& post.share.picker_open ==> fx == seq![EffectView::ListShareTargets]
            &&& !post.share.picker_open ==> fx.len() == 0
        },
        m is ShareTargetsLoaded ==> post.share.targets == m->ShareTargetsLoaded_0 && fx.len() == 0,
{
}

} // verus!
