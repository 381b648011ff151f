//! Calls and screen sharing.

use crate::state::app::{mutation, App, Calls, Chat, Now, Share};
use crate::state::effect::{
    arg, both, nothing, one, two, views, Arg, ArgView, CallKind, Effect, EffectView, Reply,
    ShareCommand,
};
use crate::state::lifecycle::{share_cleared, share_reset};
use crate::state::message::{CallEvent, CallMessage};
use crate::state::types::{CallRole, MyCallInfo};
use crate::text::{
    cat2, cat5, decimal_signed, is_text, owned, signed_digits, text_is,
};
use crate::ui::share_targets::{decode_share_target, target_of};
use vstd::prelude::*;

verus! {

/// Someone rings.
pub open spec fn rings(call: Option<MyCallInfo>) -> bool {
    match call {
        Some(c) => c.rings(),
        None => false,
    }
}

fn is_ringing(call: &Option<MyCallInfo>) -> (r: bool)
    ensures
        r == rings(*call),
{
    match call {
        Some(c) => c.is_ringing(),
        None => false,
    }
}

/// No call of ours is going on.
pub open spec fn call_dropped(c: Calls) -> Calls {
    Calls { role: None, engine_key: None, status_text: None, ..c }
}

/// What the server's news about our call do: the bell starts and stops, and
/// without a call everything about it is gone.
pub open spec fn my_call_step(pre: App, info: Option<MyCallInfo>, post: App, fx: Seq<EffectView>) -> bool {
    let was = rings(pre.calls.my_call);
    let now_on = rings(info);
    &&& post == (App {
        calls: Calls {
            my_call: info,
            ..if info is None {
                call_dropped(pre.calls)
            } else {
                pre.calls
            }
        },
        share: if info is None {
            share_cleared(pre.share)
        } else {
            pre.share
        },
        ..pre
    })
    &&& fx == if !was && now_on {
        seq![
            EffectView::RingtoneStart,
            EffectView::Notify {
                title: "Incoming call"@,
                body: info->0.peer_display_name@ + " is calling you"@,
            },
        ]
    } else if was && !now_on {
        seq![EffectView::RingtoneStop]
    } else {
        Seq::empty()
    }
}

/// A call of ours starts, with nothing muted and a fresh screen share.
pub open spec fn call_starts(
    pre: App,
    status: Seq<char>,
    key: Seq<char>,
    post: App,
    fx: Seq<EffectView>,
) -> bool {
    &&& post == (App {
        calls: Calls {
            muted: false,
            output_muted: false,
            status_text: post.calls.status_text,
            role: post.calls.role,
            engine_key: post.calls.engine_key,
            ..pre.calls
        },
        share: post.share,
        ..pre
    })
    &&& text_is(post.calls.status_text, status)
    &&& text_is(post.calls.engine_key, key)
    &&& share_reset(pre.share, post.share)
    &&& fx == seq![EffectView::ResetCallMutes, EffectView::ResetShareChannel]
}

/// What the "call" button does: only in a DM, and only while in no call.
pub open spec fn start_call_step(pre: App, now: Now, post: App, fx: Seq<EffectView>) -> bool {
    match (pre.place.conversation, pre.place.peer_id) {
        (Some(c), Some(p)) => if !text_is(pre.place.kind, "direct"@) || pre.calls.my_call is Some {
            post == pre && fx.len() == 0
        } else {
            &&& call_starts(
                pre,
                "Calling..."@,
                "caller-"@ + signed_digits(now.unix_ms as int),
                post,
                fx,
            )
            &&& post.calls.role == Some(CallRole::Caller { conversation_id: c, callee_id: p })
        },
        _ => post == pre && fx.len() == 0,
    }
}

/// What the "accept" button does.
pub open spec fn accept_step(pre: App, post: App, fx: Seq<EffectView>) -> bool {
    match pre.calls.my_call {
        Some(call) => if call.is_caller {
            post == pre && fx.len() == 0
        } else {
            &&& call_starts(pre, "Connecting..."@, "callee-"@ + call.call_id@, post, fx)
            &&& post.calls.role == Some(
                CallRole::Callee { call_id: call.call_id, offer_sdp: call.offer_sdp },
            )
        },
        None => post == pre && fx.len() == 0,
    }
}

/// The call that ends our call on the server.
pub open spec fn end_call(app: App, reply: Reply) -> Seq<EffectView> {
    match app.calls.my_call {
        Some(call) => mutation(
            app,
            "calls:endCall"@,
            seq![("callId"@, ArgView::Str(call.call_id@))],
            reply,
        ),
        None => Seq::empty(),
    }
}

/// The statistics line of a screen share.
pub open spec fn stats_line(fps: Seq<char>, kbps: Seq<char>, frame_kb: Seq<char>, system_audio: bool) -> Seq<
    char,
> {
    fps + " fps · "@ + kbps + " kbps · "@ + (frame_kb + (if system_audio {
        " KB/frame · sys audio"@
    } else {
        " KB/frame"@
    }))
}

/// What the engine of a call reported.
pub open spec fn engine_step(pre: App, ev: CallEvent, post: App, fx: Seq<EffectView>) -> bool {
    match ev {
        CallEvent::Created => post == pre && fx.len() == 0,
        CallEvent::Connecting => {
            &&& post == (App {
                calls: Calls { status_text: post.calls.status_text, ..pre.calls },
                ..pre
            })
            &&& text_is(post.calls.status_text, "Connecting..."@)
            &&& fx.len() == 0
        },
        CallEvent::Connected => {
            &&& post == (App {
                calls: Calls { status_text: post.calls.status_text, ..pre.calls },
                ..pre
            })
            &&& text_is(post.calls.status_text, "Connected"@)
            &&& fx.len() == 0
        },
        CallEvent::Ended => {
            &&& post == (App {
                calls: call_dropped(pre.calls),
                share: share_cleared(pre.share),
                ..pre
            })
            &&& fx.len() == 0
        },
        CallEvent::Failed(msg) => {
            &&& post == (App {
                calls: Calls { status_text: post.calls.status_text, ..call_dropped(pre.calls) },
                chat: Chat { error: post.chat.error, ..pre.chat },
                share: share_cleared(pre.share),
                ..pre
            })
            &&& text_is(post.calls.status_text, "Call failed: "@ + msg@)
            &&& text_is(post.chat.error, "Call failed: "@ + msg@)
            &&& fx == end_call(pre, Reply::Ignored)
        },
        CallEvent::ScreenFrame(bytes) => {
            &&& post == (App { share: Share { remote_frame: Some(bytes), ..pre.share }, ..pre })
            &&& fx.len() == 0
        },
        CallEvent::ScreenShareStopped => {
            &&& post == (App {
                share: Share {
                    remote_frame: None,
                    stats_line: post.share.stats_line,
                    ..pre.share
                },
                ..pre
            })
            &&& post.share.stats_line@.len() == 0
            &&& fx.len() == 0
        },
        CallEvent::ScreenShareFailed(msg) => {
            &&& post == (App {
                share: Share { is_sharing: false, stats_line: post.share.stats_line, ..pre.share },
                chat: Chat { error: Some(msg), ..pre.chat },
                ..pre
            })
            &&& post.share.stats_line@.len() == 0
            &&& fx.len() == 0
        },
        CallEvent::ShareStats { fps, kbps, frame_kb, system_audio } => {
            &&& post == (App {
                share: Share { stats_line: post.share.stats_line, ..pre.share },
                ..pre
            })
            &&& post.share.stats_line@ == stats_line(fps@, kbps@, frame_kb@, system_audio)
            &&& fx.len() == 0
        },
        CallEvent::PeerMuteStream(muted) => {
            &&& post == (App {
                share: Share { system_audio: !muted, ..pre.share },
                chat: Chat {
                    error: if muted {
                        post.chat.error
                    } else {
                        pre.chat.error
                    },
                    ..pre.chat
                },
                ..pre
            })
            &&& muted ==> text_is(post.chat.error, "Peer muted your stream audio"@)
            &&& fx == if pre.share.channel_open {
                seq![EffectView::SetSystemAudio(!muted)]
            } else {
                Seq::empty()
            }
        },
    }
}

/// What picking something to share does.
pub open spec fn share_step(pre: App, id: Seq<char>, post: App, fx: Seq<EffectView>) -> bool {
    match target_of(id) {
        Some(t) => {
            &&& post == (App {
                share: Share {
                    picker_open: false,
                    is_sharing: pre.share.is_sharing || pre.share.channel_open,
                    ..pre.share
                },
                ..pre
            })
            &&& fx == if pre.share.channel_open {
                seq![
                    EffectView::StartShare {
                        window: t.0,
                        name: t.1,
                        include_system_audio: pre.share.system_audio,
                    },
                ]
            } else {
                Seq::empty()
            }
        },
        None => post == pre && fx.len() == 0,
    }
}

/// A command to the screen share, where there is a call to take it.
pub open spec fn to_share(app: App, cmd: EffectView) -> Seq<EffectView> {
    if app.share.channel_open {
        seq![cmd]
    } else {
        Seq::empty()
    }
}

/// What a message about calls does.
pub open spec fn call_step(pre: App, m: CallMessage, now: Now, post: App, fx: Seq<EffectView>) -> bool {
    match m {
        CallMessage::MyCallUpdated(info) => my_call_step(pre, info, post, fx),
        CallMessage::StartCall => start_call_step(pre, now, post, fx),
        CallMessage::AcceptCall => accept_step(pre, post, fx),
        CallMessage::DeclineCall => {
            &&& post == pre
            &&& fx == match pre.calls.my_call {
                Some(call) => mutation(
                    pre,
                    "calls:respond"@,
                    seq![
                        ("callId"@, ArgView::Str(call.call_id@)),
                        ("accept"@, ArgView::Bool(false)),
                    ],
                    Reply::CallActionFinished,
                ),
                None => Seq::empty(),
            }
        },
        CallMessage::HangUp => {
            &&& post == (App {
                calls: call_dropped(pre.calls),
                share: share_cleared(pre.share),
                ..pre
            })
            &&& fx == end_call(pre, Reply::CallActionFinished)
        },
        CallMessage::ToggleMute => {
            &&& post == (App { calls: Calls { muted: !pre.calls.muted, ..pre.calls }, ..pre })
            &&& fx.len() == 0
        },
        CallMessage::ToggleMuteAll => {
            let next = !(pre.calls.muted && pre.calls.output_muted);
            &&& post == (App {
                calls: Calls { muted: next, output_muted: next, ..pre.calls },
                ..pre
            })
            &&& fx.len() == 0
        },
        CallMessage::CallActionFinished(Ok(())) => post == pre && fx.len() == 0,
        CallMessage::CallActionFinished(Err(err)) => {
            &&& post == (App {
                calls: Calls { status_text: Some(err), ..pre.calls },
                chat: Chat { error: Some(err), ..pre.chat },
                ..pre
            })
            &&& fx.len() == 0
        },
        CallMessage::CallEngineEvent(ev) => engine_step(pre, ev, post, fx),
        CallMessage::ToggleSharePicker => {
            &&& post == (App {
                share: Share { picker_open: !pre.share.picker_open, ..pre.share },
                ..pre
            })
            &&& fx == if pre.share.picker_open {
                Seq::empty()
            } else {
                seq![EffectView::ListShareTargets]
            }
        },
        CallMessage::ShareTargetsLoaded(targets) => {
            &&& post == (App { share: Share { targets, ..pre.share }, ..pre })
            &&& fx.len() == 0
        },
        CallMessage::StartShare(id) => share_step(pre, id@, post, fx),
        CallMessage::StopShare => {
            &&& post == (App {
                share: Share { is_sharing: false, stats_line: post.share.stats_line, ..pre.share },
                ..pre
            })
            &&& post.share.stats_line@.len() == 0
            &&& fx == to_share(pre, EffectView::StopShare)
        },
        CallMessage::ToggleShareViewSize => {
            &&& post == (App {
                share: Share { view_expanded: !pre.share.view_expanded, ..pre.share },
                ..pre
            })
            &&& fx.len() == 0
        },
        CallMessage::ToggleStreamMute => {
            &&& post == (App {
                share: Share { remote_muted: !pre.share.remote_muted, ..pre.share },
                ..pre
            })
            &&& fx == to_share(pre, EffectView::SetRemoteStreamMuted(!pre.share.remote_muted))
        },
        CallMessage::ToggleShareSystemAudio => {
            &&& post == (App {
                share: Share { system_audio: !pre.share.system_audio, ..pre.share },
                ..pre
            })
            &&& fx == if pre.share.is_sharing {
                to_share(pre, EffectView::SetSystemAudio(!pre.share.system_audio))
            } else {
                Seq::empty()
            }
        },
    }
}

/// The bell rings exactly while someone calls: as long as it was told of every
/// change, it was last told to start where someone rings.
pub proof fn bell_follows_calls(pre: App, info: Option<MyCallInfo>, post: App, fx: Seq<EffectView>)
    requires
        my_call_step(pre, info, post, fx),
    ensures
        rings(post.calls.my_call) == rings(info),
        fx.contains(EffectView::RingtoneStart) <==> !rings(pre.calls.my_call) && rings(
            post.calls.my_call,
        ),
        fx.contains(EffectView::RingtoneStop) <==> rings(pre.calls.my_call) && !rings(
            post.calls.my_call,
        ),
{
    if !rings(pre.calls.my_call) && rings(info) {
        assert(fx[0] == EffectView::RingtoneStart);
        assert(fx[1] is Notify);
    } else if rings(pre.calls.my_call) && !rings(info) {
        assert(fx[0] == EffectView::RingtoneStop);
    }
}

impl App {
    fn my_call_updated(&mut self, info: Option<MyCallInfo>) -> (fx: Vec<Effect>)
        ensures
            my_call_step(*old(self), info, *final(self), views(fx@)),
    {
        let was = is_ringing(&self.calls.my_call);
        let now_ringing = is_ringing(&info);
        let fx = if !was && now_ringing {
            match &info {
                Some(call) => two(
                    Effect::RingtoneStart,
                    Effect::Notify {
                        title: owned("Incoming call"),
                        body: cat2(&call.peer_display_name, " is calling you"),
                    },
                ),
                None => nothing(),
            }
        } else if was && !now_ringing {
            one(Effect::RingtoneStop)
        } else {
            nothing()
        };
        if info.is_none() {
            self.drop_call();
            self.share.clear_share_ui();
        }
        self.calls.my_call = info;
        fx
    }

    fn drop_call(&mut self)
        ensures
            *final(self) == (App { calls: call_dropped(old(self).calls), ..*old(self) }),
    {
        self.calls.role = None;
        self.calls.engine_key = None;
        self.calls.status_text = None;
    }

    fn begin_call(&mut self, status: &str, role: CallRole, key: String) -> (fx: Vec<Effect>)
        ensures
            call_starts(*old(self), status@, key@, *final(self), views(fx@)),
            final(self).calls.role == Some(role),
    {
        self.calls.muted = false;
        self.calls.output_muted = false;
        self.calls.status_text = Some(owned(status));
        self.calls.role = Some(role);
        self.calls.engine_key = Some(key);
        let reset = self.share.reset_share_state();
        let fx = both(one(Effect::ResetCallMutes), reset);
        assert(views(fx@) =~= seq![EffectView::ResetCallMutes, EffectView::ResetShareChannel]);
        fx
    }

    fn start_call(&mut self, now: Now) -> (fx: Vec<Effect>)
        ensures
            start_call_step(*old(self), now, *final(self), views(fx@)),
    {
        let conversation_id = match &self.place.conversation {
            Some(c) => c.clone(),
            None => {
                return nothing();
            },
        };
        let callee_id = match &self.place.peer_id {
            Some(p) => p.clone(),
            None => {
                return nothing();
            },
        };
        if !is_text(&self.place.kind, "direct") || self.calls.my_call.is_some() {
            return nothing();
        }
        self.begin_call(
            "Calling...",
            CallRole::Caller { conversation_id, callee_id },
            cat2("caller-", &decimal_signed(now.unix_ms)),
        )
    }

    fn accept_call(&mut self) -> (fx: Vec<Effect>)
        ensures
            accept_step(*old(self), *final(self), views(fx@)),
    {
        let (role, key) = match &self.calls.my_call {
            Some(call) => {
                if call.is_caller {
                    return nothing();
                }
                (
                    CallRole::Callee {
                        call_id: call.call_id.clone(),
                        offer_sdp: call.offer_sdp.clone(),
                    },
                    cat2("callee-", &call.call_id),
                )
            },
            None => {
                return nothing();
            },
        };
        self.begin_call("Connecting...", role, key)
    }

    fn ask_end_call(&self, reply: Reply) -> (fx: Vec<Effect>)
        ensures
            views(fx@) == end_call(*self, reply),
    {
        match &self.calls.my_call {
            Some(call) => self.ask1(
                CallKind::Mutation,
                "calls:endCall",
                "callId",
                arg(&call.call_id),
                reply,
            ),
            None => nothing(),
        }
    }

    fn to_share(&self, cmd: ShareCommand) -> (fx: Vec<Effect>)
        ensures
            views(fx@) == to_share(*self, Effect::ShareCommand(cmd)@),
    {
        if self.share.channel_open {
            one(Effect::ShareCommand(cmd))
        } else {
            nothing()
        }
    }

    fn call_failed(&mut self, msg: String) -> (fx: Vec<Effect>)
        ensures
            engine_step(*old(self), CallEvent::Failed(msg), *final(self), views(fx@)),
    {
        let fx = self.ask_end_call(Reply::Ignored);
        self.drop_call();
        self.calls.status_text = Some(cat2("Call failed: ", &msg));
        self.chat.error = Some(cat2("Call failed: ", &msg));
        self.share.clear_share_ui();
        fx
    }

    fn peer_mute_stream(&mut self, muted: bool) -> (fx: Vec<Effect>)
        ensures
            engine_step(*old(self), CallEvent::PeerMuteStream(muted), *final(self), views(fx@)),
    {
        let fx = self.to_share(ShareCommand::SetSystemAudio(!muted));
        self.share.system_audio = !muted;
        if muted {
            self.chat.error = Some(owned("Peer muted your stream audio"));
        }
        fx
    }

    fn call_engine_event(&mut self, ev: CallEvent) -> (fx: Vec<Effect>)
        ensures
            engine_step(*old(self), ev, *final(self), views(fx@)),
    {
        match ev {
            CallEvent::Created => nothing(),
            CallEvent::Connecting => {
                self.calls.status_text = Some(owned("Connecting..."));
                nothing()
            },
            CallEvent::Connected => {
                self.calls.status_text = Some(owned("Connected"));
                nothing()
            },
            CallEvent::Ended => {
                self.drop_call();
                self.share.clear_share_ui();
                nothing()
            },
            CallEvent::Failed(msg) => self.call_failed(msg),
            CallEvent::ScreenFrame(bytes) => {
                self.share.remote_frame = Some(bytes);
                nothing()
            },
            CallEvent::ScreenShareStopped => {
                self.share.remote_frame = None;
                self.share.stats_line = String::new();
                nothing()
            },
            CallEvent::ScreenShareFailed(msg) => {
                self.share.is_sharing = false;
                self.share.stats_line = String::new();
                self.chat.error = Some(msg);
                nothing()
            },
            CallEvent::ShareStats { fps, kbps, frame_kb, system_audio } => {
                let tail = if system_audio {
                    cat2(&frame_kb, " KB/frame · sys audio")
                } else {
                    cat2(&frame_kb, " KB/frame")
                };
                self.share.stats_line = cat5(&fps, " fps · ", &kbps, " kbps · ", &tail);
                nothing()
            },
            CallEvent::PeerMuteStream(muted) => self.peer_mute_stream(muted),
        }
    }

    fn start_share(&mut self, id: &str) -> (fx: Vec<Effect>)
        ensures
            share_step(*old(self), id@, *final(self), views(fx@)),
    {
        match decode_share_target(id) {
            Some(target) => {
                self.share.picker_open = false;
                if !self.share.channel_open {
                    return nothing();
                }
                self.share.is_sharing = true;
                one(
                    Effect::ShareCommand(
                        ShareCommand::Start {
                            target,
                            include_system_audio: self.share.system_audio,
                        },
                    ),
                )
            },
            None => nothing(),
        }
    }

    fn toggle_share_picker(&mut self) -> (fx: Vec<Effect>)
        ensures
            call_step(
                *old(self),
                CallMessage::ToggleSharePicker,
                Now { tick_ms: 0, unix_ms: 0 },
                *final(self),
                views(fx@),
            ),
    {
        self.share.picker_open = !self.share.picker_open;
        if self.share.picker_open {
            one(Effect::ListShareTargets)
        } else {
            nothing()
        }
    }

    fn stop_share(&mut self) -> (fx: Vec<Effect>)
        ensures
            call_step(
                *old(self),
                CallMessage::StopShare,
                Now { tick_ms: 0, unix_ms: 0 },
                *final(self),
                views(fx@),
            ),
    {
        self.share.is_sharing = false;
        self.share.stats_line = String::new();
        self.to_share(ShareCommand::Stop)
    }

    fn toggle_stream_mute(&mut self) -> (fx: Vec<Effect>)
        ensures
            call_step(
                *old(self),
                CallMessage::ToggleStreamMute,
                Now { tick_ms: 0, unix_ms: 0 },
                *final(self),
                views(fx@),
            ),
    {
        self.share.remote_muted = !self.share.remote_muted;
        self.to_share(ShareCommand::SetRemoteStreamMuted(self.share.remote_muted))
    }

    fn toggle_share_audio(&mut self) -> (fx: Vec<Effect>)
        ensures
            call_step(
                *old(self),
                CallMessage::ToggleShareSystemAudio,
                Now { tick_ms: 0, unix_ms: 0 },
                *final(self),
                views(fx@),
            ),
    {
        self.share.system_audio = !self.share.system_audio;
        if self.share.is_sharing {
            self.to_share(ShareCommand::SetSystemAudio(self.share.system_audio))
        } else {
            nothing()
        }
    }

    fn hang_up(&mut self) -> (fx: Vec<Effect>)
        ensures
            call_step(
                *old(self),
                CallMessage::HangUp,
                Now { tick_ms: 0, unix_ms: 0 },
                *final(self),
                views(fx@),
            ),
    {
        let fx = self.ask_end_call(Reply::CallActionFinished);
        self.drop_call();
        self.share.clear_share_ui();
        fx
    }

    /// Handles a message about calls.
    #[verifier::rlimit(80)]
    pub fn update_calls(&mut self, m: CallMessage, now: Now) -> (fx: Vec<Effect>)
        ensures
            call_step(*old(self), m, now, *final(self), views(fx@)),
    {
        match m {
            CallMessage::MyCallUpdated(info) => self.my_call_updated(info),
            CallMessage::StartCall => self.start_call(now),
            CallMessage::AcceptCall => self.accept_call(),
            CallMessage::DeclineCall => match &self.calls.my_call {
                Some(call) => self.ask2(
                    CallKind::Mutation,
                    "calls:respond",
                    "callId",
                    arg(&call.call_id),
                    "accept",
                    Arg::Bool(false),
                    Reply::CallActionFinished,
                ),
                None => nothing(),
            },
            CallMessage::HangUp => self.hang_up(),
            CallMessage::ToggleMute => {
                self.calls.muted = !self.calls.muted;
                nothing()
            },
            CallMessage::ToggleMuteAll => {
                let next = !(self.calls.muted && self.calls.output_muted);
                self.calls.muted = next;
                self.calls.output_muted = next;
                nothing()
            },
            CallMessage::CallActionFinished(Ok(_)) => nothing(),
            CallMessage::CallActionFinished(Err(err)) => {
                self.calls.status_text = Some(err.clone());
                self.chat.error = Some(err);
                nothing()
            },
            CallMessage::CallEngineEvent(ev) => self.call_engine_event(ev),
            CallMessage::ToggleSharePicker => self.toggle_share_picker(),
            CallMessage::ShareTargetsLoaded(targets) => {
                self.share.targets = targets;
                nothing()
            },
            CallMessage::StartShare(id) => self.start_share(&id),
            CallMessage::StopShare => self.stop_share(),
            CallMessage::ToggleShareViewSize => {
                self.share.view_expanded = !self.share.view_expanded;
                nothing()
            },
            CallMessage::ToggleStreamMute => self.toggle_stream_mute(),
            CallMessage::ToggleShareSystemAudio => self.toggle_share_audio(),
        }
    }
}

} // verus!
