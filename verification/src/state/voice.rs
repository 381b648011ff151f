//! Voice rooms.

use crate::state::app::{mutation, toasts, App, Audio, Calls, Chat, Now, Servers, Voice};
use crate::state::effect::{
    nothing, one, views, Arg, ArgView, CallKind, Effect, EffectView, Reply,
};
use crate::state::message::{RoomVoiceEvent, VoiceMessage};
use crate::text::{owned, text_is};
use vstd::prelude::*;

verus! {

/// The bits of the largest gain, five times as loud.
pub const MAX_GAIN: u32 = 0x40A0_0000;

/// The bits of a gain brought into the range from nothing to [`MAX_GAIN`].
/// The bits are those of an IEEE 754 single: the numbers below zero lie
/// between those of negative zero and of negative infinity, and the numbers
/// above a positive one lie above its bits, up to those of infinity. What is
/// no number stays what it is.
pub open spec fn clamped_gain(bits: u32) -> u32 {
    if 0x8000_0000 < bits && bits <= 0xFF80_0000 {
        0
    } else if MAX_GAIN < bits && bits <= 0x7F80_0000 {
        MAX_GAIN
    } else {
        bits
    }
}

/// [`clamped_gain`], computed.
pub fn clamp_gain(bits: u32) -> (r: u32)
    ensures
        r == clamped_gain(bits),
{
    if 0x8000_0000 < bits && bits <= 0xFF80_0000 {
        0
    } else if MAX_GAIN < bits && bits <= 0x7F80_0000 {
        MAX_GAIN
    } else {
        bits
    }
}

/// The status line of the voice room shows `text`.
pub open spec fn voice_says(pre: App, text: Seq<char>, post: App) -> bool {
    &&& post == (App { voice: Voice { room_status: post.voice.room_status, ..pre.voice }, ..pre })
    &&& text_is(post.voice.room_status, text)
}

/// What asking to leave the voice room does.
pub open spec fn leave_step(pre: App, post: App, fx: Seq<EffectView>) -> bool {
    if pre.token() is None {
        post == pre && fx.len() == 0
    } else {
        &&& post == (App {
            voice: Voice { active_channel: None, room_status: None, users: post.voice.users },
            ..pre
        })
        &&& post.voice.users@.len() == 0
        &&& fx == mutation(
            pre,
            "voice:leave"@,
            match pre.voice.active_channel {
                Some(id) => seq![("conversationId"@, ArgView::Str(id@))],
                None => seq![],
            },
            Reply::VoiceLeft,
        )
    }
}

/// We are in a voice room; a private call that was on ends.
pub open spec fn voice_joined(pre: App, channel: String, now: Now, post: App) -> bool {
    &&& post == (App {
        voice: Voice {
            active_channel: Some(channel),
            room_status: post.voice.room_status,
            ..pre.voice
        },
        calls: if pre.calls.role is Some {
            Calls { role: None, engine_key: None, ..pre.calls }
        } else {
            pre.calls
        },
        toast: post.toast,
        ..pre
    })
    &&& text_is(post.voice.room_status, "Connecting voice…"@)
    &&& toasts(post.toast, "Joined voice — mesh connecting"@, now)
}

/// What the engine of the voice room reported.
pub open spec fn room_voice_step(pre: App, ev: RoomVoiceEvent, post: App) -> bool {
    match ev {
        RoomVoiceEvent::Connecting => voice_says(pre, "Connecting voice…"@, post),
        RoomVoiceEvent::Connected => voice_says(pre, "Voice connected"@, post),
        RoomVoiceEvent::Status(s) => post == (App {
            voice: Voice { room_status: Some(s), ..pre.voice },
            ..pre
        }),
        RoomVoiceEvent::Ended => post == (App {
            voice: Voice {
                room_status: if pre.voice.active_channel is None {
                    None
                } else {
                    pre.voice.room_status
                },
                ..pre.voice
            },
            ..pre
        }),
        RoomVoiceEvent::Failed(err) => post == (App {
            voice: Voice { room_status: Some(err), ..pre.voice },
            chat: Chat { error: Some(err), ..pre.chat },
            ..pre
        }),
    }
}

/// What a message about voice rooms does.
pub open spec fn voice_step(pre: App, m: VoiceMessage, now: Now, post: App, fx: Seq<EffectView>) -> bool {
    match m {
        VoiceMessage::JoinVoiceChannel => {
            &&& post == pre
            &&& fx == match pre.place.conversation {
                Some(c) => mutation(
                    pre,
                    "voice:join"@,
                    seq![("conversationId"@, ArgView::Str(c@))],
                    Reply::VoiceJoined { conversation_id: c },
                ),
                None => Seq::empty(),
            }
        },
        VoiceMessage::LeaveVoiceChannel => leave_step(pre, post, fx),
        VoiceMessage::VoiceUsersUpdated(users) => {
            &&& post == (App { voice: Voice { users, ..pre.voice }, ..pre })
            &&& fx.len() == 0
        },
        VoiceMessage::VoiceVolumeChanged(id, bits) => {
            &&& post == (App {
                audio: Audio { voice_gains: post.audio.voice_gains, ..pre.audio },
                ..pre
            })
            &&& post.audio.voice_gains@ == pre.audio.voice_gains@.insert(id@, clamped_gain(bits))
            &&& fx == seq![EffectView::PersistSettings]
        },
        VoiceMessage::VoiceActionFinished(Ok(Some(channel))) => {
            voice_joined(pre, channel, now, post) && fx.len() == 0
        },
        VoiceMessage::VoiceActionFinished(Ok(None)) => {
            &&& post == (App {
                voice: Voice { room_status: None, ..pre.voice },
                toast: post.toast,
                ..pre
            })
            &&& toasts(post.toast, "Left voice"@, now)
            &&& fx.len() == 0
        },
        VoiceMessage::VoiceActionFinished(Err(err)) => {
            &&& post == (App {
                servers: Servers { status: Some(err), ..pre.servers },
                voice: Voice { room_status: None, ..pre.voice },
                ..pre
            })
            &&& fx.len() == 0
        },
        VoiceMessage::RoomVoiceEngineEvent(ev) => room_voice_step(pre, ev, post) && fx.len() == 0,
    }
}

impl App {
    fn leave_voice_channel(&mut self) -> (fx: Vec<Effect>)
        ensures
            leave_step(*old(self), *final(self), views(fx@)),
    {
        if self.online_token().is_none() {
            return nothing();
        }
        let fx = match &self.voice.active_channel {
            Some(id) => self.ask1(
                CallKind::Mutation,
                "voice:leave",
                "conversationId",
                Arg::Str(id.clone()),
                Reply::VoiceLeft,
            ),
            None => self.ask0(CallKind::Mutation, "voice:leave", Reply::VoiceLeft),
        };
        self.voice.active_channel = None;
        self.voice.room_status = None;
        self.voice.users = Vec::new();
        fx
    }

    fn room_voice_event(&mut self, ev: RoomVoiceEvent)
        ensures
            room_voice_step(*old(self), ev, *final(self)),
    {
        match ev {
            RoomVoiceEvent::Connecting => {
                self.voice.room_status = Some(owned("Connecting voice…"));
            },
            RoomVoiceEvent::Connected => {
                self.voice.room_status = Some(owned("Voice connected"));
            },
            RoomVoiceEvent::Status(s) => {
                self.voice.room_status = Some(s);
            },
            RoomVoiceEvent::Ended => {
                if self.voice.active_channel.is_none() {
                    self.voice.room_status = None;
                }
            },
            RoomVoiceEvent::Failed(err) => {
                self.voice.room_status = Some(err.clone());
                self.chat.error = Some(err);
            },
        }
    }

    /// Handles a message about voice rooms.
    pub fn update_voice(&mut self, m: VoiceMessage, now: Now) -> (fx: Vec<Effect>)
        ensures
            voice_step(*old(self), m, now, *final(self), views(fx@)),
    {
        match m {
            VoiceMessage::JoinVoiceChannel => match &self.place.conversation {
                Some(c) => self.ask1(
                    CallKind::Mutation,
                    "voice:join",
                    "conversationId",
                    Arg::Str(c.clone()),
                    Reply::VoiceJoined { conversation_id: c.clone() },
                ),
                None => nothing(),
            },
            VoiceMessage::LeaveVoiceChannel => self.leave_voice_channel(),
            VoiceMessage::VoiceUsersUpdated(users) => {
                self.voice.users = users;
                nothing()
            },
            VoiceMessage::VoiceVolumeChanged(id, bits) => {
                self.audio.voice_gains.insert(id, clamp_gain(bits));
                one(Effect::PersistSettings)
            },
            VoiceMessage::VoiceActionFinished(Ok(Some(channel))) => {
                self.voice.active_channel = Some(channel);
                self.voice.room_status = Some(owned("Connecting voice…"));
                if self.calls.role.is_some() {
                    self.calls.role = None;
                    self.calls.engine_key = None;
                }
                self.show_toast("Joined voice — mesh connecting", now);
                nothing()
            },
            VoiceMessage::VoiceActionFinished(Ok(None)) => {
                self.voice.room_status = None;
                self.show_toast("Left voice", now);
                nothing()
            },
            VoiceMessage::VoiceActionFinished(Err(err)) => {
                self.servers.status = Some(err);
                self.voice.room_status = None;
                nothing()
            },
            VoiceMessage::RoomVoiceEngineEvent(ev) => {
                self.room_voice_event(ev);
                nothing()
            },
        }
    }
}

} // verus!
