//! The update loop: one message in, the new state and what to do next out.

use crate::clock::now_ms;
use crate::state::admin::admin_step;
use crate::state::app::{App, Now};
use crate::state::auth::auth_step;
use crate::state::bots::bot_step;
use crate::state::calls::call_step;
use crate::state::channels::channel_step;
use crate::state::compose::compose_step;
use crate::state::effect::{views, Effect, EffectView};
use crate::state::feed::feed_step;
use crate::state::message::Message;
use crate::state::palette::palette_step;
use crate::state::peers::peer_step;
use crate::state::prefs::prefs_step;
use crate::state::profile::profile_step;
use crate::state::roles::role_step;
use crate::state::rooms::room_step;
use crate::state::servers::server_step;
use crate::state::social::social_step;
use crate::state::voice::voice_step;
use crate::state::window::window_step;
use vstd::prelude::*;

verus! {

/// What a message does.
pub open spec fn step(pre: App, m: Message, now: Now, post: App, fx: Seq<EffectView>) -> bool {
    match m {
        Message::Auth(m) => auth_step(pre, m, now, post, fx),
        Message::Window(m) => window_step(pre, m, now, post, fx),
        Message::Social(m) => social_step(pre, m, now, post, fx),
        Message::Peer(m) => peer_step(pre, m, now, post, fx),
        Message::Feed(m) => feed_step(pre, m, now, post, fx),
        Message::Room(m) => room_step(pre, m, now, post, fx),
        Message::Server(m) => server_step(pre, m, now, post, fx),
        Message::Channel(m) => channel_step(pre, m, now, post, fx),
        Message::Role(m) => role_step(pre, m, now, post, fx),
        Message::Compose(m) => compose_step(pre, m, now, post, fx),
        Message::Prefs(m) => prefs_step(pre, m, now, post, fx),
        Message::Voice(m) => voice_step(pre, m, now, post, fx),
        Message::Call(m) => call_step(pre, m, now, post, fx),
        Message::Admin(m) => admin_step(pre, m, now, post, fx),
        Message::Palette(m) => palette_step(pre, m, now, post, fx),
        Message::Profile(m) => profile_step(pre, m, now, post, fx),
        Message::Bot(m) => bot_step(pre, m, now, post, fx),
    }
}

impl App {
    /// Handles a message that arrives at `now`.
    pub fn update_at(&mut self, m: Message, now: Now) -> (fx: Vec<Effect>)
        ensures
            step(*old(self), m, now, *final(self), views(fx@)),
    {
        match m {
            Message::Auth(m) => self.update_auth(m, now),
            Message::Window(m) => self.update_window(m, now),
            Message::Social(m) => self.update_social(m, now),
            Message::Peer(m) => self.update_peers(m, now),
            Message::Feed(m) => self.update_feed(m, now),
            Message::Room(m) => self.update_rooms(m, now),
            Message::Server(m) => self.update_servers(m, now),
            Message::Channel(m) => self.update_channels(m, now),
            Message::Role(m) => self.update_roles(m, now),
            Message::Compose(m) => self.update_compose(m, now),
            Message::Prefs(m) => self.update_prefs(m, now),
            Message::Voice(m) => self.update_voice(m, now),
            Message::Call(m) => self.update_calls(m, now),
            Message::Admin(m) => self.update_admin(m, now),
            Message::Palette(m) => self.update_palette(m, now),
            Message::Profile(m) => self.update_profile(m, now),
            Message::Bot(m) => self.update_bots(m, now),
        }
    }

    /// Handles a message that arrives at this moment of the system clock;
    /// `tick_ms` is that of the steady one.
    pub fn update(&mut self, m: Message, tick_ms: u64) -> (fx: Vec<Effect>)
        ensures
            exists|unix_ms: i64|
                0 <= unix_ms && #[trigger] step(
                    *old(self),
                    m,
                    (Now { tick_ms, unix_ms }),
                    *final(self),
                    views(fx@),
                ),
    {
        let unix_ms: i64 = now_ms();
        let fx = self.update_at(m, Now { tick_ms, unix_ms });
        assert(step(*old(self), m, Now { tick_ms, unix_ms }, *self, views(fx@)));
        fx
    }
}

} // verus!
