//! Channels of the selected server and their permission overwrites.

use crate::state::app::{
    mutation, query, toasts, App, Channels, Chat, Now, Place, Servers,
};
use crate::state::effect::{
    arg, args_view, nothing, opt_text, views, Arg, ArgView, CallKind, Effect, EffectView, Reply,
};
use crate::state::keyed::{find, position, row};
use crate::state::message::ChannelMessage;
use crate::state::servers::{server_mutation, server_outcome, servers_are};
use crate::state::types::{ChannelSummary, ServerRoleRow};
use crate::strmap::StrMap;
use crate::text::{is_text, owned, text_is, trim, trimmed};
use vstd::prelude::*;

verus! {

// ---------- Permission overwrites ----------

/// What an overwrite says of a permission.
#[derive(Debug, Clone, Copy, PartialEq, Eq, Structural)]
pub enum Overwrite {
    Inherit,
    Allow,
    Deny,
}

/// What the allowed and denied bits say of the permission `bit`.
pub open spec fn overwrite_of(allow: u32, deny: u32, bit: u32) -> Overwrite {
    if allow & bit != 0 {
        Overwrite::Allow
    } else if deny & bit != 0 {
        Overwrite::Deny
    } else {
        Overwrite::Inherit
    }
}

/// The allowed and denied bits with the permission `bit` set to `o`.
pub open spec fn with_overwrite(allow: u32, deny: u32, bit: u32, o: Overwrite) -> (u32, u32) {
    let a = allow & !bit;
    let d = deny & !bit;
    match o {
        Overwrite::Inherit => (a, d),
        Overwrite::Allow => (a | bit, d),
        Overwrite::Deny => (a, d | bit),
    }
}

/// Inherit, allow, deny, and inherit again.
pub open spec fn next_overwrite(o: Overwrite) -> Overwrite {
    match o {
        Overwrite::Inherit => Overwrite::Allow,
        Overwrite::Allow => Overwrite::Deny,
        Overwrite::Deny => Overwrite::Inherit,
    }
}

/// The bits after a click on the permission `bit`.
pub open spec fn cycled(allow: u32, deny: u32, bit: u32) -> (u32, u32) {
    with_overwrite(allow, deny, bit, next_overwrite(overwrite_of(allow, deny, bit)))
}

/// [`cycled`], computed.
pub fn cycle_overwrite(allow: u32, deny: u32, bit: u32) -> (r: (u32, u32))
    ensures
        r == cycled(allow, deny, bit),
{
    let a: u32 = allow & !bit;
    let d: u32 = deny & !bit;
    if allow & bit != 0 {
        (a, d | bit)
    } else if deny & bit != 0 {
        (a, d)
    } else {
        (a | bit, d)
    }
}

/// A click moves a permission one step on and leaves the others alone; it is
/// never allowed and denied at once.
pub proof fn overwrites_cycle(allow: u32, deny: u32, bit: u32)
    requires
        bit != 0,
    ensures
        ({
            let (a, d) = cycled(allow, deny, bit);
            &&& overwrite_of(a, d, bit) == next_overwrite(overwrite_of(allow, deny, bit))
            &&& a & !bit == allow & !bit
            &&& d & !bit == deny & !bit
            &&& a & d & bit == 0
            &&& allow & deny == 0 ==> a & d == 0
        }),
{
    assert((allow & !bit) & bit == 0) by (bit_vector);
    assert((deny & !bit) & bit == 0) by (bit_vector);
    assert(((allow & !bit) | bit) & bit == bit) by (bit_vector);
    assert(((deny & !bit) | bit) & bit == bit) by (bit_vector);
    assert((allow & !bit) & !bit == allow & !bit) by (bit_vector);
    assert((deny & !bit) & !bit == deny & !bit) by (bit_vector);
    assert(((allow & !bit) | bit) & !bit == allow & !bit) by (bit_vector);
    assert(((deny & !bit) | bit) & !bit == deny & !bit) by (bit_vector);
    assert((allow & !bit) & (deny & !bit) & bit == 0) by (bit_vector);
    assert(((allow & !bit) | bit) & (deny & !bit) & bit == 0) by (bit_vector);
    assert((allow & !bit) & ((deny & !bit) | bit) & bit == 0) by (bit_vector);
    assert(allow & deny == 0 ==> (allow & !bit) & (deny & !bit) == 0) by (bit_vector);
    assert(allow & deny == 0 ==> ((allow & !bit) | bit) & (deny & !bit) == 0) by (bit_vector);
    assert(allow & deny == 0 ==> (allow & !bit) & ((deny & !bit) | bit) == 0) by (bit_vector);
}

/// The overwrites by role id; of a role that is listed more than once the
/// last non-empty one counts.
pub open spec fn overwrites_of(rows: Seq<(String, u32, u32)>) -> Map<Seq<char>, (u32, u32)>
    decreases rows.len(),
{
    if rows.len() == 0 {
        Map::empty()
    } else {
        let before = overwrites_of(rows.drop_last());
        let r = rows.last();
        if r.1 != 0 || r.2 != 0 {
            before.insert(r.0@, (r.1, r.2))
        } else {
            before
        }
    }
}

fn collect_overwrites(rows: Vec<(String, u32, u32)>) -> (m: StrMap<(u32, u32)>)
    ensures
        m@ == overwrites_of(rows@),
{
    let mut m: StrMap<(u32, u32)> = StrMap::new();
    let mut i: usize = 0;
    while i < rows.len()
        invariant
            i <= rows@.len(),
            m@ == overwrites_of(rows@.take(i as int)),
        decreases rows@.len() - i,
    {
        assert(rows@.take(i + 1).drop_last() =~= rows@.take(i as int));
        assert(rows@.take(i + 1).last() == rows@[i as int]);
        let (id, allow, deny) = &rows[i];
        if *allow != 0 || *deny != 0 {
            m.insert(id.clone(), (*allow, *deny));
        }
        i += 1;
    }
    assert(rows@.take(rows@.len() as int) =~= rows@);
    m
}

/// The bits of a role; none where there is no overwrite for it.
pub open spec fn bits_of(overwrites: Map<Seq<char>, (u32, u32)>, role: Seq<char>) -> (u32, u32) {
    if overwrites.contains_key(role) {
        overwrites[role]
    } else {
        (0, 0)
    }
}

/// The overwrites with these bits for a role; empty ones are dropped.
pub open spec fn with_bits(
    overwrites: Map<Seq<char>, (u32, u32)>,
    role: Seq<char>,
    bits: (u32, u32),
) -> Map<Seq<char>, (u32, u32)> {
    if bits.0 == 0 && bits.1 == 0 {
        overwrites.remove(role)
    } else {
        overwrites.insert(role, bits)
    }
}

/// The call that stores the bits of a role in a channel.
pub open spec fn overwrite_call(app: App, channel: Seq<char>, role: Seq<char>, bits: (u32, u32)) -> Seq<
    EffectView,
> {
    mutation(
        app,
        "channels:setOverwrite"@,
        seq![
            ("conversationId"@, ArgView::Str(channel)),
            ("targetType"@, ArgView::Str("role"@)),
            ("targetId"@, ArgView::Str(role)),
            ("allow"@, ArgView::Num(bits.0 as int)),
            ("deny"@, ArgView::Num(bits.1 as int)),
        ],
        Reply::ChannelOverwriteSaved,
    )
}

/// What a click on a permission does.
pub open spec fn cycle_step(pre: App, bit: u32, post: App, fx: Seq<EffectView>) -> bool {
    match (pre.channels.perms_channel_id, pre.channels.perms_role_id) {
        (Some(channel), Some(role)) => {
            let old_bits = bits_of(pre.channels.overwrites@, role@);
            let bits = cycled(old_bits.0, old_bits.1, bit);
            &&& post == (App {
                channels: Channels { overwrites: post.channels.overwrites, ..pre.channels },
                ..pre
            })
            &&& post.channels.overwrites@ == with_bits(pre.channels.overwrites@, role@, bits)
            &&& fx == overwrite_call(pre, channel@, role@, bits)
        },
        _ => post == pre && fx.len() == 0,
    }
}

// ---------- Which role is edited first ----------

/// The first role at the bottom of the order.
pub open spec fn bottom_role(roles: Seq<ServerRoleRow>) -> Option<Seq<char>>
    decreases roles.len(),
{
    if roles.len() == 0 {
        None
    } else {
        match bottom_role(roles.drop_last()) {
            Some(id) => Some(id),
            None => if roles.last().position == 0 {
                Some(roles.last().role_id@)
            } else {
                None
            },
        }
    }
}

/// The bottom role, or else the first in the list.
pub open spec fn first_role(roles: Seq<ServerRoleRow>) -> Option<Seq<char>> {
    match bottom_role(roles) {
        Some(id) => Some(id),
        None => if roles.len() > 0 {
            Some(roles[0].role_id@)
        } else {
            None
        },
    }
}

proof fn lemma_bottom_stays(roles: Seq<ServerRoleRow>, n: int)
    requires
        0 <= n <= roles.len(),
        bottom_role(roles.take(n)) is Some,
    ensures
        bottom_role(roles) == bottom_role(roles.take(n)),
    decreases roles.len() - n,
{
    if n < roles.len() {
        assert(roles.take(n + 1).drop_last() =~= roles.take(n));
        lemma_bottom_stays(roles, n + 1);
    } else {
        assert(roles.take(n) =~= roles);
    }
}

fn default_role(roles: &Vec<ServerRoleRow>) -> (r: Option<String>)
    ensures
        opt_text(r) == first_role(roles@),
{
    let mut i: usize = 0;
    assert(roles@.take(0) =~= Seq::<ServerRoleRow>::empty());
    while i < roles.len()
        invariant
            i <= roles@.len(),
            bottom_role(roles@.take(i as int)) is None,
        decreases roles@.len() - i,
    {
        assert(roles@.take(i + 1).drop_last() =~= roles@.take(i as int));
        assert(roles@.take(i + 1).last() == roles@[i as int]);
        if roles[i].position == 0 {
            proof {
                lemma_bottom_stays(roles@, i + 1);
            }
            return Some(roles[i].role_id.clone());
        }
        i += 1;
    }
    assert(roles@.take(roles@.len() as int) =~= roles@);
    if roles.len() > 0 {
        Some(roles[0].role_id.clone())
    } else {
        None
    }
}

// ---------- Small pieces ----------

/// Only the channel forms changed, to `channels`.
pub open spec fn channels_are(pre: App, channels: Channels, post: App, fx: Seq<EffectView>) -> bool {
    post == (App { channels, ..pre }) && fx.len() == 0
}

/// A call about one channel.
pub open spec fn about_channel(app: App, function: Seq<char>, id: Seq<char>, reply: Reply) -> Seq<
    EffectView,
> {
    mutation(app, function, seq![("conversationId"@, ArgView::Str(id))], reply)
}

/// The move of a channel among the others.
pub open spec fn move_channel(app: App, id: Seq<char>, direction: Seq<char>) -> Seq<EffectView> {
    mutation(
        app,
        "channels:moveChannel"@,
        seq![("conversationId"@, ArgView::Str(id)), ("direction"@, ArgView::Str(direction))],
        Reply::MoveChannelFinished,
    )
}

/// What the "create channel" button asks for.
pub open spec fn create_channel(app: App) -> Seq<EffectView> {
    let name = trimmed(app.channels.new_name_input@);
    if name.len() == 0 {
        Seq::empty()
    } else {
        server_mutation(
            app,
            "servers:createChannel"@,
            seq![
                ("name"@, ArgView::Str(name)),
                (
                    "channelType"@,
                    ArgView::Str(
                        if app.channels.new_is_voice {
                            "voice"@
                        } else {
                            "text"@
                        },
                    ),
                ),
            ],
            Reply::CreateChannelFinished,
        )
    }
}

/// What the "rename channel" button asks for.
pub open spec fn rename_channel(app: App) -> Seq<EffectView> {
    let name = trimmed(app.channels.rename_input@);
    match app.channels.renaming_id {
        Some(id) => if name.len() == 0 {
            Seq::empty()
        } else {
            mutation(
                app,
                "servers:renameChannel"@,
                seq![("conversationId"@, ArgView::Str(id@)), ("name"@, ArgView::Str(name))],
                Reply::RenameChannelFinished,
            )
        },
        None => Seq::empty(),
    }
}

/// A channel is deleted: where it is the open chat, the chat closes.
pub open spec fn delete_step(pre: App, id: Seq<char>, post: App, fx: Seq<EffectView>) -> bool {
    &&& fx == about_channel(pre, "servers:deleteChannel"@, id, Reply::DeleteChannelFinished)
    &&& if pre.token() is Some && text_is(pre.place.conversation, id) {
        &&& post == (App {
            place: Place { conversation: None, kind: None, peer_name: None, ..pre.place },
            chat: Chat {
                messages: post.chat.messages,
                pinned_messages: post.chat.pinned_messages,
                pins_panel_open: false,
                ..pre.chat
            },
            ..pre
        })
        &&& post.chat.messages@.len() == 0
        &&& post.chat.pinned_messages@.len() == 0
    } else {
        post == pre
    }
}

/// The permissions of a channel are edited: its overwrites are asked for.
pub open spec fn edit_perms_step(pre: App, id: String, post: App, fx: Seq<EffectView>) -> bool {
    if pre.token() is None {
        post == pre && fx.len() == 0
    } else {
        &&& post == (App {
            channels: Channels {
                perms_channel_id: Some(id),
                perms_role_id: post.channels.perms_role_id,
                overwrites: post.channels.overwrites,
                ..pre.channels
            },
            ..pre
        })
        &&& opt_text(post.channels.perms_role_id) == first_role(
            pre.roles.list@,
        )
        &&& post.channels.overwrites@ == Map::<Seq<char>, (u32, u32)>::empty()
        &&& fx == query(
            pre,
            "channels:listOverwrites"@,
            seq![("conversationId"@, ArgView::Str(id@))],
            Reply::ChannelOverwritesLoaded { conversation_id: id },
        )
    }
}

/// The open channel is muted or unmuted; the list shows it at once.
pub open spec fn mute_step(pre: App, post: App, fx: Seq<EffectView>) -> bool {
    match (pre.token(), pre.place.conversation) {
        (Some(_), Some(c)) => {
            let muted = match row(pre.servers.channels@, c@) {
                Some(ch) => !ch.muted,
                None => true,
            };
            &&& post == (App {
                servers: Servers { channels: post.servers.channels, ..pre.servers },
                ..pre
            })
            &&& post.servers.channels@ == match position(pre.servers.channels@, c@) {
                Some(i) => pre.servers.channels@.update(
                    i,
                    ChannelSummary { muted, ..pre.servers.channels@[i] },
                ),
                None => pre.servers.channels@,
            }
            &&& fx == mutation(
                pre,
                "channels:setMute"@,
                seq![
                    ("scope"@, ArgView::Str("conversation"@)),
                    ("targetId"@, ArgView::Str(c@)),
                    ("muted"@, ArgView::Bool(muted)),
                ],
                Reply::ChannelMuteFinished { muted },
            )
        },
        _ => post == pre && fx.len() == 0,
    }
}

impl App {
    fn create_channel(&self) -> (fx: Vec<Effect>)
        ensures
            views(fx@) == create_channel(*self),
    {
        let name = trim(&self.channels.new_name_input);
        if name.as_str().is_empty() {
            return nothing();
        }
        let kind = if self.channels.new_is_voice {
            owned("voice")
        } else {
            owned("text")
        };
        let extra = vec![("name", Arg::Str(name)), ("channelType", Arg::Str(kind))];
        assert(args_view(extra@) =~= seq![
            ("name"@, ArgView::Str(name@)),
            ("channelType"@, ArgView::Str(kind@)),
        ]);
        self.ask_server(
            CallKind::Mutation,
            "servers:createChannel",
            extra,
            Reply::CreateChannelFinished,
        )
    }

    fn rename_channel(&self) -> (fx: Vec<Effect>)
        ensures
            views(fx@) == rename_channel(*self),
    {
        match &self.channels.renaming_id {
            Some(id) => {
                let name = trim(&self.channels.rename_input);
                if name.as_str().is_empty() {
                    return nothing();
                }
                self.ask2(
                    CallKind::Mutation,
                    "servers:renameChannel",
                    "conversationId",
                    arg(id),
                    "name",
                    Arg::Str(name),
                    Reply::RenameChannelFinished,
                )
            },
            None => nothing(),
        }
    }

    fn move_channel_task(&self, id: String, direction: &str) -> (fx: Vec<Effect>)
        ensures
            views(fx@) == move_channel(*self, id@, direction@),
    {
        self.ask2(
            CallKind::Mutation,
            "channels:moveChannel",
            "conversationId",
            Arg::Str(id),
            "direction",
            Arg::Str(owned(direction)),
            Reply::MoveChannelFinished,
        )
    }

    fn delete_channel(&mut self, id: String) -> (fx: Vec<Effect>)
        ensures
            delete_step(*old(self), id@, *final(self), views(fx@)),
    {
        let fx = self.ask1(
            CallKind::Mutation,
            "servers:deleteChannel",
            "conversationId",
            arg(&id),
            Reply::DeleteChannelFinished,
        );
        if self.online_token().is_some() && is_text(&self.place.conversation, &id) {
            self.place.conversation = None;
            self.place.kind = None;
            self.place.peer_name = None;
            self.chat.messages = Vec::new();
            self.chat.pinned_messages = Vec::new();
            self.chat.pins_panel_open = false;
        }
        fx
    }

    fn edit_channel_perms(&mut self, id: String) -> (fx: Vec<Effect>)
        ensures
            edit_perms_step(*old(self), id, *final(self), views(fx@)),
    {
        if self.online_token().is_none() {
            return nothing();
        }
        let fx = self.ask1(
            CallKind::Query,
            "channels:listOverwrites",
            "conversationId",
            arg(&id),
            Reply::ChannelOverwritesLoaded { conversation_id: id.clone() },
        );
        self.channels.perms_channel_id = Some(id);
        self.channels.perms_role_id = default_role(&self.roles.list);
        self.channels.overwrites.clear();
        fx
    }

    fn overwrites_loaded(&mut self, id: String, rows: Vec<(String, u32, u32)>) -> (fx: Vec<Effect>)
        ensures
            channel_step(
                *old(self),
                ChannelMessage::ChannelOverwritesLoaded(Ok((id, rows))),
                Now { tick_ms: 0, unix_ms: 0 },
                *final(self),
                views(fx@),
            ),
    {
        if is_text(&self.channels.perms_channel_id, &id) {
            self.channels.overwrites = collect_overwrites(rows);
        }
        nothing()
    }

    fn cycle_permission(&mut self, bit: u32) -> (fx: Vec<Effect>)
        ensures
            cycle_step(*old(self), bit, *final(self), views(fx@)),
    {
        let channel = match &self.channels.perms_channel_id {
            Some(c) => c.clone(),
            None => {
                return nothing();
            },
        };
        let role = match &self.channels.perms_role_id {
            Some(r) => r.clone(),
            None => {
                return nothing();
            },
        };
        let (allow, deny) = match self.channels.overwrites.get(&role) {
            Some(bits) => *bits,
            None => (0, 0),
        };
        let (allow, deny) = cycle_overwrite(allow, deny, bit);
        let extra = vec![
            ("conversationId", Arg::Str(channel)),
            ("targetType", Arg::Str(owned("role"))),
            ("targetId", Arg::Str(role.clone())),
            ("allow", Arg::Num(allow as i64)),
            ("deny", Arg::Num(deny as i64)),
        ];
        assert(args_view(extra@) =~= seq![
            ("conversationId"@, ArgView::Str(channel@)),
            ("targetType"@, ArgView::Str("role"@)),
            ("targetId"@, ArgView::Str(role@)),
            ("allow"@, ArgView::Num(allow as int)),
            ("deny"@, ArgView::Num(deny as int)),
        ]);
        let fx = self.ask(
            CallKind::Mutation,
            "channels:setOverwrite",
            extra,
            Reply::ChannelOverwriteSaved,
        );
        if allow == 0 && deny == 0 {
            let _ = self.channels.overwrites.take(&role);
        } else {
            self.channels.overwrites.insert(role, (allow, deny));
        }
        fx
    }

    fn toggle_channel_mute(&mut self) -> (fx: Vec<Effect>)
        ensures
            mute_step(*old(self), *final(self), views(fx@)),
    {
        if self.online_token().is_none() {
            return nothing();
        }
        let c = match &self.place.conversation {
            Some(c) => c.clone(),
            None => {
                return nothing();
            },
        };
        let at = find(&self.servers.channels, &c);
        let muted = match at {
            Some(i) => !self.servers.channels[i].muted,
            None => true,
        };
        let fx = self.ask3(
            CallKind::Mutation,
            "channels:setMute",
            "scope",
            Arg::Str(owned("conversation")),
            "targetId",
            Arg::Str(c),
            "muted",
            Arg::Bool(muted),
            Reply::ChannelMuteFinished { muted },
        );
        match at {
            Some(i) => {
                self.servers.channels[i].muted = muted;
            },
            None => {},
        }
        fx
    }
}

// ---------- The messages ----------

/// What a message about channels does.
pub open spec fn channel_step(pre: App, m: ChannelMessage, now: Now, post: App, fx: Seq<EffectView>) -> bool {
    match m {
        ChannelMessage::ChannelsUpdated(channels) => servers_are(
            pre,
            Servers { channels, ..pre.servers },
            post,
            fx,
        ),
        ChannelMessage::ToggleNewChannelInput => channels_are(
            pre,
            Channels { new_open: !pre.channels.new_open, ..pre.channels },
            post,
            fx,
        ),
        ChannelMessage::NewChannelNameChanged(value) => channels_are(
            pre,
            Channels { new_name_input: value, ..pre.channels },
            post,
            fx,
        ),
        ChannelMessage::NewChannelIsVoice(v) => channels_are(
            pre,
            Channels { new_is_voice: v, ..pre.channels },
            post,
            fx,
        ),
        ChannelMessage::ToggleNewChannelIsVoice => channels_are(
            pre,
            Channels { new_is_voice: !pre.channels.new_is_voice, ..pre.channels },
            post,
            fx,
        ),
        ChannelMessage::CreateChannel => post == pre && fx == create_channel(pre),
        ChannelMessage::CreateChannelFinished(Ok(())) => {
            &&& post == (App {
                channels: Channels {
                    new_open: false,
                    new_name_input: post.channels.new_name_input,
                    new_is_voice: false,
                    ..pre.channels
                },
                servers: Servers { status: None, ..pre.servers },
                ..pre
            })
            &&& post.channels.new_name_input@.len() == 0
            &&& fx.len() == 0
        },
        ChannelMessage::CreateChannelFinished(Err(err)) | ChannelMessage::RenameChannelFinished(
            Err(err),
        ) | ChannelMessage::ChannelOverwritesLoaded(Err(err)) => servers_are(
            pre,
            Servers { status: Some(err), ..pre.servers },
            post,
            fx,
        ),
        ChannelMessage::StartRenameChannel(id, name) => channels_are(
            pre,
            Channels { renaming_id: Some(id), rename_input: name, ..pre.channels },
            post,
            fx,
        ),
        ChannelMessage::RenameChannelInputChanged(value) => channels_are(
            pre,
            Channels { rename_input: value, ..pre.channels },
            post,
            fx,
        ),
        ChannelMessage::RenameChannel => post == pre && fx == rename_channel(pre),
        ChannelMessage::RenameChannelFinished(Ok(())) => {
            &&& post == (App {
                channels: Channels {
                    renaming_id: None,
                    rename_input: post.channels.rename_input,
                    ..pre.channels
                },
                servers: Servers { status: None, ..pre.servers },
                toast: post.toast,
                ..pre
            })
            &&& post.channels.rename_input@.len() == 0
            &&& toasts(post.toast, "Channel renamed"@, now)
            &&& fx.len() == 0
        },
        ChannelMessage::CancelRenameChannel => {
            &&& channels_are(
                pre,
                Channels {
                    renaming_id: None,
                    rename_input: post.channels.rename_input,
                    ..pre.channels
                },
                post,
                fx,
            )
            &&& post.channels.rename_input@.len() == 0
        },
        ChannelMessage::DeleteChannel(id) => delete_step(pre, id@, post, fx),
        ChannelMessage::DeleteChannelFinished(r) | ChannelMessage::MoveChannelFinished(r)
        | ChannelMessage::ChannelOverwriteSaved(r) => server_outcome(pre, r, post, fx),
        ChannelMessage::MoveChannelUp(id) => post == pre && fx == move_channel(pre, id@, "up"@),
        ChannelMessage::MoveChannelDown(id) => post == pre && fx == move_channel(
            pre,
            id@,
            "down"@,
        ),
        ChannelMessage::EditChannelPerms(id) => edit_perms_step(pre, id, post, fx),
        ChannelMessage::CloseChannelPerms => {
            &&& channels_are(
                pre,
                Channels {
                    perms_channel_id: None,
                    perms_role_id: None,
                    overwrites: post.channels.overwrites,
                    ..pre.channels
                },
                post,
                fx,
            )
            &&& post.channels.overwrites@ == Map::<Seq<char>, (u32, u32)>::empty()
        },
        ChannelMessage::ChannelOverwritesLoaded(Ok((id, rows))) => {
            &&& fx.len() == 0
            &&& if text_is(pre.channels.perms_channel_id, id@) {
                &&& post == (App {
                    channels: Channels { overwrites: post.channels.overwrites, ..pre.channels },
                    ..pre
                })
                &&& post.channels.overwrites@ == overwrites_of(rows@)
            } else {
                post == pre
            }
        },
        ChannelMessage::SelectChannelPermRole(id) => channels_are(
            pre,
            Channels { perms_role_id: Some(id), ..pre.channels },
            post,
            fx,
        ),
        ChannelMessage::CycleChannelOverwritePerm(bit) => cycle_step(pre, bit, post, fx),
        ChannelMessage::ToggleChannelMute => mute_step(pre, post, fx),
        ChannelMessage::ChannelMuteFinished(Ok(muted)) => {
            &&& post == (App { toast: post.toast, ..pre })
            &&& toasts(
                post.toast,
                if muted {
                    "Channel muted"@
                } else {
                    "Channel unmuted"@
                },
                now,
            )
            &&& fx.len() == 0
        },
        ChannelMessage::ChannelMuteFinished(Err(err)) => {
            &&& post == (App { chat: Chat { error: Some(err), ..pre.chat }, ..pre })
            &&& fx.len() == 0
        },
    }
}

impl App {
    /// Handles a message about channels.
    #[verifier::rlimit(60)]
    pub fn update_channels(&mut self, m: ChannelMessage, now: Now) -> (fx: Vec<Effect>)
        ensures
            channel_step(*old(self), m, now, *final(self), views(fx@)),
    {
        match m {
            ChannelMessage::ChannelsUpdated(channels) => {
                self.servers.channels = channels;
                nothing()
            },
            ChannelMessage::ToggleNewChannelInput => {
                self.channels.new_open = !self.channels.new_open;
                nothing()
            },
            ChannelMessage::NewChannelNameChanged(value) => {
                self.channels.new_name_input = value;
                nothing()
            },
            ChannelMessage::NewChannelIsVoice(v) => {
                self.channels.new_is_voice = v;
                nothing()
            },
            ChannelMessage::ToggleNewChannelIsVoice => {
                self.channels.new_is_voice = !self.channels.new_is_voice;
                nothing()
            },
            ChannelMessage::CreateChannel => self.create_channel(),
            ChannelMessage::CreateChannelFinished(Ok(_)) => {
                self.channels.new_open = false;
                self.channels.new_name_input = String::new();
                self.channels.new_is_voice = false;
                self.servers.status = None;
                nothing()
            },
            ChannelMessage::CreateChannelFinished(Err(err)) => {
                self.servers.status = Some(err);
                nothing()
            },
            ChannelMessage::StartRenameChannel(id, name) => {
                self.channels.renaming_id = Some(id);
                self.channels.rename_input = name;
                nothing()
            },
            ChannelMessage::RenameChannelInputChanged(value) => {
                self.channels.rename_input = value;
                nothing()
            },
            ChannelMessage::RenameChannel => self.rename_channel(),
            ChannelMessage::RenameChannelFinished(Ok(_)) => {
                self.show_toast("Channel renamed", now);
                self.channels.renaming_id = None;
                self.channels.rename_input = String::new();
                self.servers.status = None;
                nothing()
            },
            ChannelMessage::RenameChannelFinished(Err(err)) => {
                self.servers.status = Some(err);
                nothing()
            },
            ChannelMessage::CancelRenameChannel => {
                self.channels.renaming_id = None;
                self.channels.rename_input = String::new();
                nothing()
            },
            ChannelMessage::DeleteChannel(id) => self.delete_channel(id),
            ChannelMessage::DeleteChannelFinished(r) => {
                self.servers.status = r.err();
                nothing()
            },
            ChannelMessage::MoveChannelUp(id) => self.move_channel_task(id, "up"),
            ChannelMessage::MoveChannelDown(id) => self.move_channel_task(id, "down"),
            ChannelMessage::MoveChannelFinished(r) => {
                self.servers.status = r.err();
                nothing()
            },
            ChannelMessage::EditChannelPerms(id) => self.edit_channel_perms(id),
            ChannelMessage::CloseChannelPerms => {
                self.channels.perms_channel_id = None;
                self.channels.perms_role_id = None;
                self.channels.overwrites.clear();
                nothing()
            },
            ChannelMessage::ChannelOverwritesLoaded(Ok((id, rows))) => self.overwrites_loaded(
                id,
                rows,
            ),
            ChannelMessage::ChannelOverwritesLoaded(Err(err)) => {
                self.servers.status = Some(err);
                nothing()
            },
            ChannelMessage::SelectChannelPermRole(id) => {
                self.channels.perms_role_id = Some(id);
                nothing()
            },
            ChannelMessage::CycleChannelOverwritePerm(bit) => self.cycle_permission(bit),
            ChannelMessage::ChannelOverwriteSaved(r) => {
                self.servers.status = r.err();
                nothing()
            },
            ChannelMessage::ToggleChannelMute => self.toggle_channel_mute(),
            ChannelMessage::ChannelMuteFinished(Ok(muted)) => {
                if muted {
                    self.show_toast("Channel muted", now);
                } else {
                    self.show_toast("Channel unmuted", now);
                }
                nothing()
            },
            ChannelMessage::ChannelMuteFinished(Err(err)) => {
                self.chat.error = Some(err);
                nothing()
            },
        }
    }
}

} // verus!
