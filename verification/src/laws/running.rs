//! What runs in the background.

use crate::laws::asked::online;
use crate::laws::calling::someone_calls;
use crate::laws::friends::here;
use crate::state::app::{App, Now};
use crate::state::jobs::{
    always, call_jobs, channel_jobs, chat_jobs, first_online, friend_jobs, open_dm_jobs,
    panel_jobs, server_jobs, session_jobs, staff_jobs, voice_jobs, wanted, JobView,
};
use crate::state::peers::direct_with;
use crate::state::types::Friend;
use crate::text::text_is;
use vstd::prelude::*;

verus! {

proof fn lemma_either(a: Seq<JobView>, b: Seq<JobView>, j: JobView)
    ensures
        (a + b).contains(j) <==> a.contains(j) || b.contains(j),
{
    if a.contains(j) {
        let i = choose|i: int| 0 <= i < a.len() && a[i] == j;
        assert((a + b)[i] == j);
    }
    if b.contains(j) {
        let i = choose|i: int| 0 <= i < b.len() && b[i] == j;
        assert((a + b)[a.len() + i] == j);
    }
    if (a + b).contains(j) {
        let i = choose|i: int| 0 <= i < (a + b).len() && (a + b)[i] == j;
        if i < a.len() {
            assert(a[i] == j);
        } else {
            assert(b[i - a.len()] == j);
        }
    }
}

/// The job is about the live channel to someone.
pub open spec fn is_channel(j: JobView) -> bool {
    j is PeerSession || j is PeerInvite
}

proof fn lemma_channels_only(app: App, ids: Seq<Seq<char>>, hosted: Set<Seq<char>>)
    ensures
        forall|i: int|
            0 <= i < friend_jobs(app, ids, hosted).len() ==> is_channel(
                #[trigger] friend_jobs(app, ids, hosted)[i],
            ),
        forall|i: int|
            0 <= i < open_dm_jobs(app, ids, hosted).len() ==> is_channel(
                #[trigger] open_dm_jobs(app, ids, hosted)[i],
            ),
    decreases ids.len(),
{
    if ids.len() > 0 {
        lemma_channels_only(app, ids.drop_last(), hosted);
        let before = friend_jobs(app, ids.drop_last(), hosted);
        let all = friend_jobs(app, ids, hosted);
        assert forall|i: int| 0 <= i < all.len() implies is_channel(#[trigger] all[i]) by {
            if i < before.len() {
                assert(all[i] == before[i]);
            }
        }
    }
}

proof fn lemma_fixed(j: JobView)
    ensures
        always().contains(j) <==> j is Tray || j is UpdateCheck,
        session_jobs().contains(j) <==> j is Friends || j is Requests || j is OutgoingRequests
            || j is SocialStats || j is Suggestions || j is Blocked || j is Conversations
            || j is Servers || j is MyCall || j is Tick,
{
    let a = always();
    let s = session_jobs();
    assert(a[0] == JobView::Tray && a[1] == JobView::UpdateCheck);
    assert(s[0] == JobView::Friends && s[1] == JobView::Requests && s[2]
        == JobView::OutgoingRequests && s[3] == JobView::SocialStats && s[4] == JobView::Suggestions
        && s[5] == JobView::Blocked && s[6] == JobView::Conversations && s[7] == JobView::Servers
        && s[8] == JobView::MyCall && s[9] == JobView::Tick);
}

proof fn lemma_staff(app: App, animating: bool, j: JobView)
    requires
        app.session is Some,
    ensures
        staff_jobs(app).contains(j) <==> j is AdminUsers && (app.session->0.is_admin
            || app.session->0.is_moderator),
        panel_jobs(animating).contains(j) <==> j is AnimateMembersPanel && animating,
{
    if app.session->0.is_admin || app.session->0.is_moderator {
        assert(staff_jobs(app)[0] == JobView::AdminUsers);
    }
    if animating {
        assert(panel_jobs(animating)[0] == JobView::AnimateMembersPanel);
    }
}

proof fn lemma_server(app: App, j: JobView)
    ensures
        server_jobs(app).contains(j) <==> app.servers.selected is Some && ({
            let id = app.servers.selected->0.server_id@;
            ||| j == JobView::Channels(id)
            ||| j == JobView::Members(id)
            ||| j == JobView::Roles(id)
            ||| j == JobView::MyPerms(id) && app.servers.settings_open
        }),
{
    if app.servers.selected is Some {
        let s = server_jobs(app);
        let id = app.servers.selected->0.server_id@;
        assert(s[0] == JobView::Channels(id) && s[1] == JobView::Members(id) && s[2]
            == JobView::Roles(id));
        if app.servers.settings_open {
            assert(s[3] == JobView::MyPerms(id));
        }
    }
}

/// We are in no room, and this is the voice channel or group that is open.
pub open spec fn looks_into(app: App, room: Seq<char>) -> bool {
    app.voice.active_channel is None && text_is(app.place.conversation, room) && (text_is(
        app.place.kind,
        "voice"@,
    ) || text_is(app.place.kind, "group"@))
}

proof fn lemma_voice(app: App, j: JobView)
    ensures
        voice_jobs(app).contains(j) <==> {
            ||| j is VoiceUsers && (text_is(app.voice.active_channel, j->VoiceUsers_0)
                || looks_into(app, j->VoiceUsers_0))
            ||| j is RoomVoice && text_is(app.voice.active_channel, j->RoomVoice_0)
        },
{
    let v = voice_jobs(app);
    if app.voice.active_channel is Some {
        let c = app.voice.active_channel->0@;
        assert(v.len() == 2 && v[0] == JobView::VoiceUsers(c) && v[1] == JobView::RoomVoice(c));
    } else if app.place.conversation is Some && looks_into(app, app.place.conversation->0@) {
        assert(v.len() == 1 && v[0] == JobView::VoiceUsers(app.place.conversation->0@));
    } else {
        assert(v.len() == 0);
    }
}

proof fn lemma_chat(app: App, j: JobView)
    ensures
        chat_jobs(app).contains(j) <==> {
            ||| j is Messages && text_is(app.place.conversation, j->Messages_0)
            ||| j is Pins && text_is(app.place.conversation, j->Pins_0)
            ||| j is Typing && text_is(app.place.conversation, j->Typing_0)
        },
{
    if app.place.conversation is Some {
        let c = app.place.conversation->0@;
        let jobs = chat_jobs(app);
        assert(jobs.len() == 3 && jobs[0] == JobView::Messages(c) && jobs[1] == JobView::Pins(c)
            && jobs[2] == JobView::Typing(c));
    }
}

proof fn lemma_call(app: App, j: JobView)
    ensures
        call_jobs(app).contains(j) <==> {
            ||| j is RingTick && someone_calls(app)
            ||| j is Call && text_is(app.calls.engine_key, j->Call_0) && app.calls.role is Some
        },
{
    let c = call_jobs(app);
    if someone_calls(app) {
        assert(c[0] == JobView::RingTick);
    }
    if app.calls.engine_key is Some && app.calls.role is Some {
        assert(c[c.len() - 1] == JobView::Call(app.calls.engine_key->0@));
    }
}

proof fn lemma_wanted(
    app: App,
    hosted: Set<Seq<char>>,
    animating: bool,
    now: Now,
    token: Seq<char>,
    j: JobView,
)
    requires
        online(app, token),
    ensures
        ({
            let ids = first_online(
                app.social.friends@,
                now,
                app.config.max_background_peers as nat,
            );
            &&& wanted(app, hosted, animating, now).contains(j) <==> always().contains(j)
                || session_jobs().contains(j) || staff_jobs(app).contains(j) || server_jobs(
                app,
            ).contains(j) || voice_jobs(app).contains(j) || panel_jobs(animating).contains(j)
                || chat_jobs(app).contains(j) || friend_jobs(app, ids, hosted).contains(j)
                || open_dm_jobs(app, ids, hosted).contains(j) || call_jobs(app).contains(j)
            &&& !is_channel(j) ==> !friend_jobs(app, ids, hosted).contains(j) && !open_dm_jobs(
                app,
                ids,
                hosted,
            ).contains(j)
        }),
{
    let ids = first_online(app.social.friends@, now, app.config.max_background_peers as nat);
    let a = always();
    let b = a + session_jobs();
    let c = b + staff_jobs(app);
    let d = c + server_jobs(app);
    let e = d + voice_jobs(app);
    let f = e + panel_jobs(animating);
    let g = f + chat_jobs(app);
    let h = g + friend_jobs(app, ids, hosted);
    let i = h + open_dm_jobs(app, ids, hosted);
    lemma_either(a, session_jobs(), j);
    lemma_either(b, staff_jobs(app), j);
    lemma_either(c, server_jobs(app), j);
    lemma_either(d, voice_jobs(app), j);
    lemma_either(e, panel_jobs(animating), j);
    lemma_either(f, chat_jobs(app), j);
    lemma_either(g, friend_jobs(app, ids, hosted), j);
    lemma_either(h, open_dm_jobs(app, ids, hosted), j);
    lemma_either(i, call_jobs(app), j);
    lemma_channels_only(app, ids, hosted);
}

proof fn lemma_runs(
    app: App,
    hosted: Set<Seq<char>>,
    animating: bool,
    now: Now,
    token: Seq<char>,
    j: JobView,
)
    requires
        online(app, token),
        !is_channel(j),
    ensures
        wanted(app, hosted, animating, now).contains(j) <==> {
            ||| j is Tray || j is UpdateCheck
            ||| j is Friends || j is Requests || j is OutgoingRequests || j is SocialStats
                || j is Suggestions || j is Blocked || j is Conversations || j is Servers
                || j is MyCall || j is Tick
            ||| j is AdminUsers && (app.session->0.is_admin || app.session->0.is_moderator)
            ||| j is AnimateMembersPanel && animating
            ||| server_jobs(app).contains(j)
            ||| voice_jobs(app).contains(j)
            ||| chat_jobs(app).contains(j)
            ||| call_jobs(app).contains(j)
        },
{
    lemma_wanted(app, hosted, animating, now, token, j);
    lemma_fixed(j);
    lemma_staff(app, animating, j);
}

proof fn lemma_others(app: App, j: JobView)
    ensures
        server_jobs(app).contains(j) <==> app.servers.selected is Some && ({
            let id = app.servers.selected->0.server_id@;
            ||| j == JobView::Channels(id)
            ||| j == JobView::Members(id)
            ||| j == JobView::Roles(id)
            ||| j == JobView::MyPerms(id) && app.servers.settings_open
        }),
        voice_jobs(app).contains(j) <==> {
            ||| j is VoiceUsers && (text_is(app.voice.active_channel, j->VoiceUsers_0)
                || looks_into(app, j->VoiceUsers_0))
            ||| j is RoomVoice && text_is(app.voice.active_channel, j->RoomVoice_0)
        },
        chat_jobs(app).contains(j) <==> {
            ||| j is Messages && text_is(app.place.conversation, j->Messages_0)
            ||| j is Pins && text_is(app.place.conversation, j->Pins_0)
            ||| j is Typing && text_is(app.place.conversation, j->Typing_0)
        },
        call_jobs(app).contains(j) <==> {
            ||| j is RingTick && someone_calls(app)
            ||| j is Call && text_is(app.calls.engine_key, j->Call_0) && app.calls.role is Some
        },
{
    lemma_server(app, j);
    lemma_voice(app, j);
    lemma_chat(app, j);
    lemma_call(app, j);
}

/// While we are online the lists that everything else rests on are kept up to
/// date, whatever is open; the list of users only for staff.
pub proof fn the_lists_are_kept(
    app: App,
    hosted: Set<Seq<char>>,
    animating: bool,
    now: Now,
    token: Seq<char>,
)
    requires
        online(app, token),
    ensures
        ({
            let jobs = wanted(app, hosted, animating, now);
            &&& jobs.contains(JobView::Tray)
            &&& jobs.contains(JobView::UpdateCheck)
            &&& jobs.contains(JobView::Friends)
            &&& jobs.contains(JobView::Requests)
            &&& jobs.contains(JobView::OutgoingRequests)
            &&& jobs.contains(JobView::SocialStats)
            &&& jobs.contains(JobView::Suggestions)
            &&& jobs.contains(JobView::Blocked)
            &&& jobs.contains(JobView::Conversations)
            &&& jobs.contains(JobView::Servers)
            &&& jobs.contains(JobView::MyCall)
            &&& jobs.contains(JobView::Tick)
            &&& jobs.contains(JobView::AdminUsers) <==> app.session->0.is_admin
                || app.session->0.is_moderator
            &&& jobs.contains(JobView::AnimateMembersPanel) <==> animating
        }),
{
    lemma_runs(app, hosted, animating, now, token, JobView::Tray);
    lemma_others(app, JobView::Tray);
    lemma_runs(app, hosted, animating, now, token, JobView::UpdateCheck);
    lemma_others(app, JobView::UpdateCheck);
    lemma_runs(app, hosted, animating, now, token, JobView::Friends);
    lemma_others(app, JobView::Friends);
    lemma_runs(app, hosted, animating, now, token, JobView::Requests);
    lemma_others(app, JobView::Requests);
    lemma_runs(app, hosted, animating, now, token, JobView::OutgoingRequests);
    lemma_others(app, JobView::OutgoingRequests);
    lemma_runs(app, hosted, animating, now, token, JobView::SocialStats);
    lemma_others(app, JobView::SocialStats);
    lemma_runs(app, hosted, animating, now, token, JobView::Suggestions);
    lemma_others(app, JobView::Suggestions);
    lemma_runs(app, hosted, animating, now, token, JobView::Blocked);
    lemma_others(app, JobView::Blocked);
    lemma_runs(app, hosted, animating, now, token, JobView::Conversations);
    lemma_others(app, JobView::Conversations);
    lemma_runs(app, hosted, animating, now, token, JobView::Servers);
    lemma_others(app, JobView::Servers);
    lemma_runs(app, hosted, animating, now, token, JobView::MyCall);
    lemma_others(app, JobView::MyCall);
    lemma_runs(app, hosted, animating, now, token, JobView::Tick);
    lemma_others(app, JobView::Tick);
    lemma_runs(app, hosted, animating, now, token, JobView::AdminUsers);
    lemma_others(app, JobView::AdminUsers);
    lemma_runs(app, hosted, animating, now, token, JobView::AnimateMembersPanel);
    lemma_others(app, JobView::AnimateMembersPanel);
}

/// The open chat is followed, with its pins and who types there, and no other.
pub proof fn the_open_chat_is_followed(
    app: App,
    hosted: Set<Seq<char>>,
    animating: bool,
    now: Now,
    token: Seq<char>,
    chat: Seq<char>,
)
    requires
        online(app, token),
    ensures
        ({
            let jobs = wanted(app, hosted, animating, now);
            &&& jobs.contains(JobView::Messages(chat)) <==> text_is(app.place.conversation, chat)
            &&& jobs.contains(JobView::Pins(chat)) <==> text_is(app.place.conversation, chat)
            &&& jobs.contains(JobView::Typing(chat)) <==> text_is(app.place.conversation, chat)
        }),
{
    lemma_runs(app, hosted, animating, now, token, JobView::Messages(chat));
    lemma_others(app, JobView::Messages(chat));
    lemma_runs(app, hosted, animating, now, token, JobView::Pins(chat));
    lemma_others(app, JobView::Pins(chat));
    lemma_runs(app, hosted, animating, now, token, JobView::Typing(chat));
    lemma_others(app, JobView::Typing(chat));
}

/// The selected server is followed, and no other; what we may do there only
/// while its settings are open.
pub proof fn the_selected_server_is_followed(
    app: App,
    hosted: Set<Seq<char>>,
    animating: bool,
    now: Now,
    token: Seq<char>,
    server: Seq<char>,
)
    requires
        online(app, token),
    ensures
        ({
            let jobs = wanted(app, hosted, animating, now);
            let selected = app.servers.selected is Some && app.servers.selected->0.server_id@
                == server;
            &&& jobs.contains(JobView::Channels(server)) <==> selected
            &&& jobs.contains(JobView::Members(server)) <==> selected
            &&& jobs.contains(JobView::Roles(server)) <==> selected
            &&& jobs.contains(JobView::MyPerms(server)) <==> selected && app.servers.settings_open
        }),
{
    lemma_runs(app, hosted, animating, now, token, JobView::Channels(server));
    lemma_others(app, JobView::Channels(server));
    lemma_runs(app, hosted, animating, now, token, JobView::Members(server));
    lemma_others(app, JobView::Members(server));
    lemma_runs(app, hosted, animating, now, token, JobView::Roles(server));
    lemma_others(app, JobView::Roles(server));
    lemma_runs(app, hosted, animating, now, token, JobView::MyPerms(server));
    lemma_others(app, JobView::MyPerms(server));
}

/// The voice room that we are in is connected, and its people are followed;
/// where we are in none, those of an open voice channel or group.
pub proof fn the_voice_room_is_connected(
    app: App,
    hosted: Set<Seq<char>>,
    animating: bool,
    now: Now,
    token: Seq<char>,
    room: Seq<char>,
)
    requires
        online(app, token),
    ensures
        ({
            let jobs = wanted(app, hosted, animating, now);
            &&& jobs.contains(JobView::RoomVoice(room)) <==> text_is(app.voice.active_channel, room)
            &&& app.voice.active_channel is Some ==> (jobs.contains(JobView::VoiceUsers(room))
                <==> text_is(app.voice.active_channel, room))
            &&& app.voice.active_channel is None ==> (jobs.contains(JobView::VoiceUsers(room))
                <==> text_is(app.place.conversation, room) && (text_is(
                app.place.kind,
                "voice"@,
            ) || text_is(app.place.kind, "group"@)))
        }),
{
    lemma_runs(app, hosted, animating, now, token, JobView::RoomVoice(room));
    lemma_others(app, JobView::RoomVoice(room));
    lemma_runs(app, hosted, animating, now, token, JobView::VoiceUsers(room));
    lemma_others(app, JobView::VoiceUsers(room));
}

/// The bell goes on while someone calls us, and the engine of our call runs
/// while we have a part in it.
pub proof fn calls_are_kept_up(
    app: App,
    hosted: Set<Seq<char>>,
    animating: bool,
    now: Now,
    token: Seq<char>,
    key: Seq<char>,
)
    requires
        online(app, token),
    ensures
        ({
            let jobs = wanted(app, hosted, animating, now);
            &&& jobs.contains(JobView::RingTick) <==> someone_calls(app)
            &&& jobs.contains(JobView::Call(key)) <==> text_is(app.calls.engine_key, key)
                && app.calls.role is Some
        }),
{
    lemma_runs(app, hosted, animating, now, token, JobView::RingTick);
    lemma_others(app, JobView::RingTick);
    lemma_runs(app, hosted, animating, now, token, JobView::Call(key));
    lemma_others(app, JobView::Call(key));
}

proof fn lemma_first_online(friends: Seq<Friend>, now: Now, max: nat, k: int)
    requires
        0 <= k < friends.len(),
        here(friends[k], now),
        friends.len() <= max,
    ensures
        first_online(friends, now, max).contains(friends[k].user_id@),
        first_online(friends, now, max).len() <= friends.len(),
    decreases friends.len(),
{
    let t = friends.drop_last();
    let before = first_online(t, now, max);
    let all = first_online(friends, now, max);
    lemma_shorter(t, now, max);
    if k < t.len() {
        lemma_first_online(t, now, max, k);
        let i = choose|i: int| 0 <= i < before.len() && before[i] == t[k].user_id@;
        assert(all[i] == before[i]);
    } else {
        assert(all[all.len() - 1] == friends[k].user_id@);
    }
}

proof fn lemma_shorter(friends: Seq<Friend>, now: Now, max: nat)
    ensures
        first_online(friends, now, max).len() <= friends.len(),
    decreases friends.len(),
{
    if friends.len() > 0 {
        lemma_shorter(friends.drop_last(), now, max);
    }
}

proof fn lemma_online_ids(friends: Seq<Friend>, now: Now, max: nat, id: Seq<char>)
    requires
        first_online(friends, now, max).contains(id),
    ensures
        exists|k: int|
            0 <= k < friends.len() && (#[trigger] friends[k]).user_id@ == id && here(
                friends[k],
                now,
            ),
    decreases friends.len(),
{
    let all = first_online(friends, now, max);
    let i = choose|i: int| 0 <= i < all.len() && all[i] == id;
    let t = friends.drop_last();
    let before = first_online(t, now, max);
    if i < before.len() {
        assert(before[i] == id);
        assert(before.contains(id));
        lemma_online_ids(t, now, max, id);
        let k = choose|k: int|
            0 <= k < t.len() && (#[trigger] t[k]).user_id@ == id && here(t[k], now);
        assert(friends[k] == t[k]);
    } else {
        assert(friends[friends.len() - 1].user_id@ == id);
    }
}

proof fn lemma_friend_jobs(app: App, ids: Seq<Seq<char>>, hosted: Set<Seq<char>>, id: Seq<char>, c: Seq<char>)
    ensures
        friend_jobs(app, ids, hosted).contains(JobView::PeerSession(id, c)) <==> ids.contains(id)
            && direct_with(app.inbox.conversations@, id) == Some(c),
        friend_jobs(app, ids, hosted).contains(JobView::PeerInvite(id, c)) <==> ids.contains(id)
            && direct_with(app.inbox.conversations@, id) == Some(c) && !hosted.contains(id),
    decreases ids.len(),
{
    if ids.len() > 0 {
        let t = ids.drop_last();
        lemma_friend_jobs(app, t, hosted, id, c);
        if ids.contains(id) {
            let i = choose|i: int| 0 <= i < ids.len() && ids[i] == id;
            if i < t.len() {
                assert(t[i] == id);
                assert(t.contains(id));
            }
        }
        if t.contains(id) {
            let i = choose|i: int| 0 <= i < t.len() && t[i] == id;
            assert(ids[i] == id);
        }
        if ids.last() == id {
            assert(ids[ids.len() - 1] == id);
        }
        if direct_with(app.inbox.conversations@, ids.last()) is Some {
            let before = friend_jobs(app, t, hosted);
            let d = direct_with(app.inbox.conversations@, ids.last())->0;
            let jobs = channel_jobs(ids.last(), d, hosted);
            assert(jobs[0] == JobView::PeerSession(ids.last(), d));
            if !hosted.contains(ids.last()) {
                assert(jobs[1] == JobView::PeerInvite(ids.last(), d));
            }
            lemma_either(before, jobs, JobView::PeerSession(id, c));
            lemma_either(before, jobs, JobView::PeerInvite(id, c));
        }
    }
}

/// A live channel runs to each friend who is here and has a direct chat with
/// us, as long as no more friends are listed than channels may run; for
/// whoever hosts it on their side we wait for an invite. It runs in that chat.
pub proof fn friends_here_have_a_channel(
    app: App,
    hosted: Set<Seq<char>>,
    animating: bool,
    now: Now,
    token: Seq<char>,
    k: int,
)
    requires
        online(app, token),
        0 <= k < app.social.friends@.len(),
        app.social.friends@.len() <= app.config.max_background_peers,
        here(app.social.friends@[k], now),
        direct_with(app.inbox.conversations@, app.social.friends@[k].user_id@) is Some,
    ensures
        ({
            let jobs = wanted(app, hosted, animating, now);
            let id = app.social.friends@[k].user_id@;
            let chat = direct_with(app.inbox.conversations@, id)->0;
            &&& jobs.contains(JobView::PeerSession(id, chat))
            &&& !hosted.contains(id) ==> jobs.contains(JobView::PeerInvite(id, chat))
        }),
{
    let max = app.config.max_background_peers as nat;
    let ids = first_online(app.social.friends@, now, max);
    let id = app.social.friends@[k].user_id@;
    lemma_first_online(app.social.friends@, now, max, k);
    lemma_friend_jobs(
        app,
        ids,
        hosted,
        id,
        direct_with(app.inbox.conversations@, id)->0,
    );
    let chat = direct_with(app.inbox.conversations@, id)->0;
    lemma_wanted(app, hosted, animating, now, token, JobView::PeerSession(id, chat));
    lemma_wanted(app, hosted, animating, now, token, JobView::PeerInvite(id, chat));
}

/// No other channel runs than those to friends who are here, in the direct
/// chat with them, and that of the open direct chat; and an invite is waited
/// for only where it is not ours to give.
pub proof fn no_other_channel_runs(
    app: App,
    hosted: Set<Seq<char>>,
    animating: bool,
    now: Now,
    token: Seq<char>,
    id: Seq<char>,
    chat: Seq<char>,
)
    requires
        online(app, token),
    ensures
        ({
            let jobs = wanted(app, hosted, animating, now);
            let is_open = text_is(app.place.kind, "direct"@) && text_is(app.place.peer_id, id)
                && text_is(app.place.conversation, chat);
            let is_friend = direct_with(app.inbox.conversations@, id) == Some(chat) && exists|k: int|
                {
                    &&& 0 <= k < app.social.friends@.len()
                    &&& (#[trigger] app.social.friends@[k]).user_id@ == id
                    &&& here(app.social.friends@[k], now)
                };
            &&& jobs.contains(JobView::PeerSession(id, chat)) ==> is_open || is_friend
            &&& jobs.contains(JobView::PeerInvite(id, chat)) ==> (is_open || is_friend)
                && !hosted.contains(id)
        }),
{
    let max = app.config.max_background_peers as nat;
    let ids = first_online(app.social.friends@, now, max);
    lemma_friend_jobs(app, ids, hosted, id, chat);
    if ids.contains(id) {
        lemma_online_ids(app.social.friends@, now, max, id);
    }
    lemma_channel(app, hosted, animating, now, token, JobView::PeerSession(id, chat));
    lemma_channel(app, hosted, animating, now, token, JobView::PeerInvite(id, chat));
}

proof fn lemma_channel(
    app: App,
    hosted: Set<Seq<char>>,
    animating: bool,
    now: Now,
    token: Seq<char>,
    j: JobView,
)
    requires
        online(app, token),
        is_channel(j),
    ensures
        ({
            let ids = first_online(
                app.social.friends@,
                now,
                app.config.max_background_peers as nat,
            );
            wanted(app, hosted, animating, now).contains(j) <==> friend_jobs(
                app,
                ids,
                hosted,
            ).contains(j) || open_dm_jobs(app, ids, hosted).contains(j)
        }),
{
    lemma_wanted(app, hosted, animating, now, token, j);
    lemma_fixed(j);
    lemma_staff(app, animating, j);
    lemma_others(app, j);
}

/// The open direct chat has its channel, whoever the peer is.
pub proof fn the_open_direct_chat_has_a_channel(
    app: App,
    hosted: Set<Seq<char>>,
    animating: bool,
    now: Now,
    token: Seq<char>,
)
    requires
        online(app, token),
        text_is(app.place.kind, "direct"@),
        app.place.peer_id is Some,
        app.place.conversation is Some,
    ensures
        exists|chat: Seq<char>| #[trigger]
            wanted(app, hosted, animating, now).contains(
                JobView::PeerSession(app.place.peer_id->0@, chat),
            ),
        direct_with(app.inbox.conversations@, app.place.peer_id->0@) is None ==> wanted(
            app,
            hosted,
            animating,
            now,
        ).contains(JobView::PeerSession(app.place.peer_id->0@, app.place.conversation->0@)),
{
    let max = app.config.max_background_peers as nat;
    let ids = first_online(app.social.friends@, now, max);
    let id = app.place.peer_id->0@;
    let jobs = wanted(app, hosted, animating, now);
    if ids.contains(id) && direct_with(app.inbox.conversations@, id) is Some {
        let chat = direct_with(app.inbox.conversations@, id)->0;
        lemma_friend_jobs(app, ids, hosted, id, chat);
        lemma_wanted(app, hosted, animating, now, token, JobView::PeerSession(id, chat));
        assert(jobs.contains(JobView::PeerSession(id, chat)));
    } else {
        let chat = app.place.conversation->0@;
        assert(open_dm_jobs(app, ids, hosted)[0] == JobView::PeerSession(id, chat));
        lemma_wanted(app, hosted, animating, now, token, JobView::PeerSession(id, chat));
        assert(jobs.contains(JobView::PeerSession(id, chat)));
    }
}

} // verus!
