//! The background jobs that the current state calls for: subscriptions at the
//! backend, workers of the live channels, calls and timers.

use crate::clock::now_ms;
use crate::state::app::{App, Now};
use crate::state::effect::opt_text;
use crate::state::lifecycle::copy_opt;
use crate::state::peers::{direct_with, find_direct};
use crate::state::types::Friend;
use crate::strmap::{holds_text, texts, StrSet};
use crate::text::{is_text, text_is};
use vstd::prelude::*;

verus! {

/// A background job. Jobs are told apart by what they hold.
#[derive(Debug)]
pub enum Job {
    Tray,
    /// Looks for updates from time to time.
    UpdateCheck,
    Friends,
    Requests,
    OutgoingRequests,
    SocialStats,
    Suggestions,
    Blocked,
    Conversations,
    Servers,
    MyCall,
    Tick,
    AdminUsers,
    /// The four jobs about one server.
    Channels(String),
    Members(String),
    Roles(String),
    MyPerms(String),
    VoiceUsers(String),
    RoomVoice(String),
    AnimateMembersPanel,
    /// The three jobs about the open chat.
    Messages(String),
    Pins(String),
    Typing(String),
    /// The live channel to a user, for the DM with them.
    PeerSession { peer_id: String, conversation_id: String },
    /// Waits for that user's invite.
    PeerInvite { peer_id: String, conversation_id: String },
    RingTick,
    /// The engine of our call, by its key.
    Call(String),
}

/// How often a timer job fires, in milliseconds, and whether the first time,
/// which comes at once, is left out: an update is looked for at the start
/// already. Other jobs have no period.
pub fn period(job: &Job) -> (r: Option<(u64, bool)>)
    ensures
        r == match *job {
            Job::Tick => Some((5_000u64, false)),
            Job::UpdateCheck => Some((1_800_000u64, true)),
            Job::RingTick => Some((2_000u64, false)),
            Job::AnimateMembersPanel => Some((16u64, false)),
            _ => None,
        },
{
    match job {
        Job::Tick => Some((5_000, false)),
        Job::UpdateCheck => Some((1_800_000, true)),
        Job::RingTick => Some((2_000, false)),
        Job::AnimateMembersPanel => Some((16, false)),
        _ => None,
    }
}

/// A [`Job`] by what it holds.
pub enum JobView {
    Tray,
    UpdateCheck,
    Friends,
    Requests,
    OutgoingRequests,
    SocialStats,
    Suggestions,
    Blocked,
    Conversations,
    Servers,
    MyCall,
    Tick,
    AdminUsers,
    Channels(Seq<char>),
    Members(Seq<char>),
    Roles(Seq<char>),
    MyPerms(Seq<char>),
    VoiceUsers(Seq<char>),
    RoomVoice(Seq<char>),
    AnimateMembersPanel,
    Messages(Seq<char>),
    Pins(Seq<char>),
    Typing(Seq<char>),
    PeerSession(Seq<char>, Seq<char>),
    PeerInvite(Seq<char>, Seq<char>),
    RingTick,
    Call(Seq<char>),
}

impl View for Job {
    type V = JobView;

    open spec fn view(&self) -> JobView {
        match self {
            Job::Tray => JobView::Tray,
            Job::UpdateCheck => JobView::UpdateCheck,
            Job::Friends => JobView::Friends,
            Job::Requests => JobView::Requests,
            Job::OutgoingRequests => JobView::OutgoingRequests,
            Job::SocialStats => JobView::SocialStats,
            Job::Suggestions => JobView::Suggestions,
            Job::Blocked => JobView::Blocked,
            Job::Conversations => JobView::Conversations,
            Job::Servers => JobView::Servers,
            Job::MyCall => JobView::MyCall,
            Job::Tick => JobView::Tick,
            Job::AdminUsers => JobView::AdminUsers,
            Job::Channels(s) => JobView::Channels(s@),
            Job::Members(s) => JobView::Members(s@),
            Job::Roles(s) => JobView::Roles(s@),
            Job::MyPerms(s) => JobView::MyPerms(s@),
            Job::VoiceUsers(c) => JobView::VoiceUsers(c@),
            Job::RoomVoice(c) => JobView::RoomVoice(c@),
            Job::AnimateMembersPanel => JobView::AnimateMembersPanel,
            Job::Messages(c) => JobView::Messages(c@),
            Job::Pins(c) => JobView::Pins(c@),
            Job::Typing(c) => JobView::Typing(c@),
            Job::PeerSession { peer_id, conversation_id } => JobView::PeerSession(
                peer_id@,
                conversation_id@,
            ),
            Job::PeerInvite { peer_id, conversation_id } => JobView::PeerInvite(
                peer_id@,
                conversation_id@,
            ),
            Job::RingTick => JobView::RingTick,
            Job::Call(key) => JobView::Call(key@),
        }
    }
}

/// Jobs by what they hold.
pub open spec fn job_list(jobs: Seq<Job>) -> Seq<JobView> {
    Seq::new(jobs.len(), |i: int| jobs[i]@)
}

// ---------- What the state calls for ----------

/// Always on, even signed out: without the tray icon closing would quit, and
/// updates are looked for from the sign-in screen too.
pub open spec fn always() -> Seq<JobView> {
    seq![JobView::Tray, JobView::UpdateCheck]
}

/// On while signed in.
pub open spec fn session_jobs() -> Seq<JobView> {
    seq![
        JobView::Friends,
        JobView::Requests,
        JobView::OutgoingRequests,
        JobView::SocialStats,
        JobView::Suggestions,
        JobView::Blocked,
        JobView::Conversations,
        JobView::Servers,
        JobView::MyCall,
        JobView::Tick,
    ]
}

/// On for staff.
pub open spec fn staff_jobs(app: App) -> Seq<JobView> {
    match app.session {
        Some(s) => if s.is_admin || s.is_moderator {
            seq![JobView::AdminUsers]
        } else {
            Seq::empty()
        },
        None => Seq::empty(),
    }
}

/// On while a server is selected; our permissions only matter in its settings.
pub open spec fn server_jobs(app: App) -> Seq<JobView> {
    match app.servers.selected {
        Some(s) => seq![
            JobView::Channels(s.server_id@),
            JobView::Members(s.server_id@),
            JobView::Roles(s.server_id@),
        ] + if app.servers.settings_open {
            seq![JobView::MyPerms(s.server_id@)]
        } else {
            Seq::empty()
        },
        None => Seq::empty(),
    }
}

/// The room whose people are shown: the one we are in, or else the open one.
pub open spec fn shown_room(app: App) -> Option<Seq<char>> {
    match app.voice.active_channel {
        Some(c) => Some(c@),
        None => if text_is(app.place.kind, "voice"@) || text_is(app.place.kind, "group"@) {
            match app.place.conversation {
                Some(c) => Some(c@),
                None => None,
            }
        } else {
            None
        },
    }
}

/// On for voice rooms.
pub open spec fn voice_jobs(app: App) -> Seq<JobView> {
    (match shown_room(app) {
        Some(c) => seq![JobView::VoiceUsers(c)],
        None => Seq::empty(),
    }) + (match app.voice.active_channel {
        Some(c) => seq![JobView::RoomVoice(c@)],
        None => Seq::empty(),
    })
}

/// On while the members panel moves.
pub open spec fn panel_jobs(animating: bool) -> Seq<JobView> {
    if animating {
        seq![JobView::AnimateMembersPanel]
    } else {
        Seq::empty()
    }
}

/// On while a chat is open.
pub open spec fn chat_jobs(app: App) -> Seq<JobView> {
    match app.place.conversation {
        Some(c) => seq![JobView::Messages(c@), JobView::Pins(c@), JobView::Typing(c@)],
        None => Seq::empty(),
    }
}

/// The first friends, at most `max`, that count as online.
pub open spec fn first_online(friends: Seq<Friend>, now: Now, max: nat) -> Seq<Seq<char>>
    decreases friends.len(),
{
    if friends.len() == 0 {
        Seq::empty()
    } else {
        let before = first_online(friends.drop_last(), now, max);
        if before.len() < max && friends.last().online_like(now.unix_ms as int) {
            before.push(friends.last().user_id@)
        } else {
            before
        }
    }
}

/// The live channel to a user; whoever does not host it waits for an invite.
pub open spec fn channel_jobs(peer: Seq<char>, conversation: Seq<char>, hosted: Set<Seq<char>>) -> Seq<
    JobView,
> {
    seq![JobView::PeerSession(peer, conversation)] + if hosted.contains(peer) {
        Seq::empty()
    } else {
        seq![JobView::PeerInvite(peer, conversation)]
    }
}

/// The live channels to those of these users that we have a DM with.
pub open spec fn friend_jobs(app: App, ids: Seq<Seq<char>>, hosted: Set<Seq<char>>) -> Seq<JobView>
    decreases ids.len(),
{
    if ids.len() == 0 {
        Seq::empty()
    } else {
        let before = friend_jobs(app, ids.drop_last(), hosted);
        match direct_with(app.inbox.conversations@, ids.last()) {
            Some(c) => before + channel_jobs(ids.last(), c, hosted),
            None => before,
        }
    }
}

/// The live channel of the open DM, where it is not on already: its peer may
/// be no friend (support chats), or a friend beyond the limit.
pub open spec fn open_dm_jobs(app: App, ids: Seq<Seq<char>>, hosted: Set<Seq<char>>) -> Seq<JobView> {
    match (app.place.peer_id, app.place.conversation) {
        (Some(p), Some(c)) => if !text_is(app.place.kind, "direct"@) || (ids.contains(p@)
            && direct_with(app.inbox.conversations@, p@) is Some) {
            Seq::empty()
        } else {
            channel_jobs(p@, c@, hosted)
        },
        _ => Seq::empty(),
    }
}

/// On for calls.
pub open spec fn call_jobs(app: App) -> Seq<JobView> {
    (match app.calls.my_call {
        Some(c) => if c.rings() {
            seq![JobView::RingTick]
        } else {
            Seq::empty()
        },
        None => Seq::empty(),
    }) + (match app.calls.engine_key {
        Some(key) => if app.calls.role is Some {
            seq![JobView::Call(key@)]
        } else {
            Seq::empty()
        },
        None => Seq::empty(),
    })
}

/// All jobs that the state calls for at `now`. `hosted` holds the users whose
/// live channel is opened from our side.
pub open spec fn wanted(app: App, hosted: Set<Seq<char>>, animating: bool, now: Now) -> Seq<JobView> {
    if app.token() is None {
        always()
    } else {
        let ids = first_online(
            app.social.friends@,
            now,
            app.config.max_background_peers as nat,
        );
        always() + session_jobs() + staff_jobs(app) + server_jobs(app) + voice_jobs(app)
            + panel_jobs(animating) + chat_jobs(app) + friend_jobs(app, ids, hosted)
            + open_dm_jobs(app, ids, hosted) + call_jobs(app)
    }
}

// ---------- The same, computed ----------

fn join_jobs(a: Vec<Job>, b: Vec<Job>) -> (r: Vec<Job>)
    ensures
        job_list(r@) == job_list(a@) + job_list(b@),
{
    let mut r = a;
    let mut b = b;
    let ghost x = r@;
    let ghost y = b@;
    r.append(&mut b);
    assert(r@ == x + y);
    assert(job_list(r@) =~= job_list(x) + job_list(y));
    r
}

fn no_jobs() -> (r: Vec<Job>)
    ensures
        job_list(r@) == Seq::<JobView>::empty(),
{
    let r: Vec<Job> = Vec::new();
    assert(job_list(r@) =~= Seq::<JobView>::empty());
    r
}

fn one_job(j: Job) -> (r: Vec<Job>)
    ensures
        job_list(r@) == seq![j@],
{
    let r = vec![j];
    assert(job_list(r@) =~= seq![j@]);
    r
}

fn always_on() -> (r: Vec<Job>)
    ensures
        job_list(r@) == always(),
{
    let r = vec![Job::Tray, Job::UpdateCheck];
    assert(job_list(r@) =~= always());
    r
}

fn signed_in() -> (r: Vec<Job>)
    ensures
        job_list(r@) == session_jobs(),
{
    let r = vec![
        Job::Friends,
        Job::Requests,
        Job::OutgoingRequests,
        Job::SocialStats,
        Job::Suggestions,
        Job::Blocked,
        Job::Conversations,
        Job::Servers,
        Job::MyCall,
        Job::Tick,
    ];
    assert(job_list(r@) =~= session_jobs());
    r
}

fn channel(peer_id: String, conversation_id: String, hosted: &StrSet) -> (r: Vec<Job>)
    ensures
        job_list(r@) == channel_jobs(peer_id@, conversation_id@, hosted@),
{
    if hosted.contains(&peer_id) {
        let r = one_job(Job::PeerSession { peer_id, conversation_id });
        assert(job_list(r@) =~= channel_jobs(peer_id@, conversation_id@, hosted@));
        r
    } else {
        let first = one_job(
            Job::PeerSession {
                peer_id: peer_id.clone(),
                conversation_id: conversation_id.clone(),
            },
        );
        join_jobs(first, one_job(Job::PeerInvite { peer_id, conversation_id }))
    }
}

impl App {
    fn staff(&self) -> (r: Vec<Job>)
        ensures
            job_list(r@) == staff_jobs(*self),
    {
        match &self.session {
            Some(s) => {
                if s.is_admin || s.is_moderator {
                    one_job(Job::AdminUsers)
                } else {
                    no_jobs()
                }
            },
            None => no_jobs(),
        }
    }

    fn server(&self) -> (r: Vec<Job>)
        ensures
            job_list(r@) == server_jobs(*self),
    {
        match &self.servers.selected {
            Some(s) => {
                let three = vec![
                    Job::Channels(s.server_id.clone()),
                    Job::Members(s.server_id.clone()),
                    Job::Roles(s.server_id.clone()),
                ];
                assert(job_list(three@) =~= seq![
                    JobView::Channels(s.server_id@),
                    JobView::Members(s.server_id@),
                    JobView::Roles(s.server_id@),
                ]);
                if self.servers.settings_open {
                    join_jobs(three, one_job(Job::MyPerms(s.server_id.clone())))
                } else {
                    join_jobs(three, no_jobs())
                }
            },
            None => no_jobs(),
        }
    }

    fn room_shown(&self) -> (r: Option<String>)
        ensures
            opt_text(r) == shown_room(*self),
    {
        match &self.voice.active_channel {
            Some(c) => Some(c.clone()),
            None => {
                if is_text(&self.place.kind, "voice") || is_text(&self.place.kind, "group") {
                    copy_opt(&self.place.conversation)
                } else {
                    None
                }
            },
        }
    }

    fn voice_rooms(&self) -> (r: Vec<Job>)
        ensures
            job_list(r@) == voice_jobs(*self),
    {
        let people = match self.room_shown() {
            Some(c) => one_job(Job::VoiceUsers(c)),
            None => no_jobs(),
        };
        let mesh = match &self.voice.active_channel {
            Some(c) => one_job(Job::RoomVoice(c.clone())),
            None => no_jobs(),
        };
        join_jobs(people, mesh)
    }

    fn open_chat(&self) -> (r: Vec<Job>)
        ensures
            job_list(r@) == chat_jobs(*self),
    {
        match &self.place.conversation {
            Some(c) => {
                let r = vec![
                    Job::Messages(c.clone()),
                    Job::Pins(c.clone()),
                    Job::Typing(c.clone()),
                ];
                assert(job_list(r@) =~= chat_jobs(*self));
                r
            },
            None => no_jobs(),
        }
    }

    fn online_ids(&self, now: Now) -> (r: Vec<String>)
        ensures
            texts(r@) == first_online(
                self.social.friends@,
                now,
                self.config.max_background_peers as nat,
            ),
    {
        let max: usize = self.config.max_background_peers;
        let ghost friends = self.social.friends@;
        let mut r: Vec<String> = Vec::new();
        let mut i: usize = 0;
        assert(texts(r@) =~= first_online(friends.take(0), now, max as nat));
        while i < self.social.friends.len()
            invariant
                i <= friends.len(),
                friends == self.social.friends@,
                texts(r@) == first_online(friends.take(i as int), now, max as nat),
            decreases friends.len() - i,
        {
            assert(friends.take(i + 1).drop_last() =~= friends.take(i as int));
            assert(friends.take(i + 1).last() == friends[i as int]);
            if r.len() < max && self.social.friends[i].is_online_like_at(now.unix_ms) {
                let ghost before = texts(r@);
                r.push(self.social.friends[i].user_id.clone());
                assert(texts(r@) =~= before.push(friends[i as int].user_id@));
            }
            i += 1;
        }
        assert(friends.take(friends.len() as int) =~= friends);
        r
    }

    fn friend_channels(&self, ids: &Vec<String>, hosted: &StrSet) -> (r: Vec<Job>)
        ensures
            job_list(r@) == friend_jobs(*self, texts(ids@), hosted@),
    {
        let ghost all = texts(ids@);
        let mut r = no_jobs();
        let mut i: usize = 0;
        assert(all.take(0) =~= Seq::<Seq<char>>::empty());
        while i < ids.len()
            invariant
                i <= ids@.len(),
                all == texts(ids@),
                job_list(r@) == friend_jobs(*self, all.take(i as int), hosted@),
            decreases ids@.len() - i,
        {
            assert(all.take(i + 1).drop_last() =~= all.take(i as int));
            assert(all.take(i + 1).last() == all[i as int]);
            match find_direct(&self.inbox.conversations, &ids[i]) {
                Some(c) => {
                    r = join_jobs(r, channel(ids[i].clone(), c, hosted));
                },
                None => {},
            }
            i += 1;
        }
        assert(all.take(all.len() as int) =~= all);
        r
    }

    fn open_dm(&self, ids: &Vec<String>, hosted: &StrSet) -> (r: Vec<Job>)
        ensures
            job_list(r@) == open_dm_jobs(*self, texts(ids@), hosted@),
    {
        let peer = copy_opt(&self.place.peer_id);
        let conversation = copy_opt(&self.place.conversation);
        match (peer, conversation) {
            (Some(p), Some(c)) => {
                if !is_text(&self.place.kind, "direct") {
                    return no_jobs();
                }
                let on = holds_text(ids, &p) && find_direct(
                    &self.inbox.conversations,
                    &p,
                ).is_some();
                if on {
                    no_jobs()
                } else {
                    channel(p, c, hosted)
                }
            },
            _ => no_jobs(),
        }
    }

    fn calls_on(&self) -> (r: Vec<Job>)
        ensures
            job_list(r@) == call_jobs(*self),
    {
        let ring = match &self.calls.my_call {
            Some(c) => {
                if c.is_ringing() {
                    one_job(Job::RingTick)
                } else {
                    no_jobs()
                }
            },
            None => no_jobs(),
        };
        let engine = match &self.calls.engine_key {
            Some(key) => {
                if self.calls.role.is_some() {
                    one_job(Job::Call(key.clone()))
                } else {
                    no_jobs()
                }
            },
            None => no_jobs(),
        };
        join_jobs(ring, engine)
    }

    /// [`wanted`], computed.
    pub fn subscription_at(&self, hosted: &StrSet, animating: bool, now: Now) -> (r: Vec<Job>)
        ensures
            job_list(r@) == wanted(*self, hosted@, animating, now),
    {
        let base = always_on();
        if self.online_token().is_none() {
            return base;
        }
        let panel = if animating {
            one_job(Job::AnimateMembersPanel)
        } else {
            no_jobs()
        };
        let ids = self.online_ids(now);
        let r = join_jobs(base, signed_in());
        let r = join_jobs(r, self.staff());
        let r = join_jobs(r, self.server());
        let r = join_jobs(r, self.voice_rooms());
        let r = join_jobs(r, panel);
        let r = join_jobs(r, self.open_chat());
        let r = join_jobs(r, self.friend_channels(&ids, hosted));
        let r = join_jobs(r, self.open_dm(&ids, hosted));
        join_jobs(r, self.calls_on())
    }

    /// The jobs that the state calls for at this moment of the system clock;
    /// see [`wanted`].
    pub fn subscription(&self, hosted: &StrSet, animating: bool) -> (r: Vec<Job>)
        ensures
            exists|unix_ms: i64|
                0 <= unix_ms && job_list(r@) == #[trigger] wanted(
                    *self,
                    hosted@,
                    animating,
                    (Now { tick_ms: 0, unix_ms }),
                ),
    {
        let unix_ms: i64 = now_ms();
        let r = self.subscription_at(hosted, animating, Now { tick_ms: 0, unix_ms });
        assert(job_list(r@) == wanted(*self, hosted@, animating, Now { tick_ms: 0, unix_ms }));
        r
    }
}

// ---------- Laws ----------

/// How many live channels are among the jobs.
pub open spec fn channel_count(jobs: Seq<JobView>) -> nat
    decreases jobs.len(),
{
    if jobs.len() == 0 {
        0
    } else {
        channel_count(jobs.drop_last()) + if jobs.last() is PeerSession {
            1nat
        } else {
            0nat
        }
    }
}

proof fn lemma_count_sum(a: Seq<JobView>, b: Seq<JobView>)
    ensures
        channel_count(a + b) == channel_count(a) + channel_count(b),
    decreases b.len(),
{
    if b.len() == 0 {
        assert(a + b =~= a);
    } else {
        lemma_count_sum(a, b.drop_last());
        assert((a + b).drop_last() =~= a + b.drop_last());
        assert((a + b).last() == b.last());
    }
}

proof fn lemma_count_none(s: Seq<JobView>)
    requires
        forall|i: int| 0 <= i < s.len() ==> !((#[trigger] s[i]) is PeerSession),
    ensures
        channel_count(s) == 0,
    decreases s.len(),
{
    if s.len() > 0 {
        lemma_count_none(s.drop_last());
    }
}

proof fn lemma_count_channel(peer: Seq<char>, conversation: Seq<char>, hosted: Set<Seq<char>>)
    ensures
        channel_count(channel_jobs(peer, conversation, hosted)) == 1,
{
    let a = seq![JobView::PeerSession(peer, conversation)];
    let b = if hosted.contains(peer) {
        Seq::empty()
    } else {
        seq![JobView::PeerInvite(peer, conversation)]
    };
    lemma_count_sum(a, b);
    lemma_count_none(b);
    assert(a.drop_last() =~= Seq::<JobView>::empty());
    assert(channel_count(a.drop_last()) == 0);
}

proof fn lemma_count_friends(app: App, ids: Seq<Seq<char>>, hosted: Set<Seq<char>>)
    ensures
        channel_count(friend_jobs(app, ids, hosted)) <= ids.len(),
    decreases ids.len(),
{
    if ids.len() > 0 {
        lemma_count_friends(app, ids.drop_last(), hosted);
        match direct_with(app.inbox.conversations@, ids.last()) {
            Some(c) => {
                lemma_count_channel(ids.last(), c, hosted);
                lemma_count_sum(
                    friend_jobs(app, ids.drop_last(), hosted),
                    channel_jobs(ids.last(), c, hosted),
                );
            },
            None => {},
        }
    }
}

proof fn lemma_online_bound(friends: Seq<Friend>, now: Now, max: nat)
    ensures
        first_online(friends, now, max).len() <= max,
    decreases friends.len(),
{
    if friends.len() > 0 {
        lemma_online_bound(friends.drop_last(), now, max);
    }
}

/// However many friends are online, there are at most as many live channels as
/// the configuration allows, and one for the open DM.
pub proof fn live_channels_are_bounded(app: App, hosted: Set<Seq<char>>, animating: bool, now: Now)
    ensures
        channel_count(wanted(app, hosted, animating, now)) <= app.config.max_background_peers + 1,
{
    lemma_count_none(always());
    if app.token() is Some {
        let max = app.config.max_background_peers as nat;
        let ids = first_online(app.social.friends@, now, max);
        lemma_online_bound(app.social.friends@, now, max);
        let a1 = always() + session_jobs();
        let a2 = a1 + staff_jobs(app);
        let a3 = a2 + server_jobs(app);
        let a4 = a3 + voice_jobs(app);
        let a5 = a4 + panel_jobs(animating);
        let a6 = a5 + chat_jobs(app);
        let a7 = a6 + friend_jobs(app, ids, hosted);
        let a8 = a7 + open_dm_jobs(app, ids, hosted);
        lemma_count_none(a6);
        lemma_count_sum(a6, friend_jobs(app, ids, hosted));
        lemma_count_friends(app, ids, hosted);
        lemma_count_sum(a7, open_dm_jobs(app, ids, hosted));
        match (app.place.peer_id, app.place.conversation) {
            (Some(p), Some(c)) => {
                lemma_count_channel(p@, c@, hosted);
                lemma_count_none(Seq::empty());
            },
            _ => {
                lemma_count_none(Seq::empty());
            },
        }
        lemma_count_sum(a8, call_jobs(app));
        lemma_count_none(call_jobs(app));
    }
}

/// Signed out or disconnected, only the tray and the updater run.
pub proof fn signed_out_runs_little(app: App, hosted: Set<Seq<char>>, animating: bool, now: Now)
    requires
        app.token() is None,
    ensures
        wanted(app, hosted, animating, now) == seq![JobView::Tray, JobView::UpdateCheck],
{
}

} // verus!
