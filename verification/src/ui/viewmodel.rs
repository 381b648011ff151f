//! The rows of the screens, with every label, color and flag computed.
//!
//! A function that ends in `_row` says what one row holds, given the labels
//! that depend on the clock; the function for the whole list reads the clock.

use crate::clock::representable;
use crate::state::trust::TrustBadge;
use crate::state::types::{
    is_online, seen_recently, BlockedUser, ChannelSummary, ChatMessage, ConversationSummary,
    Friend, FriendSuggestion, IncomingRequest, MemberRoleTag, MessageReport, OutgoingRequest,
    PeopleHit, ServerMemberRow, ServerSummary,
};
use crate::strmap::{texts, StrMap, StrSet};
use crate::text::{cat2, cat3, cat4, owned, same};
use crate::ui::colors::{
    badge_for_platform_role, color_text, hex_color, initial, initial_of, initial_or,
    platform_badge, rgb_of, Badge, BadgeView, Rgb,
};
use crate::ui::utils::{
    age_text, format_relative_time, format_time, offset_ok, presence_label, presence_text,
    time_text,
};
use vstd::prelude::*;

verus! {

// ---------- Pieces of labels ----------

/// `label` is the age of an instant as seen at some moment on some machine.
pub open spec fn is_age(label: Seq<char>, ms: i64) -> bool {
    exists|now: int, offset: Option<i32>|
        {
            &&& 0 <= now
            &&& offset is Some == representable(ms as int)
            &&& offset_ok(offset)
            &&& label == #[trigger] age_text(ms as int, now, offset)
        }
}

/// `label` is the time of day of an instant on some machine.
pub open spec fn is_time(label: Seq<char>, ms: i64) -> bool {
    exists|offset: Option<i32>|
        {
            &&& offset is Some == representable(ms as int)
            &&& offset_ok(offset)
            &&& label == #[trigger] time_text(ms as int, offset)
        }
}

/// Texts with a separator between them.
pub open spec fn joined(list: Seq<Seq<char>>, separator: Seq<char>) -> Seq<char>
    decreases list.len(),
{
    if list.len() == 0 {
        Seq::empty()
    } else if list.len() == 1 {
        list[0]
    } else {
        joined(list.drop_last(), separator) + separator + list.last()
    }
}

/// [`joined`], computed.
pub fn join(list: &Vec<String>, separator: &str) -> (r: String)
    ensures
        r@ == joined(texts(list@), separator@),
{
    let mut r = String::new();
    let mut i: usize = 0;
    let ghost all = texts(list@);
    assert(r@ =~= joined(all.take(0), separator@));
    while i < list.len()
        invariant
            i <= list@.len(),
            all == texts(list@),
            r@ == joined(all.take(i as int), separator@),
        decreases list@.len() - i,
    {
        assert(all.take(i + 1).drop_last() =~= all.take(i as int));
        assert(all.take(i + 1).last() == list@[i as int]@);
        if i == 0 {
            assert(all.take(1)[0] == list@[0]@);
            r = list[i].clone();
        } else {
            r = cat3(&r, separator, &list[i]);
        }
        i += 1;
    }
    assert(all.take(all.len() as int) =~= all);
    r
}

/// A user name with the servers that we share.
pub open spec fn shared_line(username: Seq<char>, servers: Seq<String>) -> Seq<char> {
    if servers.len() == 0 {
        "@"@ + username
    } else {
        "@"@ + username + " · "@ + joined(texts(servers), ", "@)
    }
}

fn to_shared_line(username: &str, servers: &Vec<String>) -> (r: String)
    ensures
        r@ == shared_line(username@, servers@),
{
    if servers.len() == 0 {
        cat2("@", username)
    } else {
        cat4("@", username, " · ", &join(servers, ", "))
    }
}

/// The row with this id is the chosen one.
pub open spec fn chosen(id: Option<&str>, row_id: Seq<char>) -> bool {
    match id {
        Some(s) => s@ == row_id,
        None => false,
    }
}

fn is_chosen(id: Option<&str>, row_id: &str) -> (r: bool)
    ensures
        r == chosen(id, row_id@),
{
    match id {
        Some(s) => same(s, row_id),
        None => false,
    }
}

// ---------- Chats ----------

/// A row of the chat list.
#[derive(Debug)]
pub struct ConversationRow {
    pub id: String,
    pub title: String,
    pub unread: bool,
    pub active: bool,
    pub is_support: bool,
}

/// The row shows this chat.
pub open spec fn shows_conversation(r: ConversationRow, c: ConversationSummary, active: Option<&str>) -> bool {
    &&& r.id == c.conversation_id
    &&& r.title@ == if c.is_support {
        "Support"@
    } else {
        c.title@
    }
    &&& r.unread == c.unread
    &&& r.active == chosen(active, c.conversation_id@)
    &&& r.is_support == c.is_support
}

/// The rows of the chat list.
pub fn conversation_rows(conversations: &[ConversationSummary], active_id: Option<&str>) -> (rows: Vec<
    ConversationRow,
>)
    ensures
        rows@.len() == conversations@.len(),
        forall|i: int|
            0 <= i < rows@.len() ==> shows_conversation(
                #[trigger] rows@[i],
                conversations@[i],
                active_id,
            ),
{
    let mut rows: Vec<ConversationRow> = Vec::new();
    let mut i: usize = 0;
    while i < conversations.len()
        invariant
            i <= conversations@.len(),
            rows@.len() == i,
            forall|k: int|
                0 <= k < i ==> shows_conversation(#[trigger] rows@[k], conversations@[k], active_id),
        decreases conversations@.len() - i,
    {
        let c = &conversations[i];
        rows.push(
            ConversationRow {
                id: c.conversation_id.clone(),
                title: if c.is_support {
                    owned("Support")
                } else {
                    c.title.clone()
                },
                unread: c.unread,
                active: is_chosen(active_id, &c.conversation_id),
                is_support: c.is_support,
            },
        );
        i += 1;
    }
    rows
}

// ---------- Friends ----------

/// `verified`, `changed`, or nothing for peers that were never verified.
pub open spec fn badge_text(badge: Option<TrustBadge>) -> Seq<char> {
    match badge {
        Some(TrustBadge::Verified) => "verified"@,
        Some(TrustBadge::FingerprintChanged { .. }) => "changed"@,
        _ => ""@,
    }
}

/// [`badge_text`], computed.
pub fn trust_badge_label(badge: Option<&TrustBadge>) -> (r: &'static str)
    ensures
        r@ == badge_text(
            match badge {
                Some(b) => Some(*b),
                None => None,
            },
        ),
{
    match badge {
        Some(TrustBadge::Verified) => "verified",
        Some(TrustBadge::FingerprintChanged { .. }) => "changed",
        _ => "",
    }
}

/// A row of the friends list.
#[derive(Debug)]
pub struct FriendRow {
    pub user_id: String,
    pub label: String,
    pub subtitle: String,
    pub meta: String,
    pub initial: String,
    pub avatar_color: Rgb,
    pub photo_url: String,
    pub online: bool,
    pub favorite: bool,
    pub trust_badge: &'static str,
}

/// What stands behind a friend's user name: the status, or else the servers
/// that we share.
pub open spec fn friend_about(f: Friend) -> Seq<char> {
    if f.status_message@.len() > 0 {
        "@"@ + f.username@ + " · "@ + f.status_message@
    } else {
        shared_line(f.username@, f.mutual_servers@)
    }
}

/// The row shows this friend, who is online or not, and a friend since then.
pub open spec fn shows_friend(
    r: FriendRow,
    f: Friend,
    online: bool,
    since: Seq<char>,
    badge: Option<TrustBadge>,
) -> bool {
    &&& r.user_id == f.user_id
    &&& r.label@ == if f.favorite {
        "★ "@ + f.shown_name()
    } else {
        f.shown_name()
    }
    &&& r.subtitle@ == friend_about(f)
    &&& r.meta@ == presence_text(f.presence@) + " · friends since "@ + since
    &&& r.initial@ == initial_of(f.shown_name(), "?"@)
    &&& r.avatar_color == rgb_of(f.avatar_color@)
    &&& r.photo_url == f.avatar_image_url
    &&& r.online == online
    &&& r.favorite == f.favorite
    &&& r.trust_badge@ == badge_text(badge)
}

/// The row of a friend.
pub fn friend_row(f: &Friend, online: bool, since: &str, badge: Option<&TrustBadge>) -> (r: FriendRow)
    requires
        color_text(f.avatar_color@),
    ensures
        shows_friend(
            r,
            *f,
            online,
            since@,
            match badge {
                Some(b) => Some(*b),
                None => None,
            },
        ),
{
    FriendRow {
        user_id: f.user_id.clone(),
        label: if f.favorite {
            cat2("★ ", f.label())
        } else {
            owned(f.label())
        },
        subtitle: if !f.status_message.as_str().is_empty() {
            cat4("@", &f.username, " · ", &f.status_message)
        } else {
            to_shared_line(&f.username, &f.mutual_servers)
        },
        meta: cat3(presence_label(&f.presence), " · friends since ", since),
        initial: initial(f.label()),
        avatar_color: hex_color(&f.avatar_color),
        photo_url: f.avatar_image_url.clone(),
        online,
        favorite: f.favorite,
        trust_badge: trust_badge_label(badge),
    }
}

/// The badge of a friend.
pub open spec fn badge_of(badges: Map<Seq<char>, TrustBadge>, id: Seq<char>) -> Option<TrustBadge> {
    if badges.contains_key(id) {
        Some(badges[id])
    } else {
        None
    }
}

/// The row shows this friend as things stand at some moment.
pub open spec fn shows_friend_now(r: FriendRow, f: Friend, badges: Map<Seq<char>, TrustBadge>) -> bool {
    exists|now: int, since: Seq<char>|
        {
            &&& 0 <= now
            &&& is_age(since, f.friends_since)
            &&& #[trigger] shows_friend(
                r,
                f,
                f.online_like(now),
                since,
                badge_of(badges, f.user_id@),
            )
        }
}

/// The rows of the friends list.
pub fn friend_rows(friends: &[Friend], trust_badges: &StrMap<TrustBadge>) -> (rows: Vec<FriendRow>)
    requires
        forall|i: int| 0 <= i < friends@.len() ==> color_text((#[trigger] friends@[i]).avatar_color@),
    ensures
        rows@.len() == friends@.len(),
        forall|i: int|
            0 <= i < rows@.len() ==> shows_friend_now(
                #[trigger] rows@[i],
                friends@[i],
                trust_badges@,
            ),
{
    let mut rows: Vec<FriendRow> = Vec::new();
    let mut i: usize = 0;
    while i < friends.len()
        invariant
            i <= friends@.len(),
            rows@.len() == i,
            forall|k: int|
                0 <= k < friends@.len() ==> color_text((#[trigger] friends@[k]).avatar_color@),
            forall|k: int|
                0 <= k < i ==> shows_friend_now(#[trigger] rows@[k], friends@[k], trust_badges@),
        decreases friends@.len() - i,
    {
        let f = &friends[i];
        let online = f.is_online_like();
        let since = format_relative_time(f.friends_since);
        let row = friend_row(f, online, &since, trust_badges.get(&f.user_id));
        proof {
            assert(is_age(since@, f.friends_since));
            let now = choose|now: int| 0 <= now && online == f.online_like(now);
            assert(shows_friend(
                row,
                *f,
                f.online_like(now),
                since@,
                badge_of(trust_badges@, f.user_id@),
            ));
        }
        rows.push(row);
        i += 1;
    }
    rows
}

/// A friend who can be taken into a new group.
#[derive(Debug)]
pub struct GroupCandidateRow {
    pub user_id: String,
    pub label: String,
    pub selected: bool,
}

/// The friends who can be taken into a new group.
pub fn group_candidate_rows(friends: &[Friend], selected: &StrSet) -> (rows: Vec<GroupCandidateRow>)
    ensures
        rows@.len() == friends@.len(),
        forall|i: int|
            0 <= i < rows@.len() ==> (#[trigger] rows@[i]).user_id == friends@[i].user_id
                && rows@[i].label == friends@[i].display_name && rows@[i].selected
                == selected@.contains(friends@[i].user_id@),
{
    let mut rows: Vec<GroupCandidateRow> = Vec::new();
    let mut i: usize = 0;
    while i < friends.len()
        invariant
            i <= friends@.len(),
            rows@.len() == i,
            forall|k: int|
                0 <= k < i ==> (#[trigger] rows@[k]).user_id == friends@[k].user_id
                    && rows@[k].label == friends@[k].display_name && rows@[k].selected
                    == selected@.contains(friends@[k].user_id@),
        decreases friends@.len() - i,
    {
        let f = &friends[i];
        rows.push(
            GroupCandidateRow {
                user_id: f.user_id.clone(),
                label: f.display_name.clone(),
                selected: selected.contains(&f.user_id),
            },
        );
        i += 1;
    }
    rows
}

// ---------- Friend requests ----------

/// A row of the requests to us.
#[derive(Debug)]
pub struct IncomingRequestRow {
    pub request_id: String,
    pub from_user_id: String,
    pub from_display_name: String,
    pub sub: String,
    pub note: String,
    pub status_message: String,
    pub initial: String,
    pub avatar_color: Rgb,
    pub photo_url: String,
    pub online: bool,
}

/// The row shows this request, sent so long ago.
pub open spec fn shows_incoming(r: IncomingRequestRow, q: IncomingRequest, age: Seq<char>) -> bool {
    &&& r.request_id == q.request_id
    &&& r.from_user_id == q.from_user_id
    &&& r.from_display_name == q.from_display_name
    &&& r.sub@ == "@"@ + q.from_username@ + " · "@ + age
    &&& r.note == q.note
    &&& r.status_message == q.from_status_message
    &&& r.initial@ == initial_of(q.from_display_name@, "?"@)
    &&& r.avatar_color == rgb_of(q.from_avatar_color@)
    &&& r.photo_url == q.from_avatar_image_url
    &&& r.online == (q.presence@ != "offline"@)
}

/// The row of a request to us.
pub fn incoming_request_row(q: &IncomingRequest, age: &str) -> (r: IncomingRequestRow)
    requires
        color_text(q.from_avatar_color@),
    ensures
        shows_incoming(r, *q, age@),
{
    IncomingRequestRow {
        request_id: q.request_id.clone(),
        from_user_id: q.from_user_id.clone(),
        from_display_name: q.from_display_name.clone(),
        sub: cat4("@", &q.from_username, " · ", age),
        note: q.note.clone(),
        status_message: q.from_status_message.clone(),
        initial: initial(&q.from_display_name),
        avatar_color: hex_color(&q.from_avatar_color),
        photo_url: q.from_avatar_image_url.clone(),
        online: !same(&q.presence, "offline"),
    }
}

/// The row shows this request as things stand at some moment.
pub open spec fn shows_incoming_now(r: IncomingRequestRow, q: IncomingRequest) -> bool {
    exists|age: Seq<char>| is_age(age, q.sent_at) && #[trigger] shows_incoming(r, q, age)
}

/// The rows of the requests to us.
pub fn incoming_request_rows(incoming_requests: &[IncomingRequest]) -> (rows: Vec<IncomingRequestRow>)
    requires
        forall|i: int|
            0 <= i < incoming_requests@.len() ==> color_text(
                (#[trigger] incoming_requests@[i]).from_avatar_color@,
            ),
    ensures
        rows@.len() == incoming_requests@.len(),
        forall|i: int|
            0 <= i < rows@.len() ==> shows_incoming_now(#[trigger] rows@[i], incoming_requests@[i]),
{
    let mut rows: Vec<IncomingRequestRow> = Vec::new();
    let mut i: usize = 0;
    while i < incoming_requests.len()
        invariant
            i <= incoming_requests@.len(),
            rows@.len() == i,
            forall|k: int|
                0 <= k < incoming_requests@.len() ==> color_text(
                    (#[trigger] incoming_requests@[k]).from_avatar_color@,
                ),
            forall|k: int|
                0 <= k < i ==> shows_incoming_now(#[trigger] rows@[k], incoming_requests@[k]),
        decreases incoming_requests@.len() - i,
    {
        let q = &incoming_requests[i];
        let age = format_relative_time(q.sent_at);
        let row = incoming_request_row(q, &age);
        assert(is_age(age@, q.sent_at));
        assert(shows_incoming(row, *q, age@));
        rows.push(row);
        i += 1;
    }
    rows
}

/// A row of our own requests.
#[derive(Debug)]
pub struct OutgoingRequestRow {
    pub request_id: String,
    pub to_user_id: String,
    pub to_display_name: String,
    pub to_username: String,
    pub sent_label: String,
    pub note: String,
    pub initial: String,
    pub avatar_color: Rgb,
    pub photo_url: String,
}

/// The row shows this request, sent so long ago.
pub open spec fn shows_outgoing(r: OutgoingRequestRow, q: OutgoingRequest, age: Seq<char>) -> bool {
    &&& r.request_id == q.request_id
    &&& r.to_user_id == q.to_user_id
    &&& r.to_display_name == q.to_display_name
    &&& r.to_username == q.to_username
    &&& r.sent_label@ == "Sent · "@ + age
    &&& r.note == q.note
    &&& r.initial@ == initial_of(q.to_display_name@, "?"@)
    &&& r.avatar_color == rgb_of(q.to_avatar_color@)
    &&& r.photo_url == q.to_avatar_image_url
}

/// The row of a request of ours.
pub fn outgoing_request_row(q: &OutgoingRequest, age: &str) -> (r: OutgoingRequestRow)
    requires
        color_text(q.to_avatar_color@),
    ensures
        shows_outgoing(r, *q, age@),
{
    OutgoingRequestRow {
        request_id: q.request_id.clone(),
        to_user_id: q.to_user_id.clone(),
        to_display_name: q.to_display_name.clone(),
        to_username: q.to_username.clone(),
        sent_label: cat2("Sent · ", age),
        note: q.note.clone(),
        initial: initial(&q.to_display_name),
        avatar_color: hex_color(&q.to_avatar_color),
        photo_url: q.to_avatar_image_url.clone(),
    }
}

/// The row shows this request as things stand at some moment.
pub open spec fn shows_outgoing_now(r: OutgoingRequestRow, q: OutgoingRequest) -> bool {
    exists|age: Seq<char>| is_age(age, q.sent_at) && #[trigger] shows_outgoing(r, q, age)
}

/// The rows of our own requests.
pub fn outgoing_request_rows(outgoing_requests: &[OutgoingRequest]) -> (rows: Vec<OutgoingRequestRow>)
    requires
        forall|i: int|
            0 <= i < outgoing_requests@.len() ==> color_text(
                (#[trigger] outgoing_requests@[i]).to_avatar_color@,
            ),
    ensures
        rows@.len() == outgoing_requests@.len(),
        forall|i: int|
            0 <= i < rows@.len() ==> shows_outgoing_now(#[trigger] rows@[i], outgoing_requests@[i]),
{
    let mut rows: Vec<OutgoingRequestRow> = Vec::new();
    let mut i: usize = 0;
    while i < outgoing_requests.len()
        invariant
            i <= outgoing_requests@.len(),
            rows@.len() == i,
            forall|k: int|
                0 <= k < outgoing_requests@.len() ==> color_text(
                    (#[trigger] outgoing_requests@[k]).to_avatar_color@,
                ),
            forall|k: int|
                0 <= k < i ==> shows_outgoing_now(#[trigger] rows@[k], outgoing_requests@[k]),
        decreases outgoing_requests@.len() - i,
    {
        let q = &outgoing_requests[i];
        let age = format_relative_time(q.sent_at);
        let row = outgoing_request_row(q, &age);
        assert(is_age(age@, q.sent_at));
        assert(shows_outgoing(row, *q, age@));
        rows.push(row);
        i += 1;
    }
    rows
}

// ---------- People ----------

/// A row of the people search.
#[derive(Debug)]
pub struct PeopleHitRow {
    pub user_id: String,
    pub username: String,
    pub display_name: String,
    pub meta: String,
    pub initial: String,
    pub avatar_color: Rgb,
    pub photo_url: String,
    pub online: bool,
    pub relation: String,
    pub incoming_request_id: String,
    pub is_staff: bool,
}

/// The row shows this hit.
pub open spec fn shows_hit(r: PeopleHitRow, h: PeopleHit) -> bool {
    &&& r.user_id == h.user_id
    &&& r.username == h.username
    &&& r.display_name == h.display_name
    &&& r.meta@ == shared_line(h.username@, h.mutual_servers@)
    &&& r.initial@ == initial_of(h.display_name@, "?"@)
    &&& r.avatar_color == rgb_of(h.avatar_color@)
    &&& r.photo_url == h.avatar_image_url
    &&& r.online == (h.presence@ != "offline"@)
    &&& r.relation == h.relation
    &&& r.incoming_request_id == h.incoming_request_id
    &&& r.is_staff == h.is_staff
}

/// The rows of the people search.
pub fn people_hit_rows(people_hits: &[PeopleHit]) -> (rows: Vec<PeopleHitRow>)
    requires
        forall|i: int|
            0 <= i < people_hits@.len() ==> color_text((#[trigger] people_hits@[i]).avatar_color@),
    ensures
        rows@.len() == people_hits@.len(),
        forall|i: int| 0 <= i < rows@.len() ==> shows_hit(#[trigger] rows@[i], people_hits@[i]),
{
    let mut rows: Vec<PeopleHitRow> = Vec::new();
    let mut i: usize = 0;
    while i < people_hits.len()
        invariant
            i <= people_hits@.len(),
            rows@.len() == i,
            forall|k: int|
                0 <= k < people_hits@.len() ==> color_text((#[trigger] people_hits@[k]).avatar_color@),
            forall|k: int| 0 <= k < i ==> shows_hit(#[trigger] rows@[k], people_hits@[k]),
        decreases people_hits@.len() - i,
    {
        let h = &people_hits[i];
        rows.push(
            PeopleHitRow {
                user_id: h.user_id.clone(),
                username: h.username.clone(),
                display_name: h.display_name.clone(),
                meta: to_shared_line(&h.username, &h.mutual_servers),
                initial: initial(&h.display_name),
                avatar_color: hex_color(&h.avatar_color),
                photo_url: h.avatar_image_url.clone(),
                online: !same(&h.presence, "offline"),
                relation: h.relation.clone(),
                incoming_request_id: h.incoming_request_id.clone(),
                is_staff: h.is_staff,
            },
        );
        i += 1;
    }
    rows
}

/// A suggested friend.
#[derive(Debug)]
pub struct SuggestionRow {
    pub user_id: String,
    pub username: String,
    pub display_name: String,
    pub meta: String,
    pub initial: String,
    pub avatar_color: Rgb,
    pub photo_url: String,
    pub online: bool,
}

/// The row shows this suggestion.
pub open spec fn shows_suggestion(r: SuggestionRow, s: FriendSuggestion) -> bool {
    &&& r.user_id == s.user_id
    &&& r.username == s.username
    &&& r.display_name == s.display_name
    &&& r.meta@ == shared_line(s.username@, s.mutual_servers@)
    &&& r.initial@ == initial_of(s.display_name@, "?"@)
    &&& r.avatar_color == rgb_of(s.avatar_color@)
    &&& r.photo_url == s.avatar_image_url
    &&& r.online == (s.presence@ != "offline"@)
}

/// At most this many suggestions are shown.
pub const MAX_SUGGESTIONS: usize = 6;

/// The first suggestions.
pub fn suggestion_rows(suggestions: &[FriendSuggestion]) -> (rows: Vec<SuggestionRow>)
    requires
        forall|i: int|
            0 <= i < suggestions@.len() && i < MAX_SUGGESTIONS ==> color_text(
                (#[trigger] suggestions@[i]).avatar_color@,
            ),
    ensures
        rows@.len() == if suggestions@.len() < MAX_SUGGESTIONS {
            suggestions@.len()
        } else {
            MAX_SUGGESTIONS as nat
        },
        forall|i: int|
            0 <= i < rows@.len() ==> shows_suggestion(#[trigger] rows@[i], suggestions@[i]),
{
    let mut rows: Vec<SuggestionRow> = Vec::new();
    let mut i: usize = 0;
    while i < suggestions.len() && i < MAX_SUGGESTIONS
        invariant
            i <= suggestions@.len(),
            i <= MAX_SUGGESTIONS,
            rows@.len() == i,
            forall|k: int|
                0 <= k < suggestions@.len() && k < MAX_SUGGESTIONS ==> color_text(
                    (#[trigger] suggestions@[k]).avatar_color@,
                ),
            forall|k: int| 0 <= k < i ==> shows_suggestion(#[trigger] rows@[k], suggestions@[k]),
        decreases suggestions@.len() - i,
    {
        let s = &suggestions[i];
        rows.push(
            SuggestionRow {
                user_id: s.user_id.clone(),
                username: s.username.clone(),
                display_name: s.display_name.clone(),
                meta: to_shared_line(&s.username, &s.mutual_servers),
                initial: initial(&s.display_name),
                avatar_color: hex_color(&s.avatar_color),
                photo_url: s.avatar_image_url.clone(),
                online: !same(&s.presence, "offline"),
            },
        );
        i += 1;
    }
    rows
}

/// A blocked user.
#[derive(Debug)]
pub struct BlockedRow {
    pub user_id: String,
    pub display_name: String,
}

/// The rows of the block list.
pub fn blocked_rows(blocked: &[BlockedUser]) -> (rows: Vec<BlockedRow>)
    ensures
        rows@.len() == blocked@.len(),
        forall|i: int|
            0 <= i < rows@.len() ==> (#[trigger] rows@[i]).user_id == blocked@[i].user_id
                && rows@[i].display_name == blocked@[i].display_name,
{
    let mut rows: Vec<BlockedRow> = Vec::new();
    let mut i: usize = 0;
    while i < blocked.len()
        invariant
            i <= blocked@.len(),
            rows@.len() == i,
            forall|k: int|
                0 <= k < i ==> (#[trigger] rows@[k]).user_id == blocked@[k].user_id
                    && rows@[k].display_name == blocked@[k].display_name,
        decreases blocked@.len() - i,
    {
        rows.push(
            BlockedRow {
                user_id: blocked[i].user_id.clone(),
                display_name: blocked[i].display_name.clone(),
            },
        );
        i += 1;
    }
    rows
}

// ---------- Servers ----------

/// A server of the rail.
#[derive(Debug)]
pub struct ServerRow {
    pub server_id: String,
    pub name: String,
    pub initial: String,
    pub icon_url: String,
    pub active: bool,
}

/// The row shows this server.
pub open spec fn shows_server(r: ServerRow, s: ServerSummary, selected: Option<&str>) -> bool {
    &&& r.server_id == s.server_id
    &&& r.name == s.name
    &&& r.initial@ == initial_of(s.name@, "#"@)
    &&& r.icon_url == s.icon_url
    &&& r.active == chosen(selected, s.server_id@)
}

/// The servers of the rail.
pub fn server_rows(servers: &[ServerSummary], selected_id: Option<&str>) -> (rows: Vec<ServerRow>)
    ensures
        rows@.len() == servers@.len(),
        forall|i: int|
            0 <= i < rows@.len() ==> shows_server(#[trigger] rows@[i], servers@[i], selected_id),
{
    let mut rows: Vec<ServerRow> = Vec::new();
    let mut i: usize = 0;
    while i < servers.len()
        invariant
            i <= servers@.len(),
            rows@.len() == i,
            forall|k: int|
                0 <= k < i ==> shows_server(#[trigger] rows@[k], servers@[k], selected_id),
        decreases servers@.len() - i,
    {
        let s = &servers[i];
        rows.push(
            ServerRow {
                server_id: s.server_id.clone(),
                name: s.name.clone(),
                initial: initial_or(&s.name, "#"),
                icon_url: s.icon_url.clone(),
                active: is_chosen(selected_id, &s.server_id),
            },
        );
        i += 1;
    }
    rows
}

/// A channel of the open server.
#[derive(Debug)]
pub struct ChannelRow {
    pub conversation_id: String,
    pub label: String,
    pub is_voice: bool,
    pub active: bool,
    pub is_announcement: bool,
    pub muted: bool,
    pub can_send: bool,
    pub category_id: String,
}

/// A [`ChannelRow`] by what it holds.
pub struct ChannelRowView {
    pub conversation_id: Seq<char>,
    pub label: Seq<char>,
    pub is_voice: bool,
    pub active: bool,
    pub is_announcement: bool,
    pub muted: bool,
    pub can_send: bool,
    pub category_id: Seq<char>,
}

impl View for ChannelRow {
    type V = ChannelRowView;

    open spec fn view(&self) -> ChannelRowView {
        ChannelRowView {
            conversation_id: self.conversation_id@,
            label: self.label@,
            is_voice: self.is_voice,
            active: self.active,
            is_announcement: self.is_announcement,
            muted: self.muted,
            can_send: self.can_send,
            category_id: self.category_id@,
        }
    }
}

/// The label of a channel: a mark for its kind, its name, and a mark for a
/// muted one.
pub open spec fn channel_label(c: ChannelSummary, voice: bool) -> Seq<char> {
    (if voice {
        "v  "@
    } else if c.is_announcement {
        "!  "@
    } else {
        "#  "@
    }) + c.name@ + (if c.muted {
        " 🔇"@
    } else {
        ""@
    })
}

/// The row of a channel.
pub open spec fn channel_view(c: ChannelSummary, active: Option<&str>, voice: bool) -> ChannelRowView {
    ChannelRowView {
        conversation_id: c.conversation_id@,
        label: channel_label(c, voice),
        is_voice: voice,
        active: chosen(active, c.conversation_id@),
        is_announcement: c.is_announcement,
        muted: c.muted,
        can_send: c.can_send,
        category_id: c.category_id@,
    }
}

/// The voice channels, or the others, in their order.
pub open spec fn channels_shown(list: Seq<ChannelSummary>, active: Option<&str>, voice: bool) -> Seq<
    ChannelRowView,
>
    decreases list.len(),
{
    if list.len() == 0 {
        Seq::empty()
    } else {
        let before = channels_shown(list.drop_last(), active, voice);
        if (list.last().channel_type@ == "voice"@) == voice {
            before.push(channel_view(list.last(), active, voice))
        } else {
            before
        }
    }
}

/// Channel rows by what they hold.
pub open spec fn channel_views(rows: Seq<ChannelRow>) -> Seq<ChannelRowView> {
    Seq::new(rows.len(), |i: int| rows[i]@)
}

/// [`channels_shown`], computed.
pub fn channel_rows(channels: &[ChannelSummary], active_id: Option<&str>, voice: bool) -> (rows: Vec<
    ChannelRow,
>)
    ensures
        channel_views(rows@) == channels_shown(channels@, active_id, voice),
{
    let mut rows: Vec<ChannelRow> = Vec::new();
    let mut i: usize = 0;
    assert(channel_views(rows@) =~= channels_shown(channels@.take(0), active_id, voice));
    while i < channels.len()
        invariant
            i <= channels@.len(),
            channel_views(rows@) == channels_shown(channels@.take(i as int), active_id, voice),
        decreases channels@.len() - i,
    {
        assert(channels@.take(i + 1).drop_last() =~= channels@.take(i as int));
        assert(channels@.take(i + 1).last() == channels@[i as int]);
        let c = &channels[i];
        if same(&c.channel_type, "voice") == voice {
            let prefix = if voice {
                "v  "
            } else if c.is_announcement {
                "!  "
            } else {
                "#  "
            };
            let mark = if c.muted {
                " 🔇"
            } else {
                ""
            };
            let row = ChannelRow {
                conversation_id: c.conversation_id.clone(),
                label: cat3(prefix, &c.name, mark),
                is_voice: voice,
                active: is_chosen(active_id, &c.conversation_id),
                is_announcement: c.is_announcement,
                muted: c.muted,
                can_send: c.can_send,
                category_id: c.category_id.clone(),
            };
            let ghost before = channel_views(rows@);
            rows.push(row);
            assert(channel_views(rows@) =~= before.push(channel_view(*c, active_id, voice)));
        }
        i += 1;
    }
    assert(channels@.take(channels@.len() as int) =~= channels@);
    rows
}

/// A role of a member.
#[derive(Debug)]
pub struct RoleTagRow {
    pub name: String,
    pub color: Rgb,
}

/// A member of the open server.
#[derive(Debug)]
pub struct MemberRow {
    pub user_id: String,
    pub display_name: String,
    pub initial: String,
    pub avatar_color: Rgb,
    pub photo_url: String,
    pub online: bool,
    pub is_bot: bool,
    pub is_plus: bool,
    pub badge: Badge,
    pub roles: Vec<RoleTagRow>,
}

/// The badge of a member: owner, staff, or bot.
pub open spec fn member_badge(m: ServerMemberRow) -> BadgeView {
    let base = if m.is_owner {
        BadgeView {
            text: "OWNER"@,
            bg: Rgb { r: 209, g: 188, b: 77 },
            fg: Rgb { r: 13, g: 13, b: 5 },
        }
    } else {
        platform_badge(m.platform_role@)
    };
    if m.is_bot && base.text.len() == 0 {
        BadgeView {
            text: "*bot"@,
            bg: Rgb { r: 77, g: 184, b: 132 },
            fg: Rgb { r: 5, g: 13, b: 5 },
        }
    } else {
        base
    }
}

/// The colors of a member can be read.
pub open spec fn member_colors(m: ServerMemberRow) -> bool {
    &&& color_text(m.avatar_color@)
    &&& forall|i: int| 0 <= i < m.roles@.len() ==> color_text((#[trigger] m.roles@[i]).color@)
}

/// The row shows this member, who is online or not.
pub open spec fn shows_member(r: MemberRow, m: ServerMemberRow, online: bool) -> bool {
    &&& r.user_id == m.user_id
    &&& r.display_name == m.display_name
    &&& r.initial@ == initial_of(m.display_name@, "?"@)
    &&& r.avatar_color == rgb_of(m.avatar_color@)
    &&& r.photo_url == m.avatar_image_url
    &&& r.online == online
    &&& r.is_bot == m.is_bot
    &&& r.is_plus == m.plus_active
    &&& r.badge@ == member_badge(m)
    &&& r.roles@.len() == m.roles@.len()
    &&& forall|i: int|
        0 <= i < r.roles@.len() ==> (#[trigger] r.roles@[i]).name == m.roles@[i].name
            && r.roles@[i].color == rgb_of(m.roles@[i].color@)
}

fn role_tags(roles: &Vec<MemberRoleTag>) -> (rows: Vec<RoleTagRow>)
    requires
        forall|i: int| 0 <= i < roles@.len() ==> color_text((#[trigger] roles@[i]).color@),
    ensures
        rows@.len() == roles@.len(),
        forall|i: int|
            0 <= i < rows@.len() ==> (#[trigger] rows@[i]).name == roles@[i].name && rows@[i].color
                == rgb_of(roles@[i].color@),
{
    let mut rows: Vec<RoleTagRow> = Vec::new();
    let mut i: usize = 0;
    while i < roles.len()
        invariant
            i <= roles@.len(),
            rows@.len() == i,
            forall|k: int| 0 <= k < roles@.len() ==> color_text((#[trigger] roles@[k]).color@),
            forall|k: int|
                0 <= k < i ==> (#[trigger] rows@[k]).name == roles@[k].name && rows@[k].color
                    == rgb_of(roles@[k].color@),
        decreases roles@.len() - i,
    {
        rows.push(
            RoleTagRow { name: roles[i].name.clone(), color: hex_color(&roles[i].color) },
        );
        i += 1;
    }
    rows
}

/// The row of a member.
pub fn member_row(m: &ServerMemberRow, online: bool) -> (r: MemberRow)
    requires
        member_colors(*m),
    ensures
        shows_member(r, *m, online),
{
    let base = if m.is_owner {
        Badge {
            text: "OWNER",
            bg: Rgb { r: 209, g: 188, b: 77 },
            fg: Rgb { r: 13, g: 13, b: 5 },
        }
    } else {
        badge_for_platform_role(&m.platform_role)
    };
    let badge = if m.is_bot && base.text.is_empty() {
        Badge {
            text: "*bot",
            bg: Rgb { r: 77, g: 184, b: 132 },
            fg: Rgb { r: 5, g: 13, b: 5 },
        }
    } else {
        base
    };
    MemberRow {
        user_id: m.user_id.clone(),
        display_name: m.display_name.clone(),
        initial: initial(&m.display_name),
        avatar_color: hex_color(&m.avatar_color),
        photo_url: m.avatar_image_url.clone(),
        online,
        is_bot: m.is_bot,
        is_plus: m.plus_active,
        badge,
        roles: role_tags(&m.roles),
    }
}

/// The row shows this member as things stand at some moment.
pub open spec fn shows_member_now(r: MemberRow, m: ServerMemberRow) -> bool {
    exists|now: int|
        0 <= now && #[trigger] shows_member(r, m, seen_recently(m.last_seen_at as int, now))
}

/// The rows of the members list.
pub fn member_rows(members: &[ServerMemberRow]) -> (rows: Vec<MemberRow>)
    requires
        forall|i: int| 0 <= i < members@.len() ==> member_colors(#[trigger] members@[i]),
    ensures
        rows@.len() == members@.len(),
        forall|i: int|
            0 <= i < rows@.len() ==> shows_member_now(#[trigger] rows@[i], members@[i]),
{
    let mut rows: Vec<MemberRow> = Vec::new();
    let mut i: usize = 0;
    while i < members.len()
        invariant
            i <= members@.len(),
            rows@.len() == i,
            forall|k: int| 0 <= k < members@.len() ==> member_colors(#[trigger] members@[k]),
            forall|k: int| 0 <= k < i ==> shows_member_now(#[trigger] rows@[k], members@[k]),
        decreases members@.len() - i,
    {
        let m = &members[i];
        let online = is_online(m.last_seen_at);
        let row = member_row(m, online);
        proof {
            let now = choose|now: int|
                0 <= now && online == seen_recently(m.last_seen_at as int, now);
            assert(shows_member(row, *m, seen_recently(m.last_seen_at as int, now)));
        }
        rows.push(row);
        i += 1;
    }
    rows
}

// ---------- Pins and reports ----------

/// A pinned message.
#[derive(Debug)]
pub struct PinnedMessageRow {
    pub id: String,
    pub author_name: String,
    pub author_avatar_color: Rgb,
    pub meta: String,
    pub body: String,
}

/// The row shows this message, sent at that time.
pub open spec fn shows_pinned(r: PinnedMessageRow, m: ChatMessage, time: Seq<char>) -> bool {
    &&& r.id == m.id
    &&& r.author_name == m.author_name
    &&& r.author_avatar_color == rgb_of(m.author_avatar_color@)
    &&& r.meta@ == time
    &&& r.body@ == if m.body@.len() == 0 && m.attachment_url@.len() > 0 {
        "[image]"@
    } else {
        m.body@
    }
}

/// The row of a pinned message.
pub fn pinned_row(m: &ChatMessage, time: String) -> (r: PinnedMessageRow)
    requires
        color_text(m.author_avatar_color@),
    ensures
        shows_pinned(r, *m, time@),
{
    PinnedMessageRow {
        id: m.id.clone(),
        author_name: m.author_name.clone(),
        author_avatar_color: hex_color(&m.author_avatar_color),
        meta: time,
        body: if m.body.as_str().is_empty() && !m.attachment_url.as_str().is_empty() {
            owned("[image]")
        } else {
            m.body.clone()
        },
    }
}

/// The row shows this message as some machine writes its time.
pub open spec fn shows_pinned_here(r: PinnedMessageRow, m: ChatMessage) -> bool {
    exists|time: Seq<char>| is_time(time, m.sent_at) && #[trigger] shows_pinned(r, m, time)
}

/// The rows of the pinned messages.
pub fn pinned_rows(pinned: &[ChatMessage]) -> (rows: Vec<PinnedMessageRow>)
    requires
        forall|i: int|
            0 <= i < pinned@.len() ==> color_text((#[trigger] pinned@[i]).author_avatar_color@),
    ensures
        rows@.len() == pinned@.len(),
        forall|i: int| 0 <= i < rows@.len() ==> shows_pinned_here(#[trigger] rows@[i], pinned@[i]),
{
    let mut rows: Vec<PinnedMessageRow> = Vec::new();
    let mut i: usize = 0;
    while i < pinned.len()
        invariant
            i <= pinned@.len(),
            rows@.len() == i,
            forall|k: int|
                0 <= k < pinned@.len() ==> color_text((#[trigger] pinned@[k]).author_avatar_color@),
            forall|k: int| 0 <= k < i ==> shows_pinned_here(#[trigger] rows@[k], pinned@[k]),
        decreases pinned@.len() - i,
    {
        let m = &pinned[i];
        let time = format_time(m.sent_at);
        let ghost label = time@;
        let row = pinned_row(m, time);
        assert(is_time(label, m.sent_at));
        assert(shows_pinned(row, *m, label));
        rows.push(row);
        i += 1;
    }
    rows
}

/// A reported message.
#[derive(Debug)]
pub struct ReportRow {
    pub report_id: String,
    pub conversation_label: String,
    pub reporter_username: String,
    pub author_username: String,
    pub message_body: String,
    pub reason: &'static str,
    pub age_label: String,
}

/// The label of a report's reason.
pub open spec fn reason_text(reason: Seq<char>) -> Seq<char> {
    if reason == "spam"@ {
        "Spam"@
    } else if reason == "harassment"@ {
        "Harassment"@
    } else if reason == "illegal_content"@ {
        "Illegal content"@
    } else {
        "Other"@
    }
}

fn reason_label(reason: &str) -> (r: &'static str)
    ensures
        r@ == reason_text(reason@),
{
    if same(reason, "spam") {
        "Spam"
    } else if same(reason, "harassment") {
        "Harassment"
    } else if same(reason, "illegal_content") {
        "Illegal content"
    } else {
        "Other"
    }
}

/// The row shows this report, made so long ago.
pub open spec fn shows_report(r: ReportRow, p: MessageReport, age: Seq<char>) -> bool {
    &&& r.report_id == p.report_id
    &&& r.conversation_label == p.conversation_label
    &&& r.reporter_username@ == "@"@ + p.reporter_username@
    &&& r.author_username@ == "@"@ + p.author_username@
    &&& r.message_body == p.message_body
    &&& r.reason@ == reason_text(p.reason@)
    &&& r.age_label@ == age
}

/// The row of a report.
pub fn report_row(p: &MessageReport, age: String) -> (r: ReportRow)
    ensures
        shows_report(r, *p, age@),
{
    ReportRow {
        report_id: p.report_id.clone(),
        conversation_label: p.conversation_label.clone(),
        reporter_username: cat2("@", &p.reporter_username),
        author_username: cat2("@", &p.author_username),
        message_body: p.message_body.clone(),
        reason: reason_label(&p.reason),
        age_label: age,
    }
}

/// The row shows this report as things stand at some moment.
pub open spec fn shows_report_now(r: ReportRow, p: MessageReport) -> bool {
    exists|age: Seq<char>| is_age(age, p.created_at) && #[trigger] shows_report(r, p, age)
}

/// The rows of the reports.
pub fn report_rows(reports: &[MessageReport]) -> (rows: Vec<ReportRow>)
    ensures
        rows@.len() == reports@.len(),
        forall|i: int| 0 <= i < rows@.len() ==> shows_report_now(#[trigger] rows@[i], reports@[i]),
{
    let mut rows: Vec<ReportRow> = Vec::new();
    let mut i: usize = 0;
    while i < reports.len()
        invariant
            i <= reports@.len(),
            rows@.len() == i,
            forall|k: int| 0 <= k < i ==> shows_report_now(#[trigger] rows@[k], reports@[k]),
        decreases reports@.len() - i,
    {
        let p = &reports[i];
        let age = format_relative_time(p.created_at);
        let ghost label = age@;
        let row = report_row(p, age);
        assert(is_age(label, p.created_at));
        assert(shows_report(row, *p, label));
        rows.push(row);
        i += 1;
    }
    rows
}

} // verus!
