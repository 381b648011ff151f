//! Friends, requests, blocks and presence.

use crate::state::app::{
    fetches, mutation, plain_jobs, query, toasts, App, Now, Peers, Social,
};
use crate::state::effect::{
    arg, both, nothing, two, views, Arg, ArgView, CallKind, Effect, EffectView,
    Reply,
};
use crate::state::keyed::{find, position};
use crate::state::lifecycle::shutdown;
use crate::state::message::SocialMessage;
use crate::state::peers::{direct_with, find_direct};
use crate::state::types::{
    Friend, FriendSuggestion, IncomingRequest, OutgoingRequest, PeopleHit,
    ServerMemberRow, ServerSummary, Session,
};
use crate::strmap::texts;
use crate::text::{
    ascii_lower_text, cat3, cat4, cat5, char_count, decimal, digits, lowercase, owned, same,
    same_ignoring_ascii_case, strip_start, stripped_start, text_is, trim, trimmed, Strip,
};
use crate::ui::utils::{next_friend_request_privacy, next_presence_status, presence_after, privacy_after};
use vstd::prelude::*;

verus! {

// ---------- Pictures of rows ----------

/// A row with a picture.
pub trait Pictured: Sized {
    /// The picture's URL.
    spec fn picture(&self) -> Seq<char>;

    /// [`Pictured::picture`], computed.
    fn picture_url(&self) -> (r: String)
        ensures
            r@ == self.picture(),
    ;
}

impl Pictured for Friend {
    open spec fn picture(&self) -> Seq<char> {
        self.avatar_image_url@
    }

    fn picture_url(&self) -> (r: String) {
        self.avatar_image_url.clone()
    }
}

impl Pictured for FriendSuggestion {
    open spec fn picture(&self) -> Seq<char> {
        self.avatar_image_url@
    }

    fn picture_url(&self) -> (r: String) {
        self.avatar_image_url.clone()
    }
}

impl Pictured for PeopleHit {
    open spec fn picture(&self) -> Seq<char> {
        self.avatar_image_url@
    }

    fn picture_url(&self) -> (r: String) {
        self.avatar_image_url.clone()
    }
}

impl Pictured for IncomingRequest {
    open spec fn picture(&self) -> Seq<char> {
        self.from_avatar_image_url@
    }

    fn picture_url(&self) -> (r: String) {
        self.from_avatar_image_url.clone()
    }
}

impl Pictured for OutgoingRequest {
    open spec fn picture(&self) -> Seq<char> {
        self.to_avatar_image_url@
    }

    fn picture_url(&self) -> (r: String) {
        self.to_avatar_image_url.clone()
    }
}

impl Pictured for ServerSummary {
    open spec fn picture(&self) -> Seq<char> {
        self.icon_url@
    }

    fn picture_url(&self) -> (r: String) {
        self.icon_url.clone()
    }
}

impl Pictured for ServerMemberRow {
    open spec fn picture(&self) -> Seq<char> {
        self.avatar_image_url@
    }

    fn picture_url(&self) -> (r: String) {
        self.avatar_image_url.clone()
    }
}

/// The pictures of rows.
pub open spec fn pictures<T: Pictured>(list: Seq<T>) -> Seq<Seq<char>> {
    Seq::new(list.len(), |i: int| list[i].picture())
}

/// The fetches of the rows' pictures that are not there yet.
pub open spec fn fetch_pictures<T: Pictured>(app: App, list: Seq<T>) -> Seq<EffectView> {
    fetches(app.images@, plain_jobs(pictures(list)))
}

impl App {
    /// [`fetch_pictures`], computed.
    pub fn fetch_row_pictures<T: Pictured>(&self, list: &Vec<T>) -> (fx: Vec<Effect>)
        ensures
            views(fx@) == fetch_pictures(*self, list@),
    {
        let mut urls: Vec<String> = Vec::new();
        let mut i: usize = 0;
        while i < list.len()
            invariant
                i <= list@.len(),
                urls@.len() == i,
                forall|k: int| 0 <= k < i ==> (#[trigger] urls@[k])@ == list@[k].picture(),
            decreases list@.len() - i,
        {
            urls.push(list[i].picture_url());
            i += 1;
        }
        assert(texts(urls@) =~= pictures(list@));
        self.fetch_missing_avatars(urls)
    }
}

// ---------- A fresh friends list ----------

/// A friend with this id counts as online.
pub open spec fn online_id(friends: Seq<Friend>, now: Now, id: Seq<char>) -> bool {
    exists|i: int|
        0 <= i < friends.len() && (#[trigger] friends[i]).user_id@ == id && friends[i].online_like(
            now.unix_ms as int,
        )
}

fn is_online_id(friends: &Vec<Friend>, now: Now, id: &str) -> (r: bool)
    ensures
        r == online_id(friends@, now, id@),
{
    let mut i: usize = 0;
    while i < friends.len()
        invariant
            i <= friends@.len(),
            forall|j: int|
                0 <= j < i ==> !((#[trigger] friends@[j]).user_id@ == id@ && friends@[j].online_like(
                    now.unix_ms as int,
                )),
        decreases friends@.len() - i,
    {
        if same(&friends[i].user_id, id) && friends[i].is_online_like_at(now.unix_ms) {
            return true;
        }
        i += 1;
    }
    false
}

/// A DM is asked for with every online friend that has none yet.
pub open spec fn missing_directs(app: App, friends: Seq<Friend>, now: Now) -> Seq<EffectView>
    decreases friends.len(),
{
    if friends.len() == 0 {
        Seq::empty()
    } else {
        let before = missing_directs(app, friends.drop_last(), now);
        let f = friends.last();
        if f.online_like(now.unix_ms as int) && direct_with(app.inbox.conversations@, f.user_id@)
            is None {
            before + mutation(
                app,
                "conversations:getOrCreateDirect"@,
                seq![("friendUserId"@, ArgView::Str(f.user_id@))],
                Reply::DirectConversationEnsured,
            )
        } else {
            before
        }
    }
}

/// A map without some keys.
pub open spec fn kept<V>(m: Map<Seq<char>, V>, gone: Set<Seq<char>>) -> Map<Seq<char>, V> {
    Map::new(|k: Seq<char>| m.contains_key(k) && !gone.contains(k), |k: Seq<char>| m[k])
}

/// Everything about these friends' channels is forgotten, and nothing else.
pub open spec fn peers_kept(pre: Peers, gone: Set<Seq<char>>, post: Peers) -> bool {
    &&& post.public_key == pre.public_key
    &&& post.vault_key == pre.vault_key
    &&& post.photo_seq == pre.photo_seq
    &&& post.channels@ == kept(pre.channels@, gone)
    &&& post.connected@ == kept(pre.connected@, gone)
    &&& post.status@ == kept(pre.status@, gone)
    &&& post.sas@ == kept(pre.sas@, gone)
    &&& post.transport@ == kept(pre.transport@, gone)
    &&& post.remote_fp@ == kept(pre.remote_fp@, gone)
    &&& post.live@ == kept(pre.live@, gone)
    &&& post.pending_invite@ == kept(pre.pending_invite@, gone)
    &&& post.pending_published@ == kept(pre.pending_published@, gone)
}

/// The friends with a live channel, or a trace of one, that are not online.
pub open spec fn stale_peers(peers: Peers, friends: Seq<Friend>, now: Now) -> Set<Seq<char>> {
    Set::new(
        |k: Seq<char>|
            {
                &&& peers.channels@.contains_key(k) || peers.status@.contains_key(k)
                    || peers.connected@.contains_key(k)
                &&& !online_id(friends, now, k)
            },
    )
}

/// The channels among `order` that are ended.
pub open spec fn ended(order: Seq<Seq<char>>, gone: Set<Seq<char>>) -> Seq<EffectView>
    decreases order.len(),
{
    if order.len() == 0 {
        Seq::empty()
    } else {
        let before = ended(order.drop_last(), gone);
        if gone.contains(order.last()) {
            before.push(shutdown(order.last()))
        } else {
            before
        }
    }
}

proof fn lemma_kept_remove<V>(m: Map<Seq<char>, V>, gone: Set<Seq<char>>, k: Seq<char>)
    ensures
        kept(m, gone).remove(k) == kept(m, gone.insert(k)),
{
    assert(kept(m, gone).remove(k) =~= kept(m, gone.insert(k)));
}

proof fn lemma_kept_none<V>(m: Map<Seq<char>, V>)
    ensures
        kept(m, Set::empty()) == m,
{
    assert(kept(m, Set::empty()) =~= m);
}

/// The keys of the three maps by which a friend's channel is known.
pub open spec fn known(peers: Peers) -> Seq<Seq<char>> {
    peers.channels.order() + peers.status.order() + peers.connected.order()
}

proof fn lemma_known_ids(peers: Peers)
    ensures
        forall|k: Seq<char>|
            #[trigger] known(peers).contains(k) <==> (peers.channels@.contains_key(k)
                || peers.status@.contains_key(k) || peers.connected@.contains_key(k)),
{
    peers.channels.order_lists_keys();
    peers.status.order_lists_keys();
    peers.connected.order_lists_keys();
    let a = peers.channels.order();
    let b = peers.status.order();
    let c = peers.connected.order();
    let all = known(peers);
    assert forall|k: Seq<char>| #[trigger] all.contains(k) <==> (peers.channels@.contains_key(k)
        || peers.status@.contains_key(k) || peers.connected@.contains_key(k)) by {
        if all.contains(k) {
            let j = choose|j: int| 0 <= j < all.len() && all[j] == k;
            if j < a.len() {
                assert(a[j] == k);
                assert(a.contains(k));
            } else if j < a.len() + b.len() {
                assert(b[j - a.len()] == k);
                assert(b.contains(k));
            } else {
                assert(c[j - a.len() - b.len()] == k);
                assert(c.contains(k));
            }
        }
        if peers.channels@.contains_key(k) {
            assert(a.contains(k));
            let j = choose|j: int| 0 <= j < a.len() && a[j] == k;
            assert(all[j] == k);
        }
        if peers.status@.contains_key(k) {
            assert(b.contains(k));
            let j = choose|j: int| 0 <= j < b.len() && b[j] == k;
            assert(all[a.len() + j] == k);
        }
        if peers.connected@.contains_key(k) {
            assert(c.contains(k));
            let j = choose|j: int| 0 <= j < c.len() && c[j] == k;
            assert(all[a.len() + b.len() + j] == k);
        }
    }
}

/// The offline members of a list.
pub open spec fn offline_of(ids: Seq<Seq<char>>, friends: Seq<Friend>, now: Now) -> Set<Seq<char>> {
    Set::new(|k: Seq<char>| ids.contains(k) && !online_id(friends, now, k))
}

impl Peers {
    fn known_ids(&self) -> (r: Vec<String>)
        ensures
            texts(r@) == known(*self),
    {
        let mut r = self.channels.keys();
        let mut b = self.status.keys();
        let mut c = self.connected.keys();
        r.append(&mut b);
        r.append(&mut c);
        assert(texts(r@) =~= known(*self));
        r
    }

    /// Ends the channels of friends who went offline.
    fn reap(&mut self, friends: &Vec<Friend>, now: Now) -> (fx: Vec<Effect>)
        ensures
            peers_kept(*old(self), stale_peers(*old(self), friends@, now), *final(self)),
            views(fx@) == ended(
                old(self).channels.order(),
                stale_peers(*old(self), friends@, now),
            ),
    {
        let ghost start = *self;
        let ghost order = self.channels.order();
        let ghost n = order.len();
        let ids = self.known_ids();
        let ghost all = texts(ids@);
        let ghost fr = friends@;
        proof {
            start.channels.order_lists_keys();
            lemma_known_ids(start);
            assert(offline_of(all.take(0), fr, now) =~= Set::empty());
            lemma_kept_none(start.channels@);
            lemma_kept_none(start.connected@);
            lemma_kept_none(start.status@);
            lemma_kept_none(start.sas@);
            lemma_kept_none(start.transport@);
            lemma_kept_none(start.remote_fp@);
            lemma_kept_none(start.live@);
            lemma_kept_none(start.pending_invite@);
            lemma_kept_none(start.pending_published@);
            assert(order.take(0) =~= Seq::<Seq<char>>::empty());
        }
        let ghost stale = stale_peers(start, fr, now);
        let mut fx = nothing();
        let mut i: usize = 0;
        while i < ids.len()
            invariant
                i <= ids@.len(),
                all == texts(ids@),
                fr == friends@,
                n == order.len(),
                n <= all.len(),
                order.no_duplicates(),
                order == all.take(n as int),
                stale == stale_peers(start, fr, now),
                forall|k: Seq<char>|
                    #[trigger] order.contains(k) <==> start.channels@.contains_key(k),
                forall|k: Seq<char>|
                    #[trigger] all.contains(k) ==> (stale.contains(k) <==> !online_id(fr, now, k)),
                peers_kept(start, offline_of(all.take(i as int), fr, now), *self),
                views(fx@) == ended(
                    if i < n {
                        order.take(i as int)
                    } else {
                        order
                    },
                    stale,
                ),
            decreases ids@.len() - i,
        {
            let ghost k = all[i as int];
            let ghost gone = offline_of(all.take(i as int), fr, now);
            let ghost next = offline_of(all.take(i + 1), fr, now);
            assert(k == ids@[i as int]@);
            assert(all.contains(k));
            proof {
                let head = all.take(i as int);
                let more = all.take(i + 1);
                assert(more =~= head.push(k));
                assert forall|x: Seq<char>| next.contains(x) <==> (if online_id(fr, now, k) {
                    gone
                } else {
                    gone.insert(k)
                }).contains(x) by {
                    if head.contains(x) {
                        let j = choose|j: int| 0 <= j < head.len() && head[j] == x;
                        assert(more[j] == x);
                    }
                    if more.contains(x) && x != k {
                        let j = choose|j: int| 0 <= j < more.len() && more[j] == x;
                        assert(head[j] == x);
                    }
                    assert(more[i as int] == k);
                }
                assert(next =~= if online_id(fr, now, k) {
                    gone
                } else {
                    gone.insert(k)
                });
                if i < n {
                    assert(order[i as int] == k);
                    assert(order.take(i + 1).drop_last() =~= order.take(i as int));
                    assert(order.take(i + 1).last() == k);
                    if i + 1 == n {
                        assert(order.take(i + 1) =~= order);
                    }
                    assert(!all.take(i as int).contains(k)) by {
                        if head.contains(k) {
                            let j = choose|j: int| 0 <= j < head.len() && head[j] == k;
                            assert(order[j] == k);
                        }
                    }
                    assert(order.contains(k));
                } else if start.channels@.contains_key(k) {
                    assert(order.contains(k));
                    let j = choose|j: int| 0 <= j < n && order[j] == k;
                    assert(head[j] == k);
                    assert(head.contains(k));
                }
            }
            if !is_online_id(friends, now, &ids[i]) {
                let ghost before = *self;
                let one_fx = self.stop_peer_session_for(&ids[i]);
                proof {
                    lemma_kept_remove(start.channels@, gone, k);
                    lemma_kept_remove(start.connected@, gone, k);
                    lemma_kept_remove(start.status@, gone, k);
                    lemma_kept_remove(start.sas@, gone, k);
                    lemma_kept_remove(start.transport@, gone, k);
                    lemma_kept_remove(start.remote_fp@, gone, k);
                    lemma_kept_remove(start.live@, gone, k);
                    lemma_kept_remove(start.pending_invite@, gone, k);
                    lemma_kept_remove(start.pending_published@, gone, k);
                    assert(i < n ==> before.channels@.contains_key(k));
                    assert(i >= n ==> !before.channels@.contains_key(k));
                    assert(stale.contains(k));
                }
                let ghost fx0 = views(fx@);
                let ghost fx1 = views(one_fx@);
                fx = both(fx, one_fx);
                proof {
                    if i < n {
                        assert(fx0 + fx1 =~= fx0.push(shutdown(k)));
                    } else {
                        assert(fx0 + fx1 =~= fx0);
                    }
                }
            }
            i += 1;
        }
        proof {
            assert(all.take(all.len() as int) =~= all);
            assert(offline_of(all, fr, now) =~= stale);
            assert(order.take(n as int) =~= order);
        }
        fx
    }
}

/// A fresh friends list: DMs are asked for, and the channels of friends who
/// went offline end.
pub open spec fn friends_updated(
    pre: App,
    friends: Vec<Friend>,
    now: Now,
    post: App,
    fx: Seq<EffectView>,
) -> bool {
    let stale = stale_peers(pre.peers, friends@, now);
    &&& post == (App { social: Social { friends, ..pre.social }, peers: post.peers, ..pre })
    &&& peers_kept(pre.peers, stale, post.peers)
    &&& fx == fetch_pictures(pre, friends@) + missing_directs(pre, friends@, now) + ended(
        pre.peers.channels.order(),
        stale,
    )
}

impl App {
    fn ask_missing_directs(&self, friends: &Vec<Friend>, now: Now) -> (fx: Vec<Effect>)
        ensures
            views(fx@) == missing_directs(*self, friends@, now),
    {
        let mut fx = nothing();
        let mut i: usize = 0;
        assert(friends@.take(0) =~= Seq::<Friend>::empty());
        while i < friends.len()
            invariant
                i <= friends@.len(),
                views(fx@) == missing_directs(*self, friends@.take(i as int), now),
            decreases friends@.len() - i,
        {
            let f = &friends[i];
            assert(friends@.take(i + 1).drop_last() =~= friends@.take(i as int));
            assert(friends@.take(i + 1).last() == friends@[i as int]);
            if f.is_online_like_at(now.unix_ms) && find_direct(
                &self.inbox.conversations,
                &f.user_id,
            ).is_none() {
                let more = self.ask1(
                    CallKind::Mutation,
                    "conversations:getOrCreateDirect",
                    "friendUserId",
                    arg(&f.user_id),
                    Reply::DirectConversationEnsured,
                );
                fx = both(fx, more);
            }
            i += 1;
        }
        assert(friends@.take(friends@.len() as int) =~= friends@);
        fx
    }

    fn set_friends(&mut self, friends: Vec<Friend>, now: Now) -> (fx: Vec<Effect>)
        ensures
            friends_updated(*old(self), friends, now, *final(self), views(fx@)),
    {
        let fetch = self.fetch_row_pictures(&friends);
        let directs = self.ask_missing_directs(&friends, now);
        let reaped = self.peers.reap(&friends, now);
        self.social.friends = friends;
        both(both(fetch, directs), reaped)
    }
}

// ---------- Incoming requests ----------

/// The first request that was not there before.
pub open spec fn first_new(old: Seq<IncomingRequest>, new: Seq<IncomingRequest>) -> Option<
    IncomingRequest,
>
    decreases new.len(),
{
    if new.len() == 0 {
        None
    } else {
        match first_new(old, new.drop_last()) {
            Some(r) => Some(r),
            None => if position(old, new.last().request_id@) is None {
                Some(new.last())
            } else {
                None
            },
        }
    }
}

/// How a request is announced.
pub open spec fn request_text(r: IncomingRequest) -> Seq<char> {
    if r.note@.len() == 0 {
        r.from_display_name@ + " (@"@ + r.from_username@ + ") wants to add you as a friend"@
    } else {
        r.from_display_name@ + " (@"@ + r.from_username@ + "): "@ + r.note@
    }
}

/// The announcement of a new request, where the list grew.
pub open spec fn announce_request(pre: Social, new: Seq<IncomingRequest>) -> Seq<EffectView> {
    if pre.requests_loaded && new.len() > pre.incoming_requests@.len() {
        match first_new(pre.incoming_requests@, new) {
            Some(r) => seq![
                EffectView::NotifyPing,
                EffectView::Notify { title: "Friend request"@, body: request_text(r) },
            ],
            None => Seq::empty(),
        }
    } else {
        Seq::empty()
    }
}

proof fn lemma_first_new_stays(old: Seq<IncomingRequest>, new: Seq<IncomingRequest>, n: int)
    requires
        0 <= n <= new.len(),
        first_new(old, new.take(n)) is Some,
    ensures
        first_new(old, new) == first_new(old, new.take(n)),
    decreases new.len() - n,
{
    if n < new.len() {
        assert(new.take(n + 1).drop_last() =~= new.take(n));
        lemma_first_new_stays(old, new, n + 1);
    } else {
        assert(new.take(n) =~= new);
    }
}

fn request_line(r: &IncomingRequest) -> (s: String)
    ensures
        s@ == request_text(*r),
{
    if r.note.as_str().is_empty() {
        cat4(&r.from_display_name, " (@", &r.from_username, ") wants to add you as a friend")
    } else {
        cat5(&r.from_display_name, " (@", &r.from_username, "): ", &r.note)
    }
}

impl Social {
    fn announce_new_request(&self, new: &Vec<IncomingRequest>) -> (fx: Vec<Effect>)
        ensures
            views(fx@) == announce_request(*self, new@),
    {
        if !(self.requests_loaded && new.len() > self.incoming_requests.len()) {
            return nothing();
        }
        let ghost old_list = self.incoming_requests@;
        let mut i: usize = 0;
        assert(new@.take(0) =~= Seq::<IncomingRequest>::empty());
        while i < new.len()
            invariant
                i <= new@.len(),
                old_list == self.incoming_requests@,
                self.requests_loaded && new@.len() > old_list.len(),
                first_new(old_list, new@.take(i as int)) is None,
            decreases new@.len() - i,
        {
            assert(new@.take(i + 1).drop_last() =~= new@.take(i as int));
            assert(new@.take(i + 1).last() == new@[i as int]);
            if find(&self.incoming_requests, &new[i].request_id).is_none() {
                proof {
                    lemma_first_new_stays(old_list, new@, i + 1);
                }
                return two(
                    Effect::NotifyPing,
                    Effect::Notify { title: owned("Friend request"), body: request_line(&new[i]) },
                );
            }
            i += 1;
        }
        assert(new@.take(new@.len() as int) =~= new@);
        nothing()
    }
}

// ---------- Sending requests ----------

/// What is searched for or asked: the input without an `@` in front.
pub open spec fn wanted_name(input: Seq<char>) -> Seq<char> {
    stripped_start(trimmed(input), Strip::Only('@'))
}

/// A friend has this username, up to the case of ASCII letters.
pub open spec fn befriended(friends: Seq<Friend>, username: Seq<char>) -> bool {
    exists|i: int|
        0 <= i < friends.len() && ascii_lower_text((#[trigger] friends[i]).username@)
            == ascii_lower_text(username)
}

fn is_befriended(friends: &Vec<Friend>, username: &str) -> (r: bool)
    ensures
        r == befriended(friends@, username@),
{
    let mut i: usize = 0;
    while i < friends.len()
        invariant
            i <= friends@.len(),
            forall|j: int|
                0 <= j < i ==> ascii_lower_text((#[trigger] friends@[j]).username@)
                    != ascii_lower_text(username@),
        decreases friends@.len() - i,
    {
        if same_ignoring_ascii_case(&friends[i].username, username) {
            return true;
        }
        i += 1;
    }
    false
}

/// Why a request to `username` is not sent, if it is not.
pub open spec fn request_refusal(app: App, username: Seq<char>) -> Option<Seq<char>> {
    if username.len() == 0 {
        Some("Enter a username"@)
    } else if befriended(app.social.friends@, username) {
        Some("You're already friends"@)
    } else if app.session is Some && ascii_lower_text(app.session->0.username@)
        == ascii_lower_text(username) {
        Some("You can't add yourself"@)
    } else {
        None
    }
}

/// What the "send request" button does.
pub open spec fn send_request_step(pre: App, post: App, fx: Seq<EffectView>) -> bool {
    let username = lowercase(wanted_name(pre.social.add_friend_input@));
    let note = trimmed(pre.social.add_friend_note@);
    if pre.token() is None || pre.social.friend_request_busy {
        post == pre && fx.len() == 0
    } else {
        match request_refusal(pre, username) {
            Some(why) => {
                &&& post == (App {
                    social: Social {
                        add_friend_status: post.social.add_friend_status,
                        ..pre.social
                    },
                    ..pre
                })
                &&& text_is(post.social.add_friend_status, why)
                &&& fx.len() == 0
            },
            None => {
                &&& post == (App {
                    social: Social {
                        add_friend_status: post.social.add_friend_status,
                        friend_request_busy: true,
                        add_friend_input: post.social.add_friend_input,
                        ..pre.social
                    },
                    ..pre
                })
                &&& text_is(post.social.add_friend_status, "Sending…"@)
                &&& post.social.add_friend_input@ == username
                &&& fx == mutation(
                    pre,
                    "friends:sendRequest"@,
                    if note.len() == 0 {
                        seq![("toUsername"@, ArgView::Str(username))]
                    } else {
                        seq![("toUsername"@, ArgView::Str(username)), ("note"@, ArgView::Str(note))]
                    },
                    Reply::FriendRequestFinished,
                )
            },
        }
    }
}

impl App {
    fn send_friend_request(&mut self) -> (fx: Vec<Effect>)
        ensures
            send_request_step(*old(self), *final(self), views(fx@)),
    {
        if self.online_token().is_none() || self.social.friend_request_busy {
            return nothing();
        }
        let bare = strip_start(&trim(&self.social.add_friend_input), Strip::Only('@'));
        let username = bare.as_str().to_lowercase();
        if username.as_str().is_empty() {
            self.social.add_friend_status = Some(owned("Enter a username"));
            return nothing();
        }
        if is_befriended(&self.social.friends, &username) {
            self.social.add_friend_status = Some(owned("You're already friends"));
            return nothing();
        }
        let mine = match &self.session {
            Some(s) => same_ignoring_ascii_case(&s.username, &username),
            None => false,
        };
        if mine {
            self.social.add_friend_status = Some(owned("You can't add yourself"));
            return nothing();
        }
        let note = trim(&self.social.add_friend_note);
        let fx = if note.as_str().is_empty() {
            self.ask1(
                CallKind::Mutation,
                "friends:sendRequest",
                "toUsername",
                arg(&username),
                Reply::FriendRequestFinished,
            )
        } else {
            self.ask2(
                CallKind::Mutation,
                "friends:sendRequest",
                "toUsername",
                arg(&username),
                "note",
                Arg::Str(note),
                Reply::FriendRequestFinished,
            )
        };
        self.social.add_friend_status = Some(owned("Sending…"));
        self.social.friend_request_busy = true;
        self.social.add_friend_input = username;
        fx
    }
}

// ---------- Messages ----------

/// Only the status line under the "add friend" field changes.
pub open spec fn friend_status(pre: App, status: Option<String>, post: App) -> bool {
    post == (App { social: Social { add_friend_status: status, ..pre.social }, ..pre })
}

/// Only a toast is shown.
pub open spec fn only_toast(pre: App, text: Seq<char>, now: Now, post: App) -> bool {
    post == (App { toast: post.toast, ..pre }) && toasts(post.toast, text, now)
}

/// The friend list with one favorite mark set.
pub open spec fn with_favorite(friends: Seq<Friend>, id: Seq<char>, favorite: bool) -> Seq<Friend> {
    match position(friends, id) {
        Some(i) => friends.update(i, Friend { favorite, ..friends[i] }),
        None => friends,
    }
}

/// What a message about friends does.
pub open spec fn social_step(pre: App, m: SocialMessage, now: Now, post: App, fx: Seq<EffectView>) -> bool {
    match m {
        SocialMessage::FriendsUpdated(friends) => friends_updated(pre, friends, now, post, fx),
        SocialMessage::RequestsUpdated(requests) => {
            &&& post == (App {
                social: Social {
                    incoming_requests: requests,
                    requests_loaded: true,
                    ..pre.social
                },
                ..pre
            })
            &&& fx == announce_request(pre.social, requests@) + fetch_pictures(pre, requests@)
        },
        SocialMessage::OutgoingRequestsUpdated(requests) => {
            &&& post == (App { social: Social { outgoing_requests: requests, ..pre.social }, ..pre })
            &&& fx == fetch_pictures(pre, requests@)
        },
        SocialMessage::SocialStatsUpdated(stats) => {
            &&& post == (App { social: Social { social_stats: stats, ..pre.social }, ..pre })
            &&& fx.len() == 0
        },
        SocialMessage::SuggestionsUpdated(list) => {
            &&& post == (App { social: Social { suggestions: list, ..pre.social }, ..pre })
            &&& fx == fetch_pictures(pre, list@)
        },
        SocialMessage::PeopleSearchFinished(Ok(hits)) => {
            &&& post == (App { social: Social { people_hits: hits, ..pre.social }, ..pre })
            &&& fx == fetch_pictures(pre, hits@)
        },
        SocialMessage::PeopleSearchFinished(Err(err)) => friend_status(pre, Some(err), post)
            && fx.len() == 0,
        SocialMessage::BlockedUpdated(blocked) => {
            &&& post == (App { social: Social { blocked, ..pre.social }, ..pre })
            &&& fx.len() == 0
        },
        SocialMessage::SetFriendsFilter(filter) => {
            &&& post == (App { social: Social { friends_filter: filter, ..pre.social }, ..pre })
            &&& fx.len() == 0
        },
        SocialMessage::FriendsFilterChanged(value) => {
            &&& post == (App { social: Social { friends_filter_input: value, ..pre.social }, ..pre })
            &&& fx.len() == 0
        },
        SocialMessage::ToggleFavorite(friend_id) => {
            &&& post == pre
            &&& fx == mutation(
                pre,
                "friends:toggleFavorite"@,
                seq![("friendUserId"@, ArgView::Str(friend_id@))],
                Reply::FavoriteToggled { friend_id },
            )
        },
        SocialMessage::FavoriteToggled(Ok((friend_id, favorite))) => {
            &&& post == (App {
                social: Social { friends: post.social.friends, ..pre.social },
                toast: post.toast,
                ..pre
            })
            &&& post.social.friends@ == with_favorite(pre.social.friends@, friend_id@, favorite)
            &&& toasts(
                post.toast,
                if favorite {
                    "Added to favorites"@
                } else {
                    "Removed from favorites"@
                },
                now,
            )
            &&& fx.len() == 0
        },
        SocialMessage::FavoriteToggled(Err(err)) => friend_status(pre, Some(err), post) && fx.len()
            == 0,
        SocialMessage::RespondAllIncoming(accept) => {
            &&& post == pre
            &&& fx == mutation(
                pre,
                "friends:respondAllIncoming"@,
                seq![("accept"@, ArgView::Bool(accept))],
                Reply::RespondAllFinished,
            )
        },
        SocialMessage::RespondAllFinished(Ok(count)) => {
            &&& only_toast(pre, "Updated "@ + digits(count as nat) + " request(s)"@, now, post)
            &&& fx.len() == 0
        },
        SocialMessage::RespondAllFinished(Err(err)) => friend_status(pre, Some(err), post) && fx.len()
            == 0,
        SocialMessage::CyclePresenceStatus => match pre.session {
            Some(s) => if pre.link.connected {
                let next = presence_after(s.presence_status@);
                &&& post.session is Some
                &&& post == (App {
                    session: Some(
                        Session { presence_status: post.session->0.presence_status, ..s },
                    ),
                    ..pre
                })
                &&& post.session->0.presence_status@ == next
                &&& fx == mutation(
                    pre,
                    "friends:setPresenceStatus"@,
                    seq![("status"@, ArgView::Str(next))],
                    Reply::PrivacyFlagFinished,
                )
            } else {
                post == pre && fx.len() == 0
            },
            None => post == pre && fx.len() == 0,
        },
        SocialMessage::CycleFriendRequestPrivacy => match pre.session {
            Some(s) => if pre.link.connected {
                let next = privacy_after(s.friend_request_privacy@);
                &&& post.session is Some
                &&& post == (App {
                    session: Some(
                        Session {
                            friend_request_privacy: post.session->0.friend_request_privacy,
                            ..s
                        },
                    ),
                    ..pre
                })
                &&& post.session->0.friend_request_privacy@ == next
                &&& fx == mutation(
                    pre,
                    "prefs:setPrivacyFlags"@,
                    seq![("friendRequestPrivacy"@, ArgView::Str(next))],
                    Reply::PrivacyFlagFinished,
                )
            } else {
                post == pre && fx.len() == 0
            },
            None => post == pre && fx.len() == 0,
        },
        SocialMessage::AddFriendInputChanged(value) => {
            let q = wanted_name(value@);
            if q.len() < 2 {
                &&& post == (App {
                    social: Social {
                        add_friend_input: value,
                        people_hits: post.social.people_hits,
                        ..pre.social
                    },
                    ..pre
                })
                &&& post.social.people_hits@.len() == 0
                &&& fx.len() == 0
            } else {
                &&& post == (App { social: Social { add_friend_input: value, ..pre.social }, ..pre })
                &&& fx == query(
                    pre,
                    "friends:searchPeople"@,
                    seq![("query"@, ArgView::Str(q))],
                    Reply::PeopleSearchFinished,
                )
            }
        },
        SocialMessage::AddFriendNoteChanged(value) => {
            &&& post == if value@.len() <= 200 {
                App { social: Social { add_friend_note: value, ..pre.social }, ..pre }
            } else {
                pre
            }
            &&& fx.len() == 0
        },
        SocialMessage::SendFriendRequest => send_request_step(pre, post, fx),
        SocialMessage::FriendRequestFinished(Ok(())) => {
            &&& post == (App {
                social: Social {
                    friend_request_busy: false,
                    add_friend_input: post.social.add_friend_input,
                    add_friend_note: post.social.add_friend_note,
                    add_friend_status: post.social.add_friend_status,
                    ..pre.social
                },
                toast: post.toast,
                ..pre
            })
            &&& post.social.add_friend_input@.len() == 0
            &&& post.social.add_friend_note@.len() == 0
            &&& text_is(post.social.add_friend_status, "Request sent"@)
            &&& toasts(post.toast, "Friend request sent"@, now)
            &&& fx.len() == 0
        },
        SocialMessage::FriendRequestFinished(Err(err)) => {
            &&& post == (App {
                social: Social {
                    friend_request_busy: false,
                    add_friend_status: Some(err),
                    ..pre.social
                },
                ..pre
            })
            &&& fx.len() == 0
        },
        SocialMessage::SendFriendRequestToUser(username) => if pre.token() is None
            || pre.social.friend_request_busy {
            post == pre && fx.len() == 0
        } else {
            &&& post == (App { social: Social { friend_request_busy: true, ..pre.social }, ..pre })
            &&& fx == mutation(
                pre,
                "friends:sendRequest"@,
                seq![("toUsername"@, ArgView::Str(username@))],
                Reply::ProfileFriendRequestFinished,
            )
        },
        SocialMessage::ProfileFriendRequestFinished(result) => {
            &&& post == (App {
                social: Social { friend_request_busy: false, ..pre.social },
                toast: post.toast,
                ..pre
            })
            &&& toasts(
                post.toast,
                match result {
                    Ok(()) => "Friend request sent"@,
                    Err(err) => err@,
                },
                now,
            )
            &&& fx.len() == 0
        },
        SocialMessage::RespondRequest(request_id, accept) => {
            &&& post == pre
            &&& fx == mutation(
                pre,
                "friends:respondRequest"@,
                seq![
                    ("requestId"@, ArgView::Str(request_id@)),
                    ("accept"@, ArgView::Bool(accept)),
                ],
                Reply::RequestRespondFinished,
            )
        },
        SocialMessage::RequestRespondFinished(Ok(())) => only_toast(
            pre,
            "Friend request updated"@,
            now,
            post,
        ) && fx.len() == 0,
        SocialMessage::RequestRespondFinished(Err(err)) => friend_status(pre, Some(err), post)
            && fx.len() == 0,
        SocialMessage::CancelOutgoingRequest(request_id) => {
            &&& post == pre
            &&& fx == mutation(
                pre,
                "friends:cancelRequest"@,
                seq![("requestId"@, ArgView::Str(request_id@))],
                Reply::CancelOutgoingFinished,
            )
        },
        SocialMessage::CancelOutgoingFinished(Ok(())) => only_toast(
            pre,
            "Request cancelled"@,
            now,
            post,
        ) && fx.len() == 0,
        SocialMessage::CancelOutgoingFinished(Err(err)) => friend_status(pre, Some(err), post)
            && fx.len() == 0,
        SocialMessage::RemoveFriend(friend_id) => {
            &&& post == pre
            &&& fx == mutation(
                pre,
                "friends:removeFriend"@,
                seq![("friendUserId"@, ArgView::Str(friend_id@))],
                Reply::RemoveFriendFinished,
            )
        },
        SocialMessage::RemoveFriendFinished(Ok(())) => post == pre && fx.len() == 0,
        SocialMessage::RemoveFriendFinished(Err(err)) => friend_status(pre, Some(err), post)
            && fx.len() == 0,
        SocialMessage::ConfirmBlockUser(user_id) => {
            &&& post == (App {
                social: Social { confirm_block_user_id: Some(user_id), ..pre.social },
                ..pre
            })
            &&& fx.len() == 0
        },
        SocialMessage::CancelBlockUser => {
            &&& post == (App { social: Social { confirm_block_user_id: None, ..pre.social }, ..pre })
            &&& fx.len() == 0
        },
        SocialMessage::BlockUser(user_id) => {
            &&& post == if pre.token() is Some {
                App { social: Social { confirm_block_user_id: None, ..pre.social }, ..pre }
            } else {
                pre
            }
            &&& fx == mutation(
                pre,
                "friends:blockUser"@,
                seq![("userId"@, ArgView::Str(user_id@))],
                Reply::BlockFinished,
            )
        },
        SocialMessage::BlockFinished(result) => only_toast(
            pre,
            match result {
                Ok(()) => "User blocked"@,
                Err(err) => err@,
            },
            now,
            post,
        ) && fx.len() == 0,
        SocialMessage::UnblockUser(user_id) => {
            &&& post == pre
            &&& fx == mutation(
                pre,
                "friends:unblockUser"@,
                seq![("userId"@, ArgView::Str(user_id@))],
                Reply::UnblockFinished,
            )
        },
        SocialMessage::UnblockFinished => post == pre && fx.len() == 0,
    }
}

impl App {
    fn mark_favorite(&mut self, friend_id: &str, favorite: bool)
        ensures
            *final(self) == (App {
                social: Social { friends: final(self).social.friends, ..old(self).social },
                ..*old(self)
            }),
            final(self).social.friends@ == with_favorite(
                old(self).social.friends@,
                friend_id@,
                favorite,
            ),
    {
        match find(&self.social.friends, friend_id) {
            Some(i) => {
                self.social.friends[i].favorite = favorite;
            },
            None => {},
        }
    }

    fn cycle_presence(&mut self) -> (fx: Vec<Effect>)
        ensures
            social_step(
                *old(self),
                SocialMessage::CyclePresenceStatus,
                Now { tick_ms: 0, unix_ms: 0 },
                *final(self),
                views(fx@),
            ),
    {
        if !self.link.connected {
            return nothing();
        }
        match self.session.take() {
            Some(s) => {
                let mut s = s;
                let next = owned(next_presence_status(&s.presence_status));
                s.presence_status = next.clone();
                self.session = Some(s);
                self.ask1(
                    CallKind::Mutation,
                    "friends:setPresenceStatus",
                    "status",
                    Arg::Str(next),
                    Reply::PrivacyFlagFinished,
                )
            },
            None => nothing(),
        }
    }

    fn cycle_privacy(&mut self) -> (fx: Vec<Effect>)
        ensures
            social_step(
                *old(self),
                SocialMessage::CycleFriendRequestPrivacy,
                Now { tick_ms: 0, unix_ms: 0 },
                *final(self),
                views(fx@),
            ),
    {
        if !self.link.connected {
            return nothing();
        }
        match self.session.take() {
            Some(s) => {
                let mut s = s;
                let next = owned(next_friend_request_privacy(&s.friend_request_privacy));
                s.friend_request_privacy = next.clone();
                self.session = Some(s);
                self.ask1(
                    CallKind::Mutation,
                    "prefs:setPrivacyFlags",
                    "friendRequestPrivacy",
                    Arg::Str(next),
                    Reply::PrivacyFlagFinished,
                )
            },
            None => nothing(),
        }
    }

    fn add_friend_input_changed(&mut self, value: String) -> (fx: Vec<Effect>)
        ensures
            social_step(
                *old(self),
                SocialMessage::AddFriendInputChanged(value),
                Now { tick_ms: 0, unix_ms: 0 },
                *final(self),
                views(fx@),
            ),
    {
        let q = strip_start(&trim(&value), Strip::Only('@'));
        self.social.add_friend_input = value;
        if char_count(&q) < 2 {
            self.social.people_hits = Vec::new();
            return nothing();
        }
        self.ask1(
            CallKind::Query,
            "friends:searchPeople",
            "query",
            Arg::Str(q),
            Reply::PeopleSearchFinished,
        )
    }

    fn friend_error(&mut self, err: String) -> (fx: Vec<Effect>)
        ensures
            friend_status(*old(self), Some(err), *final(self)),
            views(fx@).len() == 0,
    {
        self.social.add_friend_status = Some(err);
        nothing()
    }

    fn toast_only(&mut self, text: &str, now: Now) -> (fx: Vec<Effect>)
        ensures
            only_toast(*old(self), text@, now, *final(self)),
            views(fx@).len() == 0,
    {
        self.show_toast(text, now);
        nothing()
    }

    /// Handles a message about friends.
    pub fn update_social(&mut self, m: SocialMessage, now: Now) -> (fx: Vec<Effect>)
        ensures
            social_step(*old(self), m, now, *final(self), views(fx@)),
    {
        match m {
            SocialMessage::FriendsUpdated(friends) => self.set_friends(friends, now),
            SocialMessage::RequestsUpdated(requests) => {
                let announce = self.social.announce_new_request(&requests);
                let fetch = self.fetch_row_pictures(&requests);
                self.social.requests_loaded = true;
                self.social.incoming_requests = requests;
                both(announce, fetch)
            },
            SocialMessage::OutgoingRequestsUpdated(requests) => {
                let fetch = self.fetch_row_pictures(&requests);
                self.social.outgoing_requests = requests;
                fetch
            },
            SocialMessage::SocialStatsUpdated(stats) => {
                self.social.social_stats = stats;
                nothing()
            },
            SocialMessage::SuggestionsUpdated(list) => {
                let fetch = self.fetch_row_pictures(&list);
                self.social.suggestions = list;
                fetch
            },
            SocialMessage::PeopleSearchFinished(Ok(hits)) => {
                let fetch = self.fetch_row_pictures(&hits);
                self.social.people_hits = hits;
                fetch
            },
            SocialMessage::PeopleSearchFinished(Err(err)) => self.friend_error(err),
            SocialMessage::BlockedUpdated(blocked) => {
                self.social.blocked = blocked;
                nothing()
            },
            SocialMessage::SetFriendsFilter(filter) => {
                self.social.friends_filter = filter;
                nothing()
            },
            SocialMessage::FriendsFilterChanged(value) => {
                self.social.friends_filter_input = value;
                nothing()
            },
            SocialMessage::ToggleFavorite(friend_id) => self.ask1(
                CallKind::Mutation,
                "friends:toggleFavorite",
                "friendUserId",
                arg(&friend_id),
                Reply::FavoriteToggled { friend_id },
            ),
            SocialMessage::FavoriteToggled(Ok((friend_id, favorite))) => {
                self.mark_favorite(&friend_id, favorite);
                if favorite {
                    self.show_toast("Added to favorites", now);
                } else {
                    self.show_toast("Removed from favorites", now);
                }
                nothing()
            },
            SocialMessage::FavoriteToggled(Err(err)) => self.friend_error(err),
            SocialMessage::RespondAllIncoming(accept) => self.ask1(
                CallKind::Mutation,
                "friends:respondAllIncoming",
                "accept",
                Arg::Bool(accept),
                Reply::RespondAllFinished,
            ),
            SocialMessage::RespondAllFinished(Ok(count)) => {
                let text = cat3("Updated ", &decimal(count as u64), " request(s)");
                self.toast_only(&text, now)
            },
            SocialMessage::RespondAllFinished(Err(err)) => self.friend_error(err),
            SocialMessage::CyclePresenceStatus => self.cycle_presence(),
            SocialMessage::CycleFriendRequestPrivacy => self.cycle_privacy(),
            SocialMessage::AddFriendInputChanged(value) => self.add_friend_input_changed(value),
            SocialMessage::AddFriendNoteChanged(value) => {
                if char_count(&value) <= 200 {
                    self.social.add_friend_note = value;
                }
                nothing()
            },
            SocialMessage::SendFriendRequest => self.send_friend_request(),
            SocialMessage::FriendRequestFinished(Ok(_)) => {
                self.social.friend_request_busy = false;
                self.social.add_friend_input = String::new();
                self.social.add_friend_note = String::new();
                self.social.add_friend_status = Some(owned("Request sent"));
                self.show_toast("Friend request sent", now);
                nothing()
            },
            SocialMessage::FriendRequestFinished(Err(err)) => {
                self.social.friend_request_busy = false;
                self.social.add_friend_status = Some(err);
                nothing()
            },
            SocialMessage::SendFriendRequestToUser(username) => {
                if self.online_token().is_none() || self.social.friend_request_busy {
                    return nothing();
                }
                self.social.friend_request_busy = true;
                self.ask1(
                    CallKind::Mutation,
                    "friends:sendRequest",
                    "toUsername",
                    Arg::Str(username),
                    Reply::ProfileFriendRequestFinished,
                )
            },
            SocialMessage::ProfileFriendRequestFinished(Ok(_)) => {
                self.social.friend_request_busy = false;
                self.show_toast("Friend request sent", now);
                nothing()
            },
            SocialMessage::ProfileFriendRequestFinished(Err(err)) => {
                self.social.friend_request_busy = false;
                self.show_toast(&err, now);
                nothing()
            },
            SocialMessage::RespondRequest(request_id, accept) => self.ask2(
                CallKind::Mutation,
                "friends:respondRequest",
                "requestId",
                Arg::Str(request_id),
                "accept",
                Arg::Bool(accept),
                Reply::RequestRespondFinished,
            ),
            SocialMessage::RequestRespondFinished(Ok(_)) => self.toast_only(
                "Friend request updated",
                now,
            ),
            SocialMessage::RequestRespondFinished(Err(err)) => self.friend_error(err),
            SocialMessage::CancelOutgoingRequest(request_id) => self.ask1(
                CallKind::Mutation,
                "friends:cancelRequest",
                "requestId",
                Arg::Str(request_id),
                Reply::CancelOutgoingFinished,
            ),
            SocialMessage::CancelOutgoingFinished(Ok(_)) => self.toast_only("Request cancelled", now),
            SocialMessage::CancelOutgoingFinished(Err(err)) => self.friend_error(err),
            SocialMessage::RemoveFriend(friend_id) => self.ask1(
                CallKind::Mutation,
                "friends:removeFriend",
                "friendUserId",
                Arg::Str(friend_id),
                Reply::RemoveFriendFinished,
            ),
            SocialMessage::RemoveFriendFinished(Ok(_)) => nothing(),
            SocialMessage::RemoveFriendFinished(Err(err)) => self.friend_error(err),
            SocialMessage::ConfirmBlockUser(user_id) => {
                self.social.confirm_block_user_id = Some(user_id);
                nothing()
            },
            SocialMessage::CancelBlockUser => {
                self.social.confirm_block_user_id = None;
                nothing()
            },
            SocialMessage::BlockUser(user_id) => {
                if self.online_token().is_some() {
                    self.social.confirm_block_user_id = None;
                }
                self.ask1(
                    CallKind::Mutation,
                    "friends:blockUser",
                    "userId",
                    Arg::Str(user_id),
                    Reply::BlockFinished,
                )
            },
            SocialMessage::BlockFinished(Ok(_)) => self.toast_only("User blocked", now),
            SocialMessage::BlockFinished(Err(err)) => self.toast_only(&err, now),
            SocialMessage::UnblockUser(user_id) => self.ask1(
                CallKind::Mutation,
                "friends:unblockUser",
                "userId",
                Arg::Str(user_id),
                Reply::UnblockFinished,
            ),
            SocialMessage::UnblockFinished => nothing(),
        }
    }
}

} // verus!
