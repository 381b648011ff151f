//! What subscriptions deliver for the chats: the chat list, messages, group
//! keys and pictures.

use crate::state::app::{
    everyone_kind, fetches, job_views, App, Chat, ImageJob, ImageJobView, Inbox, Now, Peers,
};
use crate::state::effect::{both, nothing, one, opt_text, two, views, Effect, EffectView};
use crate::state::incoming::reads_as;
use crate::state::keyed::{find, lemma_position, row};
use crate::state::lifecycle::{copy_opt, key_wanted};
use crate::state::message::{FeedMessage, Message, PendingKey};
use crate::state::peers::live_list;
use crate::state::types::{
    ChannelSummary, ChatMessage, ConversationSummary, GroupKey, IncomingMessage,
};
use crate::strmap::{texts, StrMap};
use crate::text::{cat2, is_text, owned, same, text_is};
use crate::ui::mentions::{
    excerpt, has_everyone, mentions_any, pings, pings_everyone, snippet,
};
use vstd::prelude::*;

verus! {

// ---------- The chat list ----------

/// The number under a key, or 0.
pub open spec fn stamp(m: Map<Seq<char>, i64>, key: Seq<char>) -> i64 {
    if m.contains_key(key) {
        m[key]
    } else {
        0
    }
}

fn stamp_of(m: &StrMap<i64>, key: &str) -> (r: i64)
    ensures
        r == stamp(m@, key@),
{
    match m.get(key) {
        Some(v) => *v,
        None => 0,
    }
}

/// A chat has news: it is not open, was seen before, and has a newer message.
pub open spec fn has_news(app: App, c: ConversationSummary) -> bool {
    let prev = stamp(app.inbox.seen_last_message_at@, c.conversation_id@);
    &&& !text_is(app.place.conversation, c.conversation_id@)
    &&& prev > 0
    &&& c.last_message_at > prev
}

/// The title of the first chat with news.
pub open spec fn first_news(app: App, list: Seq<ConversationSummary>) -> Option<Seq<char>>
    decreases list.len(),
{
    if list.len() == 0 {
        None
    } else {
        match first_news(app, list.drop_last()) {
            Some(t) => Some(t),
            None => if has_news(app, list.last()) {
                Some(list.last().title@)
            } else {
                None
            },
        }
    }
}

/// What was seen after a chat list.
pub open spec fn seen_after(
    seen: Map<Seq<char>, i64>,
    list: Seq<ConversationSummary>,
) -> Map<Seq<char>, i64>
    decreases list.len(),
{
    if list.len() == 0 {
        seen
    } else {
        seen_after(seen, list.drop_last()).insert(
            list.last().conversation_id@,
            list.last().last_message_at,
        )
    }
}

/// A chat of this title is a channel that is muted.
pub open spec fn muted_title(
    channels: Seq<ChannelSummary>,
    list: Seq<ConversationSummary>,
    title: Seq<char>,
) -> bool {
    exists|i: int, j: int|
        {
            &&& 0 <= i < channels.len()
            &&& 0 <= j < list.len()
            &&& (#[trigger] channels[i]).muted
            &&& (#[trigger] list[j]).title@ == title
            &&& list[j].conversation_id@ == channels[i].conversation_id@
        }
}

/// The notification about news.
pub open spec fn news(app: App, list: Seq<ConversationSummary>) -> Seq<EffectView> {
    if !app.inbox.loaded {
        Seq::empty()
    } else {
        match first_news(app, list) {
            Some(title) => if muted_title(app.servers.channels@, list, title) {
                Seq::empty()
            } else {
                seq![
                    EffectView::NotifyPing,
                    EffectView::Notify { title: "HexaTalk"@, body: "New message · "@ + title },
                ]
            },
            None => Seq::empty(),
        }
    }
}

/// The open chat's row, where it has something unread that was not yet
/// marked as read.
pub open spec fn to_mark(app: App, list: Seq<ConversationSummary>) -> Option<ConversationSummary> {
    match app.place.conversation {
        Some(c) => match row(list, c@) {
            Some(r) => if r.unread && r.last_message_at > stamp(
                app.inbox.last_marked_read_at@,
                c@,
            ) {
                Some(r)
            } else {
                None
            },
            None => None,
        },
        None => None,
    }
}

/// A fresh chat list: news are announced, and the open chat is marked as read
/// only where there is something new to mark -- marking changes the list on
/// the server and comes back as a fresh list.
pub open spec fn conversations_updated(
    pre: App,
    list: Vec<ConversationSummary>,
    post: App,
    fx: Seq<EffectView>,
) -> bool {
    &&& post == (App {
        inbox: Inbox {
            conversations: list,
            loaded: true,
            seen_last_message_at: post.inbox.seen_last_message_at,
            last_marked_read_at: post.inbox.last_marked_read_at,
        },
        ..pre
    })
    &&& post.inbox.seen_last_message_at@ == seen_after(pre.inbox.seen_last_message_at@, list@)
    &&& match to_mark(pre, list@) {
        Some(r) => {
            &&& post.inbox.last_marked_read_at@ == pre.inbox.last_marked_read_at@.insert(
                r.conversation_id@,
                r.last_message_at,
            )
            &&& fx == news(pre, list@) + seq![
                EffectView::MarkRead { conversation_id: r.conversation_id@ },
            ]
        },
        None => {
            &&& post.inbox.last_marked_read_at == pre.inbox.last_marked_read_at
            &&& fx == news(pre, list@)
        },
    }
}

proof fn lemma_first_news_stays(app: App, list: Seq<ConversationSummary>, n: int)
    requires
        0 <= n <= list.len(),
        first_news(app, list.take(n)) is Some,
    ensures
        first_news(app, list) == first_news(app, list.take(n)),
    decreases list.len() - n,
{
    if n < list.len() {
        assert(list.take(n + 1).drop_last() =~= list.take(n));
        lemma_first_news_stays(app, list, n + 1);
    } else {
        assert(list.take(n) =~= list);
    }
}

fn title_muted(channels: &Vec<ChannelSummary>, list: &Vec<ConversationSummary>, title: &str) -> (r:
    bool)
    ensures
        r == muted_title(channels@, list@, title@),
{
    let mut i: usize = 0;
    while i < channels.len()
        invariant
            i <= channels@.len(),
            forall|a: int, j: int|
                0 <= a < i && 0 <= j < list@.len() && (#[trigger] channels@[a]).muted && (
                #[trigger] list@[j]).title@ == title@ ==> list@[j].conversation_id@
                    != channels@[a].conversation_id@,
        decreases channels@.len() - i,
    {
        if channels[i].muted {
            let mut j: usize = 0;
            while j < list.len()
                invariant
                    i < channels@.len(),
                    channels@[i as int].muted,
                    j <= list@.len(),
                    forall|b: int|
                        0 <= b < j && (#[trigger] list@[b]).title@ == title@
                            ==> list@[b].conversation_id@ != channels@[i as int].conversation_id@,
                decreases list@.len() - j,
            {
                if same(&list[j].title, title) && same(
                    &list[j].conversation_id,
                    &channels[i].conversation_id,
                ) {
                    return true;
                }
                j += 1;
            }
        }
        i += 1;
    }
    false
}

impl App {
    fn find_news(&self, list: &Vec<ConversationSummary>) -> (r: Option<String>)
        ensures
            opt_text(r) == first_news(*self, list@),
    {
        let mut i: usize = 0;
        assert(list@.take(0) =~= Seq::<ConversationSummary>::empty());
        while i < list.len()
            invariant
                i <= list@.len(),
                first_news(*self, list@.take(i as int)) is None,
            decreases list@.len() - i,
        {
            let c = &list[i];
            assert(list@.take(i + 1).drop_last() =~= list@.take(i as int));
            assert(list@.take(i + 1).last() == list@[i as int]);
            let prev = stamp_of(&self.inbox.seen_last_message_at, &c.conversation_id);
            if !is_text(&self.place.conversation, &c.conversation_id) && prev > 0
                && c.last_message_at > prev {
                proof {
                    lemma_first_news_stays(*self, list@, i + 1);
                }
                return Some(c.title.clone());
            }
            i += 1;
        }
        assert(list@.take(list@.len() as int) =~= list@);
        None
    }

    fn announce_news(&self, list: &Vec<ConversationSummary>) -> (fx: Vec<Effect>)
        ensures
            views(fx@) == news(*self, list@),
    {
        if !self.inbox.loaded {
            return nothing();
        }
        match self.find_news(list) {
            Some(title) => if title_muted(&self.servers.channels, list, &title) {
                nothing()
            } else {
                two(
                    Effect::NotifyPing,
                    Effect::Notify { title: owned("HexaTalk"), body: cat2("New message · ", &title) },
                )
            },
            None => nothing(),
        }
    }

    fn set_conversations(&mut self, list: Vec<ConversationSummary>) -> (fx: Vec<Effect>)
        ensures
            conversations_updated(*old(self), list, *final(self), views(fx@)),
    {
        let announced = self.announce_news(&list);
        let mut i: usize = 0;
        let ghost start = *self;
        assert(list@.take(0) =~= Seq::<ConversationSummary>::empty());
        while i < list.len()
            invariant
                i <= list@.len(),
                *self == (App {
                    inbox: Inbox {
                        seen_last_message_at: self.inbox.seen_last_message_at,
                        ..start.inbox
                    },
                    ..start
                }),
                self.inbox.seen_last_message_at@ == seen_after(
                    start.inbox.seen_last_message_at@,
                    list@.take(i as int),
                ),
            decreases list@.len() - i,
        {
            assert(list@.take(i + 1).drop_last() =~= list@.take(i as int));
            assert(list@.take(i + 1).last() == list@[i as int]);
            self.inbox.seen_last_message_at.insert(
                list[i].conversation_id.clone(),
                list[i].last_message_at,
            );
            i += 1;
        }
        assert(list@.take(list@.len() as int) =~= list@);
        let mut marked: Option<(String, i64)> = None;
        match &self.place.conversation {
            Some(c) => match find(&list, c) {
                Some(k) => {
                    let r = &list[k];
                    if r.unread && r.last_message_at > stamp_of(&self.inbox.last_marked_read_at, c) {
                        marked = Some((r.conversation_id.clone(), r.last_message_at));
                    }
                },
                None => {},
            },
            None => {},
        }
        self.inbox.loaded = true;
        self.inbox.conversations = list;
        match marked {
            Some((id, at)) => {
                self.inbox.last_marked_read_at.insert(id.clone(), at);
                both(announced, one(Effect::MarkRead { conversation_id: id }))
            },
            None => announced,
        }
    }
}

// ---------- Messages ----------

/// Two instants are at most `within` milliseconds apart.
pub open spec fn near(a: int, b: int, within: int) -> bool {
    -within <= a - b <= within
}

fn is_near(a: i64, b: i64, within: i64) -> (r: bool)
    requires
        0 <= within,
    ensures
        r == near(a as int, b as int, within as int),
{
    let d: i128 = a as i128 - b as i128;
    -(within as i128) <= d && d <= within as i128
}

/// The same text by the same author, less than two minutes apart: the stored
/// copy of a live message.
pub open spec fn echo(live: ChatMessage, stored: ChatMessage) -> bool {
    &&& live.author_id@ == stored.author_id@
    &&& live.body@ == stored.body@
    &&& near(live.sent_at as int, stored.sent_at as int, 119_999)
}

fn is_echo(live: &ChatMessage, stored: &ChatMessage) -> (r: bool)
    ensures
        r == echo(*live, *stored),
{
    same(&live.author_id, &stored.author_id) && same(&live.body, &stored.body) && is_near(
        live.sent_at,
        stored.sent_at,
        119_999,
    )
}

/// A live message of the list has this stored copy.
pub open spec fn echoed(live: Seq<ChatMessage>, stored: ChatMessage) -> bool {
    exists|i: int| 0 <= i < live.len() && echo(#[trigger] live[i], stored)
}

/// A message with this id is in the list.
pub open spec fn holds_message(list: Seq<ChatMessage>, id: Seq<char>) -> bool {
    exists|i: int| 0 <= i < list.len() && (#[trigger] list[i]).id@ == id
}

/// Our user id, empty where nobody is signed in.
pub open spec fn my_id(app: App) -> Seq<char> {
    match app.session {
        Some(s) => s.user_id@,
        None => Seq::empty(),
    }
}

/// The live messages of the open DM.
pub open spec fn open_live(app: App) -> Seq<ChatMessage> {
    match app.place.peer_id {
        Some(id) => live_list(app.peers.live@, id@),
        None => Seq::empty(),
    }
}

/// A message pings us: someone else wrote it within the last two minutes, it
/// is new, was not already announced over the live channel, and mentions us
/// or -- in channels and groups -- everyone.
pub open spec fn pings_us(app: App, m: ChatMessage, now: Now) -> bool {
    &&& m.author_id@ != my_id(app)
    &&& m.kind@ != "call"@
    &&& !m.deleted
    &&& near(now.unix_ms as int, m.sent_at as int, 120_000)
    &&& !holds_message(app.chat.messages@, m.id@)
    &&& !echoed(open_live(app), m)
    &&& pings(m.body@, app.my_names()) || (everyone_kind(app.place.kind) && pings_everyone(m.body@))
}

/// The first message of the list that pings us.
pub open spec fn first_ping(app: App, list: Seq<ChatMessage>, now: Now) -> Option<ChatMessage>
    decreases list.len(),
{
    if list.len() == 0 {
        None
    } else {
        match first_ping(app, list.drop_last(), now) {
            Some(m) => Some(m),
            None => if pings_us(app, list.last(), now) {
                Some(list.last())
            } else {
                None
            },
        }
    }
}

/// The notification about a ping, unless the window is in front.
pub open spec fn ping_notice(app: App, list: Seq<ChatMessage>, now: Now) -> Seq<EffectView> {
    if app.window.window_focused {
        Seq::empty()
    } else {
        match first_ping(app, list, now) {
            Some(m) => seq![
                EffectView::NotifyPing,
                EffectView::Notify {
                    title: m.author_name@ + " mentioned you"@,
                    body: excerpt(m.body@, 140),
                },
            ],
            None => Seq::empty(),
        }
    }
}

/// The pictures of messages: attachments, with their keys, and avatars.
pub open spec fn message_jobs(list: Seq<ChatMessage>) -> Seq<ImageJobView>
    decreases list.len(),
{
    if list.len() == 0 {
        Seq::empty()
    } else {
        let m = list.last();
        message_jobs(list.drop_last()).push(
            ImageJobView {
                url: m.attachment_url@,
                key: opt_text(m.attachment_key),
                nonce: opt_text(m.attachment_nonce),
            },
        ).push(ImageJobView { url: m.author_avatar_url@, key: None, nonce: None })
    }
}

/// A live message is stored: a message of the list is its copy, with an
/// attachment where it has one.
pub open spec fn stored_in(live: ChatMessage, list: Seq<ChatMessage>) -> bool {
    exists|i: int|
        0 <= i < list.len() && echo(live, #[trigger] list[i]) && (list[i].attachment_url@.len() == 0)
            == (live.attachment_url@.len() == 0)
}

/// The live messages that are not stored yet.
pub open spec fn not_stored(live: Seq<ChatMessage>, list: Seq<ChatMessage>) -> Seq<ChatMessage>
    decreases live.len(),
{
    if live.len() == 0 {
        Seq::empty()
    } else {
        let before = not_stored(live.drop_last(), list);
        if stored_in(live.last(), list) {
            before
        } else {
            before.push(live.last())
        }
    }
}

/// The live messages of the open DM lose those that are stored by now.
pub open spec fn live_trimmed(pre: App, list: Seq<ChatMessage>, post: App) -> bool {
    match pre.place.peer_id {
        Some(id) => if pre.peers.live@.contains_key(id@) {
            &&& post.peers == (Peers { live: post.peers.live, ..pre.peers })
            &&& post.peers.live@ == pre.peers.live@.insert(id@, post.peers.live@[id@])
            &&& post.peers.live@[id@]@ == not_stored(pre.peers.live@[id@]@, list)
        } else {
            post.peers == pre.peers
        },
        None => post.peers == pre.peers,
    }
}

/// Fresh messages of the open chat.
pub open spec fn messages_updated(
    pre: App,
    list: Seq<IncomingMessage>,
    now: Now,
    post: App,
    fx: Seq<EffectView>,
) -> bool {
    let messages = post.chat.messages@;
    &&& post == (App {
        chat: Chat { messages: post.chat.messages, ..pre.chat },
        peers: post.peers,
        ..pre
    })
    &&& reads_as(pre, list, messages)
    &&& live_trimmed(pre, messages, post)
    &&& fx == ping_notice(pre, messages, now) + fetches(pre.images@, message_jobs(messages)) + if messages.len()
        > pre.chat.messages@.len() {
        seq![EffectView::ScrollToBottom]
    } else {
        Seq::empty()
    }
}

proof fn lemma_first_ping_stays(app: App, list: Seq<ChatMessage>, now: Now, n: int)
    requires
        0 <= n <= list.len(),
        first_ping(app, list.take(n), now) is Some,
    ensures
        first_ping(app, list, now) == first_ping(app, list.take(n), now),
    decreases list.len() - n,
{
    if n < list.len() {
        assert(list.take(n + 1).drop_last() =~= list.take(n));
        lemma_first_ping_stays(app, list, now, n + 1);
    } else {
        assert(list.take(n) =~= list);
    }
}

fn has_message(list: &Vec<ChatMessage>, id: &str) -> (r: bool)
    ensures
        r == holds_message(list@, id@),
{
    let mut i: usize = 0;
    while i < list.len()
        invariant
            i <= list@.len(),
            forall|j: int| 0 <= j < i ==> (#[trigger] list@[j]).id@ != id@,
        decreases list@.len() - i,
    {
        if same(&list[i].id, id) {
            return true;
        }
        i += 1;
    }
    false
}

fn is_echoed(live: &Vec<ChatMessage>, stored: &ChatMessage) -> (r: bool)
    ensures
        r == echoed(live@, *stored),
{
    let mut i: usize = 0;
    while i < live.len()
        invariant
            i <= live@.len(),
            forall|j: int| 0 <= j < i ==> !echo(#[trigger] live@[j], *stored),
        decreases live@.len() - i,
    {
        if is_echo(&live[i], stored) {
            return true;
        }
        i += 1;
    }
    false
}

fn is_stored_in(live: &ChatMessage, list: &Vec<ChatMessage>) -> (r: bool)
    ensures
        r == stored_in(*live, list@),
{
    let mut i: usize = 0;
    while i < list.len()
        invariant
            i <= list@.len(),
            forall|j: int|
                0 <= j < i ==> !(echo(*live, #[trigger] list@[j]) && (list@[j].attachment_url@.len()
                    == 0) == (live.attachment_url@.len() == 0)),
        decreases list@.len() - i,
    {
        if is_echo(live, &list[i]) && list[i].attachment_url.as_str().is_empty()
            == live.attachment_url.as_str().is_empty() {
            return true;
        }
        i += 1;
    }
    false
}

fn drop_stored(live: Vec<ChatMessage>, list: &Vec<ChatMessage>) -> (r: Vec<ChatMessage>)
    ensures
        r@ == not_stored(live@, list@),
{
    let mut r = live;
    let ghost all = r@;
    let ghost mut k: int = 0;
    let mut i: usize = 0;
    assert(all.take(0) =~= Seq::<ChatMessage>::empty());
    assert(all.subrange(0, all.len() as int) =~= all);
    assert(r@ =~= not_stored(all.take(0), list@) + all.subrange(0, all.len() as int));
    while i < r.len()
        invariant
            0 <= k <= all.len(),
            i == not_stored(all.take(k), list@).len(),
            r@ == not_stored(all.take(k), list@) + all.subrange(k, all.len() as int),
        decreases all.len() - k,
    {
        let ghost head = not_stored(all.take(k), list@);
        let ghost tail = all.subrange(k, all.len() as int);
        assert(r@[i as int] == tail[0]);
        assert(tail[0] == all[k]);
        assert(all.take(k + 1).drop_last() =~= all.take(k));
        assert(all.take(k + 1).last() == all[k]);
        if is_stored_in(&r[i], list) {
            let _ = r.remove(i);
            assert(r@ =~= head + all.subrange(k + 1, all.len() as int));
        } else {
            i += 1;
            assert(r@ =~= head.push(all[k]) + all.subrange(k + 1, all.len() as int));
        }
        proof {
            k = k + 1;
        }
    }
    assert(k == all.len()) by {
        if k < all.len() {
            assert(r@.len() > i);
        }
    }
    assert(all.take(k) =~= all);
    assert(r@ =~= not_stored(all, list@));
    r
}

impl App {
    fn is_ping(&self, m: &ChatMessage, names: &Vec<String>, now: Now) -> (r: bool)
        requires
            texts(names@) == self.my_names(),
        ensures
            r == pings_us(*self, *m, now),
    {
        let mine = match &self.session {
            Some(s) => same(&m.author_id, &s.user_id),
            None => m.author_id.as_str().is_empty(),
        };
        proof {
            if self.session is None && m.author_id@.len() == 0 {
                assert(m.author_id@ =~= Seq::<char>::empty());
            }
        }
        if mine || same(&m.kind, "call") || m.deleted {
            return false;
        }
        if !is_near(now.unix_ms, m.sent_at, 120_000) {
            return false;
        }
        if has_message(&self.chat.messages, &m.id) {
            return false;
        }
        match &self.place.peer_id {
            Some(id) => match self.peers.live.get(id) {
                Some(live) => {
                    if is_echoed(live, m) {
                        return false;
                    }
                },
                None => {},
            },
            None => {},
        }
        assert(!echoed(open_live(*self), *m));
        let everyone_ok = is_text(&self.place.kind, "channel") || is_text(&self.place.kind, "group");
        mentions_any(&m.body, names.as_slice()) || (everyone_ok && has_everyone(&m.body))
    }

    fn notice_ping(&self, list: &Vec<ChatMessage>, now: Now) -> (fx: Vec<Effect>)
        ensures
            views(fx@) == ping_notice(*self, list@, now),
    {
        if self.window.window_focused {
            return nothing();
        }
        let names = self.my_mention_names();
        let mut i: usize = 0;
        assert(list@.take(0) =~= Seq::<ChatMessage>::empty());
        while i < list.len()
            invariant
                i <= list@.len(),
                !self.window.window_focused,
                texts(names@) == self.my_names(),
                first_ping(*self, list@.take(i as int), now) is None,
            decreases list@.len() - i,
        {
            assert(list@.take(i + 1).drop_last() =~= list@.take(i as int));
            assert(list@.take(i + 1).last() == list@[i as int]);
            if self.is_ping(&list[i], &names, now) {
                proof {
                    lemma_first_ping_stays(*self, list@, now, i + 1);
                }
                return two(
                    Effect::NotifyPing,
                    Effect::Notify {
                        title: cat2(&list[i].author_name, " mentioned you"),
                        body: snippet(&list[i].body, 140),
                    },
                );
            }
            i += 1;
        }
        assert(list@.take(list@.len() as int) =~= list@);
        nothing()
    }

    fn fetch_message_pictures(&self, list: &Vec<ChatMessage>) -> (fx: Vec<Effect>)
        ensures
            views(fx@) == fetches(self.images@, message_jobs(list@)),
    {
        let mut jobs: Vec<ImageJob> = Vec::new();
        let mut i: usize = 0;
        assert(list@.take(0) =~= Seq::<ChatMessage>::empty());
        assert(job_views(jobs@) =~= Seq::<ImageJobView>::empty());
        while i < list.len()
            invariant
                i <= list@.len(),
                job_views(jobs@) == message_jobs(list@.take(i as int)),
            decreases list@.len() - i,
        {
            let m = &list[i];
            assert(list@.take(i + 1).drop_last() =~= list@.take(i as int));
            assert(list@.take(i + 1).last() == list@[i as int]);
            let ghost before = job_views(jobs@);
            let a = ImageJob {
                url: m.attachment_url.clone(),
                key: copy_opt(&m.attachment_key),
                nonce: copy_opt(&m.attachment_nonce),
            };
            let b = ImageJob { url: m.author_avatar_url.clone(), key: None, nonce: None };
            jobs.push(a);
            jobs.push(b);
            assert(job_views(jobs@) =~= before.push(a@).push(b@));
            i += 1;
        }
        assert(list@.take(list@.len() as int) =~= list@);
        self.fetch_missing_images(jobs)
    }

    fn trim_live(&mut self, list: &Vec<ChatMessage>)
        ensures
            *final(self) == (App { peers: final(self).peers, ..*old(self) }),
            live_trimmed(*old(self), list@, *final(self)),
    {
        match &self.place.peer_id {
            Some(id) => {
                if self.peers.live.contains(id) {
                    let ghost before = self.peers.live@;
                    match self.peers.live.take(id) {
                        Some(live) => {
                            let kept = drop_stored(live, list);
                            self.peers.live.insert(id.clone(), kept);
                            assert(self.peers.live@ =~= before.insert(id@, kept));
                        },
                        None => {},
                    }
                }
            },
            None => {},
        }
    }

    fn set_messages(&mut self, list: Vec<IncomingMessage>, now: Now) -> (fx: Vec<
        Effect,
    >)
        ensures
            messages_updated(*old(self), list@, now, *final(self), views(fx@)),
    {
        let messages = self.decrypt_incoming_messages(list);
        let notice = self.notice_ping(&messages, now);
        let fetch = self.fetch_message_pictures(&messages);
        let scroll = if messages.len() > self.chat.messages.len() {
            one(Effect::ScrollToBottom)
        } else {
            nothing()
        };
        self.trim_live(&messages);
        self.chat.messages = messages;
        both(both(notice, fetch), scroll)
    }
}

// ---------- Group keys ----------

/// The store with one more key.
pub open spec fn key_put(pre: App, conversation: Seq<char>, key: GroupKey, post: App) -> bool {
    &&& pre.group_keys is Some
    &&& post.group_keys is Some
    &&& post == (App { group_keys: post.group_keys, ..pre })
    &&& post.group_keys->0@ == pre.group_keys->0@.insert(conversation, key)
}

/// The messages of the open chat are opened again, where it is this one.
pub open spec fn reopen(app: App, conversation: Seq<char>) -> Seq<EffectView> {
    if text_is(app.place.conversation, conversation) {
        seq![EffectView::ReopenMessages { conversation_id: conversation }]
    } else {
        Seq::empty()
    }
}

/// A store made from what was read.
pub open spec fn keys_read(keys: Seq<(String, GroupKey)>) -> Map<Seq<char>, GroupKey>
    decreases keys.len(),
{
    if keys.len() == 0 {
        Map::empty()
    } else {
        keys_read(keys.drop_last()).insert(keys.last().0@, keys.last().1)
    }
}

/// The stored keys were read: a waiting key joins them, or the key of the
/// open chat is looked for.
pub open spec fn keys_loaded(
    pre: App,
    keys: Seq<(String, GroupKey)>,
    pending: Option<PendingKey>,
    post: App,
    fx: Seq<EffectView>,
) -> bool {
    &&& post == (App { group_keys: post.group_keys, ..pre })
    &&& post.group_keys is Some
    &&& match pending {
        Some(p) => {
            &&& post.group_keys->0@ == keys_read(keys).insert(p.conversation_id@, p.key)
            &&& fx == seq![
                EffectView::StoreGroupKey { conversation_id: p.conversation_id@, key: p.key },
            ] + reopen(pre, p.conversation_id@)
        },
        None => {
            &&& post.group_keys->0@ == keys_read(keys)
            &&& fx == key_wanted(post)
        },
    }
}

/// A key arrived: it is stored and the open chat is read again; where the
/// store was not read yet, that comes first.
pub open spec fn key_loaded(
    pre: App,
    conversation: Seq<char>,
    key: GroupKey,
    post: App,
    fx: Seq<EffectView>,
) -> bool {
    if pre.group_keys is Some {
        &&& key_put(pre, conversation, key, post)
        &&& fx == seq![EffectView::StoreGroupKey { conversation_id: conversation, key }] + reopen(
            pre,
            conversation,
        )
    } else {
        &&& post == pre
        &&& match pre.session {
            Some(s) => fx == seq![
                EffectView::LoadGroupKeys {
                    user_id: s.user_id@,
                    pending: Some((conversation, key)),
                },
            ],
            None => fx == reopen(pre, conversation),
        }
    }
}

fn make_keys(keys: Vec<(String, GroupKey)>) -> (m: StrMap<GroupKey>)
    ensures
        m@ == keys_read(keys@),
{
    let mut m: StrMap<GroupKey> = StrMap::new();
    let mut i: usize = 0;
    assert(keys@.take(0) =~= Seq::<(String, GroupKey)>::empty());
    while i < keys.len()
        invariant
            i <= keys@.len(),
            m@ == keys_read(keys@.take(i as int)),
        decreases keys@.len() - i,
    {
        assert(keys@.take(i + 1).drop_last() =~= keys@.take(i as int));
        assert(keys@.take(i + 1).last() == keys@[i as int]);
        m.insert(keys[i].0.clone(), keys[i].1);
        i += 1;
    }
    assert(keys@.take(keys@.len() as int) =~= keys@);
    m
}

impl App {
    fn reopen_messages(&self, conversation: &String) -> (fx: Vec<Effect>)
        ensures
            views(fx@) == reopen(*self, conversation@),
    {
        if is_text(&self.place.conversation, conversation) {
            one(Effect::ReopenMessages { conversation_id: conversation.clone() })
        } else {
            nothing()
        }
    }

    fn set_group_keys(&mut self, keys: Vec<(String, GroupKey)>, pending: Option<PendingKey>) -> (fx:
        Vec<Effect>)
        ensures
            keys_loaded(*old(self), keys@, pending, *final(self), views(fx@)),
    {
        let mut store = make_keys(keys);
        match pending {
            Some(p) => {
                store.insert(p.conversation_id.clone(), p.key);
                self.group_keys = Some(store);
                let again = self.reopen_messages(&p.conversation_id);
                both(
                    one(
                        Effect::StoreGroupKey { conversation_id: p.conversation_id, key: p.key },
                    ),
                    again,
                )
            },
            None => {
                self.group_keys = Some(store);
                self.ensure_group_key()
            },
        }
    }

    fn add_group_key(&mut self, conversation: String, key: GroupKey) -> (fx: Vec<Effect>)
        ensures
            key_loaded(*old(self), conversation@, key, *final(self), views(fx@)),
    {
        match self.group_keys.take() {
            Some(store) => {
                let mut store = store;
                store.insert(conversation.clone(), key);
                self.group_keys = Some(store);
                let again = self.reopen_messages(&conversation);
                both(one(Effect::StoreGroupKey { conversation_id: conversation, key }), again)
            },
            None => match &self.session {
                Some(s) => one(
                    Effect::LoadGroupKeys {
                        user_id: s.user_id.clone(),
                        pending: Some((conversation, key)),
                    },
                ),
                None => self.reopen_messages(&conversation),
            },
        }
    }
}

// ---------- Messages ----------

/// What a message of the subscriptions does.
pub open spec fn feed_step(pre: App, m: FeedMessage, now: Now, post: App, fx: Seq<EffectView>) -> bool {
    match m {
        FeedMessage::ConversationsUpdated(list) => conversations_updated(pre, list, post, fx),
        FeedMessage::MarkReadFinished => post == pre && fx.len() == 0,
        FeedMessage::MessagesUpdated(list) => messages_updated(pre, list@, now, post, fx),
        FeedMessage::MessagesReopened(list) => {
            &&& post == (App { chat: Chat { messages: post.chat.messages, ..pre.chat }, ..pre })
            &&& reads_as(pre, list@, post.chat.messages@)
            &&& fx.len() == 0
        },
        FeedMessage::PinnedMessagesUpdated(list) => {
            &&& post == (App {
                chat: Chat { pinned_messages: post.chat.pinned_messages, ..pre.chat },
                ..pre
            })
            &&& reads_as(pre, list@, post.chat.pinned_messages@)
            &&& fx.len() == 0
        },
        FeedMessage::TypingUpdated(names) => {
            &&& post == (App { chat: Chat { typing_names: names, ..pre.chat }, ..pre })
            &&& fx.len() == 0
        },
        FeedMessage::TypingPingFinished => post == pre && fx.len() == 0,
        FeedMessage::AvatarImageLoaded(url, Ok(bytes)) => {
            &&& post == (App { images: post.images, ..pre })
            &&& post.images@ == pre.images@.insert(url@, bytes)
            &&& fx.len() == 0
        },
        FeedMessage::AvatarImageLoaded(_, Err(_)) => post == pre && fx.len() == 0,
        FeedMessage::GroupKeysLoaded { keys, pending } => keys_loaded(pre, keys@, pending, post, fx),
        FeedMessage::GroupKeyLoaded(conversation, key) => key_loaded(
            pre,
            conversation@,
            key,
            post,
            fx,
        ),
        FeedMessage::GroupIdentityFailed(err) => {
            &&& post == pre
            &&& fx.len() == 1
            &&& fx[0] matches EffectView::Dispatch(
                Message::Feed(FeedMessage::GroupKeyReady(Err(e))),
            ) && e@ == "Identity for group crypto: "@ + err@
        },
        FeedMessage::GroupKeyReady(Ok(())) => post == pre && fx.len() == 0,
        FeedMessage::GroupKeyReady(Err(err)) => {
            &&& post == (App { chat: Chat { error: post.chat.error, ..pre.chat }, ..pre })
            &&& text_is(post.chat.error, "Group encryption: "@ + err@)
            &&& fx.len() == 0
        },
    }
}

impl App {
    /// Handles a message of the subscriptions.
    pub fn update_feed(&mut self, m: FeedMessage, now: Now) -> (fx: Vec<Effect>)
        ensures
            feed_step(*old(self), m, now, *final(self), views(fx@)),
    {
        match m {
            FeedMessage::ConversationsUpdated(list) => self.set_conversations(list),
            FeedMessage::MarkReadFinished => nothing(),
            FeedMessage::MessagesUpdated(list) => self.set_messages(list, now),
            FeedMessage::MessagesReopened(list) => {
                self.chat.messages = self.decrypt_incoming_messages(list);
                nothing()
            },
            FeedMessage::PinnedMessagesUpdated(list) => {
                self.chat.pinned_messages = self.decrypt_incoming_messages(list);
                nothing()
            },
            FeedMessage::TypingUpdated(names) => {
                self.chat.typing_names = names;
                nothing()
            },
            FeedMessage::TypingPingFinished => nothing(),
            FeedMessage::AvatarImageLoaded(url, Ok(bytes)) => {
                self.images.insert(url, bytes);
                nothing()
            },
            FeedMessage::AvatarImageLoaded(_, Err(_)) => nothing(),
            FeedMessage::GroupKeysLoaded { keys, pending } => self.set_group_keys(keys, pending),
            FeedMessage::GroupKeyLoaded(conversation, key) => self.add_group_key(conversation, key),
            FeedMessage::GroupIdentityFailed(err) => one(
                Effect::Dispatch(
                    Message::Feed(
                        FeedMessage::GroupKeyReady(Err(cat2("Identity for group crypto: ", &err))),
                    ),
                ),
            ),
            FeedMessage::GroupKeyReady(Ok(_)) => nothing(),
            FeedMessage::GroupKeyReady(Err(err)) => {
                self.chat.error = Some(cat2("Group encryption: ", &err));
                nothing()
            },
        }
    }
}

// ---------- Laws ----------

/// No effect marks a conversation as read.
pub open spec fn marks_nothing(fx: Seq<EffectView>) -> bool {
    forall|i: int| 0 <= i < fx.len() ==> !(#[trigger] fx[i] is MarkRead)
}

/// No conversation is listed twice.
pub open spec fn listed_once(list: Seq<ConversationSummary>) -> bool {
    forall|i: int, j: int|
        0 <= i < list.len() && 0 <= j < list.len() && (#[trigger] list[i]).conversation_id@ == (
        #[trigger] list[j]).conversation_id@ ==> i == j
}

/// Marking a chat as read does not trigger itself: when the same chat list
/// arrives again, nothing is marked. Where no conversation is listed twice,
/// nothing is announced either.
pub proof fn marking_read_settles(
    pre: App,
    first: Vec<ConversationSummary>,
    mid: App,
    fx1: Seq<EffectView>,
    again: Vec<ConversationSummary>,
    post: App,
    fx2: Seq<EffectView>,
)
    requires
        conversations_updated(pre, first, mid, fx1),
        conversations_updated(mid, again, post, fx2),
        again@ == first@,
    ensures
        marks_nothing(fx2),
        listed_once(first@) ==> fx2.len() == 0,
{
    let list = first@;
    assert(to_mark(mid, list) is None) by {
        match pre.place.conversation {
            Some(c) => {
                lemma_position(list, c@);
            },
            None => {},
        }
    }
    if listed_once(list) {
        lemma_seen(pre.inbox.seen_last_message_at@, list);
        lemma_no_news(mid, list, list.len() as int);
    }
}

/// The conversation is a channel of the open server that is muted.
pub open spec fn is_muted(channels: Seq<ChannelSummary>, c: ConversationSummary) -> bool {
    exists|i: int|
        0 <= i < channels.len() && (#[trigger] channels[i]).muted && channels[i].conversation_id@
            == c.conversation_id@
}

/// Muted channels are silent: where every chat with news is one, a fresh chat
/// list announces nothing.
pub proof fn muted_channels_are_silent(
    pre: App,
    list: Vec<ConversationSummary>,
    post: App,
    fx: Seq<EffectView>,
)
    requires
        conversations_updated(pre, list, post, fx),
        forall|j: int|
            0 <= j < list@.len() && has_news(pre, #[trigger] list@[j]) ==> is_muted(
                pre.servers.channels@,
                list@[j],
            ),
    ensures
        forall|k: int| 0 <= k < fx.len() ==> (#[trigger] fx[k]) is MarkRead,
{
    lemma_news_row(pre, list@);
    match first_news(pre, list@) {
        Some(t) => {
            let j = choose|j: int|
                0 <= j < list@.len() && has_news(pre, #[trigger] list@[j]) && list@[j].title@ == t;
            let channels = pre.servers.channels@;
            let i = choose|i: int|
                0 <= i < channels.len() && (#[trigger] channels[i]).muted
                    && channels[i].conversation_id@ == list@[j].conversation_id@;
            assert(channels[i].muted && list@[j].title@ == t);
        },
        None => {},
    }
}

proof fn lemma_news_row(app: App, list: Seq<ConversationSummary>)
    ensures
        match first_news(app, list) {
            Some(t) => exists|j: int|
                0 <= j < list.len() && has_news(app, #[trigger] list[j]) && list[j].title@ == t,
            None => true,
        },
    decreases list.len(),
{
    if list.len() > 0 {
        let before = list.drop_last();
        lemma_news_row(app, before);
        match first_news(app, before) {
            Some(t) => {
                let j = choose|j: int|
                    0 <= j < before.len() && has_news(app, #[trigger] before[j])
                        && before[j].title@ == t;
                assert(list[j] == before[j]);
            },
            None => {
                assert(list[list.len() - 1] == list.last());
            },
        }
    }
}

proof fn lemma_seen(seen: Map<Seq<char>, i64>, list: Seq<ConversationSummary>)
    requires
        listed_once(list),
    ensures
        forall|i: int|
            0 <= i < list.len() ==> stamp(
                seen_after(seen, list),
                (#[trigger] list[i]).conversation_id@,
            ) == list[i].last_message_at,
    decreases list.len(),
{
    if list.len() > 0 {
        let t = list.drop_last();
        assert forall|i: int, j: int|
            0 <= i < t.len() && 0 <= j < t.len() && (#[trigger] t[i]).conversation_id@ == (
            #[trigger] t[j]).conversation_id@ implies i == j by {
            assert(t[i] == list[i] && t[j] == list[j]);
        }
        lemma_seen(seen, t);
        assert forall|i: int| 0 <= i < list.len() implies stamp(
            seen_after(seen, list),
            (#[trigger] list[i]).conversation_id@,
        ) == list[i].last_message_at by {
            if i < t.len() {
                assert(t[i] == list[i]);
                assert(list[i].conversation_id@ != list[list.len() - 1].conversation_id@);
            }
        }
    }
}

proof fn lemma_no_news(app: App, list: Seq<ConversationSummary>, n: int)
    requires
        0 <= n <= list.len(),
        forall|i: int|
            0 <= i < list.len() ==> stamp(
                app.inbox.seen_last_message_at@,
                (#[trigger] list[i]).conversation_id@,
            ) == list[i].last_message_at,
    ensures
        first_news(app, list.take(n)) is None,
        n == list.len() ==> first_news(app, list) is None,
    decreases n,
{
    if n > 0 {
        lemma_no_news(app, list, n - 1);
        assert(list.take(n).drop_last() =~= list.take(n - 1));
        assert(list.take(n).last() == list[n - 1]);
    }
    if n == list.len() {
        assert(list.take(n) =~= list);
    }
}

} // verus!
