//! What arrives in the open chat, and what is announced.

use crate::state::app::{fetches, App, ImageJobView, Now};
use crate::state::effect::EffectView;
use crate::state::feed::{
    echo, echoed, first_news, first_ping, keys_read, message_jobs, news, not_stored, open_live,
    ping_notice, pings_us, seen_after, stamp, stored_in,
};
use crate::state::keyed::{lemma_position, lemma_position_is};
use crate::state::message::{FeedMessage, Message};
use crate::state::types::{ChatMessage, ConversationSummary, GroupKey};
use crate::state::update::step;
use crate::text::text_is;
use crate::ui::mentions::{pings, pings_everyone};
use vstd::prelude::*;

verus! {

/// `stored` is what the backend kept of a live message: the same author and
/// text, both with or both without an attachment, less than two minutes apart.
pub open spec fn copy_of(live: ChatMessage, stored: ChatMessage) -> bool {
    &&& live.author_id@ == stored.author_id@
    &&& live.body@ == stored.body@
    &&& live.sent_at - stored.sent_at < 120_000
    &&& stored.sent_at - live.sent_at < 120_000
    &&& live.attachment_url@.len() == 0 <==> stored.attachment_url@.len() == 0
}

/// One of the messages is the copy of a live message.
pub open spec fn has_copy(live: ChatMessage, stored: Seq<ChatMessage>) -> bool {
    exists|i: int| 0 <= i < stored.len() && copy_of(live, #[trigger] stored[i])
}

proof fn lemma_not_stored(live: Seq<ChatMessage>, stored: Seq<ChatMessage>)
    ensures
        not_stored(live, stored) == live.filter(|m: ChatMessage| !has_copy(m, stored)),
        stored.len() == 0 ==> not_stored(live, stored) == live,
        forall|m: ChatMessage|
            #![trigger not_stored(live, stored).contains(m)]
            not_stored(live, stored).contains(m) <==> live.contains(m) && !has_copy(m, stored),
    decreases live.len(),
{
    reveal(Seq::filter);
    if live.len() > 0 {
        let t = live.drop_last();
        let before = not_stored(t, stored);
        let r = not_stored(live, stored);
        lemma_not_stored(t, stored);
        assert(stored_in(live.last(), stored) == has_copy(live.last(), stored))
            by {
            if stored_in(live.last(), stored) {
                let i = choose|i: int|
                    0 <= i < stored.len() && echo(
                        live.last(),
                        #[trigger] stored[i],
                    ) && (stored[i].attachment_url@.len() == 0) == (live.last().attachment_url@.len()
                        == 0);
                assert(copy_of(live.last(), stored[i]));
            }
            if has_copy(live.last(), stored) {
                let i = choose|i: int|
                    0 <= i < stored.len() && copy_of(live.last(), #[trigger] stored[i]);
                assert(echo(live.last(), stored[i]));
            }
        }
        if stored.len() == 0 {
            assert(t.push(live.last()) =~= live);
        }
        assert forall|m: ChatMessage| r.contains(m) <==> live.contains(m) && !has_copy(m, stored) by {
            if r.contains(m) {
                let k = choose|k: int| 0 <= k < r.len() && r[k] == m;
                if k < before.len() {
                    assert(before[k] == m);
                    assert(before.contains(m));
                    let j = choose|j: int| 0 <= j < t.len() && t[j] == m;
                    assert(live[j] == m);
                } else {
                    assert(live[live.len() - 1] == m);
                }
            }
            if live.contains(m) && !has_copy(m, stored) {
                let j = choose|j: int| 0 <= j < live.len() && live[j] == m;
                if j < t.len() {
                    assert(t[j] == m);
                    assert(before.contains(m));
                    let k = choose|k: int| 0 <= k < before.len() && before[k] == m;
                    assert(r[k] == m);
                } else {
                    assert(r[r.len() - 1] == m);
                }
            }
        }
    }
}

/// What went over the live channel stays on screen until it is stored: with
/// every list of stored messages, exactly the live messages of the open DM
/// that have a copy among them leave, the rest stay in order, and no other
/// friend's messages change.
pub proof fn unstored_messages_stay(
    pre: App,
    m: FeedMessage,
    now: Now,
    post: App,
    fx: Seq<EffectView>,
    friend: Seq<char>,
)
    requires
        step(pre, Message::Feed(m), now, post, fx),
        m is MessagesUpdated,
    ensures
        post.peers.live@.contains_key(friend) <==> pre.peers.live@.contains_key(friend),
        pre.peers.live@.contains_key(friend) && !text_is(pre.place.peer_id, friend)
            ==> post.peers.live@[friend] == pre.peers.live@[friend],
        pre.peers.live@.contains_key(friend) && text_is(pre.place.peer_id, friend) ==> {
            let live = pre.peers.live@[friend]@;
            let stored = post.chat.messages@;
            let left = post.peers.live@[friend]@;
            &&& left == live.filter(|l: ChatMessage| !has_copy(l, stored))
            &&& forall|l: ChatMessage|
                #![trigger left.contains(l)]
                left.contains(l) <==> live.contains(l) && !has_copy(l, stored)
            &&& stored.len() == 0 ==> left == live
        },
        post.peers.connected == pre.peers.connected,
        post.peers.channels == pre.peers.channels,
{
    if pre.peers.live@.contains_key(friend) && text_is(pre.place.peer_id, friend) {
        lemma_not_stored(pre.peers.live@[friend]@, post.chat.messages@);
    }
}

/// The messages of a chat whose members share a key.
pub open spec fn in_sealed_chat(app: App) -> bool {
    app.place.conversation is Some && (text_is(app.place.kind, "group"@) || text_is(
        app.place.kind,
        "channel"@,
    ) || text_is(app.place.kind, "voice"@))
}

/// The key of the open chat is known.
pub open spec fn has_key(app: App) -> bool {
    app.place.conversation is Some && app.group_keys is Some && app.group_keys->0@.contains_key(
        app.place.conversation->0@,
    )
}

/// Messages are shown one for one, in order, with whoever wrote them and when.
/// Where no key is shared they are shown as they came. Where one is, a sealed
/// text is shown opened, or else the line that says that it could not be; what
/// was not sealed is shown as it came. So it is with the line that a message
/// answers, of which no more than eighty characters are shown.
pub proof fn messages_are_shown_opened(
    pre: App,
    m: FeedMessage,
    now: Now,
    post: App,
    fx: Seq<EffectView>,
    i: int,
)
    requires
        step(pre, Message::Feed(m), now, post, fx),
        m is MessagesUpdated,
        0 <= i < m->MessagesUpdated_0@.len(),
    ensures
        post.chat.messages@.len() == m->MessagesUpdated_0@.len(),
        ({
            let came = m->MessagesUpdated_0@[i];
            let shown = post.chat.messages@[i];
            &&& shown.id == came.message.id
            &&& shown.author_id == came.message.author_id
            &&& shown.author_name == came.message.author_name
            &&& shown.sent_at == came.message.sent_at
            &&& shown.kind == came.message.kind
            &&& shown.deleted == came.message.deleted
            &&& shown.edited == came.message.edited
            &&& shown.pinned == came.message.pinned
            &&& shown.attachment_url == came.message.attachment_url
            &&& shown.reactions == came.message.reactions
            &&& !in_sealed_chat(pre) ==> shown == came.message
            &&& in_sealed_chat(pre) && (!came.message.encrypted || came.message.deleted
                || came.message.kind@ == "call"@ || !came.body.sealed) ==> shown.body
                == came.message.body
            &&& in_sealed_chat(pre) && came.message.encrypted && !came.message.deleted
                && came.message.kind@ != "call"@ && came.body.sealed ==> if has_key(pre)
                && came.body.opened is Some {
                &&& shown.body == came.body.opened->0.text
                &&& shown.attachment_key == came.body.opened->0.attachment_key
                &&& shown.attachment_nonce == came.body.opened->0.attachment_nonce
            } else {
                &&& shown.body@ == pre.config.decrypt_failed@
                &&& shown.attachment_key is None
                &&& shown.attachment_nonce is None
            }
            &&& shown.reply_to is Some <==> came.message.reply_to is Some
            &&& shown.reply_to is Some ==> {
                let answered = shown.reply_to->0;
                let given = came.message.reply_to->0;
                let plain = came.snippet.opened->0.text@;
                &&& answered.0@ == given.0@
                &&& !in_sealed_chat(pre) || !came.snippet.sealed ==> answered.1@ == given.1@
                &&& in_sealed_chat(pre) && came.snippet.sealed && !(has_key(pre)
                    && came.snippet.opened is Some) ==> answered.1@ == pre.config.decrypt_failed@
                &&& in_sealed_chat(pre) && came.snippet.sealed && has_key(pre)
                    && came.snippet.opened is Some ==> {
                    &&& plain.len() <= 80 ==> answered.1@ == plain
                    &&& plain.len() > 80 ==> answered.1@.len() == 81 && answered.1@.last()
                        == '\u{2026}' && answered.1@.drop_last() == plain.take(80)
                }
            }
        }),
{
}

/// A message that calls for our attention: someone else wrote it just now, it
/// was not seen before, neither stored nor live, and it names us, or everyone
/// where that counts.
pub open spec fn calls_for_us(app: App, m: ChatMessage, now: Now) -> bool {
    &&& app.session is Some ==> m.author_id@ != app.session->0.user_id@
    &&& app.session is None ==> m.author_id@.len() > 0
    &&& m.kind@ != "call"@
    &&& !m.deleted
    &&& -120_000 <= now.unix_ms - m.sent_at <= 120_000
    &&& forall|i: int|
        0 <= i < app.chat.messages@.len() ==> (#[trigger] app.chat.messages@[i]).id@ != m.id@
    &&& app.place.peer_id is Some && app.peers.live@.contains_key(app.place.peer_id->0@)
        ==> forall|i: int|
        0 <= i < app.peers.live@[app.place.peer_id->0@]@.len() ==> {
            let l = #[trigger] app.peers.live@[app.place.peer_id->0@]@[i];
            l.author_id@ != m.author_id@ || l.body@ != m.body@ || l.sent_at - m.sent_at >= 120_000
                || m.sent_at - l.sent_at >= 120_000
        }
    &&& ({
        ||| app.session is Some && pings(
            m.body@,
            seq![app.session->0.display_name@, app.session->0.username@],
        )
        ||| app.session is None && pings(m.body@, Seq::empty())
        ||| (text_is(app.place.kind, "channel"@) || text_is(app.place.kind, "group"@))
            && pings_everyone(m.body@)
    })
}

proof fn lemma_calls(app: App, m: ChatMessage, now: Now)
    ensures
        pings_us(app, m, now) == calls_for_us(app, m, now),
{
    assert(m.author_id@.len() == 0 <==> m.author_id@ =~= Seq::<char>::empty());
    if pings_us(app, m, now) {
        assert(calls_for_us(app, m, now)) by {
            assert forall|i: int| 0 <= i < app.chat.messages@.len() implies (
            #[trigger] app.chat.messages@[i]).id@ != m.id@ by {}
            if app.place.peer_id is Some && app.peers.live@.contains_key(app.place.peer_id->0@) {
                let live = app.peers.live@[app.place.peer_id->0@]@;
                assert forall|i: int| 0 <= i < live.len() implies {
                    let l = #[trigger] live[i];
                    l.author_id@ != m.author_id@ || l.body@ != m.body@ || l.sent_at - m.sent_at
                        >= 120_000 || m.sent_at - l.sent_at >= 120_000
                } by {
                    assert(!echo(live[i], m));
                }
            }
        }
    }
    if calls_for_us(app, m, now) {
        assert(!echoed(open_live(app), m)) by {
            let live = open_live(app);
            assert forall|i: int| 0 <= i < live.len() implies !echo(
                #[trigger] live[i],
                m,
            ) by {
                if app.place.peer_id is Some && app.peers.live@.contains_key(
                    app.place.peer_id->0@,
                ) {
                    assert(app.peers.live@[app.place.peer_id->0@]@[i] == live[i]);
                }
            }
        }
    }
}

proof fn lemma_first_ping(app: App, list: Seq<ChatMessage>, now: Now)
    ensures
        match first_ping(app, list, now) {
            Some(m) => list.contains(m) && calls_for_us(app, m, now),
            None => forall|i: int|
                0 <= i < list.len() ==> !calls_for_us(app, #[trigger] list[i], now),
        },
    decreases list.len(),
{
    if list.len() > 0 {
        let t = list.drop_last();
        lemma_first_ping(app, t, now);
        lemma_calls(app, list.last(), now);
        match first_ping(app, t, now) {
            Some(m) => {
                let i = choose|i: int| 0 <= i < t.len() && t[i] == m;
                assert(list[i] == m);
            },
            None => {
                if pings_us(app, list.last(), now) {
                    assert(list[list.len() - 1] == list.last());
                } else {
                    assert forall|i: int| 0 <= i < list.len() implies !calls_for_us(
                        app,
                        #[trigger] list[i],
                        now,
                    ) by {
                        if i < t.len() {
                            assert(!calls_for_us(app, t[i], now));
                        }
                    }
                }
            },
        }
    }
}

proof fn lemma_fetch_kinds(images: Map<Seq<char>, Vec<u8>>, jobs: Seq<ImageJobView>)
    ensures
        forall|i: int|
            0 <= i < fetches(images, jobs).len() ==> {
                let e = #[trigger] fetches(images, jobs)[i];
                !(e is NotifyPing) && !(e is Notify) && !(e is ScrollToBottom)
            },
    decreases jobs.len(),
{
    if jobs.len() > 0 {
        lemma_fetch_kinds(images, jobs.drop_last());
    }
}

/// We hear of a fresh message that calls for us exactly while the window is
/// not in front: once, with the name of whoever wrote one of those. The view
/// follows only where messages were added.
pub proof fn mentions_are_announced(
    pre: App,
    m: FeedMessage,
    now: Now,
    post: App,
    fx: Seq<EffectView>,
)
    requires
        step(pre, Message::Feed(m), now, post, fx),
        m is MessagesUpdated,
    ensures
        fx.contains(EffectView::NotifyPing) <==> !pre.window.window_focused && exists|i: int|
            0 <= i < post.chat.messages@.len() && calls_for_us(
                pre,
                #[trigger] post.chat.messages@[i],
                now,
            ),
        forall|k: int|
            0 <= k < fx.len() && (#[trigger] fx[k]) is Notify ==> exists|i: int|
                0 <= i < post.chat.messages@.len() && calls_for_us(
                    pre,
                    #[trigger] post.chat.messages@[i],
                    now,
                ) && fx[k]->Notify_title == post.chat.messages@[i].author_name@ + " mentioned you"@,
        fx.contains(EffectView::ScrollToBottom) <==> post.chat.messages@.len()
            > pre.chat.messages@.len(),
{
    let list = post.chat.messages@;
    lemma_first_ping(pre, list, now);
    let a = ping_notice(pre, list, now);
    let b = fetches(pre.images@, message_jobs(list));
    lemma_fetch_kinds(pre.images@, message_jobs(list));
    assert forall|k: int| 0 <= k < fx.len() implies (k < a.len() ==> #[trigger] fx[k] == a[k]) && (
    a.len() <= k < a.len() + b.len() ==> fx[k] == b[k - a.len()]) by {}
    if a.len() > 0 {
        assert(fx[0] == EffectView::NotifyPing);
        let p = first_ping(pre, list, now)->0;
        let i = choose|i: int| 0 <= i < list.len() && list[i] == p;
        assert(calls_for_us(pre, list[i], now));
    }
    if list.len() > pre.chat.messages@.len() {
        assert(fx[fx.len() - 1] == EffectView::ScrollToBottom);
    }
    assert forall|k: int| 0 <= k < fx.len() && (#[trigger] fx[k]) is Notify implies exists|i: int|
        0 <= i < list.len() && calls_for_us(pre, #[trigger] list[i], now) && fx[k]->Notify_title
            == list[i].author_name@ + " mentioned you"@ by {
        assert(k == 1 && a.len() == 2);
        let p = first_ping(pre, list, now)->0;
        let i = choose|i: int| 0 <= i < list.len() && list[i] == p;
        assert(calls_for_us(pre, list[i], now));
    }
}

proof fn lemma_first_news(app: App, list: Seq<ConversationSummary>)
    ensures
        match first_news(app, list) {
            Some(t) => exists|i: int|
                0 <= i < list.len() && fresh(app, #[trigger] list[i]) && list[i].title@ == t,
            None => forall|i: int| 0 <= i < list.len() ==> !fresh(app, #[trigger] list[i]),
        },
    decreases list.len(),
{
    if list.len() > 0 {
        let t = list.drop_last();
        lemma_first_news(app, t);
        match first_news(app, t) {
            Some(w) => {
                let i = choose|i: int|
                    0 <= i < t.len() && fresh(app, #[trigger] t[i]) && t[i].title@ == w;
                assert(fresh(app, list[i]));
            },
            None => {
                if fresh(app, list.last()) {
                    assert(fresh(app, list[list.len() - 1]));
                } else {
                    assert forall|i: int| 0 <= i < list.len() implies !fresh(
                        app,
                        #[trigger] list[i],
                    ) by {
                        if i < t.len() {
                            assert(!fresh(app, t[i]));
                        }
                    }
                }
            },
        }
    }
}

/// A chat that we do not look at has a message that is newer than what was
/// last seen of it.
pub open spec fn fresh(app: App, c: ConversationSummary) -> bool {
    &&& !text_is(app.place.conversation, c.conversation_id@)
    &&& app.inbox.seen_last_message_at@.contains_key(c.conversation_id@)
    &&& app.inbox.seen_last_message_at@[c.conversation_id@] > 0
    &&& c.last_message_at > app.inbox.seen_last_message_at@[c.conversation_id@]
}

proof fn lemma_seen(seen: Map<Seq<char>, i64>, list: Seq<ConversationSummary>, k: int)
    requires
        0 <= k < list.len(),
        forall|j: int|
            k < j < list.len() ==> (#[trigger] list[j]).conversation_id@ != list[k].conversation_id@,
    ensures
        seen_after(seen, list).contains_key(list[k].conversation_id@),
        seen_after(seen, list)[list[k].conversation_id@] == list[k].last_message_at,
    decreases list.len(),
{
    if k < list.len() - 1 {
        let t = list.drop_last();
        assert forall|j: int| k < j < t.len() implies (#[trigger] t[j]).conversation_id@
            != t[k].conversation_id@ by {
            assert(list[j].conversation_id@ != list[k].conversation_id@);
        }
        lemma_seen(seen, t, k);
        assert(list[list.len() - 1].conversation_id@ != list[k].conversation_id@);
    }
}

/// A fresh chat list is shown as it is, and what it says of the last message of
/// each chat counts as seen. A notification names a chat that has news while
/// we look elsewhere; none comes with the first list.
pub proof fn news_come_from_elsewhere(
    pre: App,
    list: Vec<ConversationSummary>,
    now: Now,
    post: App,
    fx: Seq<EffectView>,
    k: int,
)
    requires
        step(pre, Message::Feed(FeedMessage::ConversationsUpdated(list)), now, post, fx),
    ensures
        post.inbox.conversations == list,
        post.inbox.loaded,
        0 <= k < list@.len() && (forall|j: int|
            k < j < list@.len() ==> (#[trigger] list@[j]).conversation_id@
                != list@[k].conversation_id@) ==> post.inbox.seen_last_message_at@.contains_key(
            list@[k].conversation_id@,
        ) && post.inbox.seen_last_message_at@[list@[k].conversation_id@] == list@[k].last_message_at,
        forall|n: int|
            0 <= n < fx.len() && (#[trigger] fx[n]) is Notify ==> exists|i: int|
                0 <= i < list@.len() && fresh(pre, #[trigger] list@[i]) && fx[n]->Notify_body
                    == "New message · "@ + list@[i].title@,
        !pre.inbox.loaded ==> !fx.contains(EffectView::NotifyPing),
        pre.inbox.loaded && pre.servers.channels@.len() == 0 ==> (fx.contains(
            EffectView::NotifyPing,
        ) <==> exists|i: int| 0 <= i < list@.len() && fresh(pre, #[trigger] list@[i])),
        post.chat == pre.chat,
        post.place == pre.place,
{
    lemma_first_news(pre, list@);
    if 0 <= k < list@.len() && (forall|j: int|
        k < j < list@.len() ==> (#[trigger] list@[j]).conversation_id@ != list@[k].conversation_id@) {
        lemma_seen(pre.inbox.seen_last_message_at@, list@, k);
    }
    let a = news(pre, list@);
    assert forall|n: int| 0 <= n < a.len() implies #[trigger] fx[n] == a[n] by {}
    if a.len() > 0 {
        assert(fx[0] == EffectView::NotifyPing);
    }
    if fx.contains(EffectView::NotifyPing) {
        let n = choose|n: int| 0 <= n < fx.len() && fx[n] == EffectView::NotifyPing;
        assert(n < a.len());
    }
    assert forall|n: int| 0 <= n < fx.len() && (#[trigger] fx[n]) is Notify implies exists|i: int|
        0 <= i < list@.len() && fresh(pre, #[trigger] list@[i]) && fx[n]->Notify_body == "New message · "@
            + list@[i].title@ by {
        assert(n == 1 && a.len() == 2);
        let t = first_news(pre, list@)->0;
        let i = choose|i: int|
            0 <= i < list@.len() && fresh(pre, #[trigger] list@[i]) && list@[i].title@ == t;
        assert(fresh(pre, list@[i]));
    }
}

/// The open chat is marked as read exactly where the list says that something
/// in it is unread, newer than what was marked before; no other chat is.
pub proof fn only_the_open_chat_is_marked(
    pre: App,
    list: Vec<ConversationSummary>,
    now: Now,
    post: App,
    fx: Seq<EffectView>,
    k: int,
)
    requires
        step(pre, Message::Feed(FeedMessage::ConversationsUpdated(list)), now, post, fx),
    ensures
        forall|n: int|
            0 <= n < fx.len() && (#[trigger] fx[n]) is MarkRead ==> text_is(
                pre.place.conversation,
                fx[n]->MarkRead_conversation_id,
            ),
        0 <= k < list@.len() && text_is(pre.place.conversation, list@[k].conversation_id@) && (
        forall|j: int|
            0 <= j < k ==> (#[trigger] list@[j]).conversation_id@ != list@[k].conversation_id@) ==> {
            let id = list@[k].conversation_id@;
            let marked = pre.inbox.last_marked_read_at@;
            fx.contains(EffectView::MarkRead { conversation_id: id }) <==> list@[k].unread
                && list@[k].last_message_at > if marked.contains_key(id) {
                marked[id]
            } else {
                0
            }
        },
{
    let a = news(pre, list@);
    assert forall|n: int| 0 <= n < a.len() implies #[trigger] fx[n] == a[n] by {}
    if pre.place.conversation is Some {
        lemma_position(list@, pre.place.conversation->0@);
    }
    if 0 <= k < list@.len() && text_is(pre.place.conversation, list@[k].conversation_id@) && (
    forall|j: int|
        0 <= j < k ==> (#[trigger] list@[j]).conversation_id@ != list@[k].conversation_id@) {
        let id = list@[k].conversation_id@;
        lemma_position_is(list@, id, k);
        if list@[k].unread && list@[k].last_message_at > stamp(
            pre.inbox.last_marked_read_at@,
            id,
        ) {
            assert(fx[fx.len() - 1] == EffectView::MarkRead { conversation_id: id });
        }
        if fx.contains(EffectView::MarkRead { conversation_id: id }) {
            let n = choose|n: int|
                0 <= n < fx.len() && fx[n] == EffectView::MarkRead { conversation_id: id };
            assert(n >= a.len());
        }
    }
}

/// A key that arrives belongs to its chat and to no other, and the open chat
/// is read again where it is that one.
pub proof fn keys_go_to_their_chat(
    pre: App,
    m: FeedMessage,
    now: Now,
    post: App,
    fx: Seq<EffectView>,
    other: Seq<char>,
)
    requires
        step(pre, Message::Feed(m), now, post, fx),
        m is GroupKeyLoaded,
        pre.group_keys is Some,
        other != m->GroupKeyLoaded_0@,
    ensures
        post.group_keys is Some,
        post.group_keys->0@.contains_key(m->GroupKeyLoaded_0@),
        post.group_keys->0@[m->GroupKeyLoaded_0@] == m->GroupKeyLoaded_1,
        post.group_keys->0@.contains_key(other) <==> pre.group_keys->0@.contains_key(other),
        pre.group_keys->0@.contains_key(other) ==> post.group_keys->0@[other]
            == pre.group_keys->0@[other],
        fx.contains(
            EffectView::StoreGroupKey {
                conversation_id: m->GroupKeyLoaded_0@,
                key: m->GroupKeyLoaded_1,
            },
        ),
        fx.contains(
            EffectView::ReopenMessages { conversation_id: m->GroupKeyLoaded_0@ },
        ) <==> text_is(pre.place.conversation, m->GroupKeyLoaded_0@),
        post.chat == pre.chat,
{
    assert(fx[0] == EffectView::StoreGroupKey {
        conversation_id: m->GroupKeyLoaded_0@,
        key: m->GroupKeyLoaded_1,
    });
    if text_is(pre.place.conversation, m->GroupKeyLoaded_0@) {
        assert(fx[1] == EffectView::ReopenMessages { conversation_id: m->GroupKeyLoaded_0@ });
    }
}

proof fn lemma_keys_read(keys: Seq<(String, GroupKey)>, k: int)
    requires
        0 <= k < keys.len(),
        forall|j: int| k < j < keys.len() ==> (#[trigger] keys[j]).0@ != keys[k].0@,
    ensures
        keys_read(keys).contains_key(keys[k].0@),
        keys_read(keys)[keys[k].0@] == keys[k].1,
    decreases keys.len(),
{
    if k < keys.len() - 1 {
        let t = keys.drop_last();
        assert forall|j: int| k < j < t.len() implies (#[trigger] t[j]).0@ != t[k].0@ by {
            assert(keys[j].0@ != keys[k].0@);
        }
        lemma_keys_read(t, k);
        assert(keys[keys.len() - 1].0@ != keys[k].0@);
    }
}

/// Stored keys are read back each for its chat.
pub proof fn stored_keys_are_read(
    pre: App,
    m: FeedMessage,
    now: Now,
    post: App,
    fx: Seq<EffectView>,
    k: int,
)
    requires
        step(pre, Message::Feed(m), now, post, fx),
        m is GroupKeysLoaded,
        0 <= k < m->GroupKeysLoaded_keys@.len(),
        forall|j: int|
            k < j < m->GroupKeysLoaded_keys@.len() ==> (#[trigger] m->GroupKeysLoaded_keys@[j]).0@
                != m->GroupKeysLoaded_keys@[k].0@,
    ensures
        post.group_keys is Some,
        ({
            let kept = m->GroupKeysLoaded_keys@[k];
            let waiting = m->GroupKeysLoaded_pending;
            &&& post.group_keys->0@.contains_key(kept.0@)
            &&& waiting is None || waiting->0.conversation_id@ != kept.0@
                ==> post.group_keys->0@[kept.0@] == kept.1
            &&& waiting is Some ==> post.group_keys->0@.contains_key(waiting->0.conversation_id@)
                && post.group_keys->0@[waiting->0.conversation_id@] == waiting->0.key
        }),
{
    lemma_keys_read(m->GroupKeysLoaded_keys@, k);
}

/// What else the subscriptions bring: who types, the pinned messages, and
/// pictures, each kept where it is looked for.
pub proof fn the_rest_of_the_feed(
    pre: App,
    m: FeedMessage,
    now: Now,
    post: App,
    fx: Seq<EffectView>,
    url: Seq<char>,
)
    requires
        step(pre, Message::Feed(m), now, post, fx),
    ensures
        m is TypingUpdated ==> post.chat.typing_names == m->TypingUpdated_0 && post.chat.messages
            == pre.chat.messages && fx.len() == 0,
        m is PinnedMessagesUpdated ==> post.chat.pinned_messages@.len()
            == m->PinnedMessagesUpdated_0@.len() && post.chat.messages == pre.chat.messages
            && forall|i: int|
            0 <= i < m->PinnedMessagesUpdated_0@.len() ==> (#[trigger] post.chat.pinned_messages@[i]).id
                == m->PinnedMessagesUpdated_0@[i].message.id,
        m is MessagesReopened ==> post.peers == pre.peers && fx.len() == 0
            && post.chat.messages@.len() == m->MessagesReopened_0@.len(),
        m is AvatarImageLoaded && m->AvatarImageLoaded_1 is Ok ==> {
            &&& post.images@.contains_key(m->AvatarImageLoaded_0@)
            &&& post.images@[m->AvatarImageLoaded_0@] == m->AvatarImageLoaded_1->Ok_0
            &&& url != m->AvatarImageLoaded_0@ ==> (post.images@.contains_key(url)
                <==> pre.images@.contains_key(url))
            &&& url != m->AvatarImageLoaded_0@ && pre.images@.contains_key(url)
                ==> post.images@[url] == pre.images@[url]
        },
        m is AvatarImageLoaded && m->AvatarImageLoaded_1 is Err ==> post == pre,
        m is GroupKeyReady && m->GroupKeyReady_0 is Err ==> text_is(
            post.chat.error,
            "Group encryption: "@ + m->GroupKeyReady_0->Err_0@,
        ) && post.chat.messages == pre.chat.messages,
{
    if m is PinnedMessagesUpdated {
        assert forall|i: int| 0 <= i < m->PinnedMessagesUpdated_0@.len() implies (
        #[trigger] post.chat.pinned_messages@[i]).id == m->PinnedMessagesUpdated_0@[i].message.id by {
            let came = m->PinnedMessagesUpdated_0@[i];
        }
    }
}

} // verus!
