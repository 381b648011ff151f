//! Whom the composer offers behind an `@`, and whom a message names.

use crate::state::app::{App, Now};
use crate::state::effect::EffectView;
use crate::state::keyed::lemma_position_is;
use crate::state::message::{ComposeMessage, Message};
use crate::state::types::{Friend, ServerMemberRow};
use crate::state::update::step;
use crate::strmap::{text_less, texts};
use crate::text::{alphanumeric, lowercase, stands_at, text_is, trimmed};
use crate::ui::mentions::{
    completed, lowercases, offered, offers, open_token, sorted_offers, suggestions_are_candidates,
    suggests, token_of,
};
use vstd::prelude::*;

verus! {

/// The text ends in an `@` and what was typed behind it of a name: a short
/// rest of the line, with no letter, digit or `_` before the `@`.
pub open spec fn types_name(input: Seq<char>, typed: Seq<char>) -> bool {
    let at = input.len() - typed.len() - 1;
    &&& at >= 0
    &&& input[at] == '@'
    &&& input.skip(at + 1) == typed
    &&& at == 0 || !(alphanumeric(input[at - 1]) || input[at - 1] == '_')
    &&& !typed.contains('@')
    &&& !typed.contains('\n')
    &&& typed.len() <= 24
}

/// The name starts with what was typed, in whatever case.
pub open spec fn fits(name: Seq<char>, typed: Seq<char>) -> bool {
    let low = lowercase(trimmed(name));
    &&& trimmed(name).len() > 0
    &&& lowercase(typed).len() <= low.len()
    &&& low.take(lowercase(typed).len() as int) == lowercase(typed)
}

/// The name is on the list, whatever its case, unless the list is full of
/// names that come before it.
pub open spec fn listed(name: Seq<char>, shown: Seq<Seq<char>>) -> bool {
    let low = lowercase(trimmed(name));
    ||| exists|i: int| 0 <= i < shown.len() && lowercase(#[trigger] shown[i]) == low
    ||| shown.len() == 8 && forall|i: int|
        0 <= i < shown.len() ==> text_less(lowercase(#[trigger] shown[i]), low)
}

/// One of the names, without the space around it.
pub open spec fn one_of(shown: Seq<char>, names: Seq<Seq<char>>) -> bool {
    exists|i: int| 0 <= i < names.len() && trimmed(#[trigger] names[i]) == shown
}

proof fn lemma_token(input: Seq<char>, typed: Seq<char>)
    requires
        types_name(input, typed),
    ensures
        token_of(input) is Some,
        (token_of(input)->0).1 == typed,
        open_token(input, input.len() - typed.len() - 1),
        forall|p: int| open_token(input, p) ==> p == input.len() - typed.len() - 1,
{
    let at = input.len() - typed.len() - 1;
    assert(input.subrange(at + 1, input.len() as int) =~= typed);
    assert forall|j: int| at < j < input.len() implies #[trigger] input[j] != '@' by {
        assert(typed[j - at - 1] == input[j]);
    }
    assert(open_token(input, at));
    assert forall|p: int| open_token(input, p) implies p == at by {
        if p < at {
            assert(input[at] != '@');
        }
        if p > at {
            assert(input[p] != '@');
        }
    }
}

proof fn lemma_offered(low: Seq<char>, cands: Seq<Seq<char>>, k: int)
    requires
        0 <= k < cands.len(),
        offered(low, cands[k]),
    ensures
        lowercases(offers(low, cands)).contains(lowercase(trimmed(cands[k]))),
    decreases cands.len(),
{
    let t = cands.drop_last();
    let before = offers(low, t);
    let all = offers(low, cands);
    let want = lowercase(trimmed(cands[k]));
    if k < t.len() {
        lemma_offered(low, t, k);
        let i = choose|i: int| 0 <= i < lowercases(before).len() && lowercases(before)[i] == want;
        assert(all[i] == before[i]);
        assert(lowercases(all)[i] == want);
    } else if lowercases(before).contains(want) {
        let i = choose|i: int| 0 <= i < lowercases(before).len() && lowercases(before)[i] == want;
        assert(all[i] == before[i]);
        assert(lowercases(all)[i] == want);
    } else {
        assert(lowercases(all)[all.len() - 1] == want);
    }
}

proof fn lemma_listed(
    input: Seq<char>,
    typed: Seq<char>,
    cands: Seq<Seq<char>>,
    shown: Seq<Seq<char>>,
    k: int,
)
    requires
        suggests(input, cands, 8, shown),
        types_name(input, typed),
        0 <= k < cands.len(),
        fits(cands[k], typed),
    ensures
        listed(cands[k], shown),
{
    lemma_token(input, typed);
    let low = lowercase(typed);
    let all = choose|all: Seq<Seq<char>>|
        {
            &&& #[trigger] sorted_offers(low, cands, all)
            &&& shown == all.take(if 8 < all.len() { 8 } else { all.len() as int })
        };
    let want = lowercase(trimmed(cands[k]));
    assert(want.subrange(0, low.len() as int) =~= want.take(low.len() as int));
    assert(stands_at(want, 0, low));
    lemma_offered(low, cands, k);
    let os = offers(low, cands);
    let i = choose|i: int| 0 <= i < lowercases(os).len() && lowercases(os)[i] == want;
    os.to_multiset_ensures();
    all.to_multiset_ensures();
    assert(os.contains(os[i]));
    assert(all.to_multiset().count(os[i]) > 0);
    assert(all.contains(os[i]));
    let n = choose|n: int| 0 <= n < all.len() && all[n] == os[i];
    if n < 8 {
        assert(shown[n] == all[n]);
        assert(lowercase(shown[n]) == want);
    } else {
        assert(shown.len() == 8);
        assert forall|j: int| 0 <= j < shown.len() implies text_less(
            lowercase(#[trigger] shown[j]),
            want,
        ) by {
            assert(shown[j] == all[j]);
            assert(text_less(lowercase(all[j]), lowercase(all[n])));
        }
    }
}

/// The names of a server's members.
pub open spec fn names_of_members(app: App) -> Seq<Seq<char>> {
    app.servers.members@.map_values(|m: ServerMemberRow| m.display_name@)
}

/// The names of our friends, by nickname where they have one.
pub open spec fn names_of_friends(app: App) -> Seq<Seq<char>> {
    app.social.friends@.map_values(
        |f: Friend|
            if f.nickname@.len() > 0 {
                f.nickname@
            } else {
                f.display_name@
            },
    )
}

/// In a channel of a server its members are offered, and nobody else, whoever
/// our friends are; `everyone` besides, where it is no voice channel. All
/// whose name starts with what was typed are, as far as the list reaches.
pub proof fn members_are_offered_in_channels(
    pre: App,
    value: String,
    now: Now,
    post: App,
    fx: Seq<EffectView>,
    typed: Seq<char>,
    k: int,
)
    requires
        step(
            pre,
            Message::Compose(ComposeMessage::MessageInputChanged(value)),
            now,
            post,
            fx,
        ),
        text_is(pre.place.kind, "channel"@) || text_is(pre.place.kind, "voice"@),
        types_name(value@, typed),
    ensures
        ({
            let shown = texts(post.composer.suggestions@);
            let members = pre.servers.members@;
            &&& 0 <= k < members.len() && fits(members[k].display_name@, typed) ==> listed(
                members[k].display_name@,
                shown,
            )
            &&& text_is(pre.place.kind, "channel"@) && fits("everyone"@, typed) ==> listed(
                "everyone"@,
                shown,
            )
            &&& forall|i: int|
                0 <= i < shown.len() ==> one_of(#[trigger] shown[i], names_of_members(pre)) || (
                text_is(pre.place.kind, "channel"@) && shown[i] == trimmed("everyone"@))
            &&& shown.len() <= 8
        }),
{
    reveal_strlit("channel");
    reveal_strlit("voice");
    reveal_strlit("group");
    assert("channel"@.len() != "voice"@.len() && "group"@[0] != "voice"@[0]);
    let shown = texts(post.composer.suggestions@);
    let cands = pre.mention_names();
    let members = pre.servers.members@;
    if 0 <= k < members.len() && fits(members[k].display_name@, typed) {
        assert(cands[k] == members[k].display_name@);
        lemma_listed(value@, typed, cands, shown, k);
    }
    if text_is(pre.place.kind, "channel"@) && fits("everyone"@, typed) {
        assert(cands[cands.len() - 1] == "everyone"@);
        lemma_listed(value@, typed, cands, shown, cands.len() - 1);
    }
    suggestions_are_candidates(value@, cands, 8, shown);
    assert forall|i: int| 0 <= i < shown.len() implies one_of(
        #[trigger] shown[i],
        names_of_members(pre),
    ) || (text_is(pre.place.kind, "channel"@) && shown[i] == trimmed("everyone"@)) by {
        let j = choose|j: int|
            0 <= j < cands.len() && #[trigger] trimmed(cands[j]) == shown[i];
        if j < members.len() {
            assert(names_of_members(pre)[j] == cands[j]);
        }
    }
}

/// In a group our friends are offered, and `everyone`, but no members of
/// whatever server was open before.
pub proof fn friends_are_offered_in_groups(
    pre: App,
    value: String,
    now: Now,
    post: App,
    fx: Seq<EffectView>,
    typed: Seq<char>,
    k: int,
)
    requires
        step(
            pre,
            Message::Compose(ComposeMessage::MessageInputChanged(value)),
            now,
            post,
            fx,
        ),
        text_is(pre.place.kind, "group"@),
        types_name(value@, typed),
    ensures
        ({
            let shown = texts(post.composer.suggestions@);
            let names = names_of_friends(pre);
            &&& 0 <= k < names.len() && fits(names[k], typed) ==> listed(names[k], shown)
            &&& fits("everyone"@, typed) ==> listed("everyone"@, shown)
            &&& forall|i: int|
                0 <= i < shown.len() ==> one_of(#[trigger] shown[i], names) || shown[i] == trimmed(
                    "everyone"@,
                )
        }),
{
    reveal_strlit("channel");
    reveal_strlit("voice");
    reveal_strlit("group");
    assert("channel"@.len() != "group"@.len() && "group"@[0] != "voice"@[0]);
    let shown = texts(post.composer.suggestions@);
    let cands = pre.mention_names();
    let names = names_of_friends(pre);
    if 0 <= k < names.len() && fits(names[k], typed) {
        assert(cands[k] == names[k]);
        lemma_listed(value@, typed, cands, shown, k);
    }
    if fits("everyone"@, typed) {
        assert(cands[cands.len() - 1] == "everyone"@);
        lemma_listed(value@, typed, cands, shown, cands.len() - 1);
    }
    suggestions_are_candidates(value@, cands, 8, shown);
    assert forall|i: int| 0 <= i < shown.len() implies one_of(#[trigger] shown[i], names)
        || shown[i] == trimmed("everyone"@) by {
        let j = choose|j: int|
            0 <= j < cands.len() && #[trigger] trimmed(cands[j]) == shown[i];
        if j < names.len() {
            assert(names[j] == cands[j]);
        }
    }
}

/// In a direct chat with a friend only that friend is offered: neither
/// `everyone` nor anybody else.
pub proof fn only_the_peer_is_offered_in_direct_chats(
    pre: App,
    value: String,
    now: Now,
    post: App,
    fx: Seq<EffectView>,
    typed: Seq<char>,
    k: int,
)
    requires
        step(
            pre,
            Message::Compose(ComposeMessage::MessageInputChanged(value)),
            now,
            post,
            fx,
        ),
        text_is(pre.place.kind, "direct"@),
        types_name(value@, typed),
        0 <= k < pre.social.friends@.len(),
        text_is(pre.place.peer_id, pre.social.friends@[k].user_id@),
        forall|j: int|
            0 <= j < k ==> (#[trigger] pre.social.friends@[j]).user_id@
                != pre.social.friends@[k].user_id@,
    ensures
        ({
            let shown = texts(post.composer.suggestions@);
            let name = names_of_friends(pre)[k];
            &&& fits(name, typed) ==> listed(name, shown)
            &&& forall|i: int| 0 <= i < shown.len() ==> #[trigger] shown[i] == trimmed(name)
        }),
{
    reveal_strlit("channel");
    reveal_strlit("voice");
    reveal_strlit("group");
    reveal_strlit("direct");
    assert("direct"@[0] == 'd' && "channel"@[0] == 'c' && "group"@[0] == 'g' && "voice"@[0] == 'v');
    let shown = texts(post.composer.suggestions@);
    let cands = pre.mention_names();
    lemma_position_is(pre.social.friends@, pre.social.friends@[k].user_id@, k);
    assert(cands.len() == 1 && cands[0] == names_of_friends(pre)[k]);
    if fits(cands[0], typed) {
        lemma_listed(value@, typed, cands, shown, 0);
    }
    suggestions_are_candidates(value@, cands, 8, shown);
}

/// Typing: the text is what was typed. Nothing is offered while no name is
/// being typed. The others see that we type in the open chat, refreshed no
/// more than every two seconds, and that we stopped once the text is blank.
pub proof fn typing_is_shown(
    pre: App,
    value: String,
    now: Now,
    post: App,
    fx: Seq<EffectView>,
)
    requires
        step(
            pre,
            Message::Compose(ComposeMessage::MessageInputChanged(value)),
            now,
            post,
            fx,
        ),
    ensures
        post.composer.input == value,
        post.composer.reply == pre.composer.reply,
        post.composer.attachment == pre.composer.attachment,
        !value@.contains('@') ==> post.composer.suggestions@.len() == 0,
        pre.place.conversation is None ==> fx.len() == 0,
        pre.place.conversation is Some && trimmed(value@).len() > 0 ==> {
            let due = pre.composer.last_typing_ping is None || now.tick_ms
                - pre.composer.last_typing_ping->0 >= 2000;
            &&& due ==> post.composer.typing_active && post.composer.last_typing_ping == Some(
                now.tick_ms,
            ) && fx == seq![
                EffectView::TypingPing {
                    conversation_id: pre.place.conversation->0@,
                    typing: true,
                },
            ]
            &&& !due ==> fx.len() == 0 && post.composer.last_typing_ping
                == pre.composer.last_typing_ping
        },
        pre.place.conversation is Some && trimmed(value@).len() == 0 ==> {
            &&& !post.composer.typing_active
            &&& pre.composer.typing_active ==> fx == seq![
                EffectView::TypingPing {
                    conversation_id: pre.place.conversation->0@,
                    typing: false,
                },
            ]
            &&& !pre.composer.typing_active ==> fx.len() == 0
        },
{
    if !value@.contains('@') {
        if exists|p: int| open_token(value@, p) {
            let p = choose|p: int| open_token(value@, p);
            assert(value@[p] == '@');
        }
    }
}

/// A picked name takes the place of what was typed of it; everything before
/// the `@` stays.
pub proof fn picked_names_complete_the_text(
    pre: App,
    name: String,
    now: Now,
    post: App,
    fx: Seq<EffectView>,
    typed: Seq<char>,
)
    requires
        step(
            pre,
            Message::Compose(ComposeMessage::MentionSuggestionPicked(name)),
            now,
            post,
            fx,
        ),
        types_name(pre.composer.input@, typed),
    ensures
        post.composer.input@ == pre.composer.input@.take(
            pre.composer.input@.len() - typed.len() - 1,
        ) + seq!['@'] + name@ + seq![' '],
        post.composer.suggestions@.len() == 0,
        fx.len() == 0,
{
    lemma_token(pre.composer.input@, typed);
    let at = pre.composer.input@.len() - typed.len() - 1;
    let c = completed(pre.composer.input@, name@);
    assert(c =~= pre.composer.input@.take(at) + seq!['@'] + name@ + seq![' ']);
}

/// A message written in a channel can name the members of the server, each by
/// the id that goes with the name, and nobody else.
pub proof fn messages_name_those_who_are_there(app: App, k: int)
    ensures
        (text_is(app.place.kind, "channel"@) || text_is(app.place.kind, "voice"@)) ==> {
            &&& app.mention_pairs().len() == app.servers.members@.len()
            &&& 0 <= k < app.servers.members@.len() ==> app.mention_pairs()[k] == (
                app.servers.members@[k].display_name@,
                app.servers.members@[k].user_id@,
            )
        },
        text_is(app.place.kind, "group"@) ==> {
            &&& app.mention_pairs().len() == app.social.friends@.len()
            &&& 0 <= k < app.social.friends@.len() ==> app.mention_pairs()[k] == (
                names_of_friends(app)[k],
                app.social.friends@[k].user_id@,
            )
        },
        text_is(app.place.kind, "direct"@) && 0 <= k < app.social.friends@.len() && text_is(
            app.place.peer_id,
            app.social.friends@[k].user_id@,
        ) && (forall|j: int|
            0 <= j < k ==> (#[trigger] app.social.friends@[j]).user_id@
                != app.social.friends@[k].user_id@) ==> app.mention_pairs() == seq![
            (names_of_friends(app)[k], app.social.friends@[k].user_id@),
        ],
{
    reveal_strlit("channel");
    reveal_strlit("voice");
    reveal_strlit("group");
    reveal_strlit("direct");
    assert("direct"@[0] == 'd' && "channel"@[0] == 'c' && "group"@[0] == 'g' && "voice"@[0] == 'v');
    if 0 <= k < app.social.friends@.len() && text_is(
        app.place.peer_id,
        app.social.friends@[k].user_id@,
    ) && (forall|j: int|
        0 <= j < k ==> (#[trigger] app.social.friends@[j]).user_id@
            != app.social.friends@[k].user_id@) {
        lemma_position_is(app.social.friends@, app.social.friends@[k].user_id@, k);
    }
}

/// Our own messages ping everyone they name but us.
pub proof fn nobody_pings_themselves(app: App, ids: Seq<Seq<char>>)
    ensures
        app.session is Some ==> app.not_me(ids) == ids.filter(
            |id: Seq<char>| id != app.session->0.user_id@,
        ),
        app.session is None ==> app.not_me(ids) == ids,
    decreases ids.len(),
{
    reveal(Seq::filter);
    if ids.len() > 0 {
        nobody_pings_themselves(app, ids.drop_last());
        assert(ids.drop_last().push(ids.last()) =~= ids);
    }
}

} // verus!
