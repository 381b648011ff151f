//! Keys, updates, pictures and what is kept of a chat.

use crate::delta::{installable, signature_problem, signed};
use crate::laws::asked::{lemma_request, looks_up, online, text};
use crate::laws::reckoning::{
    ahead, dotted, versions_are_written_plainly, versions_compare_by_their_numbers,
};
use crate::primitives::{base64_bytes, ed25519_signed};
use crate::state::app::{fetches, plain_jobs, App, ImageJobView, Now};
use crate::state::effect::{EffectView, Reply};
use crate::state::feed::message_jobs;
use crate::state::group_keys::{
    after_members, after_package, member_views, with_keys, Asked, KeyAction, MembersReply, Package,
};
use crate::state::history::{recent, StoredMessage};
use crate::state::lifecycle::{key_wanted, load_store_pref};
use crate::state::message::{FeedMessage, Message};
use crate::state::social::pictures;
use crate::state::types::ChatMessage;
use crate::state::update::step;
use crate::text::{byte_len, digits, text_is, trimmed};
use crate::tray::{tray_reaction, TrayEvent, TrayInput};
use crate::ui::colors::initial_of;
use crate::update_check::{after_version, answer_problem, UpdateOutcome, UpdateStep};
use crate::versions::newer;
use vstd::prelude::*;

verus! {

/// What is done to have the key of the open chat, where its members share one
/// and it is not there: the stored keys are read first, and then the key of
/// that chat is obtained in our name. Where the key is there, or the chat has
/// none, nothing is done.
pub proof fn the_key_of_the_open_chat_is_obtained(app: App, token: Seq<char>)
    requires
        online(app, token),
        app.place.conversation is Some,
    ensures
        ({
            let chat = app.place.conversation->0@;
            let shared = text_is(app.place.kind, "group"@) || text_is(app.place.kind, "channel"@)
                || text_is(app.place.kind, "voice"@);
            let user_id = app.session->0.user_id@;
            &&& !shared ==> key_wanted(app).len() == 0
            &&& shared && app.group_keys is None ==> key_wanted(app) == seq![
                EffectView::LoadGroupKeys { user_id, pending: None },
            ]
            &&& shared && app.group_keys is Some && app.group_keys->0@.contains_key(chat)
                ==> key_wanted(app).len() == 0
            &&& shared && app.group_keys is Some && !app.group_keys->0@.contains_key(chat)
                ==> key_wanted(app) == seq![
                EffectView::ObtainGroupKey { token, conversation_id: chat, user_id },
            ]
        }),
{
}

/// Whether the open chat keeps history is looked up for that chat.
pub proof fn the_history_switch_is_looked_up(app: App, token: Seq<char>)
    requires
        online(app, token),
    ensures
        app.place.conversation is Some ==> looks_up(
            load_store_pref(app),
            token,
            "prefs:getConversationStore"@,
            seq![text("conversationId"@, app.place.conversation->0@)],
            Reply::ConversationStorePrefLoaded,
        ),
        app.place.conversation is None ==> load_store_pref(app).len() == 0,
{
    broadcast use lemma_request;

}

proof fn lemma_with_keys(list: Seq<(Seq<char>, Seq<char>)>)
    ensures
        forall|m: (Seq<char>, Seq<char>)| #[trigger]
            with_keys(list).contains(m) <==> list.contains(m) && byte_len(m.1) == 44,
    decreases list.len(),
{
    if list.len() > 0 {
        let t = list.drop_last();
        lemma_with_keys(t);
        let before = with_keys(t);
        let all = with_keys(list);
        assert forall|m: (Seq<char>, Seq<char>)| #[trigger] all.contains(m) <==> list.contains(m)
            && byte_len(m.1) == 44 by {
            if all.contains(m) {
                let k = choose|k: int| 0 <= k < all.len() && all[k] == m;
                if k < before.len() {
                    assert(before[k] == m);
                    assert(before.contains(m));
                    let j = choose|j: int| 0 <= j < t.len() && t[j] == m;
                    assert(list[j] == m);
                } else {
                    assert(list[list.len() - 1] == m);
                }
            }
            if list.contains(m) && byte_len(m.1) == 44 {
                let j = choose|j: int| 0 <= j < list.len() && list[j] == m;
                if j < t.len() {
                    assert(t[j] == m);
                    assert(t.contains(m));
                    assert(before.contains(m));
                    let k = choose|k: int| 0 <= k < before.len() && before[k] == m;
                    assert(all[k] == m);
                } else {
                    assert(all[all.len() - 1] == m);
                }
            }
        }
    }
}

/// A key is made only where the chat has none, and it is sealed for every
/// member who published a public key of the right length, and for nobody else;
/// where there is one, our package is asked for again.
pub proof fn keys_are_made_once(reply: MembersReply, a: KeyAction)
    requires
        after_members(reply, a),
    ensures
        a is Seal ==> reply is Listed && reply->Listed_0 == 0 && reply->Listed_1 is Some,
        a is Seal ==> forall|m: (Seq<char>, Seq<char>)| #[trigger]
            member_views(a->Seal_0@).contains(m) <==> member_views(
                (reply->Listed_1->0)@,
            ).contains(m) && byte_len(m.1) == 44,
        reply is Listed && reply->Listed_0 > 0 ==> a == KeyAction::AskPackage(Asked::Again),
        reply is Failed ==> a == KeyAction::Fail(reply->Failed_0),
{
    if a is Seal {
        lemma_with_keys(member_views((reply->Listed_1->0)@));
    }
}

/// A package is unsealed as it came, for the epoch that it names, or for the
/// one that won where ours was not taken. Without a usable one, the first time
/// the members are asked for, and later it is a failure; a failed question is
/// always one.
pub proof fn packages_are_unsealed_as_they_came(
    asked: Asked,
    reply: Result<Option<Package>, String>,
    a: KeyAction,
)
    requires
        after_package(asked, reply, a),
    ensures
        reply is Err ==> a == KeyAction::Fail(reply->Err_0),
        a is Unseal ==> {
            &&& reply is Ok
            &&& reply->Ok_0 is Some
            &&& a->Unseal_eph == (reply->Ok_0->0).eph
            &&& a->Unseal_sealed == (reply->Ok_0->0).sealed
            &&& asked is Race ==> a->Unseal_epoch == asked->Race_0
            &&& !(asked is Race) ==> a->Unseal_epoch == (reply->Ok_0->0).epoch && a->Unseal_epoch > 0
        },
        reply is Ok && reply->Ok_0 is None && asked is First ==> a == KeyAction::AskMembers,
        reply is Ok && reply->Ok_0 is None && !(asked is First) ==> a is Fail,
        reply is Ok && reply->Ok_0 is Some && asked is First && (reply->Ok_0->0).epoch > 0 && (
        reply->Ok_0->0).sealed@.len() > 0 && (reply->Ok_0->0).eph@.len() > 0 ==> a is Unseal,
        !(a is Publish) && !(a is Done) && !(a is Seal),
{
}

/// A build is accepted by its signature only where that has 64 bytes and holds
/// under the release key; one that came with a signature is installed only
/// where that holds.
pub proof fn signatures_must_hold(exe: Seq<u8>, sig: Seq<u8>, key_b64: Seq<char>)
    ensures
        signature_problem(exe, sig, key_b64) is None ==> {
            &&& sig.len() == 64
            &&& base64_bytes(key_b64) is Ok
            &&& (base64_bytes(key_b64)->Ok_0).len() == 32
            &&& ed25519_signed(base64_bytes(key_b64)->Ok_0, exe, sig)
        },
        sig.len() > 0 && installable(exe, sig, key_b64) ==> signed(exe, sig, key_b64),
        signed(exe, sig, key_b64) ==> signature_problem(exe, sig, key_b64) is None,
        exe.len() == 0 && sig.len() == 0 ==> !installable(exe, sig, key_b64),
{
}

/// An update is fetched only where its version is ahead of the running one, as
/// their numbers compare, and from the address that names both.
pub proof fn only_newer_versions_are_fetched(
    theirs: Seq<u64>,
    ours: Seq<u64>,
    base: Seq<char>,
    stem: Seq<char>,
    r: UpdateStep,
)
    requires
        theirs.len() > 0,
        ours.len() > 0,
        after_version(Some(dotted(theirs)), base, stem, dotted(ours), r),
    ensures
        ahead(theirs, ours) ==> r is GetDelta && r->GetDelta_version@ == dotted(theirs)
            && r->GetDelta_url@ == base + stem + "-"@ + dotted(ours) + ("-"@ + dotted(theirs)
            + ".delta"@),
        !ahead(theirs, ours) ==> r == UpdateStep::Done(UpdateOutcome::UpToDate),
{
    versions_are_written_plainly(theirs);
    versions_compare_by_their_numbers(theirs, ours);
}

/// Without an answer, or with a blank one, everything is up to date.
pub proof fn silence_means_up_to_date(
    text: Option<Seq<char>>,
    base: Seq<char>,
    stem: Seq<char>,
    current: Seq<char>,
    r: UpdateStep,
)
    requires
        after_version(text, base, stem, current, r),
        text is None || trimmed(text->0).len() == 0 || !newer(trimmed(text->0), current),
    ensures
        r == UpdateStep::Done(UpdateOutcome::UpToDate),
{
}

/// The body of an answer is read only where the server says that it succeeded
/// and does not announce more than may be taken.
pub proof fn large_answers_are_refused(success: bool, status: Seq<char>, length: Option<u64>, max: u64)
    ensures
        answer_problem(success, status, length, max) is None <==> success && (length is None
            || length->0 <= max),
        !success ==> answer_problem(success, status, length, max) == Some(
            "server returned HTTP "@ + status,
        ),
        success && length is Some && length->0 > max ==> answer_problem(
            success,
            status,
            length,
            max,
        ) == Some("download too large ("@ + digits(length->0 as nat) + " bytes)"@),
{
}

/// What is saved of a chat is its end: the last messages, in order, all of
/// them where there are five thousand or fewer.
pub proof fn the_end_of_a_chat_is_saved(messages: Seq<StoredMessage>, i: int)
    ensures
        messages.len() <= 5000 ==> recent(messages) == messages,
        messages.len() > 5000 ==> recent(messages).len() == 5000,
        0 <= i < recent(messages).len() ==> recent(messages)[i] == messages[messages.len()
            - recent(messages).len() + i],
{
}

/// The tray: a double click and the first menu item show the window, the other
/// quits and ends the icon, and nothing else does anything.
pub proof fn the_tray_shows_and_quits(id: &str)
    ensures
        tray_reaction(TrayInput::DoubleClick) == (Some(TrayEvent::Show), true),
        tray_reaction(TrayInput::OtherClick) == (None::<TrayEvent>, true),
        id@ == "show"@ ==> tray_reaction(TrayInput::Menu(id)) == (Some(TrayEvent::Show), true),
        id@ == "quit"@ ==> tray_reaction(TrayInput::Menu(id)) == (Some(TrayEvent::Quit), false),
        id@ != "show"@ && id@ != "quit"@ ==> tray_reaction(TrayInput::Menu(id)) == (
            None::<TrayEvent>,
            true,
        ),
{
    reveal_strlit("show");
    reveal_strlit("quit");
    assert("show"@[0] == 's' && "quit"@[0] == 'q');
}

/// An avatar without a picture shows the first letter of the name as a
/// capital, and the mark that stands for nobody where there is no name.
pub proof fn initials_are_capitals(name: Seq<char>, other: Seq<char>)
    ensures
        name.len() == 0 ==> initial_of(name, other) == other,
        name.len() > 0 && 'a' <= name[0] <= 'z' ==> initial_of(name, other).len() == 1
            && initial_of(name, other)[0] as int == name[0] as int - 32,
        name.len() > 0 && 'A' <= name[0] <= 'Z' ==> initial_of(name, other) == seq![name[0]],
        name.len() > 0 && '0' <= name[0] <= '9' ==> initial_of(name, other) == seq![name[0]],
{
}

proof fn lemma_fetched(images: Map<Seq<char>, Vec<u8>>, jobs: Seq<ImageJobView>, i: int)
    requires
        0 <= i < jobs.len(),
        jobs[i].url.len() > 0,
        !images.contains_key(jobs[i].url),
    ensures
        fetches(images, jobs).contains(
            EffectView::FetchImage { url: jobs[i].url, key: jobs[i].key, nonce: jobs[i].nonce },
        ),
    decreases jobs.len(),
{
    let t = jobs.drop_last();
    let before = fetches(images, t);
    let all = fetches(images, jobs);
    let e = EffectView::FetchImage { url: jobs[i].url, key: jobs[i].key, nonce: jobs[i].nonce };
    if i < t.len() {
        lemma_fetched(images, t, i);
        let k = choose|k: int| 0 <= k < before.len() && before[k] == e;
        assert(all[k] == before[k]);
    } else {
        assert(all[all.len() - 1] == e);
    }
}

proof fn lemma_needed(images: Map<Seq<char>, Vec<u8>>, jobs: Seq<ImageJobView>)
    ensures
        forall|i: int|
            0 <= i < fetches(images, jobs).len() ==> {
                let e = #[trigger] fetches(images, jobs)[i];
                e is FetchImage && e->FetchImage_url.len() > 0 && !images.contains_key(
                    e->FetchImage_url,
                )
            },
    decreases jobs.len(),
{
    if jobs.len() > 0 {
        lemma_needed(images, jobs.drop_last());
    }
}

proof fn lemma_message_jobs(list: Seq<ChatMessage>, i: int)
    requires
        0 <= i < list.len(),
    ensures
        message_jobs(list).len() == 2 * list.len(),
        message_jobs(list)[2 * i].url == list[i].attachment_url@,
        message_jobs(list)[2 * i].key == match list[i].attachment_key {
            Some(k) => Some(k@),
            None => None,
        },
        message_jobs(list)[2 * i].nonce == match list[i].attachment_nonce {
            Some(n) => Some(n@),
            None => None,
        },
        message_jobs(list)[2 * i + 1].url == list[i].author_avatar_url@,
        message_jobs(list)[2 * i + 1].key is None,
        message_jobs(list)[2 * i + 1].nonce is None,
    decreases list.len(),
{
    let t = list.drop_last();
    lemma_message_jobs_len(t);
    if i < t.len() {
        lemma_message_jobs(t, i);
        assert(message_jobs(list)[2 * i] == message_jobs(t)[2 * i]);
        assert(message_jobs(list)[2 * i + 1] == message_jobs(t)[2 * i + 1]);
    }
}

proof fn lemma_message_jobs_len(list: Seq<ChatMessage>)
    ensures
        message_jobs(list).len() == 2 * list.len(),
    decreases list.len(),
{
    if list.len() > 0 {
        lemma_message_jobs_len(list.drop_last());
    }
}

/// The pictures of the messages on screen are fetched where they are not at
/// hand: attachments with what opens them, and the authors' own without.
pub proof fn pictures_of_messages_are_fetched(
    pre: App,
    m: FeedMessage,
    now: Now,
    post: App,
    fx: Seq<EffectView>,
    i: int,
)
    requires
        step(pre, Message::Feed(m), now, post, fx),
        m is MessagesUpdated,
        0 <= i < post.chat.messages@.len(),
    ensures
        ({
            let shown = post.chat.messages@[i];
            &&& shown.attachment_url@.len() > 0 && !pre.images@.contains_key(shown.attachment_url@)
                ==> fx.contains(
                EffectView::FetchImage {
                    url: shown.attachment_url@,
                    key: match shown.attachment_key {
                        Some(k) => Some(k@),
                        None => None,
                    },
                    nonce: match shown.attachment_nonce {
                        Some(n) => Some(n@),
                        None => None,
                    },
                },
            )
            &&& shown.author_avatar_url@.len() > 0 && !pre.images@.contains_key(
                shown.author_avatar_url@,
            ) ==> fx.contains(
                EffectView::FetchImage { url: shown.author_avatar_url@, key: None, nonce: None },
            )
        }),
{
    let list = post.chat.messages@;
    let jobs = message_jobs(list);
    let a = crate::state::feed::ping_notice(pre, list, now);
    let b = fetches(pre.images@, jobs);
    lemma_message_jobs(list, i);
    assert forall|e: EffectView| b.contains(e) implies fx.contains(e) by {
        let k = choose|k: int| 0 <= k < b.len() && b[k] == e;
        assert(fx[a.len() + k] == e);
    }
    let shown = list[i];
    if shown.attachment_url@.len() > 0 && !pre.images@.contains_key(shown.attachment_url@) {
        lemma_fetched(pre.images@, jobs, 2 * i);
    }
    if shown.author_avatar_url@.len() > 0 && !pre.images@.contains_key(shown.author_avatar_url@) {
        lemma_fetched(pre.images@, jobs, 2 * i + 1);
    }
}

/// The picture of each row of a list is fetched where it is not at hand, and
/// none that is.
pub proof fn pictures_of_lists_are_fetched(
    pre: App,
    m: Message,
    now: Now,
    post: App,
    fx: Seq<EffectView>,
    i: int,
)
    requires
        step(pre, m, now, post, fx),
    ensures
        m is Social && m->Social_0 is FriendsUpdated && 0 <= i
            < m->Social_0->FriendsUpdated_0@.len() ==> {
            let url = m->Social_0->FriendsUpdated_0@[i].avatar_image_url@;
            url.len() > 0 && !pre.images@.contains_key(url) ==> fx.contains(
                EffectView::FetchImage { url, key: None, nonce: None },
            )
        },
        m is Server && m->Server_0 is MembersUpdated && 0 <= i
            < m->Server_0->MembersUpdated_0@.len() ==> {
            let url = m->Server_0->MembersUpdated_0@[i].avatar_image_url@;
            url.len() > 0 && !pre.images@.contains_key(url) ==> fx.contains(
                EffectView::FetchImage { url, key: None, nonce: None },
            )
        },
        m is Server && m->Server_0 is ServersUpdated && 0 <= i
            < m->Server_0->ServersUpdated_0@.len() ==> {
            let url = m->Server_0->ServersUpdated_0@[i].icon_url@;
            url.len() > 0 && !pre.images@.contains_key(url) ==> fx.contains(
                EffectView::FetchImage { url, key: None, nonce: None },
            )
        },
        m is Server && (m->Server_0 is MembersUpdated || m->Server_0 is ServersUpdated) ==> forall|
            n: int,
        |
            0 <= n < fx.len() ==> (#[trigger] fx[n]) is FetchImage && !pre.images@.contains_key(
                fx[n]->FetchImage_url,
            ),
{
    if m is Social && m->Social_0 is FriendsUpdated {
        let list = m->Social_0->FriendsUpdated_0@;
        let jobs = plain_jobs(pictures(list));
        let b = fetches(pre.images@, jobs);
        assert forall|e: EffectView| b.contains(e) implies fx.contains(e) by {
            let k = choose|k: int| 0 <= k < b.len() && b[k] == e;
            assert(fx[k] == e);
        }
        if 0 <= i < list.len() && list[i].avatar_image_url@.len() > 0 && !pre.images@.contains_key(
            list[i].avatar_image_url@,
        ) {
            lemma_fetched(pre.images@, jobs, i);
        }
    }
    if m is Server && m->Server_0 is MembersUpdated {
        let list = m->Server_0->MembersUpdated_0@;
        let jobs = plain_jobs(pictures(list));
        lemma_needed(pre.images@, jobs);
        if 0 <= i < list.len() && list[i].avatar_image_url@.len() > 0 && !pre.images@.contains_key(
            list[i].avatar_image_url@,
        ) {
            lemma_fetched(pre.images@, jobs, i);
        }
    }
    if m is Server && m->Server_0 is ServersUpdated {
        let list = m->Server_0->ServersUpdated_0@;
        let jobs = plain_jobs(pictures(list));
        lemma_needed(pre.images@, jobs);
        if 0 <= i < list.len() && list[i].icon_url@.len() > 0 && !pre.images@.contains_key(
            list[i].icon_url@,
        ) {
            lemma_fetched(pre.images@, jobs, i);
        }
    }
}

} // verus!
