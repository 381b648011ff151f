//! What the answers of others are taken for.

use crate::delta::{signed, Patched};
use crate::state::compose::{clear_progress, ClearProgress};
use crate::state::group_keys::{
    on_published, on_sealed, on_unsealed, Asked, KeyAction, PublishReply, SealedFor,
};
use crate::state::history::{append_message, StoredMessage};
use crate::state::replies::{
    bot_created_reply, bot_token_reply, classify_pick, favorite_reply, respond_all_reply,
    sign_out_others_reply, store_pref_reply, upload_reply, Answer, NewBot, Posted,
};
use crate::state::effect::PickPurpose;
use crate::state::types::{GroupKey, ImagePick};
use crate::text::{digits, lowercase};
use crate::update_check::{
    on_delta, on_exe, on_signature, on_staged, stage_exe_swap, staged_paths, Origin, Platform,
    Staged, SwapPlan, UpdateOutcome, UpdateStep,
};
use vstd::prelude::*;

verus! {

/// A refusal of the server is handed on in its own words, whatever was asked.
pub proof fn refusals_are_handed_on(
    why: String,
    id: String,
    favorite: Result<(String, bool), String>,
    counted: Result<u32, String>,
    ended: Result<u32, String>,
    secret: Result<String, String>,
)
    ensures
        call_ensures(favorite_reply, (id, Answer::Refused(why)), favorite) ==> favorite == Err::<
            (String, bool),
            String,
        >(why),
        call_ensures(respond_all_reply, (Answer::Refused(why),), counted) ==> counted == Err::<
            u32,
            String,
        >(why),
        call_ensures(sign_out_others_reply, (Answer::Refused(why),), ended) ==> ended == Err::<
            u32,
            String,
        >(why),
        call_ensures(bot_token_reply, (Answer::Refused(why),), secret) ==> secret == Err::<
            String,
            String,
        >(why),
{
}

/// What the server says is what counts: the friend who was clicked is the one
/// that is marked, so many requests were answered, so many sessions ended, and
/// the token is the bot's.
pub proof fn answers_are_believed(
    id: String,
    favorite: Option<bool>,
    marked: Result<(String, bool), String>,
    n: u32,
    counted: Result<u32, String>,
    ended: Result<u32, String>,
    secret: String,
    token: Result<String, String>,
    name: &str,
    bot: NewBot,
    made: Result<(String, String), String>,
)
    ensures
        call_ensures(favorite_reply, (id, Answer::Object(favorite)), marked) ==> {
            &&& marked is Ok
            &&& (marked->Ok_0).0 == id
            &&& favorite == Some(true) ==> (marked->Ok_0).1
            &&& favorite != Some(true) ==> !(marked->Ok_0).1
        },
        call_ensures(respond_all_reply, (Answer::Object(n),), counted) ==> counted == Ok::<
            u32,
            String,
        >(n),
        call_ensures(sign_out_others_reply, (Answer::Object(n),), ended) ==> ended == Ok::<
            u32,
            String,
        >(n),
        call_ensures(bot_token_reply, (Answer::Object(secret),), token) ==> token == Ok::<
            String,
            String,
        >(secret),
        call_ensures(bot_created_reply, (name, Answer::Object(bot)), made) ==> {
            &&& made is Ok
            &&& ((made->Ok_0).0)@ == name@ + " (@"@ + bot.username@ + ")"@
            &&& (made->Ok_0).1 == bot.token
        },
{
}

/// History counts as allowed unless the server says that it is not.
pub proof fn history_is_allowed_unless_refused(
    store: Option<bool>,
    allows: Option<bool>,
    r: (bool, bool),
)
    requires
        call_ensures(store_pref_reply, (Answer::Object((store, allows)),), r),
    ensures
        r.0 <==> store != Some(false),
        r.1 <==> allows != Some(false),
{
}

/// A picked picture is taken as it is, up to five megabytes for an attachment
/// and two for an icon or an avatar; a name that ends in `.png` tells its kind.
pub proof fn picked_files_are_taken_up_to_a_size(
    purpose: PickPurpose,
    name: String,
    bytes: Vec<u8>,
    r: ImagePick,
)
    requires
        call_ensures(classify_pick, (purpose, Some((name, bytes))), r),
    ensures
        ({
            let max: nat = if purpose is Attachment {
                5_242_880
            } else {
                2_097_152
            };
            let low = lowercase(name@);
            &&& bytes@.len() > max ==> r is TooLarge
            &&& bytes@.len() <= max ==> r is Ready && r->Ready_0 == bytes
            &&& bytes@.len() <= max && low.len() >= 4 && low.skip(low.len() - 4) == ".png"@
                ==> r->Ready_1@ == "image/png"@
            &&& bytes@.len() <= max && !(low.len() >= 4 && low.skip(low.len() - 4) == ".png"@)
                ==> r->Ready_1@ == "image/jpeg"@
        }),
{
    reveal_strlit(".png");
    let low = lowercase(name@);
    assert(".png"@.len() == 4);
    if low.len() >= 4 {
        assert(low.subrange(low.len() - 4, low.len() as int) =~= low.skip(low.len() - 4));
    }
}

/// Without a file nothing was picked.
pub proof fn nothing_picked_is_nothing(purpose: PickPurpose, r: ImagePick)
    requires
        call_ensures(classify_pick, (purpose, None::<(String, Vec<u8>)>), r),
    ensures
        r is Cancelled,
{
}

/// An upload gives the id of the stored file; a strict one only where the
/// server says that it succeeded.
pub proof fn uploads_give_the_stored_id(strict: bool, posted: Posted, r: Result<String, String>)
    requires
        call_ensures(upload_reply, (strict, posted), r),
    ensures
        r is Ok ==> posted is Answered && posted->stored == r && (strict ==> posted->success),
        posted is Unsent ==> r is Err,
        posted is Answered && posted->stored is Ok && (posted->success || !strict) ==> r is Ok,
        posted is Answered && strict && !posted->success ==> r is Err && (r->Err_0)@
            == "Upload failed (HTTP "@ + posted->status@ + ")"@,
{
}

/// A chat gets a message once: one that it has is not added again, and one
/// that it has not is its newest.
pub proof fn messages_are_added_once(
    list: Vec<StoredMessage>,
    msg: StoredMessage,
    r: Option<Vec<StoredMessage>>,
)
    requires
        call_ensures(append_message, (list, msg), r),
    ensures
        ({
            let known = exists|i: int| 0 <= i < list@.len() && (#[trigger] list@[i]).id@ == msg.id@;
            &&& r is None <==> known
            &&& !known ==> (r->0)@.len() > 0 && (r->0)@.last() == msg
            &&& !known && list@.len() < 5000 ==> (r->0)@ == list@.push(msg)
            &&& !known && list@.len() >= 5000 ==> (r->0)@.len() == 5000
        }),
{
}

/// Clearing a chat goes on until the server says that nothing is left, and
/// counts what went over all rounds.
pub proof fn clearing_goes_on_until_done(total: u64, purged: u64, done: bool, r: ClearProgress)
    requires
        total + purged <= u64::MAX,
        call_ensures(clear_progress, (total, purged, done), r),
    ensures
        !done ==> r is Again && r->Again_0 == total + purged,
        done ==> r is Finished,
        done && total + purged > 0 ==> (r->Finished_0)@ == "Chat cleared · "@ + digits(
            (total + purged) as nat,
        ) + " messages removed from Convex"@,
{
}

/// A key that was unsealed is the key of the epoch that it was asked for; what
/// could not be is a failure. A key of our own counts only where it was taken,
/// under the epoch that the server gave it; else the one that won is asked
/// for.
pub proof fn keys_count_where_they_were_taken(
    epoch: u32,
    failure: &'static str,
    key: [u8; 32],
    unsealed: KeyAction,
    lost: KeyAction,
    created: bool,
    published: KeyAction,
    why: String,
    refused: KeyAction,
)
    ensures
        call_ensures(on_unsealed, (epoch, failure, Some(key)), unsealed) ==> unsealed
            == KeyAction::Done(GroupKey { epoch, key }),
        call_ensures(on_unsealed, (epoch, failure, None::<[u8; 32]>), lost) ==> lost is Fail && (
        lost->Fail_0)@ == failure@,
        call_ensures(on_published, (PublishReply::Stored(created, epoch), key), published) ==> {
            &&& created ==> published == KeyAction::Done(GroupKey { epoch, key })
            &&& !created ==> published == KeyAction::AskPackage(Asked::Race(epoch))
        },
        call_ensures(on_published, (PublishReply::Failed(why), key), refused) ==> refused
            == KeyAction::Fail(why),
{
}

/// What was sealed is published as it is; sealed for nobody it is a failure.
pub proof fn sealed_packages_are_published(packages: Vec<SealedFor>, a: KeyAction)
    requires
        call_ensures(on_sealed, (packages,), a),
    ensures
        packages@.len() > 0 ==> a == KeyAction::Publish(packages),
        packages@.len() == 0 ==> a is Fail,
{
}

/// A build is staged only where something vouches for it: its signature, or
/// the frame that its patch came in. A patch without either leads to the whole
/// build, and a whole build without a signature that holds is refused.
pub proof fn staged_builds_are_vouched_for(
    exe: Vec<u8>,
    origin: Origin,
    reply: Result<Vec<u8>, String>,
    key_b64: &str,
    version: String,
    r: UpdateStep,
)
    requires
        call_ensures(on_signature, (exe, origin, reply, key_b64, version), r),
    ensures
        ({
            let holds = reply is Ok && signed(exe@, (reply->Ok_0)@, key_b64@);
            &&& holds ==> r is Stage && r->Stage_exe == exe && r->Stage_sig == reply->Ok_0
                && r->Stage_version == version
            &&& !holds && origin is Whole ==> r is Done && r->Done_0 is Failed
            &&& !holds && origin is PlainPatch ==> r is GetExe && r->GetExe_version == version
            &&& !holds && origin is FramedPatch ==> r is Stage && r->Stage_exe == exe
                && r->Stage_sig@.len() == 0 && r->Stage_version == version
        }),
{
}

/// What a patch made is staged with the signature that it brought, where that
/// holds for the new build; else its signature is fetched. Without a patch the
/// whole build is fetched.
pub proof fn patches_are_staged_with_their_signature(
    p: Patched,
    key_b64: &str,
    version: String,
    r: UpdateStep,
    without: UpdateStep,
)
    ensures
        call_ensures(on_delta, (Some(p), key_b64, version), r) ==> {
            let holds = p.embedded_sig is Some && signed(
                p.exe@,
                (p.embedded_sig->0)@,
                key_b64@,
            );
            &&& holds ==> r is Stage && r->Stage_exe == p.exe && r->Stage_sig == p.embedded_sig->0
                && r->Stage_version == version
            &&& !holds ==> r is GetSignature && r->GetSignature_exe == p.exe
                && r->GetSignature_version == version
            &&& !holds && p.authentic ==> r->origin is FramedPatch
            &&& !holds && !p.authentic ==> r->origin is PlainPatch
        },
        call_ensures(on_delta, (None::<Patched>, key_b64, version), without) ==> without is GetExe
            && without->GetExe_version == version,
{
}

/// A whole build that was fetched still needs its signature; one that could
/// not be fetched ends the update.
pub proof fn whole_builds_need_a_signature(
    exe: Vec<u8>,
    why: String,
    current: &str,
    version: String,
    r: UpdateStep,
    failed: UpdateStep,
)
    ensures
        call_ensures(on_exe, (Ok::<Vec<u8>, String>(exe), current, version), r) ==> r
            == (UpdateStep::GetSignature { exe, origin: Origin::Whole, version }),
        call_ensures(on_exe, (Err::<Vec<u8>, String>(why), current, version), failed) ==> failed
            is Done && failed->Done_0 is Failed,
{
}

/// A build that was saved waits where it was put; one whose signature could
/// not be saved is removed again, and only that one.
pub proof fn no_build_stays_without_its_signature(
    staged: Staged,
    version: String,
    r: (UpdateOutcome, bool),
)
    requires
        call_ensures(on_staged, (staged, version), r),
    ensures
        staged is Saved <==> r.0 is Downloaded,
        staged is Saved ==> r.0->Downloaded_path == staged->Saved_0 && r.0->Downloaded_version
            == version && !r.1,
        staged is SigUnsaved <==> r.1,
        !(staged is Saved) ==> r.0 is Failed,
{
}

/// The new build and its signature lie beside the running one, under names
/// that differ from it and from each other.
pub proof fn staged_files_have_their_own_names(exe_path: &str, r: (String, String))
    requires
        call_ensures(staged_paths, (exe_path,), r),
    ensures
        (r.0)@ == exe_path@ + ".new"@,
        (r.1)@ == exe_path@ + ".new"@ + ".sig"@,
        (r.0)@ != exe_path@,
        (r.1)@ != exe_path@,
        (r.0)@ != (r.1)@,
{
    reveal_strlit(".new");
    reveal_strlit(".sig");
    assert(".new"@.len() == 4 && ".sig"@.len() == 4);
}

/// A staged build is put in place only where it may be installed; one that may
/// not is removed with its signature. Where the running build is not known, or
/// on a system without a way to do it, nothing is touched.
pub proof fn only_valid_builds_are_put_in_place(
    platform: Platform,
    staged: &str,
    exe: &str,
    valid: bool,
    relaunch: bool,
    r: SwapPlan,
    unknown: SwapPlan,
)
    ensures
        call_ensures(stage_exe_swap, (platform, staged, Some(exe), valid, relaunch), r) ==> {
            &&& platform is MacOs ==> r is Skip
            &&& !(platform is MacOs) && !valid ==> r is Discard && r->Discard_staged@ == staged@
                && r->Discard_sig@ == staged@ + ".sig"@
            &&& platform is Unix && valid ==> r is Shell && r->Shell_staged@ == staged@
                && r->Shell_exe@ == exe@
            &&& platform is Unix && valid && relaunch ==> r->Shell_relaunch@ == "1"@
            &&& platform is Unix && valid && !relaunch ==> r->Shell_relaunch@ == "0"@
            &&& platform is Windows && valid ==> r is Command
        },
        call_ensures(stage_exe_swap, (platform, staged, None::<&str>, valid, relaunch), unknown)
            ==> unknown is Skip,
{
}

} // verus!
