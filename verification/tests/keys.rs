//! Group keys and the meaning of replies.

use hexatalk::state::bots::bot_label;
use hexatalk::state::effect::PickPurpose;
use hexatalk::state::group_keys::{
    on_members, on_package, on_published, on_sealed, on_unsealed, Asked, KeyAction, MembersReply,
    Package, PublishReply, SealedFor,
};
use hexatalk::state::palette::search_hit_line;
use hexatalk::state::replies::{
    bot_created_reply, bot_token_reply, classify_pick, favorite_reply, respond_all_reply,
    role_overwrites, sign_out_others_reply, store_pref_reply, upload_reply, Answer, NewBot,
    OverwriteRow, Posted,
};
use hexatalk::state::types::ImagePick;

fn s(t: &str) -> String {
    t.to_string()
}

fn package(epoch: u32, sealed: &str, eph: &str) -> Package {
    Package { epoch, sealed: s(sealed), eph: s(eph) }
}

fn failure(a: KeyAction) -> String {
    match a {
        KeyAction::Fail(t) => t,
        _ => panic!("no failure"),
    }
}

#[test]
fn a_package_is_unsealed() {
    match on_package(Asked::First, Ok(Some(package(2, "x", "e")))) {
        KeyAction::Unseal { epoch, eph, sealed, failure } => {
            assert_eq!((epoch, eph.as_str(), sealed.as_str()), (2, "e", "x"));
            assert_eq!(failure, "Could not unseal group key (wrong identity?)");
        }
        _ => panic!("a package"),
    }
    for p in [None, Some(package(0, "x", "e")), Some(package(2, "", "e")), Some(package(2, "x", ""))] {
        assert!(matches!(on_package(Asked::First, Ok(p)), KeyAction::AskMembers));
    }
    assert_eq!(failure(on_package(Asked::First, Err(s("net")))), "net");
    assert!(matches!(
        on_package(Asked::Again, Ok(Some(package(2, "x", "")))),
        KeyAction::Unseal { epoch: 2, .. }
    ));
    assert_eq!(
        failure(on_package(Asked::Again, Ok(None))),
        "Group key exists but this device has no package yet — ask a member to re-open the chat"
    );
    assert!(matches!(
        on_package(Asked::Race(7), Ok(Some(package(2, "x", "e")))),
        KeyAction::Unseal { epoch: 7, .. }
    ));
    assert_eq!(failure(on_package(Asked::Race(7), Ok(None))), "Group key bootstrap race failed");
    assert!(matches!(on_unsealed(2, "no", Some([1; 32])), KeyAction::Done(k) if k.epoch == 2));
    assert_eq!(failure(on_unsealed(2, "no", None)), "no");
}

#[test]
fn a_key_is_made_where_there_is_none() {
    let good = "k".repeat(44);
    match on_members(MembersReply::Listed(
        0,
        Some(vec![(s("a"), good.clone()), (s("b"), s("short"))]),
    )) {
        KeyAction::Seal(list) => assert_eq!(list, vec![(s("a"), good)]),
        _ => panic!("sealed"),
    }
    assert!(matches!(
        on_members(MembersReply::Listed(3, None)),
        KeyAction::AskPackage(Asked::Again)
    ));
    assert_eq!(failure(on_members(MembersReply::Listed(0, None))), "No members for group key");
    assert_eq!(failure(on_members(MembersReply::Failed(s("net")))), "net");
    assert_eq!(
        failure(on_members(MembersReply::Unexpected)),
        "Unexpected server response while listing member keys"
    );
    assert_eq!(
        failure(on_sealed(Vec::new())),
        "No members have a public key yet — everyone must open the app once to publish keys"
    );
    assert!(matches!(
        on_sealed(vec![SealedFor { user_id: s("a"), sealed: s("x"), eph: s("e") }]),
        KeyAction::Publish(p) if p.len() == 1
    ));
    assert!(matches!(
        on_published(PublishReply::Stored(true, 1), [4; 32]),
        KeyAction::Done(k) if k.epoch == 1 && k.key == [4; 32]
    ));
    assert!(matches!(
        on_published(PublishReply::Stored(false, 9), [4; 32]),
        KeyAction::AskPackage(Asked::Race(9))
    ));
    assert_eq!(failure(on_published(PublishReply::Unexpected, [4; 32])), "Group key publish failed");
    assert_eq!(failure(on_published(PublishReply::Failed(s("net")), [4; 32])), "net");
}

#[test]
fn replies_mean_something() {
    assert_eq!(favorite_reply(s("f"), Answer::Object(Some(true))), Ok((s("f"), true)));
    assert_eq!(favorite_reply(s("f"), Answer::Object(None)), Ok((s("f"), false)));
    assert_eq!(favorite_reply(s("f"), Answer::Refused(s("no"))), Err(s("no")));
    assert_eq!(favorite_reply(s("f"), Answer::Other), Err(s("Unexpected server response")));
    assert_eq!(respond_all_reply(Answer::Object(3)), Ok(3));
    assert_eq!(respond_all_reply(Answer::Other), Err(s("Unexpected server response")));
    assert_eq!(sign_out_others_reply(Answer::Other), Ok(0));
    assert_eq!(sign_out_others_reply(Answer::Refused(s("no"))), Err(s("no")));
    assert_eq!(bot_token_reply(Answer::Object(s("t"))), Ok(s("t")));
    assert_eq!(bot_token_reply(Answer::Other), Err(s("Unexpected response")));
    let (label, token) =
        bot_created_reply("Bot", Answer::Object(NewBot { username: s("bot"), token: s("t") })).unwrap();
    assert_eq!(label, bot_label("Bot", "bot"));
    assert_eq!(token, "t");
    assert_eq!(store_pref_reply(Answer::Object((Some(false), None))), (false, true));
    assert_eq!(store_pref_reply(Answer::Other), (true, true));
    let row = |t: &str, id: &str| OverwriteRow {
        target_type: s(t),
        target_id: s(id),
        allow: 1,
        deny: 2,
    };
    assert_eq!(
        role_overwrites(vec![row("role", "r1"), row("member", "m"), row("role", "r2")]),
        vec![(s("r1"), 1, 2), (s("r2"), 1, 2)]
    );
}

#[test]
fn picked_pictures_have_a_size_and_a_type() {
    let pick = |p: PickPurpose, name: &str, len: usize| classify_pick(p, Some((s(name), vec![0; len])));
    assert!(matches!(classify_pick(PickPurpose::Avatar, None), ImagePick::Cancelled));
    assert!(matches!(pick(PickPurpose::Avatar, "A.PNG", 10), ImagePick::Ready(_, t) if t == "image/png"));
    assert!(matches!(pick(PickPurpose::Avatar, "a.jpg", 2 * 1024 * 1024), ImagePick::Ready(_, t) if t == "image/jpeg"));
    assert!(matches!(pick(PickPurpose::ServerIcon, "a.jpg", 2 * 1024 * 1024 + 1), ImagePick::TooLarge));
    assert!(matches!(pick(PickPurpose::Attachment, "a.jpg", 5 * 1024 * 1024), ImagePick::Ready(_, _)));
    assert!(matches!(pick(PickPurpose::Attachment, "a.jpg", 5 * 1024 * 1024 + 1), ImagePick::TooLarge));
}

#[test]
fn uploads_fail_in_words() {
    let answered = |success: bool, stored: Result<&str, &str>| Posted::Answered {
        status: s("500 Oops"),
        success,
        stored: stored.map(s).map_err(s),
    };
    assert_eq!(upload_reply(true, answered(true, Ok("id"))), Ok(s("id")));
    assert_eq!(upload_reply(true, Posted::Unsent(s("net"))), Err(s("Upload failed: net")));
    assert_eq!(upload_reply(true, answered(false, Ok("id"))), Err(s("Upload failed (HTTP 500 Oops)")));
    assert_eq!(upload_reply(true, answered(true, Err("eof"))), Err(s("Upload response invalid: eof")));
    assert_eq!(upload_reply(false, answered(false, Ok("id"))), Ok(s("id")));
    assert_eq!(upload_reply(false, answered(false, Err("eof"))), Err(s("eof")));
    assert_eq!(upload_reply(false, Posted::Unsent(s("net"))), Err(s("net")));
    assert_eq!(search_hit_line("room", "ann", "hello"), "#room · ann: hello");
}
