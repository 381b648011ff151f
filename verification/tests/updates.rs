//! The update check, versions, and the tray icon.

use ed25519_dalek::Signer;
use base64::prelude::{Engine as _, BASE64_STANDARD};
use hexatalk::delta::Patched;
use hexatalk::tray::{icon_pixels, react, setup_failed, SetupStep, TrayEvent, TrayInput};
use hexatalk::update_check::{
    check_answer, limits, on_delta, on_exe, on_signature, on_staged, on_version, on_version_text,
    stage_exe_swap, staged_paths, take_chunk, update_artifact_stem, Artifact, Origin, Platform,
    Staged, SwapPlan, UpdateOutcome, UpdateStep,
};
use hexatalk::versions::is_newer_version;

#[test]
fn versions_compare_by_number() {
    assert!(is_newer_version("1.10.0", "1.9.9"));
    assert!(is_newer_version("v2", "1.9"));
    assert!(is_newer_version("1.2.1", "1.2"));
    assert!(is_newer_version(" 1.0.1\n", "1.0.0"));
    assert!(!is_newer_version("1.2", "1.2.1"));
    assert!(!is_newer_version("1.2.3", "1.2.3"));
    assert!(!is_newer_version("1.2.2", "1.2.3"));
    // A version with a piece that is no number is newer than none.
    assert!(!is_newer_version("1.x.3", "1.2"));
    assert!(!is_newer_version("1.x.9", "1.2.3"));
    assert!(!is_newer_version("9.", "1"));
    assert!(!is_newer_version("9..1", "1"));
    assert!(!is_newer_version("2.0-beta", "1"));
    // Of the running one counts what can be read.
    assert!(is_newer_version("1.3", "1.2.x"));
    assert!(!is_newer_version("1.2", "1.2.x"));
    assert!(is_newer_version("+3", "2"));
    assert!(!is_newer_version("+", "0"));
    assert!(!is_newer_version("-3", "2"));
    assert!(!is_newer_version("", "0"));
    assert!(!is_newer_version("latest", "0"));
    assert!(is_newer_version("18446744073709551615", "18446744073709551614"));
    // One more does not fit, and counts as no number.
    assert!(!is_newer_version("18446744073709551616", "0"));
}

#[test]
fn newer_is_an_order() {
    let versions = ["0.9", "1", "1.0.1", "1.2", "v1.10", "2"];
    for (i, a) in versions.iter().enumerate() {
        for (j, b) in versions.iter().enumerate() {
            assert_eq!(is_newer_version(a, b), i > j, "{a} {b}");
        }
    }
}

#[test]
fn only_a_newer_version_starts_an_update() {
    let base = "https://host/deltas/";
    match on_version(Some(b" 1.3.0\n"), base, "HexaTalk", "1.2.0") {
        UpdateStep::GetDelta { url, version } => {
            assert_eq!(url, "https://host/deltas/HexaTalk-1.2.0-1.3.0.delta");
            assert_eq!(version, "1.3.0");
        }
        _ => panic!("an update was due"),
    }
    for reply in [Some("1.2.0".as_bytes()), Some(b"  ".as_slice()), Some(b"oops".as_slice()), None] {
        assert!(matches!(
            on_version(reply, base, "HexaTalk", "1.2.0"),
            UpdateStep::Done(UpdateOutcome::UpToDate)
        ));
    }
    // What is no text is replaced, not refused.
    assert!(matches!(
        on_version(Some(&[b'9', b'.', 0xFF]), base, "HexaTalk", "1.2.0"),
        UpdateStep::Done(UpdateOutcome::UpToDate)
    ));
    assert!(matches!(
        on_version_text(None, base, "HexaTalk", "1.2.0"),
        UpdateStep::Done(UpdateOutcome::UpToDate)
    ));
}

#[test]
fn patches_are_staged_with_signatures_that_hold() {
    let key = ed25519_dalek::SigningKey::from_bytes(&[3u8; 32]);
    let key_b64 = BASE64_STANDARD.encode(key.verifying_key().to_bytes());
    let exe = b"new build".to_vec();
    let sig = key.sign(&exe).to_bytes().to_vec();

    let good = Patched { exe: exe.clone(), embedded_sig: Some(sig.clone()), authentic: true };
    match on_delta(Some(good), &key_b64, "2".to_string()) {
        UpdateStep::Stage { exe: e, sig: s, version } => {
            assert_eq!((e, s, version.as_str()), (exe.clone(), sig.clone(), "2"));
        }
        _ => panic!("the signature holds"),
    }
    let bad = Patched { exe: exe.clone(), embedded_sig: Some(vec![0; 64]), authentic: true };
    assert!(matches!(
        on_delta(Some(bad), &key_b64, "2".to_string()),
        UpdateStep::GetSignature { origin: Origin::FramedPatch, .. }
    ));
    let unsigned = Patched { exe: exe.clone(), embedded_sig: None, authentic: false };
    assert!(matches!(
        on_delta(Some(unsigned), &key_b64, "2".to_string()),
        UpdateStep::GetSignature { origin: Origin::PlainPatch, .. }
    ));
    assert!(matches!(on_delta(None, &key_b64, "2".to_string()), UpdateStep::GetExe { .. }));

    for origin in [Origin::Whole, Origin::PlainPatch, Origin::FramedPatch] {
        match on_signature(exe.clone(), origin, Ok(sig.clone()), &key_b64, "2".to_string()) {
            UpdateStep::Stage { sig: s, .. } => assert_eq!(s, sig),
            _ => panic!("staged"),
        }
    }
    for reply in [Ok(vec![1; 64]), Ok(vec![1; 3]), Err("HTTP 404".to_string())] {
        match on_signature(exe.clone(), Origin::FramedPatch, reply, &key_b64, "2".to_string()) {
            UpdateStep::Stage { sig: s, exe: e, .. } => {
                assert!(s.is_empty());
                assert_eq!(e, exe);
            }
            _ => panic!("staged"),
        }
    }
}

#[test]
fn nothing_else_is_staged_without_a_signature() {
    let key = ed25519_dalek::SigningKey::from_bytes(&[3u8; 32]);
    let key_b64 = BASE64_STANDARD.encode(key.verifying_key().to_bytes());
    let refused = |reply: Result<Vec<u8>, String>| {
        match on_signature(b"new build".to_vec(), Origin::Whole, reply, &key_b64, "2".to_string()) {
            UpdateStep::Done(UpdateOutcome::Failed(text)) => text,
            _ => panic!("refused"),
        }
    };
    assert_eq!(
        refused(Err("server returned HTTP 404".to_string())),
        "couldn't get the update signature: server returned HTTP 404"
    );
    assert_eq!(
        refused(Ok(vec![1; 3])),
        "update signature rejected: signature must be 64 raw bytes, got 3"
    );
    assert_eq!(
        refused(Ok(vec![1; 64])),
        "update signature rejected: signature doesn't match the downloaded exe"
    );
    // After a plain patch the whole build is tried.
    for reply in [Ok(vec![1; 64]), Err("HTTP 404".to_string())] {
        let step = on_signature(vec![1], Origin::PlainPatch, reply, &key_b64, "2".to_string());
        assert!(matches!(step, UpdateStep::GetExe { version } if version == "2"));
    }
}

#[test]
fn a_missing_package_is_explained() {
    let failed = |err: &str| match on_exe(Err(err.to_string()), "1.2", "1.4".to_string()) {
        UpdateStep::Done(UpdateOutcome::Failed(text)) => text,
        _ => panic!("nothing was downloaded"),
    };
    assert_eq!(
        failed("server returned HTTP 404 Not Found"),
        "Update v1.4 is advertised, but no package for your build (v1.2) is on the server. \
         Need deltas/HexaTalk-1.2-1.4.delta or HexaTalk.exe (404)."
    );
    assert_eq!(
        failed("timeout"),
        "No usable delta for 1.2→1.4, and full download failed: timeout"
    );
    assert!(matches!(
        on_exe(Ok(vec![1]), "1.2", "1.4".to_string()),
        UpdateStep::GetSignature { origin: Origin::Whole, .. }
    ));
}

#[test]
fn staging_ends_the_check() {
    assert_eq!(
        staged_paths("/opt/HexaTalk"),
        ("/opt/HexaTalk.new".to_string(), "/opt/HexaTalk.new.sig".to_string())
    );
    let text = |s: Staged| match on_staged(s, "2".to_string()) {
        (UpdateOutcome::Failed(text), remove) => (text, remove),
        _ => panic!("failed"),
    };
    assert_eq!(text(Staged::Nowhere), ("couldn't locate the running executable".to_string(), false));
    assert_eq!(
        text(Staged::ExeUnsaved("disk full".to_string())),
        ("couldn't save downloaded update: disk full".to_string(), false)
    );
    assert_eq!(
        text(Staged::SigUnsaved("disk full".to_string())),
        ("couldn't save update signature: disk full".to_string(), true)
    );
    match on_staged(Staged::Saved("/opt/x.new".to_string()), "2".to_string()) {
        (UpdateOutcome::Downloaded { path, version }, false) => {
            assert_eq!((path.as_str(), version.as_str()), ("/opt/x.new", "2"));
        }
        _ => panic!("saved"),
    }
}

#[test]
fn downloads_stay_within_their_limits() {
    assert_eq!(limits(Artifact::Version).max_bytes, 1024);
    assert_eq!(limits(Artifact::Delta).max_bytes, 64 * 1024 * 1024);
    assert_eq!(limits(Artifact::Exe).timeout_secs, 300);
    assert_eq!(limits(Artifact::Signature).max_bytes, 4096);
    assert_eq!(check_answer(true, "200 OK", Some(10), 10), Ok(()));
    assert_eq!(check_answer(true, "200 OK", None, 10), Ok(()));
    assert_eq!(
        check_answer(true, "200 OK", Some(11), 10),
        Err("download too large (11 bytes)".to_string())
    );
    assert_eq!(
        check_answer(false, "404 Not Found", None, 10),
        Err("server returned HTTP 404 Not Found".to_string())
    );
    let mut buf = vec![1, 2];
    assert_eq!(take_chunk(&mut buf, &[3, 4], 5), Ok(()));
    assert_eq!(
        take_chunk(&mut buf, &[5, 6], 5),
        Err("download exceeded the size cap".to_string())
    );
    assert_eq!(buf, vec![1, 2, 3, 4]);
}

#[test]
fn builds_are_swapped_as_the_system_allows() {
    match stage_exe_swap(Platform::Windows, r"\\?\C:\a.new", Some(r"\\?\C:\a.exe"), true, true) {
        SwapPlan::Command(s) => assert_eq!(
            s,
            "ping -n 2 127.0.0.1 >nul & move /Y \"C:\\a.new\" \"C:\\a.exe\" & del \"C:\\a.new.sig\" & start \"\" \"C:\\a.exe\""
        ),
        _ => panic!("a command"),
    }
    match stage_exe_swap(Platform::Windows, r"C:\a.new", Some(r"C:\a.exe"), true, false) {
        SwapPlan::Command(s) => assert!(s.ends_with("del \"C:\\a.new.sig\"")),
        _ => panic!("a command"),
    }
    match stage_exe_swap(Platform::Unix, "/a.new", Some("/a"), true, true) {
        SwapPlan::Shell { staged, exe, relaunch } => {
            assert_eq!((staged.as_str(), exe.as_str(), relaunch), ("/a.new", "/a", "1"));
        }
        _ => panic!("a shell"),
    }
    match stage_exe_swap(Platform::Unix, "/a.new", Some("/a"), false, true) {
        SwapPlan::Discard { staged, sig } => {
            assert_eq!((staged.as_str(), sig.as_str()), ("/a.new", "/a.new.sig"));
        }
        _ => panic!("discarded"),
    }
    assert!(matches!(stage_exe_swap(Platform::Unix, "/a.new", None, true, true), SwapPlan::Skip));
    assert!(matches!(
        stage_exe_swap(Platform::MacOs, "/a.new", Some("/a"), true, true),
        SwapPlan::Skip
    ));
}

#[test]
fn packages_are_named_by_system() {
    assert_eq!(update_artifact_stem("windows", "x86_64"), "HexaTalk");
    assert_eq!(update_artifact_stem("linux", "x86_64"), "HexaTalk-linux-x86_64.AppImage");
    assert_eq!(update_artifact_stem("linux", "aarch64"), "HexaTalk-linux-aarch64.AppImage");
    assert_eq!(update_artifact_stem("linux", "riscv64"), "HexaTalk");
}

#[test]
fn the_icon_is_a_square() {
    let p = icon_pixels();
    assert_eq!(p.len(), 32 * 32 * 4);
    let at = |x: usize, y: usize| &p[(y * 32 + x) * 4..(y * 32 + x) * 4 + 4];
    assert_eq!(at(2, 10), [0, 0, 0, 0]);
    assert_eq!(at(3, 3), [0x30, 0x72, 0x52, 0xFF]);
    assert_eq!(at(28, 28), [0x30, 0x72, 0x52, 0xFF]);
    assert_eq!(at(29, 28), [0, 0, 0, 0]);
}

#[test]
fn the_tray_reacts() {
    assert!(matches!(react(TrayInput::DoubleClick), (Some(TrayEvent::Show), true)));
    assert!(matches!(react(TrayInput::OtherClick), (None, true)));
    assert!(matches!(react(TrayInput::Menu("show")), (Some(TrayEvent::Show), true)));
    assert!(matches!(react(TrayInput::Menu("quit")), (Some(TrayEvent::Quit), false)));
    assert!(matches!(react(TrayInput::Menu("other")), (None, true)));
    match setup_failed(SetupStep::ShowItem, "no menu") {
        TrayEvent::Unavailable(s) => assert_eq!(s, "tray menu (show item): no menu"),
        _ => panic!("unavailable"),
    }
}
