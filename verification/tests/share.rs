//! What can be shared in a call.

use hexatalk::state::types::ShareTarget;
use hexatalk::ui::share_targets::{decode_share_target, encode_share_target, share_target_rows};

#[test]
fn share_target_round_trips() {
    let targets = vec![
        ShareTarget::Monitor("DISPLAY1".to_string()),
        ShareTarget::Window("HexaTalk".to_string()),
        // Window titles can contain the same separator the encoding
        // uses -- the id must still decode to the full title.
        ShareTarget::Window("window: tricky: title".to_string()),
        ShareTarget::Window(String::new()),
    ];
    for target in &targets {
        let encoded = encode_share_target(target);
        let decoded = decode_share_target(&encoded);
        assert_eq!(decoded.as_ref(), Some(target), "round-trip of {encoded}");
    }
}

#[test]
fn decode_rejects_unknown_prefix() {
    assert_eq!(decode_share_target(""), None);
    assert_eq!(decode_share_target("screen:1"), None);
    assert_eq!(decode_share_target("monitor"), None);
}

#[test]
fn share_target_labels_distinguish_kinds() {
    let rows = share_target_rows(&[
        ShareTarget::Monitor("DISPLAY1".to_string()),
        ShareTarget::Window("HexaTalk".to_string()),
    ]);
    assert_eq!(rows.len(), 2);
    assert!(rows[0].label.contains("entire screen"));
    assert!(rows[1].label.contains("app window"));
    assert_ne!(rows[0].id, rows[1].id);
}

#[test]
fn share_rows_say_what_they_are() {
    let rows = share_target_rows(&[ShareTarget::Monitor("DISPLAY1".to_string())]);
    assert_eq!(rows[0].id, "monitor:DISPLAY1");
    assert_eq!(rows[0].label, "DISPLAY1 — entire screen");
    assert_eq!(ShareTarget::Window("a".to_string()).label(), "a");
}
