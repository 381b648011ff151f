//! Times, labels, links and small texts.

use hexatalk::state::invites::{build_invite_link, extract_invite_code, hostname_best_effort};
use hexatalk::text::{contains_text, ends_with, split_last, trim};
use hexatalk::ui::utils::{
    format_day, format_day_at, format_relative_time, format_relative_time_at, format_time,
    format_time_at, friend_request_privacy_label, next_friend_request_privacy,
    next_presence_status, presence_label, typing_label,
};

const NOON: i64 = 1_700_000_000_000;

#[test]
fn times_of_day() {
    // 2023-11-14 22:13:20 UTC.
    assert_eq!(format_time_at(NOON, Some(0)), "22:13");
    assert_eq!(format_time_at(NOON, Some(3600)), "23:13");
    assert_eq!(format_time_at(NOON, Some(-23 * 3600)), "23:13");
    assert_eq!(format_time_at(NOON, None), "");
    assert_eq!(format_time_at(i64::MAX, Some(0)), "");
    assert_eq!(format_time_at(-60_000, Some(0)), "23:59");
    assert_eq!(format_time(NOON).len(), 5);
    assert_eq!(format_time(i64::MAX), "");
}

#[test]
fn ages() {
    let at = |ago: i64| format_relative_time_at(NOON, NOON + ago, Some(0));
    assert_eq!(at(-5), "Just now");
    assert_eq!(at(59_999), "Just now");
    assert_eq!(at(60_000), "1m ago");
    assert_eq!(at(59 * 60_000), "59m ago");
    assert_eq!(at(60 * 60_000), "1h ago");
    assert_eq!(at(23 * 3_600_000), "23h ago");
    assert_eq!(at(24 * 3_600_000), "1d ago");
    assert_eq!(at(6 * 86_400_000), "6d ago");
    assert_eq!(at(7 * 86_400_000), "Nov 14");
    assert_eq!(format_relative_time_at(0, NOON, Some(0)), "");
    assert_eq!(format_relative_time(0), "");
    assert_eq!(format_relative_time(i64::MAX), "Just now");
}

#[test]
fn days() {
    let day = |at: i64| format_day_at(at, Some(0), NOON, 0);
    assert_eq!(day(NOON), "Today");
    assert_eq!(day(NOON - 86_400_000), "Yesterday");
    assert_eq!(day(NOON - 2 * 86_400_000), "November 12, 2023");
    assert_eq!(day(NOON + 86_400_000), "November 15, 2023");
    assert_eq!(format_day_at(NOON, None, NOON, 0), "");
    assert_eq!(format_day(i64::MAX), "");
    // Two hours earlier it is still the same day there, and another one here.
    assert_eq!(format_day_at(NOON, Some(7200), NOON, 7200), "Today");
    assert_eq!(format_day_at(NOON, Some(0), NOON, 7200), "Yesterday");
}

#[test]
fn dates_of_all_times() {
    let day = |at: i64| format_day_at(at, Some(0), NOON, 0);
    assert_eq!(day(0), "January 1, 1970");
    assert_eq!(day(-1), "December 31, 1969");
    assert_eq!(day(951_782_400_000), "February 29, 2000");
    assert_eq!(day(1_709_164_800_000), "February 29, 2024");
    assert_eq!(day(-62_135_596_800_000), "January 1, 0001");
    assert_eq!(day(-62_198_755_200_000), "January 1, -0001");
    assert_eq!(day(253_402_300_800_000), "January 1, +10000");
    // The first and the last instant with a date, moved over the edge.
    assert_eq!(format_time_at(-8_334_601_228_800_000, Some(-3600)), "23:00");
    assert_eq!(format_time_at(8_210_266_876_799_999, Some(3600)), "00:59");
    assert_eq!(format_time_at(8_210_266_876_800_000, Some(0)), "");
    assert_eq!(
        format_day_at(8_210_266_876_799_999, Some(3600), NOON, 0),
        "January 1, +262143"
    );
    assert_eq!(
        format_relative_time_at(951_782_400_000, NOON, Some(-3600)),
        "Feb 28"
    );
}

#[test]
fn labels_and_cycles() {
    let names = |n: usize| (0..n).map(|i| format!("n{i}")).collect::<Vec<String>>();
    assert_eq!(typing_label(&names(0)), None);
    assert_eq!(typing_label(&names(1)).unwrap(), "n0 is typing…");
    assert_eq!(typing_label(&names(2)).unwrap(), "n0 and n1 are typing…");
    assert_eq!(typing_label(&names(3)).unwrap(), "Several people are typing…");
    assert_eq!(presence_label("dnd"), "Do not disturb");
    assert_eq!(presence_label("?"), "Offline");
    assert_eq!(friend_request_privacy_label("mutual_servers"), "Shared servers only");
    let mut p = "online";
    for _ in 0..4 {
        p = next_presence_status(p);
    }
    assert_eq!(p, "online");
    assert_eq!(next_friend_request_privacy("everyone"), "mutual_servers");
    assert_eq!(next_friend_request_privacy("nobody"), "everyone");
}

#[test]
fn invite_links_carry_codes() {
    assert_eq!(build_invite_link("AB12"), "hexatalk://invite/AB12");
    assert_eq!(extract_invite_code("hexatalk://invite/AB12"), "AB12");
    assert_eq!(extract_invite_code("  https://x.test/invite/AB12/ \n"), "AB12");
    assert_eq!(extract_invite_code("AB12"), "AB12");
    assert_eq!(extract_invite_code("/AB12/"), "AB12");
    assert_eq!(extract_invite_code("invite/invite/x"), "x");
    assert_eq!(extract_invite_code("   "), "");
    for code in ["AB12", "a/b", "invite", ""] {
        assert_eq!(extract_invite_code(&build_invite_link(code)), code);
    }
    // A code with the marker in it does not survive.
    assert_ne!(extract_invite_code(&build_invite_link("xinvite/y")), "xinvite/y");
}

#[test]
fn hosts_have_names() {
    let s = |t: &str| Some(t.to_string());
    assert_eq!(hostname_best_effort(s("pc"), s("host")), "pc");
    assert_eq!(hostname_best_effort(None, s("host")), "host");
    assert_eq!(hostname_best_effort(None, None), "device");
}

#[test]
fn text_helpers() {
    assert_eq!(trim("\t a b\u{a0}\u{3000}\n"), "a b");
    assert!(contains_text("abcabd", "abd"));
    assert!(!contains_text("abc", "abcd"));
    assert!(contains_text("abc", ""));
    assert!(ends_with("photo.png", ".png"));
    assert!(!ends_with("png", ".png"));
    assert_eq!(split_last("a/b/c", "/"), Some("c".to_string()));
    assert_eq!(split_last("abc", "/"), None);
    assert_eq!(split_last("abc", ""), Some(String::new()));
}
