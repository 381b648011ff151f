//! Mentions in message texts.

use hexatalk::ui::mentions::{
    active_at_token, complete, has_everyone, mentions_any, parse_mentions, resolve_mentions,
    snippet, suggest,
};

fn names(list: &[&str]) -> Vec<String> {
    list.iter().map(|s| s.to_string()).collect()
}

#[test]
fn snippet_truncates_and_flattens() {
    assert_eq!(snippet("short body", 140), "short body");
    assert_eq!(snippet("line one\nline two", 140), "line one line two");
    let long = "x".repeat(200);
    let out = snippet(&long, 140);
    assert_eq!(out.chars().count(), 140);
    assert!(out.ends_with('…'));
}

#[test]
fn mentions_basic_case_insensitive() {
    let m = parse_mentions("hey @ratko check this", &names(&["Ratko"]));
    assert_eq!(m.len(), 1);
    assert_eq!(m[0].name, "Ratko");
    assert!(!m[0].everyone);
    assert_eq!(&"hey @ratko check this"[m[0].start..m[0].end], "@ratko");
}

#[test]
fn mentions_longest_first_with_spaces() {
    let both = names(&["Anna", "Anna Maria"]);
    let m = parse_mentions("@Anna Maria are you here?", &both);
    assert_eq!(m.len(), 1);
    assert_eq!(m[0].name, "Anna Maria");
}

#[test]
fn mentions_requires_trailing_boundary() {
    // "Annette" must not match candidate "Anne".
    assert!(parse_mentions("@Annette hi", &names(&["Anne"])).is_empty());
    // Punctuation after the name is fine.
    assert_eq!(parse_mentions("@Anne, hi", &names(&["Anne"])).len(), 1);
}

#[test]
fn mentions_requires_leading_boundary() {
    // E-mail style tokens never match.
    assert!(parse_mentions("mail me at anne@example.com", &names(&["example"])).is_empty());
    // Start of text and after whitespace/punctuation are fine.
    assert_eq!(parse_mentions("@Anne hi", &names(&["Anne"])).len(), 1);
    assert_eq!(parse_mentions("(@Anne) hi", &names(&["Anne"])).len(), 1);
}

#[test]
fn mentions_everyone_literal_any_case() {
    assert!(has_everyone("ping @everyone now"));
    assert!(has_everyone("@Everyone"));
    assert!(!has_everyone("@everyoneelse"));
    assert!(!has_everyone("no mentions here"));
    let m = parse_mentions("@everyone", &[]);
    assert_eq!(m.len(), 1);
    assert!(m[0].everyone);
}

#[test]
fn mentions_multiple_and_any() {
    let m = parse_mentions("@Anna and @Bob + @everyone", &names(&["Anna", "Bob"]));
    assert_eq!(m.len(), 3);
    assert!(mentions_any("@bob!", &names(&["Bob"])));
    assert!(!mentions_any("@bob!", &names(&["Alice"])));
    // mentions_any must not fire on @everyone alone.
    assert!(!mentions_any("@everyone", &names(&["Alice"])));
}

#[test]
fn mentions_skips_unknown_names() {
    assert!(parse_mentions("@ghost hello", &names(&["Anna"])).is_empty());
    // Unknown tokens don't swallow later real mentions.
    let m = parse_mentions("@ghost then @Anna", &names(&["Anna"]));
    assert_eq!(m.len(), 1);
    assert_eq!(m[0].name, "Anna");
}

#[test]
fn resolve_maps_names_to_ids() {
    let cands: Vec<(String, String)> = vec![
        ("Ratko".to_string(), "u1".to_string()),
        ("Anna Maria".to_string(), "u2".to_string()),
        ("Bob".to_string(), "u3".to_string()),
    ];
    let (ids, everyone) =
        resolve_mentions("hey @ratko and @Anna Maria, ping @everyone", &cands);
    assert_eq!(ids, vec!["u1".to_string(), "u2".to_string()]);
    assert!(everyone);
}

#[test]
fn resolve_dedupes_and_skips_unknown() {
    let cands: Vec<(String, String)> = vec![("Ratko".to_string(), "u1".to_string())];
    // Same user mentioned twice -> one id; unknown names never resolve.
    let (ids, everyone) = resolve_mentions("@Ratko @ghost @RATKO", &cands);
    assert_eq!(ids, vec!["u1".to_string()]);
    assert!(!everyone);
    // No candidates at all -> no ids, but @everyone still flags.
    let (ids, everyone) = resolve_mentions("@Ratko @everyone", &[]);
    assert!(ids.is_empty());
    assert!(everyone);
}

#[test]
fn resolve_first_candidate_wins_on_duplicate_names() {
    let cands: Vec<(String, String)> = vec![
        ("Sam".to_string(), "u1".to_string()),
        ("Sam".to_string(), "u2".to_string()),
    ];
    let (ids, _) = resolve_mentions("@Sam hi", &cands);
    assert_eq!(ids, vec!["u1".to_string()]);
}

#[test]
fn suggest_active_token() {
    assert_eq!(active_at_token("hello @ra"), Some((6, "ra".to_string())));
    assert_eq!(active_at_token("@"), Some((0, String::new())));
    assert_eq!(active_at_token("no at here"), None);
    assert_eq!(active_at_token("mail@x"), None);
}

#[test]
fn suggest_filters_and_caps() {
    let cands = names(&["Ratko", "Rita", "Anna", "everyone"]);
    assert_eq!(suggest("@r", &cands, 8), names(&["Ratko", "Rita"]));
    assert_eq!(
        suggest("@", &cands, 8),
        names(&["Anna", "everyone", "Ratko", "Rita"])
    );
    assert_eq!(suggest("@", &cands, 2), names(&["Anna", "everyone"]));
    assert_eq!(suggest("@zzz", &cands, 8), Vec::<String>::new());
    assert_eq!(suggest("plain text", &cands, 8), Vec::<String>::new());
}

#[test]
fn complete_replaces_token() {
    assert_eq!(complete("hi @ra", "Ratko"), "hi @Ratko ");
    assert_eq!(complete("@ev", "everyone"), "@everyone ");
    assert_eq!(complete("@", "Anna Maria"), "@Anna Maria ");
    // No active token: append.
    assert_eq!(complete("hello", "Ratko"), "hello @Ratko ");
    // Text after the last '@' is still a (space-containing) prefix, so
    // it gets replaced -- the popup only opens when a candidate matches
    // that prefix anyway.
    assert_eq!(complete("@Ratko done", "Anna"), "@Anna ");
    // Prefix way too long to be a name: token is stale, append instead.
    let long_tail = format!("@{}", "x".repeat(40));
    assert_eq!(complete(&long_tail, "Anna"), format!("{long_tail} @Anna "));
}

#[test]
fn picked_names_ping() {
    for input in ["", "hi @ra", "@everyone and", "mail@", "x@@", "so long, @"] {
        let text = complete(input, "Ratko");
        assert!(mentions_any(&text, &names(&["Ratko"])), "{text}");
    }
    // The token for all is no ping by name.
    assert!(!mentions_any(&complete("", "everyone"), &names(&["everyone"])));
}

#[test]
fn whatever_is_no_letter_or_digit_bounds_a_mention() {
    let m = parse_mentions("_@Anne hi", &names(&["Anne"]));
    assert_eq!(m.len(), 1);
    assert_eq!((m[0].start, m[0].end), (1, 6));
    assert_eq!(m[0].name, "Anne");
    assert!(!m[0].everyone);
    assert_eq!(parse_mentions("@Anne_b", &names(&["Anne"])).len(), 1);
    assert!(parse_mentions("7@Anne", &names(&["Anne"])).is_empty());
    assert!(parse_mentions("@Anne7", &names(&["Anne"])).is_empty());
    // The popup takes an underscore for part of a name.
    assert_eq!(active_at_token("_@an"), None);
    // Case beyond the ASCII range counts too.
    assert_eq!(parse_mentions("@ÉVA!", &names(&["Éva"])).len(), 1);
}
