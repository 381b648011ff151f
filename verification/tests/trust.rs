//! Verified peers.

use hexatalk::paths::Root;
use hexatalk::state::trust::{store_path, TrustBadge, VerifiedPeerEntry, VerifiedPeerStore};

fn root() -> Root {
    Root { base: "/data".to_string(), separator: '/' }
}

#[test]
fn status_for_unknown_peer_is_unverified() {
    let store = VerifiedPeerStore::default();
    assert_eq!(store.status_for("alice", "fp-a"), TrustBadge::Unverified);
}

#[test]
fn status_for_matching_fingerprint_is_verified() {
    let mut store = VerifiedPeerStore::default();
    store.owner_user_id = "me".to_string();
    store.entries.insert(
        "alice".to_string(),
        VerifiedPeerEntry { fingerprint: "fp-a".to_string(), verified_at: 0 },
    );
    assert_eq!(store.status_for("alice", "fp-a"), TrustBadge::Verified);
}

#[test]
fn status_for_changed_fingerprint_warns_instead_of_forgetting() {
    let mut store = VerifiedPeerStore::default();
    store.owner_user_id = "me".to_string();
    store.entries.insert(
        "alice".to_string(),
        VerifiedPeerEntry { fingerprint: "fp-old".to_string(), verified_at: 0 },
    );
    assert_eq!(
        store.status_for("alice", "fp-new"),
        TrustBadge::FingerprintChanged { old: "fp-old".to_string() }
    );
}

#[test]
fn a_verification_is_remembered_under_the_owner() {
    let mut store = VerifiedPeerStore::loaded(None, "me@example.com");
    assert_eq!(store.owner_user_id, "me@example.com");
    let saved = store.mark_verified(&root(), "alice", "fp-a");
    assert!(saved.is_ok());
    assert_eq!(store.status_for("alice", "fp-a"), TrustBadge::Verified);
    assert_eq!(
        store.status_for("alice", "fp-b"),
        TrustBadge::FingerprintChanged { old: "fp-a".to_string() }
    );
    assert_eq!(store.status_for("bob", "fp-a"), TrustBadge::Unverified);
    let entry = store.entries.get("alice").unwrap();
    assert!(entry.verified_at > 1_600_000_000_000);
}

#[test]
fn a_verification_leaves_the_others_alone() {
    let mut store = VerifiedPeerStore::loaded(None, "me");
    assert!(store.mark_verified_at(&root(), "bob", "fp-b", 7).is_ok());
    assert!(store.mark_verified(&root(), "alice", "fp-a").is_ok());
    let bob = store.entries.get("bob").unwrap();
    assert_eq!((bob.fingerprint.as_str(), bob.verified_at), ("fp-b", 7));
}

#[test]
fn a_store_without_an_owner_has_no_file() {
    let store = VerifiedPeerStore::default();
    assert!(store.save_path(&root()).is_err());
    let named = VerifiedPeerStore::loaded(None, "owner123");
    assert_eq!(named.save_path(&root()), Ok(store_path(&root(), "owner123")));
}
