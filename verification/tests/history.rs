//! The local vault, paths and settings files.

use hexatalk::paths::{join, safe_name, Root};
use hexatalk::state::history::{
    append_message, chat_path, decrypt_blob, encode_export_marker, encrypt_blob,
    encrypt_blob_with, hex_decode_32, identity_private, is_media_url_tag, media_id_from_url,
    media_path, media_url_tag, recent_messages, talkyss_root, vault_dir, vault_key_fingerprint,
    vault_key_from_identity_private, vault_root_display, StoredMessage,
};
use hexatalk::state::settings_store::{settings_file_path, settings_temp_path};
use hexatalk::strmap::{StrMap, StrSet};

fn root() -> Root {
    Root { base: "/data".to_string(), separator: '/' }
}

fn message(id: &str) -> StoredMessage {
    StoredMessage {
        id: id.to_string(),
        author_id: "u".to_string(),
        author_name: "U".to_string(),
        author_avatar_color: String::new(),
        body: "hi".to_string(),
        sent_at: 1,
        has_media: false,
        media_content_type: String::new(),
    }
}

#[test]
fn paths_stay_below_the_root() {
    assert_eq!(talkyss_root(&root()), "/data/Talkyss");
    assert_eq!(vault_dir(&root(), "u1"), "/data/Talkyss/vault/u1");
    assert_eq!(vault_root_display(&root(), "u1"), "/data/Talkyss/vault/u1");
    assert!(chat_path(&root(), "u1", "a/../b").starts_with("/data/Talkyss/vault/u1/"));
    assert!(!chat_path(&root(), "u1", "a/../b").contains(".."));
    assert!(!media_path(&root(), "u1", "c", "../m").contains(".."));
    assert_eq!(safe_name("a/b-c_d.é", true), "a_b-c_d__");
    assert_eq!(safe_name("a/b-c", false), "a_b_c");
    assert_eq!(join("/x/", '/', "y"), "/x/y");
    assert!(settings_file_path(&root()).starts_with("/data"));
    assert_ne!(settings_file_path(&root()), settings_temp_path(&root()));
}

#[test]
fn blobs_open_with_their_key() {
    let key = [4u8; 32];
    let blob = encrypt_blob(&key, b"secret").unwrap();
    assert_eq!(blob.len(), 1 + 12 + 6 + 16);
    assert_ne!(&blob[13..19], b"secret");
    assert_eq!(decrypt_blob(&key, &blob), Some(b"secret".to_vec()));
    assert_eq!(decrypt_blob(&[5u8; 32], &blob), None);
    let mut bent = blob.clone();
    bent[14] ^= 1;
    assert_eq!(decrypt_blob(&key, &bent), None);
    assert_eq!(decrypt_blob(&key, &blob[..20]), None);
    assert_eq!(decrypt_blob(&key, &[]), None);
    let other = encrypt_blob(&key, b"secret").unwrap();
    assert_ne!(blob, other);
    let fixed = encrypt_blob_with(&key, &[0u8; 12], b"secret").unwrap();
    assert_eq!(fixed, encrypt_blob_with(&key, &[0u8; 12], b"secret").unwrap());
    assert_eq!(&fixed[1..13], &[0u8; 12]);
}

#[test]
fn vault_keys_are_derived() {
    let key = vault_key_from_identity_private(&[1u8; 32]);
    assert_ne!(key, [1u8; 32]);
    assert_eq!(key, vault_key_from_identity_private(&[1u8; 32]));
    assert_ne!(key, vault_key_from_identity_private(&[2u8; 32]));
    // The first bytes of the SHA-256 of 32 zero bytes.
    assert_eq!(vault_key_fingerprint(&[0u8; 32]), "66687aad");
    assert_eq!(encode_export_marker("me"), "dGFsa3lzcy12YXVsdDptZQ==");
}

#[test]
fn hexadecimal_keys_are_read() {
    let text = "00ff".repeat(16);
    let key = hex_decode_32(&text).unwrap();
    assert_eq!(key[0], 0);
    assert_eq!(key[31], 255);
    assert_eq!(hex_decode_32(&text[1..]), None);
    assert_eq!(hex_decode_32(&"zz".repeat(32)), None);
    assert_eq!(hex_decode_32(""), None);
    assert!(identity_private("").is_none());
}

#[test]
fn the_newest_messages_stay() {
    let list: Vec<StoredMessage> = (0..3).map(|i| message(&format!("m{i}"))).collect();
    assert!(append_message(list, message("m1")).is_none());
    let list: Vec<StoredMessage> = (0..3).map(|i| message(&format!("m{i}"))).collect();
    let saved = append_message(list, message("m9")).unwrap();
    assert_eq!(saved.len(), 4);
    assert_eq!(saved[3].id, "m9");
    let many: Vec<StoredMessage> = (0..9000).map(|i| message(&format!("m{i}"))).collect();
    let kept = recent_messages(many);
    assert!(kept.len() < 9000);
    assert_eq!(kept.last().unwrap().id, "m8999");
    let full = append_message(kept, message("new")).unwrap();
    assert_eq!(full.last().unwrap().id, "new");
}

#[test]
fn media_tags_carry_the_id() {
    let tag = media_url_tag("m1");
    assert_eq!(tag, "vaultmedia:m1");
    assert!(is_media_url_tag(&tag));
    assert!(!is_media_url_tag("https://x/m1"));
    assert_eq!(media_id_from_url(&tag), Some("m1".to_string()));
    assert_eq!(media_id_from_url("m1"), None);
}

#[test]
fn text_maps_and_sets() {
    let mut m: StrMap<u32> = StrMap::new();
    m.insert("a".to_string(), 1);
    m.insert("b".to_string(), 2);
    m.insert("a".to_string(), 3);
    assert_eq!(m.get("a"), Some(&3));
    assert_eq!(m.take("b"), Some(2));
    assert!(!m.contains("b"));
    assert_eq!(m.keys(), vec!["a".to_string()]);
    m.clear();
    assert_eq!(m.get("a"), None);
    let mut s = StrSet::new();
    s.toggle("x".to_string());
    assert!(s.contains("x"));
    s.toggle("x".to_string());
    assert!(!s.contains("x"));
}
