//! Update packages.

use aes_gcm::aead::{Aead, KeyInit};
use aes_gcm::{Aes256Gcm, Nonce};
use base64::prelude::{Engine as _, BASE64_STANDARD};
use ed25519_dalek::Signer;
use hexatalk::delta::{
    apply_delta, decrypt_delta_blob, staged_file_signature_valid, verified_sig, verify_bytes,
};

const DELTA_MAGIC: &[u8; 4] = b"HTD1";
const DELTA_NONCE_LEN: usize = 12;
const DELTA_TAG_LEN: usize = 16;
const ED25519_SIG_LEN: usize = 64;

fn key() -> [u8; 32] {
    let mut k = [0u8; 32];
    for (i, b) in k.iter_mut().enumerate() {
        *b = 3 * i as u8 + 1;
    }
    k
}

fn key_b64() -> String {
    BASE64_STANDARD.encode(key())
}

fn frame(nonce_byte: u8, plain: &[u8]) -> Vec<u8> {
    let cipher = Aes256Gcm::new_from_slice(&key()).unwrap();
    let nonce_bytes = [nonce_byte; DELTA_NONCE_LEN];
    let ct = cipher.encrypt(Nonce::from_slice(&nonce_bytes), plain).unwrap();
    let mut blob = Vec::new();
    blob.extend_from_slice(DELTA_MAGIC);
    blob.extend_from_slice(&nonce_bytes);
    blob.extend_from_slice(&ct);
    blob
}

fn signing_key() -> ed25519_dalek::SigningKey {
    ed25519_dalek::SigningKey::from_bytes(&[11u8; 32])
}

fn public_b64() -> String {
    BASE64_STANDARD.encode(signing_key().verifying_key().to_bytes())
}

#[test]
fn decrypt_delta_accepts_legacy_plain() {
    let plain = b"not-a-real-qbsdiff-but-legacy-shape";
    let out = decrypt_delta_blob(plain, &key_b64()).expect("plain should pass through");
    assert_eq!(out.patch, plain);
    assert!(out.embedded_sig.is_none());
}

#[test]
fn decrypt_delta_roundtrip_htd1() {
    let plain = b"fake-qbsdiff-payload-for-unit-test";
    let key_raw = BASE64_STANDARD.decode(key_b64()).expect("baked key b64");
    let key: [u8; 32] = key_raw.try_into().expect("32 bytes");
    let cipher = Aes256Gcm::new_from_slice(&key).unwrap();
    let nonce_bytes = [7u8; DELTA_NONCE_LEN];
    let nonce = Nonce::from_slice(&nonce_bytes);
    let ct = cipher.encrypt(nonce, plain.as_ref()).unwrap();
    let mut blob = Vec::new();
    blob.extend_from_slice(DELTA_MAGIC);
    blob.extend_from_slice(&nonce_bytes);
    blob.extend_from_slice(&ct);

    let out = decrypt_delta_blob(&blob, &key_b64()).expect("HTD1 decrypt");
    assert_eq!(out.patch, plain);
    assert!(out.embedded_sig.is_none());
}

#[test]
fn decrypt_delta_roundtrip_htd1_with_trailing_sig() {
    let plain = b"fake-qbsdiff-payload-for-unit-test";
    let sig = [0xABu8; ED25519_SIG_LEN];
    let key_raw = BASE64_STANDARD.decode(key_b64()).expect("baked key b64");
    let key: [u8; 32] = key_raw.try_into().expect("32 bytes");
    let cipher = Aes256Gcm::new_from_slice(&key).unwrap();
    let nonce_bytes = [9u8; DELTA_NONCE_LEN];
    let nonce = Nonce::from_slice(&nonce_bytes);
    let ct = cipher.encrypt(nonce, plain.as_ref()).unwrap();
    let mut blob = Vec::new();
    blob.extend_from_slice(DELTA_MAGIC);
    blob.extend_from_slice(&nonce_bytes);
    blob.extend_from_slice(&ct);
    blob.extend_from_slice(&sig);

    let out = decrypt_delta_blob(&blob, &key_b64()).expect("HTD1+sig decrypt");
    assert_eq!(out.patch, plain);
    assert_eq!(out.embedded_sig.as_deref(), Some(sig.as_slice()));
}

#[test]
fn decrypt_delta_rejects_bad_tag() {
    let mut blob = Vec::from(DELTA_MAGIC.as_slice());
    blob.extend_from_slice(&[0u8; DELTA_NONCE_LEN + DELTA_TAG_LEN + 8]);
    assert!(decrypt_delta_blob(&blob, &key_b64()).is_none());
}

#[test]
fn long_unsigned_deltas_come_back() {
    let plain = vec![5u8; 500];
    let out = decrypt_delta_blob(&frame(1, &plain), &key_b64()).unwrap();
    assert_eq!(out.patch, plain);
    assert!(out.embedded_sig.is_none());
}

#[test]
fn frames_need_their_key() {
    let blob = frame(2, b"patch");
    assert!(decrypt_delta_blob(&blob, "not base64!").is_none());
    assert!(decrypt_delta_blob(&blob, &BASE64_STANDARD.encode([1u8; 16])).is_none());
    assert!(decrypt_delta_blob(&blob, &BASE64_STANDARD.encode([1u8; 32])).is_none());
    // The magic alone is a frame that is too short.
    assert!(decrypt_delta_blob(b"HTD1", &key_b64()).is_none());
    // Three bytes of it are no frame.
    assert_eq!(decrypt_delta_blob(b"HTD", &key_b64()).unwrap().patch, b"HTD");
}

#[test]
fn signatures_are_checked_in_full() {
    let exe = b"a build";
    let sig = signing_key().sign(exe).to_bytes();
    assert_eq!(verify_bytes(exe, &sig, &public_b64()), Ok(()));
    assert_eq!(
        verify_bytes(b"another build", &sig, &public_b64()),
        Err("signature doesn't match the downloaded exe".to_string())
    );
    assert_eq!(
        verify_bytes(exe, &sig[..10], &public_b64()),
        Err("signature must be 64 raw bytes, got 10".to_string())
    );
    assert_eq!(
        verify_bytes(exe, &sig, &BASE64_STANDARD.encode([1u8; 31])),
        Err("embedded update key must be 32 bytes".to_string())
    );
    let bad = verify_bytes(exe, &sig, "***").unwrap_err();
    assert!(bad.starts_with("embedded update key is invalid: "));
    assert!(bad.len() > "embedded update key is invalid: ".len());
    // Bytes that are no point of the curve are no key.
    let mut off_curve = [0u8; 32];
    off_curve[0] = 2;
    let err = verify_bytes(exe, &sig, &BASE64_STANDARD.encode(off_curve)).unwrap_err();
    assert!(err.starts_with("embedded update key is invalid: "));
    assert_eq!(verified_sig(exe, sig.to_vec(), &public_b64()), Some(sig.to_vec()));
    assert_eq!(verified_sig(b"x", sig.to_vec(), &public_b64()), None);
}

#[test]
fn staged_builds_need_both_files() {
    let exe = b"a build".to_vec();
    let sig = signing_key().sign(&exe).to_bytes().to_vec();
    let key = public_b64();
    assert!(staged_file_signature_valid(Some(&exe), Some(&sig), &key));
    assert!(staged_file_signature_valid(Some(&exe), Some(&Vec::new()), &key));
    assert!(!staged_file_signature_valid(Some(&Vec::new()), Some(&Vec::new()), &key));
    assert!(!staged_file_signature_valid(Some(&exe), Some(&vec![0; 64]), &key));
    assert!(!staged_file_signature_valid(Some(&exe), None, &key));
    assert!(!staged_file_signature_valid(None, Some(&sig), &key));
}

#[test]
fn a_patch_makes_the_new_build() {
    let old = vec![7u8; 4000];
    let mut new = old.clone();
    new[100] = 9;
    new.extend_from_slice(b"and more");
    let mut patch = Vec::new();
    qbsdiff::Bsdiff::new(&old, &new).compare(std::io::Cursor::new(&mut patch)).unwrap();

    let plain = apply_delta(&patch, &old, &key_b64()).unwrap();
    assert_eq!(plain.exe, new);
    assert!(plain.embedded_sig.is_none());
    assert!(!plain.authentic);

    let mut blob = frame(4, &patch);
    blob.extend_from_slice(&[0x5Au8; 64]);
    let sealed = apply_delta(&blob, &old, &key_b64()).unwrap();
    assert!(sealed.authentic);
    assert_eq!(sealed.exe, new);
    assert_eq!(sealed.embedded_sig, Some(vec![0x5Au8; 64]));
}

#[test]
fn broken_patches_make_nothing() {
    assert!(apply_delta(b"no patch at all", b"exe", &key_b64()).is_none());
    // Sizes in the header that cannot be added up.
    let mut huge = b"BSDIFF40".to_vec();
    huge.extend_from_slice(&[0xFFu8; 40]);
    assert!(apply_delta(&huge, b"exe", &key_b64()).is_none());
}
