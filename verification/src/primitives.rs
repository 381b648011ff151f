//! Cryptographic and patching primitives of outside crates, as functions from
//! bytes to bytes.

use aes_gcm::aead::{Aead, KeyInit};
use base64::prelude::Engine;
use ed25519_dalek::Verifier;
use rand_core::RngCore;
use sha2::Digest;
use vstd::prelude::*;

verus! {

/// The longest plaintext that AES-GCM's counter has blocks for.
pub const GCM_MAX: u64 = 68_719_476_704;

/// The AES-256-GCM ciphertext of a plaintext, the tag behind it.
pub uninterp spec fn gcm_sealed(key: Seq<u8>, nonce: Seq<u8>, plain: Seq<u8>) -> Seq<u8>;

/// The plaintext of an AES-256-GCM ciphertext, where its tag is right.
pub uninterp spec fn gcm_opened(key: Seq<u8>, nonce: Seq<u8>, sealed: Seq<u8>) -> Option<Seq<u8>>;

/// The 32 bytes that HKDF-SHA256 without a salt derives from key material.
pub uninterp spec fn hkdf_derived(ikm: Seq<u8>, info: Seq<u8>) -> Seq<u8>;

/// The SHA-256 digest.
pub uninterp spec fn sha256_digest(data: Seq<u8>) -> Seq<u8>;

/// The character of the standard base64 alphabet for six bits.
pub open spec fn base64_char(n: int) -> char {
    if n < 26 {
        ('A' as int + n) as char
    } else if n < 52 {
        ('a' as int + n - 26) as char
    } else if n < 62 {
        ('0' as int + n - 52) as char
    } else if n == 62 {
        '+'
    } else {
        '/'
    }
}

/// The standard base64 text of some bytes: four characters for every three
/// bytes, and for one or two bytes at the end four padded with `=`.
pub open spec fn base64_text(data: Seq<u8>) -> Seq<char>
    decreases data.len(),
{
    if data.len() == 0 {
        Seq::empty()
    } else {
        let n = data.len();
        let a = data[0] as int;
        let b = if n > 1 {
            data[1] as int
        } else {
            0
        };
        let c = if n > 2 {
            data[2] as int
        } else {
            0
        };
        let group = seq![
            base64_char(a / 4),
            base64_char(a % 4 * 16 + b / 16),
            if n > 1 {
                base64_char(b % 16 * 4 + c / 64)
            } else {
                '='
            },
            if n > 2 {
                base64_char(c % 64)
            } else {
                '='
            },
        ];
        if n > 3 {
            group + base64_text(data.subrange(3, n as int))
        } else {
            group
        }
    }
}

/// The bytes of a standard base64 text, or what is wrong with it.
pub uninterp spec fn base64_bytes(text: Seq<char>) -> Result<Seq<u8>, Seq<char>>;

/// What is wrong with 32 bytes as an ed25519 public key, if anything.
pub uninterp spec fn ed25519_key_problem(key: Seq<u8>) -> Option<Seq<char>>;

/// The signature is one of the message under the key.
pub uninterp spec fn ed25519_signed(key: Seq<u8>, message: Seq<u8>, signature: Seq<u8>) -> bool;

/// What a bsdiff patch makes of a source, where it applies.
pub uninterp spec fn bsdiff_patched(patch: Seq<u8>, source: Seq<u8>) -> Option<Seq<u8>>;

/// `Aead::encrypt` of `aes_gcm::Aes256Gcm`, without associated data. Up to
/// [`GCM_MAX`] bytes it succeeds; the ciphertext is 16 bytes longer than the
/// plaintext and opens to it under the same key and nonce.
#[verifier::external_body]
pub(crate) fn gcm_seal(key: &[u8; 32], nonce: &[u8; 12], plain: &[u8]) -> (r: Option<Vec<u8>>)
    requires
        plain@.len() <= GCM_MAX,
    ensures
        r is Some,
        r->0@ == gcm_sealed(key@, nonce@, plain@),
        r->0@.len() == plain@.len() + 16,
        gcm_opened(key@, nonce@, r->0@) == Some(plain@),
{
    let cipher = aes_gcm::Aes256Gcm::new_from_slice(key).ok()?;
    cipher.encrypt(aes_gcm::Nonce::from_slice(nonce), plain).ok()
}

/// `Aead::decrypt` of `aes_gcm::Aes256Gcm`, without associated data. It
/// succeeds where the tag is right; the plaintext is 16 bytes shorter than
/// the ciphertext, which must have at least the tag, and sealing it again with
/// the same key and nonce gives that ciphertext. Nothing is said of what a
/// ciphertext does under another key or nonce than its own: that it is refused
/// there is a matter of likelihood.
#[verifier::external_body]
pub(crate) fn gcm_open(key: &[u8; 32], nonce: &[u8; 12], sealed: &[u8]) -> (r: Option<Vec<u8>>)
    requires
        sealed@.len() <= GCM_MAX + 16,
    ensures
        match r {
            Some(plain) => {
                &&& gcm_opened(key@, nonce@, sealed@) == Some(plain@)
                &&& plain@.len() + 16 == sealed@.len()
                &&& gcm_sealed(key@, nonce@, plain@) == sealed@
            },
            None => gcm_opened(key@, nonce@, sealed@) is None,
        },
{
    let cipher = aes_gcm::Aes256Gcm::new_from_slice(key).ok()?;
    cipher.decrypt(aes_gcm::Nonce::from_slice(nonce), sealed).ok()
}

/// `OsRng::fill_bytes`: twelve bytes from the operating system's generator.
/// Nothing is known of them.
#[verifier::external_body]
pub(crate) fn random_nonce() -> (r: [u8; 12]) {
    let mut nonce = [0u8; 12];
    rand_core::OsRng.fill_bytes(&mut nonce);
    nonce
}

/// `Hkdf::<Sha256>::new` without a salt and `expand` to 32 bytes, which is a
/// length that it accepts.
#[verifier::external_body]
pub(crate) fn hkdf_sha256(ikm: &[u8; 32], info: &[u8]) -> (r: [u8; 32])
    ensures
        r@ == hkdf_derived(ikm@, info@),
{
    let mut out = [0u8; 32];
    let _ = hkdf::Hkdf::<sha2::Sha256>::new(None, ikm).expand(info, &mut out);
    out
}

/// `Sha256::digest`.
#[verifier::external_body]
pub(crate) fn sha256(data: &[u8]) -> (r: [u8; 32])
    ensures
        r@ == sha256_digest(data@),
{
    sha2::Sha256::digest(data).into()
}

/// `BASE64_STANDARD.encode`: the standard alphabet, with padding.
#[verifier::external_body]
pub(crate) fn base64_encode(data: &[u8]) -> (r: String)
    ensures
        r@ == base64_text(data@),
{
    base64::prelude::BASE64_STANDARD.encode(data)
}

/// `BASE64_STANDARD.decode`, with the error by its text.
#[verifier::external_body]
pub(crate) fn base64_decode(text: &str) -> (r: Result<Vec<u8>, String>)
    ensures
        match r {
            Ok(bytes) => base64_bytes(text@) == Ok::<Seq<u8>, Seq<char>>(bytes@),
            Err(err) => base64_bytes(text@) == Err::<Seq<u8>, Seq<char>>(err@),
        },
{
    base64::prelude::BASE64_STANDARD.decode(text).map_err(|err| err.to_string())
}

/// `VerifyingKey::from_bytes`: the text of its error, or `None` where the
/// bytes are a key.
#[verifier::external_body]
pub(crate) fn ed25519_check_key(key: &[u8; 32]) -> (r: Option<String>)
    ensures
        match r {
            Some(err) => ed25519_key_problem(key@) == Some(err@),
            None => ed25519_key_problem(key@) is None,
        },
{
    match ed25519_dalek::VerifyingKey::from_bytes(key) {
        Ok(_) => None,
        Err(err) => Some(err.to_string()),
    }
}

/// `Verifier::verify` of a `VerifyingKey`: whether the signature is one of
/// the message under the key. Bytes that are no key verify nothing.
#[verifier::external_body]
pub(crate) fn ed25519_verify(key: &[u8; 32], message: &[u8], signature: &[u8; 64]) -> (r: bool)
    ensures
        r == ed25519_signed(key@, message@, signature@),
        ed25519_key_problem(key@) is Some ==> !r,
{
    match ed25519_dalek::VerifyingKey::from_bytes(key) {
        Ok(k) => k.verify(message, &ed25519_dalek::Signature::from_bytes(signature)).is_ok(),
        Err(_) => false,
    }
}

/// The sizes in a patch's header leave room for adding them up.
pub open spec fn patch_sizes_fit(patch: Seq<u8>) -> bool {
    patch.len() >= 32 ==> patch[15] < 64 && patch[23] < 64
}

/// `qbsdiff::Bspatch::new` and `apply`. The sum of the sizes in the header
/// must not overflow.
#[verifier::external_body]
pub(crate) fn bspatch(patch: &[u8], source: &[u8]) -> (r: Option<Vec<u8>>)
    requires
        patch_sizes_fit(patch@),
    ensures
        match r {
            Some(target) => bsdiff_patched(patch@, source@) == Some(target@),
            None => bsdiff_patched(patch@, source@) is None,
        },
{
    let mut target = Vec::new();
    qbsdiff::Bspatch::new(patch).ok()?.apply(source, std::io::Cursor::new(&mut target)).ok()?;
    Some(target)
}

} // verus!
