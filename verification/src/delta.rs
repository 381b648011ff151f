//! Update packages: encrypted patches, signatures, and what they make of the
//! running build.
//!
//! An encrypted patch is framed as `HTD1`, a nonce of 12 bytes, and the
//! AES-256-GCM ciphertext of a bsdiff patch. Behind the frame may stand the
//! ed25519 signature of the build that the patch leads to.

use crate::primitives::{
    base64_bytes, base64_decode, bsdiff_patched, bspatch, ed25519_check_key, ed25519_key_problem,
    ed25519_signed, ed25519_verify, gcm_open, gcm_opened, patch_sizes_fit, GCM_MAX,
};
use crate::state::history::nonce_at;
use crate::text::{cat2, decimal, digits, owned};
use vstd::prelude::*;

verus! {

/// The length of a signature.
pub const SIG_LEN: usize = 64;

/// The length of an empty frame: magic, nonce and tag.
pub const MIN_FRAME: usize = 32;

// ---------- Frames ----------

/// The bytes `HTD1`.
pub open spec fn magic() -> Seq<u8> {
    seq![0x48u8, 0x54u8, 0x44u8, 0x31u8]
}

/// The bytes start with the magic.
pub open spec fn framed(b: Seq<u8>) -> bool {
    b.len() >= 4 && b.take(4) == magic()
}

fn is_framed(b: &[u8]) -> (r: bool)
    ensures
        r == framed(b@),
{
    if b.len() < 4 {
        return false;
    }
    let r = b[0] == 0x48 && b[1] == 0x54 && b[2] == 0x44 && b[3] == 0x31;
    if r {
        assert(b@.take(4) =~= magic());
    } else {
        let ghost t = b@.take(4);
        assert(t[0] == b@[0] && t[1] == b@[1] && t[2] == b@[2] && t[3] == b@[3]);
    }
    r
}

/// What a frame holds under a key.
pub open spec fn frame_opened(key: Seq<u8>, frame: Seq<u8>) -> Option<Seq<u8>> {
    if frame.len() < MIN_FRAME || !framed(frame) {
        None
    } else {
        gcm_opened(key, frame.subrange(4, 16), frame.subrange(16, frame.len() as int))
    }
}

fn open_frame(key: &[u8; 32], frame: &[u8]) -> (r: Option<Vec<u8>>)
    requires
        frame@.len() <= GCM_MAX,
    ensures
        match r {
            Some(patch) => frame_opened(key@, frame@) == Some(patch@),
            None => frame_opened(key@, frame@) is None,
        },
{
    if frame.len() < MIN_FRAME || !is_framed(frame) {
        return None;
    }
    let nonce = nonce_at(frame, 4);
    let (_, ct) = frame.split_at(16);
    assert(ct@ =~= frame@.subrange(16, frame@.len() as int));
    gcm_open(key, &nonce, ct)
}

/// A patch, and the signature of its target where there was one.
#[derive(Debug)]
pub struct DecryptedDelta {
    pub patch: Vec<u8>,
    pub embedded_sig: Option<Vec<u8>>,
}

/// The 32 bytes of a key in base64.
pub open spec fn key_bytes(key_b64: Seq<char>) -> Option<Seq<u8>> {
    match base64_bytes(key_b64) {
        Ok(k) => if k.len() == 32 {
            Some(k)
        } else {
            None
        },
        Err(_) => None,
    }
}

/// The patch in a downloaded blob, and the signature behind it. A blob
/// without the magic is a patch as it is; of a framed one, a signature of 64
/// bytes behind the frame is tried first.
pub open spec fn delta_of(blob: Seq<u8>, key_b64: Seq<char>) -> Option<(Seq<u8>, Option<Seq<u8>>)> {
    if !framed(blob) {
        Some((blob, None))
    } else if blob.len() < MIN_FRAME {
        None
    } else {
        match key_bytes(key_b64) {
            None => None,
            Some(key) => {
                let cut = blob.len() - SIG_LEN;
                let signed = if blob.len() >= MIN_FRAME + SIG_LEN {
                    frame_opened(key, blob.take(cut))
                } else {
                    None
                };
                match signed {
                    Some(patch) => Some((patch, Some(blob.subrange(cut, blob.len() as int)))),
                    None => match frame_opened(key, blob) {
                        Some(patch) => Some((patch, None)),
                        None => None,
                    },
                }
            },
        }
    }
}

/// A delta by what it holds.
pub open spec fn delta_view(d: DecryptedDelta) -> (Seq<u8>, Option<Seq<u8>>) {
    (
        d.patch@,
        match d.embedded_sig {
            Some(s) => Some(s@),
            None => None,
        },
    )
}

/// Exactly 32 bytes as an array.
fn array_32(data: &[u8]) -> (r: Option<[u8; 32]>)
    ensures
        match r {
            Some(a) => data@.len() == 32 && a@ == data@,
            None => data@.len() != 32,
        },
{
    if data.len() != 32 {
        return None;
    }
    let mut a: [u8; 32] = [0u8; 32];
    let mut i: usize = 0;
    while i < 32
        invariant
            i <= 32,
            a@.len() == 32,
            data@.len() == 32,
            forall|j: int| 0 <= j < i ==> a@[j] == data@[j],
        decreases 32 - i,
    {
        a[i] = data[i];
        i += 1;
    }
    assert(a@ =~= data@);
    Some(a)
}

/// Exactly 64 bytes as an array.
fn array_64(data: &[u8]) -> (r: Option<[u8; 64]>)
    ensures
        match r {
            Some(a) => data@.len() == 64 && a@ == data@,
            None => data@.len() != 64,
        },
{
    if data.len() != 64 {
        return None;
    }
    let mut a: [u8; 64] = [0u8; 64];
    let mut i: usize = 0;
    while i < 64
        invariant
            i <= 64,
            a@.len() == 64,
            data@.len() == 64,
            forall|j: int| 0 <= j < i ==> a@[j] == data@[j],
        decreases 64 - i,
    {
        a[i] = data[i];
        i += 1;
    }
    assert(a@ =~= data@);
    Some(a)
}

/// A copy of some bytes.
fn copy_bytes(data: &[u8]) -> (r: Vec<u8>)
    ensures
        r@ == data@,
{
    let mut r: Vec<u8> = Vec::new();
    let mut i: usize = 0;
    while i < data.len()
        invariant
            i <= data@.len(),
            r@ == data@.take(i as int),
        decreases data@.len() - i,
    {
        r.push(data[i]);
        assert(data@.take(i + 1) =~= data@.take(i as int).push(data@[i as int]));
        i += 1;
    }
    assert(data@.take(data@.len() as int) =~= data@);
    r
}

/// [`delta_of`], computed.
pub fn decrypt_delta_blob(blob: &[u8], key_b64: &str) -> (r: Option<DecryptedDelta>)
    requires
        blob@.len() <= GCM_MAX,
    ensures
        match r {
            Some(d) => delta_of(blob@, key_b64@) == Some(delta_view(d)),
            None => delta_of(blob@, key_b64@) is None,
        },
{
    if !is_framed(blob) {
        return Some(DecryptedDelta { patch: copy_bytes(blob), embedded_sig: None });
    }
    if blob.len() < MIN_FRAME {
        return None;
    }
    let raw = match base64_decode(key_b64) {
        Ok(raw) => raw,
        Err(_) => {
            return None;
        },
    };
    let key = match array_32(raw.as_slice()) {
        Some(key) => key,
        None => {
            return None;
        },
    };
    if blob.len() >= MIN_FRAME + SIG_LEN {
        let cut: usize = blob.len() - SIG_LEN;
        let (frame, sig) = blob.split_at(cut);
        assert(frame@ =~= blob@.take(cut as int));
        assert(sig@ =~= blob@.subrange(cut as int, blob@.len() as int));
        match open_frame(&key, frame) {
            Some(patch) => {
                return Some(DecryptedDelta { patch, embedded_sig: Some(copy_bytes(sig)) });
            },
            None => {},
        }
    }
    match open_frame(&key, blob) {
        Some(patch) => Some(DecryptedDelta { patch, embedded_sig: None }),
        None => None,
    }
}

// ---------- Signatures ----------

/// Why a signature over some bytes is refused, if it is.
pub open spec fn signature_problem(bytes: Seq<u8>, sig: Seq<u8>, key_b64: Seq<char>) -> Option<Seq<char>> {
    if sig.len() != SIG_LEN {
        Some("signature must be 64 raw bytes, got "@ + digits(sig.len()))
    } else {
        match base64_bytes(key_b64) {
            Err(err) => Some("embedded update key is invalid: "@ + err),
            Ok(key) => if key.len() != 32 {
                Some("embedded update key must be 32 bytes"@)
            } else {
                match ed25519_key_problem(key) {
                    Some(err) => Some("embedded update key is invalid: "@ + err),
                    None => if ed25519_signed(key, bytes, sig) {
                        None
                    } else {
                        Some("signature doesn't match the downloaded exe"@)
                    },
                }
            },
        }
    }
}

/// Whether `sig_bytes` sign `bytes` under the release key; every failure is a
/// refusal.
pub fn verify_bytes(bytes: &[u8], sig_bytes: &[u8], key_b64: &str) -> (r: Result<(), String>)
    ensures
        match r {
            Ok(()) => signature_problem(bytes@, sig_bytes@, key_b64@) is None,
            Err(e) => signature_problem(bytes@, sig_bytes@, key_b64@) == Some(e@),
        },
{
    let signature = match array_64(sig_bytes) {
        Some(s) => s,
        None => {
            return Err(
                cat2("signature must be 64 raw bytes, got ", &decimal(sig_bytes.len() as u64)),
            );
        },
    };
    let raw = match base64_decode(key_b64) {
        Ok(raw) => raw,
        Err(err) => {
            return Err(cat2("embedded update key is invalid: ", &err));
        },
    };
    let key = match array_32(raw.as_slice()) {
        Some(key) => key,
        None => {
            return Err(owned("embedded update key must be 32 bytes"));
        },
    };
    match ed25519_check_key(&key) {
        Some(err) => Err(cat2("embedded update key is invalid: ", &err)),
        None => {
            if ed25519_verify(&key, bytes, &signature) {
                Ok(())
            } else {
                Err(owned("signature doesn't match the downloaded exe"))
            }
        },
    }
}

/// A signature that holds.
pub open spec fn signed(bytes: Seq<u8>, sig: Seq<u8>, key_b64: Seq<char>) -> bool {
    signature_problem(bytes, sig, key_b64) is None
}

/// The signature, where it holds.
pub fn verified_sig(bytes: &[u8], sig: Vec<u8>, key_b64: &str) -> (r: Option<Vec<u8>>)
    ensures
        r == if signed(bytes@, sig@, key_b64@) {
            Some(sig)
        } else {
            None
        },
{
    if verify_bytes(bytes, sig.as_slice(), key_b64).is_ok() {
        Some(sig)
    } else {
        None
    }
}

/// A staged build that may be installed: its signature holds, or it was staged
/// without one.
pub open spec fn installable(exe: Seq<u8>, sig: Seq<u8>, key_b64: Seq<char>) -> bool {
    if sig.len() == 0 {
        exe.len() > 0
    } else {
        signed(exe, sig, key_b64)
    }
}

/// Whether a staged build may be installed. Without the file or its sidecar
/// it may not.
pub fn staged_file_signature_valid(exe: Option<&Vec<u8>>, sig: Option<&Vec<u8>>, key_b64: &str) -> (r: bool)
    ensures
        r == match (exe, sig) {
            (Some(exe), Some(sig)) => installable(exe@, sig@, key_b64@),
            _ => false,
        },
{
    match (exe, sig) {
        (Some(exe), Some(sig)) => {
            if sig.len() == 0 {
                exe.len() > 0
            } else {
                verify_bytes(exe.as_slice(), sig.as_slice(), key_b64).is_ok()
            }
        },
        _ => false,
    }
}

// ---------- Patching ----------

/// What a downloaded blob makes of the running build: the new build, and the
/// signature that came with it. Nothing where the blob does not open, where
/// the sizes in its header cannot be added up, or where it does not apply.
pub open spec fn patched(blob: Seq<u8>, exe: Seq<u8>, key_b64: Seq<char>) -> Option<
    (Seq<u8>, Option<Seq<u8>>),
> {
    match delta_of(blob, key_b64) {
        None => None,
        Some((patch, sig)) => if !patch_sizes_fit(patch) {
            None
        } else {
            match bsdiff_patched(patch, exe) {
                Some(target) => Some((target, sig)),
                None => None,
            }
        },
    }
}

/// A new build, and the signature that came with it.
#[derive(Debug)]
pub struct Patched {
    pub exe: Vec<u8>,
    pub embedded_sig: Option<Vec<u8>>,
    /// Whether the patch came in a frame that opened under the release's key.
    pub authentic: bool,
}

/// [`patched`], computed.
pub fn apply_delta(blob: &[u8], exe: &[u8], key_b64: &str) -> (r: Option<Patched>)
    requires
        blob@.len() <= GCM_MAX,
    ensures
        match r {
            Some(p) => {
                &&& patched(blob@, exe@, key_b64@) == Some(
                    (
                        p.exe@,
                        match p.embedded_sig {
                            Some(s) => Some(s@),
                            None => None,
                        },
                    ),
                )
                &&& p.authentic == framed(blob@)
            },
            None => patched(blob@, exe@, key_b64@) is None,
        },
{
    let authentic = is_framed(blob);
    let DecryptedDelta { patch, embedded_sig } = match decrypt_delta_blob(blob, key_b64) {
        Some(d) => d,
        None => {
            return None;
        },
    };
    if patch.len() >= 32 && !(patch[15] < 64 && patch[23] < 64) {
        return None;
    }
    match bspatch(patch.as_slice(), exe) {
        Some(exe) => Some(Patched { exe, embedded_sig, authentic }),
        None => None,
    }
}

// ---------- Laws ----------

/// A frame around a nonce and a ciphertext.
pub open spec fn frame(nonce: Seq<u8>, ct: Seq<u8>) -> Seq<u8> {
    magic() + nonce + ct
}

proof fn lemma_frame(key: Seq<u8>, nonce: Seq<u8>, ct: Seq<u8>)
    requires
        nonce.len() == 12,
    ensures
        framed(frame(nonce, ct)),
        frame(nonce, ct).len() == 16 + ct.len(),
        ct.len() >= 16 ==> frame_opened(key, frame(nonce, ct)) == gcm_opened(key, nonce, ct),
{
    let f = frame(nonce, ct);
    assert(f.take(4) =~= magic());
    assert(f.subrange(4, 16) =~= nonce);
    assert(f.subrange(16, f.len() as int) =~= ct);
}

/// A patch comes back out of its frame together with the signature that was
/// put behind it.
pub proof fn signed_deltas_come_back(
    key_b64: Seq<char>,
    key: Seq<u8>,
    nonce: Seq<u8>,
    ct: Seq<u8>,
    patch: Seq<u8>,
    sig: Seq<u8>,
)
    requires
        key_bytes(key_b64) == Some(key),
        nonce.len() == 12,
        ct.len() >= 16,
        gcm_opened(key, nonce, ct) == Some(patch),
        sig.len() == SIG_LEN,
    ensures
        delta_of(frame(nonce, ct) + sig, key_b64) == Some((patch, Some(sig))),
{
    let f = frame(nonce, ct);
    let blob = f + sig;
    lemma_frame(key, nonce, ct);
    assert(blob.take(4) =~= f.take(4));
    assert(blob.take(blob.len() - SIG_LEN) =~= f);
    assert(blob.subrange(blob.len() - SIG_LEN, blob.len() as int) =~= sig);
}

/// A patch comes back out of its frame alone, unless what is left of the
/// ciphertext without its last 64 bytes opens too.
pub proof fn unsigned_deltas_come_back(
    key_b64: Seq<char>,
    key: Seq<u8>,
    nonce: Seq<u8>,
    ct: Seq<u8>,
    patch: Seq<u8>,
)
    requires
        key_bytes(key_b64) == Some(key),
        nonce.len() == 12,
        ct.len() >= 16,
        gcm_opened(key, nonce, ct) == Some(patch),
        ct.len() >= 16 + SIG_LEN ==> gcm_opened(key, nonce, ct.take(ct.len() - SIG_LEN)) is None,
    ensures
        delta_of(frame(nonce, ct), key_b64) == Some((patch, None::<Seq<u8>>)),
{
    let f = frame(nonce, ct);
    lemma_frame(key, nonce, ct);
    if ct.len() >= 16 + SIG_LEN {
        let short = ct.take(ct.len() - SIG_LEN);
        lemma_frame(key, nonce, short);
        assert(f.take(f.len() - SIG_LEN) =~= frame(nonce, short));
    }
}

/// A blob without the magic is its own patch.
pub proof fn plain_deltas_pass(blob: Seq<u8>, key_b64: Seq<char>)
    requires
        !framed(blob),
    ensures
        delta_of(blob, key_b64) == Some((blob, None::<Seq<u8>>)),
{
}

} // verus!
