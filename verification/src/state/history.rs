//! Local encrypted chat history, for the owner only.
//!
//! Files live under `<data>/Talkyss/vault/<owner>/` and are sealed with
//! AES-256-GCM under a key derived from the local identity's private key.
//! Without that key nothing in the vault can be opened.

use crate::hex::{hex_char, hex_pair, hex_text, parse_hex_pair};
use crate::paths::{below, file_name, join, safe_name, Root};
use crate::primitives::{
    base64_encode, base64_text, gcm_open, gcm_opened, gcm_seal, gcm_sealed, hkdf_derived,
    hkdf_sha256, random_nonce, sha256, sha256_digest, GCM_MAX,
};
use crate::text::{cat2, cat3, chars_of, same, strip_prefix, text_of, trim, trimmed};
use vstd::prelude::*;
use vstd::utf8::encode_utf8;

verus! {

pub const VAULT_VERSION: u8 = 1;

/// A chat keeps this many messages.
pub const MAX_MESSAGES: usize = 5000;

/// A message in the vault.
#[derive(Debug)]
pub struct StoredMessage {
    pub id: String,
    pub author_id: String,
    pub author_name: String,
    pub author_avatar_color: String,
    pub body: String,
    /// ms since epoch
    pub sent_at: i64,
    /// The picture lies in the vault too.
    pub has_media: bool,
    pub media_content_type: String,
}

// ---------- Paths ----------

/// The application's directory.
pub open spec fn app_dir(root: Root) -> Seq<char> {
    below(root.base@, root.separator, "Talkyss"@)
}

/// An owner's vault.
pub open spec fn vault_dir_of(root: Root, owner: Seq<char>) -> Seq<char> {
    below(below(app_dir(root), root.separator, "vault"@), root.separator, owner)
}

/// The file of a chat.
pub open spec fn chat_path_of(root: Root, owner: Seq<char>, conversation: Seq<char>) -> Seq<char> {
    below(
        below(vault_dir_of(root, owner), root.separator, "chats"@),
        root.separator,
        file_name(conversation, false) + ".bin"@,
    )
}

/// The directory of a chat's pictures.
pub open spec fn media_dir_of(root: Root, owner: Seq<char>, conversation: Seq<char>) -> Seq<char> {
    below(
        below(vault_dir_of(root, owner), root.separator, "media"@),
        root.separator,
        file_name(conversation, false),
    )
}

/// The file of a message's picture.
pub open spec fn media_path_of(
    root: Root,
    owner: Seq<char>,
    conversation: Seq<char>,
    message: Seq<char>,
) -> Seq<char> {
    below(
        media_dir_of(root, owner, conversation),
        root.separator,
        file_name(message, true) + ".bin"@,
    )
}

/// The application's directory: `Talkyss` below the base.
pub fn talkyss_root(root: &Root) -> (r: String)
    ensures
        r@ == app_dir(*root),
{
    join(&root.base, root.separator, "Talkyss")
}

/// An owner's vault directory.
pub fn vault_dir(root: &Root, owner_user_id: &str) -> (r: String)
    ensures
        r@ == vault_dir_of(*root, owner_user_id@),
{
    let vault = join(&talkyss_root(root), root.separator, "vault");
    join(&vault, root.separator, owner_user_id)
}

/// The file of a chat.
pub fn chat_path(root: &Root, owner_user_id: &str, conversation_id: &str) -> (r: String)
    ensures
        r@ == chat_path_of(*root, owner_user_id@, conversation_id@),
{
    let chats = join(&vault_dir(root, owner_user_id), root.separator, "chats");
    let name = cat2(&safe_name(conversation_id, false), ".bin");
    join(&chats, root.separator, &name)
}

/// The directory of a chat's pictures.
pub fn media_dir(root: &Root, owner_user_id: &str, conversation_id: &str) -> (r: String)
    ensures
        r@ == media_dir_of(*root, owner_user_id@, conversation_id@),
{
    let media = join(&vault_dir(root, owner_user_id), root.separator, "media");
    join(&media, root.separator, &safe_name(conversation_id, false))
}

/// The file of a message's picture.
pub fn media_path(root: &Root, owner_user_id: &str, conversation_id: &str, message_id: &str) -> (r:
    String)
    ensures
        r@ == media_path_of(*root, owner_user_id@, conversation_id@, message_id@),
{
    let dir = media_dir(root, owner_user_id, conversation_id);
    let name = cat2(&safe_name(message_id, true), ".bin");
    join(&dir, root.separator, &name)
}

/// The vault's path as settings show it.
pub fn vault_root_display(root: &Root, owner_user_id: &str) -> (r: String)
    ensures
        r@ == vault_dir_of(*root, owner_user_id@),
{
    vault_dir(root, owner_user_id)
}

/// The file of the identity that the vault key comes from.
pub fn identity_path(root: &Root, owner_user_id: &str) -> (r: String)
    ensures
        r@ == below(
            app_dir(*root),
            root.separator,
            "peerseal_"@ + owner_user_id@ + ".key"@,
        ),
{
    join(&talkyss_root(root), root.separator, &cat3("peerseal_", owner_user_id, ".key"))
}

// ---------- Keys ----------

/// The text that the vault key is bound to.
pub open spec fn vault_info() -> Seq<u8> {
    encode_utf8("talkyss-local-history-vault-v1"@)
}

/// Derives the vault key from the identity's private key.
pub fn vault_key_from_identity_private(private_key_32: &[u8; 32]) -> (r: [u8; 32])
    ensures
        r@ == hkdf_derived(private_key_32@, vault_info()),
{
    hkdf_sha256(private_key_32, "talkyss-local-history-vault-v1".as_bytes())
}

/// `s` is 32 bytes in hexadecimal, two characters each.
pub open spec fn is_hex_32(s: Seq<char>) -> bool {
    &&& s.len() == 64
    &&& forall|i: int| 0 <= i < 32 ==> #[trigger] hex_pair(s[2 * i], s[2 * i + 1]) is Some
}

/// `bytes` are the bytes that `s` writes in hexadecimal.
pub open spec fn hex_bytes(s: Seq<char>, bytes: Seq<u8>) -> bool {
    &&& bytes.len() == 32
    &&& forall|i: int|
        0 <= i < 32 ==> #[trigger] hex_pair(s[2 * i], s[2 * i + 1]) == Some(bytes[i] as int)
}

/// 32 bytes from 64 hexadecimal characters.
pub fn hex_decode_32(s: &str) -> (r: Option<[u8; 32]>)
    ensures
        r is Some == is_hex_32(s@),
        r is Some ==> hex_bytes(s@, r->0@),
{
    let v = chars_of(s);
    if v.len() != 64 {
        return None;
    }
    let mut out: [u8; 32] = [0u8; 32];
    let mut i: usize = 0;
    while i < 32
        invariant
            i <= 32,
            v@ == s@,
            v@.len() == 64,
            out@.len() == 32,
            forall|j: int|
                0 <= j < i ==> #[trigger] hex_pair(s@[2 * j], s@[2 * j + 1]) == Some(out@[j] as int),
        decreases 32 - i,
    {
        match parse_hex_pair(v[2 * i], v[2 * i + 1]) {
            Some(b) => {
                out[i] = b;
            },
            None => {
                assert(hex_pair(s@[2 * (i as int)], s@[2 * (i as int) + 1]) is None);
                return None;
            },
        }
        i += 1;
    }
    Some(out)
}

/// The first line, and what follows its line feed.
pub open spec fn line_end(s: Seq<char>) -> int
    decreases s.len(),
{
    if s.len() == 0 || s[0] == '\n' {
        0
    } else {
        1 + line_end(s.subrange(1, s.len() as int))
    }
}

proof fn lemma_line_end(s: Seq<char>)
    ensures
        0 <= line_end(s) <= s.len(),
        line_end(s) < s.len() ==> s[line_end(s)] == '\n',
        forall|i: int| 0 <= i < line_end(s) ==> s[i] != '\n',
    decreases s.len(),
{
    if s.len() > 0 && s[0] != '\n' {
        let t = s.subrange(1, s.len() as int);
        lemma_line_end(t);
        assert forall|i: int| 0 <= i < line_end(s) implies s[i] != '\n' by {
            if i > 0 {
                assert(t[i - 1] == s[i]);
            }
        }
    }
}

/// The lines of a text that are not blank, trimmed.
pub open spec fn filled_lines(s: Seq<char>) -> Seq<Seq<char>>
    decreases s.len(),
{
    if s.len() == 0 {
        Seq::empty()
    } else {
        let n = line_end(s);
        let line = trimmed(s.subrange(0, n));
        let rest = if 0 <= n < s.len() {
            filled_lines(s.subrange(n + 1, s.len() as int))
        } else {
            Seq::empty()
        };
        if line.len() > 0 {
            seq![line] + rest
        } else {
            rest
        }
    }
}

/// The private key in the text of an identity file: the second line that is
/// not blank, in hexadecimal.
pub fn identity_private(text: &str) -> (r: Option<[u8; 32]>)
    ensures
        r is Some == (filled_lines(text@).len() >= 2 && is_hex_32(filled_lines(text@)[1])),
        r is Some ==> hex_bytes(filled_lines(text@)[1], r->0@),
{
    let v = chars_of(text);
    let mut start: usize = 0;
    let mut seen: usize = 0;
    let ghost all = filled_lines(text@);
    assert(v@.subrange(0, v@.len() as int) =~= text@);
    while start < v.len()
        invariant
            start <= v@.len(),
            seen < 2,
            seen <= all.len(),
            all.subrange(seen as int, all.len() as int) == filled_lines(
                v@.subrange(start as int, v@.len() as int),
            ),
            all == filled_lines(text@),
        decreases v@.len() - start,
    {
        let ghost rest = v@.subrange(start as int, v@.len() as int);
        let mut end: usize = start;
        while end < v.len() && v[end] != '\n'
            invariant
                start <= end <= v@.len(),
                forall|i: int| start <= i < end ==> v@[i] != '\n',
            decreases v@.len() - end,
        {
            end += 1;
        }
        proof {
            lemma_line_end(rest);
            assert(line_end(rest) == end - start) by {
                let n = line_end(rest);
                if n < end - start {
                    assert(rest[n] == v@[start + n]);
                }
                if n > end - start {
                    assert(rest[end - start] == v@[end as int]);
                }
            }
        }
        let line = trim(&text_of(&v, start, end));
        assert(rest.subrange(0, end - start) =~= v@.subrange(start as int, end as int));
        let next: usize = if end < v.len() {
            end + 1
        } else {
            end
        };
        let ghost tail = filled_lines(v@.subrange(next as int, v@.len() as int));
        proof {
            if end < v@.len() {
                assert(rest.subrange(end - start + 1, rest.len() as int) =~= v@.subrange(
                    next as int,
                    v@.len() as int,
                ));
            } else {
                assert(v@.subrange(next as int, v@.len() as int).len() == 0);
            }
        }
        if !line.as_str().is_empty() {
            assert(filled_lines(rest) =~= seq![line@] + tail);
            assert(all.subrange(seen as int, all.len() as int)[0] == line@);
            if seen == 1 {
                assert(all[1] == line@);
                return hex_decode_32(&line);
            }
            seen += 1;
            assert(all.subrange(seen as int, all.len() as int) =~= tail) by {
                let prev = all.subrange(seen - 1, all.len() as int);
                assert(prev == seq![line@] + tail);
                assert(prev.subrange(1, prev.len() as int) =~= tail);
                assert(all.subrange(seen as int, all.len() as int) =~= prev.subrange(
                    1,
                    prev.len() as int,
                ));
            }
        } else {
            assert(filled_lines(rest) =~= tail);
        }
        start = next;
    }
    assert(all.subrange(seen as int, all.len() as int).len() == 0);
    None
}

/// The first four bytes of a vault key's digest, in hexadecimal: tells keys
/// apart without giving them away.
pub fn vault_key_fingerprint(vault_key: &[u8; 32]) -> (r: String)
    ensures
        r@ == hex_text(sha256_digest(vault_key@).take(4)),
{
    let d = sha256(vault_key);
    let mut r = String::new();
    let mut i: usize = 0;
    while i < 4
        invariant
            i <= 4,
            d@ == sha256_digest(vault_key@),
            d@.len() == 32,
            r@ == hex_text(d@.take(i as int)),
        decreases 4 - i,
    {
        r.push(hex_char(d[i] / 16));
        r.push(hex_char(d[i] % 16));
        i += 1;
        assert(d@.take(i as int).drop_last() =~= d@.take(i - 1));
        assert(d@.take(i as int).last() == d@[i - 1]);
    }
    r
}

/// A marker for exports.
pub fn encode_export_marker(owner: &str) -> (r: String)
    ensures
        r@ == base64_text(encode_utf8("talkyss-vault:"@ + owner@)),
{
    let text = cat2("talkyss-vault:", owner);
    base64_encode(text.as_str().as_bytes())
}

// ---------- Blobs ----------

/// A vault blob: version, nonce, ciphertext.
pub open spec fn blob_of(nonce: Seq<u8>, sealed: Seq<u8>) -> Seq<u8> {
    seq![VAULT_VERSION] + nonce + sealed
}

/// What a vault blob opens to.
pub open spec fn blob_opened(key: Seq<u8>, blob: Seq<u8>) -> Option<Seq<u8>> {
    if blob.len() < 29 || blob[0] != VAULT_VERSION {
        None
    } else {
        gcm_opened(key, blob.subrange(1, 13), blob.subrange(13, blob.len() as int))
    }
}

/// Seals a plaintext with a given nonce.
pub fn encrypt_blob_with(key: &[u8; 32], nonce: &[u8; 12], plain: &[u8]) -> (r: Option<Vec<u8>>)
    requires
        plain@.len() <= GCM_MAX,
    ensures
        r is Some,
        r->0@ == blob_of(nonce@, gcm_sealed(key@, nonce@, plain@)),
        r->0@.len() == plain@.len() + 29,
        r->0@[0] == VAULT_VERSION,
        blob_opened(key@, r->0@) == Some(plain@),
{
    let ct = match gcm_seal(key, nonce, plain) {
        Some(ct) => ct,
        None => {
            return None;
        },
    };
    let mut out: Vec<u8> = Vec::new();
    out.push(VAULT_VERSION);
    let mut i: usize = 0;
    assert(out@ =~= seq![VAULT_VERSION] + nonce@.take(0));
    while i < 12
        invariant
            i <= 12,
            nonce@.len() == 12,
            out@ == seq![VAULT_VERSION] + nonce@.take(i as int),
        decreases 12 - i,
    {
        out.push(nonce[i]);
        i += 1;
        assert(out@ =~= seq![VAULT_VERSION] + nonce@.take(i as int));
    }
    assert(nonce@.take(12) =~= nonce@);
    let mut ct = ct;
    let ghost sealed = ct@;
    out.append(&mut ct);
    assert(out@ =~= blob_of(nonce@, sealed));
    assert(out@.subrange(1, 13) =~= nonce@);
    assert(out@.subrange(13, out@.len() as int) =~= sealed);
    Some(out)
}

/// Seals a plaintext with a fresh random nonce. Whatever the nonce, the blob
/// opens to the plaintext again.
pub fn encrypt_blob(key: &[u8; 32], plain: &[u8]) -> (r: Option<Vec<u8>>)
    requires
        plain@.len() <= GCM_MAX,
    ensures
        r is Some,
        exists|nonce: Seq<u8>|
            nonce.len() == 12 && r->0@ == #[trigger] blob_of(nonce, gcm_sealed(key@, nonce, plain@)),
        r->0@.len() == plain@.len() + 29,
        r->0@[0] == VAULT_VERSION,
        blob_opened(key@, r->0@) == Some(plain@),
{
    let nonce = random_nonce();
    let r = encrypt_blob_with(key, &nonce, plain);
    assert(r->0@ == blob_of(nonce@, gcm_sealed(key@, nonce@, plain@)));
    r
}

/// Opens a vault blob. What it opens to is what was sealed in it: with the
/// same key and nonce no other blob holds it. That a blob is refused under
/// another key, or with other bytes in it, is a matter of likelihood and not
/// said here.
pub fn decrypt_blob(key: &[u8; 32], blob: &[u8]) -> (r: Option<Vec<u8>>)
    requires
        blob@.len() <= GCM_MAX,
    ensures
        match r {
            Some(plain) => {
                &&& blob_opened(key@, blob@) == Some(plain@)
                &&& blob@.len() == plain@.len() + 29
                &&& blob@ == blob_of(
                    blob@.subrange(1, 13),
                    gcm_sealed(key@, blob@.subrange(1, 13), plain@),
                )
            },
            None => blob_opened(key@, blob@) is None,
        },
        blob@.len() < 29 || blob@[0] != VAULT_VERSION ==> r is None,
{
    if blob.len() < 29 || blob[0] != VAULT_VERSION {
        return None;
    }
    let nonce = nonce_at(blob, 1);
    let (_, ct) = blob.split_at(13);
    assert(ct@ =~= blob@.subrange(13, blob@.len() as int));
    assert(blob@ =~= blob_of(blob@.subrange(1, 13), ct@));
    gcm_open(key, &nonce, ct)
}

/// Twelve bytes of `data` from `at` on.
pub fn nonce_at(data: &[u8], at: usize) -> (r: [u8; 12])
    requires
        at + 12 <= data@.len(),
    ensures
        r@ == data@.subrange(at as int, at + 12),
{
    let n: usize = data.len();
    let mut r: [u8; 12] = [0u8; 12];
    let mut i: usize = 0;
    while i < 12
        invariant
            i <= 12,
            r@.len() == 12,
            n == data@.len(),
            at + 12 <= n,
            forall|j: int| 0 <= j < i ==> r@[j] == data@[at + j],
        decreases 12 - i,
    {
        r[i] = data[at + i];
        i += 1;
    }
    assert(r@ =~= data@.subrange(at as int, at + 12));
    r
}

// ---------- Messages ----------

/// The last [`MAX_MESSAGES`] messages.
pub open spec fn recent(messages: Seq<StoredMessage>) -> Seq<StoredMessage> {
    if messages.len() > MAX_MESSAGES {
        messages.subrange(messages.len() - MAX_MESSAGES, messages.len() as int)
    } else {
        messages
    }
}

/// A message with this id is in the list.
pub open spec fn holds_id(messages: Seq<StoredMessage>, id: Seq<char>) -> bool {
    exists|i: int| 0 <= i < messages.len() && (#[trigger] messages[i]).id@ == id
}

/// What is written when a chat is saved.
pub fn recent_messages(messages: Vec<StoredMessage>) -> (r: Vec<StoredMessage>)
    ensures
        r@ == recent(messages@),
{
    let mut messages = messages;
    if messages.len() > MAX_MESSAGES {
        let cut: usize = messages.len() - MAX_MESSAGES;
        messages.split_off(cut)
    } else {
        messages
    }
}

/// Adds one message to a chat: what to save, or `None` where the chat has a
/// message of that id already and nothing is to be saved.
pub fn append_message(list: Vec<StoredMessage>, msg: StoredMessage) -> (r: Option<
    Vec<StoredMessage>,
>)
    ensures
        match r {
            Some(saved) => !holds_id(list@, msg.id@) && saved@ == recent(list@.push(msg)),
            None => holds_id(list@, msg.id@),
        },
{
    let mut i: usize = 0;
    while i < list.len()
        invariant
            i <= list@.len(),
            forall|j: int| 0 <= j < i ==> (#[trigger] list@[j]).id@ != msg.id@,
        decreases list@.len() - i,
    {
        if same(&list[i].id, &msg.id) {
            return None;
        }
        i += 1;
    }
    let mut list = list;
    list.push(msg);
    Some(recent_messages(list))
}

/// The newest message is always saved, never more than [`MAX_MESSAGES`] are,
/// and what is saved is the end of the chat.
pub proof fn newest_messages_are_kept(messages: Seq<StoredMessage>, msg: StoredMessage)
    ensures
        recent(messages.push(msg)).len() <= MAX_MESSAGES,
        recent(messages.push(msg)).last() == msg,
        messages.len() < MAX_MESSAGES ==> recent(messages.push(msg)) == messages.push(msg),
{
}

// ---------- Media tags ----------

/// The tag that stands for vault media in place of a URL.
pub open spec fn media_tag(message_id: Seq<char>) -> Seq<char> {
    "vaultmedia:"@ + message_id
}

/// A URL is such a tag.
pub open spec fn is_media_tag(url: Seq<char>) -> bool {
    url.len() >= "vaultmedia:"@.len() && url.take("vaultmedia:"@.len() as int) == "vaultmedia:"@
}

/// The id behind a tag.
pub open spec fn media_id(url: Seq<char>) -> Option<Seq<char>> {
    if is_media_tag(url) {
        Some(url.subrange("vaultmedia:"@.len() as int, url.len() as int))
    } else {
        None
    }
}

/// Stable attachment URL for vault media (not a network URL).
pub fn media_url_tag(message_id: &str) -> (r: String)
    ensures
        r@ == media_tag(message_id@),
{
    cat2("vaultmedia:", message_id)
}

/// Whether a URL is a vault media tag.
pub fn is_media_url_tag(url: &str) -> (r: bool)
    ensures
        r == is_media_tag(url@),
{
    strip_prefix(url, "vaultmedia:").is_some()
}

/// The message id behind a vault media tag.
pub fn media_id_from_url(url: &str) -> (r: Option<String>)
    ensures
        match r {
            Some(id) => media_id(url@) == Some(id@),
            None => media_id(url@) is None,
        },
{
    strip_prefix(url, "vaultmedia:")
}

/// A media tag gives back the message id that it was made from.
pub proof fn media_tags_round_trip(message_id: Seq<char>)
    ensures
        is_media_tag(media_tag(message_id)),
        media_id(media_tag(message_id)) == Some(message_id),
{
    let p = "vaultmedia:"@;
    let tag = media_tag(message_id);
    assert(tag.take(p.len() as int) =~= p);
    assert(tag.subrange(p.len() as int, tag.len() as int) =~= message_id);
}

} // verus!
