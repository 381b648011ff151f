//! Which peers the user has verified, by the fingerprint that was compared.
//!
//! Keyed by the peer's user id, not by session, so that a verification
//! survives restarts and reconnects. "Never verified" and "verified, but the
//! key has changed since" are told apart: the latter is never silently
//! reported as either of the others.

use crate::clock::now_ms;
use crate::paths::{below, join, Root};
use crate::strmap::StrMap;
use crate::text::{cat2, owned, same};
use vstd::prelude::*;

verus! {

/// A verification.
#[derive(Debug)]
pub struct VerifiedPeerEntry {
    pub fingerprint: String,
    pub verified_at: i64,
}

/// The verifications of one local account.
pub struct VerifiedPeerStore {
    pub entries: StrMap<VerifiedPeerEntry>,
    /// Whose store this is; empty until it was loaded.
    pub owner_user_id: String,
}

/// What to show for a peer's identity key.
#[derive(Debug, PartialEq, Eq)]
pub enum TrustBadge {
    /// Never verified.
    Unverified,
    /// Verified, and the fingerprint still matches.
    Verified,
    /// Verified once, but the fingerprint changed since then.
    FingerprintChanged { old: String },
}

/// What a [`TrustBadge`] says.
pub enum Trust {
    Unverified,
    Verified,
    FingerprintChanged { old: Seq<char> },
}

impl View for TrustBadge {
    type V = Trust;

    open spec fn view(&self) -> Trust {
        match self {
            TrustBadge::Unverified => Trust::Unverified,
            TrustBadge::Verified => Trust::Verified,
            TrustBadge::FingerprintChanged { old } => Trust::FingerprintChanged { old: old@ },
        }
    }
}

/// The fingerprints that verifications are for.
pub open spec fn fingerprints(entries: Map<Seq<char>, VerifiedPeerEntry>) -> Map<
    Seq<char>,
    Seq<char>,
> {
    entries.map_values(|e: VerifiedPeerEntry| e.fingerprint@)
}

/// The standing of a peer that shows a fingerprint.
pub open spec fn trust_in(
    verified: Map<Seq<char>, Seq<char>>,
    peer_id: Seq<char>,
    current: Seq<char>,
) -> Trust {
    if !verified.contains_key(peer_id) {
        Trust::Unverified
    } else if verified[peer_id] == current {
        Trust::Verified
    } else {
        Trust::FingerprintChanged { old: verified[peer_id] }
    }
}

/// The file of an account's store.
pub open spec fn store_path_of(root: Root, owner: Seq<char>) -> Seq<char> {
    below(
        below(
            below(root.base@, root.separator, "HexaTalk"@),
            root.separator,
            "trust"@,
        ),
        root.separator,
        owner + ".json"@,
    )
}

/// [`store_path_of`], computed.
pub fn store_path(root: &Root, owner_user_id: &str) -> (r: String)
    ensures
        r@ == store_path_of(*root, owner_user_id@),
{
    let dir = join(&join(&root.base, root.separator, "HexaTalk"), root.separator, "trust");
    join(&dir, root.separator, &cat2(owner_user_id, ".json"))
}

impl Default for VerifiedPeerStore {
    /// No verification on record.
    fn default() -> (s: Self)
        ensures
            s.entries@ == Map::<Seq<char>, VerifiedPeerEntry>::empty(),
            s.owner_user_id@.len() == 0,
    {
        VerifiedPeerStore { entries: StrMap::new(), owner_user_id: String::new() }
    }
}

impl VerifiedPeerStore {
    /// The store of an account, from what was read of its file: a missing or
    /// corrupt file gives an empty store.
    pub fn loaded(read: Option<StrMap<VerifiedPeerEntry>>, owner_user_id: &str) -> (s: Self)
        ensures
            s.owner_user_id@ == owner_user_id@,
            s.entries@ == match read {
                Some(entries) => entries@,
                None => Map::<Seq<char>, VerifiedPeerEntry>::empty(),
            },
    {
        let entries = match read {
            Some(entries) => entries,
            None => StrMap::new(),
        };
        VerifiedPeerStore { entries, owner_user_id: owned(owner_user_id) }
    }

    /// Where to save the store; an error where it was never loaded.
    pub fn save_path(&self, root: &Root) -> (r: Result<String, String>)
        ensures
            match r {
                Ok(path) => self.owner_user_id@.len() > 0 && path@ == store_path_of(
                    *root,
                    self.owner_user_id@,
                ),
                Err(err) => self.owner_user_id@.len() == 0 && err@
                    == "VerifiedPeerStore::save called before load"@,
            },
    {
        if self.owner_user_id.as_str().is_empty() {
            Err(owned("VerifiedPeerStore::save called before load"))
        } else {
            Ok(store_path(root, &self.owner_user_id))
        }
    }

    /// What to show for `peer_id`, given the fingerprint observed this
    /// session. Pure lookup.
    pub fn status_for(&self, peer_id: &str, current_fingerprint: &str) -> (r: TrustBadge)
        ensures
            r@ == trust_in(fingerprints(self.entries@), peer_id@, current_fingerprint@),
    {
        match self.entries.get(peer_id) {
            Some(entry) => if same(&entry.fingerprint, current_fingerprint) {
                TrustBadge::Verified
            } else {
                TrustBadge::FingerprintChanged { old: entry.fingerprint.clone() }
            },
            None => TrustBadge::Unverified,
        }
    }

    /// Records at `now` that the user compared and confirmed a fingerprint.
    /// The result says where to save the store.
    pub fn mark_verified_at(&mut self, root: &Root, peer_id: &str, fingerprint: &str, now: i64) -> (r:
        Result<String, String>)
        ensures
            final(self).owner_user_id == old(self).owner_user_id,
            fingerprints(final(self).entries@) == fingerprints(old(self).entries@).insert(
                peer_id@,
                fingerprint@,
            ),
            final(self).entries@[peer_id@].verified_at == now,
            forall|k: Seq<char>|
                k != peer_id@ && old(self).entries@.contains_key(k)
                    ==> #[trigger] final(self).entries@[k] == old(self).entries@[k],
            match r {
                Ok(path) => old(self).owner_user_id@.len() > 0 && path@ == store_path_of(
                    *root,
                    old(self).owner_user_id@,
                ),
                Err(err) => old(self).owner_user_id@.len() == 0 && err@
                    == "VerifiedPeerStore::save called before load"@,
            },
    {
        let entry = VerifiedPeerEntry { fingerprint: owned(fingerprint), verified_at: now };
        let ghost before = self.entries@;
        self.entries.insert(owned(peer_id), entry);
        assert(fingerprints(self.entries@) =~= fingerprints(before).insert(peer_id@, fingerprint@));
        self.save_path(root)
    }

    /// Records now that the user compared and confirmed a fingerprint.
    pub fn mark_verified(&mut self, root: &Root, peer_id: &str, fingerprint: &str) -> (r: Result<
        String,
        String,
    >)
        ensures
            final(self).owner_user_id == old(self).owner_user_id,
            fingerprints(final(self).entries@) == fingerprints(old(self).entries@).insert(
                peer_id@,
                fingerprint@,
            ),
            0 <= final(self).entries@[peer_id@].verified_at,
            forall|k: Seq<char>|
                k != peer_id@ && old(self).entries@.contains_key(k)
                    ==> #[trigger] final(self).entries@[k] == old(self).entries@[k],
            match r {
                Ok(path) => old(self).owner_user_id@.len() > 0 && path@ == store_path_of(
                    *root,
                    old(self).owner_user_id@,
                ),
                Err(err) => old(self).owner_user_id@.len() == 0 && err@
                    == "VerifiedPeerStore::save called before load"@,
            },
    {
        let now = now_ms();
        self.mark_verified_at(root, peer_id, fingerprint, now)
    }
}

/// Once verified, a peer is shown as verified exactly while the fingerprint
/// is the confirmed one; any other fingerprint is reported as a change from
/// it, never as unverified. Other peers are not affected.
pub proof fn verification_is_remembered(
    verified: Map<Seq<char>, Seq<char>>,
    peer_id: Seq<char>,
    fingerprint: Seq<char>,
    shown: Seq<char>,
    other: Seq<char>,
)
    requires
        other != peer_id,
    ensures
        ({
            let after = verified.insert(peer_id, fingerprint);
            &&& trust_in(after, peer_id, fingerprint) == Trust::Verified
            &&& shown != fingerprint ==> trust_in(after, peer_id, shown)
                == (Trust::FingerprintChanged { old: fingerprint })
            &&& trust_in(after, other, shown) == trust_in(verified, other, shown)
        }),
{
}

} // verus!
