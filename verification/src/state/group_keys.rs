//! Getting at the shared key of a group or channel: unseal the package that
//! someone left for us, or make a key and leave a package for every member.
//!
//! The network and the sealing are the caller's; each function takes what came
//! back and says what to do next.

use crate::state::types::GroupKey;
use crate::text::{byte_len, owned, text_len};
use vstd::prelude::*;

verus! {

/// The length of a published public key, in bytes of its text.
pub const PUBLIC_KEY_LEN: usize = 44;

/// A sealed key that someone left for us. What the reply lacked is zero or
/// empty.
#[derive(Debug)]
pub struct Package {
    pub epoch: u32,
    pub sealed: String,
    pub eph: String,
}

/// A key sealed for one member.
#[derive(Debug)]
pub struct SealedFor {
    pub user_id: String,
    pub sealed: String,
    pub eph: String,
}

/// Why our package is asked for.
#[derive(Debug, Clone, Copy, PartialEq, Eq, Structural)]
pub enum Asked {
    /// Nothing is known yet.
    First,
    /// Someone published a key in the meantime.
    Again,
    /// Our own key was not taken; the one in place has this epoch.
    Race(u32),
}

/// The reply to the question for the members' public keys.
pub enum MembersReply {
    Failed(String),
    Unexpected,
    /// The epoch of the key in place (zero for none), and the members' ids
    /// and public keys, if they were there.
    Listed(u32, Option<Vec<(String, String)>>),
}

/// The reply to the packages that we published.
pub enum PublishReply {
    Failed(String),
    Unexpected,
    /// Whether ours were taken, and the epoch of the key in place.
    Stored(bool, u32),
}

/// What to do next.
pub enum KeyAction {
    AskPackage(Asked),
    AskMembers,
    /// Unseal the key of this epoch; where that fails, say why.
    Unseal { epoch: u32, eph: String, sealed: String, failure: &'static str },
    /// Make a key and seal it for these ids and public keys.
    Seal(Vec<(String, String)>),
    Publish(Vec<SealedFor>),
    Done(GroupKey),
    Fail(String),
}

/// A package out of which a key can come at the first attempt.
pub open spec fn complete(p: Package) -> bool {
    p.epoch > 0 && p.sealed@.len() > 0 && p.eph@.len() > 0
}

/// A failure with this text.
pub open spec fn fails(a: KeyAction, text: Seq<char>) -> bool {
    match a {
        KeyAction::Fail(s) => s@ == text,
        _ => false,
    }
}

/// The package is unsealed as the key of `epoch`.
pub open spec fn unseals(a: KeyAction, p: Package, epoch: u32, failure: Seq<char>) -> bool {
    match a {
        KeyAction::Unseal { epoch: e, eph, sealed, failure: f } => {
            e == epoch && eph == p.eph && sealed == p.sealed && f@ == failure
        },
        _ => false,
    }
}

/// What the reply to the question for our package leads to.
pub open spec fn after_package(asked: Asked, reply: Result<Option<Package>, String>, a: KeyAction) -> bool {
    match reply {
        Err(e) => a == KeyAction::Fail(e),
        Ok(p) => match asked {
            Asked::First => if p is Some && complete(p->0) {
                unseals(
                    a,
                    p->0,
                    p->0.epoch,
                    "Could not unseal group key (wrong identity?)"@,
                )
            } else {
                a == KeyAction::AskMembers
            },
            Asked::Again => if p is Some && p->0.epoch > 0 && p->0.sealed@.len() > 0 {
                unseals(a, p->0, p->0.epoch, "Could not unseal group key"@)
            } else {
                fails(
                    a,
                    "Group key exists but this device has no package yet — ask a member to re-open the chat"@,
                )
            },
            Asked::Race(epoch) => match p {
                Some(p) => unseals(a, p, epoch, "Could not unseal group key after race"@),
                None => fails(a, "Group key bootstrap race failed"@),
            },
        },
    }
}

/// [`after_package`], computed.
pub fn on_package(asked: Asked, reply: Result<Option<Package>, String>) -> (a: KeyAction)
    ensures
        after_package(asked, reply, a),
{
    let found = match reply {
        Err(e) => {
            return KeyAction::Fail(e);
        },
        Ok(p) => p,
    };
    match asked {
        Asked::First => match found {
            Some(p) => {
                if p.epoch > 0 && !p.sealed.as_str().is_empty() && !p.eph.as_str().is_empty() {
                    KeyAction::Unseal {
                        epoch: p.epoch,
                        eph: p.eph,
                        sealed: p.sealed,
                        failure: "Could not unseal group key (wrong identity?)",
                    }
                } else {
                    KeyAction::AskMembers
                }
            },
            None => KeyAction::AskMembers,
        },
        Asked::Again => match found {
            Some(p) => {
                if p.epoch > 0 && !p.sealed.as_str().is_empty() {
                    KeyAction::Unseal {
                        epoch: p.epoch,
                        eph: p.eph,
                        sealed: p.sealed,
                        failure: "Could not unseal group key",
                    }
                } else {
                    no_package_yet()
                }
            },
            None => no_package_yet(),
        },
        Asked::Race(epoch) => match found {
            Some(p) => KeyAction::Unseal {
                epoch,
                eph: p.eph,
                sealed: p.sealed,
                failure: "Could not unseal group key after race",
            },
            None => KeyAction::Fail(owned("Group key bootstrap race failed")),
        },
    }
}

fn no_package_yet() -> (a: KeyAction)
    ensures
        fails(
            a,
            "Group key exists but this device has no package yet — ask a member to re-open the chat"@,
        ),
{
    KeyAction::Fail(
        owned(
            "Group key exists but this device has no package yet — ask a member to re-open the chat",
        ),
    )
}

/// What unsealing a package leads to.
pub fn on_unsealed(epoch: u32, failure: &'static str, key: Option<[u8; 32]>) -> (a: KeyAction)
    ensures
        match key {
            Some(key) => a == KeyAction::Done(GroupKey { epoch, key }),
            None => fails(a, failure@),
        },
{
    match key {
        Some(key) => KeyAction::Done(GroupKey { epoch, key }),
        None => KeyAction::Fail(owned(failure)),
    }
}

/// Ids and public keys by what they hold.
pub open spec fn member_views(list: Seq<(String, String)>) -> Seq<(Seq<char>, Seq<char>)> {
    Seq::new(list.len(), |i: int| (list[i].0@, list[i].1@))
}

/// The members whose public key has the length of one.
pub open spec fn with_keys(list: Seq<(Seq<char>, Seq<char>)>) -> Seq<(Seq<char>, Seq<char>)>
    decreases list.len(),
{
    if list.len() == 0 {
        Seq::empty()
    } else {
        let before = with_keys(list.drop_last());
        if byte_len(list.last().1) == PUBLIC_KEY_LEN {
            before.push(list.last())
        } else {
            before
        }
    }
}

/// What the list of members leads to: a key is only made where there is none.
pub open spec fn after_members(reply: MembersReply, a: KeyAction) -> bool {
    match reply {
        MembersReply::Failed(e) => a == KeyAction::Fail(e),
        MembersReply::Unexpected => fails(
            a,
            "Unexpected server response while listing member keys"@,
        ),
        MembersReply::Listed(epoch, members) => if epoch > 0 {
            a == KeyAction::AskPackage(Asked::Again)
        } else {
            match members {
                None => fails(a, "No members for group key"@),
                Some(list) => match a {
                    KeyAction::Seal(keyed) => member_views(keyed@) == with_keys(
                        member_views(list@),
                    ),
                    _ => false,
                },
            }
        },
    }
}

fn keyed_members(list: Vec<(String, String)>) -> (r: Vec<(String, String)>)
    ensures
        member_views(r@) == with_keys(member_views(list@)),
{
    let mut r: Vec<(String, String)> = Vec::new();
    let ghost all = member_views(list@);
    let mut i: usize = 0;
    assert(member_views(r@) =~= with_keys(all.take(0)));
    while i < list.len()
        invariant
            i <= list@.len(),
            all == member_views(list@),
            member_views(r@) == with_keys(all.take(i as int)),
        decreases list@.len() - i,
    {
        assert(all.take(i + 1).drop_last() =~= all.take(i as int));
        assert(all.take(i + 1).last() == all[i as int]);
        let (id, key) = &list[i];
        if text_len(key) == PUBLIC_KEY_LEN {
            let ghost before = member_views(r@);
            r.push((id.clone(), key.clone()));
            assert(member_views(r@) =~= before.push(all[i as int]));
        }
        i += 1;
    }
    assert(all.take(all.len() as int) =~= all);
    r
}

/// [`after_members`], computed.
pub fn on_members(reply: MembersReply) -> (a: KeyAction)
    ensures
        after_members(reply, a),
{
    match reply {
        MembersReply::Failed(e) => KeyAction::Fail(e),
        MembersReply::Unexpected => KeyAction::Fail(
            owned("Unexpected server response while listing member keys"),
        ),
        MembersReply::Listed(epoch, members) => {
            if epoch > 0 {
                return KeyAction::AskPackage(Asked::Again);
            }
            match members {
                None => KeyAction::Fail(owned("No members for group key")),
                Some(list) => KeyAction::Seal(keyed_members(list)),
            }
        },
    }
}

/// What the sealed packages lead to.
pub fn on_sealed(packages: Vec<SealedFor>) -> (a: KeyAction)
    ensures
        if packages@.len() == 0 {
            fails(
                a,
                "No members have a public key yet — everyone must open the app once to publish keys"@,
            )
        } else {
            a == KeyAction::Publish(packages)
        },
{
    if packages.len() == 0 {
        KeyAction::Fail(
            owned(
                "No members have a public key yet — everyone must open the app once to publish keys",
            ),
        )
    } else {
        KeyAction::Publish(packages)
    }
}

/// What publishing the packages of our own `key` leads to.
pub fn on_published(reply: PublishReply, key: [u8; 32]) -> (a: KeyAction)
    ensures
        match reply {
            PublishReply::Failed(e) => a == KeyAction::Fail(e),
            PublishReply::Unexpected => fails(a, "Group key publish failed"@),
            PublishReply::Stored(created, epoch) => a == if created {
                KeyAction::Done(GroupKey { epoch, key })
            } else {
                KeyAction::AskPackage(Asked::Race(epoch))
            },
        },
{
    match reply {
        PublishReply::Failed(e) => KeyAction::Fail(e),
        PublishReply::Unexpected => KeyAction::Fail(owned("Group key publish failed")),
        PublishReply::Stored(created, epoch) => {
            if created {
                KeyAction::Done(GroupKey { epoch, key })
            } else {
                KeyAction::AskPackage(Asked::Race(epoch))
            }
        },
    }
}

} // verus!
