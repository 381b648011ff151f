//! Ids and labels of what can be shared in a call. A monitor or window has no
//! id of its own, only a name, so the id is made from the kind and the name.

use crate::state::types::ShareTarget;
use crate::text::{cat2, strip_prefix};
use vstd::prelude::*;

verus! {

/// Whether it is a window, and its name.
pub type TargetView = (bool, Seq<char>);

/// A target by what it holds.
pub open spec fn target_view(t: ShareTarget) -> TargetView {
    (t is Window, t.name())
}

/// The id of a target.
pub open spec fn target_id(t: TargetView) -> Seq<char> {
    if t.0 {
        "window:"@ + t.1
    } else {
        "monitor:"@ + t.1
    }
}

/// What follows `prefix` in `s`, if `s` starts with it.
pub open spec fn after_prefix(s: Seq<char>, prefix: Seq<char>) -> Option<Seq<char>> {
    if s.len() >= prefix.len() && s.take(prefix.len() as int) == prefix {
        Some(s.subrange(prefix.len() as int, s.len() as int))
    } else {
        None
    }
}

/// The target with this id.
pub open spec fn target_of(id: Seq<char>) -> Option<TargetView> {
    match after_prefix(id, "monitor:"@) {
        Some(name) => Some((false, name)),
        None => match after_prefix(id, "window:"@) {
            Some(title) => Some((true, title)),
            None => None,
        },
    }
}

/// [`target_id`], computed.
pub fn encode_share_target(t: &ShareTarget) -> (r: String)
    ensures
        r@ == target_id(target_view(*t)),
{
    match t {
        ShareTarget::Monitor(name) => cat2("monitor:", name),
        ShareTarget::Window(title) => cat2("window:", title),
    }
}

/// [`target_of`], computed.
pub fn decode_share_target(encoded: &str) -> (r: Option<ShareTarget>)
    ensures
        match r {
            Some(t) => target_of(encoded@) == Some(target_view(t)),
            None => target_of(encoded@) is None,
        },
{
    match strip_prefix(encoded, "monitor:") {
        Some(name) => Some(ShareTarget::Monitor(name)),
        None => match strip_prefix(encoded, "window:") {
            Some(title) => Some(ShareTarget::Window(title)),
            None => None,
        },
    }
}

/// Every target comes back out of its id.
pub proof fn share_targets_round_trip(t: TargetView)
    ensures
        target_of(target_id(t)) == Some(t),
{
    reveal_strlit("window:");
    reveal_strlit("monitor:");
    let id = target_id(t);
    if t.0 {
        assert(id.take(7) =~= "window:"@);
        assert(id.subrange(7, id.len() as int) =~= t.1);
        if id.len() >= 8 {
            assert(id.take(8)[0] == id[0]);
            assert(id[0] == 'w');
        }
    } else {
        assert(id.take(8) =~= "monitor:"@);
        assert(id.subrange(8, id.len() as int) =~= t.1);
    }
}

/// A row of the share picker.
#[derive(Debug)]
pub struct ShareTargetRow {
    pub id: String,
    pub label: String,
}

/// The label of a target: its name and which kind it is.
pub open spec fn target_label(t: TargetView) -> Seq<char> {
    if t.0 {
        t.1 + " — app window"@
    } else {
        t.1 + " — entire screen"@
    }
}

/// The rows of the share picker, in the order of the targets.
pub fn share_target_rows(share_targets: &[ShareTarget]) -> (rows: Vec<ShareTargetRow>)
    ensures
        rows@.len() == share_targets@.len(),
        forall|i: int|
            0 <= i < rows@.len() ==> (#[trigger] rows@[i]).id@ == target_id(
                target_view(share_targets@[i]),
            ) && rows@[i].label@ == target_label(target_view(share_targets@[i])),
{
    let mut rows: Vec<ShareTargetRow> = Vec::new();
    let mut i: usize = 0;
    while i < share_targets.len()
        invariant
            i <= share_targets@.len(),
            rows@.len() == i,
            forall|k: int|
                0 <= k < i ==> (#[trigger] rows@[k]).id@ == target_id(
                    target_view(share_targets@[k]),
                ) && rows@[k].label@ == target_label(target_view(share_targets@[k])),
        decreases share_targets@.len() - i,
    {
        let t = &share_targets[i];
        let label = match t {
            ShareTarget::Monitor(name) => cat2(name, " — entire screen"),
            ShareTarget::Window(title) => cat2(title, " — app window"),
        };
        rows.push(ShareTargetRow { id: encode_share_target(t), label });
        i += 1;
    }
    rows
}

} // verus!
