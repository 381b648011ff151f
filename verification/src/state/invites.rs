//! Invite links.

use crate::text::{
    after_last, cat2, owned, split_last, stands_at, strip_both, stripped_end, stripped_start, trim,
    trimmed, Strip,
};
use vstd::prelude::*;

verus! {

/// `hexatalk://invite/<code>`, to be shared alongside or instead of the bare
/// invite code.
pub open spec fn invite_link(code: Seq<char>) -> Seq<char> {
    "hexatalk://invite/"@ + code
}

/// [`invite_link`], computed.
pub fn build_invite_link(code: &str) -> (r: String)
    ensures
        r@ == invite_link(code@),
{
    cat2("hexatalk://invite/", code)
}

/// A text without slashes at its ends.
pub open spec fn unslashed(s: Seq<char>) -> Seq<char> {
    stripped_end(stripped_start(s, Strip::Only('/')), Strip::Only('/'))
}

/// The invite code in a pasted text: what follows its last `invite/`, or else
/// all of it, without surrounding white space and slashes.
pub open spec fn invite_code(input: Seq<char>) -> Seq<char> {
    let s = trimmed(input);
    unslashed(
        match after_last(s, "invite/"@, s.len() - "invite/"@.len()) {
            Some(rest) => rest,
            None => s,
        },
    )
}

/// [`invite_code`], computed.
pub fn extract_invite_code(input: &str) -> (r: String)
    ensures
        r@ == invite_code(input@),
{
    let s = trim(input);
    match split_last(&s, "invite/") {
        Some(rest) => strip_both(&rest, Strip::Only('/')),
        None => strip_both(&s, Strip::Only('/')),
    }
}

/// A code that survives being pasted: no white space at its ends, no slash at
/// its ends, and no `invite/` in it.
pub open spec fn plain_code(code: Seq<char>) -> bool {
    &&& trimmed(code) == code
    &&& unslashed(code) == code
    &&& forall|i: int| 0 <= i ==> !#[trigger] stands_at(code, i, "invite/"@)
}

proof fn lemma_none_left(s: Seq<char>, w: Seq<char>, low: int, at: int)
    requires
        low <= at,
        forall|i: int| low < i <= at ==> !#[trigger] stands_at(s, i, w),
    ensures
        after_last(s, w, at) == after_last(s, w, low),
    decreases at - low,
{
    if low < at {
        if at >= 0 {
            assert(!stands_at(s, at, w));
            lemma_none_left(s, w, low, at - 1);
        } else {
            assert(low < 0);
        }
    }
}

/// An invite code comes back out of its link as it went in, and out of itself.
pub proof fn invite_links_carry_their_code(code: Seq<char>)
    requires
        plain_code(code),
    ensures
        invite_code(invite_link(code)) == code,
        invite_code(code) == code,
{
    let w = "invite/"@;
    let prefix = "hexatalk://invite/"@;
    let link = invite_link(code);
    reveal_strlit("invite/");
    reveal_strlit("hexatalk://invite/");
    // Nothing is trimmed off the link.
    assert(link[0] == 'h');
    assert(stripped_start(link, Strip::Space) == link);
    if code.len() == 0 {
        assert(link.last() == '/');
    } else {
        lemma_trim_keeps_last(code);
        assert(link.last() == code.last());
    }
    assert(trimmed(link) == link);
    // The last `invite/` is the one of the prefix.
    assert(stands_at(link, 11, w)) by {
        assert(link.subrange(11, 18) =~= w);
    }
    assert forall|i: int| 11 < i <= link.len() - 7 implies !#[trigger] stands_at(link, i, w) by {
        if i >= 18 {
            assert(!stands_at(code, i - 18, w));
            if stands_at(link, i, w) {
                assert(code.subrange(i - 18, i - 18 + 7) =~= link.subrange(i, i + 7));
            }
        } else if stands_at(link, i, w) {
            let t = link.subrange(i, i + 7);
            assert(t[0] == link[i] && t[1] == link[i + 1]);
            assert(t[0] == 'i' && t[1] == 'n');
        }
    }
    lemma_none_left(link, w, 11, link.len() - 7);
    assert(link.subrange(18, link.len() as int) =~= code);
    // The bare code holds none.
    if code.len() >= 7 {
        lemma_none_left(code, w, -1, code.len() - 7);
    }
}

proof fn lemma_trim_keeps_last(s: Seq<char>)
    requires
        trimmed(s) == s,
        s.len() > 0,
    ensures
        !Strip::Space.strips(s.last()),
{
    let k = Strip::Space;
    lemma_start_shrinks(s, k);
    lemma_end_shrinks(stripped_start(s, k), k);
    assert(stripped_start(s, k).len() == s.len());
    if k.strips(s[0]) {
        lemma_start_shrinks(s.subrange(1, s.len() as int), k);
    }
    assert(stripped_start(s, k) == s);
    if k.strips(s.last()) {
        lemma_end_shrinks(s.drop_last(), k);
    }
}

proof fn lemma_start_shrinks(s: Seq<char>, k: Strip)
    ensures
        stripped_start(s, k).len() <= s.len(),
    decreases s.len(),
{
    if s.len() > 0 && k.strips(s[0]) {
        lemma_start_shrinks(s.subrange(1, s.len() as int), k);
    }
}

proof fn lemma_end_shrinks(s: Seq<char>, k: Strip)
    ensures
        stripped_end(s, k).len() <= s.len(),
    decreases s.len(),
{
    if s.len() > 0 && k.strips(s.last()) {
        lemma_end_shrinks(s.drop_last(), k);
    }
}

/// The name that this device is listed under, from the environment.
pub fn hostname_best_effort(computer_name: Option<String>, host_name: Option<String>) -> (r: String)
    ensures
        r@ == match computer_name {
            Some(n) => n@,
            None => match host_name {
                Some(n) => n@,
                None => "device"@,
            },
        },
{
    match computer_name {
        Some(n) => n,
        None => match host_name {
            Some(n) => n,
            None => owned("device"),
        },
    }
}

} // verus!
