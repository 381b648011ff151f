//! Paths as texts: a base directory with its separator, and what lies below.

use crate::text::{cat2, cat3, chars_of, is_ascii_alphanumeric, ascii_alphanumeric, text_of};
use vstd::prelude::*;

verus! {

/// Where application data lives: the base directory and the platform's
/// separator.
#[derive(Debug)]
pub struct Root {
    pub base: String,
    pub separator: char,
}

/// `part` below `dir`. A part that starts with the separator stands for
/// itself; a separator at the end of `dir` is not doubled.
pub open spec fn below(dir: Seq<char>, separator: char, part: Seq<char>) -> Seq<char> {
    if part.len() > 0 && part[0] == separator {
        part
    } else if dir.len() == 0 || dir.last() == separator {
        dir + part
    } else {
        dir.push(separator) + part
    }
}

/// [`below`], computed.
pub fn join(dir: &str, separator: char, part: &str) -> (r: String)
    ensures
        r@ == below(dir@, separator, part@),
{
    let d = chars_of(dir);
    let p = chars_of(part);
    if p.len() > 0 && p[0] == separator {
        text_of(&p, 0, p.len())
    } else if d.len() == 0 || d[d.len() - 1] == separator {
        cat2(dir, part)
    } else {
        let mut sep = String::new();
        sep.push(separator);
        let r = cat3(dir, &sep, part);
        assert(r@ =~= dir@.push(separator) + part@);
        r
    }
}

/// A character of an id that is kept in a file name.
pub open spec fn kept_in_name(c: char, dashes: bool) -> bool {
    ascii_alphanumeric(c) || (dashes && (c == '-' || c == '_'))
}

/// An id as a file name: what is not kept becomes `_`.
pub open spec fn file_name(id: Seq<char>, dashes: bool) -> Seq<char> {
    Seq::new(
        id.len(),
        |i: int|
            if kept_in_name(id[i], dashes) {
                id[i]
            } else {
                '_'
            },
    )
}

/// [`file_name`], computed.
pub fn safe_name(id: &str, dashes: bool) -> (r: String)
    ensures
        r@ == file_name(id@, dashes),
{
    let v = chars_of(id);
    let mut r = String::new();
    let mut i: usize = 0;
    while i < v.len()
        invariant
            i <= v@.len(),
            v@ == id@,
            r@ == file_name(id@, dashes).take(i as int),
        decreases v@.len() - i,
    {
        let c = v[i];
        let kept = is_ascii_alphanumeric(c) || (dashes && (c == '-' || c == '_'));
        let d = if kept {
            c
        } else {
            '_'
        };
        r.push(d);
        i += 1;
        assert(file_name(id@, dashes).take(i as int) =~= file_name(id@, dashes).take(i - 1).push(d));
    }
    assert(file_name(id@, dashes).take(v@.len() as int) =~= file_name(id@, dashes));
    r
}

/// A file name made from an id holds only ASCII letters, digits, `_` and `-`:
/// no separator, no dot, whatever the id holds.
pub proof fn file_names_are_safe(id: Seq<char>, dashes: bool)
    ensures
        file_name(id, dashes).len() == id.len(),
        forall|i: int|
            0 <= i < id.len() ==> {
                let c = #[trigger] file_name(id, dashes)[i];
                ascii_alphanumeric(c) || c == '_' || c == '-'
            },
{
}

} // verus!
