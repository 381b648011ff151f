//! Version numbers like `1.4.2`.

use crate::text::{chars_of, strip_start, stripped_start, trim, trimmed, Strip};
use vstd::prelude::*;

verus! {

// ---------- Numbers ----------

/// The value of decimal digits.
pub open spec fn decimal_value(s: Seq<char>) -> nat
    decreases s.len(),
{
    if s.len() == 0 {
        0
    } else {
        decimal_value(s.drop_last()) * 10 + (s.last() as nat - '0' as nat) as nat
    }
}

/// Every character is a decimal digit.
pub open spec fn all_digits(s: Seq<char>) -> bool {
    forall|i: int| 0 <= i < s.len() ==> '0' <= #[trigger] s[i] && s[i] <= '9'
}

/// A number without its plus sign.
pub open spec fn unsigned(s: Seq<char>) -> Seq<char> {
    if s.len() > 1 && s[0] == '+' {
        s.subrange(1, s.len() as int)
    } else {
        s
    }
}

/// The number that a text stands for (`u64::from_str`): decimal digits, with
/// a plus sign or not, that fit into 64 bits.
pub open spec fn number(s: Seq<char>) -> Option<u64> {
    let d = unsigned(s);
    if d.len() > 0 && all_digits(d) && decimal_value(d) <= u64::MAX {
        Some(decimal_value(d) as u64)
    } else {
        None
    }
}

proof fn lemma_value_grows(s: Seq<char>, n: int)
    requires
        0 <= n <= s.len(),
    ensures
        decimal_value(s.take(n)) <= decimal_value(s),
    decreases s.len() - n,
{
    if n < s.len() {
        lemma_value_grows(s, n + 1);
        assert(s.take(n + 1).drop_last() =~= s.take(n));
    } else {
        assert(s.take(n) =~= s);
    }
}

/// [`number`], computed, for the characters `from..to`.
fn parse_number(v: &Vec<char>, from: usize, to: usize) -> (r: Option<u64>)
    requires
        from <= to <= v@.len(),
    ensures
        r == number(v@.subrange(from as int, to as int)),
{
    let ghost s = v@.subrange(from as int, to as int);
    let start: usize = if to - from > 1 && v[from] == '+' {
        from + 1
    } else {
        from
    };
    let ghost d = unsigned(s);
    assert(d =~= v@.subrange(start as int, to as int));
    if start == to {
        return None;
    }
    let mut value: u64 = 0;
    let mut i: usize = start;
    assert(d.take(0) =~= Seq::<char>::empty());
    while i < to
        invariant
            start <= i <= to <= v@.len(),
            d == v@.subrange(start as int, to as int),
            forall|k: int| 0 <= k < i - start ==> '0' <= #[trigger] d[k] && d[k] <= '9',
            value == decimal_value(d.take(i - start)),
            d == unsigned(s),
            s == v@.subrange(from as int, to as int),
            d.len() > 0,
        decreases to - i,
    {
        let c = v[i];
        assert(d[i - start] == c);
        if !('0' <= c && c <= '9') {
            assert(!all_digits(d));
            return None;
        }
        let digit: u64 = (c as u32 - 48) as u64;
        assert(d.take(i - start + 1).drop_last() =~= d.take(i - start));
        assert(d.take(i - start + 1).last() == c);
        assert(decimal_value(d.take(i - start + 1)) == value * 10 + digit);
        if value > 1_844_674_407_370_955_161 || (value == 1_844_674_407_370_955_161 && digit > 5) {
            proof {
                lemma_value_grows(d, i - start + 1);
            }
            return None;
        }
        value = value * 10 + digit;
        i += 1;
    }
    assert(d.take(d.len() as int) =~= d);
    Some(value)
}

// ---------- Versions ----------

/// The numbers among the pieces between dots.
pub open spec fn numbers(s: Seq<char>) -> Seq<u64>
    decreases s.len(),
{
    let head = s.take(first_dot(s));
    let rest = if 0 <= first_dot(s) < s.len() {
        numbers(s.subrange(first_dot(s) + 1, s.len() as int))
    } else {
        Seq::empty()
    };
    match number(head) {
        Some(n) => seq![n] + rest,
        None => rest,
    }
}

/// Position of the first dot, or the end.
pub open spec fn first_dot(s: Seq<char>) -> int
    decreases s.len(),
{
    if s.len() == 0 || s[0] == '.' {
        0
    } else {
        1 + first_dot(s.subrange(1, s.len() as int))
    }
}

/// Every piece between dots is a number.
pub open spec fn all_numbers(s: Seq<char>) -> bool
    decreases s.len(),
{
    &&& number(s.take(first_dot(s))) is Some
    &&& 0 <= first_dot(s) < s.len() ==> all_numbers(s.subrange(first_dot(s) + 1, s.len() as int))
}

/// A version without the `v` that it may start with.
pub open spec fn bare(v: Seq<char>) -> Seq<char> {
    stripped_start(trimmed(v), Strip::Only('v'))
}

/// The numbers that can be read in a version.
pub open spec fn readable_numbers(v: Seq<char>) -> Seq<u64> {
    numbers(bare(v))
}

/// The numbers of a version; none where a piece between dots is no number.
pub open spec fn version_numbers(v: Seq<char>) -> Option<Seq<u64>> {
    if all_numbers(bare(v)) {
        Some(readable_numbers(v))
    } else {
        None
    }
}

/// `a` comes behind `b`: the first difference counts, and more numbers beat
/// fewer.
pub open spec fn later(a: Seq<u64>, b: Seq<u64>) -> bool
    decreases a.len(),
{
    if a.len() == 0 {
        false
    } else if b.len() == 0 {
        true
    } else if a[0] != b[0] {
        a[0] > b[0]
    } else {
        later(a.subrange(1, a.len() as int), b.subrange(1, b.len() as int))
    }
}

/// The remote version is newer; one that cannot be read never is. Of the local
/// version counts what can be read.
pub open spec fn newer(remote: Seq<char>, local: Seq<char>) -> bool {
    match version_numbers(remote) {
        Some(theirs) => later(theirs, readable_numbers(local)),
        None => false,
    }
}

fn next_dot(v: &Vec<char>, from: usize) -> (r: usize)
    requires
        from <= v@.len(),
    ensures
        from <= r <= v@.len(),
        r - from == first_dot(v@.subrange(from as int, v@.len() as int)),
{
    let n: usize = v.len();
    let mut i: usize = from;
    while i < n && v[i] != '.'
        invariant
            from <= i <= n,
            n == v@.len(),
            first_dot(v@.subrange(from as int, v@.len() as int)) == i - from + first_dot(
                v@.subrange(i as int, v@.len() as int),
            ),
        decreases n - i,
    {
        let ghost rest = v@.subrange(i as int, v@.len() as int);
        assert(rest.subrange(1, rest.len() as int) =~= v@.subrange(i + 1, v@.len() as int));
        i += 1;
    }
    i
}

/// The numbers among the pieces between dots, and whether all are numbers.
fn parse_numbers(v: &Vec<char>) -> (r: (Vec<u64>, bool))
    ensures
        (r.0)@ == numbers(v@),
        r.1 == all_numbers(v@),
{
    let n: usize = v.len();
    let mut r: Vec<u64> = Vec::new();
    let mut all = true;
    let mut from: usize = 0;
    let mut more = true;
    assert(v@.subrange(0, v@.len() as int) =~= v@);
    while more
        invariant
            from <= n,
            n == v@.len(),
            more ==> numbers(v@) == r@ + numbers(v@.subrange(from as int, v@.len() as int)),
            more ==> all_numbers(v@) == (all && all_numbers(
                v@.subrange(from as int, v@.len() as int),
            )),
            !more ==> numbers(v@) == r@,
            !more ==> all_numbers(v@) == all,
        decreases n - from + if more {
            1int
        } else {
            0int
        },
    {
        let ghost rest = v@.subrange(from as int, v@.len() as int);
        let end = next_dot(v, from);
        assert(rest.take(first_dot(rest)) =~= v@.subrange(from as int, end as int));
        let ghost before = r@;
        match parse_number(v, from, end) {
            Some(k) => {
                r.push(k);
                assert(r@ =~= before + seq![k]);
            },
            None => {
                all = false;
            },
        }
        if end < n {
            assert(rest.subrange(first_dot(rest) + 1, rest.len() as int) =~= v@.subrange(
                end + 1,
                v@.len() as int,
            ));
            from = end + 1;
            assert(numbers(v@) =~= r@ + numbers(v@.subrange(from as int, v@.len() as int)));
        } else {
            more = false;
            assert(numbers(v@) =~= r@);
        }
    }
    (r, all)
}

fn parts(v: &str) -> (r: (Vec<u64>, bool))
    ensures
        (r.0)@ == readable_numbers(v@),
        r.1 == (version_numbers(v@) is Some),
{
    let s = strip_start(&trim(v), Strip::Only('v'));
    parse_numbers(&chars_of(&s))
}

fn is_later(a: &Vec<u64>, b: &Vec<u64>) -> (r: bool)
    ensures
        r == later(a@, b@),
{
    let mut i: usize = 0;
    assert(a@.subrange(0, a@.len() as int) =~= a@);
    assert(b@.subrange(0, b@.len() as int) =~= b@);
    while i < a.len() && i < b.len() && a[i] == b[i]
        invariant
            i <= a@.len(),
            i <= b@.len(),
            later(a@, b@) == later(
                a@.subrange(i as int, a@.len() as int),
                b@.subrange(i as int, b@.len() as int),
            ),
        decreases a@.len() - i,
    {
        let ghost x = a@.subrange(i as int, a@.len() as int);
        let ghost y = b@.subrange(i as int, b@.len() as int);
        assert(x.subrange(1, x.len() as int) =~= a@.subrange(i + 1, a@.len() as int));
        assert(y.subrange(1, y.len() as int) =~= b@.subrange(i + 1, b@.len() as int));
        i += 1;
    }
    if i >= a.len() {
        false
    } else if i >= b.len() {
        true
    } else {
        a[i] > b[i]
    }
}

/// [`newer`], computed.
pub fn is_newer_version(remote: &str, local: &str) -> (r: bool)
    ensures
        r == newer(remote@, local@),
{
    let (theirs, readable) = parts(remote);
    if !readable {
        return false;
    }
    let (ours, _) = parts(local);
    is_later(&theirs, &ours)
}

// ---------- Laws ----------

/// Of two lists of numbers, at most one is the later.
pub proof fn lemma_later_asymmetric(a: Seq<u64>, b: Seq<u64>)
    ensures
        !(later(a, b) && later(b, a)),
        !later(a, a),
    decreases a.len(),
{
    if a.len() > 0 {
        let x = a.subrange(1, a.len() as int);
        lemma_later_asymmetric(x, x);
        if b.len() > 0 {
            lemma_later_asymmetric(x, b.subrange(1, b.len() as int));
        }
    }
}

/// Later than something later is later.
pub proof fn lemma_later_transitive(a: Seq<u64>, b: Seq<u64>, c: Seq<u64>)
    requires
        later(a, b),
        later(b, c),
    ensures
        later(a, c),
    decreases a.len(),
{
    if a.len() > 0 && b.len() > 0 && c.len() > 0 && a[0] == b[0] && b[0] == c[0] {
        lemma_later_transitive(
            a.subrange(1, a.len() as int),
            b.subrange(1, b.len() as int),
            c.subrange(1, c.len() as int),
        );
    }
}

/// Versions are ordered: none is newer than itself, no two are newer than
/// each other, and newer than a newer one is newer. A version that cannot be
/// read is newer than none.
pub proof fn versions_are_ordered(a: Seq<char>, b: Seq<char>, c: Seq<char>)
    ensures
        !newer(a, a),
        !(newer(a, b) && newer(b, a)),
        newer(a, b) && newer(b, c) ==> newer(a, c),
        version_numbers(a) is None ==> !newer(a, b),
{
    let x = readable_numbers(a);
    let y = readable_numbers(b);
    lemma_later_asymmetric(x, y);
    if newer(a, b) && newer(b, c) {
        lemma_later_transitive(x, y, readable_numbers(c));
    }
}

} // verus!
