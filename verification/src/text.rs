//! Text helpers: comparison, trimming, joining, case folding and decimal
//! numerals. Every function states its result over the sequence of Unicode
//! scalar values that a string holds.

use vstd::prelude::*;
use vstd::utf8::{decode_utf8, encode_scalar, encode_utf8, valid_utf8};

verus! {

// ---------- What the standard library decides about characters ----------

/// Whether a character beyond the ASCII range has the Unicode property
/// `White_Space`.
pub uninterp spec fn wide_space(c: char) -> bool;

/// Whether a character has the Unicode property `White_Space`. On the ASCII
/// range these are the space and the controls from tab to carriage return.
pub open spec fn white_space(c: char) -> bool {
    if (c as u32) < 128 {
        c == ' ' || ('\t' <= c && c <= '\r')
    } else {
        wide_space(c)
    }
}

/// Whether a character beyond the ASCII range is alphabetic or numeric in
/// Unicode's sense.
pub uninterp spec fn wide_alphanumeric(c: char) -> bool;

/// Whether a character is alphabetic or numeric in Unicode's sense. On the
/// ASCII range these are the letters and the ten digits.
pub open spec fn alphanumeric(c: char) -> bool {
    if (c as u32) < 128 {
        ascii_alphanumeric(c)
    } else {
        wide_alphanumeric(c)
    }
}

/// Every character is in the ASCII range.
pub open spec fn all_ascii(s: Seq<char>) -> bool {
    forall|i: int| 0 <= i < s.len() ==> (#[trigger] s[i] as u32) < 128
}

/// ASCII upper-case letters become lower case, everything else stays.
pub open spec fn ascii_lower(c: char) -> char {
    if 'A' <= c && c <= 'Z' {
        ((c as u32 + 32) as u32) as char
    } else {
        c
    }
}

/// [`ascii_lower`] on each character.
pub open spec fn ascii_lower_text(s: Seq<char>) -> Seq<char> {
    Seq::new(s.len(), |i: int| ascii_lower(s[i]))
}

/// The lowercase form of a text with characters beyond the ASCII range, by
/// Unicode's full case mapping.
pub uninterp spec fn wide_lowercase(s: Seq<char>) -> Seq<char>;

/// The lowercase form of a text. Within the ASCII range only the letters `A`
/// to `Z` change.
pub open spec fn lowercase(s: Seq<char>) -> Seq<char> {
    if all_ascii(s) {
        ascii_lower_text(s)
    } else {
        wide_lowercase(s)
    }
}

/// Bytes that are no UTF-8, read with replacement characters for what is none.
pub uninterp spec fn replaced_utf8(bytes: Seq<u8>) -> Seq<char>;

/// Bytes read as UTF-8, with replacement characters for what is none.
pub open spec fn utf8_lossy(bytes: Seq<u8>) -> Seq<char> {
    if valid_utf8(bytes) {
        decode_utf8(bytes)
    } else {
        replaced_utf8(bytes)
    }
}

/// `String::from_utf8_lossy`: bytes that are UTF-8 are read as such, and what
/// the text is otherwise is only named.
#[verifier::external_body]
pub(crate) fn lossy_text(bytes: &[u8]) -> (r: String)
    ensures
        valid_utf8(bytes@) ==> r@ == decode_utf8(bytes@),
        !valid_utf8(bytes@) ==> r@ == replaced_utf8(bytes@),
{
    String::from_utf8_lossy(bytes).into_owned()
}

/// `char::is_whitespace`: the Unicode property `White_Space`, which on the
/// ASCII range is that of the space and of the controls from tab to carriage
/// return; beyond it the answer is only named.
pub assume_specification[ char::is_whitespace ](c: char) -> (r: bool)
    ensures
        (c as u32) >= 128 ==> r == wide_space(c),
        (c as u32) < 128 ==> r == (c == ' ' || ('\t' <= c && c <= '\r')),
;

/// `char::is_alphanumeric`: alphabetic or numeric in Unicode's sense; on the
/// ASCII range these are the letters and the ten digits, beyond it the answer
/// is only named.
pub assume_specification[ char::is_alphanumeric ](c: char) -> (r: bool)
    ensures
        (c as u32) >= 128 ==> r == wide_alphanumeric(c),
        (c as u32) < 128 ==> r == ascii_alphanumeric(c),
;

/// `str::to_lowercase`: Unicode's lowercase mapping of the whole text; on a
/// text within the ASCII range it maps the letters `A` to `Z`, and what it
/// gives otherwise is only named.
pub assume_specification[ str::to_lowercase ](s: &str) -> (r: String)
    ensures
        !all_ascii(s@) ==> r@ == wide_lowercase(s@),
        all_ascii(s@) ==> r@ == ascii_lower_text(s@),
;

/// `str == str`: equal exactly when the characters are equal.
pub assume_specification[ <str as PartialEq>::eq ](a: &str, b: &str) -> (r: bool)
    ensures
        r == (a@ == b@),
;

/// `String::push`: appends one character.
pub assume_specification[ String::push ](s: &mut String, c: char)
    ensures
        final(s)@ == old(s)@.push(c),
;

// ---------- Basics ----------

/// Whether two texts hold the same characters.
pub fn same(a: &str, b: &str) -> (r: bool)
    ensures
        r == (a@ == b@),
{
    a.eq(b)
}

/// Whether an optional text is present and equal to `b`.
pub fn is_text(a: &Option<String>, b: &str) -> (r: bool)
    ensures
        r == text_is(*a, b@),
{
    match a {
        Some(s) => same(s, b),
        None => false,
    }
}

/// An optional text is present and holds exactly `s`.
pub open spec fn text_is(a: Option<String>, s: Seq<char>) -> bool {
    a is Some && a->0@ == s
}

/// An owned copy of a text.
pub fn owned(s: &str) -> (r: String)
    ensures
        r@ == s@,
{
    s.to_owned()
}

/// Length in bytes of the UTF-8 encoding.
pub open spec fn byte_len(s: Seq<char>) -> nat {
    encode_utf8(s).len()
}

/// Length in bytes, as `str::len` gives it.
pub fn text_len(s: &str) -> (r: usize)
    ensures
        r == byte_len(s@),
{
    s.as_bytes().len()
}

/// The characters of a text.
pub fn chars_of(s: &str) -> (v: Vec<char>)
    ensures
        v@ == s@,
{
    let mut v: Vec<char> = Vec::new();
    for c in it: s.chars()
        invariant
            it.seq() == s@,
            v@ == s@.take(it.index()),
    {
        assert(s@.take(it.index() + 1) =~= s@.take(it.index()).push(c));
        v.push(c);
    }
    assert(s@.take(s@.len() as int) =~= s@);
    v
}

/// Number of characters.
pub fn char_count(s: &str) -> (n: usize)
    ensures
        n == s@.len(),
{
    chars_of(s).len()
}

/// The text made of the characters `from..to`.
pub fn text_of(v: &Vec<char>, from: usize, to: usize) -> (s: String)
    requires
        from <= to <= v@.len(),
    ensures
        s@ == v@.subrange(from as int, to as int),
{
    let mut s = String::new();
    let mut i: usize = from;
    while i < to
        invariant
            from <= i <= to <= v@.len(),
            s@ == v@.subrange(from as int, i as int),
        decreases to - i,
    {
        s.push(v[i]);
        i += 1;
        assert(v@.subrange(from as int, i as int) =~= v@.subrange(from as int, i - 1).push(v@[i - 1]));
    }
    s
}

/// Two texts one after the other.
pub fn cat2(a: &str, b: &str) -> (r: String)
    ensures
        r@ == a@ + b@,
{
    let mut r = owned(a);
    r.append(b);
    r
}

/// Three texts one after the other.
pub fn cat3(a: &str, b: &str, c: &str) -> (r: String)
    ensures
        r@ == a@ + b@ + c@,
{
    let mut r = cat2(a, b);
    r.append(c);
    r
}

/// Four texts one after the other.
pub fn cat4(a: &str, b: &str, c: &str, d: &str) -> (r: String)
    ensures
        r@ == a@ + b@ + c@ + d@,
{
    let mut r = cat3(a, b, c);
    r.append(d);
    r
}

/// Five texts one after the other.
pub fn cat5(a: &str, b: &str, c: &str, d: &str, e: &str) -> (r: String)
    ensures
        r@ == a@ + b@ + c@ + d@ + e@,
{
    let mut r = cat4(a, b, c, d);
    r.append(e);
    r
}

/// Encoding distributes over concatenation.
pub proof fn lemma_encode_concat(a: Seq<char>, b: Seq<char>)
    ensures
        encode_utf8(a + b) == encode_utf8(a) + encode_utf8(b),
    decreases a.len(),
{
    if a.len() == 0 {
        assert(a + b =~= b);
        assert(encode_utf8(a) + encode_utf8(b) =~= encode_utf8(b));
    } else {
        assert((a + b).drop_first() =~= a.drop_first() + b);
        lemma_encode_concat(a.drop_first(), b);
        assert(encode_utf8(a + b) =~= encode_utf8(a) + encode_utf8(b));
    }
}

/// A longer prefix of a text encodes to at least as many bytes, and to more
/// where it has more characters.
pub proof fn lemma_byte_len_grows(s: Seq<char>, p: int, q: int)
    requires
        0 <= p <= q <= s.len(),
    ensures
        byte_len(s.take(p)) + (q - p) <= byte_len(s.take(q)),
    decreases q - p,
{
    if p < q {
        lemma_byte_len_grows(s, p, q - 1);
        assert(s.take(q) =~= s.take(q - 1) + seq![s[q - 1]]);
        lemma_encode_concat(s.take(q - 1), seq![s[q - 1]]);
        let one = seq![s[q - 1]];
        assert(encode_utf8(one) == encode_scalar(one[0] as u32) + encode_utf8(one.drop_first()));
    }
}

// ---------- Trimming ----------

/// What a trim removes from the ends of a text.
#[derive(Clone, Copy, PartialEq, Eq, Structural)]
pub enum Strip {
    /// Unicode white space.
    Space,
    /// One particular character.
    Only(char),
}

impl Strip {
    /// Whether this trim removes `c`.
    pub open spec fn strips(self, c: char) -> bool {
        match self {
            Strip::Space => white_space(c),
            Strip::Only(d) => c == d,
        }
    }

    fn test(&self, c: char) -> (r: bool)
        ensures
            r == self.strips(c),
    {
        match self {
            Strip::Space => c.is_whitespace(),
            Strip::Only(d) => c == *d,
        }
    }
}

/// `s` without its longest stripped prefix.
pub open spec fn stripped_start(s: Seq<char>, k: Strip) -> Seq<char>
    decreases s.len(),
{
    if s.len() > 0 && k.strips(s[0]) {
        stripped_start(s.subrange(1, s.len() as int), k)
    } else {
        s
    }
}

/// `s` without its longest stripped suffix.
pub open spec fn stripped_end(s: Seq<char>, k: Strip) -> Seq<char>
    decreases s.len(),
{
    if s.len() > 0 && k.strips(s.last()) {
        stripped_end(s.drop_last(), k)
    } else {
        s
    }
}

/// `s` without white space at either end.
pub open spec fn trimmed(s: Seq<char>) -> Seq<char> {
    stripped_end(stripped_start(s, Strip::Space), Strip::Space)
}

fn first_kept(v: &Vec<char>, k: Strip) -> (i: usize)
    ensures
        i <= v@.len(),
        v@.subrange(i as int, v@.len() as int) == stripped_start(v@, k),
{
    let mut i: usize = 0;
    assert(v@.subrange(0, v@.len() as int) =~= v@);
    while i < v.len() && k.test(v[i])
        invariant
            i <= v@.len(),
            stripped_start(v@, k) == stripped_start(v@.subrange(i as int, v@.len() as int), k),
        decreases v@.len() - i,
    {
        let ghost rest = v@.subrange(i as int, v@.len() as int);
        assert(rest.subrange(1, rest.len() as int) =~= v@.subrange(i + 1, v@.len() as int));
        i += 1;
    }
    i
}

fn last_kept(v: &Vec<char>, from: usize, k: Strip) -> (j: usize)
    requires
        from <= v@.len(),
    ensures
        from <= j <= v@.len(),
        v@.subrange(from as int, j as int) == stripped_end(
            v@.subrange(from as int, v@.len() as int),
            k,
        ),
{
    let mut j: usize = v.len();
    while j > from && k.test(v[j - 1])
        invariant
            from <= j <= v@.len(),
            stripped_end(v@.subrange(from as int, v@.len() as int), k) == stripped_end(
                v@.subrange(from as int, j as int),
                k,
            ),
        decreases j,
    {
        let ghost head = v@.subrange(from as int, j as int);
        assert(head.drop_last() =~= v@.subrange(from as int, j - 1));
        assert(head.last() == v@[j - 1]);
        j -= 1;
    }
    assert(j > from ==> v@.subrange(from as int, j as int).last() == v@[j - 1]);
    j
}

/// `str::trim`: white space removed from both ends.
pub fn trim(s: &str) -> (r: String)
    ensures
        r@ == trimmed(s@),
{
    let v = chars_of(s);
    let i = first_kept(&v, Strip::Space);
    let j = last_kept(&v, i, Strip::Space);
    text_of(&v, i, j)
}

/// `s` without the leading characters that `k` strips.
pub fn strip_start(s: &str, k: Strip) -> (r: String)
    ensures
        r@ == stripped_start(s@, k),
{
    let v = chars_of(s);
    let i = first_kept(&v, k);
    text_of(&v, i, v.len())
}

/// `s` without the leading and trailing characters that `k` strips.
pub fn strip_both(s: &str, k: Strip) -> (r: String)
    ensures
        r@ == stripped_end(stripped_start(s@, k), k),
{
    let v = chars_of(s);
    let i = first_kept(&v, k);
    let j = last_kept(&v, i, k);
    text_of(&v, i, j)
}

/// What follows `prefix` in `s`, where `s` starts with it (`str::strip_prefix`).
pub fn strip_prefix(s: &str, prefix: &str) -> (r: Option<String>)
    ensures
        match r {
            Some(t) => s@.len() >= prefix@.len() && s@.take(prefix@.len() as int) == prefix@
                && t@ == s@.subrange(prefix@.len() as int, s@.len() as int),
            None => !(s@.len() >= prefix@.len() && s@.take(prefix@.len() as int) == prefix@),
        },
{
    let v = chars_of(s);
    let p = chars_of(prefix);
    if v.len() < p.len() {
        return None;
    }
    let head = text_of(&v, 0, p.len());
    assert(v@.subrange(0, p@.len() as int) =~= s@.take(p@.len() as int));
    if same(&head, prefix) {
        Some(text_of(&v, p.len(), v.len()))
    } else {
        None
    }
}

/// `w` stands in `s` from position `at` on.
pub open spec fn stands_at(s: Seq<char>, at: int, w: Seq<char>) -> bool {
    at + w.len() <= s.len() && s.subrange(at, at + w.len()) == w
}

/// What follows the last `w` in `s` that starts at `at` or before, if there is
/// one.
pub open spec fn after_last(s: Seq<char>, w: Seq<char>, at: int) -> Option<Seq<char>>
    decreases at + 1,
{
    if at < 0 {
        None
    } else if stands_at(s, at, w) {
        Some(s.subrange(at + w.len(), s.len() as int))
    } else {
        after_last(s, w, at - 1)
    }
}

/// What follows the last `w` in `s` (`str::rsplit_once`).
pub fn split_last(s: &str, w: &str) -> (r: Option<String>)
    ensures
        match r {
            Some(t) => after_last(s@, w@, s@.len() - w@.len()) == Some(t@),
            None => after_last(s@, w@, s@.len() - w@.len()) is None,
        },
{
    let v = chars_of(s);
    let n: usize = char_count(w);
    if v.len() < n {
        return None;
    }
    let len: usize = v.len();
    let mut at: usize = len - n;
    while !same(&text_of(&v, at, at + n), w)
        invariant
            at + n <= len,
            len == v@.len(),
            n == w@.len(),
            v@ == s@,
            after_last(s@, w@, s@.len() - w@.len()) == after_last(s@, w@, at as int),
        decreases at,
    {
        if at == 0 {
            assert(after_last(s@, w@, -1) is None);
            return None;
        }
        at -= 1;
    }
    Some(text_of(&v, at + n, len))
}

/// `w` occurs in `s`.
pub open spec fn occurs(s: Seq<char>, w: Seq<char>) -> bool {
    exists|at: int| 0 <= at && #[trigger] stands_at(s, at, w)
}

/// `str::contains` for a text.
pub fn contains_text(s: &str, w: &str) -> (r: bool)
    ensures
        r == occurs(s@, w@),
{
    let v = chars_of(s);
    let n: usize = char_count(w);
    let len: usize = v.len();
    if len < n {
        assert forall|at: int| 0 <= at implies !#[trigger] stands_at(s@, at, w@) by {}
        return false;
    }
    let last: usize = len - n;
    let mut i: usize = 0;
    while i < last
        invariant
            i <= last,
            last + n == len,
            len == v@.len(),
            n == w@.len(),
            v@ == s@,
            forall|at: int| 0 <= at < i ==> !#[trigger] stands_at(s@, at, w@),
        decreases last - i,
    {
        if same(&text_of(&v, i, i + n), w) {
            assert(stands_at(s@, i as int, w@));
            return true;
        }
        i += 1;
    }
    let r = same(&text_of(&v, last, len), w);
    assert(r == stands_at(s@, last as int, w@));
    assert forall|at: int| at > last implies !#[trigger] stands_at(s@, at, w@) by {}
    r
}

/// `s` ends with `w`.
pub open spec fn has_end(s: Seq<char>, w: Seq<char>) -> bool {
    w.len() <= s.len() && s.subrange(s.len() - w.len(), s.len() as int) == w
}

/// `str::ends_with`.
pub fn ends_with(s: &str, w: &str) -> (r: bool)
    ensures
        r == has_end(s@, w@),
{
    let v = chars_of(s);
    let n: usize = char_count(w);
    n <= v.len() && same(&text_of(&v, v.len() - n, v.len()), w)
}

// ---------- Characters ----------

/// ASCII letters and digits.
pub open spec fn ascii_alphanumeric(c: char) -> bool {
    ('0' <= c && c <= '9') || ('A' <= c && c <= 'Z') || ('a' <= c && c <= 'z')
}

/// `char::is_ascii_alphanumeric`.
pub fn is_ascii_alphanumeric(c: char) -> (r: bool)
    ensures
        r == ascii_alphanumeric(c),
{
    ('0' <= c && c <= '9') || ('A' <= c && c <= 'Z') || ('a' <= c && c <= 'z')
}

/// [`ascii_lower`], computed.
pub fn to_ascii_lower(c: char) -> (r: char)
    ensures
        r == ascii_lower(c),
{
    if 'A' <= c && c <= 'Z' {
        ((c as u8) + 32) as char
    } else {
        c
    }
}

/// Whether `s` holds the character `c`.
pub fn has_char(s: &str, c: char) -> (r: bool)
    ensures
        r == s@.contains(c),
{
    let v = chars_of(s);
    let mut i: usize = 0;
    while i < v.len()
        invariant
            i <= v@.len(),
            v@ == s@,
            forall|j: int| 0 <= j < i ==> v@[j] != c,
        decreases v@.len() - i,
    {
        if v[i] == c {
            assert(s@[i as int] == c);
            return true;
        }
        i += 1;
    }
    false
}

/// Equal up to the case of ASCII letters (`str::eq_ignore_ascii_case`).
pub fn same_ignoring_ascii_case(a: &str, b: &str) -> (r: bool)
    ensures
        r == (ascii_lower_text(a@) == ascii_lower_text(b@)),
{
    let v = chars_of(a);
    let w = chars_of(b);
    if v.len() != w.len() {
        assert(ascii_lower_text(a@).len() != ascii_lower_text(b@).len());
        return false;
    }
    let mut i: usize = 0;
    while i < v.len()
        invariant
            i <= v@.len(),
            v@.len() == w@.len(),
            v@ == a@,
            w@ == b@,
            forall|j: int| 0 <= j < i ==> ascii_lower(v@[j]) == ascii_lower(w@[j]),
        decreases v@.len() - i,
    {
        if to_ascii_lower(v[i]) != to_ascii_lower(w[i]) {
            assert(ascii_lower_text(a@)[i as int] != ascii_lower_text(b@)[i as int]);
            return false;
        }
        i += 1;
    }
    assert(ascii_lower_text(a@) =~= ascii_lower_text(b@));
    true
}

// ---------- Decimal numerals ----------

/// The decimal digit for `d < 10`.
pub open spec fn digit(d: nat) -> char {
    ((48 + d) as u32) as char
}

/// The decimal numeral of `n`, without leading zeros.
pub open spec fn digits(n: nat) -> Seq<char>
    decreases n,
{
    if n < 10 {
        seq![digit(n)]
    } else {
        digits(n / 10).push(digit(n % 10))
    }
}

/// The decimal numeral of an integer, with a sign where it is negative.
pub open spec fn signed_digits(n: int) -> Seq<char> {
    if n < 0 {
        seq!['-'] + digits((-n) as nat)
    } else {
        digits(n as nat)
    }
}

/// The decimal numeral of `n`.
pub fn decimal(n: u64) -> (s: String)
    ensures
        s@ == digits(n as nat),
    decreases n,
{
    if n < 10 {
        let mut s = String::new();
        s.push((48u8 + n as u8) as char);
        assert(s@ =~= seq![digit(n as nat)]);
        s
    } else {
        let mut s = decimal(n / 10);
        s.push((48u8 + (n % 10) as u8) as char);
        s
    }
}

/// The decimal numeral of a signed integer.
pub fn decimal_signed(n: i64) -> (s: String)
    ensures
        s@ == signed_digits(n as int),
{
    if n < 0 {
        let m: u64 = (-(n as i128)) as u64;
        let t = decimal(m);
        let mut s = String::new();
        s.push('-');
        s.append(&t);
        assert(s@ =~= seq!['-'] + digits((-n) as nat));
        s
    } else {
        decimal(n as u64)
    }
}

} // verus!
