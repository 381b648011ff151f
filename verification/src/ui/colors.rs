//! Colors given as text, initials, and the badges of roles.

use crate::hex::{hex_pair, parse_hex_pair};
use crate::text::{byte_len, chars_of, owned, same, strip_start, stripped_start, text_len, Strip};
use vstd::prelude::*;

verus! {

/// A color.
#[derive(Debug, Clone, Copy, PartialEq, Eq, Structural)]
pub struct Rgb {
    pub r: u8,
    pub g: u8,
    pub b: u8,
}

// ---------- Hexadecimal colors ----------

/// How many characters take up the first two bytes of a text; none where a
/// character crosses the second byte.
pub open spec fn two_bytes(s: Seq<char>) -> Option<int> {
    if s.len() >= 2 && (s[0] as u32) < 128 && (s[1] as u32) < 128 {
        Some(2)
    } else if s.len() >= 1 && 128 <= (s[0] as u32) && (s[0] as u32) < 0x800 {
        Some(1)
    } else {
        None
    }
}

/// What is left of a text behind its first two bytes.
pub open spec fn behind_two(s: Seq<char>) -> Seq<char> {
    match two_bytes(s) {
        Some(n) => s.subrange(n, s.len() as int),
        None => s,
    }
}

/// The digits of a color, without leading `#`.
pub open spec fn color_digits(s: Seq<char>) -> Seq<char> {
    stripped_start(s, Strip::Only('#'))
}

/// The text can be read as a color: its digits either do not take six bytes,
/// or come apart into three pieces of two bytes.
pub open spec fn color_text(s: Seq<char>) -> bool {
    let h = color_digits(s);
    byte_len(h) == 6 ==> {
        &&& two_bytes(h) is Some
        &&& two_bytes(behind_two(h)) is Some
    }
}

/// The number in the first two bytes of a text, if there is one.
pub open spec fn pair_value(s: Seq<char>) -> Option<u8> {
    if two_bytes(s) == Some(2int) {
        match hex_pair(s[0], s[1]) {
            Some(v) => Some(v as u8),
            None => None,
        }
    } else {
        None
    }
}

/// The three numbers of a color, each where it can be read; nothing where the
/// digits do not take six bytes.
pub open spec fn color_parts(s: Seq<char>) -> Option<(Option<u8>, Option<u8>, Option<u8>)> {
    let h = color_digits(s);
    if byte_len(h) != 6 {
        None
    } else {
        Some(
            (
                pair_value(h),
                pair_value(behind_two(h)),
                pair_value(behind_two(behind_two(h))),
            ),
        )
    }
}

/// A color as text, with the emerald of the theme for what cannot be read.
pub open spec fn rgb_of(s: Seq<char>) -> Rgb {
    match color_parts(s) {
        Some((r, g, b)) => Rgb {
            r: r.unwrap_or(61),
            g: g.unwrap_or(148),
            b: b.unwrap_or(107),
        },
        None => Rgb { r: 61, g: 148, b: 107 },
    }
}

/// Position behind two bytes from `at` on.
fn skip_two(v: &Vec<char>, at: usize) -> (r: Option<usize>)
    requires
        at <= v@.len(),
    ensures
        ({
            let s = v@.subrange(at as int, v@.len() as int);
            match r {
                Some(n) => at <= n <= v@.len() && two_bytes(s) == Some(n - at) && v@.subrange(
                    n as int,
                    v@.len() as int,
                ) == behind_two(s),
                None => two_bytes(s) is None,
            }
        }),
{
    let ghost s = v@.subrange(at as int, v@.len() as int);
    if v.len() - at >= 2 && (v[at] as u32) < 128 && (v[at + 1] as u32) < 128 {
        assert(s[0] == v@[at as int] && s[1] == v@[at + 1]);
        assert(s.subrange(2, s.len() as int) =~= v@.subrange(at + 2, v@.len() as int));
        Some(at + 2)
    } else if v.len() - at >= 1 && 128 <= (v[at] as u32) && (v[at] as u32) < 0x800 {
        assert(s[0] == v@[at as int]);
        assert(s.subrange(1, s.len() as int) =~= v@.subrange(at + 1, v@.len() as int));
        Some(at + 1)
    } else {
        assert(s.len() >= 1 ==> s[0] == v@[at as int]);
        assert(s.len() >= 2 ==> s[1] == v@[at + 1]);
        None
    }
}

fn pair_at(v: &Vec<char>, at: usize) -> (r: Option<u8>)
    requires
        at <= v@.len(),
    ensures
        r == pair_value(v@.subrange(at as int, v@.len() as int)),
{
    let ghost s = v@.subrange(at as int, v@.len() as int);
    if v.len() - at >= 2 && (v[at] as u32) < 128 && (v[at + 1] as u32) < 128 {
        assert(s[0] == v@[at as int] && s[1] == v@[at + 1]);
        parse_hex_pair(v[at], v[at + 1])
    } else {
        assert(s.len() >= 1 ==> s[0] == v@[at as int]);
        assert(s.len() >= 2 ==> s[1] == v@[at + 1]);
        None
    }
}

/// Whether a text can be handed to [`hex_color`].
pub fn is_color_text(s: &str) -> (r: bool)
    ensures
        r == color_text(s@),
{
    let h = strip_start(s, Strip::Only('#'));
    if text_len(&h) != 6 {
        return true;
    }
    let v = chars_of(&h);
    assert(v@.subrange(0, v@.len() as int) =~= v@);
    match skip_two(&v, 0) {
        Some(n) => skip_two(&v, n).is_some(),
        None => false,
    }
}

/// [`color_parts`], computed.
fn parts(s: &str) -> (r: Option<(Option<u8>, Option<u8>, Option<u8>)>)
    requires
        color_text(s@),
    ensures
        r == color_parts(s@),
{
    let h = strip_start(s, Strip::Only('#'));
    if text_len(&h) != 6 {
        return None;
    }
    let v = chars_of(&h);
    assert(v@.subrange(0, v@.len() as int) =~= v@);
    match skip_two(&v, 0) {
        Some(i) => match skip_two(&v, i) {
            Some(j) => Some((pair_at(&v, 0), pair_at(&v, i), pair_at(&v, j))),
            None => None,
        },
        None => None,
    }
}

/// [`rgb_of`], computed.
pub fn hex_color(hex: &str) -> (r: Rgb)
    requires
        color_text(hex@),
    ensures
        r == rgb_of(hex@),
{
    match parts(hex) {
        Some((r, g, b)) => Rgb {
            r: match r {
                Some(v) => v,
                None => 61,
            },
            g: match g {
                Some(v) => v,
                None => 148,
            },
            b: match b {
                Some(v) => v,
                None => 107,
            },
        },
        None => Rgb { r: 61, g: 148, b: 107 },
    }
}

/// A color as text, where all of it can be read.
pub fn parse_hex_color(hex: &str) -> (r: Option<Rgb>)
    requires
        color_text(hex@),
    ensures
        r == match color_parts(hex@) {
            Some((Some(r), Some(g), Some(b))) => Some(Rgb { r, g, b }),
            _ => None,
        },
{
    match parts(hex) {
        Some((Some(r), Some(g), Some(b))) => Some(Rgb { r, g, b }),
        _ => None,
    }
}

// ---------- Initials ----------

/// A character beyond the ASCII range in upper case, by Unicode's full case
/// mapping.
pub uninterp spec fn wide_uppercase(c: char) -> Seq<char>;

/// A character in upper case; within the ASCII range only the letters `a` to
/// `z` change.
pub open spec fn uppercase(c: char) -> Seq<char> {
    if (c as u32) < 128 {
        seq![ascii_upper(c)]
    } else {
        wide_uppercase(c)
    }
}

/// The upper-case letter of an ASCII letter; everything else stays.
pub open spec fn ascii_upper(c: char) -> char {
    if 'a' <= c && c <= 'z' {
        ((c as u32 - 32) as u32) as char
    } else {
        c
    }
}

/// `char::to_uppercase`, written out: on the ASCII range the upper-case
/// letter alone; what it gives beyond is only named.
#[verifier::external_body]
fn to_upper(c: char) -> (r: String)
    ensures
        (c as u32) >= 128 ==> r@ == wide_uppercase(c),
        (c as u32) < 128 ==> r@ == seq![ascii_upper(c)],
{
    c.to_uppercase().to_string()
}

/// The first character of a name in upper case, or `other` where there is
/// none.
pub open spec fn initial_of(name: Seq<char>, other: Seq<char>) -> Seq<char> {
    if name.len() == 0 {
        other
    } else {
        uppercase(name[0])
    }
}

/// [`initial_of`], computed.
pub fn initial_or(name: &str, other: &str) -> (r: String)
    ensures
        r@ == initial_of(name@, other@),
{
    let v = chars_of(name);
    if v.len() == 0 {
        owned(other)
    } else {
        to_upper(v[0])
    }
}

/// What stands in an avatar without a picture.
pub fn initial(name: &str) -> (r: String)
    ensures
        r@ == initial_of(name@, "?"@),
{
    initial_or(name, "?")
}

// ---------- Badges ----------

/// The badge of a role: its text, and its colors behind and in front.
#[derive(Debug)]
pub struct Badge {
    pub text: &'static str,
    pub bg: Rgb,
    pub fg: Rgb,
}

/// A [`Badge`] by what it holds.
pub struct BadgeView {
    pub text: Seq<char>,
    pub bg: Rgb,
    pub fg: Rgb,
}

impl View for Badge {
    type V = BadgeView;

    open spec fn view(&self) -> BadgeView {
        BadgeView { text: self.text@, bg: self.bg, fg: self.fg }
    }
}

/// The badge of a platform role; empty for ordinary users.
pub open spec fn platform_badge(role: Seq<char>) -> BadgeView {
    if role == "owner"@ {
        BadgeView {
            text: "OWNER"@,
            bg: Rgb { r: 224, g: 179, b: 71 },
            fg: Rgb { r: 13, g: 10, b: 0 },
        }
    } else if role == "admin"@ {
        BadgeView {
            text: "STAFF"@,
            bg: Rgb { r: 209, g: 102, b: 71 },
            fg: Rgb { r: 255, g: 255, b: 255 },
        }
    } else if role == "moderator"@ {
        BadgeView {
            text: "MOD"@,
            bg: Rgb { r: 64, g: 140, b: 242 },
            fg: Rgb { r: 255, g: 255, b: 255 },
        }
    } else {
        BadgeView {
            text: ""@,
            bg: Rgb { r: 0, g: 0, b: 0 },
            fg: Rgb { r: 0, g: 0, b: 0 },
        }
    }
}

/// [`platform_badge`], computed.
pub fn badge_for_platform_role(role: &str) -> (b: Badge)
    ensures
        b@ == platform_badge(role@),
{
    if same(role, "owner") {
        Badge {
            text: "OWNER",
            bg: Rgb { r: 224, g: 179, b: 71 },
            fg: Rgb { r: 13, g: 10, b: 0 },
        }
    } else if same(role, "admin") {
        Badge {
            text: "STAFF",
            bg: Rgb { r: 209, g: 102, b: 71 },
            fg: Rgb { r: 255, g: 255, b: 255 },
        }
    } else if same(role, "moderator") {
        Badge {
            text: "MOD",
            bg: Rgb { r: 64, g: 140, b: 242 },
            fg: Rgb { r: 255, g: 255, b: 255 },
        }
    } else {
        Badge { text: "", bg: Rgb { r: 0, g: 0, b: 0 }, fg: Rgb { r: 0, g: 0, b: 0 } }
    }
}

} // verus!
