//! Numbers, texts, colors and times as they are written.

use crate::clock::{
    date_of, days_have_one_date, leap_year, local_day, month_days, month_start, representable,
    short_date, two_digits, year_start, Date,
};
use crate::hex::{hex_char_of, hex_pair, hex_text};
use crate::state::voice::clamped_gain;
use crate::text::{
    ascii_lower, ascii_lower_text, digits, lowercase, signed_digits, stripped_end, stripped_start,
    trimmed, white_space, Strip,
};
use crate::ui::mentions::excerpt;
use crate::ui::utils::{age_text, day_text, time_text, typing_text};
use crate::versions::{
    all_digits, all_numbers, bare, decimal_value, first_dot, later, newer, number, numbers,
    unsigned,
};
use vstd::prelude::*;

verus! {

proof fn lemma_start(s: Seq<char>, k: Strip) -> (n: int)
    ensures
        0 <= n <= s.len(),
        stripped_start(s, k) == s.skip(n),
        forall|i: int| 0 <= i < n ==> k.strips(#[trigger] s[i]),
        n < s.len() ==> !k.strips(s[n]),
    decreases s.len(),
{
    if s.len() > 0 && k.strips(s[0]) {
        let t = s.subrange(1, s.len() as int);
        let m = lemma_start(t, k);
        assert(t.skip(m) =~= s.skip(m + 1));
        assert forall|i: int| 0 <= i < m + 1 implies k.strips(#[trigger] s[i]) by {
            if i > 0 {
                assert(k.strips(t[i - 1]));
            }
        }
        m + 1
    } else {
        assert(s.skip(0) =~= s);
        0
    }
}

proof fn lemma_end(s: Seq<char>, k: Strip) -> (n: int)
    ensures
        0 <= n <= s.len(),
        stripped_end(s, k) == s.take(n),
        forall|i: int| n <= i < s.len() ==> k.strips(#[trigger] s[i]),
        n > 0 ==> !k.strips(s[n - 1]),
    decreases s.len(),
{
    if s.len() > 0 && k.strips(s.last()) {
        let t = s.drop_last();
        let m = lemma_end(t, k);
        assert(t.take(m) =~= s.take(m));
        assert forall|i: int| m <= i < s.len() implies k.strips(#[trigger] s[i]) by {
            if i < t.len() {
                assert(k.strips(t[i]));
            }
        }
        m
    } else {
        assert(s.take(s.len() as int) =~= s);
        s.len() as int
    }
}

/// Trimming takes white space off both ends and nothing else: what is left
/// stands in the text, has no white space at its ends, and around it stood
/// only white space.
pub proof fn trimming_takes_only_space(s: Seq<char>)
    ensures
        exists|i: int, j: int|
            {
                &&& 0 <= i <= j <= s.len()
                &&& trimmed(s) == #[trigger] s.subrange(i, j)
                &&& forall|p: int| 0 <= p < i ==> white_space(#[trigger] s[p])
                &&& forall|p: int| j <= p < s.len() ==> white_space(#[trigger] s[p])
            },
        trimmed(s).len() > 0 ==> !white_space(trimmed(s)[0]) && !white_space(trimmed(s).last()),
        trimmed(trimmed(s)) == trimmed(s),
{
    let i = lemma_start(s, Strip::Space);
    let t = s.skip(i);
    let n = lemma_end(t, Strip::Space);
    let r = t.take(n);
    assert(r =~= s.subrange(i, i + n));
    assert forall|p: int| 0 <= p < i implies white_space(#[trigger] s[p]) by {
        assert(Strip::Space.strips(s[p]));
    }
    assert forall|p: int| i + n <= p < s.len() implies white_space(#[trigger] s[p]) by {
        assert(Strip::Space.strips(t[p - i]));
        assert(t[p - i] == s[p]);
    }
    if r.len() > 0 {
        assert(r[0] == s[i]);
        assert(!Strip::Space.strips(s[i]));
        assert(r.last() == t[n - 1]);
        assert(!Strip::Space.strips(t[n - 1]));
    }
    let i2 = lemma_start(r, Strip::Space);
    if i2 > 0 {
        assert(Strip::Space.strips(r[0]));
    }
    assert(r.skip(0) =~= r);
    let n2 = lemma_end(r, Strip::Space);
    if n2 < r.len() {
        assert(Strip::Space.strips(r[r.len() - 1]));
    }
    assert(r.take(r.len() as int) =~= r);
}

proof fn lemma_digit(n: nat)
    requires
        n < 10,
    ensures
        ({
            let c = crate::text::digit(n);
            '0' <= c <= '9' && c as nat - '0' as nat == n
        }),
{
}

/// A number is written in decimal digits that read back as the number, with no
/// zero in front.
pub proof fn numerals_read_back(n: nat)
    ensures
        digits(n).len() > 0,
        all_digits(digits(n)),
        decimal_value(digits(n)) == n,
        n > 0 ==> digits(n)[0] != '0',
        n <= u64::MAX ==> number(digits(n)) == Some(n as u64),
    decreases n,
{
    let d = digits(n);
    if n < 10 {
        lemma_digit(n);
        assert(d.drop_last() =~= Seq::empty());
        assert(decimal_value(Seq::<char>::empty()) == 0);
    } else {
        numerals_read_back(n / 10);
        lemma_digit(n % 10);
        let h = digits(n / 10);
        assert(d.drop_last() =~= h);
        assert forall|i: int| 0 <= i < d.len() implies '0' <= #[trigger] d[i] && d[i] <= '9' by {
            if i < h.len() {
                assert(d[i] == h[i]);
            }
        }
        assert(d[0] == h[0]);
    }
    assert('0' <= d[0] && d[0] <= '9');
    assert(unsigned(d) == d);
}

/// A negative number has its sign in front of the digits, and no other has.
pub proof fn signs_stand_in_front(n: int)
    ensures
        n >= 0 ==> signed_digits(n) == digits(n as nat),
        n < 0 ==> signed_digits(n).len() > 1 && signed_digits(n)[0] == '-' && signed_digits(n).skip(1)
            == digits((-n) as nat),
{
    if n < 0 {
        numerals_read_back((-n) as nat);
        assert(signed_digits(n).skip(1) =~= digits((-n) as nat));
    }
}

proof fn lemma_hex_digit(n: int)
    requires
        0 <= n < 16,
    ensures
        crate::hex::hex_value(hex_char_of(n)) == Some(n),
        hex_char_of(n) != '+',
        hex_char_of(n) != '#',
        (hex_char_of(n) as u32) < 128,
{
}

/// Bytes in hexadecimal take two digits each, which read back as the byte.
pub proof fn hexadecimal_reads_back(bytes: Seq<u8>, i: int)
    requires
        0 <= i < bytes.len(),
    ensures
        hex_text(bytes).len() == 2 * bytes.len(),
        hex_pair(hex_text(bytes)[2 * i], hex_text(bytes)[2 * i + 1]) == Some(bytes[i] as int),
    decreases bytes.len(),
{
    let t = bytes.drop_last();
    let b = bytes.last() as int;
    lemma_hex_len(t);
    let h = hex_text(t);
    let all = hex_text(bytes);
    if i < t.len() {
        hexadecimal_reads_back(t, i);
        assert(all[2 * i] == h[2 * i] && all[2 * i + 1] == h[2 * i + 1]);
    } else {
        lemma_hex_digit(b / 16);
        lemma_hex_digit(b % 16);
        assert(all[2 * i] == hex_char_of(b / 16));
        assert(all[2 * i + 1] == hex_char_of(b % 16));
    }
}

proof fn lemma_hex_len(bytes: Seq<u8>)
    ensures
        hex_text(bytes).len() == 2 * bytes.len(),
    decreases bytes.len(),
{
    if bytes.len() > 0 {
        lemma_hex_len(bytes.drop_last());
    }
}

/// Numbers with a dot between them, as versions are written.
pub open spec fn dotted(ns: Seq<u64>) -> Seq<char>
    decreases ns.len(),
{
    if ns.len() == 0 {
        Seq::empty()
    } else if ns.len() == 1 {
        digits(ns[0] as nat)
    } else {
        digits(ns[0] as nat) + seq!['.'] + dotted(ns.skip(1))
    }
}

proof fn lemma_first_dot(d: Seq<char>, rest: Seq<char>)
    requires
        forall|i: int| 0 <= i < d.len() ==> #[trigger] d[i] != '.',
        rest.len() > 0 ==> rest[0] == '.',
    ensures
        first_dot(d + rest) == d.len(),
    decreases d.len(),
{
    let s = d + rest;
    if d.len() > 0 {
        let t = d.subrange(1, d.len() as int);
        assert(s[0] == d[0]);
        assert(s.subrange(1, s.len() as int) =~= t + rest);
        assert forall|i: int| 0 <= i < t.len() implies #[trigger] t[i] != '.' by {
            assert(d[i + 1] != '.');
        }
        lemma_first_dot(t, rest);
    } else {
        assert(s =~= rest);
    }
}

proof fn lemma_dotted(ns: Seq<u64>)
    requires
        ns.len() > 0,
    ensures
        dotted(ns).len() > 0,
        '0' <= dotted(ns)[0] <= '9',
        '0' <= dotted(ns).last() <= '9',
        numbers(dotted(ns)) == ns,
        all_numbers(dotted(ns)),
    decreases ns.len(),
{
    let d = digits(ns[0] as nat);
    let s = dotted(ns);
    numerals_read_back(ns[0] as nat);
    assert forall|i: int| 0 <= i < d.len() implies #[trigger] d[i] != '.' by {
        assert('0' <= d[i] && d[i] <= '9');
    }
    assert('0' <= d[0] && d[0] <= '9');
    assert('0' <= d[d.len() - 1] && d[d.len() - 1] <= '9');
    if ns.len() == 1 {
        assert(d + Seq::<char>::empty() =~= d);
        lemma_first_dot(d, Seq::empty());
        assert(s.take(first_dot(s)) =~= d);
        assert(seq![ns[0]] + Seq::<u64>::empty() =~= ns);
    } else {
        let rest = dotted(ns.skip(1));
        lemma_dotted(ns.skip(1));
        lemma_first_dot(d, seq!['.'] + rest);
        assert(s =~= d + (seq!['.'] + rest));
        assert(s.take(first_dot(s)) =~= d);
        assert(s.subrange(first_dot(s) + 1, s.len() as int) =~= rest);
        assert(seq![ns[0]] + ns.skip(1) =~= ns);
        assert(s.last() == rest.last());
    }
}

proof fn lemma_bare(s: Seq<char>)
    requires
        s.len() > 0,
        '0' <= s[0] <= '9',
        '0' <= s.last() <= '9',
    ensures
        bare(s) == s,
        bare(seq!['v'] + s) == s,
{
    assert(!white_space(s[0]) && !white_space(s.last()));
    let i = lemma_start(s, Strip::Space);
    if i > 0 {
        assert(Strip::Space.strips(s[0]));
    }
    assert(s.skip(0) =~= s);
    let n = lemma_end(s, Strip::Space);
    if n < s.len() {
        assert(Strip::Space.strips(s[s.len() - 1]));
    }
    assert(s.take(s.len() as int) =~= s);
    let a = lemma_start(s, Strip::Only('v'));
    if a > 0 {
        assert(Strip::Only('v').strips(s[0]));
    }
    let w = seq!['v'] + s;
    assert(w[0] == 'v' && w.last() == s.last());
    assert(!white_space('v'));
    let i2 = lemma_start(w, Strip::Space);
    if i2 > 0 {
        assert(Strip::Space.strips(w[0]));
    }
    assert(w.skip(0) =~= w);
    let n2 = lemma_end(w, Strip::Space);
    if n2 < w.len() {
        assert(Strip::Space.strips(w[w.len() - 1]));
    }
    assert(w.take(w.len() as int) =~= w);
    let b = lemma_start(w, Strip::Only('v'));
    if b == 0 {
        assert(!Strip::Only('v').strips(w[0]));
    }
    if b > 1 {
        assert(Strip::Only('v').strips(w[1]));
        assert(w[1] == s[0]);
    }
    assert(w.skip(1) =~= s);
}

/// A version that is written plainly has nothing to trim.
pub proof fn versions_are_written_plainly(ns: Seq<u64>)
    requires
        ns.len() > 0,
    ensures
        dotted(ns).len() > 0,
        trimmed(dotted(ns)) == dotted(ns),
{
    let s = dotted(ns);
    lemma_dotted(ns);
    assert(!white_space(s[0]) && !white_space(s.last()));
    let i = lemma_start(s, Strip::Space);
    if i > 0 {
        assert(Strip::Space.strips(s[0]));
    }
    assert(s.skip(0) =~= s);
    let n = lemma_end(s, Strip::Space);
    if n < s.len() {
        assert(Strip::Space.strips(s[s.len() - 1]));
    }
    assert(s.take(s.len() as int) =~= s);
}

/// `a` is ahead of `b` at a place: they agree before it, and there it has the
/// larger number, or a number where `b` has none any more.
pub open spec fn ahead_at(a: Seq<u64>, b: Seq<u64>, k: int) -> bool {
    &&& 0 <= k < a.len()
    &&& k <= b.len()
    &&& a.take(k) == b.take(k)
    &&& k == b.len() || a[k] > b[k]
}

/// `a` is ahead of `b` at some place.
pub open spec fn ahead(a: Seq<u64>, b: Seq<u64>) -> bool {
    exists|k: int| #[trigger] ahead_at(a, b, k)
}

proof fn lemma_ahead(a: Seq<u64>, b: Seq<u64>)
    ensures
        later(a, b) <==> ahead(a, b),
    decreases a.len(),
{
    if a.len() == 0 {
    } else if b.len() == 0 {
        assert(a.take(0) =~= b.take(0));
        assert(ahead_at(a, b, 0));
    } else {
        let a1 = a.subrange(1, a.len() as int);
        let b1 = b.subrange(1, b.len() as int);
        lemma_ahead(a1, b1);
        if a[0] > b[0] {
            assert(a.take(0) =~= b.take(0));
            assert(ahead_at(a, b, 0));
        }
        if a[0] == b[0] && ahead(a1, b1) {
            let k = choose|k: int| #[trigger] ahead_at(a1, b1, k);
            assert(a.take(k + 1) =~= seq![a[0]] + a1.take(k));
            assert(b.take(k + 1) =~= seq![b[0]] + b1.take(k));
            assert(ahead_at(a, b, k + 1));
        }
        if ahead(a, b) {
            let k = choose|k: int| #[trigger] ahead_at(a, b, k);
            if k > 0 {
                assert(a.take(k)[0] == a[0] && b.take(k)[0] == b[0]);
                assert(a1.take(k - 1) =~= a.take(k).skip(1));
                assert(b1.take(k - 1) =~= b.take(k).skip(1));
                assert(ahead_at(a1, b1, k - 1));
            }
        }
    }
}

/// Versions compare as their numbers do, from the left, with or without a `v`
/// in front: not as texts.
pub proof fn versions_compare_by_their_numbers(a: Seq<u64>, b: Seq<u64>)
    requires
        a.len() > 0,
        b.len() > 0,
    ensures
        newer(dotted(a), dotted(b)) <==> ahead(a, b),
        newer(seq!['v'] + dotted(a), dotted(b)) <==> ahead(a, b),
        newer(dotted(a), seq!['v'] + dotted(b)) <==> ahead(a, b),
{
    lemma_dotted(a);
    lemma_dotted(b);
    lemma_bare(dotted(a));
    lemma_bare(dotted(b));
    lemma_ahead(a, b);
}

/// The age of an instant, in whole minutes, hours or days that went by; less
/// than a minute, or in the future, is just now; a week or more is a date; and
/// what has no time has no age.
pub proof fn ages_count_what_went_by(ms: int, now: int, offset: Option<i32>, n: int)
    requires
        ms > 0,
    ensures
        now - ms < 60_000 ==> age_text(ms, now, offset) == "Just now"@,
        1 <= n < 60 && n * 60_000 <= now - ms < (n + 1) * 60_000 ==> age_text(ms, now, offset)
            == digits(n as nat) + "m ago"@,
        1 <= n < 24 && n * 3_600_000 <= now - ms < (n + 1) * 3_600_000 ==> age_text(ms, now, offset)
            == digits(n as nat) + "h ago"@,
        1 <= n < 7 && n * 86_400_000 <= now - ms < (n + 1) * 86_400_000 ==> age_text(ms, now, offset)
            == digits(n as nat) + "d ago"@,
        now - ms >= 604_800_000 && offset is Some && representable(ms) ==> age_text(ms, now, offset)
            == short_date(ms, offset->0 as int),
        age_text(0, now, offset).len() == 0,
{
    let d = now - ms;
    if d >= 0 {
        let minutes = d / 60_000;
        if 1 <= n < 60 && n * 60_000 <= d < (n + 1) * 60_000 {
            assert(minutes == n);
        }
        if 1 <= n < 24 && n * 3_600_000 <= d < (n + 1) * 3_600_000 {
            assert(minutes / 60 == n);
        }
        if 1 <= n < 7 && n * 86_400_000 <= d < (n + 1) * 86_400_000 {
            assert(minutes / 60 / 24 == n);
        }
    }
}

/// Midnight decides what is today and what is yesterday, on the clock of each
/// instant.
pub proof fn days_end_at_midnight(ms: int, offset: i32, now: int, now_offset: int, day: int)
    requires
        representable(ms),
        86_400 * day <= now / 1000 + now_offset < 86_400 * (day + 1),
    ensures
        86_400 * day <= ms / 1000 + offset < 86_400 * (day + 1) ==> day_text(
            ms,
            Some(offset),
            now,
            now_offset,
        ) == "Today"@,
        86_400 * (day - 1) <= ms / 1000 + offset < 86_400 * day ==> day_text(
            ms,
            Some(offset),
            now,
            now_offset,
        ) == "Yesterday"@,
{
    assert(local_day(now, now_offset) == day);
    let s = ms / 1000 + offset;
    if 86_400 * day <= s < 86_400 * (day + 1) {
        assert(s / 86_400 == day);
    }
    if 86_400 * (day - 1) <= s < 86_400 * day {
        assert(s / 86_400 == day - 1);
    }
}

/// The time of day is written as the hours and minutes since midnight, two
/// digits each.
pub proof fn times_count_from_midnight(ms: int, offset: i32, day: int, hour: int, minute: int, second: int)
    requires
        representable(ms),
        0 <= hour < 24,
        0 <= minute < 60,
        0 <= second < 60,
        ms / 1000 + offset == 86_400 * day + 3600 * hour + 60 * minute + second,
    ensures
        time_text(ms, Some(offset)) == two_digits(hour as nat) + seq![':'] + two_digits(
            minute as nat,
        ),
        hour >= 10 ==> two_digits(hour as nat) == digits(hour as nat),
        hour < 10 ==> two_digits(hour as nat) == seq!['0'] + digits(hour as nat),
{
    let rest = 3600 * hour + 60 * minute + second;
    lemma_rest(day, rest);
    lemma_parts(hour, minute, second);
}

proof fn lemma_rest(day: int, rest: int)
    requires
        0 <= rest < 86_400,
    ensures
        (86_400 * day + rest) % 86_400 == rest,
{
}

proof fn lemma_parts(hour: int, minute: int, second: int)
    requires
        0 <= minute < 60,
        0 <= second < 60,
    ensures
        (3600 * hour + 60 * minute + second) / 3600 == hour,
        (3600 * hour + 60 * minute + second) % 3600 / 60 == minute,
{
    let low = 60 * minute + second;
    assert((3600 * hour + low) / 3600 == hour);
    assert((3600 * hour + low) % 3600 == low);
    assert(low / 60 == minute);
}

/// Years follow each other without a gap: each is one day longer than 365 only
/// where it is a leap year, the epoch is the first day of 1970, and a date
/// comes back from its number.
pub proof fn the_calendar_has_no_gaps(d: Date, year: int)
    requires
        d.exists_in_calendar(),
    ensures
        year_start(1970) == 0,
        year_start(year + 1) - year_start(year) == if leap_year(year) {
            366int
        } else {
            365int
        },
        month_start(year, 12) + month_days(year, 12) == year_start(year + 1) - year_start(year),
        date_of(d.number()) == d,
{
    lemma_year(year);
    lemma_months(year);
    let day = d.number();
    assert(d.exists_in_calendar() && d.number() == day);
    days_have_one_date(date_of(day), d);
}

proof fn lemma_multiple(year: int, n: int)
    requires
        n == 4 || n == 100 || n == 400,
    ensures
        year / n - (year - 1) / n == if year % n == 0 {
            1int
        } else {
            0int
        },
{
}

proof fn lemma_year(year: int)
    ensures
        year_start(1970) == 0,
        year_start(year + 1) - year_start(year) == if leap_year(year) {
            366int
        } else {
            365int
        },
{
    lemma_multiple(year, 4);
    lemma_multiple(year, 100);
    lemma_multiple(year, 400);
    assert(year % 400 == 0 ==> year % 100 == 0);
    assert(year % 100 == 0 ==> year % 4 == 0);
}

proof fn lemma_months(year: int)
    ensures
        month_start(year, 12) + month_days(year, 12) == if leap_year(year) {
            366int
        } else {
            365int
        },
{
    reveal_with_fuel(month_start, 13);
}

/// An excerpt is one line of no more than so many characters; what fits is
/// there in full, and of what does not the beginning.
pub proof fn excerpts_are_short_lines(s: Seq<char>, max: nat, i: int)
    requires
        max > 0,
        0 <= i < excerpt(s, max).len(),
    ensures
        excerpt(s, max).len() <= max,
        excerpt(s, max)[i] != '\n',
        s.len() <= max ==> excerpt(s, max).len() == s.len(),
        s.len() > max ==> excerpt(s, max).len() == max && excerpt(s, max).last() == '\u{2026}',
        (s.len() <= max || i < max - 1) && s[i] != '\n' ==> excerpt(s, max)[i] == s[i],
        (s.len() <= max || i < max - 1) && s[i] == '\n' ==> excerpt(s, max)[i] == ' ',
{
}

/// One or two who type are named, more are several, and nobody is nothing.
pub proof fn typists_are_named(a: Seq<char>, b: Seq<char>, names: Seq<Seq<char>>)
    ensures
        typing_text(Seq::empty()) is None,
        typing_text(seq![a]) == Some(a + " is typing…"@),
        typing_text(seq![a, b]) == Some(a + " and "@ + b + " are typing…"@),
        names.len() > 2 ==> typing_text(names) == Some("Several people are typing…"@),
{
}

/// Within the ASCII range lower case changes the letters from A to Z and
/// nothing else, and doing it again changes nothing.
pub proof fn lower_case_changes_letters(s: Seq<char>, i: int)
    requires
        crate::text::all_ascii(s),
        0 <= i < s.len(),
    ensures
        lowercase(s).len() == s.len(),
        'A' <= s[i] <= 'Z' ==> lowercase(s)[i] as int == s[i] as int + 32,
        !('A' <= s[i] <= 'Z') ==> lowercase(s)[i] == s[i],
        lowercase(lowercase(s)) == lowercase(s),
{
    let l = lowercase(s);
    assert forall|j: int| 0 <= j < l.len() implies (#[trigger] l[j] as u32) < 128 && ascii_lower(
        l[j],
    ) == l[j] by {
        assert((s[j] as u32) < 128);
    }
    assert(ascii_lower_text(l) =~= l);
}

/// A volume that was brought into the range stays where it is.
pub proof fn volumes_settle(bits: u32)
    ensures
        clamped_gain(clamped_gain(bits)) == clamped_gain(bits),
{
}

} // verus!
