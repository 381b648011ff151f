//! Small helpers of the screens: times of day, ages, days, presence labels
//! and the cycles behind the preference buttons.

use crate::clock::{
    day_number, format_at, hour_minute, local_day, local_offset, long_date, now_ms, representable,
    short_date, valid_offset,
};
use crate::strmap::texts;
use crate::text::{cat2, cat4, decimal, digits, owned, same};
use vstd::prelude::*;

verus! {

// ---------- Times ----------

/// The time of day of an instant at an offset; empty where it has no calendar
/// date.
pub open spec fn time_text(ms: int, offset: Option<i32>) -> Seq<char> {
    match offset {
        Some(o) => if representable(ms) {
            hour_minute(ms, o as int)
        } else {
            Seq::empty()
        },
        None => Seq::empty(),
    }
}

/// An optional offset is in range.
pub open spec fn offset_ok(offset: Option<i32>) -> bool {
    offset is Some ==> valid_offset(offset->0 as int)
}

/// `HH:MM` at the given offset from UTC.
pub fn format_time_at(sent_at_ms: i64, offset: Option<i32>) -> (r: String)
    requires
        offset_ok(offset),
    ensures
        r@ == time_text(sent_at_ms as int, offset),
{
    match offset {
        Some(o) => match format_at(sent_at_ms, o, "%H:%M") {
            Some(s) => s,
            None => String::new(),
        },
        None => String::new(),
    }
}

/// `HH:MM` on this machine's clock.
pub fn format_time(sent_at_ms: i64) -> (r: String)
    ensures
        exists|offset: Option<i32>|
            {
                &&& offset is Some == representable(sent_at_ms as int)
                &&& offset_ok(offset)
                &&& r@ == #[trigger] time_text(sent_at_ms as int, offset)
            },
{
    let offset = local_offset(sent_at_ms);
    format_time_at(sent_at_ms, offset)
}

/// How long ago an instant was, as seen from `now`: in minutes, hours or
/// days, and from a week on as a short date at `offset`.
pub open spec fn age_text(ms: int, now: int, offset: Option<i32>) -> Seq<char> {
    let minutes = if now > ms {
        (now - ms) / 60_000
    } else {
        0
    };
    if ms <= 0 {
        Seq::empty()
    } else if minutes < 1 {
        "Just now"@
    } else if minutes < 60 {
        digits(minutes as nat) + "m ago"@
    } else if minutes / 60 < 24 {
        digits((minutes / 60) as nat) + "h ago"@
    } else if minutes / 60 / 24 < 7 {
        digits((minutes / 60 / 24) as nat) + "d ago"@
    } else {
        match offset {
            Some(o) => if representable(ms) {
                short_date(ms, o as int)
            } else {
                Seq::empty()
            },
            None => Seq::empty(),
        }
    }
}

/// [`age_text`], computed.
pub fn format_relative_time_at(sent_at_ms: i64, now: i64, offset: Option<i32>) -> (r: String)
    requires
        offset_ok(offset),
    ensures
        r@ == age_text(sent_at_ms as int, now as int, offset),
{
    if sent_at_ms <= 0 {
        return String::new();
    }
    let delta: u64 = if now > sent_at_ms {
        (now - sent_at_ms) as u64
    } else {
        0
    };
    let minutes: u64 = delta / 60_000;
    if minutes < 1 {
        return owned("Just now");
    }
    if minutes < 60 {
        return cat2(&decimal(minutes), "m ago");
    }
    let hours: u64 = minutes / 60;
    if hours < 24 {
        return cat2(&decimal(hours), "h ago");
    }
    let days: u64 = hours / 24;
    if days < 7 {
        return cat2(&decimal(days), "d ago");
    }
    match offset {
        Some(o) => match format_at(sent_at_ms, o, "%b %-d") {
            Some(s) => s,
            None => String::new(),
        },
        None => String::new(),
    }
}

/// How long ago an instant was, as seen from now on this machine.
pub fn format_relative_time(sent_at_ms: i64) -> (r: String)
    ensures
        exists|now: int, offset: Option<i32>|
            {
                &&& 0 <= now
                &&& offset is Some == representable(sent_at_ms as int)
                &&& offset_ok(offset)
                &&& r@ == #[trigger] age_text(sent_at_ms as int, now, offset)
            },
{
    let now = now_ms();
    let offset = local_offset(sent_at_ms);
    let r = format_relative_time_at(sent_at_ms, now, offset);
    assert(r@ == age_text(sent_at_ms as int, now as int, offset));
    r
}

/// The day of an instant as seen from another: `Today`, `Yesterday` or a long
/// date.
pub open spec fn day_text(ms: int, offset: Option<i32>, now: int, now_offset: int) -> Seq<char> {
    match offset {
        Some(o) => if !representable(ms) {
            Seq::empty()
        } else if local_day(now, now_offset) == local_day(ms, o as int) {
            "Today"@
        } else if local_day(now, now_offset) == local_day(ms, o as int) + 1 {
            "Yesterday"@
        } else {
            long_date(ms, o as int)
        },
        None => Seq::empty(),
    }
}

/// [`day_text`], computed.
pub fn format_day_at(sent_at_ms: i64, offset: Option<i32>, now: i64, now_offset: i32) -> (r: String)
    requires
        offset_ok(offset),
        valid_offset(now_offset as int),
        representable(now as int),
    ensures
        r@ == day_text(sent_at_ms as int, offset, now as int, now_offset as int),
{
    let o = match offset {
        Some(o) => o,
        None => {
            return String::new();
        },
    };
    let long = match format_at(sent_at_ms, o, "%B %-d, %Y") {
        Some(s) => s,
        None => {
            return String::new();
        },
    };
    let today = day_number(now, now_offset);
    let day = day_number(sent_at_ms, o);
    if today == day {
        owned("Today")
    } else if today == day + 1 {
        owned("Yesterday")
    } else {
        long
    }
}

/// The day of an instant as seen from now on this machine.
pub fn format_day(sent_at_ms: i64) -> (r: String)
    ensures
        exists|offset: Option<i32>, now: int, now_offset: int|
            {
                &&& offset is Some == representable(sent_at_ms as int)
                &&& offset_ok(offset)
                &&& 0 <= now
                &&& valid_offset(now_offset)
                &&& r@ == #[trigger] day_text(sent_at_ms as int, offset, now, now_offset)
            },
{
    let now = now_ms();
    let now_offset = match local_offset(now) {
        Some(o) => o,
        None => 0,
    };
    let offset = local_offset(sent_at_ms);
    let r = format_day_at(sent_at_ms, offset, now, now_offset);
    assert(r@ == day_text(sent_at_ms as int, offset, now as int, now_offset as int));
    r
}

// ---------- Labels ----------

/// Who is typing, in one line.
pub open spec fn typing_text(names: Seq<Seq<char>>) -> Option<Seq<char>> {
    if names.len() == 0 {
        None
    } else if names.len() == 1 {
        Some(names[0] + " is typing…"@)
    } else if names.len() == 2 {
        Some(names[0] + " and "@ + names[1] + " are typing…"@)
    } else {
        Some("Several people are typing…"@)
    }
}

/// [`typing_text`], computed.
pub fn typing_label(names: &[String]) -> (r: Option<String>)
    ensures
        match r {
            Some(s) => typing_text(texts(names@)) == Some(s@),
            None => typing_text(texts(names@)) is None,
        },
{
    if names.len() == 0 {
        None
    } else if names.len() == 1 {
        Some(cat2(&names[0], " is typing…"))
    } else if names.len() == 2 {
        Some(cat4(&names[0], " and ", &names[1], " are typing…"))
    } else {
        Some(owned("Several people are typing…"))
    }
}

/// The label of a presence.
pub open spec fn presence_text(presence: Seq<char>) -> Seq<char> {
    if presence == "online"@ {
        "Online"@
    } else if presence == "idle"@ {
        "Idle"@
    } else if presence == "dnd"@ {
        "Do not disturb"@
    } else if presence == "invisible"@ {
        "Invisible"@
    } else {
        "Offline"@
    }
}

/// [`presence_text`], computed.
pub fn presence_label(presence: &str) -> (r: &'static str)
    ensures
        r@ == presence_text(presence@),
{
    if same(presence, "online") {
        "Online"
    } else if same(presence, "idle") {
        "Idle"
    } else if same(presence, "dnd") {
        "Do not disturb"
    } else if same(presence, "invisible") {
        "Invisible"
    } else {
        "Offline"
    }
}

/// The label of a friend-request privacy setting.
pub open spec fn privacy_text(current: Seq<char>) -> Seq<char> {
    if current == "mutual_servers"@ {
        "Shared servers only"@
    } else if current == "nobody"@ {
        "Nobody"@
    } else {
        "Everyone"@
    }
}

/// [`privacy_text`], computed.
pub fn friend_request_privacy_label(current: &str) -> (r: &'static str)
    ensures
        r@ == privacy_text(current@),
{
    if same(current, "mutual_servers") {
        "Shared servers only"
    } else if same(current, "nobody") {
        "Nobody"
    } else {
        "Everyone"
    }
}

// ---------- Cycles ----------

/// The friend-request privacy that follows `current`.
pub open spec fn privacy_after(current: Seq<char>) -> Seq<char> {
    if current == "everyone"@ {
        "mutual_servers"@
    } else if current == "mutual_servers"@ {
        "nobody"@
    } else {
        "everyone"@
    }
}

/// [`privacy_after`], computed.
pub fn next_friend_request_privacy(current: &str) -> (r: &'static str)
    ensures
        r@ == privacy_after(current@),
{
    if same(current, "everyone") {
        "mutual_servers"
    } else if same(current, "mutual_servers") {
        "nobody"
    } else {
        "everyone"
    }
}

/// The presence that follows `current`.
pub open spec fn presence_after(current: Seq<char>) -> Seq<char> {
    if current == "online"@ {
        "idle"@
    } else if current == "idle"@ {
        "dnd"@
    } else if current == "dnd"@ {
        "invisible"@
    } else {
        "online"@
    }
}

/// [`presence_after`], computed.
pub fn next_presence_status(current: &str) -> (r: &'static str)
    ensures
        r@ == presence_after(current@),
{
    if same(current, "online") {
        "idle"
    } else if same(current, "idle") {
        "dnd"
    } else if same(current, "dnd") {
        "invisible"
    } else {
        "online"
    }
}

/// The presence button goes round the four presences and comes back after
/// four presses; from anything else it starts at `online`.
pub proof fn presence_cycles(current: Seq<char>)
    ensures
        presence_after("online"@) == "idle"@,
        presence_after("idle"@) == "dnd"@,
        presence_after("dnd"@) == "invisible"@,
        presence_after("invisible"@) == "online"@,
        current == "online"@ || current == "idle"@ || current == "dnd"@ || current
            == "invisible"@ ==> presence_after(
            presence_after(presence_after(presence_after(current))),
        ) == current,
        !(current == "online"@ || current == "idle"@ || current == "dnd"@) ==> presence_after(
            current,
        ) == "online"@,
{
    reveal_strlit("online");
    reveal_strlit("idle");
    reveal_strlit("dnd");
    reveal_strlit("invisible");
    assert("online"@.len() == 6 && "idle"@.len() == 4 && "dnd"@.len() == 3 && "invisible"@.len() == 9);
}

/// The privacy button goes round the three settings and comes back after
/// three presses; from anything else it starts at `everyone`.
pub proof fn privacy_cycles(current: Seq<char>)
    ensures
        privacy_after("everyone"@) == "mutual_servers"@,
        privacy_after("mutual_servers"@) == "nobody"@,
        privacy_after("nobody"@) == "everyone"@,
        current == "everyone"@ || current == "mutual_servers"@ || current == "nobody"@
            ==> privacy_after(privacy_after(privacy_after(current))) == current,
        !(current == "everyone"@ || current == "mutual_servers"@) ==> privacy_after(current)
            == "everyone"@,
{
    reveal_strlit("everyone");
    reveal_strlit("mutual_servers");
    reveal_strlit("nobody");
    assert("everyone"@.len() == 8 && "mutual_servers"@.len() == 14 && "nobody"@.len() == 6);
}

} // verus!
