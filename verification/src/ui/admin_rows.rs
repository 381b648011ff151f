//! The rows of the admin panel. Dates come in as labels.

use crate::state::types::{AdminUserDetail, AdminUserRow};
use crate::strmap::texts;
use crate::text::{cat2, cat4, contains_text, lowercase, occurs, owned, same, trim, trimmed};
use crate::ui::colors::{badge_for_platform_role, platform_badge, Badge, BadgeView};
use crate::ui::viewmodel::{join, joined};
use vstd::prelude::*;

verus! {

// ---------- One user ----------

/// The dates of a user's details, written out.
#[derive(Debug)]
pub struct DetailDates {
    pub ban_until: String,
    pub mute_until: String,
    pub created: String,
    pub last_seen: String,
}

/// What the drawer of the admin panel shows.
#[derive(Debug)]
pub struct AdminDetailView {
    pub open: bool,
    pub user_id: String,
    pub username: String,
    pub display_name: String,
    pub role: String,
    pub banned: bool,
    pub ban_label: String,
    pub muted: bool,
    pub mute_label: String,
    pub online: bool,
    pub bio: String,
    pub status_message: String,
    pub friend_count: i32,
    pub servers_label: String,
    pub created_label: String,
    pub last_seen_label: String,
}

/// The drawer is closed.
pub open spec fn shows_nobody(v: AdminDetailView) -> bool {
    &&& !v.open
    &&& v.user_id@ == ""@
    &&& v.username@ == ""@
    &&& v.display_name@ == ""@
    &&& v.role@ == ""@
    &&& !v.banned
    &&& v.ban_label@ == ""@
    &&& !v.muted
    &&& v.mute_label@ == ""@
    &&& !v.online
    &&& v.bio@ == ""@
    &&& v.status_message@ == ""@
    &&& v.friend_count == 0
    &&& v.servers_label@ == ""@
    &&& v.created_label@ == ""@
    &&& v.last_seen_label@ == ""@
}

/// The drawer shows this user.
pub open spec fn shows_detail(v: AdminDetailView, d: AdminUserDetail, dates: DetailDates) -> bool {
    &&& v.open
    &&& v.user_id == d.user_id
    &&& v.username == d.username
    &&& v.display_name == d.display_name
    &&& v.role == d.role
    &&& v.banned == d.banned
    &&& v.ban_label@ == if !d.banned {
        "not banned"@
    } else if d.ban_expires_at > 0 {
        "temp ban until "@ + dates.ban_until@
    } else {
        "permanent ban"@
    }
    &&& v.muted == d.muted
    &&& v.mute_label@ == if !d.muted {
        "not muted"@
    } else if d.mute_expires_at > 0 {
        "muted until "@ + dates.mute_until@
    } else {
        "muted"@
    }
    &&& v.online == d.online
    &&& v.bio == d.bio
    &&& v.status_message == d.status_message
    &&& v.friend_count == d.friend_count as i32
    &&& v.servers_label@ == if d.server_names@.len() == 0 {
        "—"@
    } else {
        joined(texts(d.server_names@), ", "@)
    }
    &&& v.created_label@ == dates.created@
    &&& v.last_seen_label@ == if d.last_seen_at > 0 {
        dates.last_seen@
    } else {
        "—"@
    }
}

/// What the drawer of the admin panel shows for a user, or for none.
pub fn admin_detail_view(detail: Option<&AdminUserDetail>, dates: DetailDates) -> (v: AdminDetailView)
    ensures
        match detail {
            Some(d) => shows_detail(v, *d, dates),
            None => shows_nobody(v),
        },
{
    let d = match detail {
        Some(d) => d,
        None => {
            return AdminDetailView {
                open: false,
                user_id: owned(""),
                username: owned(""),
                display_name: owned(""),
                role: owned(""),
                banned: false,
                ban_label: owned(""),
                muted: false,
                mute_label: owned(""),
                online: false,
                bio: owned(""),
                status_message: owned(""),
                friend_count: 0,
                servers_label: owned(""),
                created_label: owned(""),
                last_seen_label: owned(""),
            };
        },
    };
    AdminDetailView {
        open: true,
        user_id: d.user_id.clone(),
        username: d.username.clone(),
        display_name: d.display_name.clone(),
        role: d.role.clone(),
        banned: d.banned,
        ban_label: if !d.banned {
            owned("not banned")
        } else if d.ban_expires_at > 0 {
            cat2("temp ban until ", &dates.ban_until)
        } else {
            owned("permanent ban")
        },
        muted: d.muted,
        mute_label: if !d.muted {
            owned("not muted")
        } else if d.mute_expires_at > 0 {
            cat2("muted until ", &dates.mute_until)
        } else {
            owned("muted")
        },
        online: d.online,
        bio: d.bio.clone(),
        status_message: d.status_message.clone(),
        friend_count: d.friend_count as i32,
        servers_label: if d.server_names.len() == 0 {
            owned("—")
        } else {
            join(&d.server_names, ", ")
        },
        created_label: dates.created,
        last_seen_label: if d.last_seen_at > 0 {
            dates.last_seen
        } else {
            owned("—")
        },
    }
}

// ---------- The list ----------

/// The dates of a row, written out.
#[derive(Debug)]
pub struct RowDates {
    pub ban_until: String,
    pub mute_until: String,
    pub plus_until: String,
}

/// A row of the user list.
#[derive(Debug)]
pub struct AdminListRow {
    pub user_id: String,
    pub username: String,
    pub display_name: String,
    pub role: String,
    pub banned: bool,
    pub muted: bool,
    pub plus_active: bool,
    pub role_locked: bool,
    pub status_line: String,
    pub badge: Badge,
}

/// An [`AdminListRow`] by what it holds.
pub struct AdminListRowView {
    pub user_id: Seq<char>,
    pub username: Seq<char>,
    pub display_name: Seq<char>,
    pub role: Seq<char>,
    pub banned: bool,
    pub muted: bool,
    pub plus_active: bool,
    pub role_locked: bool,
    pub status_line: Seq<char>,
    pub badge: BadgeView,
}

impl View for AdminListRow {
    type V = AdminListRowView;

    open spec fn view(&self) -> AdminListRowView {
        AdminListRowView {
            user_id: self.user_id@,
            username: self.username@,
            display_name: self.display_name@,
            role: self.role@,
            banned: self.banned,
            muted: self.muted,
            plus_active: self.plus_active,
            role_locked: self.role_locked,
            status_line: self.status_line@,
            badge: self.badge@,
        }
    }
}

/// A note about something that may end at a date.
pub open spec fn until_note(on: bool, expires_at: i64, note: Seq<char>, until: Seq<char>, date: Seq<char>) -> Seq<
    char,
> {
    if !on {
        Seq::empty()
    } else if expires_at > 0 {
        until + date
    } else {
        note
    }
}

fn note_until(on: bool, expires_at: i64, note: &str, until: &str, date: &str) -> (r: String)
    ensures
        r@ == until_note(on, expires_at, note@, until@, date@),
{
    if !on {
        String::new()
    } else if expires_at > 0 {
        cat2(until, date)
    } else {
        owned(note)
    }
}

/// The status line of a user: the role, and then bans, mutes and the
/// subscription.
pub open spec fn status_line(u: AdminUserRow, dates: RowDates) -> Seq<char> {
    u.role@ + until_note(
        u.banned,
        u.ban_expires_at,
        " · permanent ban"@,
        " · temp ban · until "@,
        dates.ban_until@,
    ) + until_note(
        u.muted,
        u.mute_expires_at,
        " · muted"@,
        " · muted until "@,
        dates.mute_until@,
    ) + until_note(
        u.plus_active,
        u.plus_expires_at,
        " · PLUS"@,
        " · PLUS until "@,
        dates.plus_until@,
    )
}

/// The row of a user. Nobody changes the owner's role or their own.
pub open spec fn admin_row_view(u: AdminUserRow, dates: RowDates, me: Seq<char>) -> AdminListRowView {
    AdminListRowView {
        user_id: u.user_id@,
        username: u.username@,
        display_name: u.display_name@,
        role: u.role@,
        banned: u.banned,
        muted: u.muted,
        plus_active: u.plus_active,
        role_locked: u.role@ == "owner"@ || u.username@ == me,
        status_line: status_line(u, dates),
        badge: platform_badge(u.role@),
    }
}

/// A user is listed for a search term: in the user name or the display name,
/// whatever the case.
pub open spec fn found(u: AdminUserRow, term: Seq<char>) -> bool {
    ||| term.len() == 0
    ||| occurs(lowercase(u.username@), term)
    ||| occurs(lowercase(u.display_name@), term)
}

/// The rows of the users that a search finds, in their order.
pub open spec fn admin_rows(
    users: Seq<AdminUserRow>,
    dates: Seq<RowDates>,
    term: Seq<char>,
    me: Seq<char>,
) -> Seq<AdminListRowView>
    decreases users.len(),
{
    if users.len() == 0 {
        Seq::empty()
    } else {
        let before = admin_rows(users.drop_last(), dates, term, me);
        if found(users.last(), term) {
            before.push(admin_row_view(users.last(), dates[users.len() - 1], me))
        } else {
            before
        }
    }
}

/// List rows by what they hold.
pub open spec fn admin_views(rows: Seq<AdminListRow>) -> Seq<AdminListRowView> {
    Seq::new(rows.len(), |i: int| rows[i]@)
}

fn admin_row(u: &AdminUserRow, dates: &RowDates, my_username: &str) -> (r: AdminListRow)
    ensures
        r@ == admin_row_view(*u, *dates, my_username@),
{
    let ban = note_until(
        u.banned,
        u.ban_expires_at,
        " · permanent ban",
        " · temp ban · until ",
        &dates.ban_until,
    );
    let mute = note_until(
        u.muted,
        u.mute_expires_at,
        " · muted",
        " · muted until ",
        &dates.mute_until,
    );
    let plus = note_until(
        u.plus_active,
        u.plus_expires_at,
        " · PLUS",
        " · PLUS until ",
        &dates.plus_until,
    );
    AdminListRow {
        user_id: u.user_id.clone(),
        username: u.username.clone(),
        display_name: u.display_name.clone(),
        role: u.role.clone(),
        banned: u.banned,
        muted: u.muted,
        plus_active: u.plus_active,
        role_locked: same(&u.role, "owner") || same(&u.username, my_username),
        status_line: cat4(&u.role, &ban, &mute, &plus),
        badge: badge_for_platform_role(&u.role),
    }
}

/// The rows of the user list; `dates` belong to the users at the same places.
pub fn admin_user_rows(
    admin_users: &[AdminUserRow],
    dates: &[RowDates],
    search_input: &str,
    my_username: &str,
) -> (rows: Vec<AdminListRow>)
    requires
        dates@.len() == admin_users@.len(),
    ensures
        admin_views(rows@) == admin_rows(
            admin_users@,
            dates@,
            lowercase(trimmed(search_input@)),
            my_username@,
        ),
{
    let term = trim(search_input).as_str().to_lowercase();
    let mut rows: Vec<AdminListRow> = Vec::new();
    let mut i: usize = 0;
    assert(admin_views(rows@) =~= admin_rows(
        admin_users@.take(0),
        dates@,
        term@,
        my_username@,
    ));
    while i < admin_users.len()
        invariant
            i <= admin_users@.len(),
            dates@.len() == admin_users@.len(),
            admin_views(rows@) == admin_rows(
                admin_users@.take(i as int),
                dates@,
                term@,
                my_username@,
            ),
        decreases admin_users@.len() - i,
    {
        assert(admin_users@.take(i + 1).drop_last() =~= admin_users@.take(i as int));
        assert(admin_users@.take(i + 1).last() == admin_users@[i as int]);
        let u = &admin_users[i];
        let shown = term.as_str().is_empty() || contains_text(
            &u.username.as_str().to_lowercase(),
            &term,
        ) || contains_text(&u.display_name.as_str().to_lowercase(), &term);
        if shown {
            let ghost before = admin_views(rows@);
            rows.push(admin_row(u, &dates[i], my_username));
            assert(admin_views(rows@) =~= before.push(
                admin_row_view(*u, dates@[i as int], my_username@),
            ));
        }
        i += 1;
    }
    assert(admin_users@.take(admin_users@.len() as int) =~= admin_users@);
    rows
}

} // verus!
