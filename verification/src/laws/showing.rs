//! What the lists and the chat show of each thing.

use crate::hex::hex_text;
use crate::laws::reckoning::hexadecimal_reads_back;
use crate::state::replies::{role_rows, OverwriteRow};
use crate::state::trust::TrustBadge;
use crate::state::types::{
    AdminUserRow, ChannelSummary, ChatMessage, ConversationSummary, Friend, IncomingRequest,
    MessageReport, OutgoingRequest, ServerMemberRow, ServerSummary,
};
use crate::strmap::texts;
use crate::text::{lowercase, stripped_start, text_is};
use crate::ui::admin_rows::{
    admin_row_view, admin_rows, found, shows_detail, status_line, AdminDetailView, DetailDates,
    RowDates,
};
use crate::ui::chat_rows::{
    is_call_row, is_message_row, is_separator, plan_at, shown, ChatMessageRow, MessageLabels,
    RowPlan, Viewer,
};
use crate::ui::colors::{behind_two, color_digits, color_text, rgb_of, Rgb};
use crate::ui::mentions::{pings, pings_everyone};
use crate::ui::viewmodel::{
    channel_view, channels_shown, shows_conversation, shows_friend, shows_incoming, shows_member,
    shows_outgoing, shows_pinned, shows_report, shows_server, ConversationRow, FriendRow,
    IncomingRequestRow, MemberRow, OutgoingRequestRow, PinnedMessageRow, ReportRow, ServerRow,
};
use vstd::prelude::*;
use vstd::utf8::{encode_utf8, is_ascii_chars, is_ascii_chars_encode_utf8};

verus! {

/// A color that is written in hexadecimal, with or without the mark in front,
/// is shown as that color.
pub proof fn colors_are_shown_as_written(r: u8, g: u8, b: u8)
    ensures
        rgb_of(hex_text(seq![r, g, b])) == (Rgb { r, g, b }),
        rgb_of(seq!['#'] + hex_text(seq![r, g, b])) == (Rgb { r, g, b }),
        color_text(hex_text(seq![r, g, b])),
{
    broadcast use is_ascii_chars_encode_utf8;

    let bytes = seq![r, g, b];
    let h = hex_text(bytes);
    hexadecimal_reads_back(bytes, 0);
    hexadecimal_reads_back(bytes, 1);
    hexadecimal_reads_back(bytes, 2);
    assert(h.len() == 6);
    assert forall|i: int| 0 <= i < 6 implies (#[trigger] h[i] as u32) < 128 && h[i] != '#' && h[i]
        != '+' by {
        lemma_hex_chars(bytes, i);
    }
    assert(is_ascii_chars(h));
    assert(encode_utf8(h).len() == 6);
    assert(color_digits(h) == h);
    let w = seq!['#'] + h;
    assert(w.subrange(1, w.len() as int) =~= h);
    assert(color_digits(w) == h) by {
        reveal_with_fuel(stripped_start, 2);
    }
    let h1 = behind_two(h);
    let h2 = behind_two(h1);
    assert(h1 =~= h.subrange(2, 6));
    assert(h2 =~= h.subrange(4, 6));
    assert(h1[0] == h[2] && h1[1] == h[3]);
    assert(h2[0] == h[4] && h2[1] == h[5]);
}

proof fn lemma_hex_chars(bytes: Seq<u8>, i: int)
    requires
        0 <= i < hex_text(bytes).len(),
    ensures
        (hex_text(bytes)[i] as u32) < 128,
        hex_text(bytes)[i] != '#',
        hex_text(bytes)[i] != '+',
    decreases bytes.len(),
{
    if bytes.len() > 0 {
        let t = bytes.drop_last();
        let h = hex_text(t);
        if i < h.len() {
            lemma_hex_chars(t, i);
            assert(hex_text(bytes)[i] == h[i]);
        }
    }
}

/// The row of a message: what it lets us do depends on whose it is, on whether
/// it was deleted, and on whether we are staff.
pub proof fn message_rows_give_the_right_buttons(
    r: ChatMessageRow,
    m: ChatMessage,
    v: Viewer,
    labels: MessageLabels,
    grouped: bool,
)
    requires
        is_message_row(r, m, v, labels, grouped),
    ensures
        ({
            let ours = m.author_id@ == v.user_id@;
            &&& r.id == m.id
            &&& r.author_id == m.author_id
            &&& r.author_name == m.author_name
            &&& r.attachment_url == m.attachment_url
            &&& r.mine == ours
            &&& r.encrypted == m.encrypted
            &&& r.grouped == grouped
            &&& r.can_edit == (ours && !m.deleted)
            &&& r.can_delete == (!m.deleted && (ours || v.is_admin))
            &&& r.can_purge == (m.deleted && v.is_admin)
            &&& r.can_react == !m.deleted
            &&& ours ==> !r.can_report
            &&& !ours && !m.deleted ==> r.can_report
            &&& r.reporting == text_is(v.reporting_message_id, m.id@)
            &&& m.edited ==> r.meta@ == labels.time@ + " (edited)"@
            &&& !m.edited ==> r.meta@ == labels.time@
        }),
{
}

/// The row of a message: its text is what was written, except for voice notes,
/// which show none, and deleted ones that we may still see, which say so and
/// show neither attachment nor reactions.
pub proof fn message_rows_show_the_text(
    r: ChatMessageRow,
    m: ChatMessage,
    v: Viewer,
    labels: MessageLabels,
    grouped: bool,
    i: int,
)
    requires
        is_message_row(r, m, v, labels, grouped),
    ensures
        ({
            let ours = m.author_id@ == v.user_id@;
            let note = m.attachment_url@.len() > 0 && m.body@ == v.voice_note_tag@;
            &&& !m.deleted && !note ==> r.body@ == m.body@ && !r.body_danger && !r.is_voice_note
                && r.has_attachment == (m.attachment_url@.len() > 0) && r.attachment_loading
                == r.has_attachment
            &&& !m.deleted && note ==> r.body@.len() == 0 && r.is_voice_note && r.has_attachment
                && !r.attachment_loading
            &&& m.deleted && (ours || v.is_admin) ==> r.body_danger && !r.has_attachment
                && r.reactions@.len() == 0
            &&& m.deleted && (ours || v.is_admin) && m.body@.len() > 0 ==> r.body@ == m.body@
                + " (deleted)"@
            &&& m.deleted && (ours || v.is_admin) && m.body@.len() == 0 ==> r.body@ == "(deleted)"@
            &&& !m.deleted ==> r.reactions@.len() == m.reactions@.len()
            &&& !m.deleted && 0 <= i < m.reactions@.len() ==> {
                let given = m.reactions@[i];
                &&& r.reactions@[i].emoji == given.0
                &&& r.reactions@[i].reacted_by_me == given.2
                &&& r.reactions@[i].count == given.1 as i32
            }
            &&& m.reply_to is None ==> r.reply_line@.len() == 0
            &&& m.reply_to is Some ==> {
                let to = m.reply_to->0;
                r.reply_line@ == "↩ "@ + to.0@ + ": "@ + to.1@
            }
        }),
{
}

/// A row is marked as a ping where the message names us, or everyone where
/// that counts, and was not deleted; only then it says how long ago.
pub proof fn pings_are_marked(
    r: ChatMessageRow,
    m: ChatMessage,
    v: Viewer,
    labels: MessageLabels,
    grouped: bool,
)
    requires
        is_message_row(r, m, v, labels, grouped),
    ensures
        r.mentions_me <==> !m.deleted && pings(m.body@, texts(v.names@)),
        r.mentions_everyone <==> !m.deleted && v.everyone_allowed && pings_everyone(m.body@),
        !r.mentions_me && !r.mentions_everyone ==> r.ping_label@.len() == 0,
        r.mentions_me || r.mentions_everyone ==> r.ping_label@ == "pinged "@ + lowercase(
            labels.age@,
        ),
{
}

/// Messages are drawn together where the same person wrote both on one day and
/// no call lies between; a line stands before the first message of each day;
/// calls stand on their own.
pub proof fn messages_of_one_author_are_grouped(
    msgs: Seq<ChatMessage>,
    labels: Seq<MessageLabels>,
    i: int,
)
    requires
        0 <= i < msgs.len(),
        labels.len() == msgs.len(),
    ensures
        ({
            let rows = plan_at(msgs, labels, i);
            let first = i == 0 || labels[i].day@ != labels[i - 1].day@;
            let together = !first && msgs[i - 1].kind@ != "call"@ && msgs[i].author_id@ == msgs[i
                - 1].author_id@;
            &&& rows.len() == if first {
                2int
            } else {
                1int
            }
            &&& first ==> rows[0] == RowPlan::Separator(i)
            &&& msgs[i].kind@ == "call"@ ==> rows.last() == RowPlan::Call(i)
            &&& msgs[i].kind@ != "call"@ ==> rows.last() == RowPlan::Message(i, together)
        }),
{
}

/// The log of a call shows its text; only staff remove it. The line between
/// two days says which day begins.
pub proof fn plain_lines(
    r: ChatMessageRow,
    m: ChatMessage,
    v: Viewer,
    day: Seq<char>,
)
    ensures
        is_call_row(r, m, v) ==> {
            &&& r.id == m.id
            &&& r.body == m.body
            &&& r.is_call_log
            &&& r.mine == (m.author_id@ == v.user_id@)
            &&& r.can_delete == (v.is_admin && !m.deleted)
            &&& r.can_purge == (v.is_admin && m.deleted)
            &&& !r.can_edit && !r.can_react && !r.can_report && !r.mentions_me
                && !r.has_attachment
        },
        is_separator(r, m, day) ==> {
            &&& r.id@ == "date-sep-"@ + m.id@
            &&& r.body@ == day
            &&& !r.mine && !r.can_edit && !r.can_delete && !r.can_purge && !r.can_react
                && !r.can_report
        },
{
}

/// The chat shows what is stored and behind it what is live.
pub proof fn live_messages_come_last(messages: Seq<ChatMessage>, live: &[ChatMessage], i: int)
    ensures
        shown(messages, None) == messages,
        shown(messages, Some(live)).len() == messages.len() + live@.len(),
        0 <= i < messages.len() ==> shown(messages, Some(live))[i] == messages[i],
        0 <= i < live@.len() ==> shown(messages, Some(live))[messages.len() + i] == live@[i],
{
    assert(shown(messages, None) =~= messages);
}

/// The rows of the sidebar: each is about its own chat or server, and active
/// where that is the open one.
pub proof fn sidebar_rows(
    cr: ConversationRow,
    c: ConversationSummary,
    sr: ServerRow,
    s: ServerSummary,
    active: Option<&str>,
)
    requires
        shows_conversation(cr, c, active),
        shows_server(sr, s, active),
    ensures
        cr.id == c.conversation_id,
        cr.unread == c.unread,
        cr.is_support == c.is_support,
        !c.is_support ==> cr.title@ == c.title@,
        c.is_support ==> cr.title@ == "Support"@,
        cr.active <==> active is Some && active->0@ == c.conversation_id@,
        sr.server_id == s.server_id,
        sr.name == s.name,
        sr.icon_url == s.icon_url,
        sr.active <==> active is Some && active->0@ == s.server_id@,
{
}

/// The row of a friend: by nickname where there is one, with a star for
/// favorites, the status or the servers that we share, and how far the friend
/// is verified.
pub proof fn friend_rows_show_the_friend(
    r: FriendRow,
    f: Friend,
    online: bool,
    since: Seq<char>,
    badge: Option<TrustBadge>,
)
    requires
        shows_friend(r, f, online, since, badge),
    ensures
        ({
            let name = if f.nickname@.len() > 0 {
                f.nickname@
            } else {
                f.display_name@
            };
            &&& r.user_id == f.user_id
            &&& r.online == online
            &&& r.favorite == f.favorite
            &&& r.photo_url == f.avatar_image_url
            &&& f.favorite ==> r.label@ == "★ "@ + name
            &&& !f.favorite ==> r.label@ == name
            &&& f.status_message@.len() > 0 ==> r.subtitle@ == "@"@ + f.username@ + " · "@
                + f.status_message@
            &&& f.status_message@.len() == 0 && f.mutual_servers@.len() == 0 ==> r.subtitle@ == "@"@
                + f.username@
            &&& f.status_message@.len() == 0 && f.mutual_servers@.len() == 1 ==> r.subtitle@ == "@"@
                + f.username@ + " · "@ + f.mutual_servers@[0]@
            &&& badge is None ==> r.trust_badge@ == ""@
            &&& badge is Some && badge->0 is Verified ==> r.trust_badge@ == "verified"@
            &&& badge is Some && badge->0 is FingerprintChanged ==> r.trust_badge@ == "changed"@
            &&& badge is Some && badge->0 is Unverified ==> r.trust_badge@ == ""@
            &&& f.presence@ == "dnd"@ ==> r.meta@ == "Do not disturb"@ + " · friends since "@ + since
            &&& f.presence@ == "online"@ ==> r.meta@ == "Online"@ + " · friends since "@ + since
        }),
{
    reveal_strlit("online");
    reveal_strlit("idle");
    reveal_strlit("dnd");
    assert("online"@.len() == 6 && "idle"@.len() == 4 && "dnd"@.len() == 3);
}

/// The rows of requests: each is about its own request and person.
pub proof fn request_rows(
    ir: IncomingRequestRow,
    i: IncomingRequest,
    or: OutgoingRequestRow,
    o: OutgoingRequest,
    age: Seq<char>,
)
    ensures
        shows_incoming(ir, i, age) ==> {
            &&& ir.request_id == i.request_id
            &&& ir.from_user_id == i.from_user_id
            &&& ir.from_display_name == i.from_display_name
            &&& ir.note == i.note
            &&& ir.sub@ == "@"@ + i.from_username@ + " · "@ + age
            &&& ir.online <==> i.presence@ != "offline"@
        },
        shows_outgoing(or, o, age) ==> {
            &&& or.request_id == o.request_id
            &&& or.to_user_id == o.to_user_id
            &&& or.to_display_name == o.to_display_name
            &&& or.to_username == o.to_username
            &&& or.note == o.note
            &&& or.sent_label@ == "Sent · "@ + age
        },
{
}

proof fn lemma_channels(list: Seq<ChannelSummary>, active: Option<&str>, voice: bool, c: ChannelSummary)
    ensures
        list.contains(c) && (c.channel_type@ == "voice"@) == voice ==> channels_shown(
            list,
            active,
            voice,
        ).contains(channel_view(c, active, voice)),
        forall|k: int|
            0 <= k < channels_shown(list, active, voice).len() ==> (#[trigger] channels_shown(
                list,
                active,
                voice,
            )[k]).is_voice == voice,
        channels_shown(list, active, voice).len() <= list.len(),
    decreases list.len(),
{
    if list.len() > 0 {
        let t = list.drop_last();
        lemma_channels(t, active, voice, c);
        let before = channels_shown(t, active, voice);
        let all = channels_shown(list, active, voice);
        assert forall|k: int| 0 <= k < all.len() implies (#[trigger] all[k]).is_voice == voice by {
            if k < before.len() {
                assert(all[k] == before[k]);
            }
        }
        if list.contains(c) && (c.channel_type@ == "voice"@) == voice {
            let i = choose|i: int| 0 <= i < list.len() && list[i] == c;
            if i < t.len() {
                assert(t[i] == c);
                assert(t.contains(c));
                let k = choose|k: int|
                    0 <= k < before.len() && before[k] == channel_view(c, active, voice);
                assert(all[k] == before[k]);
            } else {
                assert(all[all.len() - 1] == channel_view(c, active, voice));
            }
        }
    }
}

/// Every channel has its row in one of the two lists, that of the voice
/// channels or that of the others, with its own id and switches.
pub proof fn every_channel_has_its_row(
    list: Seq<ChannelSummary>,
    active: Option<&str>,
    i: int,
    k: int,
)
    requires
        0 <= i < list.len(),
    ensures
        ({
            let c = list[i];
            let voice = c.channel_type@ == "voice"@;
            let rows = channels_shown(list, active, voice);
            exists|n: int|
                {
                    &&& 0 <= n < rows.len()
                    &&& (#[trigger] rows[n]).conversation_id == c.conversation_id@
                    &&& rows[n].is_voice == voice
                    &&& rows[n].muted == c.muted
                    &&& rows[n].can_send == c.can_send
                    &&& rows[n].is_announcement == c.is_announcement
                    &&& rows[n].category_id == c.category_id@
                    &&& rows[n].active <==> active is Some && active->0@ == c.conversation_id@
                    &&& voice && !c.muted ==> rows[n].label == "v  "@ + c.name@ + ""@
                    &&& !voice && !c.is_announcement && !c.muted ==> rows[n].label == "#  "@
                        + c.name@ + ""@
                    &&& !voice && c.is_announcement && !c.muted ==> rows[n].label == "!  "@
                        + c.name@ + ""@
                }
        }),
        0 <= k < channels_shown(list, active, true).len() ==> channels_shown(
            list,
            active,
            true,
        )[k].is_voice,
        0 <= k < channels_shown(list, active, false).len() ==> !channels_shown(
            list,
            active,
            false,
        )[k].is_voice,
{
    let c = list[i];
    let voice = c.channel_type@ == "voice"@;
    assert(list.contains(c));
    lemma_channels(list, active, true, c);
    lemma_channels(list, active, false, c);
    let rows = channels_shown(list, active, voice);
    let n = choose|n: int| 0 <= n < rows.len() && rows[n] == channel_view(c, active, voice);
    assert(rows[n].conversation_id == c.conversation_id@);
}

/// The row of a member: who it is, and one badge, for the owner first, then
/// staff, then bots.
pub proof fn member_rows_show_the_member(r: MemberRow, m: ServerMemberRow, online: bool)
    requires
        shows_member(r, m, online),
    ensures
        r.user_id == m.user_id,
        r.display_name == m.display_name,
        r.online == online,
        r.is_bot == m.is_bot,
        r.is_plus == m.plus_active,
        r.photo_url == m.avatar_image_url,
        r.roles@.len() == m.roles@.len(),
        m.is_owner ==> r.badge@.text == "OWNER"@,
        !m.is_owner && m.platform_role@ == "admin"@ ==> r.badge@.text == "STAFF"@,
        !m.is_owner && m.platform_role@ == "moderator"@ ==> r.badge@.text == "MOD"@,
        !m.is_owner && m.is_bot && m.platform_role@ == "user"@ ==> r.badge@.text == "*bot"@,
        !m.is_owner && !m.is_bot && m.platform_role@ == "user"@ ==> r.badge@.text.len() == 0,
{
    reveal_strlit("OWNER");
    reveal_strlit("STAFF");
    reveal_strlit("MOD");
    reveal_strlit("");
    reveal_strlit("owner");
    reveal_strlit("admin");
    reveal_strlit("moderator");
    reveal_strlit("user");
    assert("owner"@[0] == 'o' && "admin"@[0] == 'a' && "moderator"@[0] == 'm' && "user"@[0] == 'u');
}

/// The rows of pinned messages and of reports: each is about its own message
/// or report.
pub proof fn pins_and_reports(
    pr: PinnedMessageRow,
    m: ChatMessage,
    rr: ReportRow,
    p: MessageReport,
    label: Seq<char>,
)
    ensures
        shows_pinned(pr, m, label) ==> {
            &&& pr.id == m.id
            &&& pr.author_name == m.author_name
            &&& pr.meta@ == label
            &&& m.body@.len() > 0 || m.attachment_url@.len() == 0 ==> pr.body@ == m.body@
            &&& m.body@.len() == 0 && m.attachment_url@.len() > 0 ==> pr.body@ == "[image]"@
        },
        shows_report(rr, p, label) ==> {
            &&& rr.report_id == p.report_id
            &&& rr.message_body == p.message_body
            &&& rr.reporter_username@ == "@"@ + p.reporter_username@
            &&& rr.author_username@ == "@"@ + p.author_username@
            &&& rr.age_label@ == label
            &&& p.reason@ == "spam"@ ==> rr.reason@ == "Spam"@
            &&& p.reason@ == "harassment"@ ==> rr.reason@ == "Harassment"@
            &&& p.reason@ == "illegal_content"@ ==> rr.reason@ == "Illegal content"@
        },
{
    reveal_strlit("spam");
    reveal_strlit("harassment");
    reveal_strlit("illegal_content");
    assert("spam"@[0] == 's' && "harassment"@[0] == 'h' && "illegal_content"@[0] == 'i');
}

/// The row of a user in administration: the owner's role and our own cannot be
/// changed there; bans, mutes and the subscription are spelled out.
pub proof fn admin_rows_show_the_user(u: AdminUserRow, dates: RowDates, me: Seq<char>)
    ensures
        ({
            let r = admin_row_view(u, dates, me);
            &&& r.user_id == u.user_id@
            &&& r.username == u.username@
            &&& r.role == u.role@
            &&& r.banned == u.banned
            &&& r.muted == u.muted
            &&& r.plus_active == u.plus_active
            &&& r.role_locked <==> u.role@ == "owner"@ || u.username@ == me
            &&& !u.banned && !u.muted && !u.plus_active ==> r.status_line == u.role@
            &&& u.banned && u.ban_expires_at <= 0 && !u.muted && !u.plus_active ==> r.status_line
                == u.role@ + " · permanent ban"@
            &&& u.banned && u.ban_expires_at > 0 && !u.muted && !u.plus_active ==> r.status_line
                == u.role@ + (" · temp ban · until "@ + dates.ban_until@)
            &&& !u.banned && u.muted && u.mute_expires_at <= 0 && !u.plus_active ==> r.status_line
                == u.role@ + " · muted"@
        }),
{
    let r = admin_row_view(u, dates, me);
    let none = Seq::<char>::empty();
    if !u.banned && !u.muted && !u.plus_active {
        assert(r.status_line =~= u.role@);
    }
    if u.banned && u.ban_expires_at <= 0 && !u.muted && !u.plus_active {
        assert(r.status_line =~= u.role@ + " · permanent ban"@);
    }
    if u.banned && u.ban_expires_at > 0 && !u.muted && !u.plus_active {
        assert(r.status_line =~= u.role@ + (" · temp ban · until "@ + dates.ban_until@));
    }
    if !u.banned && u.muted && u.mute_expires_at <= 0 && !u.plus_active {
        assert(r.status_line =~= u.role@ + " · muted"@);
    }
}

proof fn lemma_admin_rows(
    users: Seq<AdminUserRow>,
    dates: Seq<RowDates>,
    term: Seq<char>,
    me: Seq<char>,
    i: int,
)
    requires
        0 <= i < users.len(),
        found(users[i], term),
    ensures
        admin_rows(users, dates, term, me).contains(admin_row_view(users[i], dates[i], me)),
    decreases users.len(),
{
    let t = users.drop_last();
    let before = admin_rows(t, dates, term, me);
    let all = admin_rows(users, dates, term, me);
    if i < t.len() {
        lemma_admin_rows(t, dates, term, me, i);
        let k = choose|k: int|
            0 <= k < before.len() && before[k] == admin_row_view(t[i], dates[i], me);
        assert(all[k] == before[k]);
    } else {
        assert(all[all.len() - 1] == admin_row_view(users[i], dates[i], me));
    }
}

/// The search of administration finds a user by any part of either name,
/// whatever the case, and without a term everyone.
pub proof fn searched_users_are_found(
    users: Seq<AdminUserRow>,
    dates: Seq<RowDates>,
    term: Seq<char>,
    me: Seq<char>,
    i: int,
    at: int,
)
    requires
        0 <= i < users.len(),
        0 <= at,
        ({
            let name = lowercase(users[i].username@);
            let shown = lowercase(users[i].display_name@);
            ||| term.len() == 0
            ||| at + term.len() <= name.len() && name.subrange(at, at + term.len()) == term
            ||| at + term.len() <= shown.len() && shown.subrange(at, at + term.len()) == term
        }),
    ensures
        exists|k: int|
            0 <= k < admin_rows(users, dates, term, me).len() && (#[trigger] admin_rows(
                users,
                dates,
                term,
                me,
            )[k]).user_id == users[i].user_id@,
{
    let name = lowercase(users[i].username@);
    let shown = lowercase(users[i].display_name@);
    if term.len() > 0 {
        assert(crate::text::stands_at(name, at, term) || crate::text::stands_at(shown, at, term));
    }
    lemma_admin_rows(users, dates, term, me, i);
    let rows = admin_rows(users, dates, term, me);
    let k = choose|k: int|
        0 <= k < rows.len() && rows[k] == admin_row_view(users[i], dates[i], me);
    assert(rows[k].user_id == users[i].user_id@);
}

/// The drawer of a user says whether and until when they are banned or muted.
pub proof fn drawers_show_the_user(
    v: AdminDetailView,
    d: crate::state::types::AdminUserDetail,
    dates: DetailDates,
)
    requires
        shows_detail(v, d, dates),
    ensures
        v.open,
        v.user_id == d.user_id,
        v.role == d.role,
        v.banned == d.banned,
        v.muted == d.muted,
        v.online == d.online,
        !d.banned ==> v.ban_label@ == "not banned"@,
        d.banned && d.ban_expires_at > 0 ==> v.ban_label@ == "temp ban until "@ + dates.ban_until@,
        d.banned && d.ban_expires_at <= 0 ==> v.ban_label@ == "permanent ban"@,
        !d.muted ==> v.mute_label@ == "not muted"@,
        d.muted && d.mute_expires_at > 0 ==> v.mute_label@ == "muted until "@ + dates.mute_until@,
        d.muted && d.mute_expires_at <= 0 ==> v.mute_label@ == "muted"@,
        v.created_label@ == dates.created@,
        d.last_seen_at > 0 ==> v.last_seen_label@ == dates.last_seen@,
        d.last_seen_at <= 0 ==> v.last_seen_label@ == "—"@,
{
}

/// Of the overwrites of a channel those for roles are used, each as it is.
pub proof fn overwrites_of_roles_are_used(rows: Seq<OverwriteRow>, i: int)
    requires
        0 <= i < rows.len(),
    ensures
        rows[i].target_type@ == "role"@ ==> role_rows(rows).contains(
            (rows[i].target_id@, rows[i].allow, rows[i].deny),
        ),
        role_rows(rows) == rows.filter(
            |r: OverwriteRow| r.target_type@ == "role"@,
        ).map_values(|r: OverwriteRow| (r.target_id@, r.allow, r.deny)),
{
    lemma_role_rows(rows);
    if rows[i].target_type@ == "role"@ {
        lemma_role_kept(rows, i);
    }
}

proof fn lemma_role_kept(rows: Seq<OverwriteRow>, i: int)
    requires
        0 <= i < rows.len(),
        rows[i].target_type@ == "role"@,
    ensures
        role_rows(rows).contains((rows[i].target_id@, rows[i].allow, rows[i].deny)),
    decreases rows.len(),
{
    let t = rows.drop_last();
    let before = role_rows(t);
    let all = role_rows(rows);
    let want = (rows[i].target_id@, rows[i].allow, rows[i].deny);
    if i < t.len() {
        lemma_role_kept(t, i);
        let k = choose|k: int| 0 <= k < before.len() && before[k] == want;
        assert(all[k] == before[k]);
    } else {
        assert(all[all.len() - 1] == want);
    }
}

proof fn lemma_role_rows(rows: Seq<OverwriteRow>)
    ensures
        role_rows(rows) == rows.filter(
            |r: OverwriteRow| r.target_type@ == "role"@,
        ).map_values(|r: OverwriteRow| (r.target_id@, r.allow, r.deny)),
    decreases rows.len(),
{
    reveal(Seq::filter);
    if rows.len() > 0 {
        let t = rows.drop_last();
        lemma_role_rows(t);
        let f = |r: OverwriteRow| (r.target_id@, r.allow, r.deny);
        let kept = t.filter(|r: OverwriteRow| r.target_type@ == "role"@);
        if rows.last().target_type@ == "role"@ {
            assert(kept.push(rows.last()).map_values(f) =~= kept.map_values(f).push(
                f(rows.last()),
            ));
        }
    } else {
        assert(role_rows(rows) =~= rows.filter(
            |r: OverwriteRow| r.target_type@ == "role"@,
        ).map_values(|r: OverwriteRow| (r.target_id@, r.allow, r.deny)));
    }
}

} // verus!
