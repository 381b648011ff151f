//! The rows of the open chat.

use crate::clock::{representable, valid_offset};
use crate::state::types::ChatMessage;
use crate::strmap::texts;
use crate::text::{cat2, cat4, is_text, lowercase, owned, same, text_is};
use crate::ui::colors::{color_text, hex_color, initial, initial_of, rgb_of, Rgb};
use crate::ui::mentions::{has_everyone, mentions_any, pings, pings_everyone};
use crate::ui::utils::{
    day_text, format_day, format_relative_time, format_time, offset_ok,
};
use crate::ui::viewmodel::{is_age, is_time};
use vstd::prelude::*;

verus! {

// ---------- Which messages are shown ----------

/// The stored messages and, behind them, the live ones of the open DM.
pub open spec fn shown(messages: Seq<ChatMessage>, live: Option<&[ChatMessage]>) -> Seq<ChatMessage> {
    messages + match live {
        Some(l) => l@,
        None => Seq::empty(),
    }
}

/// [`shown`], computed.
pub fn display_messages<'a>(
    messages: &'a [ChatMessage],
    live_messages: Option<&'a [ChatMessage]>,
) -> (r: Vec<&'a ChatMessage>)
    ensures
        r@.len() == shown(messages@, live_messages).len(),
        forall|i: int| 0 <= i < r@.len() ==> *(#[trigger] r@[i]) == shown(messages@, live_messages)[i],
{
    let mut r: Vec<&'a ChatMessage> = Vec::new();
    let ghost all = shown(messages@, live_messages);
    let mut i: usize = 0;
    while i < messages.len()
        invariant
            i <= messages@.len(),
            all == shown(messages@, live_messages),
            r@.len() == i,
            forall|k: int| 0 <= k < i ==> *(#[trigger] r@[k]) == all[k],
        decreases messages@.len() - i,
    {
        r.push(&messages[i]);
        i += 1;
    }
    match live_messages {
        Some(live) => {
            let mut j: usize = 0;
            while j < live.len()
                invariant
                    j <= live@.len(),
                    all == messages@ + live@,
                    r@.len() == messages@.len() + j,
                    forall|k: int| 0 <= k < r@.len() ==> *(#[trigger] r@[k]) == all[k],
                decreases live@.len() - j,
            {
                r.push(&live[j]);
                j += 1;
            }
        },
        None => {},
    }
    r
}

// ---------- Rows ----------

/// A reaction to a message.
#[derive(Debug)]
pub struct ReactionRow {
    pub emoji: String,
    pub count: i32,
    pub reacted_by_me: bool,
}

/// A row of the open chat: a message, a call log, or the line between two
/// days.
#[derive(Debug)]
pub struct ChatMessageRow {
    pub id: String,
    pub author_id: String,
    pub author_name: String,
    pub author_initial: String,
    pub author_avatar_color: Rgb,
    pub author_photo_url: String,
    pub attachment_url: String,
    pub is_bot: bool,
    pub is_plus: bool,
    pub mine: bool,
    pub encrypted: bool,
    pub is_call_log: bool,
    pub grouped: bool,
    pub meta: String,
    pub reply_line: String,
    pub body: String,
    pub body_danger: bool,
    pub has_attachment: bool,
    pub attachment_loading: bool,
    pub is_voice_note: bool,
    pub reactions: Vec<ReactionRow>,
    pub can_edit: bool,
    pub can_delete: bool,
    pub can_purge: bool,
    pub can_react: bool,
    pub can_report: bool,
    pub reporting: bool,
    pub mentions_me: bool,
    pub mentions_everyone: bool,
    pub ping_label: String,
}

/// Who looks at the chat.
pub struct Viewer {
    pub user_id: String,
    pub is_admin: bool,
    /// Our display name and user name; a message with one of them pings us.
    pub names: Vec<String>,
    /// Whether `@everyone` pings in this chat.
    pub everyone_allowed: bool,
    pub reporting_message_id: Option<String>,
    /// The body by which a voice note is known.
    pub voice_note_tag: String,
}

/// The labels of a message that depend on the clock.
#[derive(Debug)]
pub struct MessageLabels {
    pub day: String,
    pub time: String,
    pub age: String,
}

/// The message is ours.
pub open spec fn is_mine(m: ChatMessage, v: Viewer) -> bool {
    m.author_id@ == v.user_id@
}

/// The message is the log of a call.
pub open spec fn is_call(m: ChatMessage) -> bool {
    m.kind@ == "call"@
}

/// A deleted message that we still see.
pub open spec fn seen_deleted(m: ChatMessage, v: Viewer) -> bool {
    m.deleted && (v.is_admin || is_mine(m, v))
}

/// A voice note.
pub open spec fn is_voice(m: ChatMessage, v: Viewer) -> bool {
    !seen_deleted(m, v) && m.attachment_url@.len() > 0 && m.body@ == v.voice_note_tag@
}

/// The text of a message's row.
pub open spec fn body_text(m: ChatMessage, v: Viewer) -> Seq<char> {
    if seen_deleted(m, v) {
        if m.body@.len() == 0 {
            "(deleted)"@
        } else {
            m.body@ + " (deleted)"@
        }
    } else if is_voice(m, v) {
        Seq::empty()
    } else {
        m.body@
    }
}

/// The message pings us by name.
pub open spec fn pings_me(m: ChatMessage, v: Viewer) -> bool {
    !m.deleted && pings(m.body@, texts(v.names@))
}

/// The message pings everyone.
pub open spec fn pings_all(m: ChatMessage, v: Viewer) -> bool {
    !m.deleted && v.everyone_allowed && pings_everyone(m.body@)
}

/// The line between two days.
pub open spec fn is_separator(r: ChatMessageRow, m: ChatMessage, day: Seq<char>) -> bool {
    &&& r.id@ == "date-sep-"@ + m.id@
    &&& is_plain_line(r)
    &&& r.author_id@ == ""@
    &&& !r.mine
    &&& !r.encrypted
    &&& r.body@ == day
    &&& !r.body_danger
    &&& !r.can_delete
    &&& !r.can_purge
}

/// A line without author, attachment, reactions and most of the buttons.
pub open spec fn is_plain_line(r: ChatMessageRow) -> bool {
    &&& r.author_name@ == ""@
    &&& r.author_initial@ == ""@
    &&& r.author_avatar_color == (Rgb { r: 77, g: 184, b: 132 })
    &&& r.author_photo_url@ == ""@
    &&& r.attachment_url@ == ""@
    &&& !r.is_bot
    &&& !r.is_plus
    &&& r.is_call_log
    &&& !r.grouped
    &&& r.meta@ == ""@
    &&& r.reply_line@ == ""@
    &&& !r.has_attachment
    &&& !r.attachment_loading
    &&& !r.is_voice_note
    &&& r.reactions@.len() == 0
    &&& !r.can_edit
    &&& !r.can_react
    &&& !r.can_report
    &&& !r.reporting
    &&& !r.mentions_me
    &&& !r.mentions_everyone
    &&& r.ping_label@ == ""@
}

/// The log of a call.
pub open spec fn is_call_row(r: ChatMessageRow, m: ChatMessage, v: Viewer) -> bool {
    &&& r.id == m.id
    &&& is_plain_line(r)
    &&& r.author_id == m.author_id
    &&& r.mine == is_mine(m, v)
    &&& r.encrypted == m.encrypted
    &&& r.body == m.body
    &&& r.body_danger == seen_deleted(m, v)
    &&& r.can_delete == (v.is_admin && !m.deleted)
    &&& r.can_purge == (v.is_admin && m.deleted)
}

/// The reactions of a row.
pub open spec fn reactions_shown(rows: Seq<ReactionRow>, list: Seq<(String, u32, bool)>) -> bool {
    &&& rows.len() == list.len()
    &&& forall|i: int|
        0 <= i < rows.len() ==> (#[trigger] rows[i]).emoji == list[i].0 && rows[i].count
            == list[i].1 as i32 && rows[i].reacted_by_me == list[i].2
}

/// A message.
pub open spec fn is_message_row(
    r: ChatMessageRow,
    m: ChatMessage,
    v: Viewer,
    labels: MessageLabels,
    grouped: bool,
) -> bool {
    let deleted = seen_deleted(m, v);
    let mine = is_mine(m, v);
    &&& r.id == m.id
    &&& r.author_id == m.author_id
    &&& r.author_name == m.author_name
    &&& r.author_initial@ == initial_of(m.author_name@, "?"@)
    &&& r.author_avatar_color == rgb_of(m.author_avatar_color@)
    &&& r.author_photo_url == m.author_avatar_url
    &&& r.attachment_url == m.attachment_url
    &&& r.is_bot == m.author_is_bot
    &&& r.is_plus == m.author_plus_active
    &&& r.mine == mine
    &&& r.encrypted == m.encrypted
    &&& !r.is_call_log
    &&& r.grouped == grouped
    &&& r.meta@ == if m.edited {
        labels.time@ + " (edited)"@
    } else {
        labels.time@
    }
    &&& r.reply_line@ == match m.reply_to {
        Some((author, snippet)) => "↩ "@ + author@ + ": "@ + snippet@,
        None => Seq::empty(),
    }
    &&& r.body@ == body_text(m, v)
    &&& r.body_danger == deleted
    &&& r.has_attachment == (!deleted && m.attachment_url@.len() > 0)
    &&& r.attachment_loading == (!deleted && m.attachment_url@.len() > 0 && !is_voice(m, v))
    &&& r.is_voice_note == is_voice(m, v)
    &&& if deleted {
        r.reactions@.len() == 0
    } else {
        reactions_shown(r.reactions@, m.reactions@)
    }
    &&& r.can_edit == (mine && !m.deleted)
    &&& r.can_delete == ((mine || v.is_admin) && !m.deleted)
    &&& r.can_purge == (v.is_admin && m.deleted)
    &&& r.can_react == !m.deleted
    &&& r.can_report == (!mine && !deleted)
    &&& r.reporting == text_is(v.reporting_message_id, m.id@)
    &&& r.mentions_me == pings_me(m, v)
    &&& r.mentions_everyone == pings_all(m, v)
    &&& r.ping_label@ == if pings_me(m, v) || pings_all(m, v) {
        "pinged "@ + lowercase(labels.age@)
    } else {
        Seq::empty()
    }
}

fn plain_line(id: String, author_id: String, body: String) -> (r: ChatMessageRow)
    ensures
        is_plain_line(r),
        r.id == id,
        r.author_id == author_id,
        r.body == body,
        !r.mine,
        !r.encrypted,
        !r.body_danger,
        !r.can_delete,
        !r.can_purge,
{
    ChatMessageRow {
        id,
        author_id,
        author_name: owned(""),
        author_initial: owned(""),
        author_avatar_color: Rgb { r: 77, g: 184, b: 132 },
        author_photo_url: owned(""),
        attachment_url: owned(""),
        is_bot: false,
        is_plus: false,
        mine: false,
        encrypted: false,
        is_call_log: true,
        grouped: false,
        meta: owned(""),
        reply_line: owned(""),
        body,
        body_danger: false,
        has_attachment: false,
        attachment_loading: false,
        is_voice_note: false,
        reactions: Vec::new(),
        can_edit: false,
        can_delete: false,
        can_purge: false,
        can_react: false,
        can_report: false,
        reporting: false,
        mentions_me: false,
        mentions_everyone: false,
        ping_label: owned(""),
    }
}

fn separator(m: &ChatMessage, day: &str) -> (r: ChatMessageRow)
    ensures
        is_separator(r, *m, day@),
{
    plain_line(cat2("date-sep-", &m.id), owned(""), owned(day))
}

fn mine_of(m: &ChatMessage, v: &Viewer) -> (r: bool)
    ensures
        r == is_mine(*m, *v),
{
    same(&m.author_id, &v.user_id)
}

fn call_row(m: &ChatMessage, v: &Viewer) -> (r: ChatMessageRow)
    ensures
        is_call_row(r, *m, *v),
{
    let mine = mine_of(m, v);
    let mut r = plain_line(m.id.clone(), m.author_id.clone(), m.body.clone());
    r.mine = mine;
    r.encrypted = m.encrypted;
    r.body_danger = m.deleted && (v.is_admin || mine);
    r.can_delete = v.is_admin && !m.deleted;
    r.can_purge = v.is_admin && m.deleted;
    r
}

fn reaction_rows(list: &Vec<(String, u32, bool)>) -> (rows: Vec<ReactionRow>)
    ensures
        reactions_shown(rows@, list@),
{
    let mut rows: Vec<ReactionRow> = Vec::new();
    let mut i: usize = 0;
    while i < list.len()
        invariant
            i <= list@.len(),
            rows@.len() == i,
            forall|k: int|
                0 <= k < i ==> (#[trigger] rows@[k]).emoji == list@[k].0 && rows@[k].count
                    == list@[k].1 as i32 && rows@[k].reacted_by_me == list@[k].2,
        decreases list@.len() - i,
    {
        let (emoji, count, reacted) = &list[i];
        rows.push(
            ReactionRow { emoji: emoji.clone(), count: *count as i32, reacted_by_me: *reacted },
        );
        i += 1;
    }
    rows
}

fn message_row(m: &ChatMessage, v: &Viewer, labels: &MessageLabels, grouped: bool) -> (r: ChatMessageRow)
    requires
        color_text(m.author_avatar_color@),
    ensures
        is_message_row(r, *m, *v, *labels, grouped),
{
    let mine = mine_of(m, v);
    let deleted = m.deleted && (v.is_admin || mine);
    let attached = !deleted && !m.attachment_url.as_str().is_empty();
    let voice = attached && same(&m.body, &v.voice_note_tag);
    let body = if deleted {
        if m.body.as_str().is_empty() {
            owned("(deleted)")
        } else {
            cat2(&m.body, " (deleted)")
        }
    } else if voice {
        String::new()
    } else {
        m.body.clone()
    };
    let me = !m.deleted && mentions_any(&m.body, v.names.as_slice());
    let all = !m.deleted && v.everyone_allowed && has_everyone(&m.body);
    ChatMessageRow {
        id: m.id.clone(),
        author_id: m.author_id.clone(),
        author_name: m.author_name.clone(),
        author_initial: initial(&m.author_name),
        author_avatar_color: hex_color(&m.author_avatar_color),
        author_photo_url: m.author_avatar_url.clone(),
        attachment_url: m.attachment_url.clone(),
        is_bot: m.author_is_bot,
        is_plus: m.author_plus_active,
        mine,
        encrypted: m.encrypted,
        is_call_log: false,
        grouped,
        meta: if m.edited {
            cat2(&labels.time, " (edited)")
        } else {
            labels.time.clone()
        },
        reply_line: match &m.reply_to {
            Some((author, snippet)) => cat4("↩ ", author, ": ", snippet),
            None => String::new(),
        },
        body,
        body_danger: deleted,
        has_attachment: attached,
        attachment_loading: attached && !voice,
        is_voice_note: voice,
        reactions: if deleted {
            Vec::new()
        } else {
            reaction_rows(&m.reactions)
        },
        can_edit: mine && !m.deleted,
        can_delete: (mine || v.is_admin) && !m.deleted,
        can_purge: v.is_admin && m.deleted,
        can_react: !m.deleted,
        can_report: !mine && !deleted,
        reporting: is_text(&v.reporting_message_id, &m.id),
        mentions_me: me,
        mentions_everyone: all,
        ping_label: if me || all {
            cat2("pinged ", &labels.age.as_str().to_lowercase())
        } else {
            String::new()
        },
    }
}

// ---------- The whole chat ----------

/// What a row stands for: the message at a place, or the line before it.
pub enum RowPlan {
    Separator(int),
    Call(int),
    Message(int, bool),
}

/// The message at `i` is the first one of its day.
pub open spec fn new_day(labels: Seq<MessageLabels>, i: int) -> bool {
    i == 0 || labels[i].day@ != labels[i - 1].day@
}

/// The message at `i` continues the one before it: same day, same author, and
/// no call in between.
pub open spec fn continues(msgs: Seq<ChatMessage>, labels: Seq<MessageLabels>, i: int) -> bool {
    !new_day(labels, i) && !is_call(msgs[i - 1]) && msgs[i].author_id@ == msgs[i - 1].author_id@
}

/// The rows for the message at `i`.
pub open spec fn plan_at(msgs: Seq<ChatMessage>, labels: Seq<MessageLabels>, i: int) -> Seq<RowPlan> {
    (if new_day(labels, i) {
        seq![RowPlan::Separator(i)]
    } else {
        Seq::empty()
    }).push(
        if is_call(msgs[i]) {
            RowPlan::Call(i)
        } else {
            RowPlan::Message(i, continues(msgs, labels, i))
        },
    )
}

/// The rows for the first `n` messages.
pub open spec fn plan(msgs: Seq<ChatMessage>, labels: Seq<MessageLabels>, n: nat) -> Seq<RowPlan>
    decreases n,
{
    if n == 0 {
        Seq::empty()
    } else {
        plan(msgs, labels, (n - 1) as nat) + plan_at(msgs, labels, n - 1)
    }
}

/// The row is what the plan says.
pub open spec fn fulfils(
    r: ChatMessageRow,
    p: RowPlan,
    msgs: Seq<ChatMessage>,
    labels: Seq<MessageLabels>,
    v: Viewer,
) -> bool {
    match p {
        RowPlan::Separator(i) => is_separator(r, msgs[i], labels[i].day@),
        RowPlan::Call(i) => is_call_row(r, msgs[i], v),
        RowPlan::Message(i, grouped) => is_message_row(r, msgs[i], v, labels[i], grouped),
    }
}

/// The rows are what the plan says, one by one.
pub open spec fn all_fulfil(
    rows: Seq<ChatMessageRow>,
    plans: Seq<RowPlan>,
    msgs: Seq<ChatMessage>,
    labels: Seq<MessageLabels>,
    v: Viewer,
) -> bool {
    &&& rows.len() == plans.len()
    &&& forall|k: int|
        0 <= k < rows.len() ==> fulfils(#[trigger] rows[k], plans[k], msgs, labels, v)
}

/// The rows of a chat with these labels: a line before each day, call logs on
/// their own, and messages of one author drawn together.
pub fn chat_rows_with(
    messages: &[ChatMessage],
    live_messages: Option<&[ChatMessage]>,
    labels: &Vec<MessageLabels>,
    viewer: &Viewer,
) -> (rows: Vec<ChatMessageRow>)
    requires
        labels@.len() == shown(messages@, live_messages).len(),
        forall|i: int|
            0 <= i < labels@.len() ==> color_text(
                (#[trigger] shown(messages@, live_messages)[i]).author_avatar_color@,
            ),
    ensures
        all_fulfil(
            rows@,
            plan(shown(messages@, live_messages), labels@, labels@.len()),
            shown(messages@, live_messages),
            labels@,
            *viewer,
        ),
{
    let list = display_messages(messages, live_messages);
    let ghost msgs = shown(messages@, live_messages);
    let mut rows: Vec<ChatMessageRow> = Vec::new();
    let mut i: usize = 0;
    while i < list.len()
        invariant
            i <= list@.len(),
            msgs == shown(messages@, live_messages),
            list@.len() == msgs.len(),
            labels@.len() == msgs.len(),
            forall|k: int| 0 <= k < list@.len() ==> *(#[trigger] list@[k]) == msgs[k],
            forall|k: int|
                0 <= k < labels@.len() ==> color_text(
                    (#[trigger] shown(messages@, live_messages)[k]).author_avatar_color@,
                ),
            all_fulfil(rows@, plan(msgs, labels@, i as nat), msgs, labels@, *viewer),
        decreases list@.len() - i,
    {
        let m = list[i];
        let ghost before = rows@;
        let ghost start = plan(msgs, labels@, i as nat);
        assert(*m == msgs[i as int]);
        assert(color_text(shown(messages@, live_messages)[i as int].author_avatar_color@));
        let fresh = i == 0 || !same(&labels[i].day, &labels[i - 1].day);
        assert(fresh == new_day(labels@, i as int));
        if fresh {
            rows.push(separator(m, &labels[i].day));
        }
        let call = same(&m.kind, "call");
        if call {
            rows.push(call_row(m, viewer));
        } else {
            let grouped = !fresh && !same(&list[i - 1].kind, "call") && same(
                &m.author_id,
                &list[i - 1].author_id,
            );
            rows.push(message_row(m, viewer, &labels[i], grouped));
        }
        proof {
            let next = plan(msgs, labels@, (i + 1) as nat);
            let tail = plan_at(msgs, labels@, i as int);
            assert(next =~= start + tail);
            assert forall|k: int| 0 <= k < rows@.len() implies fulfils(
                #[trigger] rows@[k],
                next[k],
                msgs,
                labels@,
                *viewer,
            ) by {
                if k < before.len() {
                    assert(rows@[k] == before[k]);
                    assert(next[k] == start[k]);
                } else {
                    assert(next[k] == tail[k - before.len()]);
                }
            }
        }
        i += 1;
    }
    rows
}

/// `label` is the day of an instant as seen at some moment on some machine.
pub open spec fn is_day(label: Seq<char>, ms: i64) -> bool {
    exists|offset: Option<i32>, now: int, now_offset: int|
        {
            &&& offset is Some == representable(ms as int)
            &&& offset_ok(offset)
            &&& 0 <= now
            &&& valid_offset(now_offset)
            &&& label == #[trigger] day_text(ms as int, offset, now, now_offset)
        }
}

/// The labels are those of the message.
pub open spec fn labels_fit(l: MessageLabels, m: ChatMessage) -> bool {
    is_day(l.day@, m.sent_at) && is_time(l.time@, m.sent_at) && is_age(l.age@, m.sent_at)
}

/// The labels of these messages, as the clock stands.
pub open spec fn all_labels_fit(labels: Seq<MessageLabels>, msgs: Seq<ChatMessage>) -> bool {
    &&& labels.len() == msgs.len()
    &&& forall|i: int| 0 <= i < labels.len() ==> labels_fit(#[trigger] labels[i], msgs[i])
}

fn message_labels(list: &Vec<&ChatMessage>, Ghost(msgs): Ghost<Seq<ChatMessage>>) -> (labels: Vec<
    MessageLabels,
>)
    requires
        list@.len() == msgs.len(),
        forall|i: int| 0 <= i < list@.len() ==> *(#[trigger] list@[i]) == msgs[i],
    ensures
        all_labels_fit(labels@, msgs),
{
    let mut labels: Vec<MessageLabels> = Vec::new();
    let mut i: usize = 0;
    while i < list.len()
        invariant
            i <= list@.len(),
            list@.len() == msgs.len(),
            forall|k: int| 0 <= k < list@.len() ==> *(#[trigger] list@[k]) == msgs[k],
            labels@.len() == i,
            forall|k: int| 0 <= k < i ==> labels_fit(#[trigger] labels@[k], msgs[k]),
        decreases list@.len() - i,
    {
        let at: i64 = list[i].sent_at;
        assert(at == msgs[i as int].sent_at);
        let day = format_day(at);
        let time = format_time(at);
        let age = format_relative_time(at);
        assert(is_day(day@, at));
        assert(is_time(time@, at));
        assert(is_age(age@, at));
        labels.push(MessageLabels { day, time, age });
        i += 1;
    }
    labels
}

/// The rows are those of the chat as the clock stands at some moment.
pub open spec fn shows_chat(rows: Seq<ChatMessageRow>, msgs: Seq<ChatMessage>, v: Viewer) -> bool {
    exists|labels: Seq<MessageLabels>|
        all_labels_fit(labels, msgs) && #[trigger] all_fulfil(
            rows,
            plan(msgs, labels, labels.len()),
            msgs,
            labels,
            v,
        )
}

/// The rows of the open chat; see [`chat_rows_with`].
pub fn chat_message_rows(
    messages: &[ChatMessage],
    live_messages: Option<&[ChatMessage]>,
    viewer: &Viewer,
) -> (rows: Vec<ChatMessageRow>)
    requires
        forall|i: int|
            0 <= i < shown(messages@, live_messages).len() ==> color_text(
                (#[trigger] shown(messages@, live_messages)[i]).author_avatar_color@,
            ),
    ensures
        shows_chat(rows@, shown(messages@, live_messages), *viewer),
{
    let list = display_messages(messages, live_messages);
    let labels = message_labels(&list, Ghost(shown(messages@, live_messages)));
    chat_rows_with(messages, live_messages, &labels, viewer)
}

// ---------- Laws ----------

/// The row gives no right that the viewer does not have: only our own
/// messages are edited, only ours or by an admin deleted, only by an admin
/// purged, and our own are not reported.
pub open spec fn grants_fairly(r: ChatMessageRow, m: ChatMessage, v: Viewer) -> bool {
    &&& r.can_edit ==> is_mine(m, v) && !m.deleted && !is_call(m)
    &&& r.can_delete ==> (is_mine(m, v) || v.is_admin) && !m.deleted
    &&& r.can_purge ==> v.is_admin && m.deleted
    &&& r.can_react ==> !m.deleted
    &&& r.can_report ==> !is_mine(m, v)
}

/// No row of a chat grants more than the viewer may do.
pub proof fn rows_grant_fairly(
    rows: Seq<ChatMessageRow>,
    msgs: Seq<ChatMessage>,
    labels: Seq<MessageLabels>,
    v: Viewer,
    k: int,
)
    requires
        labels.len() == msgs.len(),
        all_fulfil(rows, plan(msgs, labels, msgs.len()), msgs, labels, v),
        0 <= k < rows.len(),
    ensures
        match plan(msgs, labels, msgs.len())[k] {
            RowPlan::Separator(i) => grants_fairly(rows[k], msgs[i], v),
            RowPlan::Call(i) => grants_fairly(rows[k], msgs[i], v),
            RowPlan::Message(i, _) => grants_fairly(rows[k], msgs[i], v),
        },
{
    lemma_plan(msgs, labels, msgs.len());
    assert(fulfils(rows[k], plan(msgs, labels, msgs.len())[k], msgs, labels, v));
}

/// The place of a plan that shows a message.
pub open spec fn message_place(p: RowPlan) -> Option<int> {
    match p {
        RowPlan::Separator(_) => None,
        RowPlan::Call(i) => Some(i),
        RowPlan::Message(i, _) => Some(i),
    }
}

/// The places of the messages that a plan shows, in the order of its rows.
pub open spec fn places(plans: Seq<RowPlan>) -> Seq<int>
    decreases plans.len(),
{
    if plans.len() == 0 {
        Seq::empty()
    } else {
        match message_place(plans.last()) {
            Some(i) => places(plans.drop_last()).push(i),
            None => places(plans.drop_last()),
        }
    }
}

proof fn lemma_plan(msgs: Seq<ChatMessage>, labels: Seq<MessageLabels>, n: nat)
    ensures
        forall|k: int|
            0 <= k < plan(msgs, labels, n).len() ==> match #[trigger] plan(msgs, labels, n)[k] {
                RowPlan::Separator(i) => 0 <= i < n && new_day(labels, i),
                RowPlan::Call(i) => 0 <= i < n && is_call(msgs[i]),
                RowPlan::Message(i, g) => 0 <= i < n && !is_call(msgs[i]) && g == continues(
                    msgs,
                    labels,
                    i,
                ),
            },
    decreases n,
{
    if n > 0 {
        let m = (n - 1) as nat;
        lemma_plan(msgs, labels, m);
        let head = plan(msgs, labels, m);
        let tail = plan_at(msgs, labels, n - 1);
        let all = plan(msgs, labels, n);
        assert forall|k: int| 0 <= k < all.len() implies match #[trigger] all[k] {
            RowPlan::Separator(i) => 0 <= i < n && new_day(labels, i),
            RowPlan::Call(i) => 0 <= i < n && is_call(msgs[i]),
            RowPlan::Message(i, g) => 0 <= i < n && !is_call(msgs[i]) && g == continues(
                msgs,
                labels,
                i,
            ),
        } by {
            if k < head.len() {
                assert(all[k] == head[k]);
            } else {
                assert(all[k] == tail[k - head.len()]);
            }
        }
    }
}

/// Every message has exactly one row, and the rows keep the order of the
/// messages.
pub proof fn every_message_has_its_row(msgs: Seq<ChatMessage>, labels: Seq<MessageLabels>, n: nat)
    ensures
        places(plan(msgs, labels, n)) == Seq::new(n, |i: int| i),
    decreases n,
{
    if n > 0 {
        let m = (n - 1) as nat;
        every_message_has_its_row(msgs, labels, m);
        let head = plan(msgs, labels, m);
        let all = plan(msgs, labels, n);
        let last = plan_at(msgs, labels, n - 1).last();
        assert(all.last() == last);
        if new_day(labels, n - 1) {
            let mid = all.drop_last();
            assert(mid =~= head.push(RowPlan::Separator(n - 1)));
            assert(mid.drop_last() =~= head);
            assert(places(mid) == places(head));
        } else {
            assert(all.drop_last() =~= head);
        }
        assert(places(all) =~= Seq::new(n, |i: int| i));
    } else {
        assert(places(plan(msgs, labels, n)) =~= Seq::new(n, |i: int| i));
    }
}

} // verus!
