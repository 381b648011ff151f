//! The window, the palette, updates, and the keyboard.

use crate::laws::asked::{changes, lemma_request, looks_up, online, text};
use crate::state::app::{App, Now};
use crate::state::effect::{EffectView, Reply};
use crate::state::keyed::{lemma_position, lemma_position_is};
use crate::state::message::{AdminMessage, Message, PaletteMessage, WindowMessage};
use crate::state::types::WindowAction;
use crate::state::update::step;
use crate::text::{byte_len, digits, text_is, trimmed};
use vstd::prelude::*;

verus! {

/// Escape gives back what was on screen before the topmost thing opened: the
/// palette goes first, and while it is open nothing else changes; a reply is
/// dropped before the attachment, and the text stays with both.
pub proof fn escape_goes_from_the_top(pre: App, now: Now, post: App, fx: Seq<EffectView>)
    requires
        step(pre, Message::Window(WindowMessage::EscapePressed), now, post, fx),
    ensures
        fx.len() == 0,
        post.session == pre.session,
        post.place == pre.place,
        post.peers == pre.peers,
        post.chat.messages == pre.chat.messages,
        pre.palette.open ==> !post.palette.open && post.composer == pre.composer && post.chat
            == pre.chat && post.settings == pre.settings,
        !pre.palette.open && pre.composer.suggestions@.len() > 0
            ==> post.composer.suggestions@.len() == 0 && post.composer.input == pre.composer.input
            && post.composer.reply == pre.composer.reply && post.chat == pre.chat,
        !pre.palette.open && pre.composer.suggestions@.len() == 0 && pre.chat.preview_url is None
            && !pre.chat.clear_confirm && !pre.share.picker_open
            && pre.composer.editing_id is Some ==> post.composer.editing_id is None
            && post.composer.input@.len() == 0 && post.composer.reply == pre.composer.reply,
        !pre.palette.open && pre.composer.suggestions@.len() == 0 && pre.chat.preview_url is None
            && !pre.chat.clear_confirm && !pre.share.picker_open && pre.composer.editing_id is None
            && pre.composer.reply is Some ==> post.composer.reply is None && post.composer.input
            == pre.composer.input && post.composer.attachment == pre.composer.attachment,
        !pre.palette.open && pre.composer.suggestions@.len() == 0 && pre.chat.preview_url is None
            && !pre.chat.clear_confirm && !pre.share.picker_open && pre.composer.editing_id is None
            && pre.composer.reply is None && pre.composer.attachment is Some
            ==> post.composer.attachment is None && post.composer.input == pre.composer.input,
{
}

/// A toast goes once it was on screen for three seconds, not before; the beat
/// that says that we are here goes on with every tick.
pub proof fn toasts_stay_three_seconds(
    pre: App,
    now: Now,
    post: App,
    fx: Seq<EffectView>,
    token: Seq<char>,
)
    requires
        step(pre, Message::Window(WindowMessage::Tick), now, post, fx),
    ensures
        pre.toast is Some ==> {
            let (shown, since) = pre.toast->0;
            &&& now.tick_ms - since >= 3000 ==> post.toast is None
            &&& now.tick_ms - since < 3000 ==> post.toast == pre.toast
        },
        pre.toast is None ==> post == pre,
        online(pre, token) ==> changes(
            fx,
            token,
            "presence:heartbeat"@,
            seq![],
            Reply::HeartbeatFinished,
        ),
{
    broadcast use lemma_request;

}

/// Closing the window hides it where a tray icon can bring it back, and quits
/// where there is none. Quitting puts an update in place that was fetched,
/// without starting again; restarting for it does start again.
pub proof fn closing_and_quitting(
    pre: App,
    m: WindowMessage,
    now: Now,
    post: App,
    fx: Seq<EffectView>,
)
    requires
        step(pre, Message::Window(m), now, post, fx),
    ensures
        m is WindowCloseRequested && pre.window.tray_ready ==> post.window.pending_action == Some(
            WindowAction::HideToTray,
        ) && !post.window.window_focused && fx.len() == 0,
        (m is WindowCloseRequested && !pre.window.tray_ready) || (m is TrayEvent
            && m->TrayEvent_0 is Quit) ==> {
            &&& post.window.pending_action == Some(WindowAction::Exit)
            &&& pre.window.pending_update_path is None ==> fx.len() == 0
            &&& pre.window.pending_update_path is Some ==> fx == seq![
                EffectView::StageExeSwap {
                    path: pre.window.pending_update_path->0@,
                    relaunch: false,
                },
            ]
        },
        m is RestartAndUpdate && pre.window.pending_update_path is Some
            ==> post.window.pending_action == Some(WindowAction::Exit) && fx == seq![
            EffectView::StageExeSwap {
                path: pre.window.pending_update_path->0@,
                relaunch: true,
            },
        ],
        m is RestartAndUpdate && pre.window.pending_update_path is None ==> post == pre && fx.len()
            == 0,
        m is TrayEvent && m->TrayEvent_0 is Show ==> post.window.pending_action == Some(
            WindowAction::ShowAndFocus,
        ) && post.window.window_focused && fx.len() == 0,
        m is TrayEvent && m->TrayEvent_0 is Ready ==> post.window.tray_ready && fx.len() == 0,
        m is TrayEvent && m->TrayEvent_0 is Unavailable ==> !post.window.tray_ready
            && post.toast is Some && fx.len() == 0,
        m is WindowFocusChanged ==> post.window.window_focused == m->WindowFocusChanged_0
            && fx.len() == 0,
        post.session == pre.session,
        post.chat.messages == pre.chat.messages,
{
}

/// Looking for an update: one that was fetched is not fetched again, and one
/// that was found waits where it was put.
pub proof fn updates_wait_for_a_restart(
    pre: App,
    m: WindowMessage,
    now: Now,
    post: App,
    fx: Seq<EffectView>,
)
    requires
        step(pre, Message::Window(m), now, post, fx),
    ensures
        m is CheckForUpdate && pre.window.pending_update_path is Some ==> fx.len() == 0
            && post.window.pending_update_path == pre.window.pending_update_path,
        m is CheckForUpdate && pre.window.pending_update_path is None ==> fx == seq![
            EffectView::CheckForUpdate,
        ],
        m is UpdateCheckFinished ==> fx.len() == 0 && post.window.pending_action
            == pre.window.pending_action,
        m is UpdateCheckFinished && m->UpdateCheckFinished_0 is Downloaded
            ==> post.window.pending_update_path == Some(m->UpdateCheckFinished_0->Downloaded_path)
            && post.toast is Some,
        m is UpdateCheckFinished && m->UpdateCheckFinished_0 is UpToDate
            ==> post.window.pending_update_path == pre.window.pending_update_path && text_is(
            post.window.update_check_status,
            "You're up to date."@,
        ),
        m is UpdateCheckFinished && m->UpdateCheckFinished_0 is Failed
            ==> post.window.pending_update_path == pre.window.pending_update_path && text_is(
            post.window.update_check_status,
            "Update check failed: "@ + m->UpdateCheckFinished_0->Failed_0@,
        ),
{
}

/// The sidebar: the tab that was chosen is shown, and what was searched for in
/// another is gone; the ping is the time that was measured.
pub proof fn sidebar_and_ping(
    pre: App,
    m: WindowMessage,
    now: Now,
    post: App,
    fx: Seq<EffectView>,
    token: Seq<char>,
)
    requires
        step(pre, Message::Window(m), now, post, fx),
        online(pre, token),
    ensures
        m is SidebarTabChanged ==> {
            let tab = m->SidebarTabChanged_0;
            &&& post.window.sidebar_tab == tab
            &&& tab is Chats ==> post.window.chat_filter_input == pre.window.chat_filter_input
            &&& !(tab is Chats) ==> post.window.chat_filter_input@.len() == 0
            &&& tab is Friends ==> post.social.friends_filter_input
                == pre.social.friends_filter_input
            &&& !(tab is Friends) ==> post.social.friends_filter_input@.len() == 0
            &&& tab is Admin ==> post.admin.search_input == pre.admin.search_input && fx == seq![
                EffectView::Dispatch(Message::Admin(AdminMessage::LoadAdminStats)),
                EffectView::Dispatch(Message::Admin(AdminMessage::LoadAdminReports)),
            ]
            &&& !(tab is Admin) ==> post.admin.search_input@.len() == 0 && fx.len() == 0
            &&& post.place == pre.place
        },
        m is ChatFilterChanged ==> post.window.chat_filter_input == m->ChatFilterChanged_0
            && fx.len() == 0,
        m is ToggleMembersPanel ==> post.window.members_panel_open == !pre.window.members_panel_open
            && fx.len() == 0,
        m is ClearToast ==> post.toast is None && fx.len() == 0,
        m is MeasurePing ==> text_is(post.window.ping_status, "Measuring..."@) && changes(
            fx,
            token,
            "presence:heartbeat"@,
            seq![],
            Reply::PingMeasured,
        ),
        m is PingMeasured && m->PingMeasured_0 is Some ==> text_is(
            post.window.ping_status,
            digits(m->PingMeasured_0->0 as nat) + "ms"@,
        ),
        m is PingMeasured && m->PingMeasured_0 is None ==> text_is(
            post.window.ping_status,
            "Ping failed"@,
        ),
{
    broadcast use lemma_request;

}

/// The palette: it opens for whoever is signed in, empty; two bytes or more
/// are searched for; hits are shown only while it is open.
pub proof fn the_palette_searches(
    pre: App,
    m: PaletteMessage,
    now: Now,
    post: App,
    fx: Seq<EffectView>,
    token: Seq<char>,
)
    requires
        step(pre, Message::Palette(m), now, post, fx),
        online(pre, token),
    ensures
        m is OpenCommandPalette ==> post.palette.open && post.palette.query@.len() == 0
            && post.palette.hits@.len() == 0 && fx.len() == 0,
        m is CloseCommandPalette ==> !post.palette.open && post.palette.query@.len() == 0
            && post.palette.hits@.len() == 0 && fx.len() == 0,
        m is CommandPaletteQueryChanged ==> {
            let q = m->CommandPaletteQueryChanged_0;
            &&& post.palette.query == q
            &&& byte_len(trimmed(q@)) >= 2 ==> looks_up(
                fx,
                token,
                "messages:search"@,
                seq![text("query"@, q@)],
                Reply::CommandPaletteSearchFinished,
            )
            &&& byte_len(trimmed(q@)) < 2 ==> fx.len() == 0 && post.palette.hits@.len() == 0
        },
        m is CommandPaletteSearchFinished && m->CommandPaletteSearchFinished_0 is Ok
            && pre.palette.open ==> post.palette.hits == m->CommandPaletteSearchFinished_0->Ok_0,
        m is CommandPaletteSearchFinished && (m->CommandPaletteSearchFinished_0 is Err
            || !pre.palette.open) ==> post.palette == pre.palette,
        m is CommandPalettePick && m->CommandPalettePick_0 >= pre.palette.hits@.len() ==> post == pre
            && fx.len() == 0,
        m is CommandPalettePick && m->CommandPalettePick_0 < pre.palette.hits@.len()
            ==> !post.palette.open,
{
    broadcast use lemma_request;

}

/// A hit that is picked opens where it was found: as a channel of the selected
/// server where it is one, else as a chat of the list.
pub proof fn picked_hits_open(
    pre: App,
    at: usize,
    now: Now,
    post: App,
    fx: Seq<EffectView>,
    k: int,
)
    requires
        step(pre, Message::Palette(PaletteMessage::CommandPalettePick(at)), now, post, fx),
        at < pre.palette.hits@.len(),
    ensures
        ({
            let hit = pre.palette.hits@[at as int];
            let channels = pre.servers.channels@;
            let chats = pre.inbox.conversations@;
            let id = hit.0@;
            let in_channels = exists|j: int|
                0 <= j < channels.len() && (#[trigger] channels[j]).conversation_id@ == id;
            let in_chats = exists|j: int|
                0 <= j < chats.len() && (#[trigger] chats[j]).conversation_id@ == id;
            &&& in_channels ==> text_is(post.place.conversation, id) && (text_is(
                post.place.kind,
                "channel"@,
            ) || text_is(post.place.kind, "voice"@))
            &&& !in_channels && 0 <= k < chats.len() && chats[k].conversation_id@ == id && (
            forall|j: int| 0 <= j < k ==> (#[trigger] chats[j]).conversation_id@ != id)
                ==> text_is(post.place.conversation, id) && text_is(
                post.place.kind,
                chats[k].kind@,
            ) && post.place.peer_id == chats[k].peer_user_id
            &&& !in_channels && !in_chats ==> post.place == pre.place && fx.len() == 0
        }),
{
    let hit = pre.palette.hits@[at as int];
    let id = hit.0@;
    lemma_position(pre.servers.channels@, id);
    lemma_position(pre.inbox.conversations@, id);
    let chats = pre.inbox.conversations@;
    if 0 <= k < chats.len() && chats[k].conversation_id@ == id && (forall|j: int|
        0 <= j < k ==> (#[trigger] chats[j]).conversation_id@ != id) {
        lemma_position_is(chats, id, k);
    }
}

} // verus!
