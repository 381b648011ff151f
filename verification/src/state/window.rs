//! The window, the tray, updates, and what closes with Escape.

use crate::state::app::{
    mutation, toasts, Admin, App, Channels, Chat, Composer, Groups, Now, ProfilePane, Servers,
    Settings, Share, Social, WindowState,
};
use crate::state::effect::{
    nothing, one, two, views, CallKind, Effect, EffectView, Reply,
};
use crate::state::message::{AdminMessage, Message, WindowMessage};
use crate::state::palette::palette_emptied;
use crate::state::types::{SidebarTab, WindowAction};
use crate::text::{cat2, cat3, decimal, digits, owned, text_is};
use crate::tray::TrayEvent;
use crate::update_check::UpdateOutcome;
use vstd::prelude::*;

verus! {

/// A toast stays this long.
pub const TOAST_MS: u64 = 3000;

// ---------- Updates ----------

/// Only the window's state changed, to `window`.
pub open spec fn window_is(pre: App, window: WindowState, post: App, fx: Seq<EffectView>) -> bool {
    post == (App { window, ..pre }) && fx.len() == 0
}

/// The line about updates shows `text`.
pub open spec fn update_says(pre: WindowState, text: Seq<char>, post: WindowState) -> bool {
    &&& post == (WindowState { update_check_status: post.update_check_status, ..pre })
    &&& text_is(post.update_check_status, text)
}

/// What looking for an update does: a build that is there already is not
/// fetched again.
pub open spec fn check_step(pre: App, post: App, fx: Seq<EffectView>) -> bool {
    &&& post == (App { window: post.window, ..pre })
    &&& if pre.window.pending_update_path is Some {
        update_says(pre.window, "Update ready -- press Restart & install."@, post.window)
            && fx.len() == 0
    } else {
        update_says(pre.window, "Checking..."@, post.window) && fx == seq![
            EffectView::CheckForUpdate,
        ]
    }
}

/// What came of looking for an update.
pub open spec fn checked_step(pre: App, outcome: UpdateOutcome, now: Now, post: App, fx: Seq<EffectView>) -> bool {
    &&& fx.len() == 0
    &&& match outcome {
        UpdateOutcome::UpToDate => {
            &&& post == (App { window: post.window, ..pre })
            &&& update_says(pre.window, "You're up to date."@, post.window)
        },
        UpdateOutcome::Downloaded { path, version } => {
            &&& post == (App { window: post.window, toast: post.toast, ..pre })
            &&& update_says(
                WindowState { pending_update_path: Some(path), ..pre.window },
                "Update to v"@ + version@
                    + " downloaded — installs next time HexaTalk restarts."@,
                post.window,
            )
            &&& toasts(
                post.toast,
                "Update ready (v"@ + version@ + ") — installs on next restart"@,
                now,
            )
        },
        UpdateOutcome::Failed(err) => {
            &&& post == (App { window: post.window, ..pre })
            &&& update_says(pre.window, "Update check failed: "@ + err@, post.window)
        },
    }
}

/// The build that waits is put in place of the running one.
pub open spec fn swap_in(app: App, relaunch: bool) -> Seq<EffectView> {
    match app.window.pending_update_path {
        Some(path) => seq![EffectView::StageExeSwap { path: path@, relaunch }],
        None => Seq::empty(),
    }
}

/// The client quits; a build that waits is put in place.
pub open spec fn quits(pre: App, post: App, fx: Seq<EffectView>) -> bool {
    &&& post == (App {
        window: WindowState { pending_action: Some(WindowAction::Exit), ..pre.window },
        ..pre
    })
    &&& fx == swap_in(pre, false)
}

/// What closing the window does: with a tray icon it hides there, without one
/// the client quits.
pub open spec fn close_step(pre: App, post: App, fx: Seq<EffectView>) -> bool {
    if pre.window.tray_ready {
        window_is(
            pre,
            WindowState {
                pending_action: Some(WindowAction::HideToTray),
                window_focused: false,
                ..pre.window
            },
            post,
            fx,
        )
    } else {
        quits(pre, post, fx)
    }
}

/// What the tray icon reported.
pub open spec fn tray_step(pre: App, ev: TrayEvent, now: Now, post: App, fx: Seq<EffectView>) -> bool {
    match ev {
        TrayEvent::Show => window_is(
            pre,
            WindowState {
                pending_action: Some(WindowAction::ShowAndFocus),
                window_focused: true,
                ..pre.window
            },
            post,
            fx,
        ),
        TrayEvent::Quit => quits(pre, post, fx),
        TrayEvent::Ready => window_is(
            pre,
            WindowState { tray_ready: true, ..pre.window },
            post,
            fx,
        ),
        TrayEvent::Unavailable(reason) => {
            &&& post == (App {
                window: WindowState { tray_ready: false, ..pre.window },
                toast: post.toast,
                ..pre
            })
            &&& toasts(
                post.toast,
                "Tray icon unavailable ("@ + reason@ + ") — closing will quit"@,
                now,
            )
            &&& fx.len() == 0
        },
    }
}

impl App {
    fn swap_in(&self, relaunch: bool) -> (fx: Vec<Effect>)
        ensures
            views(fx@) == swap_in(*self, relaunch),
    {
        match &self.window.pending_update_path {
            Some(path) => one(Effect::StageExeSwap { path: path.clone(), relaunch }),
            None => nothing(),
        }
    }

    fn check_for_update(&mut self) -> (fx: Vec<Effect>)
        ensures
            check_step(*old(self), *final(self), views(fx@)),
    {
        if self.window.pending_update_path.is_some() {
            self.window.update_check_status = Some(
                owned("Update ready -- press Restart & install."),
            );
            return nothing();
        }
        self.window.update_check_status = Some(owned("Checking..."));
        one(Effect::CheckForUpdate)
    }

    fn update_checked(&mut self, outcome: UpdateOutcome, now: Now) -> (fx: Vec<Effect>)
        ensures
            checked_step(*old(self), outcome, now, *final(self), views(fx@)),
    {
        match outcome {
            UpdateOutcome::UpToDate => {
                self.window.update_check_status = Some(owned("You're up to date."));
            },
            UpdateOutcome::Downloaded { path, version } => {
                self.window.update_check_status = Some(
                    cat3(
                        "Update to v",
                        &version,
                        " downloaded — installs next time HexaTalk restarts.",
                    ),
                );
                self.window.pending_update_path = Some(path);
                self.show_toast(
                    &cat3("Update ready (v", &version, ") — installs on next restart"),
                    now,
                );
            },
            UpdateOutcome::Failed(err) => {
                self.window.update_check_status = Some(cat2("Update check failed: ", &err));
            },
        }
        nothing()
    }

    fn quit(&mut self) -> (fx: Vec<Effect>)
        ensures
            quits(*old(self), *final(self), views(fx@)),
    {
        let fx = self.swap_in(false);
        self.window.pending_action = Some(WindowAction::Exit);
        fx
    }

    fn close_requested(&mut self) -> (fx: Vec<Effect>)
        ensures
            close_step(*old(self), *final(self), views(fx@)),
    {
        if self.window.tray_ready {
            self.window.pending_action = Some(WindowAction::HideToTray);
            self.window.window_focused = false;
            nothing()
        } else {
            self.quit()
        }
    }

    fn tray_event(&mut self, ev: TrayEvent, now: Now) -> (fx: Vec<Effect>)
        ensures
            tray_step(*old(self), ev, now, *final(self), views(fx@)),
    {
        match ev {
            TrayEvent::Show => {
                self.window.pending_action = Some(WindowAction::ShowAndFocus);
                self.window.window_focused = true;
                nothing()
            },
            TrayEvent::Quit => self.quit(),
            TrayEvent::Ready => {
                self.window.tray_ready = true;
                nothing()
            },
            TrayEvent::Unavailable(reason) => {
                self.window.tray_ready = false;
                self.show_toast(
                    &cat3("Tray icon unavailable (", &reason, ") — closing will quit"),
                    now,
                );
                nothing()
            },
        }
    }
}

// ---------- The sidebar ----------

/// A tab of the sidebar is chosen; search terms of the other tabs are gone.
pub open spec fn tab_step(pre: App, tab: SidebarTab, post: App, fx: Seq<EffectView>) -> bool {
    &&& post == (App {
        window: WindowState {
            sidebar_tab: tab,
            chat_filter_input: post.window.chat_filter_input,
            ..pre.window
        },
        social: Social { friends_filter_input: post.social.friends_filter_input, ..pre.social },
        admin: Admin { search_input: post.admin.search_input, ..pre.admin },
        ..pre
    })
    &&& if tab == SidebarTab::Chats {
        post.window.chat_filter_input == pre.window.chat_filter_input
    } else {
        post.window.chat_filter_input@.len() == 0
    }
    &&& if tab == SidebarTab::Friends {
        post.social.friends_filter_input == pre.social.friends_filter_input
    } else {
        post.social.friends_filter_input@.len() == 0
    }
    &&& if tab == SidebarTab::Admin {
        post.admin.search_input == pre.admin.search_input
    } else {
        post.admin.search_input@.len() == 0
    }
    &&& fx == if tab == SidebarTab::Admin {
        seq![
            EffectView::Dispatch(Message::Admin(AdminMessage::LoadAdminStats)),
            EffectView::Dispatch(Message::Admin(AdminMessage::LoadAdminReports)),
        ]
    } else {
        Seq::empty()
    }
}

impl App {
    fn sidebar_tab_changed(&mut self, tab: SidebarTab) -> (fx: Vec<Effect>)
        ensures
            tab_step(*old(self), tab, *final(self), views(fx@)),
    {
        self.window.sidebar_tab = tab;
        if tab != SidebarTab::Chats {
            self.window.chat_filter_input = String::new();
        }
        if tab != SidebarTab::Friends {
            self.social.friends_filter_input = String::new();
        }
        if tab != SidebarTab::Admin {
            self.admin.search_input = String::new();
            return nothing();
        }
        two(
            Effect::Dispatch(Message::Admin(AdminMessage::LoadAdminStats)),
            Effect::Dispatch(Message::Admin(AdminMessage::LoadAdminReports)),
        )
    }
}

// ---------- Escape ----------

/// What Escape can close, the topmost first.
#[derive(Debug, Clone, Copy, PartialEq, Eq, Structural)]
pub enum Layer {
    Palette,
    Suggestions,
    Preview,
    ClearConfirm,
    SharePicker,
    Edit,
    Reply,
    Attachment,
    NewGroup,
    NewChannel,
    Profile,
    Settings,
    ServerSettings,
    Toast,
    Filters,
    ChatError,
}

/// The layer is on screen.
pub open spec fn shows(app: App, layer: Layer) -> bool {
    match layer {
        Layer::Palette => app.palette.open,
        Layer::Suggestions => app.composer.suggestions@.len() > 0,
        Layer::Preview => app.chat.preview_url is Some,
        Layer::ClearConfirm => app.chat.clear_confirm,
        Layer::SharePicker => app.share.picker_open,
        Layer::Edit => app.composer.editing_id is Some,
        Layer::Reply => app.composer.reply is Some,
        Layer::Attachment => app.composer.attachment is Some,
        Layer::NewGroup => app.groups.open,
        Layer::NewChannel => app.channels.new_open,
        Layer::Profile => app.profile.viewing is Some || app.profile.error is Some,
        Layer::Settings => app.settings.open,
        Layer::ServerSettings => app.servers.settings_open,
        Layer::Toast => app.toast is Some,
        Layer::Filters => app.window.chat_filter_input@.len() > 0
            || app.social.friends_filter_input@.len() > 0,
        Layer::ChatError => app.chat.error is Some,
    }
}

/// The topmost layer on screen.
pub open spec fn top_layer(app: App) -> Option<Layer> {
    if shows(app, Layer::Palette) {
        Some(Layer::Palette)
    } else if shows(app, Layer::Suggestions) {
        Some(Layer::Suggestions)
    } else if shows(app, Layer::Preview) {
        Some(Layer::Preview)
    } else if shows(app, Layer::ClearConfirm) {
        Some(Layer::ClearConfirm)
    } else if shows(app, Layer::SharePicker) {
        Some(Layer::SharePicker)
    } else if shows(app, Layer::Edit) {
        Some(Layer::Edit)
    } else if shows(app, Layer::Reply) {
        Some(Layer::Reply)
    } else if shows(app, Layer::Attachment) {
        Some(Layer::Attachment)
    } else if shows(app, Layer::NewGroup) {
        Some(Layer::NewGroup)
    } else if shows(app, Layer::NewChannel) {
        Some(Layer::NewChannel)
    } else if shows(app, Layer::Profile) {
        Some(Layer::Profile)
    } else if shows(app, Layer::Settings) {
        Some(Layer::Settings)
    } else if shows(app, Layer::ServerSettings) {
        Some(Layer::ServerSettings)
    } else if shows(app, Layer::Toast) {
        Some(Layer::Toast)
    } else if shows(app, Layer::Filters) {
        Some(Layer::Filters)
    } else if shows(app, Layer::ChatError) {
        Some(Layer::ChatError)
    } else {
        None
    }
}

/// The layer was closed, with what was being entered in it.
pub open spec fn closed(pre: App, layer: Layer, post: App) -> bool {
    match layer {
        Layer::Palette => {
            &&& post == (App { palette: post.palette, ..pre })
            &&& palette_emptied(post.palette, false)
        },
        Layer::Suggestions => {
            &&& post == (App {
                composer: Composer { suggestions: post.composer.suggestions, ..pre.composer },
                ..pre
            })
            &&& post.composer.suggestions@.len() == 0
        },
        Layer::Preview => post == (App { chat: Chat { preview_url: None, ..pre.chat }, ..pre }),
        Layer::ClearConfirm => post == (App {
            chat: Chat { clear_confirm: false, ..pre.chat },
            ..pre
        }),
        Layer::SharePicker => post == (App {
            share: Share { picker_open: false, ..pre.share },
            ..pre
        }),
        Layer::Edit => {
            &&& post == (App {
                composer: Composer {
                    editing_id: None,
                    input: post.composer.input,
                    suggestions: post.composer.suggestions,
                    ..pre.composer
                },
                ..pre
            })
            &&& post.composer.input@.len() == 0
            &&& post.composer.suggestions@.len() == 0
        },
        Layer::Reply => post == (App { composer: Composer { reply: None, ..pre.composer }, ..pre }),
        Layer::Attachment => post == (App {
            composer: Composer { attachment: None, ..pre.composer },
            ..pre
        }),
        Layer::NewGroup => post == (App {
            groups: Groups { open: false, status: None, ..pre.groups },
            ..pre
        }),
        Layer::NewChannel => {
            &&& post == (App {
                channels: Channels {
                    new_open: false,
                    new_name_input: post.channels.new_name_input,
                    ..pre.channels
                },
                ..pre
            })
            &&& post.channels.new_name_input@.len() == 0
        },
        Layer::Profile => post == (App {
            profile: ProfilePane { viewing: None, error: None },
            ..pre
        }),
        Layer::Settings => post == (App {
            settings: Settings { open: false, ..pre.settings },
            ..pre
        }),
        Layer::ServerSettings => post == (App {
            servers: Servers { settings_open: false, confirm_delete: false, ..pre.servers },
            ..pre
        }),
        Layer::Toast => post == (App { toast: None, ..pre }),
        Layer::Filters => {
            &&& post == (App {
                window: WindowState {
                    chat_filter_input: post.window.chat_filter_input,
                    ..pre.window
                },
                social: Social {
                    friends_filter_input: post.social.friends_filter_input,
                    ..pre.social
                },
                ..pre
            })
            &&& post.window.chat_filter_input@.len() == 0
            &&& post.social.friends_filter_input@.len() == 0
        },
        Layer::ChatError => post == (App { chat: Chat { error: None, ..pre.chat }, ..pre }),
    }
}

/// What Escape does.
pub open spec fn escape_step(pre: App, post: App) -> bool {
    match top_layer(pre) {
        Some(layer) => closed(pre, layer, post),
        None => post == pre,
    }
}

/// Escape closes the topmost layer and no other.
pub proof fn escape_closes_one_layer(pre: App, post: App)
    requires
        escape_step(pre, post),
    ensures
        forall|l: Layer|
            #[trigger] shows(post, l) <==> shows(pre, l) && top_layer(pre) != Some(l),
{
}

impl App {
    fn top_layer(&self) -> (r: Option<Layer>)
        ensures
            r == top_layer(*self),
    {
        if self.palette.open {
            Some(Layer::Palette)
        } else if self.composer.suggestions.len() > 0 {
            Some(Layer::Suggestions)
        } else if self.chat.preview_url.is_some() {
            Some(Layer::Preview)
        } else if self.chat.clear_confirm {
            Some(Layer::ClearConfirm)
        } else if self.share.picker_open {
            Some(Layer::SharePicker)
        } else if self.composer.editing_id.is_some() {
            Some(Layer::Edit)
        } else if self.composer.reply.is_some() {
            Some(Layer::Reply)
        } else if self.composer.attachment.is_some() {
            Some(Layer::Attachment)
        } else if self.groups.open {
            Some(Layer::NewGroup)
        } else if self.channels.new_open {
            Some(Layer::NewChannel)
        } else if self.profile.viewing.is_some() || self.profile.error.is_some() {
            Some(Layer::Profile)
        } else if self.settings.open {
            Some(Layer::Settings)
        } else if self.servers.settings_open {
            Some(Layer::ServerSettings)
        } else if self.toast.is_some() {
            Some(Layer::Toast)
        } else if !self.window.chat_filter_input.as_str().is_empty()
            || !self.social.friends_filter_input.as_str().is_empty() {
            Some(Layer::Filters)
        } else if self.chat.error.is_some() {
            Some(Layer::ChatError)
        } else {
            None
        }
    }

    fn close_palette(&mut self)
        ensures
            closed(*old(self), Layer::Palette, *final(self)),
    {
        self.empty_palette(false);
    }

    fn close_suggestions(&mut self)
        ensures
            closed(*old(self), Layer::Suggestions, *final(self)),
    {
        self.composer.suggestions = Vec::new();
    }

    fn close_preview(&mut self)
        ensures
            closed(*old(self), Layer::Preview, *final(self)),
    {
        self.chat.preview_url = None;
    }

    fn close_clear_confirm(&mut self)
        ensures
            closed(*old(self), Layer::ClearConfirm, *final(self)),
    {
        self.chat.clear_confirm = false;
    }

    fn close_share_picker(&mut self)
        ensures
            closed(*old(self), Layer::SharePicker, *final(self)),
    {
        self.share.picker_open = false;
    }

    fn close_edit(&mut self)
        ensures
            closed(*old(self), Layer::Edit, *final(self)),
    {
        self.composer.editing_id = None;
        self.composer.input = String::new();
        self.composer.suggestions = Vec::new();
    }

    fn close_reply(&mut self)
        ensures
            closed(*old(self), Layer::Reply, *final(self)),
    {
        self.composer.reply = None;
    }

    fn close_attachment(&mut self)
        ensures
            closed(*old(self), Layer::Attachment, *final(self)),
    {
        self.composer.attachment = None;
    }

    fn close_new_group(&mut self)
        ensures
            closed(*old(self), Layer::NewGroup, *final(self)),
    {
        self.groups.open = false;
        self.groups.status = None;
    }

    fn close_new_channel(&mut self)
        ensures
            closed(*old(self), Layer::NewChannel, *final(self)),
    {
        self.channels.new_open = false;
        self.channels.new_name_input = String::new();
    }

    fn close_profile_card(&mut self)
        ensures
            closed(*old(self), Layer::Profile, *final(self)),
    {
        self.profile.viewing = None;
        self.profile.error = None;
    }

    fn close_settings_screen(&mut self)
        ensures
            closed(*old(self), Layer::Settings, *final(self)),
    {
        self.settings.open = false;
    }

    fn close_server_settings(&mut self)
        ensures
            closed(*old(self), Layer::ServerSettings, *final(self)),
    {
        self.servers.settings_open = false;
        self.servers.confirm_delete = false;
    }

    fn close_toast(&mut self)
        ensures
            closed(*old(self), Layer::Toast, *final(self)),
    {
        self.toast = None;
    }

    fn close_filters(&mut self)
        ensures
            closed(*old(self), Layer::Filters, *final(self)),
    {
        self.window.chat_filter_input = String::new();
        self.social.friends_filter_input = String::new();
    }

    fn close_chat_error(&mut self)
        ensures
            closed(*old(self), Layer::ChatError, *final(self)),
    {
        self.chat.error = None;
    }

    fn close_layer(&mut self, layer: Layer)
        ensures
            closed(*old(self), layer, *final(self)),
    {
        match layer {
            Layer::Palette => self.close_palette(),
            Layer::Suggestions => self.close_suggestions(),
            Layer::Preview => self.close_preview(),
            Layer::ClearConfirm => self.close_clear_confirm(),
            Layer::SharePicker => self.close_share_picker(),
            Layer::Edit => self.close_edit(),
            Layer::Reply => self.close_reply(),
            Layer::Attachment => self.close_attachment(),
            Layer::NewGroup => self.close_new_group(),
            Layer::NewChannel => self.close_new_channel(),
            Layer::Profile => self.close_profile_card(),
            Layer::Settings => self.close_settings_screen(),
            Layer::ServerSettings => self.close_server_settings(),
            Layer::Toast => self.close_toast(),
            Layer::Filters => self.close_filters(),
            Layer::ChatError => self.close_chat_error(),
        }
    }
}

// ---------- The messages ----------

/// The toast has been on screen long enough.
pub open spec fn toast_over(toast: Option<(String, u64)>, now: Now) -> bool {
    match toast {
        Some((_, since)) => now.tick_ms >= since + TOAST_MS,
        None => false,
    }
}

/// What a message about the window does.
pub open spec fn window_step(pre: App, m: WindowMessage, now: Now, post: App, fx: Seq<EffectView>) -> bool {
    match m {
        WindowMessage::CheckForUpdate => check_step(pre, post, fx),
        WindowMessage::UpdateCheckFinished(outcome) => checked_step(pre, outcome, now, post, fx),
        WindowMessage::RestartAndUpdate => {
            &&& post == if pre.window.pending_update_path is Some {
                App {
                    window: WindowState { pending_action: Some(WindowAction::Exit), ..pre.window },
                    ..pre
                }
            } else {
                pre
            }
            &&& fx == swap_in(pre, true)
        },
        WindowMessage::MeasurePing => {
            &&& post == (App {
                window: WindowState { ping_status: post.window.ping_status, ..pre.window },
                ..pre
            })
            &&& if pre.token() is Some {
                text_is(post.window.ping_status, "Measuring..."@)
            } else {
                post == pre
            }
            &&& fx == mutation(pre, "presence:heartbeat"@, seq![], Reply::PingMeasured)
        },
        WindowMessage::PingMeasured(ms) => {
            &&& post == (App {
                window: WindowState { ping_status: post.window.ping_status, ..pre.window },
                ..pre
            })
            &&& text_is(
                post.window.ping_status,
                match ms {
                    Some(n) => digits(n as nat) + "ms"@,
                    None => "Ping failed"@,
                },
            )
            &&& fx.len() == 0
        },
        WindowMessage::WindowCloseRequested => close_step(pre, post, fx),
        WindowMessage::TrayEvent(ev) => tray_step(pre, ev, now, post, fx),
        WindowMessage::WindowFocusChanged(focused) => window_is(
            pre,
            WindowState { window_focused: focused, ..pre.window },
            post,
            fx,
        ),
        WindowMessage::ClearToast => post == (App { toast: None, ..pre }) && fx.len() == 0,
        WindowMessage::Tick => {
            &&& post == if toast_over(pre.toast, now) {
                App { toast: None, ..pre }
            } else {
                pre
            }
            &&& fx == mutation(pre, "presence:heartbeat"@, seq![], Reply::HeartbeatFinished)
        },
        WindowMessage::HeartbeatFinished => post == pre && fx.len() == 0,
        WindowMessage::SidebarTabChanged(tab) => tab_step(pre, tab, post, fx),
        WindowMessage::ChatFilterChanged(value) => window_is(
            pre,
            WindowState { chat_filter_input: value, ..pre.window },
            post,
            fx,
        ),
        WindowMessage::ToggleMembersPanel => window_is(
            pre,
            WindowState { members_panel_open: !pre.window.members_panel_open, ..pre.window },
            post,
            fx,
        ),
        WindowMessage::EscapePressed => escape_step(pre, post) && fx.len() == 0,
    }
}

impl App {
    fn tick(&mut self, now: Now) -> (fx: Vec<Effect>)
        ensures
            window_step(*old(self), WindowMessage::Tick, now, *final(self), views(fx@)),
    {
        let fx = self.ask0(CallKind::Mutation, "presence:heartbeat", Reply::HeartbeatFinished);
        let over = match &self.toast {
            Some(t) => now.tick_ms >= t.1 && now.tick_ms - t.1 >= TOAST_MS,
            None => false,
        };
        if over {
            self.toast = None;
        }
        fx
    }

    fn measure_ping(&mut self) -> (fx: Vec<Effect>)
        ensures
            window_step(
                *old(self),
                WindowMessage::MeasurePing,
                Now { tick_ms: 0, unix_ms: 0 },
                *final(self),
                views(fx@),
            ),
    {
        let fx = self.ask0(CallKind::Mutation, "presence:heartbeat", Reply::PingMeasured);
        if self.online_token().is_some() {
            self.window.ping_status = Some(owned("Measuring..."));
        }
        fx
    }

    /// Handles a message about the window.
    #[verifier::rlimit(40)]
    pub fn update_window(&mut self, m: WindowMessage, now: Now) -> (fx: Vec<Effect>)
        ensures
            window_step(*old(self), m, now, *final(self), views(fx@)),
    {
        match m {
            WindowMessage::CheckForUpdate => self.check_for_update(),
            WindowMessage::UpdateCheckFinished(outcome) => self.update_checked(outcome, now),
            WindowMessage::RestartAndUpdate => {
                let fx = self.swap_in(true);
                if self.window.pending_update_path.is_some() {
                    self.window.pending_action = Some(WindowAction::Exit);
                }
                fx
            },
            WindowMessage::MeasurePing => self.measure_ping(),
            WindowMessage::PingMeasured(ms) => {
                self.window.ping_status = match ms {
                    Some(n) => Some(cat2(&decimal(n), "ms")),
                    None => Some(owned("Ping failed")),
                };
                nothing()
            },
            WindowMessage::WindowCloseRequested => self.close_requested(),
            WindowMessage::TrayEvent(ev) => self.tray_event(ev, now),
            WindowMessage::WindowFocusChanged(focused) => {
                self.window.window_focused = focused;
                nothing()
            },
            WindowMessage::ClearToast => {
                self.toast = None;
                nothing()
            },
            WindowMessage::Tick => self.tick(now),
            WindowMessage::HeartbeatFinished => nothing(),
            WindowMessage::SidebarTabChanged(tab) => self.sidebar_tab_changed(tab),
            WindowMessage::ChatFilterChanged(value) => {
                self.window.chat_filter_input = value;
                nothing()
            },
            WindowMessage::ToggleMembersPanel => {
                self.window.members_panel_open = !self.window.members_panel_open;
                nothing()
            },
            WindowMessage::EscapePressed => {
                match self.top_layer() {
                    Some(layer) => {
                        self.close_layer(layer);
                    },
                    None => {},
                }
                nothing()
            },
        }
    }
}

} // verus!
