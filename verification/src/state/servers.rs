//! Servers and the settings of the selected one.

use crate::state::app::{
    make_call, request, session_call, toasts, App, Channels, Now, Roles,
    Servers, WindowState,
};
use crate::state::effect::{
    args_view, nothing, one, views, Arg, ArgView, CallKind, Effect, EffectView, PickPurpose, Reply,
    Upload,
};
use crate::state::invites::{build_invite_link, extract_invite_code, invite_code, invite_link};
use crate::state::keyed::{find, position, row};
use crate::state::message::{Message, ServerMessage};
use crate::state::social::fetch_pictures;
use crate::state::types::{ImagePick, ServerSettingsCategory, ServerSummary, SidebarTab};
use crate::text::{cat2, is_text, owned, same, text_is, trim, trimmed};
use vstd::prelude::*;

verus! {

// ---------- Small pieces ----------

/// A request about the selected server; nothing where none is selected.
pub open spec fn server_request(
    app: App,
    kind: CallKind,
    function: Seq<char>,
    extra: Seq<(Seq<char>, ArgView)>,
    reply: Reply,
) -> Seq<EffectView> {
    match app.servers.selected {
        Some(s) => request(
            app,
            kind,
            function,
            seq![("serverId"@, ArgView::Str(s.server_id@))] + extra,
            reply,
        ),
        None => Seq::empty(),
    }
}

/// A mutation about the selected server; see [`server_request`].
pub open spec fn server_mutation(
    app: App,
    function: Seq<char>,
    extra: Seq<(Seq<char>, ArgView)>,
    reply: Reply,
) -> Seq<EffectView> {
    server_request(app, CallKind::Mutation, function, extra, reply)
}

/// Requests about the selected server can be made.
pub open spec fn server_ready(app: App) -> bool {
    app.token() is Some && app.servers.selected is Some
}

/// We own the selected server.
pub open spec fn owns_selected(app: App) -> bool {
    match app.servers.selected {
        Some(s) => s.is_owner,
        None => false,
    }
}

/// Only the status line of the servers changed, and it shows `text`.
pub open spec fn server_says(pre: App, text: Seq<char>, post: App, fx: Seq<EffectView>) -> bool {
    &&& post == (App { servers: Servers { status: post.servers.status, ..pre.servers }, ..pre })
    &&& text_is(post.servers.status, text)
    &&& fx.len() == 0
}

/// Only the servers pane changed, to `servers`.
pub open spec fn servers_are(pre: App, servers: Servers, post: App, fx: Seq<EffectView>) -> bool {
    post == (App { servers, ..pre }) && fx.len() == 0
}

impl App {
    /// [`server_request`], computed.
    pub fn ask_server(
        &self,
        kind: CallKind,
        function: &'static str,
        extra: Vec<(&'static str, Arg)>,
        reply: Reply,
    ) -> (fx: Vec<Effect>)
        ensures
            views(fx@) == server_request(*self, kind, function@, args_view(extra@), reply),
    {
        match &self.servers.selected {
            Some(s) => {
                let mut args: Vec<(&'static str, Arg)> = Vec::new();
                args.push(("serverId", Arg::Str(s.server_id.clone())));
                let mut extra = extra;
                let ghost tail = extra@;
                args.append(&mut extra);
                assert(args_view(args@) =~= seq![("serverId"@, ArgView::Str(s.server_id@))]
                    + args_view(tail));
                self.ask(kind, function, args, reply)
            },
            None => nothing(),
        }
    }

    /// A mutation about the selected server and nothing else.
    pub fn ask_server0(&self, function: &'static str, reply: Reply) -> (fx: Vec<Effect>)
        ensures
            views(fx@) == server_mutation(*self, function@, seq![], reply),
    {
        let extra: Vec<(&'static str, Arg)> = Vec::new();
        assert(args_view(extra@) =~= seq![]);
        self.ask_server(CallKind::Mutation, function, extra, reply)
    }

    /// A mutation about the selected server with one more argument.
    pub fn ask_server1(
        &self,
        function: &'static str,
        key: &'static str,
        a: Arg,
        reply: Reply,
    ) -> (fx: Vec<Effect>)
        ensures
            views(fx@) == server_mutation(*self, function@, seq![(key@, a@)], reply),
    {
        let extra = vec![(key, a)];
        assert(args_view(extra@) =~= seq![(key@, a@)]);
        self.ask_server(CallKind::Mutation, function, extra, reply)
    }

    fn server_ready(&self) -> (r: bool)
        ensures
            r == server_ready(*self),
    {
        self.online_token().is_some() && self.servers.selected.is_some()
    }

    fn owns_selected(&self) -> (r: bool)
        ensures
            r == owns_selected(*self),
    {
        match &self.servers.selected {
            Some(s) => s.is_owner,
            None => false,
        }
    }

    fn server_say(&mut self, text: &str) -> (fx: Vec<Effect>)
        ensures
            server_says(*old(self), text@, *final(self), views(fx@)),
    {
        self.servers.status = Some(owned(text));
        nothing()
    }
}

// ---------- The list ----------

/// A fresh list of servers arrived: the selected one is taken from it, or is
/// gone. Text that is being typed in its settings stays.
pub open spec fn servers_arrived(pre: App, list: Vec<ServerSummary>, post: App, fx: Seq<EffectView>) -> bool {
    &&& fx == fetch_pictures(pre, list@)
    &&& match pre.servers.selected {
        None => post == (App { servers: Servers { list, ..pre.servers }, ..pre }),
        Some(sel) => match row(list@, sel.server_id@) {
            Some(fresh) => {
                &&& post == (App {
                    servers: Servers {
                        list,
                        selected: Some(fresh),
                        custom_slug_input: if pre.servers.settings_open {
                            pre.servers.custom_slug_input
                        } else {
                            fresh.custom_slug
                        },
                        rename_input: if pre.servers.settings_open {
                            pre.servers.rename_input
                        } else {
                            fresh.name
                        },
                        ..pre.servers
                    },
                    ..pre
                })
            },
            None => {
                &&& post == (App {
                    servers: Servers {
                        list,
                        selected: None,
                        settings_open: false,
                        channels: post.servers.channels,
                        members: post.servers.members,
                        ..pre.servers
                    },
                    ..pre
                })
                &&& post.servers.channels@.len() == 0
                &&& post.servers.members@.len() == 0
            },
        },
    }
}

/// A server of the list is selected; its channels are not there yet.
pub open spec fn server_selected(pre: App, s: ServerSummary, post: App) -> bool {
    &&& post == (App {
        servers: Servers {
            add_menu_open: false,
            rename_input: s.name,
            custom_slug_input: s.custom_slug,
            selected: Some(s),
            channels: post.servers.channels,
            status: None,
            settings_open: false,
            settings_category: ServerSettingsCategory::Overview,
            confirm_delete: false,
            members: post.servers.members,
            ..pre.servers
        },
        channels: Channels {
            new_open: false,
            new_name_input: post.channels.new_name_input,
            renaming_id: None,
            rename_input: post.channels.rename_input,
            ..pre.channels
        },
        window: WindowState { sidebar_tab: SidebarTab::Servers, ..pre.window },
        ..pre
    })
    &&& post.servers.channels@.len() == 0
    &&& post.servers.members@.len() == 0
    &&& post.channels.new_name_input@.len() == 0
    &&& post.channels.rename_input@.len() == 0
}

/// No server is selected any more, and the chats are shown.
pub open spec fn server_left(pre: App, post: App) -> bool {
    &&& post == (App {
        servers: Servers {
            selected: None,
            channels: post.servers.channels,
            settings_open: false,
            confirm_delete: false,
            members: post.servers.members,
            ..pre.servers
        },
        channels: Channels {
            renaming_id: None,
            rename_input: post.channels.rename_input,
            ..pre.channels
        },
        window: WindowState { sidebar_tab: SidebarTab::Chats, ..pre.window },
        ..pre
    })
    &&& post.servers.channels@.len() == 0
    &&& post.servers.members@.len() == 0
    &&& post.channels.rename_input@.len() == 0
}

/// Back to the chats from wherever we are.
pub open spec fn gone_home(pre: App, post: App) -> bool {
    &&& post == (App {
        servers: Servers {
            selected: None,
            channels: post.servers.channels,
            members: post.servers.members,
            add_menu_open: false,
            settings_open: false,
            ..pre.servers
        },
        roles: Roles { list: post.roles.list, ..pre.roles },
        window: WindowState { sidebar_tab: SidebarTab::Chats, ..pre.window },
        ..pre
    })
    &&& post.servers.channels@.len() == 0
    &&& post.servers.members@.len() == 0
    &&& post.roles.list@.len() == 0
}

/// The selected server was deleted.
pub open spec fn server_deleted(pre: App, post: App) -> bool {
    &&& post == (App {
        servers: Servers {
            selected: None,
            channels: post.servers.channels,
            settings_open: false,
            confirm_delete: false,
            status: None,
            members: post.servers.members,
            ..pre.servers
        },
        ..pre
    })
    &&& post.servers.channels@.len() == 0
    &&& post.servers.members@.len() == 0
}

impl App {
    fn servers_updated(&mut self, list: Vec<ServerSummary>) -> (fx: Vec<Effect>)
        ensures
            servers_arrived(*old(self), list, *final(self), views(fx@)),
    {
        let fx = self.fetch_row_pictures(&list);
        let selected_id = match &self.servers.selected {
            Some(sel) => Some(sel.server_id.clone()),
            None => None,
        };
        match selected_id {
            Some(id) => match find(&list, &id) {
                Some(i) => {
                    let fresh = list[i].copy();
                    if !self.servers.settings_open {
                        self.servers.custom_slug_input = fresh.custom_slug.clone();
                        self.servers.rename_input = fresh.name.clone();
                    }
                    self.servers.selected = Some(fresh);
                },
                None => {
                    self.servers.selected = None;
                    self.servers.settings_open = false;
                    self.servers.channels = Vec::new();
                    self.servers.members = Vec::new();
                },
            },
            None => {},
        }
        self.servers.list = list;
        fx
    }

    fn select_server(&mut self, id: &str) -> (fx: Vec<Effect>)
        ensures
            views(fx@).len() == 0,
            match row(old(self).servers.list@, id@) {
                Some(s) => server_selected(*old(self), s, *final(self)),
                None => *final(self) == *old(self),
            },
    {
        match find(&self.servers.list, id) {
            Some(i) => {
                let server = self.servers.list[i].copy();
                self.servers.add_menu_open = false;
                self.servers.rename_input = server.name.clone();
                self.servers.custom_slug_input = server.custom_slug.clone();
                self.servers.selected = Some(server);
                self.servers.channels = Vec::new();
                self.channels.new_open = false;
                self.channels.new_name_input = String::new();
                self.servers.status = None;
                self.servers.settings_open = false;
                self.servers.settings_category = ServerSettingsCategory::Overview;
                self.servers.confirm_delete = false;
                self.servers.members = Vec::new();
                self.channels.renaming_id = None;
                self.channels.rename_input = String::new();
                self.window.sidebar_tab = SidebarTab::Servers;
            },
            None => {},
        }
        nothing()
    }

    fn back_to_server_list(&mut self) -> (fx: Vec<Effect>)
        ensures
            server_left(*old(self), *final(self)),
            views(fx@).len() == 0,
    {
        self.servers.selected = None;
        self.servers.channels = Vec::new();
        self.servers.settings_open = false;
        self.servers.confirm_delete = false;
        self.servers.members = Vec::new();
        self.channels.renaming_id = None;
        self.channels.rename_input = String::new();
        self.window.sidebar_tab = SidebarTab::Chats;
        nothing()
    }

    fn go_home(&mut self) -> (fx: Vec<Effect>)
        ensures
            gone_home(*old(self), *final(self)),
            views(fx@).len() == 0,
    {
        self.servers.selected = None;
        self.servers.channels = Vec::new();
        self.servers.members = Vec::new();
        self.roles.list = Vec::new();
        self.servers.add_menu_open = false;
        self.servers.settings_open = false;
        self.window.sidebar_tab = SidebarTab::Chats;
        nothing()
    }
}

// ---------- Making and joining ----------

/// What the "create server" button does.
pub open spec fn create_server(app: App) -> Seq<EffectView> {
    let name = trimmed(app.servers.new_name_input@);
    if name.len() == 0 {
        Seq::empty()
    } else {
        request(
            app,
            CallKind::Mutation,
            "servers:createServer"@,
            seq![("name"@, ArgView::Str(name))],
            Reply::CreateServerFinished,
        )
    }
}

/// What the "join server" button does.
pub open spec fn join_server(app: App) -> Seq<EffectView> {
    let code = invite_code(app.servers.join_code_input@);
    if code.len() == 0 {
        Seq::empty()
    } else {
        request(
            app,
            CallKind::Mutation,
            "servers:joinByInviteCode"@,
            seq![("inviteCode"@, ArgView::Str(code))],
            Reply::JoinServerFinished,
        )
    }
}

impl App {
    fn create_server(&self) -> (fx: Vec<Effect>)
        ensures
            views(fx@) == create_server(*self),
    {
        let name = trim(&self.servers.new_name_input);
        if name.as_str().is_empty() {
            return nothing();
        }
        self.ask1(
            CallKind::Mutation,
            "servers:createServer",
            "name",
            Arg::Str(name),
            Reply::CreateServerFinished,
        )
    }

    fn join_server(&self) -> (fx: Vec<Effect>)
        ensures
            views(fx@) == join_server(*self),
    {
        let code = extract_invite_code(&self.servers.join_code_input);
        if code.as_str().is_empty() {
            return nothing();
        }
        self.ask1(
            CallKind::Mutation,
            "servers:joinByInviteCode",
            "inviteCode",
            Arg::Str(code),
            Reply::JoinServerFinished,
        )
    }
}

// ---------- Icon, name and address ----------

/// The selected server and its row in the list show this icon.
pub open spec fn icon_set(pre: Servers, url: String, post: Servers) -> bool {
    match pre.selected {
        Some(s) => {
            &&& post == (Servers {
                selected: Some(ServerSummary { icon_url: url, ..s }),
                list: post.list,
                ..pre
            })
            &&& post.list@ == match position(pre.list@, s.server_id@) {
                Some(i) => pre.list@.update(i, ServerSummary { icon_url: url, ..pre.list@[i] }),
                None => pre.list@,
            }
        },
        None => post == pre,
    }
}

/// The selected server and its row in the list have this name.
pub open spec fn name_set(pre: Servers, name: String, post: Servers) -> bool {
    match pre.selected {
        Some(s) => {
            &&& post == (Servers {
                selected: Some(ServerSummary { name, ..s }),
                list: post.list,
                ..pre
            })
            &&& post.list@ == match position(pre.list@, s.server_id@) {
                Some(i) => pre.list@.update(i, ServerSummary { name, ..pre.list@[i] }),
                None => pre.list@,
            }
        },
        None => post == pre,
    }
}

impl Servers {
    fn set_icon(&mut self, url: String)
        ensures
            icon_set(*old(self), url, *final(self)),
    {
        match self.selected.take() {
            Some(s) => {
                let mut s = s;
                s.icon_url = url.clone();
                match find(&self.list, &s.server_id) {
                    Some(i) => {
                        self.list[i].icon_url = url;
                    },
                    None => {},
                }
                self.selected = Some(s);
            },
            None => {},
        }
    }

    fn set_name(&mut self, name: String)
        ensures
            name_set(*old(self), name, *final(self)),
    {
        match self.selected.take() {
            Some(s) => {
                let mut s = s;
                s.name = name.clone();
                match find(&self.list, &s.server_id) {
                    Some(i) => {
                        self.list[i].name = name;
                    },
                    None => {},
                }
                self.selected = Some(s);
            },
            None => {},
        }
    }
}

/// The upload of a new icon.
pub open spec fn icon_upload(
    token: Seq<char>,
    server_id: Seq<char>,
    bytes: Seq<u8>,
    content_type: Seq<char>,
) -> EffectView {
    EffectView::Upload {
        ask: session_call(
            token,
            CallKind::Mutation,
            "servers:generateIconUploadUrl"@,
            seq![("serverId"@, ArgView::Str(server_id))],
            Reply::ServerIconUploadFinished,
        ),
        bytes,
        content_type,
        send: session_call(
            token,
            CallKind::Mutation,
            "servers:setServerIcon"@,
            seq![("serverId"@, ArgView::Str(server_id))],
            Reply::ServerIconUploadFinished,
        ),
        storage_arg: "storageId"@,
        strict: true,
    }
}

/// A picture for the icon was picked.
pub open spec fn icon_picked(pre: App, pick: ImagePick, post: App, fx: Seq<EffectView>) -> bool {
    match pick {
        ImagePick::Cancelled => post == pre && fx.len() == 0,
        ImagePick::TooLarge => server_says(pre, "Icon must be under 2MB"@, post, fx),
        ImagePick::Ready(bytes, content_type) => match (pre.token(), pre.servers.selected) {
            (Some(t), Some(s)) => {
                &&& post == (App { servers: Servers { icon_busy: true, ..pre.servers }, ..pre })
                &&& fx == seq![icon_upload(t, s.server_id@, bytes@, content_type@)]
            },
            _ => post == pre && fx.len() == 0,
        },
    }
}

/// The new icon is stored: it is shown, and its picture fetched anew.
pub open spec fn icon_uploaded(pre: App, url: String, now: Now, post: App, fx: Seq<EffectView>) -> bool {
    &&& post == (App {
        servers: post.servers,
        toast: post.toast,
        images: if url@.len() == 0 {
            pre.images
        } else {
            post.images
        },
        ..pre
    })
    &&& icon_set(Servers { icon_busy: false, status: None, ..pre.servers }, url, post.servers)
    &&& toasts(post.toast, "Server icon updated"@, now)
    &&& url@.len() > 0 ==> post.images@ == pre.images@.remove(url@)
    &&& fx == if url@.len() == 0 {
        Seq::empty()
    } else {
        seq![EffectView::FetchImage { url: url@, key: None, nonce: None }]
    }
}

/// The icon is gone.
pub open spec fn icon_removed(pre: App, now: Now, post: App, fx: Seq<EffectView>) -> bool {
    &&& post == (App { servers: post.servers, toast: post.toast, ..pre })
    &&& exists|url: String|
        url@.len() == 0 && #[trigger] icon_set(
            Servers { icon_busy: false, status: None, ..pre.servers },
            url,
            post.servers,
        )
    &&& toasts(post.toast, "Server icon removed"@, now)
    &&& fx.len() == 0
}

/// The new name is stored.
pub open spec fn server_renamed(pre: App, now: Now, post: App, fx: Seq<EffectView>) -> bool {
    &&& post == (App { servers: post.servers, toast: post.toast, ..pre })
    &&& exists|name: String|
        name@ == trimmed(pre.servers.rename_input@) && #[trigger] name_set(
            Servers { status: None, ..pre.servers },
            name,
            post.servers,
        )
    &&& toasts(post.toast, "Server name updated"@, now)
    &&& fx.len() == 0
}

/// The selected server, changed.
pub open spec fn reselected(pre: App, selected: Option<ServerSummary>) -> App {
    App { servers: Servers { selected, ..pre.servers }, ..pre }
}

/// The server's own address is stored, or gone.
pub open spec fn slug_set(pre: App, slug: String, now: Now, post: App, fx: Seq<EffectView>) -> bool {
    &&& post == (App {
        servers: Servers {
            selected: match pre.servers.selected {
                Some(s) => Some(ServerSummary { custom_slug: slug, ..s }),
                None => None,
            },
            custom_slug_input: slug,
            ..pre.servers
        },
        toast: post.toast,
        ..pre
    })
    &&& toasts(
        post.toast,
        if slug@.len() == 0 {
            "Custom URL cleared"@
        } else {
            "URL set: /"@ + slug@
        },
        now,
    )
    &&& fx.len() == 0
}

impl App {
    fn pick_server_icon(&mut self) -> (fx: Vec<Effect>)
        ensures
            server_step(
                *old(self),
                ServerMessage::PickServerIcon,
                Now { tick_ms: 0, unix_ms: 0 },
                *final(self),
                views(fx@),
            ),
    {
        if self.servers.icon_busy {
            return nothing();
        }
        if !self.owns_selected() {
            return self.server_say("Only the server owner can change the icon");
        }
        one(Effect::PickImage(PickPurpose::ServerIcon))
    }

    fn server_icon_picked(&mut self, pick: ImagePick) -> (fx: Vec<Effect>)
        ensures
            icon_picked(*old(self), pick, *final(self), views(fx@)),
    {
        match pick {
            ImagePick::Cancelled => nothing(),
            ImagePick::TooLarge => self.server_say("Icon must be under 2MB"),
            ImagePick::Ready(bytes, content_type) => {
                let token = match self.online_token() {
                    Some(t) => t,
                    None => {
                        return nothing();
                    },
                };
                let id = match &self.servers.selected {
                    Some(s) => s.server_id.clone(),
                    None => {
                        return nothing();
                    },
                };
                self.servers.icon_busy = true;
                let first = vec![("serverId", Arg::Str(id.clone()))];
                let second = vec![("serverId", Arg::Str(id))];
                assert(args_view(first@) =~= seq![("serverId"@, ArgView::Str(id@))]);
                assert(args_view(second@) =~= seq![("serverId"@, ArgView::Str(id@))]);
                one(
                    Effect::Upload(
                        Upload {
                            ask: make_call(
                                token.clone(),
                                CallKind::Mutation,
                                "servers:generateIconUploadUrl",
                                first,
                                Reply::ServerIconUploadFinished,
                            ),
                            bytes,
                            content_type,
                            send: make_call(
                                token,
                                CallKind::Mutation,
                                "servers:setServerIcon",
                                second,
                                Reply::ServerIconUploadFinished,
                            ),
                            storage_arg: "storageId",
                            strict: true,
                        },
                    ),
                )
            },
        }
    }

    fn server_icon_uploaded(&mut self, url: String, now: Now) -> (fx: Vec<Effect>)
        ensures
            icon_uploaded(*old(self), url, now, *final(self), views(fx@)),
    {
        self.servers.icon_busy = false;
        self.servers.status = None;
        self.servers.set_icon(url.clone());
        self.show_toast("Server icon updated", now);
        if url.as_str().is_empty() {
            return nothing();
        }
        let _ = self.images.take(&url);
        one(Effect::FetchImage { url, key: None, nonce: None })
    }

    fn remove_server_icon(&mut self) -> (fx: Vec<Effect>)
        ensures
            server_step(
                *old(self),
                ServerMessage::RemoveServerIcon,
                Now { tick_ms: 0, unix_ms: 0 },
                *final(self),
                views(fx@),
            ),
    {
        if !self.server_ready() {
            return nothing();
        }
        if !self.owns_selected() {
            return self.server_say("Only the server owner can change the icon");
        }
        let fx = self.ask_server0("servers:removeServerIcon", Reply::ServerIconRemoveFinished);
        self.servers.icon_busy = true;
        fx
    }

    fn server_icon_removed(&mut self, now: Now) -> (fx: Vec<Effect>)
        ensures
            icon_removed(*old(self), now, *final(self), views(fx@)),
    {
        self.servers.icon_busy = false;
        self.servers.status = None;
        self.servers.set_icon(String::new());
        self.show_toast("Server icon removed", now);
        nothing()
    }

    fn server_slug_set(&mut self, slug: String, now: Now) -> (fx: Vec<Effect>)
        ensures
            slug_set(*old(self), slug, now, *final(self), views(fx@)),
    {
        match self.servers.selected.take() {
            Some(s) => {
                let mut s = s;
                s.custom_slug = slug.clone();
                self.servers.selected = Some(s);
            },
            None => {},
        }
        if slug.as_str().is_empty() {
            self.show_toast("Custom URL cleared", now);
        } else {
            self.show_toast(&cat2("URL set: /", &slug), now);
        }
        self.servers.custom_slug_input = slug;
        nothing()
    }

    fn rename_server(&mut self) -> (fx: Vec<Effect>)
        ensures
            server_step(
                *old(self),
                ServerMessage::RenameServer,
                Now { tick_ms: 0, unix_ms: 0 },
                *final(self),
                views(fx@),
            ),
    {
        if !self.server_ready() {
            return nothing();
        }
        if !self.owns_selected() {
            return self.server_say("Only the server owner can rename the server");
        }
        let name = trim(&self.servers.rename_input);
        if name.as_str().is_empty() {
            return self.server_say("Enter a server name");
        }
        self.ask_server1(
            "servers:renameServer",
            "name",
            Arg::Str(name),
            Reply::RenameServerFinished,
        )
    }

    fn server_was_renamed(&mut self, now: Now) -> (fx: Vec<Effect>)
        ensures
            server_renamed(*old(self), now, *final(self), views(fx@)),
    {
        self.servers.status = None;
        let name = trim(&self.servers.rename_input);
        self.servers.set_name(name);
        self.show_toast("Server name updated", now);
        nothing()
    }
}

// ---------- Description, owner and defaults ----------

/// The settings of the selected server open with its texts, or close.
pub open spec fn settings_toggled(pre: App, post: App, fx: Seq<EffectView>) -> bool {
    let opening = !pre.servers.settings_open;
    &&& post == (App {
        servers: Servers {
            settings_open: opening,
            settings_category: ServerSettingsCategory::Overview,
            confirm_delete: false,
            confirm_transfer_owner_id: None,
            status: None,
            stats: None,
            rename_input: match pre.servers.selected {
                Some(s) => if opening {
                    s.name
                } else {
                    pre.servers.rename_input
                },
                None => pre.servers.rename_input,
            },
            custom_slug_input: match pre.servers.selected {
                Some(s) => if opening {
                    s.custom_slug
                } else {
                    pre.servers.custom_slug_input
                },
                None => pre.servers.custom_slug_input,
            },
            description_input: match pre.servers.selected {
                Some(s) => if opening {
                    s.description
                } else {
                    pre.servers.description_input
                },
                None => pre.servers.description_input,
            },
            ..pre.servers
        },
        channels: Channels {
            renaming_id: None,
            rename_input: post.channels.rename_input,
            new_open: !opening && pre.channels.new_open,
            new_name_input: if opening {
                post.channels.new_name_input
            } else {
                pre.channels.new_name_input
            },
            new_is_voice: !opening && pre.channels.new_is_voice,
            ..pre.channels
        },
        ..pre
    })
    &&& post.channels.rename_input@.len() == 0
    &&& opening ==> post.channels.new_name_input@.len() == 0
    &&& fx == if opening {
        seq![EffectView::Dispatch(Message::Server(ServerMessage::LoadServerStats))]
    } else {
        Seq::empty()
    }
}

/// The new description is stored.
pub open spec fn description_set(pre: App, now: Now, post: App, fx: Seq<EffectView>) -> bool {
    &&& post == (App {
        servers: Servers { selected: post.servers.selected, status: None, ..pre.servers },
        toast: post.toast,
        ..pre
    })
    &&& match pre.servers.selected {
        Some(s) => post.servers.selected == Some(
            ServerSummary { description: post.servers.selected->0.description, ..s },
        ) && post.servers.selected->0.description@ == trimmed(pre.servers.description_input@),
        None => post.servers.selected is None,
    }
    &&& toasts(post.toast, "Description updated"@, now)
    &&& fx.len() == 0
}

/// A welcome channel is chosen; choosing the same one again chooses none.
pub open spec fn welcome_step(pre: App, channel_id: Seq<char>, post: App, fx: Seq<EffectView>) -> bool {
    if !server_ready(pre) || !owns_selected(pre) {
        post == pre && fx.len() == 0
    } else {
        let s = pre.servers.selected->0;
        let next = if s.welcome_channel_id@ == channel_id {
            Seq::empty()
        } else {
            channel_id
        };
        &&& post == reselected(pre, post.servers.selected)
        &&& post.servers.selected == Some(
            ServerSummary { welcome_channel_id: post.servers.selected->0.welcome_channel_id, ..s },
        )
        &&& post.servers.selected->0.welcome_channel_id@ == next
        &&& fx == server_mutation(
            pre,
            "servers:setWelcomeChannel"@,
            seq![("channelId"@, ArgView::Str(next))],
            Reply::SetWelcomeChannelFinished,
        )
    }
}

/// Invites are paused or resumed.
pub open spec fn pause_step(pre: App, post: App, fx: Seq<EffectView>) -> bool {
    if !server_ready(pre) || !owns_selected(pre) {
        post == pre && fx.len() == 0
    } else {
        let s = pre.servers.selected->0;
        &&& post == reselected(
            pre,
            Some(ServerSummary { invites_paused: !s.invites_paused, ..s }),
        )
        &&& fx == server_mutation(
            pre,
            "servers:setInvitesPaused"@,
            seq![("paused"@, ArgView::Bool(!s.invites_paused))],
            Reply::SetInvitesPausedFinished,
        )
    }
}

impl App {
    fn toggle_server_settings(&mut self) -> (fx: Vec<Effect>)
        ensures
            settings_toggled(*old(self), *final(self), views(fx@)),
    {
        let opening = !self.servers.settings_open;
        self.servers.settings_open = opening;
        self.servers.settings_category = ServerSettingsCategory::Overview;
        self.servers.confirm_delete = false;
        self.servers.confirm_transfer_owner_id = None;
        self.channels.renaming_id = None;
        self.channels.rename_input = String::new();
        self.servers.status = None;
        self.servers.stats = None;
        if opening {
            match &self.servers.selected {
                Some(s) => {
                    self.servers.rename_input = s.name.clone();
                    self.servers.custom_slug_input = s.custom_slug.clone();
                    self.servers.description_input = s.description.clone();
                },
                None => {},
            }
            self.channels.new_open = false;
            self.channels.new_name_input = String::new();
            self.channels.new_is_voice = false;
            return one(Effect::Dispatch(Message::Server(ServerMessage::LoadServerStats)));
        }
        nothing()
    }

    fn save_description(&mut self) -> (fx: Vec<Effect>)
        ensures
            server_step(
                *old(self),
                ServerMessage::SaveServerDescription,
                Now { tick_ms: 0, unix_ms: 0 },
                *final(self),
                views(fx@),
            ),
    {
        if !self.server_ready() {
            return nothing();
        }
        if !self.owns_selected() {
            return self.server_say("Only the server owner can edit the description");
        }
        self.ask_server1(
            "servers:setServerDescription",
            "description",
            Arg::Str(trim(&self.servers.description_input)),
            Reply::SaveServerDescriptionFinished,
        )
    }

    fn description_saved(&mut self, now: Now) -> (fx: Vec<Effect>)
        ensures
            description_set(*old(self), now, *final(self), views(fx@)),
    {
        let text = trim(&self.servers.description_input);
        match self.servers.selected.take() {
            Some(s) => {
                let mut s = s;
                s.description = text;
                self.servers.selected = Some(s);
            },
            None => {},
        }
        self.servers.status = None;
        self.show_toast("Description updated", now);
        nothing()
    }

    fn transfer_ownership(&mut self, user_id: String) -> (fx: Vec<Effect>)
        ensures
            server_step(
                *old(self),
                ServerMessage::TransferOwnership(user_id),
                Now { tick_ms: 0, unix_ms: 0 },
                *final(self),
                views(fx@),
            ),
    {
        if !self.server_ready() {
            return nothing();
        }
        if !self.owns_selected() {
            return self.server_say("Only the owner can transfer the server");
        }
        let fx = self.ask_server1(
            "servers:transferOwnership",
            "newOwnerId",
            Arg::Str(user_id),
            Reply::TransferOwnershipFinished,
        );
        self.servers.confirm_transfer_owner_id = None;
        fx
    }

    fn ownership_transferred(&mut self, now: Now) -> (fx: Vec<Effect>)
        ensures
            server_step(
                *old(self),
                ServerMessage::TransferOwnershipFinished(Ok(())),
                now,
                *final(self),
                views(fx@),
            ),
    {
        match self.servers.selected.take() {
            Some(s) => {
                let mut s = s;
                s.is_owner = false;
                self.servers.selected = Some(s);
            },
            None => {},
        }
        self.servers.status = None;
        self.show_toast("Ownership transferred", now);
        nothing()
    }

    fn set_welcome_channel(&mut self, channel_id: String) -> (fx: Vec<Effect>)
        ensures
            welcome_step(*old(self), channel_id@, *final(self), views(fx@)),
    {
        if !self.server_ready() || !self.owns_selected() {
            return nothing();
        }
        let same_one = match &self.servers.selected {
            Some(s) => same(&s.welcome_channel_id, &channel_id),
            None => false,
        };
        let next = if same_one {
            String::new()
        } else {
            channel_id
        };
        assert(same_one ==> next@ =~= Seq::empty());
        let fx = self.ask_server1(
            "servers:setWelcomeChannel",
            "channelId",
            Arg::Str(next.clone()),
            Reply::SetWelcomeChannelFinished,
        );
        match self.servers.selected.take() {
            Some(s) => {
                let mut s = s;
                s.welcome_channel_id = next;
                self.servers.selected = Some(s);
            },
            None => {},
        }
        fx
    }

    fn toggle_invites_paused(&mut self) -> (fx: Vec<Effect>)
        ensures
            pause_step(*old(self), *final(self), views(fx@)),
    {
        if !self.server_ready() || !self.owns_selected() {
            return nothing();
        }
        let paused = match &self.servers.selected {
            Some(s) => !s.invites_paused,
            None => false,
        };
        let fx = self.ask_server1(
            "servers:setInvitesPaused",
            "paused",
            Arg::Bool(paused),
            Reply::SetInvitesPausedFinished,
        );
        match self.servers.selected.take() {
            Some(s) => {
                let mut s = s;
                s.invites_paused = paused;
                self.servers.selected = Some(s);
            },
            None => {},
        }
        fx
    }

    fn load_server_stats(&self) -> (fx: Vec<Effect>)
        ensures
            views(fx@) == server_request(
                *self,
                CallKind::Query,
                "servers:serverStats"@,
                seq![],
                Reply::ServerStatsUpdated,
            ),
    {
        let extra: Vec<(&'static str, Arg)> = Vec::new();
        assert(args_view(extra@) =~= seq![]);
        self.ask_server(CallKind::Query, "servers:serverStats", extra, Reply::ServerStatsUpdated)
    }
}

// ---------- The messages ----------

/// The outcome of a server request that only shows where it is an error.
pub open spec fn server_outcome(pre: App, r: Result<(), String>, post: App, fx: Seq<EffectView>) -> bool {
    servers_are(pre, Servers { status: r.err(), ..pre.servers }, post, fx)
}

/// A server was made or joined: the form for it is closed.
pub open spec fn server_added(pre: App, servers: Servers, text: Seq<char>, now: Now, post: App) -> bool {
    &&& post == (App {
        servers: Servers { status: None, add_menu_open: false, ..servers },
        toast: post.toast,
        ..pre
    })
    &&& toasts(post.toast, text, now)
}

/// What a message about servers does.
pub open spec fn server_step(pre: App, m: ServerMessage, now: Now, post: App, fx: Seq<EffectView>) -> bool {
    match m {
        ServerMessage::ServersUpdated(list) => servers_arrived(pre, list, post, fx),
        ServerMessage::NewServerNameChanged(value) => servers_are(
            pre,
            Servers { new_name_input: value, ..pre.servers },
            post,
            fx,
        ),
        ServerMessage::CreateServer => post == pre && fx == create_server(pre),
        ServerMessage::CreateServerFinished(Ok(())) => {
            &&& server_added(
                pre,
                Servers { new_name_input: post.servers.new_name_input, ..pre.servers },
                "Server created"@,
                now,
                post,
            )
            &&& post.servers.new_name_input@.len() == 0
            &&& fx.len() == 0
        },
        ServerMessage::JoinServerCodeChanged(value) => servers_are(
            pre,
            Servers { join_code_input: value, ..pre.servers },
            post,
            fx,
        ),
        ServerMessage::JoinServer => post == pre && fx == join_server(pre),
        ServerMessage::JoinServerFinished(Ok(())) => {
            &&& server_added(
                pre,
                Servers { join_code_input: post.servers.join_code_input, ..pre.servers },
                "Joined server"@,
                now,
                post,
            )
            &&& post.servers.join_code_input@.len() == 0
            &&& fx.len() == 0
        },
        ServerMessage::CreateServerFinished(Err(err)) | ServerMessage::JoinServerFinished(Err(err))
        | ServerMessage::CustomSlugFinished(Err(err)) | ServerMessage::RenameServerFinished(
            Err(err),
        ) | ServerMessage::RegenerateInviteCodeFinished(Err(err))
        | ServerMessage::SaveServerDescriptionFinished(Err(err))
        | ServerMessage::TransferOwnershipFinished(Err(err)) => servers_are(
            pre,
            Servers { status: Some(err), ..pre.servers },
            post,
            fx,
        ),
        ServerMessage::SelectServer(id) => {
            &&& fx.len() == 0
            &&& match row(pre.servers.list@, id@) {
                Some(s) => server_selected(pre, s, post),
                None => post == pre,
            }
        },
        ServerMessage::BackToServerList => server_left(pre, post) && fx.len() == 0,
        ServerMessage::GoHome => gone_home(pre, post) && fx.len() == 0,
        ServerMessage::ToggleServerAddMenu => servers_are(
            pre,
            Servers { add_menu_open: !pre.servers.add_menu_open, ..pre.servers },
            post,
            fx,
        ),
        ServerMessage::PickServerIcon => if pre.servers.icon_busy {
            post == pre && fx.len() == 0
        } else if !owns_selected(pre) {
            server_says(pre, "Only the server owner can change the icon"@, post, fx)
        } else {
            post == pre && fx == seq![EffectView::PickImage(PickPurpose::ServerIcon)]
        },
        ServerMessage::ServerIconPicked(pick) => icon_picked(pre, pick, post, fx),
        ServerMessage::ServerIconUploadFinished(Ok(url)) => icon_uploaded(pre, url, now, post, fx),
        ServerMessage::ServerIconUploadFinished(Err(err))
        | ServerMessage::ServerIconRemoveFinished(Err(err)) => servers_are(
            pre,
            Servers { icon_busy: false, status: Some(err), ..pre.servers },
            post,
            fx,
        ),
        ServerMessage::RemoveServerIcon => if !server_ready(pre) {
            post == pre && fx.len() == 0
        } else if !owns_selected(pre) {
            server_says(pre, "Only the server owner can change the icon"@, post, fx)
        } else {
            &&& post == (App { servers: Servers { icon_busy: true, ..pre.servers }, ..pre })
            &&& fx == server_mutation(
                pre,
                "servers:removeServerIcon"@,
                seq![],
                Reply::ServerIconRemoveFinished,
            )
        },
        ServerMessage::ServerIconRemoveFinished(Ok(())) => icon_removed(pre, now, post, fx),
        ServerMessage::CustomSlugInputChanged(value) => servers_are(
            pre,
            Servers { custom_slug_input: value, ..pre.servers },
            post,
            fx,
        ),
        ServerMessage::SaveCustomSlug => {
            &&& post == pre
            &&& fx == server_mutation(
                pre,
                "servers:setCustomSlug"@,
                seq![("slug"@, ArgView::Str(trimmed(pre.servers.custom_slug_input@)))],
                Reply::CustomSlugFinished,
            )
        },
        ServerMessage::ClearCustomSlug => {
            &&& post == pre
            &&& fx == server_mutation(
                pre,
                "servers:clearCustomSlug"@,
                seq![],
                Reply::CustomSlugCleared,
            )
        },
        ServerMessage::CustomSlugFinished(Ok(slug)) => slug_set(pre, slug, now, post, fx),
        ServerMessage::CopyInviteCode(code) => {
            &&& post == (App { toast: post.toast, ..pre })
            &&& toasts(post.toast, "Invite code copied"@, now)
            &&& fx == seq![EffectView::Clipboard(code@)]
        },
        ServerMessage::CopyInviteLink(code) => {
            &&& post == (App { toast: post.toast, ..pre })
            &&& toasts(post.toast, "Invite link copied"@, now)
            &&& fx == seq![EffectView::Clipboard(invite_link(code@))]
        },
        ServerMessage::ToggleServerSettings => settings_toggled(pre, post, fx),
        ServerMessage::RenameServerInputChanged(value) => servers_are(
            pre,
            Servers { rename_input: value, ..pre.servers },
            post,
            fx,
        ),
        ServerMessage::RenameServer => if !server_ready(pre) {
            post == pre && fx.len() == 0
        } else if !owns_selected(pre) {
            server_says(pre, "Only the server owner can rename the server"@, post, fx)
        } else if trimmed(pre.servers.rename_input@).len() == 0 {
            server_says(pre, "Enter a server name"@, post, fx)
        } else {
            &&& post == pre
            &&& fx == server_mutation(
                pre,
                "servers:renameServer"@,
                seq![("name"@, ArgView::Str(trimmed(pre.servers.rename_input@)))],
                Reply::RenameServerFinished,
            )
        },
        ServerMessage::RenameServerFinished(Ok(())) => server_renamed(pre, now, post, fx),
        ServerMessage::RegenerateInviteCode => {
            &&& post == pre
            &&& fx == server_mutation(
                pre,
                "servers:regenerateInviteCode"@,
                seq![],
                Reply::RegenerateInviteCodeFinished,
            )
        },
        ServerMessage::RegenerateInviteCodeFinished(Ok(())) => {
            &&& post == (App {
                servers: Servers { status: None, ..pre.servers },
                toast: post.toast,
                ..pre
            })
            &&& toasts(post.toast, "Invite code regenerated"@, now)
            &&& fx.len() == 0
        },
        ServerMessage::ToggleConfirmDeleteServer => servers_are(
            pre,
            Servers { confirm_delete: !pre.servers.confirm_delete, ..pre.servers },
            post,
            fx,
        ),
        ServerMessage::DeleteServer => {
            &&& post == pre
            &&& fx == server_mutation(
                pre,
                "servers:deleteServer"@,
                seq![],
                Reply::DeleteServerFinished,
            )
        },
        ServerMessage::DeleteServerFinished(Ok(())) => server_deleted(pre, post) && fx.len() == 0,
        ServerMessage::DeleteServerFinished(Err(err)) => servers_are(
            pre,
            Servers { confirm_delete: false, status: Some(err), ..pre.servers },
            post,
            fx,
        ),
        ServerMessage::ServerSettingsCategoryChanged(c) => servers_are(
            pre,
            Servers { settings_category: c, ..pre.servers },
            post,
            fx,
        ),
        ServerMessage::ServerDescriptionInputChanged(value) => servers_are(
            pre,
            Servers { description_input: value, ..pre.servers },
            post,
            fx,
        ),
        ServerMessage::SaveServerDescription => if !server_ready(pre) {
            post == pre && fx.len() == 0
        } else if !owns_selected(pre) {
            server_says(pre, "Only the server owner can edit the description"@, post, fx)
        } else {
            &&& post == pre
            &&& fx == server_mutation(
                pre,
                "servers:setServerDescription"@,
                seq![("description"@, ArgView::Str(trimmed(pre.servers.description_input@)))],
                Reply::SaveServerDescriptionFinished,
            )
        },
        ServerMessage::SaveServerDescriptionFinished(Ok(())) => description_set(pre, now, post, fx),
        ServerMessage::ConfirmTransferOwnership(user_id) => servers_are(
            pre,
            Servers {
                confirm_transfer_owner_id: if user_id@.len() == 0 || text_is(
                    pre.servers.confirm_transfer_owner_id,
                    user_id@,
                ) {
                    None
                } else {
                    Some(user_id)
                },
                ..pre.servers
            },
            post,
            fx,
        ),
        ServerMessage::TransferOwnership(user_id) => if !server_ready(pre) {
            post == pre && fx.len() == 0
        } else if !owns_selected(pre) {
            server_says(pre, "Only the owner can transfer the server"@, post, fx)
        } else {
            &&& post == (App {
                servers: Servers { confirm_transfer_owner_id: None, ..pre.servers },
                ..pre
            })
            &&& fx == server_mutation(
                pre,
                "servers:transferOwnership"@,
                seq![("newOwnerId"@, ArgView::Str(user_id@))],
                Reply::TransferOwnershipFinished,
            )
        },
        ServerMessage::TransferOwnershipFinished(Ok(())) => {
            &&& post == (App {
                servers: Servers {
                    selected: match pre.servers.selected {
                        Some(s) => Some(ServerSummary { is_owner: false, ..s }),
                        None => None,
                    },
                    status: None,
                    ..pre.servers
                },
                toast: post.toast,
                ..pre
            })
            &&& toasts(post.toast, "Ownership transferred"@, now)
            &&& fx.len() == 0
        },
        ServerMessage::SetWelcomeChannel(id) => welcome_step(pre, id@, post, fx),
        ServerMessage::ToggleInvitesPaused => pause_step(pre, post, fx),
        ServerMessage::SetWelcomeChannelFinished(r) | ServerMessage::SetInvitesPausedFinished(r)
        | ServerMessage::KickMemberFinished(r) => server_outcome(pre, r, post, fx),
        ServerMessage::LoadServerStats => {
            &&& post == pre
            &&& fx == server_request(
                pre,
                CallKind::Query,
                "servers:serverStats"@,
                seq![],
                Reply::ServerStatsUpdated,
            )
        },
        ServerMessage::ServerStatsUpdated(stats) => servers_are(
            pre,
            Servers { stats, ..pre.servers },
            post,
            fx,
        ),
        ServerMessage::MembersUpdated(members) => {
            &&& post == (App { servers: Servers { members, ..pre.servers }, ..pre })
            &&& fx == fetch_pictures(pre, members@)
        },
        ServerMessage::KickMember(user_id) => {
            &&& post == pre
            &&& fx == server_mutation(
                pre,
                "servers:kickMember"@,
                seq![("userId"@, ArgView::Str(user_id@))],
                Reply::KickMemberFinished,
            )
        },
    }
}

impl App {
    fn server_failed(&mut self, err: String) -> (fx: Vec<Effect>)
        ensures
            servers_are(
                *old(self),
                Servers { status: Some(err), ..old(self).servers },
                *final(self),
                views(fx@),
            ),
    {
        self.servers.status = Some(err);
        nothing()
    }

    fn server_outcome(&mut self, r: Result<(), String>) -> (fx: Vec<Effect>)
        ensures
            server_outcome(*old(self), r, *final(self), views(fx@)),
    {
        self.servers.status = r.err();
        nothing()
    }

    fn icon_failed(&mut self, err: String) -> (fx: Vec<Effect>)
        ensures
            servers_are(
                *old(self),
                Servers { icon_busy: false, status: Some(err), ..old(self).servers },
                *final(self),
                views(fx@),
            ),
    {
        self.servers.icon_busy = false;
        self.servers.status = Some(err);
        nothing()
    }

    /// Handles a message about servers.
    #[verifier::rlimit(90)]
    pub fn update_servers(&mut self, m: ServerMessage, now: Now) -> (fx: Vec<Effect>)
        ensures
            server_step(*old(self), m, now, *final(self), views(fx@)),
    {
        match m {
            ServerMessage::ServersUpdated(list) => self.servers_updated(list),
            ServerMessage::NewServerNameChanged(value) => {
                self.servers.new_name_input = value;
                nothing()
            },
            ServerMessage::CreateServer => self.create_server(),
            ServerMessage::CreateServerFinished(Ok(_)) => {
                self.servers.new_name_input = String::new();
                self.servers.status = None;
                self.servers.add_menu_open = false;
                self.show_toast("Server created", now);
                nothing()
            },
            ServerMessage::CreateServerFinished(Err(err)) => self.server_failed(err),
            ServerMessage::JoinServerCodeChanged(value) => {
                self.servers.join_code_input = value;
                nothing()
            },
            ServerMessage::JoinServer => self.join_server(),
            ServerMessage::JoinServerFinished(Ok(_)) => {
                self.servers.join_code_input = String::new();
                self.servers.status = None;
                self.servers.add_menu_open = false;
                self.show_toast("Joined server", now);
                nothing()
            },
            ServerMessage::JoinServerFinished(Err(err)) => self.server_failed(err),
            ServerMessage::SelectServer(id) => self.select_server(&id),
            ServerMessage::BackToServerList => self.back_to_server_list(),
            ServerMessage::GoHome => self.go_home(),
            ServerMessage::ToggleServerAddMenu => {
                self.servers.add_menu_open = !self.servers.add_menu_open;
                nothing()
            },
            ServerMessage::PickServerIcon => self.pick_server_icon(),
            ServerMessage::ServerIconPicked(pick) => self.server_icon_picked(pick),
            ServerMessage::ServerIconUploadFinished(Ok(url)) => self.server_icon_uploaded(url, now),
            ServerMessage::ServerIconUploadFinished(Err(err)) => self.icon_failed(err),
            ServerMessage::RemoveServerIcon => self.remove_server_icon(),
            ServerMessage::ServerIconRemoveFinished(Ok(_)) => self.server_icon_removed(now),
            ServerMessage::ServerIconRemoveFinished(Err(err)) => self.icon_failed(err),
            ServerMessage::CustomSlugInputChanged(value) => {
                self.servers.custom_slug_input = value;
                nothing()
            },
            ServerMessage::SaveCustomSlug => self.ask_server1(
                "servers:setCustomSlug",
                "slug",
                Arg::Str(trim(&self.servers.custom_slug_input)),
                Reply::CustomSlugFinished,
            ),
            ServerMessage::ClearCustomSlug => self.ask_server0(
                "servers:clearCustomSlug",
                Reply::CustomSlugCleared,
            ),
            ServerMessage::CustomSlugFinished(Ok(slug)) => self.server_slug_set(slug, now),
            ServerMessage::CustomSlugFinished(Err(err)) => self.server_failed(err),
            ServerMessage::CopyInviteCode(code) => {
                self.show_toast("Invite code copied", now);
                one(Effect::Clipboard(code))
            },
            ServerMessage::CopyInviteLink(code) => {
                self.show_toast("Invite link copied", now);
                one(Effect::Clipboard(build_invite_link(&code)))
            },
            ServerMessage::ToggleServerSettings => self.toggle_server_settings(),
            ServerMessage::RenameServerInputChanged(value) => {
                self.servers.rename_input = value;
                nothing()
            },
            ServerMessage::RenameServer => self.rename_server(),
            ServerMessage::RenameServerFinished(Ok(_)) => self.server_was_renamed(now),
            ServerMessage::RenameServerFinished(Err(err)) => self.server_failed(err),
            ServerMessage::RegenerateInviteCode => self.ask_server0(
                "servers:regenerateInviteCode",
                Reply::RegenerateInviteCodeFinished,
            ),
            ServerMessage::RegenerateInviteCodeFinished(Ok(_)) => {
                self.servers.status = None;
                self.show_toast("Invite code regenerated", now);
                nothing()
            },
            ServerMessage::RegenerateInviteCodeFinished(Err(err)) => self.server_failed(err),
            ServerMessage::ToggleConfirmDeleteServer => {
                self.servers.confirm_delete = !self.servers.confirm_delete;
                nothing()
            },
            ServerMessage::DeleteServer => self.ask_server0(
                "servers:deleteServer",
                Reply::DeleteServerFinished,
            ),
            ServerMessage::DeleteServerFinished(Ok(_)) => {
                self.servers.selected = None;
                self.servers.channels = Vec::new();
                self.servers.settings_open = false;
                self.servers.confirm_delete = false;
                self.servers.status = None;
                self.servers.members = Vec::new();
                nothing()
            },
            ServerMessage::DeleteServerFinished(Err(err)) => {
                self.servers.confirm_delete = false;
                self.servers.status = Some(err);
                nothing()
            },
            ServerMessage::ServerSettingsCategoryChanged(c) => {
                self.servers.settings_category = c;
                nothing()
            },
            ServerMessage::ServerDescriptionInputChanged(value) => {
                self.servers.description_input = value;
                nothing()
            },
            ServerMessage::SaveServerDescription => self.save_description(),
            ServerMessage::SaveServerDescriptionFinished(Ok(_)) => self.description_saved(now),
            ServerMessage::SaveServerDescriptionFinished(Err(err)) => self.server_failed(err),
            ServerMessage::ConfirmTransferOwnership(user_id) => {
                self.servers.confirm_transfer_owner_id = if user_id.as_str().is_empty() || is_text(
                    &self.servers.confirm_transfer_owner_id,
                    &user_id,
                ) {
                    None
                } else {
                    Some(user_id)
                };
                nothing()
            },
            ServerMessage::TransferOwnership(user_id) => self.transfer_ownership(user_id),
            ServerMessage::TransferOwnershipFinished(Ok(_)) => self.ownership_transferred(now),
            ServerMessage::TransferOwnershipFinished(Err(err)) => self.server_failed(err),
            ServerMessage::SetWelcomeChannel(id) => self.set_welcome_channel(id),
            ServerMessage::SetWelcomeChannelFinished(r) => self.server_outcome(r),
            ServerMessage::ToggleInvitesPaused => self.toggle_invites_paused(),
            ServerMessage::SetInvitesPausedFinished(r) => self.server_outcome(r),
            ServerMessage::LoadServerStats => self.load_server_stats(),
            ServerMessage::ServerStatsUpdated(stats) => {
                self.servers.stats = stats;
                nothing()
            },
            ServerMessage::MembersUpdated(members) => {
                let fx = self.fetch_row_pictures(&members);
                self.servers.members = members;
                fx
            },
            ServerMessage::KickMember(user_id) => self.ask_server1(
                "servers:kickMember",
                "userId",
                Arg::Str(user_id),
                Reply::KickMemberFinished,
            ),
            ServerMessage::KickMemberFinished(r) => self.server_outcome(r),
        }
    }
}

} // verus!
