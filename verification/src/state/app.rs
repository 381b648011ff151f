//! The `App` struct: all the state of the client in one place, grouped by the
//! part of the screen it belongs to, and the small helpers that the message
//! handlers share.

use crate::state::effect::{
    args_view, nothing, one, opt_text, two, views, Arg, ArgView, Call, CallKind, CallView, Effect,
    EffectView, Reply,
};
use crate::state::types::{
    AdminStats, AdminUserDetail, AdminUserRow, AuthMode, BlockedUser, BotSummary, CallRole,
    ChannelSummary, ChatMessage, ConversationSummary, Friend, FriendSuggestion, FriendsFilter,
    GroupKey, IncomingRequest, MessageReport, MyCallInfo, OutgoingRequest, PendingAttachment,
    PeopleHit, ProfileView, ServerMemberRow, ServerRoleRow, ServerSettingsCategory, ServerStats,
    ServerSummary, Session, SettingsCategory, ShareTarget, SidebarTab, SocialStats, VoiceUserRow,
    WindowAction,
};
use crate::strmap::{texts, StrMap, StrSet};
use crate::text::{owned, text_is};
use vstd::prelude::*;

verus! {

/// What the client is built with.
#[derive(Debug)]
pub struct Config {
    pub deployment_url: String,
    /// The avatar color of users who chose none.
    pub default_avatar_color: String,
    /// The text by which a peer asks for a mutual history wipe.
    pub clear_history_ctrl: String,
    /// What is shown for a text that could not be opened.
    pub decrypt_failed: String,
    /// The body of a voice note.
    pub voice_note_tag: String,
    /// At most this many friends have a live channel in the background.
    pub max_background_peers: usize,
    /// The device name that sessions are listed under.
    pub device_name: String,
}

/// The moment at which a message is handled: a steady clock in milliseconds,
/// and the time since the epoch.
#[derive(Debug, Clone, Copy)]
pub struct Now {
    pub tick_ms: u64,
    pub unix_ms: i64,
}

/// The connection to the backend.
pub struct Link {
    pub connected: bool,
    pub connect_status: String,
    pub pending_restore_token: Option<String>,
}

/// The sign-in form.
pub struct AuthForm {
    pub auth_mode: AuthMode,
    pub username_input: String,
    pub password_input: String,
    pub display_name_input: String,
    pub email_input: String,
    pub auth_error: Option<String>,
    pub auth_busy: bool,
}

/// The e-mail verification form.
pub struct EmailForm {
    pub verify_input: String,
    pub code_input: String,
    pub code_sent: bool,
    pub busy: bool,
    pub error: Option<String>,
}

/// The window, the tray and the updater.
pub struct WindowState {
    /// Whether the tray icon came up; if not, closing quits.
    pub tray_ready: bool,
    pub window_focused: bool,
    pub pending_action: Option<WindowAction>,
    /// Downloaded build that waits for the next quit.
    pub pending_update_path: Option<String>,
    pub update_check_status: Option<String>,
    pub ping_status: Option<String>,
    pub sidebar_tab: SidebarTab,
    pub chat_filter_input: String,
    pub members_panel_open: bool,
}

/// Live secure channels, by the friend's user id.
pub struct Peers {
    /// Our published identity key.
    pub public_key: Option<String>,
    /// The key of the local history.
    pub vault_key: Option<[u8; 32]>,
    /// Friends whose channel takes commands.
    pub channels: StrMap<()>,
    pub connected: StrMap<bool>,
    pub status: StrMap<String>,
    pub sas: StrMap<String>,
    pub transport: StrMap<String>,
    pub remote_fp: StrMap<String>,
    /// Messages of the live channels, not stored on the backend.
    pub live: StrMap<Vec<ChatMessage>>,
    pub photo_seq: u64,
    /// Invites that arrived before the channel took commands.
    pub pending_invite: StrMap<String>,
    /// Publish results that arrived before the channel took commands.
    pub pending_published: StrMap<Result<(), String>>,
}

/// Friends, requests and blocks.
pub struct Social {
    pub friends: Vec<Friend>,
    pub friends_filter: FriendsFilter,
    pub friends_filter_input: String,
    pub people_hits: Vec<PeopleHit>,
    pub suggestions: Vec<FriendSuggestion>,
    pub social_stats: SocialStats,
    pub incoming_requests: Vec<IncomingRequest>,
    pub requests_loaded: bool,
    pub outgoing_requests: Vec<OutgoingRequest>,
    pub blocked: Vec<BlockedUser>,
    pub add_friend_input: String,
    pub add_friend_note: String,
    pub add_friend_status: Option<String>,
    pub friend_request_busy: bool,
    /// The user that a second click on "Block" will block.
    pub confirm_block_user_id: Option<String>,
}

/// The admin panel.
pub struct Admin {
    pub users: Vec<AdminUserRow>,
    pub status: Option<String>,
    pub search_input: String,
    /// 0 = All, 1 = Users, 2 = Staff, 3 = Banned.
    pub filter: i32,
    pub stats: Option<AdminStats>,
    pub detail_user_id: Option<String>,
    pub user_detail: Option<AdminUserDetail>,
    pub reports: Vec<MessageReport>,
    pub reports_status: Option<String>,
}

/// The panel for a new group.
pub struct Groups {
    pub open: bool,
    pub name_input: String,
    pub selected: StrSet,
    pub status: Option<String>,
}

/// Servers and the settings of the selected one.
pub struct Servers {
    pub list: Vec<ServerSummary>,
    pub selected: Option<ServerSummary>,
    pub channels: Vec<ChannelSummary>,
    pub members: Vec<ServerMemberRow>,
    pub new_name_input: String,
    pub join_code_input: String,
    pub status: Option<String>,
    pub add_menu_open: bool,
    pub custom_slug_input: String,
    pub icon_busy: bool,
    pub settings_open: bool,
    pub settings_category: ServerSettingsCategory,
    pub rename_input: String,
    pub confirm_delete: bool,
    pub description_input: String,
    pub confirm_transfer_owner_id: Option<String>,
    pub stats: Option<ServerStats>,
}

/// Forms about the channels of the selected server.
pub struct Channels {
    pub new_open: bool,
    pub new_name_input: String,
    pub new_is_voice: bool,
    pub renaming_id: Option<String>,
    pub rename_input: String,
    pub perms_channel_id: Option<String>,
    pub perms_role_id: Option<String>,
    /// Allowed and denied bits by role id.
    pub overwrites: StrMap<(u32, u32)>,
}

/// Roles of the selected server.
pub struct Roles {
    pub list: Vec<ServerRoleRow>,
    pub my_permissions: u32,
    pub new_name_input: String,
    pub editing_id: Option<String>,
    pub name_edit_input: String,
    pub confirm_delete_id: Option<String>,
    pub member_picker_open: Option<String>,
}

/// Voice rooms.
pub struct Voice {
    pub users: Vec<VoiceUserRow>,
    pub active_channel: Option<String>,
    pub room_status: Option<String>,
}

/// Bots.
pub struct Bots {
    pub mine: Vec<BotSummary>,
    pub new_name_input: String,
    pub invite_username_input: String,
    pub status: Option<String>,
    /// Shown once after a token was made.
    pub token_reveal: Option<String>,
}

/// The chat list and what of it was seen.
pub struct Inbox {
    pub conversations: Vec<ConversationSummary>,
    pub loaded: bool,
    pub seen_last_message_at: StrMap<i64>,
    /// The `last_message_at` for which a markRead was already sent, per
    /// conversation: keeps markRead from triggering itself.
    pub last_marked_read_at: StrMap<i64>,
}

/// Which chat is open.
pub struct Place {
    pub conversation: Option<String>,
    /// direct | group | channel | voice
    pub kind: Option<String>,
    pub peer_id: Option<String>,
    pub peer_name: Option<String>,
}

/// The open chat.
pub struct Chat {
    pub messages: Vec<ChatMessage>,
    pub pinned_messages: Vec<ChatMessage>,
    pub pins_panel_open: bool,
    pub error: Option<String>,
    pub hovered_id: Option<String>,
    pub preview_url: Option<String>,
    pub reporting_id: Option<String>,
    /// Two-step confirm for "Clear chat".
    pub clear_confirm: bool,
    pub clear_busy: bool,
    pub typing_names: Vec<String>,
    /// Whether this chat stores history for us.
    pub store_enabled: bool,
    /// Whether everyone in this chat allows it.
    pub store_allowed: bool,
}

/// What is being sealed, as it stood in the composer.
pub struct Draft {
    /// The chat that it is for.
    pub conversation_id: String,
    /// The message that gets it as its new body; none for a new message.
    pub message_id: Option<String>,
    pub input: String,
    pub suggestions: Vec<String>,
    pub attachment: Option<PendingAttachment>,
    /// message id, author, snippet
    pub reply: Option<(String, String, String)>,
}

/// The composer.
pub struct Composer {
    pub input: String,
    pub suggestions: Vec<String>,
    pub attachment: Option<PendingAttachment>,
    /// message id, author, snippet
    pub reply: Option<(String, String, String)>,
    pub editing_id: Option<String>,
    pub editing_encrypted: bool,
    /// A message is being sealed or on its way.
    pub send_busy: bool,
    pub sealing: Option<Draft>,
    pub typing_active: bool,
    pub last_typing_ping: Option<u64>,
}

/// Calls.
pub struct Calls {
    pub my_call: Option<MyCallInfo>,
    pub role: Option<CallRole>,
    pub engine_key: Option<String>,
    pub muted: bool,
    pub output_muted: bool,
    pub status_text: Option<String>,
}

/// Screen sharing.
pub struct Share {
    /// Whether a call takes share commands.
    pub channel_open: bool,
    pub picker_open: bool,
    pub targets: Vec<ShareTarget>,
    pub is_sharing: bool,
    pub system_audio: bool,
    pub remote_muted: bool,
    pub stats_line: String,
    pub remote_frame: Option<Vec<u8>>,
    pub view_expanded: bool,
}

/// The command palette.
pub struct Palette {
    pub open: bool,
    pub query: String,
    /// conversation id, display line, message id
    pub hits: Vec<(String, String, String)>,
}

/// The profile card.
pub struct ProfilePane {
    pub viewing: Option<ProfileView>,
    pub error: Option<String>,
}

/// The settings screen.
pub struct Settings {
    pub open: bool,
    pub category: SettingsCategory,
    pub display_name_input: String,
    pub status_input: String,
    pub bio_input: String,
    pub avatar_color: String,
    pub profile_status: Option<String>,
    pub current_password_input: String,
    pub new_password_input: String,
    pub confirm_password_input: String,
    pub password_status: Option<String>,
    pub avatar_upload_busy: bool,
}

/// Audio settings; gains and the noise threshold by their bits.
pub struct Audio {
    pub input_devices: Vec<String>,
    pub output_devices: Vec<String>,
    pub input_device: Option<String>,
    pub output_device: Option<String>,
    pub noise_gate: u32,
    pub voice_gains: StrMap<u32>,
}

/// The state of the client.
pub struct App {
    pub config: Config,
    pub link: Link,
    pub auth: AuthForm,
    pub email: EmailForm,
    pub session: Option<Session>,
    /// Ephemeral status line, with the tick it was shown at.
    pub toast: Option<(String, u64)>,
    pub window: WindowState,
    pub peers: Peers,
    pub social: Social,
    pub admin: Admin,
    pub groups: Groups,
    pub servers: Servers,
    pub channels: Channels,
    pub roles: Roles,
    pub voice: Voice,
    pub bots: Bots,
    pub inbox: Inbox,
    pub place: Place,
    pub chat: Chat,
    pub composer: Composer,
    /// Keys of groups and channels, once they were read.
    pub group_keys: Option<StrMap<GroupKey>>,
    pub calls: Calls,
    pub share: Share,
    pub palette: Palette,
    pub profile: ProfilePane,
    pub settings: Settings,
    pub audio: Audio,
    /// Pictures by URL.
    pub images: StrMap<Vec<u8>>,
}

// ---------- Start ----------

/// Audio settings as they were saved.
pub struct SavedAudio {
    pub input_device: Option<String>,
    pub output_device: Option<String>,
    pub noise_gate: u32,
    pub voice_gains: StrMap<u32>,
}

/// Nobody is signed in and nothing is shown, but for the given settings.
pub open spec fn starts_with(app: App, config: Config, token: Option<String>, audio: SavedAudio) -> bool {
    &&& app.config == config
    &&& app.session is None
    &&& app.toast is None
    &&& app.group_keys is None
    &&& app.images@ == Map::<Seq<char>, Vec<u8>>::empty()
    &&& starts_signed_out(app, token)
    &&& starts_alone(app)
    &&& starts_without_servers(app)
    &&& starts_without_chat(app)
    &&& starts_idle(app, config, audio)
}

/// Forms and window at the start.
pub open spec fn starts_signed_out(app: App, token: Option<String>) -> bool {
    &&& !app.link.connected
    &&& app.link.connect_status@ == "Connecting to Convex..."@
    &&& app.link.pending_restore_token == token
    &&& app.auth.auth_mode == AuthMode::Login
    &&& app.auth.username_input@.len() == 0
    &&& app.auth.password_input@.len() == 0
    &&& app.auth.display_name_input@.len() == 0
    &&& app.auth.email_input@.len() == 0
    &&& app.auth.auth_error is None
    &&& !app.auth.auth_busy
    &&& app.email.verify_input@.len() == 0
    &&& app.email.code_input@.len() == 0
    &&& !app.email.code_sent
    &&& !app.email.busy
    &&& app.email.error is None
    &&& !app.window.tray_ready
    &&& app.window.window_focused
    &&& app.window.pending_action is None
    &&& app.window.pending_update_path is None
    &&& app.window.update_check_status is None
    &&& app.window.ping_status is None
    &&& app.window.sidebar_tab == SidebarTab::Chats
    &&& app.window.chat_filter_input@.len() == 0
    &&& app.window.members_panel_open
}

/// Peers, friends and administration at the start.
pub open spec fn starts_alone(app: App) -> bool {
    &&& app.peers.public_key is None
    &&& app.peers.vault_key is None
    &&& no_peers(app.peers)
    &&& app.peers.photo_seq == 0
    &&& app.social.friends@.len() == 0
    &&& app.social.friends_filter == FriendsFilter::All
    &&& app.social.friends_filter_input@.len() == 0
    &&& app.social.people_hits@.len() == 0
    &&& app.social.suggestions@.len() == 0
    &&& app.social.social_stats == (SocialStats {
        friends_total: 0,
        friends_online: 0,
        incoming_pending: 0,
        outgoing_pending: 0,
    })
    &&& app.social.incoming_requests@.len() == 0
    &&& !app.social.requests_loaded
    &&& app.social.outgoing_requests@.len() == 0
    &&& app.social.blocked@.len() == 0
    &&& app.social.add_friend_input@.len() == 0
    &&& app.social.add_friend_note@.len() == 0
    &&& app.social.add_friend_status is None
    &&& !app.social.friend_request_busy
    &&& app.social.confirm_block_user_id is None
    &&& app.admin.users@.len() == 0
    &&& app.admin.status is None
    &&& app.admin.search_input@.len() == 0
    &&& app.admin.filter == 0
    &&& app.admin.stats is None
    &&& app.admin.detail_user_id is None
    &&& app.admin.user_detail is None
    &&& app.admin.reports@.len() == 0
    &&& app.admin.reports_status is None
    &&& !app.groups.open
    &&& app.groups.name_input@.len() == 0
    &&& app.groups.selected.items@.len() == 0
    &&& app.groups.status is None
}

/// No friend has a live channel or anything of one.
pub open spec fn no_peers(peers: Peers) -> bool {
    &&& peers.channels@ == Map::<Seq<char>, ()>::empty()
    &&& peers.connected@ == Map::<Seq<char>, bool>::empty()
    &&& peers.status@ == Map::<Seq<char>, String>::empty()
    &&& peers.sas@ == Map::<Seq<char>, String>::empty()
    &&& peers.transport@ == Map::<Seq<char>, String>::empty()
    &&& peers.remote_fp@ == Map::<Seq<char>, String>::empty()
    &&& peers.live@ == Map::<Seq<char>, Vec<ChatMessage>>::empty()
    &&& peers.pending_invite@ == Map::<Seq<char>, String>::empty()
    &&& peers.pending_published@ == Map::<Seq<char>, Result<(), String>>::empty()
}

/// Servers, roles, voice and bots at the start.
pub open spec fn starts_without_servers(app: App) -> bool {
    &&& app.servers.list@.len() == 0
    &&& app.servers.selected is None
    &&& app.servers.channels@.len() == 0
    &&& app.servers.members@.len() == 0
    &&& app.servers.new_name_input@.len() == 0
    &&& app.servers.join_code_input@.len() == 0
    &&& app.servers.status is None
    &&& !app.servers.add_menu_open
    &&& app.servers.custom_slug_input@.len() == 0
    &&& !app.servers.icon_busy
    &&& !app.servers.settings_open
    &&& app.servers.settings_category == ServerSettingsCategory::Overview
    &&& app.servers.rename_input@.len() == 0
    &&& !app.servers.confirm_delete
    &&& app.servers.description_input@.len() == 0
    &&& app.servers.confirm_transfer_owner_id is None
    &&& app.servers.stats is None
    &&& !app.channels.new_open
    &&& app.channels.new_name_input@.len() == 0
    &&& !app.channels.new_is_voice
    &&& app.channels.renaming_id is None
    &&& app.channels.rename_input@.len() == 0
    &&& app.channels.perms_channel_id is None
    &&& app.channels.perms_role_id is None
    &&& app.channels.overwrites@ == Map::<Seq<char>, (u32, u32)>::empty()
    &&& app.roles.list@.len() == 0
    &&& app.roles.my_permissions == 0
    &&& app.roles.new_name_input@.len() == 0
    &&& app.roles.editing_id is None
    &&& app.roles.name_edit_input@.len() == 0
    &&& app.roles.confirm_delete_id is None
    &&& app.roles.member_picker_open is None
    &&& app.voice.users@.len() == 0
    &&& app.voice.active_channel is None
    &&& app.voice.room_status is None
    &&& app.bots.mine@.len() == 0
    &&& app.bots.new_name_input@.len() == 0
    &&& app.bots.invite_username_input@.len() == 0
    &&& app.bots.status is None
    &&& app.bots.token_reveal is None
}

/// Chats at the start.
pub open spec fn starts_without_chat(app: App) -> bool {
    &&& app.inbox.conversations@.len() == 0
    &&& !app.inbox.loaded
    &&& app.inbox.seen_last_message_at@ == Map::<Seq<char>, i64>::empty()
    &&& app.inbox.last_marked_read_at@ == Map::<Seq<char>, i64>::empty()
    &&& app.place == (Place { conversation: None, kind: None, peer_id: None, peer_name: None })
    &&& app.chat.messages@.len() == 0
    &&& app.chat.pinned_messages@.len() == 0
    &&& !app.chat.pins_panel_open
    &&& app.chat.error is None
    &&& app.chat.hovered_id is None
    &&& app.chat.preview_url is None
    &&& app.chat.reporting_id is None
    &&& !app.chat.clear_confirm
    &&& !app.chat.clear_busy
    &&& app.chat.typing_names@.len() == 0
    &&& app.chat.store_enabled
    &&& app.chat.store_allowed
    &&& app.composer.input@.len() == 0
    &&& app.composer.suggestions@.len() == 0
    &&& app.composer.attachment is None
    &&& app.composer.reply is None
    &&& app.composer.editing_id is None
    &&& !app.composer.editing_encrypted
    &&& !app.composer.send_busy
    &&& app.composer.sealing is None
    &&& !app.composer.typing_active
    &&& app.composer.last_typing_ping is None
}

/// Calls, the palette and the settings at the start.
pub open spec fn starts_idle(app: App, config: Config, audio: SavedAudio) -> bool {
    &&& app.calls == (Calls {
        my_call: None,
        role: None,
        engine_key: None,
        muted: false,
        output_muted: false,
        status_text: None,
    })
    &&& !app.share.channel_open
    &&& !app.share.picker_open
    &&& app.share.targets@.len() == 0
    &&& !app.share.is_sharing
    &&& app.share.system_audio
    &&& !app.share.remote_muted
    &&& app.share.stats_line@.len() == 0
    &&& app.share.remote_frame is None
    &&& !app.share.view_expanded
    &&& !app.palette.open
    &&& app.palette.query@.len() == 0
    &&& app.palette.hits@.len() == 0
    &&& app.profile == (ProfilePane { viewing: None, error: None })
    &&& !app.settings.open
    &&& app.settings.category == SettingsCategory::Account
    &&& app.settings.display_name_input@.len() == 0
    &&& app.settings.status_input@.len() == 0
    &&& app.settings.bio_input@.len() == 0
    &&& app.settings.avatar_color@ == config.default_avatar_color@
    &&& app.settings.profile_status is None
    &&& app.settings.current_password_input@.len() == 0
    &&& app.settings.new_password_input@.len() == 0
    &&& app.settings.confirm_password_input@.len() == 0
    &&& app.settings.password_status is None
    &&& !app.settings.avatar_upload_busy
    &&& app.audio.input_devices@.len() == 0
    &&& app.audio.output_devices@.len() == 0
    &&& app.audio.input_device == audio.input_device
    &&& app.audio.output_device == audio.output_device
    &&& app.audio.noise_gate == audio.noise_gate
    &&& app.audio.voice_gains == audio.voice_gains
}

fn no_peers_yet() -> (p: Peers)
    ensures
        no_peers(p),
        p.public_key is None,
        p.vault_key is None,
        p.photo_seq == 0,
{
    Peers {
        public_key: None,
        vault_key: None,
        channels: StrMap::new(),
        connected: StrMap::new(),
        status: StrMap::new(),
        sas: StrMap::new(),
        transport: StrMap::new(),
        remote_fp: StrMap::new(),
        live: StrMap::new(),
        photo_seq: 0,
        pending_invite: StrMap::new(),
        pending_published: StrMap::new(),
    }
}

impl App {
    /// The client as it starts: it connects and looks for an update. `token`
    /// is the saved session's, if there is one.
    pub fn new(config: Config, token: Option<String>, audio: SavedAudio) -> (r: (App, Vec<Effect>))
        ensures
            starts_with(r.0, config, token, audio),
            views((r.1)@) == seq![
                EffectView::Connect { url: config.deployment_url@ },
                EffectView::CheckForUpdate,
            ],
    {
        let fx = two(
            Effect::Connect { url: config.deployment_url.clone() },
            Effect::CheckForUpdate,
        );
        let color = config.default_avatar_color.clone();
        let app = App {
            config,
            link: Link {
                connected: false,
                connect_status: owned("Connecting to Convex..."),
                pending_restore_token: token,
            },
            auth: AuthForm {
                auth_mode: AuthMode::Login,
                username_input: String::new(),
                password_input: String::new(),
                display_name_input: String::new(),
                email_input: String::new(),
                auth_error: None,
                auth_busy: false,
            },
            email: EmailForm {
                verify_input: String::new(),
                code_input: String::new(),
                code_sent: false,
                busy: false,
                error: None,
            },
            session: None,
            toast: None,
            window: WindowState {
                tray_ready: false,
                window_focused: true,
                pending_action: None,
                pending_update_path: None,
                update_check_status: None,
                ping_status: None,
                sidebar_tab: SidebarTab::Chats,
                chat_filter_input: String::new(),
                members_panel_open: true,
            },
            peers: no_peers_yet(),
            social: Social {
                friends: Vec::new(),
                friends_filter: FriendsFilter::All,
                friends_filter_input: String::new(),
                people_hits: Vec::new(),
                suggestions: Vec::new(),
                social_stats: SocialStats {
                    friends_total: 0,
                    friends_online: 0,
                    incoming_pending: 0,
                    outgoing_pending: 0,
                },
                incoming_requests: Vec::new(),
                requests_loaded: false,
                outgoing_requests: Vec::new(),
                blocked: Vec::new(),
                add_friend_input: String::new(),
                add_friend_note: String::new(),
                add_friend_status: None,
                friend_request_busy: false,
                confirm_block_user_id: None,
            },
            admin: Admin {
                users: Vec::new(),
                status: None,
                search_input: String::new(),
                filter: 0,
                stats: None,
                detail_user_id: None,
                user_detail: None,
                reports: Vec::new(),
                reports_status: None,
            },
            groups: Groups {
                open: false,
                name_input: String::new(),
                selected: StrSet::new(),
                status: None,
            },
            servers: Servers {
                list: Vec::new(),
                selected: None,
                channels: Vec::new(),
                members: Vec::new(),
                new_name_input: String::new(),
                join_code_input: String::new(),
                status: None,
                add_menu_open: false,
                custom_slug_input: String::new(),
                icon_busy: false,
                settings_open: false,
                settings_category: ServerSettingsCategory::Overview,
                rename_input: String::new(),
                confirm_delete: false,
                description_input: String::new(),
                confirm_transfer_owner_id: None,
                stats: None,
            },
            channels: Channels {
                new_open: false,
                new_name_input: String::new(),
                new_is_voice: false,
                renaming_id: None,
                rename_input: String::new(),
                perms_channel_id: None,
                perms_role_id: None,
                overwrites: StrMap::new(),
            },
            roles: Roles {
                list: Vec::new(),
                my_permissions: 0,
                new_name_input: String::new(),
                editing_id: None,
                name_edit_input: String::new(),
                confirm_delete_id: None,
                member_picker_open: None,
            },
            voice: Voice { users: Vec::new(), active_channel: None, room_status: None },
            bots: Bots {
                mine: Vec::new(),
                new_name_input: String::new(),
                invite_username_input: String::new(),
                status: None,
                token_reveal: None,
            },
            inbox: Inbox {
                conversations: Vec::new(),
                loaded: false,
                seen_last_message_at: StrMap::new(),
                last_marked_read_at: StrMap::new(),
            },
            place: Place { conversation: None, kind: None, peer_id: None, peer_name: None },
            chat: Chat {
                messages: Vec::new(),
                pinned_messages: Vec::new(),
                pins_panel_open: false,
                error: None,
                hovered_id: None,
                preview_url: None,
                reporting_id: None,
                clear_confirm: false,
                clear_busy: false,
                typing_names: Vec::new(),
                store_enabled: true,
                store_allowed: true,
            },
            composer: Composer {
                input: String::new(),
                suggestions: Vec::new(),
                attachment: None,
                reply: None,
                editing_id: None,
                editing_encrypted: false,
                send_busy: false,
                sealing: None,
                typing_active: false,
                last_typing_ping: None,
            },
            group_keys: None,
            calls: Calls {
                my_call: None,
                role: None,
                engine_key: None,
                muted: false,
                output_muted: false,
                status_text: None,
            },
            share: Share {
                channel_open: false,
                picker_open: false,
                targets: Vec::new(),
                is_sharing: false,
                system_audio: true,
                remote_muted: false,
                stats_line: String::new(),
                remote_frame: None,
                view_expanded: false,
            },
            palette: Palette { open: false, query: String::new(), hits: Vec::new() },
            profile: ProfilePane { viewing: None, error: None },
            settings: Settings {
                open: false,
                category: SettingsCategory::Account,
                display_name_input: String::new(),
                status_input: String::new(),
                bio_input: String::new(),
                avatar_color: color,
                profile_status: None,
                current_password_input: String::new(),
                new_password_input: String::new(),
                confirm_password_input: String::new(),
                password_status: None,
                avatar_upload_busy: false,
            },
            audio: Audio {
                input_devices: Vec::new(),
                output_devices: Vec::new(),
                input_device: audio.input_device,
                output_device: audio.output_device,
                noise_gate: audio.noise_gate,
                voice_gains: audio.voice_gains,
            },
            images: StrMap::new(),
        };
        (app, fx)
    }
}

// ---------- Requests ----------

impl App {
    /// The session token, where we are connected and signed in.
    pub open spec fn token(&self) -> Option<Seq<char>> {
        match self.session {
            Some(s) => if self.link.connected {
                Some(s.token@)
            } else {
                None
            },
            None => None,
        }
    }

    /// [`App::token`], computed.
    pub fn online_token(&self) -> (r: Option<String>)
        ensures
            opt_text(r) == self.token(),
    {
        match &self.session {
            Some(s) => if self.link.connected {
                Some(s.token.clone())
            } else {
                None
            },
            None => None,
        }
    }
}

/// An argument list that starts with the session token.
pub open spec fn with_token(token: Seq<char>, extra: Seq<(Seq<char>, ArgView)>) -> Seq<
    (Seq<char>, ArgView),
> {
    seq![("sessionToken"@, ArgView::Str(token))] + extra
}

/// A call of a backend function for the session with `token`.
pub open spec fn session_call(
    token: Seq<char>,
    kind: CallKind,
    function: Seq<char>,
    extra: Seq<(Seq<char>, ArgView)>,
    reply: Reply,
) -> CallView {
    CallView { kind, function, args: with_token(token, extra), reply }
}

/// The request to the backend, where we are connected and signed in; else
/// nothing.
pub open spec fn request(
    app: App,
    kind: CallKind,
    function: Seq<char>,
    extra: Seq<(Seq<char>, ArgView)>,
    reply: Reply,
) -> Seq<EffectView> {
    match app.token() {
        Some(t) => seq![EffectView::Call(session_call(t, kind, function, extra, reply))],
        None => Seq::empty(),
    }
}

/// A mutation; see [`request`].
pub open spec fn mutation(
    app: App,
    function: Seq<char>,
    extra: Seq<(Seq<char>, ArgView)>,
    reply: Reply,
) -> Seq<EffectView> {
    request(app, CallKind::Mutation, function, extra, reply)
}

/// A query; see [`request`].
pub open spec fn query(
    app: App,
    function: Seq<char>,
    extra: Seq<(Seq<char>, ArgView)>,
    reply: Reply,
) -> Seq<EffectView> {
    request(app, CallKind::Query, function, extra, reply)
}

/// A call for the session with `token`.
pub fn make_call(
    token: String,
    kind: CallKind,
    function: &'static str,
    extra: Vec<(&'static str, Arg)>,
    reply: Reply,
) -> (c: Call)
    ensures
        c@ == session_call(token@, kind, function@, args_view(extra@), reply),
{
    let mut args: Vec<(&'static str, Arg)> = Vec::new();
    args.push(("sessionToken", Arg::Str(token)));
    let mut extra = extra;
    let ghost tail = extra@;
    args.append(&mut extra);
    assert(args_view(args@) =~= with_token(token@, args_view(tail)));
    Call { kind, function, args, reply }
}

impl App {
    /// [`request`], computed.
    pub fn ask(
        &self,
        kind: CallKind,
        function: &'static str,
        extra: Vec<(&'static str, Arg)>,
        reply: Reply,
    ) -> (fx: Vec<Effect>)
        ensures
            views(fx@) == request(*self, kind, function@, args_view(extra@), reply),
    {
        match self.online_token() {
            Some(token) => one(Effect::Call(make_call(token, kind, function, extra, reply))),
            None => nothing(),
        }
    }

    /// A request with the token alone.
    pub fn ask0(&self, kind: CallKind, function: &'static str, reply: Reply) -> (fx: Vec<Effect>)
        ensures
            views(fx@) == request(*self, kind, function@, seq![], reply),
    {
        let extra: Vec<(&'static str, Arg)> = Vec::new();
        assert(args_view(extra@) =~= seq![]);
        self.ask(kind, function, extra, reply)
    }

    /// A request with one argument.
    pub fn ask1(
        &self,
        kind: CallKind,
        function: &'static str,
        k1: &'static str,
        a1: Arg,
        reply: Reply,
    ) -> (fx: Vec<Effect>)
        ensures
            views(fx@) == request(*self, kind, function@, seq![(k1@, a1@)], reply),
    {
        let extra = vec![(k1, a1)];
        assert(args_view(extra@) =~= seq![(k1@, a1@)]);
        self.ask(kind, function, extra, reply)
    }

    /// A request with two arguments.
    pub fn ask2(
        &self,
        kind: CallKind,
        function: &'static str,
        k1: &'static str,
        a1: Arg,
        k2: &'static str,
        a2: Arg,
        reply: Reply,
    ) -> (fx: Vec<Effect>)
        ensures
            views(fx@) == request(*self, kind, function@, seq![(k1@, a1@), (k2@, a2@)], reply),
    {
        let extra = vec![(k1, a1), (k2, a2)];
        assert(args_view(extra@) =~= seq![(k1@, a1@), (k2@, a2@)]);
        self.ask(kind, function, extra, reply)
    }

    /// A request with three arguments.
    pub fn ask3(
        &self,
        kind: CallKind,
        function: &'static str,
        k1: &'static str,
        a1: Arg,
        k2: &'static str,
        a2: Arg,
        k3: &'static str,
        a3: Arg,
        reply: Reply,
    ) -> (fx: Vec<Effect>)
        ensures
            views(fx@) == request(
                *self,
                kind,
                function@,
                seq![(k1@, a1@), (k2@, a2@), (k3@, a3@)],
                reply,
            ),
    {
        let extra = vec![(k1, a1), (k2, a2), (k3, a3)];
        assert(args_view(extra@) =~= seq![(k1@, a1@), (k2@, a2@), (k3@, a3@)]);
        self.ask(kind, function, extra, reply)
    }
}

// ---------- Toasts ----------

/// The toast shows `text` since `now`.
pub open spec fn toasts(toast: Option<(String, u64)>, text: Seq<char>, now: Now) -> bool {
    match toast {
        Some((s, at)) => s@ == text && at == now.tick_ms,
        None => false,
    }
}

impl App {
    /// Shows a toast.
    pub fn show_toast(&mut self, text: &str, now: Now)
        ensures
            *final(self) == (App { toast: final(self).toast, ..*old(self) }),
            toasts(final(self).toast, text@, now),
    {
        self.toast = Some((owned(text), now.tick_ms));
    }
}

// ---------- Pictures ----------

/// A picture to fetch; with a key and nonce its bytes are ciphertext.
pub struct ImageJob {
    pub url: String,
    pub key: Option<String>,
    pub nonce: Option<String>,
}

/// An [`ImageJob`] by what it holds.
pub struct ImageJobView {
    pub url: Seq<char>,
    pub key: Option<Seq<char>>,
    pub nonce: Option<Seq<char>>,
}

impl View for ImageJob {
    type V = ImageJobView;

    open spec fn view(&self) -> ImageJobView {
        ImageJobView { url: self.url@, key: opt_text(self.key), nonce: opt_text(self.nonce) }
    }
}

/// Jobs by what they hold.
pub open spec fn job_views(jobs: Seq<ImageJob>) -> Seq<ImageJobView> {
    Seq::new(jobs.len(), |i: int| jobs[i]@)
}

/// Jobs for plain pictures.
pub open spec fn plain_jobs(urls: Seq<Seq<char>>) -> Seq<ImageJobView> {
    Seq::new(urls.len(), |i: int| ImageJobView { url: urls[i], key: None, nonce: None })
}

/// The fetches for those jobs that name a picture which is not there yet.
pub open spec fn fetches(
    images: Map<Seq<char>, Vec<u8>>,
    jobs: Seq<ImageJobView>,
) -> Seq<EffectView>
    decreases jobs.len(),
{
    if jobs.len() == 0 {
        Seq::empty()
    } else {
        let before = fetches(images, jobs.drop_last());
        let j = jobs.last();
        if j.url.len() == 0 || images.contains_key(j.url) {
            before
        } else {
            before.push(EffectView::FetchImage { url: j.url, key: j.key, nonce: j.nonce })
        }
    }
}

fn copy_text(s: &Option<String>) -> (r: Option<String>)
    ensures
        r == *s,
{
    match s {
        Some(s) => Some(s.clone()),
        None => None,
    }
}

impl App {
    /// [`fetches`], computed.
    pub fn fetch_missing_images(&self, jobs: Vec<ImageJob>) -> (fx: Vec<Effect>)
        ensures
            views(fx@) == fetches(self.images@, job_views(jobs@)),
    {
        let ghost all = job_views(jobs@);
        let mut fx: Vec<Effect> = Vec::new();
        let mut i: usize = 0;
        assert(views(fx@) =~= fetches(self.images@, all.take(0)));
        while i < jobs.len()
            invariant
                i <= jobs@.len(),
                all == job_views(jobs@),
                views(fx@) == fetches(self.images@, all.take(i as int)),
            decreases jobs@.len() - i,
        {
            let j = &jobs[i];
            assert(all.take(i + 1).drop_last() =~= all.take(i as int));
            assert(all.take(i + 1).last() == j@);
            if !j.url.as_str().is_empty() && !self.images.contains(&j.url) {
                let e = Effect::FetchImage {
                    url: j.url.clone(),
                    key: copy_text(&j.key),
                    nonce: copy_text(&j.nonce),
                };
                let ghost before = views(fx@);
                fx.push(e);
                assert(views(fx@) =~= before.push(e@));
            }
            i += 1;
        }
        assert(all.take(all.len() as int) =~= all);
        fx
    }

    /// Fetches plain pictures that are not there yet.
    pub fn fetch_missing_avatars(&self, urls: Vec<String>) -> (fx: Vec<Effect>)
        ensures
            views(fx@) == fetches(self.images@, plain_jobs(texts(urls@))),
    {
        let mut jobs: Vec<ImageJob> = Vec::new();
        let ghost all = plain_jobs(texts(urls@));
        let mut i: usize = 0;
        while i < urls.len()
            invariant
                i <= urls@.len(),
                all == plain_jobs(texts(urls@)),
                jobs@.len() == i,
                forall|k: int| 0 <= k < i ==> (#[trigger] jobs@[k])@ == all[k],
            decreases urls@.len() - i,
        {
            jobs.push(ImageJob { url: urls[i].clone(), key: None, nonce: None });
            i += 1;
        }
        assert(job_views(jobs@) =~= all);
        self.fetch_missing_images(jobs)
    }

    /// Fetches one plain picture, if it is not there yet.
    pub fn fetch_avatar(&self, url: String) -> (fx: Vec<Effect>)
        ensures
            views(fx@) == fetches(self.images@, plain_jobs(seq![url@])),
    {
        let urls = vec![url];
        assert(texts(urls@) =~= seq![url@]);
        self.fetch_missing_avatars(urls)
    }
}

// ---------- Kinds of chats ----------

/// A chat that is encrypted with a shared key.
pub open spec fn shared_key_kind(kind: Option<String>) -> bool {
    text_is(kind, "group"@) || text_is(kind, "channel"@) || text_is(kind, "voice"@)
}

/// A chat in which `@everyone` pings.
pub open spec fn everyone_kind(kind: Option<String>) -> bool {
    text_is(kind, "channel"@) || text_is(kind, "group"@)
}

impl App {
    /// The key of a conversation, where it is known.
    pub open spec fn key_of(&self, conversation: Seq<char>) -> Option<GroupKey> {
        match self.group_keys {
            Some(keys) => if keys@.contains_key(conversation) {
                Some(keys@[conversation])
            } else {
                None
            },
            None => None,
        }
    }

    /// [`App::key_of`], computed.
    pub fn group_key(&self, conversation: &str) -> (r: Option<GroupKey>)
        ensures
            r == self.key_of(conversation@),
    {
        match &self.group_keys {
            Some(keys) => match keys.get(conversation) {
                Some(k) => Some(*k),
                None => None,
            },
            None => None,
        }
    }
}

} // verus!
