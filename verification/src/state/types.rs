//! Plain data types shared across the client: session and user info, the rows
//! that the backend hands out, and small UI-state enums (which tab is
//! selected, which settings category, and so on).

use crate::clock::now_ms;
use crate::text::same;
use vstd::prelude::*;

verus! {

/// A presence timestamp within this many ms of "now" counts as online. The
/// backend writes a heartbeat at most every 30 s and uses the same window, so
/// nobody flickers offline between two heartbeats.
pub const ONLINE_THRESHOLD_MS: i64 = 90_000;

/// Seen within the threshold before `now`; `0` means never seen.
pub open spec fn seen_recently(last_seen_at: int, now: int) -> bool {
    last_seen_at > 0 && now - last_seen_at < ONLINE_THRESHOLD_MS
}

/// Whether a user last seen at `last_seen_at` (ms since epoch, 0 = never)
/// counts as online at `now`.
pub fn is_online_at(last_seen_at: i64, now: i64) -> (r: bool)
    ensures
        r == seen_recently(last_seen_at as int, now as int),
{
    if last_seen_at <= 0 {
        return false;
    }
    now as i128 - (last_seen_at as i128) < ONLINE_THRESHOLD_MS as i128
}

/// Whether a user last seen at `last_seen_at` counts as online right now.
pub fn is_online(last_seen_at: i64) -> (r: bool)
    ensures
        exists|now: int| 0 <= now && r == #[trigger] seen_recently(last_seen_at as int, now),
{
    let now = now_ms();
    let r = is_online_at(last_seen_at, now);
    assert(r == seen_recently(last_seen_at as int, now as int));
    r
}

// ---------- Session and people ----------

/// The signed-in user, as the server last described them.
#[derive(Debug)]
pub struct Session {
    pub token: String,
    pub user_id: String,
    pub username: String,
    pub display_name: String,
    /// user | moderator | admin
    pub platform_role: String,
    pub is_admin: bool,
    pub is_moderator: bool,
    pub avatar_color: String,
    pub status_message: String,
    pub bio: String,
    pub avatar_image_url: String,
    /// When false, the backend will not persist chats involving this user.
    pub store_chat_history: bool,
    pub hide_online_status: bool,
    pub friends_only_dms: bool,
    pub discoverable: bool,
    /// everyone | mutual_servers | nobody
    pub friend_request_privacy: String,
    /// online | idle | dnd | invisible
    pub presence_status: String,
    pub email: String,
    pub email_verified: bool,
    pub plus_active: bool,
    /// ms epoch; 0 if inactive.
    pub plus_expires_at: i64,
    pub profile_banner_url: String,
}

impl Session {
    /// A copy of the session.
    pub fn copy(&self) -> (r: Self)
        ensures
            r == *self,
    {
        Session {
            token: self.token.clone(),
            user_id: self.user_id.clone(),
            username: self.username.clone(),
            display_name: self.display_name.clone(),
            platform_role: self.platform_role.clone(),
            is_admin: self.is_admin,
            is_moderator: self.is_moderator,
            avatar_color: self.avatar_color.clone(),
            status_message: self.status_message.clone(),
            bio: self.bio.clone(),
            avatar_image_url: self.avatar_image_url.clone(),
            store_chat_history: self.store_chat_history,
            hide_online_status: self.hide_online_status,
            friends_only_dms: self.friends_only_dms,
            discoverable: self.discoverable,
            friend_request_privacy: self.friend_request_privacy.clone(),
            presence_status: self.presence_status.clone(),
            email: self.email.clone(),
            email_verified: self.email_verified,
            plus_active: self.plus_active,
            plus_expires_at: self.plus_expires_at,
            profile_banner_url: self.profile_banner_url.clone(),
        }
    }
}

/// One friend.
#[derive(Debug)]
pub struct Friend {
    pub user_id: String,
    pub username: String,
    pub display_name: String,
    pub last_seen_at: i64,
    /// online | idle | dnd | offline
    pub presence: String,
    pub avatar_color: String,
    pub avatar_image_url: String,
    pub public_key: String,
    pub status_message: String,
    pub nickname: String,
    pub favorite: bool,
    pub private_note: String,
    pub friends_since: i64,
    pub mutual_servers: Vec<String>,
    pub is_staff: bool,
}

impl Friend {
    /// The nickname where there is one, else the display name.
    pub open spec fn shown_name(&self) -> Seq<char> {
        if self.nickname@.len() == 0 {
            self.display_name@
        } else {
            self.nickname@
        }
    }

    /// The presence says so, or the friend was seen recently.
    pub open spec fn online_like(&self, now: int) -> bool {
        ||| self.presence@ == "online"@
        ||| self.presence@ == "idle"@
        ||| self.presence@ == "dnd"@
        ||| seen_recently(self.last_seen_at as int, now)
    }

    /// [`Friend::shown_name`], computed.
    pub fn label(&self) -> (r: &str)
        ensures
            r@ == self.shown_name(),
    {
        if self.nickname.as_str().is_empty() {
            self.display_name.as_str()
        } else {
            self.nickname.as_str()
        }
    }

    /// [`Friend::online_like`] at `now`, computed.
    pub fn is_online_like_at(&self, now: i64) -> (r: bool)
        ensures
            r == self.online_like(now as int),
    {
        same(&self.presence, "online") || same(&self.presence, "idle") || same(
            &self.presence,
            "dnd",
        ) || is_online_at(self.last_seen_at, now)
    }

    /// Whether the friend counts as online right now.
    pub fn is_online_like(&self) -> (r: bool)
        ensures
            exists|now: int| 0 <= now && r == #[trigger] self.online_like(now),
    {
        let now = now_ms();
        let r = self.is_online_like_at(now);
        assert(r == self.online_like(now as int));
        r
    }
}

/// A user on the block list.
#[derive(Debug)]
pub struct BlockedUser {
    pub user_id: String,
    pub display_name: String,
}

/// A friend request to us.
#[derive(Debug)]
pub struct IncomingRequest {
    pub request_id: String,
    pub from_user_id: String,
    pub from_username: String,
    pub from_display_name: String,
    pub from_avatar_color: String,
    pub from_avatar_image_url: String,
    pub note: String,
    pub sent_at: i64,
    pub from_status_message: String,
    pub mutual_servers: Vec<String>,
    pub presence: String,
    pub is_staff: bool,
}

/// A hit of the people search.
#[derive(Debug)]
pub struct PeopleHit {
    pub user_id: String,
    pub username: String,
    pub display_name: String,
    pub avatar_color: String,
    pub avatar_image_url: String,
    pub status_message: String,
    pub presence: String,
    pub relation: String,
    pub incoming_request_id: String,
    pub mutual_servers: Vec<String>,
    pub is_staff: bool,
}

/// Someone the backend suggests as a friend.
#[derive(Debug)]
pub struct FriendSuggestion {
    pub user_id: String,
    pub username: String,
    pub display_name: String,
    pub avatar_color: String,
    pub avatar_image_url: String,
    pub status_message: String,
    pub presence: String,
    pub mutual_servers: Vec<String>,
}

/// Counters of the Friends tab.
#[derive(Debug, Clone, Copy)]
pub struct SocialStats {
    pub friends_total: u32,
    pub friends_online: u32,
    pub incoming_pending: u32,
    pub outgoing_pending: u32,
}

/// A friend request of ours.
#[derive(Debug)]
pub struct OutgoingRequest {
    pub request_id: String,
    pub to_user_id: String,
    pub to_username: String,
    pub to_display_name: String,
    pub to_avatar_color: String,
    pub to_avatar_image_url: String,
    pub note: String,
    pub sent_at: i64,
}

/// A profile card.
#[derive(Debug)]
pub struct ProfileView {
    pub user_id: String,
    pub username: String,
    pub display_name: String,
    pub avatar_color: String,
    pub avatar_image_url: String,
    pub status_message: String,
    pub bio: String,
    pub last_seen_at: i64,
    pub presence: String,
    pub is_staff: bool,
    pub is_friend: bool,
    pub can_support_dm: bool,
    pub relation: String,
    pub request_id: String,
    pub mutual_servers: Vec<String>,
    pub favorite: bool,
    pub nickname: String,
    pub private_note: String,
    pub plus_active: bool,
    pub profile_banner_url: String,
}

// ---------- Conversations and messages ----------

/// A row of the chat list.
#[derive(Debug)]
pub struct ConversationSummary {
    pub conversation_id: String,
    pub title: String,
    /// direct | group | channel | voice
    pub kind: String,
    pub peer_user_id: Option<String>,
    pub last_message_at: i64,
    pub unread: bool,
    /// Unread messages that @-mention us -- the sidebar badge.
    pub mention_count: u32,
    /// A chat with the support staff.
    pub is_support: bool,
}

/// One chat message.
#[derive(Debug)]
pub struct ChatMessage {
    pub id: String,
    pub author_id: String,
    pub author_name: String,
    pub author_avatar_color: String,
    pub author_avatar_url: String,
    pub author_is_bot: bool,
    pub author_plus_active: bool,
    pub body: String,
    /// text | call
    pub kind: String,
    pub attachment_url: String,
    /// When set, `attachment_url` points at ciphertext that these open; they
    /// travel inside the encrypted message.
    pub attachment_key: Option<String>,
    pub attachment_nonce: Option<String>,
    /// (emoji, count, reacted by us)
    pub reactions: Vec<(String, u32, bool)>,
    /// (author, snippet)
    pub reply_to: Option<(String, String)>,
    pub encrypted: bool,
    pub sent_at: i64,
    pub deleted: bool,
    pub edited: bool,
    pub pinned: bool,
}

/// What opening a sealed text gave.
#[derive(Debug)]
pub struct Opened {
    pub text: String,
    pub attachment_key: Option<String>,
    pub attachment_nonce: Option<String>,
}

/// A text as it arrived: whether it has the shape of a group ciphertext, and
/// what opening it with the conversation's key gave.
#[derive(Debug)]
pub struct Blob {
    pub sealed: bool,
    pub opened: Option<Opened>,
}

/// A message as it arrived, with what its body and its reply snippet are.
#[derive(Debug)]
pub struct IncomingMessage {
    pub message: ChatMessage,
    pub body: Blob,
    pub snippet: Blob,
}

/// An image that waits to be sent.
#[derive(Debug)]
pub struct PendingAttachment {
    pub bytes: Vec<u8>,
    pub content_type: String,
}

/// The shared key of a group or channel.
#[derive(Debug, Clone, Copy)]
pub struct GroupKey {
    pub epoch: u32,
    pub key: [u8; 32],
}

/// What a file dialog for a picture gave.
#[derive(Debug)]
pub enum ImagePick {
    Cancelled,
    TooLarge,
    /// The bytes and their content type.
    Ready(Vec<u8>, String),
}

// ---------- Calls ----------

/// The call that the server knows us to be in.
#[derive(Debug)]
pub struct MyCallInfo {
    pub call_id: String,
    pub is_caller: bool,
    /// ringing | active
    pub status: String,
    pub peer_display_name: String,
    pub offer_sdp: String,
}

impl MyCallInfo {
    /// Someone else is calling and nobody has answered yet.
    pub open spec fn rings(&self) -> bool {
        self.status@ == "ringing"@ && !self.is_caller
    }

    /// [`MyCallInfo::rings`], computed.
    pub fn is_ringing(&self) -> (r: bool)
        ensures
            r == self.rings(),
    {
        same(&self.status, "ringing") && !self.is_caller
    }
}

/// Our side of a call.
#[derive(Debug)]
pub enum CallRole {
    Caller { conversation_id: String, callee_id: String },
    Callee { call_id: String, offer_sdp: String },
}

/// Something that can be shared: a monitor by its name or a window by its
/// title.
#[derive(Debug, PartialEq, Eq)]
pub enum ShareTarget {
    Monitor(String),
    Window(String),
}

impl ShareTarget {
    /// The monitor's name or the window's title.
    pub open spec fn name(&self) -> Seq<char> {
        match self {
            ShareTarget::Monitor(name) => name@,
            ShareTarget::Window(title) => title@,
        }
    }

    /// [`ShareTarget::name`], computed.
    pub fn label(&self) -> (r: &str)
        ensures
            r@ == self.name(),
    {
        match self {
            ShareTarget::Monitor(name) => name.as_str(),
            ShareTarget::Window(title) => title.as_str(),
        }
    }
}

// ---------- Administration ----------

/// A row of the admin panel's user list.
#[derive(Debug)]
pub struct AdminUserRow {
    pub user_id: String,
    pub username: String,
    pub display_name: String,
    pub role: String,
    pub banned: bool,
    /// ms epoch; 0 for a permanent ban.
    pub ban_expires_at: i64,
    pub muted: bool,
    pub mute_expires_at: i64,
    pub plus_active: bool,
    pub plus_expires_at: i64,
}

/// Platform-wide counters of the admin dashboard.
#[derive(Debug, Clone, Copy)]
pub struct AdminStats {
    pub total_users: i64,
    pub online: i64,
    pub banned: i64,
    pub staff: i64,
    pub bots: i64,
    pub servers: i64,
}

/// One reported message in the staff's review queue.
#[derive(Debug)]
pub struct MessageReport {
    pub report_id: String,
    pub message_id: String,
    pub conversation_label: String,
    pub reporter_username: String,
    pub author_username: String,
    pub message_body: String,
    pub reason: String,
    pub status: String,
    pub created_at: i64,
}

/// Expanded detail for one user in the admin drawer.
#[derive(Debug)]
pub struct AdminUserDetail {
    pub user_id: String,
    pub username: String,
    pub display_name: String,
    pub role: String,
    pub banned: bool,
    pub ban_expires_at: i64,
    pub muted: bool,
    pub mute_expires_at: i64,
    pub is_bot: bool,
    pub bio: String,
    pub status_message: String,
    pub avatar_color: String,
    pub avatar_image_url: String,
    pub created_at: i64,
    pub online: bool,
    pub last_seen_at: i64,
    pub server_names: Vec<String>,
    pub friend_count: i64,
}

// ---------- Servers ----------

/// A server we are a member of.
#[derive(Debug)]
pub struct ServerSummary {
    pub server_id: String,
    pub name: String,
    pub is_owner: bool,
    pub invite_code: String,
    pub icon_url: String,
    pub custom_slug: String,
    pub description: String,
    pub created_at: i64,
    /// Where a new member lands first ("" = first text channel).
    pub welcome_channel_id: String,
    /// When true the public invite code is dormant.
    pub invites_paused: bool,
}

impl ServerSummary {
    /// A copy of the row.
    pub fn copy(&self) -> (r: Self)
        ensures
            r == *self,
    {
        ServerSummary {
            server_id: self.server_id.clone(),
            name: self.name.clone(),
            is_owner: self.is_owner,
            invite_code: self.invite_code.clone(),
            icon_url: self.icon_url.clone(),
            custom_slug: self.custom_slug.clone(),
            description: self.description.clone(),
            created_at: self.created_at,
            welcome_channel_id: self.welcome_channel_id.clone(),
            invites_paused: self.invites_paused,
        }
    }
}

/// Read-only counters of the server overview.
#[derive(Debug)]
pub struct ServerStats {
    pub member_count: i64,
    pub text_channels: i64,
    pub voice_channels: i64,
    pub role_count: i64,
    pub message_count: i64,
    pub messages_capped: bool,
    pub created_at: i64,
    pub oldest_member_name: String,
    pub oldest_member_joined_at: i64,
}

/// A channel of the open server.
#[derive(Debug)]
pub struct ChannelSummary {
    pub conversation_id: String,
    pub name: String,
    /// text | voice
    pub channel_type: String,
    pub mention_count: u32,
    pub category_id: String,
    pub position: i64,
    pub is_announcement: bool,
    pub is_system: bool,
    pub muted: bool,
    pub can_send: bool,
    pub permissions: u32,
}

/// One custom role of a member.
#[derive(Debug)]
pub struct MemberRoleTag {
    pub role_id: String,
    pub name: String,
    pub color: String,
}

/// A member of the open server.
#[derive(Debug)]
pub struct ServerMemberRow {
    pub user_id: String,
    pub display_name: String,
    pub username: String,
    pub avatar_color: String,
    pub avatar_image_url: String,
    pub is_owner: bool,
    pub is_bot: bool,
    /// user | moderator | admin (platform staff badge)
    pub platform_role: String,
    pub plus_active: bool,
    pub last_seen_at: i64,
    pub roles: Vec<MemberRoleTag>,
}

/// A bot of ours.
#[derive(Debug)]
pub struct BotSummary {
    pub bot_id: String,
    pub username: String,
    pub display_name: String,
    pub avatar_color: String,
}

/// A role of the open server.
#[derive(Debug)]
pub struct ServerRoleRow {
    pub role_id: String,
    pub name: String,
    pub color: String,
    pub position: i64,
    pub permissions: u32,
}

/// Someone in a voice room.
#[derive(Debug)]
pub struct VoiceUserRow {
    pub user_id: String,
    pub display_name: String,
}

// ---------- UI state ----------

/// Which friends the Friends tab lists.
#[derive(Debug, Clone, Copy, PartialEq, Eq, Structural)]
pub enum FriendsFilter {
    All,
    Online,
    Favorites,
}

/// Signing in or signing up.
#[derive(Debug, Clone, Copy, PartialEq, Eq, Structural)]
pub enum AuthMode {
    Login,
    Register,
}

/// The tab of the sidebar.
#[derive(Debug, Clone, Copy, PartialEq, Eq, Structural)]
pub enum SidebarTab {
    Chats,
    Friends,
    Requests,
    Servers,
    Admin,
}

/// The page of the server settings.
#[derive(Debug, Clone, Copy, PartialEq, Eq, Structural)]
pub enum ServerSettingsCategory {
    Overview,
    Channels,
    Members,
    Roles,
    Invites,
    Danger,
}

/// The page of the settings.
#[derive(Debug, Clone, Copy, PartialEq, Eq, Structural)]
pub enum SettingsCategory {
    Account,
    Privacy,
    Plus,
    Bots,
    Voice,
    Appearance,
    About,
}

/// What the window itself should do.
#[derive(Debug, Clone, Copy, PartialEq, Eq, Structural)]
pub enum WindowAction {
    Exit,
    HideToTray,
    ShowAndFocus,
}

// Permission bits of roles and channel overwrites, as the backend has them.
pub const PERM_VIEW_CHANNELS: u32 = 1;

pub const PERM_SEND_MESSAGES: u32 = 2;

pub const PERM_MANAGE_CHANNELS: u32 = 4;

pub const PERM_KICK_MEMBERS: u32 = 8;

pub const PERM_MANAGE_ROLES: u32 = 16;

pub const PERM_MANAGE_SERVER: u32 = 32;

pub const PERM_CONNECT_VOICE: u32 = 64;

pub const PERM_SPEAK: u32 = 128;

pub const PERM_ANNOUNCE: u32 = 256;

} // verus!
