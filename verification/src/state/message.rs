//! Every event the update loop reacts to: clicks, text input, replies of the
//! backend, subscription pushes, call, tray and peer events. Grouped by the
//! part of the client that handles them.
//!
//! Errors in replies are texts that can be shown as they are.

use crate::state::types::{
    AdminStats, AdminUserDetail, AdminUserRow, AuthMode, BlockedUser, BotSummary, ChannelSummary,
    ConversationSummary, Friend, FriendSuggestion, FriendsFilter, GroupKey, ImagePick,
    IncomingMessage, IncomingRequest, MessageReport, MyCallInfo, OutgoingRequest, PeopleHit,
    ProfileView, ServerMemberRow, ServerRoleRow, ServerSettingsCategory, ServerStats,
    ServerSummary, Session, SettingsCategory, ShareTarget, SidebarTab, SocialStats, VoiceUserRow,
};
use crate::tray::TrayEvent;
use crate::update_check::UpdateOutcome;
use vstd::prelude::*;

verus! {

/// The long-term identity as read from disk: the published public key and the
/// private key.
#[derive(Debug)]
pub struct Identity {
    pub public_key: String,
    pub private_key: [u8; 32],
}

/// Connection, sign-in and e-mail verification.
pub enum AuthMessage {
    Connected,
    ConnectFailed(String),
    RetryConnect,
    SwitchAuthMode(AuthMode),
    UsernameInputChanged(String),
    PasswordInputChanged(String),
    DisplayNameInputChanged(String),
    EmailInputChanged(String),
    SubmitAuth,
    AuthFinished(Result<Session, String>),
    RestoreFinished(Result<Session, String>),
    /// The identity was read, or why not.
    IdentityLoaded(Result<Identity, String>),
    PublicKeyUploaded,
    EmailVerifyInputChanged(String),
    EmailVerifyCodeInputChanged(String),
    RequestEmailVerification,
    RequestEmailVerificationFinished(Result<(), String>),
    SubmitEmailVerificationCode,
    VerifyEmailCodeFinished(Result<(), String>),
    /// Back to the e-mail step without a round trip.
    ChangeEmailVerifyAddress,
    LogOut,
    LoggedOut,
}

/// The window, the tray, updates, and what closes with Escape.
pub enum WindowMessage {
    CheckForUpdate,
    UpdateCheckFinished(UpdateOutcome),
    /// Swap in the staged update and relaunch.
    RestartAndUpdate,
    MeasurePing,
    PingMeasured(Option<u64>),
    WindowCloseRequested,
    TrayEvent(TrayEvent),
    WindowFocusChanged(bool),
    ClearToast,
    Tick,
    HeartbeatFinished,
    SidebarTabChanged(SidebarTab),
    ChatFilterChanged(String),
    ToggleMembersPanel,
    EscapePressed,
}

/// Friends, requests, blocks and presence.
pub enum SocialMessage {
    FriendsUpdated(Vec<Friend>),
    RequestsUpdated(Vec<IncomingRequest>),
    OutgoingRequestsUpdated(Vec<OutgoingRequest>),
    SocialStatsUpdated(SocialStats),
    SuggestionsUpdated(Vec<FriendSuggestion>),
    PeopleSearchFinished(Result<Vec<PeopleHit>, String>),
    BlockedUpdated(Vec<BlockedUser>),
    SetFriendsFilter(FriendsFilter),
    FriendsFilterChanged(String),
    ToggleFavorite(String),
    FavoriteToggled(Result<(String, bool), String>),
    RespondAllIncoming(bool),
    RespondAllFinished(Result<u32, String>),
    CyclePresenceStatus,
    CycleFriendRequestPrivacy,
    AddFriendInputChanged(String),
    AddFriendNoteChanged(String),
    SendFriendRequest,
    FriendRequestFinished(Result<(), String>),
    /// A request straight to this username, from a profile card.
    SendFriendRequestToUser(String),
    ProfileFriendRequestFinished(Result<(), String>),
    RespondRequest(String, bool),
    RequestRespondFinished(Result<(), String>),
    CancelOutgoingRequest(String),
    CancelOutgoingFinished(Result<(), String>),
    RemoveFriend(String),
    RemoveFriendFinished(Result<(), String>),
    /// "Block" is a two-step confirm everywhere: this arms it.
    ConfirmBlockUser(String),
    CancelBlockUser,
    BlockUser(String),
    BlockFinished(Result<(), String>),
    UnblockUser(String),
    UnblockFinished,
}

/// What a friend's live secure channel reports.
pub enum PeerEvent {
    Status(String),
    HostInvite { payload: String, expires_at_ms: i64 },
    Connected { sas_emojis: String, transport: String, remote_fingerprint: String },
    Text(String),
    Photo { bytes: Vec<u8>, content_type: String },
    Error(String),
    Disconnected,
}

/// Live secure channels, one per online friend; the first field is the
/// friend's user id.
pub enum PeerMessage {
    PeerEvent(String, PeerEvent),
    /// The channel's worker takes commands from now on.
    PeerCmdReady(String),
    /// The backend delivered an invite (or none) for this friend's DM.
    PeerInviteUpdated(String, Option<String>),
    PeerInvitePublished(String, Result<(), String>),
    DirectConversationEnsured,
}

/// A key that waits for the key store to be read.
pub struct PendingKey {
    pub conversation_id: String,
    pub key: GroupKey,
}

/// What subscriptions deliver for the chats: lists, messages, keys, images.
pub enum FeedMessage {
    ConversationsUpdated(Vec<ConversationSummary>),
    MarkReadFinished,
    MessagesUpdated(Vec<IncomingMessage>),
    /// The messages of the open chat, opened again with a new key.
    MessagesReopened(Vec<IncomingMessage>),
    PinnedMessagesUpdated(Vec<IncomingMessage>),
    TypingUpdated(Vec<String>),
    TypingPingFinished,
    AvatarImageLoaded(String, Result<Vec<u8>, String>),
    /// The stored group keys were read; `pending` is a key to add to them.
    GroupKeysLoaded { keys: Vec<(String, GroupKey)>, pending: Option<PendingKey> },
    /// Unsealed key: (conversation id, key).
    GroupKeyLoaded(String, GroupKey),
    /// The identity that group keys are sealed for could not be read.
    GroupIdentityFailed(String),
    GroupKeyReady(Result<(), String>),
}

/// Opening chats and making groups.
pub enum RoomMessage {
    OpenSupportDm(String),
    /// (title, peer user id, conversation id)
    SupportDmOpened(Result<(String, String, String), String>),
    OpenConversationWithFriend(String),
    OpenConversationDirect(String),
    /// (title, peer user id, conversation id)
    ConversationOpened(Result<(String, Option<String>, String), String>),
    OpenChannel(String),
    ToggleGroupPanel,
    GroupNameInputChanged(String),
    ToggleGroupMember(String),
    CreateGroup,
    /// (name, conversation id)
    GroupCreateFinished(Result<(String, String), String>),
}

/// Servers and their settings.
pub enum ServerMessage {
    ServersUpdated(Vec<ServerSummary>),
    NewServerNameChanged(String),
    CreateServer,
    CreateServerFinished(Result<(), String>),
    JoinServerCodeChanged(String),
    JoinServer,
    JoinServerFinished(Result<(), String>),
    SelectServer(String),
    BackToServerList,
    GoHome,
    ToggleServerAddMenu,
    PickServerIcon,
    ServerIconPicked(ImagePick),
    ServerIconUploadFinished(Result<String, String>),
    RemoveServerIcon,
    ServerIconRemoveFinished(Result<(), String>),
    CustomSlugInputChanged(String),
    SaveCustomSlug,
    ClearCustomSlug,
    CustomSlugFinished(Result<String, String>),
    CopyInviteCode(String),
    CopyInviteLink(String),
    ToggleServerSettings,
    RenameServerInputChanged(String),
    RenameServer,
    RenameServerFinished(Result<(), String>),
    RegenerateInviteCode,
    RegenerateInviteCodeFinished(Result<(), String>),
    ToggleConfirmDeleteServer,
    DeleteServer,
    DeleteServerFinished(Result<(), String>),
    ServerSettingsCategoryChanged(ServerSettingsCategory),
    ServerDescriptionInputChanged(String),
    SaveServerDescription,
    SaveServerDescriptionFinished(Result<(), String>),
    /// The member about to get the server; "" cancels.
    ConfirmTransferOwnership(String),
    TransferOwnership(String),
    TransferOwnershipFinished(Result<(), String>),
    SetWelcomeChannel(String),
    SetWelcomeChannelFinished(Result<(), String>),
    ToggleInvitesPaused,
    SetInvitesPausedFinished(Result<(), String>),
    LoadServerStats,
    ServerStatsUpdated(Option<ServerStats>),
    MembersUpdated(Vec<ServerMemberRow>),
    KickMember(String),
    KickMemberFinished(Result<(), String>),
}

/// Channels of the open server and their permission overwrites.
pub enum ChannelMessage {
    ChannelsUpdated(Vec<ChannelSummary>),
    ToggleNewChannelInput,
    NewChannelNameChanged(String),
    NewChannelIsVoice(bool),
    ToggleNewChannelIsVoice,
    CreateChannel,
    CreateChannelFinished(Result<(), String>),
    StartRenameChannel(String, String),
    RenameChannelInputChanged(String),
    RenameChannel,
    RenameChannelFinished(Result<(), String>),
    CancelRenameChannel,
    DeleteChannel(String),
    DeleteChannelFinished(Result<(), String>),
    MoveChannelUp(String),
    MoveChannelDown(String),
    MoveChannelFinished(Result<(), String>),
    EditChannelPerms(String),
    CloseChannelPerms,
    /// (conversation id, rows of role id, allowed bits and denied bits)
    ChannelOverwritesLoaded(Result<(String, Vec<(String, u32, u32)>), String>),
    SelectChannelPermRole(String),
    CycleChannelOverwritePerm(u32),
    ChannelOverwriteSaved(Result<(), String>),
    ToggleChannelMute,
    ChannelMuteFinished(Result<bool, String>),
}

/// Roles of the open server.
pub enum RoleMessage {
    ServerRolesUpdated(Vec<ServerRoleRow>),
    NewRoleNameChanged(String),
    CreateRole,
    CreateRoleFinished(Result<(), String>),
    ToggleMemberRole(String, String),
    ToggleRoleFinished(Result<(), String>),
    ToggleMemberRolePicker(String),
    MyServerPermsUpdated(u32),
    SelectRoleForEdit(String),
    CloseRoleEditor,
    RoleNameEditChanged(String),
    SaveRoleName,
    SetRoleColor(String, String),
    ToggleRolePermission(String, u32),
    RoleMutationFinished(Result<(), String>),
    ConfirmDeleteRole(String),
    CancelDeleteRole,
    DeleteRole(String),
}

/// What sealing an outgoing message gave: the text to send, and the sealed
/// attachment where there is one.
pub struct SealedMessage {
    pub body: String,
    pub attachment: Option<Vec<u8>>,
}

/// Writing, sending and changing messages.
pub enum ComposeMessage {
    MessageInputChanged(String),
    MentionSuggestionPicked(String),
    PickAttachmentImage,
    AttachmentFilePicked(ImagePick),
    RemovePendingAttachment,
    OpenAttachmentPreview(String),
    CloseAttachmentPreview,
    SendMessage,
    /// The outgoing message was sealed for this chat (or could not be).
    MessageSealed(String, Option<SealedMessage>),
    /// The edited body of this message was sealed (or could not be).
    EditSealed(String, Option<String>),
    MessageSentFinished(Result<(), String>),
    EditMessage(String, String, bool),
    CancelEdit,
    EditFinished(Result<(), String>),
    DeleteMessage(String),
    DeleteFinished(Result<(), String>),
    PurgeMessage(String),
    PurgeFinished(Result<(), String>),
    CopyMessage(String),
    ToggleReaction(String, String),
    ReactionToggled(Result<(), String>),
    ReplyToMessage(String, String, String),
    CancelReply,
    MessageHovered(Option<String>),
    TogglePinsPanel,
    PinMessage(String),
    UnpinMessage(String),
    PinToggled(Result<(), String>),
    ArmReportMessage(String),
    CancelReportMessage,
    /// message id, message body, reason
    SubmitMessageReport(String, String, String),
    MessageReportFinished(Result<(), String>),
    ToggleClearChatConfirm,
    ConfirmClearChat,
    ClearChatFinished(Result<String, String>),
}

/// Privacy and storage preferences.
pub enum PrefsMessage {
    ToggleStoreHistoryGlobal,
    StoreHistoryGlobalFinished(Result<bool, String>),
    ToggleStoreHistoryThisChat,
    StoreHistoryChatFinished(Result<bool, String>),
    ConversationStorePrefLoaded(bool, bool),
    ToggleHideOnline,
    ToggleFriendsOnlyDms,
    ToggleDiscoverable,
    PrivacyFlagFinished(Result<(), String>),
    SignOutOtherSessions,
    SignOutOthersFinished(Result<u32, String>),
}

/// What the engine of a voice room reports.
pub enum RoomVoiceEvent {
    Connecting,
    Connected,
    Status(String),
    Ended,
    Failed(String),
}

/// Voice rooms.
pub enum VoiceMessage {
    JoinVoiceChannel,
    LeaveVoiceChannel,
    VoiceUsersUpdated(Vec<VoiceUserRow>),
    /// A peer's volume slider moved: the peer ("*" for the 1:1 call) and the
    /// bits of the gain.
    VoiceVolumeChanged(String, u32),
    /// `Ok(Some(channel))` = joined; `Ok(None)` = left.
    VoiceActionFinished(Result<Option<String>, String>),
    RoomVoiceEngineEvent(RoomVoiceEvent),
}

/// What the engine of a call reports. Numbers of the share statistics come
/// already written out.
pub enum CallEvent {
    Created,
    Connecting,
    Connected,
    Ended,
    Failed(String),
    ScreenFrame(Vec<u8>),
    ScreenShareStopped,
    ScreenShareFailed(String),
    ShareStats { fps: String, kbps: String, frame_kb: String, system_audio: bool },
    PeerMuteStream(bool),
}

/// Calls and screen sharing.
pub enum CallMessage {
    MyCallUpdated(Option<MyCallInfo>),
    StartCall,
    AcceptCall,
    DeclineCall,
    HangUp,
    ToggleMute,
    ToggleMuteAll,
    CallActionFinished(Result<(), String>),
    CallEngineEvent(CallEvent),
    ToggleSharePicker,
    ShareTargetsLoaded(Vec<ShareTarget>),
    /// The encoded target (see `encode_share_target`).
    StartShare(String),
    StopShare,
    ToggleShareViewSize,
    ToggleStreamMute,
    ToggleShareSystemAudio,
}

/// The admin panel.
pub enum AdminMessage {
    AdminUsersUpdated(Vec<AdminUserRow>),
    AdminSearchInputChanged(String),
    AdminSetRole(String, bool),
    AdminSetPlatformRole(String, String),
    AdminSetRoleFinished(Result<(), String>),
    AdminSetBanned(String, bool),
    AdminSetBannedFinished(Result<(), String>),
    LoadAdminStats,
    AdminStatsUpdated(Result<AdminStats, String>),
    /// 0 = All, 1 = Users, 2 = Staff, 3 = Banned.
    SetAdminFilter(i32),
    ToggleAdminUserDetail(String),
    AdminUserDetailUpdated(Option<AdminUserDetail>),
    AdminRevokeSessions(String),
    AdminRevokeSessionsFinished(Result<(), String>),
    LoadAdminReports,
    AdminReportsUpdated(Result<Vec<MessageReport>, String>),
    /// report id, resolution ("actioned" | "dismissed")
    AdminResolveReport(String, String),
    AdminResolveReportFinished(Result<(), String>),
}

/// The command palette.
pub enum PaletteMessage {
    OpenCommandPalette,
    CloseCommandPalette,
    CommandPaletteQueryChanged(String),
    /// Hits of conversation id, display line and message id.
    CommandPaletteSearchFinished(Result<Vec<(String, String, String)>, String>),
    CommandPalettePick(usize),
}

/// Profile cards, the settings screen and our own picture.
pub enum ProfileMessage {
    OpenProfile(String),
    ProfileLoaded(Result<ProfileView, String>),
    CloseProfile,
    /// With the names of the audio devices.
    OpenSettings(Vec<String>, Vec<String>),
    CloseSettings,
    SettingsCategoryChanged(SettingsCategory),
    SettingsDisplayNameChanged(String),
    SettingsStatusChanged(String),
    SettingsBioChanged(String),
    SettingsAvatarColorSelected(String),
    SaveProfile,
    ProfileSaveFinished(Result<(), String>),
    SettingsCurrentPasswordChanged(String),
    SettingsNewPasswordChanged(String),
    SettingsConfirmPasswordChanged(String),
    ChangePassword,
    PasswordChangeFinished(Result<(), String>),
    SettingsInputDeviceSelected(String),
    SettingsOutputDeviceSelected(String),
    /// The bits of the new threshold.
    NoiseGateChanged(u32),
    PickAvatarImage,
    AvatarFilePicked(ImagePick),
    AvatarUploadFinished(Result<String, String>),
    RemoveAvatarImage,
    AvatarRemoveFinished(Result<(), String>),
}

/// Bots.
pub enum BotMessage {
    CreateBot,
    /// (label, token)
    BotCreateFinished(Result<(String, String), String>),
    RefreshMyBots,
    MyBotsUpdated(Vec<BotSummary>),
    NewBotNameChanged(String),
    BotInviteUsernameChanged(String),
    InviteBotToServer,
    InviteBotFinished(Result<(), String>),
    RegenerateBotToken(String),
    BotTokenFinished(Result<String, String>),
    DeleteBot(String),
    DeleteBotFinished(Result<(), String>),
    DismissBotToken,
}

/// An event.
pub enum Message {
    Auth(AuthMessage),
    Window(WindowMessage),
    Social(SocialMessage),
    Peer(PeerMessage),
    Feed(FeedMessage),
    Room(RoomMessage),
    Server(ServerMessage),
    Channel(ChannelMessage),
    Role(RoleMessage),
    Compose(ComposeMessage),
    Prefs(PrefsMessage),
    Voice(VoiceMessage),
    Call(CallMessage),
    Admin(AdminMessage),
    Palette(PaletteMessage),
    Profile(ProfileMessage),
    Bot(BotMessage),
}

} // verus!
