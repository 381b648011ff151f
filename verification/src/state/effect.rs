//! What the update loop asks the outside world to do: calls of backend
//! functions, commands to the live channels, notifications and files. The
//! loop itself performs none of it.

use crate::state::message::Message;
use crate::state::types::{GroupKey, Session, ShareTarget};
use crate::strmap::texts;
use vstd::prelude::*;

verus! {

/// How a backend function is called.
#[derive(Debug, Clone, Copy, PartialEq, Eq, Structural)]
pub enum CallKind {
    Query,
    Mutation,
    Action,
}

/// An argument of a backend function.
pub enum Arg {
    Str(String),
    Bool(bool),
    Num(i64),
    Strs(Vec<String>),
}

/// An [`Arg`] by what it holds.
pub enum ArgView {
    Str(Seq<char>),
    Bool(bool),
    Num(int),
    Strs(Seq<Seq<char>>),
}

impl View for Arg {
    type V = ArgView;

    open spec fn view(&self) -> ArgView {
        match self {
            Arg::Str(s) => ArgView::Str(s@),
            Arg::Bool(b) => ArgView::Bool(*b),
            Arg::Num(n) => ArgView::Num(*n as int),
            Arg::Strs(v) => ArgView::Strs(texts(v@)),
        }
    }
}

/// Which message a call's reply becomes. Fields are what that message needs
/// besides the reply.
pub enum Reply {
    RestoreFinished { token: String },
    AuthFinished,
    /// The outcome does not matter; the next message is a successful
    /// `CallActionFinished`.
    Ignored,
    PublicKeyUploaded,
    RequestEmailVerificationFinished,
    VerifyEmailCodeFinished,
    /// The time until the reply, or `None` where the call failed.
    PingMeasured,
    DirectConversationEnsured,
    FavoriteToggled { friend_id: String },
    RespondAllFinished,
    PrivacyFlagFinished,
    PeerInvitePublished { peer_id: String },
    PinToggled,
    MessageReportFinished,
    AdminReportsUpdated,
    AdminResolveReportFinished,
    PeopleSearchFinished,
    FriendRequestFinished,
    ProfileFriendRequestFinished,
    RequestRespondFinished,
    CancelOutgoingFinished,
    SupportDmOpened { title: String, peer_id: String },
    RemoveFriendFinished,
    BlockFinished,
    UnblockFinished,
    ConversationOpened { title: String, peer_id: String },
    GroupCreateFinished { name: String },
    CreateServerFinished,
    JoinServerFinished,
    ServerIconUploadFinished,
    ServerIconRemoveFinished,
    CustomSlugFinished,
    /// `CustomSlugFinished` with an empty slug on success.
    CustomSlugCleared,
    CreateChannelFinished,
    RenameServerFinished,
    SaveServerDescriptionFinished,
    TransferOwnershipFinished,
    SetWelcomeChannelFinished,
    SetInvitesPausedFinished,
    ServerStatsUpdated,
    RegenerateInviteCodeFinished,
    DeleteServerFinished,
    KickMemberFinished,
    RenameChannelFinished,
    DeleteChannelFinished,
    MoveChannelFinished,
    ChannelOverwritesLoaded { conversation_id: String },
    ChannelOverwriteSaved,
    ChannelMuteFinished { muted: bool },
    MessageSentFinished,
    EditFinished,
    DeleteFinished,
    PurgeFinished,
    ReactionToggled,
    StoreHistoryGlobalFinished { store: bool },
    StoreHistoryChatFinished { store: bool },
    ConversationStorePrefLoaded,
    SignOutOthersFinished,
    VoiceJoined { conversation_id: String },
    VoiceLeft,
    CreateRoleFinished,
    ToggleRoleFinished,
    RoleMutationFinished,
    AdminSetRoleFinished,
    AdminSetBannedFinished,
    AdminStatsUpdated,
    AdminUserDetailUpdated,
    AdminRevokeSessionsFinished,
    BotCreateFinished { name: String },
    MyBotsUpdated,
    InviteBotFinished,
    BotTokenFinished,
    DeleteBotFinished,
    HeartbeatFinished,
    CallActionFinished,
    CommandPaletteSearchFinished,
    ProfileLoaded,
    ProfileSaveFinished,
    PasswordChangeFinished,
    AvatarUploadFinished,
    AvatarRemoveFinished,
    LoggedOut,
}

/// A call of a backend function.
pub struct Call {
    pub kind: CallKind,
    pub function: &'static str,
    pub args: Vec<(&'static str, Arg)>,
    pub reply: Reply,
}

/// An upload: ask for a URL, post the bytes there, then make the second call
/// with the id of the stored file as one more argument.
pub struct Upload {
    pub ask: Call,
    pub bytes: Vec<u8>,
    pub content_type: String,
    pub send: Call,
    pub storage_arg: &'static str,
    /// Whether an HTTP status other than success is an error of its own.
    pub strict: bool,
}

/// A command to the worker of a friend's live channel.
pub enum PeerCmd {
    InvitePayload(String),
    InvitePublished,
    InvitePublishFailed(String),
    SendText(String),
    SendPhoto { bytes: Vec<u8>, content_type: String },
    Shutdown,
}

/// A command to the screen share of a running call.
pub enum ShareCommand {
    Start { target: ShareTarget, include_system_audio: bool },
    Stop,
    SetSystemAudio(bool),
    SetRemoteStreamMuted(bool),
}

/// What a picked picture is for.
#[derive(Debug, Clone, Copy, PartialEq, Eq, Structural)]
pub enum PickPurpose {
    ServerIcon,
    Attachment,
    Avatar,
}

/// Something for the outside world to do.
#[allow(inconsistent_fields)]
pub enum Effect {
    Call(Call),
    Upload(Upload),
    /// Handle this message next.
    Dispatch(Message),
    /// Connect to the backend.
    Connect { url: String },
    SaveSession(Session),
    ClearSession,
    /// Read the identity; `IdentityLoaded` follows.
    LoadIdentity { user_id: String },
    /// Read the stored group keys; `GroupKeysLoaded` follows.
    LoadGroupKeys { user_id: String, pending: Option<(String, GroupKey)> },
    /// Store a group key.
    StoreGroupKey { conversation_id: String, key: GroupKey },
    /// Fetch or bootstrap the key of a conversation.
    ObtainGroupKey { token: String, conversation_id: String, user_id: String },
    /// Open the messages of this chat with its key; `MessagesReopened`
    /// follows.
    ReopenMessages { conversation_id: String },
    /// Seal a message (and its attachment) with a key; `MessageSealed`
    /// follows.
    SealMessage { conversation_id: String, key: GroupKey, body: String, attachment: Option<Vec<u8>> },
    /// Seal an edited body with a key; `EditSealed` follows.
    SealEdit { conversation_id: String, key: GroupKey, body: String, message_id: String },
    /// Fetch an image; with a key and nonce its bytes are ciphertext.
    FetchImage { url: String, key: Option<String>, nonce: Option<String> },
    MarkRead { conversation_id: String },
    TypingPing { conversation_id: String, typing: bool },
    SendPeerCmd { peer_id: String, cmd: PeerCmd },
    /// The friend's channel is gone.
    ForgetPeer { peer_id: String },
    /// Remove the leftovers of a chat from disk.
    WipeChat { user_id: String, conversation_id: Option<String>, peer_id: Option<String> },
    /// Remove a conversation's history on the backend, batch by batch.
    ClearConversation { token: String, conversation_id: String },
    CheckForUpdate,
    StageExeSwap { path: String, relaunch: bool },
    PersistSettings,
    Notify { title: String, body: String },
    NotifyPing,
    Beep,
    RingtoneStart,
    RingtoneStop,
    Clipboard(String),
    ScrollToBottom,
    PickImage(PickPurpose),
    ListShareTargets,
    ShareCommand(ShareCommand),
    /// A fresh command channel for the screen share of a new call.
    ResetShareChannel,
    /// Fresh mute switches for a new call.
    ResetCallMutes,
}

// ---------- Effects by what they hold ----------

/// The arguments of a call by what they hold.
pub open spec fn args_view(args: Seq<(&'static str, Arg)>) -> Seq<(Seq<char>, ArgView)> {
    Seq::new(args.len(), |i: int| (args[i].0@, args[i].1@))
}

/// A [`Call`] by what it holds.
pub struct CallView {
    pub kind: CallKind,
    pub function: Seq<char>,
    pub args: Seq<(Seq<char>, ArgView)>,
    pub reply: Reply,
}

impl View for Call {
    type V = CallView;

    open spec fn view(&self) -> CallView {
        CallView {
            kind: self.kind,
            function: self.function@,
            args: args_view(self.args@),
            reply: self.reply,
        }
    }
}

/// A [`PeerCmd`] by what it holds.
pub enum PeerCmdView {
    InvitePayload(Seq<char>),
    InvitePublished,
    InvitePublishFailed(Seq<char>),
    SendText(Seq<char>),
    SendPhoto { bytes: Seq<u8>, content_type: Seq<char> },
    Shutdown,
}

impl View for PeerCmd {
    type V = PeerCmdView;

    open spec fn view(&self) -> PeerCmdView {
        match self {
            PeerCmd::InvitePayload(s) => PeerCmdView::InvitePayload(s@),
            PeerCmd::InvitePublished => PeerCmdView::InvitePublished,
            PeerCmd::InvitePublishFailed(s) => PeerCmdView::InvitePublishFailed(s@),
            PeerCmd::SendText(s) => PeerCmdView::SendText(s@),
            PeerCmd::SendPhoto { bytes, content_type } => PeerCmdView::SendPhoto {
                bytes: bytes@,
                content_type: content_type@,
            },
            PeerCmd::Shutdown => PeerCmdView::Shutdown,
        }
    }
}

/// The characters of an optional text.
pub open spec fn opt_text(s: Option<String>) -> Option<Seq<char>> {
    match s {
        Some(s) => Some(s@),
        None => None,
    }
}

/// The bytes of an optional list.
pub open spec fn opt_bytes(s: Option<Vec<u8>>) -> Option<Seq<u8>> {
    match s {
        Some(s) => Some(s@),
        None => None,
    }
}

/// An [`Effect`] by what it holds.
#[allow(inconsistent_fields)]
pub enum EffectView {
    Call(CallView),
    Upload {
        ask: CallView,
        bytes: Seq<u8>,
        content_type: Seq<char>,
        send: CallView,
        storage_arg: Seq<char>,
        strict: bool,
    },
    Dispatch(Message),
    Connect { url: Seq<char> },
    SaveSession(Session),
    ClearSession,
    LoadIdentity { user_id: Seq<char> },
    LoadGroupKeys { user_id: Seq<char>, pending: Option<(Seq<char>, GroupKey)> },
    StoreGroupKey { conversation_id: Seq<char>, key: GroupKey },
    ObtainGroupKey { token: Seq<char>, conversation_id: Seq<char>, user_id: Seq<char> },
    ReopenMessages { conversation_id: Seq<char> },
    SealMessage {
        conversation_id: Seq<char>,
        key: GroupKey,
        body: Seq<char>,
        attachment: Option<Seq<u8>>,
    },
    SealEdit { conversation_id: Seq<char>, key: GroupKey, body: Seq<char>, message_id: Seq<char> },
    FetchImage { url: Seq<char>, key: Option<Seq<char>>, nonce: Option<Seq<char>> },
    MarkRead { conversation_id: Seq<char> },
    TypingPing { conversation_id: Seq<char>, typing: bool },
    SendPeerCmd { peer_id: Seq<char>, cmd: PeerCmdView },
    ForgetPeer { peer_id: Seq<char> },
    WipeChat {
        user_id: Seq<char>,
        conversation_id: Option<Seq<char>>,
        peer_id: Option<Seq<char>>,
    },
    ClearConversation { token: Seq<char>, conversation_id: Seq<char> },
    CheckForUpdate,
    StageExeSwap { path: Seq<char>, relaunch: bool },
    PersistSettings,
    Notify { title: Seq<char>, body: Seq<char> },
    NotifyPing,
    Beep,
    RingtoneStart,
    RingtoneStop,
    Clipboard(Seq<char>),
    ScrollToBottom,
    PickImage(PickPurpose),
    ListShareTargets,
    StartShare { window: bool, name: Seq<char>, include_system_audio: bool },
    StopShare,
    SetSystemAudio(bool),
    SetRemoteStreamMuted(bool),
    ResetShareChannel,
    ResetCallMutes,
}

impl View for Effect {
    type V = EffectView;

    open spec fn view(&self) -> EffectView {
        match self {
            Effect::Call(c) => EffectView::Call(c@),
            Effect::Upload(u) => EffectView::Upload {
                ask: u.ask@,
                bytes: u.bytes@,
                content_type: u.content_type@,
                send: u.send@,
                storage_arg: u.storage_arg@,
                strict: u.strict,
            },
            Effect::Dispatch(m) => EffectView::Dispatch(*m),
            Effect::Connect { url } => EffectView::Connect { url: url@ },
            Effect::SaveSession(s) => EffectView::SaveSession(*s),
            Effect::ClearSession => EffectView::ClearSession,
            Effect::LoadIdentity { user_id } => EffectView::LoadIdentity { user_id: user_id@ },
            Effect::LoadGroupKeys { user_id, pending } => EffectView::LoadGroupKeys {
                user_id: user_id@,
                pending: match pending {
                    Some(p) => Some((p.0@, p.1)),
                    None => None,
                },
            },
            Effect::StoreGroupKey { conversation_id, key } => EffectView::StoreGroupKey {
                conversation_id: conversation_id@,
                key: *key,
            },
            Effect::ObtainGroupKey { token, conversation_id, user_id } => EffectView::ObtainGroupKey {
                token: token@,
                conversation_id: conversation_id@,
                user_id: user_id@,
            },
            Effect::ReopenMessages { conversation_id } => EffectView::ReopenMessages {
                conversation_id: conversation_id@,
            },
            Effect::SealMessage { conversation_id, key, body, attachment } => EffectView::SealMessage {
                conversation_id: conversation_id@,
                key: *key,
                body: body@,
                attachment: opt_bytes(*attachment),
            },
            Effect::SealEdit { conversation_id, key, body, message_id } => EffectView::SealEdit {
                conversation_id: conversation_id@,
                key: *key,
                body: body@,
                message_id: message_id@,
            },
            Effect::FetchImage { url, key, nonce } => EffectView::FetchImage {
                url: url@,
                key: opt_text(*key),
                nonce: opt_text(*nonce),
            },
            Effect::MarkRead { conversation_id } => EffectView::MarkRead {
                conversation_id: conversation_id@,
            },
            Effect::TypingPing { conversation_id, typing } => EffectView::TypingPing {
                conversation_id: conversation_id@,
                typing: *typing,
            },
            Effect::SendPeerCmd { peer_id, cmd } => EffectView::SendPeerCmd {
                peer_id: peer_id@,
                cmd: cmd@,
            },
            Effect::ForgetPeer { peer_id } => EffectView::ForgetPeer { peer_id: peer_id@ },
            Effect::WipeChat { user_id, conversation_id, peer_id } => EffectView::WipeChat {
                user_id: user_id@,
                conversation_id: opt_text(*conversation_id),
                peer_id: opt_text(*peer_id),
            },
            Effect::ClearConversation { token, conversation_id } => EffectView::ClearConversation {
                token: token@,
                conversation_id: conversation_id@,
            },
            Effect::CheckForUpdate => EffectView::CheckForUpdate,
            Effect::StageExeSwap { path, relaunch } => EffectView::StageExeSwap {
                path: path@,
                relaunch: *relaunch,
            },
            Effect::PersistSettings => EffectView::PersistSettings,
            Effect::Notify { title, body } => EffectView::Notify { title: title@, body: body@ },
            Effect::NotifyPing => EffectView::NotifyPing,
            Effect::Beep => EffectView::Beep,
            Effect::RingtoneStart => EffectView::RingtoneStart,
            Effect::RingtoneStop => EffectView::RingtoneStop,
            Effect::Clipboard(s) => EffectView::Clipboard(s@),
            Effect::ScrollToBottom => EffectView::ScrollToBottom,
            Effect::PickImage(p) => EffectView::PickImage(*p),
            Effect::ListShareTargets => EffectView::ListShareTargets,
            Effect::ShareCommand(c) => match c {
                ShareCommand::Start { target, include_system_audio } => EffectView::StartShare {
                    window: target is Window,
                    name: target.name(),
                    include_system_audio: *include_system_audio,
                },
                ShareCommand::Stop => EffectView::StopShare,
                ShareCommand::SetSystemAudio(b) => EffectView::SetSystemAudio(*b),
                ShareCommand::SetRemoteStreamMuted(b) => EffectView::SetRemoteStreamMuted(*b),
            },
            Effect::ResetShareChannel => EffectView::ResetShareChannel,
            Effect::ResetCallMutes => EffectView::ResetCallMutes,
        }
    }
}

/// A list of effects by what they hold.
pub open spec fn views(fx: Seq<Effect>) -> Seq<EffectView> {
    Seq::new(fx.len(), |i: int| fx[i]@)
}

// ---------- Constructors ----------

/// No effect.
pub fn nothing() -> (v: Vec<Effect>)
    ensures
        views(v@) == Seq::<EffectView>::empty(),
{
    let v: Vec<Effect> = Vec::new();
    assert(views(v@) =~= Seq::<EffectView>::empty());
    v
}

/// One effect.
pub fn one(e: Effect) -> (v: Vec<Effect>)
    ensures
        views(v@) == seq![e@],
{
    let mut v: Vec<Effect> = Vec::new();
    v.push(e);
    assert(views(v@) =~= seq![e@]);
    v
}

/// Two effects.
pub fn two(a: Effect, b: Effect) -> (v: Vec<Effect>)
    ensures
        views(v@) == seq![a@, b@],
{
    let mut v: Vec<Effect> = Vec::new();
    v.push(a);
    v.push(b);
    assert(views(v@) =~= seq![a@, b@]);
    v
}

/// Some effects and then others.
pub fn both(a: Vec<Effect>, b: Vec<Effect>) -> (v: Vec<Effect>)
    ensures
        views(v@) == views(a@) + views(b@),
{
    let mut v = a;
    let mut b = b;
    let ghost x = v@;
    let ghost y = b@;
    v.append(&mut b);
    assert(v@ == x + y);
    assert(views(v@) =~= views(x) + views(y));
    v
}

/// A text argument.
pub fn arg(s: &String) -> (a: Arg)
    ensures
        a@ == ArgView::Str(s@),
{
    Arg::Str(s.clone())
}

} // verus!
