//! Preferences, the profile, bots, and administration.

use crate::laws::asked::{
    asks, carries, changes, changes_server, lemma_request, looks_up, online, switch, text,
};
use crate::state::app::{App, Now};
use crate::state::effect::{CallKind, EffectView, PickPurpose, Reply};
use crate::state::message::{
    AdminMessage, BotMessage, Message, PrefsMessage, ProfileMessage,
};
use crate::state::update::step;
use crate::text::{byte_len, text_is, trimmed};
use vstd::prelude::*;

verus! {

/// The privacy switches: each turns over in the session at once, and what the
/// session then says is what is asked for, under that switch's own name; no
/// other switch changes.
pub proof fn privacy_switches_ask_for_what_they_show(
    pre: App,
    m: PrefsMessage,
    now: Now,
    post: App,
    fx: Seq<EffectView>,
    token: Seq<char>,
)
    requires
        step(pre, Message::Prefs(m), now, post, fx),
        online(pre, token),
        m is ToggleHideOnline || m is ToggleFriendsOnlyDms || m is ToggleDiscoverable,
    ensures
        post.session is Some,
        post.session->0.token == pre.session->0.token,
        post.session->0.user_id == pre.session->0.user_id,
        post.session->0.store_chat_history == pre.session->0.store_chat_history,
        (post.session->0.hide_online_status != pre.session->0.hide_online_status)
            <==> m is ToggleHideOnline,
        (post.session->0.friends_only_dms != pre.session->0.friends_only_dms)
            <==> m is ToggleFriendsOnlyDms,
        (post.session->0.discoverable != pre.session->0.discoverable) <==> m is ToggleDiscoverable,
        m is ToggleHideOnline ==> changes(
            fx,
            token,
            "prefs:setPrivacyFlags"@,
            seq![switch("hideOnlineStatus"@, post.session->0.hide_online_status)],
            Reply::PrivacyFlagFinished,
        ),
        m is ToggleFriendsOnlyDms ==> changes(
            fx,
            token,
            "prefs:setPrivacyFlags"@,
            seq![switch("friendsOnlyDms"@, post.session->0.friends_only_dms)],
            Reply::PrivacyFlagFinished,
        ),
        m is ToggleDiscoverable ==> changes(
            fx,
            token,
            "prefs:setPrivacyFlags"@,
            seq![switch("discoverable"@, post.session->0.discoverable)],
            Reply::PrivacyFlagFinished,
        ),
{
    broadcast use lemma_request;

}

/// Whether history is kept: the opposite of what holds is asked for, for
/// everything or for the open chat, and it holds once the server says so.
pub proof fn history_switches(
    pre: App,
    m: PrefsMessage,
    now: Now,
    post: App,
    fx: Seq<EffectView>,
    token: Seq<char>,
)
    requires
        step(pre, Message::Prefs(m), now, post, fx),
        online(pre, token),
    ensures
        m is ToggleStoreHistoryGlobal ==> post == pre && changes(
            fx,
            token,
            "prefs:setStoreChatHistory"@,
            seq![switch("store"@, !pre.session->0.store_chat_history)],
            Reply::StoreHistoryGlobalFinished { store: !pre.session->0.store_chat_history },
        ),
        m is StoreHistoryGlobalFinished && m->StoreHistoryGlobalFinished_0 is Ok
            ==> post.session is Some && post.session->0.store_chat_history
            == m->StoreHistoryGlobalFinished_0->Ok_0 && post.session->0.token
            == pre.session->0.token && post.chat == pre.chat && fx.len() == 0,
        m is StoreHistoryGlobalFinished && m->StoreHistoryGlobalFinished_0 is Err ==> post.session
            == pre.session && post.settings.profile_status == Some(
            m->StoreHistoryGlobalFinished_0->Err_0,
        ),
        m is ToggleStoreHistoryThisChat && pre.place.conversation is Some ==> post == pre && changes(
            fx,
            token,
            "prefs:setConversationStore"@,
            seq![
                text("conversationId"@, pre.place.conversation->0@),
                switch("store"@, !pre.chat.store_enabled),
            ],
            Reply::StoreHistoryChatFinished { store: !pre.chat.store_enabled },
        ),
        m is ToggleStoreHistoryThisChat && pre.place.conversation is None ==> post == pre
            && fx.len() == 0,
        m is StoreHistoryChatFinished && m->StoreHistoryChatFinished_0 is Ok
            ==> post.chat.store_enabled == m->StoreHistoryChatFinished_0->Ok_0 && post.session
            == pre.session && post.chat.messages == pre.chat.messages,
        m is StoreHistoryChatFinished && m->StoreHistoryChatFinished_0 is Ok
            && pre.place.conversation is Some ==> looks_up(
            fx,
            token,
            "prefs:getConversationStore"@,
            seq![text("conversationId"@, pre.place.conversation->0@)],
            Reply::ConversationStorePrefLoaded,
        ),
        m is StoreHistoryChatFinished && m->StoreHistoryChatFinished_0 is Err
            ==> post.chat.store_enabled == pre.chat.store_enabled && post.chat.error == Some(
            m->StoreHistoryChatFinished_0->Err_0,
        ),
        m is ConversationStorePrefLoaded ==> post.chat.store_enabled
            == m->ConversationStorePrefLoaded_0 && post.chat.store_allowed
            == m->ConversationStorePrefLoaded_1 && fx.len() == 0,
        m is SignOutOtherSessions ==> post == pre && changes(
            fx,
            token,
            "prefs:signOutOtherSessions"@,
            seq![],
            Reply::SignOutOthersFinished,
        ),
        m is PrivacyFlagFinished && m->PrivacyFlagFinished_0 is Err
            ==> post.settings.profile_status == Some(m->PrivacyFlagFinished_0->Err_0) && fx.len()
            == 0,
        m is SignOutOthersFinished && m->SignOutOthersFinished_0 is Err
            ==> post.settings.profile_status == Some(m->SignOutOthersFinished_0->Err_0),
{
    broadcast use lemma_request;

}

/// The settings open with what the session says of us and with no password in
/// them.
pub proof fn settings_open_with_our_profile(
    pre: App,
    inputs: Vec<String>,
    outputs: Vec<String>,
    now: Now,
    post: App,
    fx: Seq<EffectView>,
)
    requires
        step(
            pre,
            Message::Profile(ProfileMessage::OpenSettings(inputs, outputs)),
            now,
            post,
            fx,
        ),
    ensures
        post.settings.open,
        post.settings.current_password_input@.len() == 0,
        post.settings.new_password_input@.len() == 0,
        post.settings.confirm_password_input@.len() == 0,
        post.settings.profile_status is None,
        post.settings.password_status is None,
        post.profile.viewing is None,
        post.audio.input_devices == inputs,
        post.audio.output_devices == outputs,
        post.session == pre.session,
        pre.session is Some ==> {
            &&& post.settings.display_name_input == pre.session->0.display_name
            &&& post.settings.status_input == pre.session->0.status_message
            &&& post.settings.bio_input == pre.session->0.bio
            &&& pre.session->0.avatar_color@.len() > 0 ==> post.settings.avatar_color
                == pre.session->0.avatar_color
        },
        fx == seq![EffectView::Dispatch(Message::Bot(BotMessage::RefreshMyBots))],
{
}

/// Saving the profile sends each text under its own name, and what was saved
/// is what the session shows after that; a profile without a name is not sent.
pub proof fn profiles_are_saved_as_entered(
    pre: App,
    m: ProfileMessage,
    now: Now,
    post: App,
    fx: Seq<EffectView>,
    token: Seq<char>,
)
    requires
        step(pre, Message::Profile(m), now, post, fx),
        online(pre, token),
    ensures
        m is SaveProfile && trimmed(pre.settings.display_name_input@).len() > 0 ==> post == pre
            && changes(
            fx,
            token,
            "profile:updateProfile"@,
            seq![
                text("displayName"@, trimmed(pre.settings.display_name_input@)),
                text("statusMessage"@, trimmed(pre.settings.status_input@)),
                text("bio"@, trimmed(pre.settings.bio_input@)),
                text("avatarColor"@, pre.settings.avatar_color@),
            ],
            Reply::ProfileSaveFinished,
        ),
        m is SaveProfile && trimmed(pre.settings.display_name_input@).len() == 0 ==> fx.len() == 0
            && text_is(post.settings.profile_status, "Display name can't be empty"@),
        m is ProfileSaveFinished && m->ProfileSaveFinished_0 is Ok ==> {
            &&& post.session is Some
            &&& post.session->0.display_name@ == trimmed(pre.settings.display_name_input@)
            &&& post.session->0.status_message@ == trimmed(pre.settings.status_input@)
            &&& post.session->0.bio@ == trimmed(pre.settings.bio_input@)
            &&& post.session->0.avatar_color == pre.settings.avatar_color
            &&& post.session->0.token == pre.session->0.token
            &&& post.session->0.username == pre.session->0.username
            &&& fx.len() == 0
        },
        m is ProfileSaveFinished && m->ProfileSaveFinished_0 is Err ==> post.session == pre.session
            && post.settings.profile_status == Some(m->ProfileSaveFinished_0->Err_0),
{
    broadcast use lemma_request;

}

/// A password is changed only from the current one to a new one of six bytes
/// or more that was entered twice and differs; both are sent under their own
/// names, and none is left in the form once it is changed.
pub proof fn passwords_are_changed_with_care(
    pre: App,
    m: ProfileMessage,
    now: Now,
    post: App,
    fx: Seq<EffectView>,
    token: Seq<char>,
)
    requires
        step(pre, Message::Profile(m), now, post, fx),
        online(pre, token),
    ensures
        m is ChangePassword ==> {
            let current = pre.settings.current_password_input@;
            let new = pre.settings.new_password_input@;
            let right = current.len() > 0 && byte_len(new) >= 6 && new
                == pre.settings.confirm_password_input@ && new != current;
            &&& right ==> asks(
                fx,
                token,
                CallKind::Action,
                "auth:changePassword"@,
                seq![text("currentPassword"@, current), text("newPassword"@, new)],
                Reply::PasswordChangeFinished,
            )
            &&& !right ==> fx.len() == 0
            &&& post.settings.password_status is Some
            &&& current.len() == 0 ==> text_is(
                post.settings.password_status,
                "Enter your current password"@,
            )
            &&& current.len() > 0 && byte_len(new) >= 6 && new
                != pre.settings.confirm_password_input@ ==> text_is(
                post.settings.password_status,
                "Passwords don't match"@,
            )
            &&& post.session == pre.session
        },
        m is PasswordChangeFinished && m->PasswordChangeFinished_0 is Ok
            ==> post.settings.current_password_input@.len() == 0
            && post.settings.new_password_input@.len() == 0
            && post.settings.confirm_password_input@.len() == 0 && text_is(
            post.settings.password_status,
            "Password changed"@,
        ),
        m is PasswordChangeFinished && m->PasswordChangeFinished_0 is Err
            ==> post.settings.password_status == Some(m->PasswordChangeFinished_0->Err_0)
            && post.settings.new_password_input == pre.settings.new_password_input,
{
    broadcast use lemma_request;

}

/// Our picture: what was picked is uploaded, and what was stored is what the
/// session shows; one that is too large is not uploaded.
pub proof fn pictures_are_stored(
    pre: App,
    m: ProfileMessage,
    now: Now,
    post: App,
    fx: Seq<EffectView>,
    token: Seq<char>,
)
    requires
        step(pre, Message::Profile(m), now, post, fx),
        online(pre, token),
    ensures
        m is PickAvatarImage && !pre.settings.avatar_upload_busy ==> post.settings.avatar_upload_busy
            && fx == seq![EffectView::PickImage(PickPurpose::Avatar)],
        m is PickAvatarImage && pre.settings.avatar_upload_busy ==> post == pre && fx.len() == 0,
        m is AvatarFilePicked && m->AvatarFilePicked_0 is Ready ==> {
            &&& fx.len() == 1
            &&& fx[0] is Upload
            &&& fx[0]->Upload_bytes == m->AvatarFilePicked_0->Ready_0@
            &&& fx[0]->Upload_content_type == m->AvatarFilePicked_0->Ready_1@
            &&& fx[0]->storage_arg == "storageId"@
            &&& fx[0]->ask.function == "profile:generateAvatarUploadUrl"@
            &&& carries(fx[0]->ask, token, seq![])
            &&& fx[0]->send.function == "profile:setAvatarImage"@
            &&& carries(fx[0]->send, token, seq![])
        },
        m is AvatarFilePicked && m->AvatarFilePicked_0 is TooLarge ==> fx.len() == 0
            && !post.settings.avatar_upload_busy && text_is(
            post.settings.profile_status,
            "Image must be smaller than 2MB"@,
        ),
        m is AvatarFilePicked && m->AvatarFilePicked_0 is Cancelled ==> fx.len() == 0
            && !post.settings.avatar_upload_busy,
        m is AvatarUploadFinished && m->AvatarUploadFinished_0 is Ok ==> post.session is Some
            && post.session->0.avatar_image_url == m->AvatarUploadFinished_0->Ok_0
            && post.session->0.token == pre.session->0.token && !post.settings.avatar_upload_busy,
        m is AvatarUploadFinished && m->AvatarUploadFinished_0 is Err ==> post.session == pre.session
            && !post.settings.avatar_upload_busy && post.settings.profile_status == Some(
            m->AvatarUploadFinished_0->Err_0,
        ),
        m is RemoveAvatarImage ==> post == pre && changes(
            fx,
            token,
            "profile:removeAvatarImage"@,
            seq![],
            Reply::AvatarRemoveFinished,
        ),
        m is AvatarRemoveFinished && m->AvatarRemoveFinished_0 is Ok ==> post.session is Some
            && post.session->0.avatar_image_url@.len() == 0 && post.session->0.token
            == pre.session->0.token,
        m is AvatarRemoveFinished && m->AvatarRemoveFinished_0 is Err ==> post.session == pre.session
            && post.settings.profile_status == Some(m->AvatarRemoveFinished_0->Err_0),
{
    broadcast use lemma_request;

    if m is AvatarFilePicked && m->AvatarFilePicked_0 is Ready {
        let ask = fx[0]->ask;
        let send = fx[0]->send;
        assert(ask.args[0] == text("sessionToken"@, token));
        assert(send.args[0] == text("sessionToken"@, token));
    }
}

/// Looking at a profile asks for that person and shows who came back; the
/// other pages take over what is typed or chosen.
pub proof fn profile_pages(
    pre: App,
    m: ProfileMessage,
    now: Now,
    post: App,
    fx: Seq<EffectView>,
    token: Seq<char>,
)
    requires
        step(pre, Message::Profile(m), now, post, fx),
        online(pre, token),
    ensures
        m is OpenProfile ==> post.profile.viewing is None && !post.settings.open && looks_up(
            fx,
            token,
            "profile:getProfile"@,
            seq![text("userId"@, m->OpenProfile_0@)],
            Reply::ProfileLoaded,
        ),
        m is ProfileLoaded && m->ProfileLoaded_0 is Ok ==> post.profile.viewing == Some(
            m->ProfileLoaded_0->Ok_0,
        ),
        m is ProfileLoaded && m->ProfileLoaded_0 is Err ==> post.profile.error == Some(
            m->ProfileLoaded_0->Err_0,
        ) && post.profile.viewing == pre.profile.viewing,
        m is CloseProfile ==> post.profile.viewing is None && post.profile.error is None && fx.len()
            == 0,
        m is CloseSettings ==> !post.settings.open && fx.len() == 0,
        m is SettingsCategoryChanged ==> post.settings.category == m->SettingsCategoryChanged_0,
        m is SettingsDisplayNameChanged ==> post.settings.display_name_input
            == m->SettingsDisplayNameChanged_0 && post.session == pre.session && fx.len() == 0,
        m is SettingsStatusChanged ==> post.settings.status_input == m->SettingsStatusChanged_0
            && fx.len() == 0,
        m is SettingsBioChanged ==> post.settings.bio_input == m->SettingsBioChanged_0 && fx.len()
            == 0,
        m is SettingsAvatarColorSelected ==> post.settings.avatar_color
            == m->SettingsAvatarColorSelected_0 && fx.len() == 0,
        m is SettingsCurrentPasswordChanged ==> post.settings.current_password_input
            == m->SettingsCurrentPasswordChanged_0 && post.settings.new_password_input
            == pre.settings.new_password_input && fx.len() == 0,
        m is SettingsNewPasswordChanged ==> post.settings.new_password_input
            == m->SettingsNewPasswordChanged_0 && post.settings.current_password_input
            == pre.settings.current_password_input && fx.len() == 0,
        m is SettingsConfirmPasswordChanged ==> post.settings.confirm_password_input
            == m->SettingsConfirmPasswordChanged_0 && post.settings.new_password_input
            == pre.settings.new_password_input && fx.len() == 0,
        m is SettingsInputDeviceSelected ==> post.audio.output_device == pre.audio.output_device
            && fx == seq![EffectView::PersistSettings] && (
        m->SettingsInputDeviceSelected_0@.len() > 0 ==> post.audio.input_device == Some(
            m->SettingsInputDeviceSelected_0,
        )) && (m->SettingsInputDeviceSelected_0@.len() == 0 ==> post.audio.input_device is None),
        m is SettingsOutputDeviceSelected ==> post.audio.input_device == pre.audio.input_device
            && fx == seq![EffectView::PersistSettings] && (
        m->SettingsOutputDeviceSelected_0@.len() > 0 ==> post.audio.output_device == Some(
            m->SettingsOutputDeviceSelected_0,
        )) && (m->SettingsOutputDeviceSelected_0@.len() == 0 ==> post.audio.output_device is None),
        m is NoiseGateChanged ==> post.audio.noise_gate == m->NoiseGateChanged_0 && fx == seq![
            EffectView::PersistSettings,
        ],
{
    broadcast use lemma_request;

}

/// Bots: each button is about the bot, the name or the server that it shows,
/// and a token is shown until it is dismissed.
pub proof fn bot_buttons(
    pre: App,
    m: BotMessage,
    now: Now,
    post: App,
    fx: Seq<EffectView>,
    token: Seq<char>,
)
    requires
        step(pre, Message::Bot(m), now, post, fx),
        online(pre, token),
    ensures
        m is CreateBot && byte_len(trimmed(pre.bots.new_name_input@)) < 2 ==> fx.len() == 0
            && text_is(post.bots.status, "Bot needs a name (min 2 chars)"@),
        m is CreateBot && byte_len(trimmed(pre.bots.new_name_input@)) >= 2 ==> post == pre
            && fx.len() == 1 && fx[0] is Call && fx[0]->Call_0.function == "bots:create"@ && carries(
            fx[0]->Call_0,
            token,
            seq![text("name"@, trimmed(pre.bots.new_name_input@))],
        ),
        m is BotCreateFinished && m->BotCreateFinished_0 is Ok ==> {
            let (label, secret) = m->BotCreateFinished_0->Ok_0;
            &&& post.bots.token_reveal == Some(secret)
            &&& post.bots.new_name_input@.len() == 0
            &&& looks_up(fx, token, "bots:listMine"@, seq![], Reply::MyBotsUpdated)
        },
        m is RefreshMyBots ==> post == pre && looks_up(
            fx,
            token,
            "bots:listMine"@,
            seq![],
            Reply::MyBotsUpdated,
        ),
        m is MyBotsUpdated ==> post.bots.mine == m->MyBotsUpdated_0 && fx.len() == 0,
        m is NewBotNameChanged ==> post.bots.new_name_input == m->NewBotNameChanged_0 && fx.len()
            == 0,
        m is BotInviteUsernameChanged ==> post.bots.invite_username_input
            == m->BotInviteUsernameChanged_0 && fx.len() == 0,
        m is InviteBotToServer && pre.servers.selected is Some && trimmed(
            pre.bots.invite_username_input@,
        ).len() > 0 ==> post == pre && changes_server(
            pre,
            fx,
            token,
            "bots:inviteToServer"@,
            seq![text("botUsername"@, trimmed(pre.bots.invite_username_input@))],
            Reply::InviteBotFinished,
        ),
        m is InviteBotToServer && (pre.servers.selected is None || trimmed(
            pre.bots.invite_username_input@,
        ).len() == 0) ==> fx.len() == 0,
        m is InviteBotFinished && m->InviteBotFinished_0 is Ok
            ==> post.bots.invite_username_input@.len() == 0 && fx.len() == 0,
        m is RegenerateBotToken ==> post == pre && changes(
            fx,
            token,
            "bots:regenerateToken"@,
            seq![text("botId"@, m->RegenerateBotToken_0@)],
            Reply::BotTokenFinished,
        ),
        m is BotTokenFinished && m->BotTokenFinished_0 is Ok ==> post.bots.token_reveal == Some(
            m->BotTokenFinished_0->Ok_0,
        ) && fx.len() == 0,
        m is DeleteBot ==> post == pre && changes(
            fx,
            token,
            "bots:destroy"@,
            seq![text("botId"@, m->DeleteBot_0@)],
            Reply::DeleteBotFinished,
        ),
        m is DeleteBotFinished && m->DeleteBotFinished_0 is Ok ==> fx == seq![
            EffectView::Dispatch(Message::Bot(BotMessage::RefreshMyBots)),
        ],
        m is DismissBotToken ==> post.bots.token_reveal is None && fx.len() == 0,
        m is BotCreateFinished && m->BotCreateFinished_0 is Err ==> post.bots.status == Some(
            m->BotCreateFinished_0->Err_0,
        ) && post.bots.token_reveal == pre.bots.token_reveal,
        m is InviteBotFinished && m->InviteBotFinished_0 is Err ==> post.bots.status == Some(
            m->InviteBotFinished_0->Err_0,
        ),
        m is BotTokenFinished && m->BotTokenFinished_0 is Err ==> post.bots.status == Some(
            m->BotTokenFinished_0->Err_0,
        ) && post.bots.token_reveal == pre.bots.token_reveal,
        m is DeleteBotFinished && m->DeleteBotFinished_0 is Err ==> post.bots.status == Some(
            m->DeleteBotFinished_0->Err_0,
        ),
{
    broadcast use lemma_request;

}

/// Administration: each button names the person or the report that it stands
/// at, and says what was clicked; making someone an administrator asks for
/// that role, and the opposite for that of a user.
pub proof fn admin_buttons(
    pre: App,
    m: AdminMessage,
    now: Now,
    post: App,
    fx: Seq<EffectView>,
    token: Seq<char>,
)
    requires
        step(pre, Message::Admin(m), now, post, fx),
        online(pre, token),
    ensures
        m is AdminSetRole ==> post == pre && fx.len() == 1 && fx[0] is Dispatch && ({
            let next = fx[0]->Dispatch_0;
            &&& next is Admin
            &&& next->Admin_0 is AdminSetPlatformRole
            &&& next->Admin_0->AdminSetPlatformRole_0 == m->AdminSetRole_0
            &&& m->AdminSetRole_1 ==> next->Admin_0->AdminSetPlatformRole_1@ == "admin"@
            &&& !m->AdminSetRole_1 ==> next->Admin_0->AdminSetPlatformRole_1@ == "user"@
        }),
        m is AdminSetPlatformRole ==> post == pre && changes(
            fx,
            token,
            "admin:setRole"@,
            seq![
                text("userId"@, m->AdminSetPlatformRole_0@),
                text("role"@, m->AdminSetPlatformRole_1@),
            ],
            Reply::AdminSetRoleFinished,
        ),
        m is AdminSetBanned ==> post == pre && changes(
            fx,
            token,
            "admin:setBanned"@,
            seq![
                text("userId"@, m->AdminSetBanned_0@),
                switch("banned"@, m->AdminSetBanned_1),
            ],
            Reply::AdminSetBannedFinished,
        ),
        m is AdminRevokeSessions ==> post == pre && changes(
            fx,
            token,
            "admin:adminRevokeSessions"@,
            seq![text("userId"@, m->AdminRevokeSessions_0@)],
            Reply::AdminRevokeSessionsFinished,
        ),
        m is AdminResolveReport ==> post == pre && changes(
            fx,
            token,
            "reports:adminResolveReport"@,
            seq![
                text("reportId"@, m->AdminResolveReport_0@),
                text("status"@, m->AdminResolveReport_1@),
            ],
            Reply::AdminResolveReportFinished,
        ),
        m is LoadAdminStats ==> post == pre && looks_up(
            fx,
            token,
            "admin:adminStats"@,
            seq![],
            Reply::AdminStatsUpdated,
        ),
        m is LoadAdminReports ==> post == pre && looks_up(
            fx,
            token,
            "reports:adminListReports"@,
            seq![],
            Reply::AdminReportsUpdated,
        ),
        m is ToggleAdminUserDetail ==> {
            let id = m->ToggleAdminUserDetail_0@;
            let open = pre.admin.user_detail is Some && pre.admin.user_detail->0.user_id@ == id;
            &&& open ==> post.admin.user_detail is None && fx.len() == 0
            &&& !open ==> post == pre && looks_up(
                fx,
                token,
                "admin:adminUserDetail"@,
                seq![text("userId"@, id)],
                Reply::AdminUserDetailUpdated,
            )
        },
        m is AdminResolveReportFinished && m->AdminResolveReportFinished_0 is Ok ==> fx == seq![
            EffectView::Dispatch(Message::Admin(AdminMessage::LoadAdminReports)),
        ],
        m is AdminUsersUpdated ==> post.admin.users == m->AdminUsersUpdated_0 && fx.len() == 0,
        m is AdminSearchInputChanged ==> post.admin.search_input == m->AdminSearchInputChanged_0
            && fx.len() == 0,
        m is SetAdminFilter ==> post.admin.filter == m->SetAdminFilter_0 && fx.len() == 0,
        m is AdminUserDetailUpdated ==> post.admin.user_detail == m->AdminUserDetailUpdated_0
            && fx.len() == 0,
        m is AdminStatsUpdated && m->AdminStatsUpdated_0 is Ok ==> post.admin.stats == Some(
            m->AdminStatsUpdated_0->Ok_0,
        ),
        m is AdminReportsUpdated && m->AdminReportsUpdated_0 is Ok ==> post.admin.reports
            == m->AdminReportsUpdated_0->Ok_0 && post.admin.reports_status is None,
        m is AdminReportsUpdated && m->AdminReportsUpdated_0 is Err ==> post.admin.reports
            == pre.admin.reports && post.admin.reports_status == Some(
            m->AdminReportsUpdated_0->Err_0,
        ),
        m is AdminResolveReportFinished && m->AdminResolveReportFinished_0 is Err
            ==> post.admin.reports_status == Some(m->AdminResolveReportFinished_0->Err_0),
        m is AdminSetRoleFinished && m->AdminSetRoleFinished_0 is Err ==> post.admin.status == Some(
            m->AdminSetRoleFinished_0->Err_0,
        ),
        m is AdminSetBannedFinished && m->AdminSetBannedFinished_0 is Err ==> post.admin.status
            == Some(m->AdminSetBannedFinished_0->Err_0),
        m is AdminStatsUpdated && m->AdminStatsUpdated_0 is Err ==> post.admin.status == Some(
            m->AdminStatsUpdated_0->Err_0,
        ),
        m is AdminRevokeSessionsFinished && m->AdminRevokeSessionsFinished_0 is Err
            ==> post.admin.status == Some(m->AdminRevokeSessionsFinished_0->Err_0),
{
    broadcast use lemma_request;

}

} // verus!
