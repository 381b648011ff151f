//! Servers: choosing, making, joining and running them.

use crate::laws::asked::{changes, changes_server, lemma_request, looks_up, online, switch, text};
use crate::state::app::{App, Now};
use crate::state::effect::{EffectView, PickPurpose, Reply};
use crate::state::invites::{invite_code, invite_link};
use crate::state::keyed::{lemma_position, lemma_position_is};
use crate::state::message::{Message, ServerMessage};
use crate::state::types::{ImagePick, ServerSummary};
use crate::state::update::step;
use crate::text::{text_is, trimmed};
use vstd::prelude::*;

verus! {

/// The selected server is ours.
pub open spec fn ours(app: App) -> bool {
    app.servers.selected is Some && app.servers.selected->0.is_owner
}

/// Making and joining a server, with the name or the code that was entered;
/// nothing is asked for where nothing was entered.
pub proof fn servers_are_made_and_joined(
    pre: App,
    m: ServerMessage,
    now: Now,
    post: App,
    fx: Seq<EffectView>,
    token: Seq<char>,
)
    requires
        step(pre, Message::Server(m), now, post, fx),
        online(pre, token),
    ensures
        m is CreateServer ==> post == pre,
        m is CreateServer && trimmed(pre.servers.new_name_input@).len() > 0 ==> changes(
            fx,
            token,
            "servers:createServer"@,
            seq![text("name"@, trimmed(pre.servers.new_name_input@))],
            Reply::CreateServerFinished,
        ),
        m is CreateServer && trimmed(pre.servers.new_name_input@).len() == 0 ==> fx.len() == 0,
        m is JoinServer ==> post == pre,
        m is JoinServer && invite_code(pre.servers.join_code_input@).len() > 0 ==> changes(
            fx,
            token,
            "servers:joinByInviteCode"@,
            seq![text("inviteCode"@, invite_code(pre.servers.join_code_input@))],
            Reply::JoinServerFinished,
        ),
        m is JoinServer && invite_code(pre.servers.join_code_input@).len() == 0 ==> fx.len() == 0,
        m is CreateServerFinished && m->CreateServerFinished_0 is Ok
            ==> post.servers.new_name_input@.len() == 0 && !post.servers.add_menu_open
            && post.servers.status is None,
        m is JoinServerFinished && m->JoinServerFinished_0 is Ok
            ==> post.servers.join_code_input@.len() == 0 && !post.servers.add_menu_open
            && post.servers.status is None,
        m is CreateServerFinished && m->CreateServerFinished_0 is Err ==> post.servers.status
            == Some(m->CreateServerFinished_0->Err_0) && post.servers.new_name_input
            == pre.servers.new_name_input,
        m is JoinServerFinished && m->JoinServerFinished_0 is Err ==> post.servers.status == Some(
            m->JoinServerFinished_0->Err_0,
        ) && post.servers.join_code_input == pre.servers.join_code_input,
{
    broadcast use lemma_request;

}

/// Selecting a server shows that one, with its texts in the forms and without
/// the channels and members of whatever was shown before.
pub proof fn selected_servers_are_shown(
    pre: App,
    id: String,
    now: Now,
    post: App,
    fx: Seq<EffectView>,
    k: int,
)
    requires
        step(pre, Message::Server(ServerMessage::SelectServer(id)), now, post, fx),
    ensures
        fx.len() == 0,
        0 <= k < pre.servers.list@.len() && pre.servers.list@[k].server_id@ == id@ && (forall|j: int|
            0 <= j < k ==> (#[trigger] pre.servers.list@[j]).server_id@ != id@) ==> {
            &&& post.servers.selected == Some(pre.servers.list@[k])
            &&& post.servers.rename_input == pre.servers.list@[k].name
            &&& post.servers.custom_slug_input == pre.servers.list@[k].custom_slug
            &&& post.servers.channels@.len() == 0
            &&& post.servers.members@.len() == 0
            &&& !post.servers.settings_open
            &&& !post.servers.confirm_delete
            &&& post.window.sidebar_tab is Servers
            &&& post.servers.list == pre.servers.list
        },
        (forall|j: int|
            0 <= j < pre.servers.list@.len() ==> (#[trigger] pre.servers.list@[j]).server_id@ != id@)
            ==> post == pre,
{
    lemma_position(pre.servers.list@, id@);
    if 0 <= k < pre.servers.list@.len() && pre.servers.list@[k].server_id@ == id@ && (forall|j: int|
        0 <= j < k ==> (#[trigger] pre.servers.list@[j]).server_id@ != id@) {
        lemma_position_is(pre.servers.list@, id@, k);
    }
}

/// A fresh list of servers is shown as it is; the selected server is the one
/// of the list with the same id, and where the list has none, nothing of it is
/// left on screen.
pub proof fn the_selection_follows_the_list(
    pre: App,
    list: Vec<ServerSummary>,
    now: Now,
    post: App,
    fx: Seq<EffectView>,
    k: int,
)
    requires
        step(pre, Message::Server(ServerMessage::ServersUpdated(list)), now, post, fx),
    ensures
        post.servers.list == list,
        pre.servers.selected is None ==> post.servers.selected is None,
        pre.servers.selected is Some && 0 <= k < list@.len() && list@[k].server_id@
            == pre.servers.selected->0.server_id@ && (forall|j: int|
            0 <= j < k ==> (#[trigger] list@[j]).server_id@ != list@[k].server_id@)
            ==> post.servers.selected == Some(list@[k]) && post.servers.channels
            == pre.servers.channels && post.servers.members == pre.servers.members && (
        pre.servers.settings_open ==> post.servers.rename_input == pre.servers.rename_input
            && post.servers.custom_slug_input == pre.servers.custom_slug_input),
        pre.servers.selected is Some && (forall|j: int|
            0 <= j < list@.len() ==> (#[trigger] list@[j]).server_id@
                != pre.servers.selected->0.server_id@) ==> post.servers.selected is None
            && post.servers.channels@.len() == 0 && post.servers.members@.len() == 0
            && !post.servers.settings_open,
{
    if pre.servers.selected is Some {
        let id = pre.servers.selected->0.server_id@;
        lemma_position(list@, id);
        if 0 <= k < list@.len() && list@[k].server_id@ == id && (forall|j: int|
            0 <= j < k ==> (#[trigger] list@[j]).server_id@ != list@[k].server_id@) {
            lemma_position_is(list@, id, k);
        }
    }
}

/// Leaving a server: nothing of it stays on screen, and the chats are shown.
pub proof fn servers_can_be_left(
    pre: App,
    m: ServerMessage,
    now: Now,
    post: App,
    fx: Seq<EffectView>,
)
    requires
        step(pre, Message::Server(m), now, post, fx),
        m is BackToServerList || m is GoHome || (m is DeleteServerFinished
            && m->DeleteServerFinished_0 is Ok),
    ensures
        post.servers.selected is None,
        post.servers.channels@.len() == 0,
        post.servers.members@.len() == 0,
        !post.servers.settings_open,
        !(m is DeleteServerFinished) ==> post.window.sidebar_tab is Chats,
        m is DeleteServerFinished ==> !post.servers.confirm_delete,
        post.chat == pre.chat,
        post.place == pre.place,
        post.servers.list == pre.servers.list,
        fx.len() == 0,
{
}

/// What the buttons of a server's settings ask for: each is about the selected
/// server, and those that only its owner may use ask for nothing where it is
/// not ours.
pub proof fn server_settings_ask_about_the_server(
    pre: App,
    m: ServerMessage,
    now: Now,
    post: App,
    fx: Seq<EffectView>,
    token: Seq<char>,
)
    requires
        step(pre, Message::Server(m), now, post, fx),
        online(pre, token),
        pre.servers.selected is Some,
    ensures
        m is SaveCustomSlug ==> changes_server(
            pre,
            fx,
            token,
            "servers:setCustomSlug"@,
            seq![text("slug"@, trimmed(pre.servers.custom_slug_input@))],
            Reply::CustomSlugFinished,
        ),
        m is ClearCustomSlug ==> changes_server(
            pre,
            fx,
            token,
            "servers:clearCustomSlug"@,
            seq![],
            Reply::CustomSlugCleared,
        ),
        m is RegenerateInviteCode ==> changes_server(
            pre,
            fx,
            token,
            "servers:regenerateInviteCode"@,
            seq![],
            Reply::RegenerateInviteCodeFinished,
        ),
        m is DeleteServer ==> changes_server(
            pre,
            fx,
            token,
            "servers:deleteServer"@,
            seq![],
            Reply::DeleteServerFinished,
        ),
        m is KickMember ==> changes_server(
            pre,
            fx,
            token,
            "servers:kickMember"@,
            seq![text("userId"@, m->KickMember_0@)],
            Reply::KickMemberFinished,
        ),
        m is RenameServer && ours(pre) && trimmed(pre.servers.rename_input@).len() > 0
            ==> changes_server(
            pre,
            fx,
            token,
            "servers:renameServer"@,
            seq![text("name"@, trimmed(pre.servers.rename_input@))],
            Reply::RenameServerFinished,
        ),
        m is RenameServer && ours(pre) && trimmed(pre.servers.rename_input@).len() == 0 ==> fx.len()
            == 0 && text_is(post.servers.status, "Enter a server name"@),
        m is SaveServerDescription && ours(pre) ==> changes_server(
            pre,
            fx,
            token,
            "servers:setServerDescription"@,
            seq![text("description"@, trimmed(pre.servers.description_input@))],
            Reply::SaveServerDescriptionFinished,
        ),
        m is TransferOwnership && ours(pre) ==> changes_server(
            pre,
            fx,
            token,
            "servers:transferOwnership"@,
            seq![text("newOwnerId"@, m->TransferOwnership_0@)],
            Reply::TransferOwnershipFinished,
        ) && post.servers.confirm_transfer_owner_id is None,
        m is RemoveServerIcon && ours(pre) ==> changes_server(
            pre,
            fx,
            token,
            "servers:removeServerIcon"@,
            seq![],
            Reply::ServerIconRemoveFinished,
        ) && post.servers.icon_busy,
        m is LoadServerStats ==> looks_up(
            fx,
            token,
            "servers:serverStats"@,
            seq![text("serverId"@, pre.servers.selected->0.server_id@)],
            Reply::ServerStatsUpdated,
        ),
        !ours(pre) && (m is RenameServer || m is SaveServerDescription || m is TransferOwnership
            || m is RemoveServerIcon || m is PickServerIcon || m is SetWelcomeChannel
            || m is ToggleInvitesPaused) ==> fx.len() == 0 && post.servers.selected
            == pre.servers.selected,
        m is PickServerIcon && ours(pre) && !pre.servers.icon_busy ==> fx == seq![
            EffectView::PickImage(PickPurpose::ServerIcon),
        ],
        m is PickServerIcon && pre.servers.icon_busy ==> fx.len() == 0,
{
    broadcast use lemma_request;

    let id = text("serverId"@, pre.servers.selected->0.server_id@);
    assert(seq![id] + seq![] =~= seq![id]);
}

/// Pausing invites turns the switch over and asks for what it then shows; the
/// welcome channel is the one that was clicked, or none where it was it before.
pub proof fn server_switches_show_what_is_asked(
    pre: App,
    m: ServerMessage,
    now: Now,
    post: App,
    fx: Seq<EffectView>,
    token: Seq<char>,
)
    requires
        step(pre, Message::Server(m), now, post, fx),
        online(pre, token),
        ours(pre),
    ensures
        m is ToggleInvitesPaused ==> {
            &&& post.servers.selected is Some
            &&& post.servers.selected->0.invites_paused == !pre.servers.selected->0.invites_paused
            &&& post.servers.selected->0.server_id == pre.servers.selected->0.server_id
            &&& changes_server(
                pre,
                fx,
                token,
                "servers:setInvitesPaused"@,
                seq![switch("paused"@, post.servers.selected->0.invites_paused)],
                Reply::SetInvitesPausedFinished,
            )
        },
        m is SetWelcomeChannel ==> {
            let was = pre.servers.selected->0.welcome_channel_id@;
            let is = post.servers.selected->0.welcome_channel_id@;
            &&& post.servers.selected is Some
            &&& post.servers.selected->0.server_id == pre.servers.selected->0.server_id
            &&& was != m->SetWelcomeChannel_0@ ==> is == m->SetWelcomeChannel_0@
            &&& was == m->SetWelcomeChannel_0@ ==> is.len() == 0
            &&& changes_server(
                pre,
                fx,
                token,
                "servers:setWelcomeChannel"@,
                seq![text("channelId"@, is)],
                Reply::SetWelcomeChannelFinished,
            )
        },
{
    broadcast use lemma_request;

}

/// A picked icon is uploaded for the selected server, one that is too large is
/// not.
pub proof fn picked_icons_are_uploaded(
    pre: App,
    pick: ImagePick,
    now: Now,
    post: App,
    fx: Seq<EffectView>,
    token: Seq<char>,
)
    requires
        step(pre, Message::Server(ServerMessage::ServerIconPicked(pick)), now, post, fx),
        online(pre, token),
        pre.servers.selected is Some,
    ensures
        pick is Ready ==> {
            let id = text("serverId"@, pre.servers.selected->0.server_id@);
            &&& post.servers.icon_busy
            &&& fx.len() == 1
            &&& fx[0] is Upload
            &&& fx[0]->Upload_bytes == pick->Ready_0@
            &&& fx[0]->Upload_content_type == pick->Ready_1@
            &&& fx[0]->storage_arg == "storageId"@
            &&& fx[0]->strict
            &&& fx[0]->ask.function == "servers:generateIconUploadUrl"@
            &&& fx[0]->ask.args.contains(id)
            &&& fx[0]->ask.args.contains(text("sessionToken"@, token))
            &&& fx[0]->send.function == "servers:setServerIcon"@
            &&& fx[0]->send.args.contains(id)
            &&& fx[0]->send.args.contains(text("sessionToken"@, token))
        },
        pick is TooLarge ==> fx.len() == 0 && text_is(
            post.servers.status,
            "Icon must be under 2MB"@,
        ),
        pick is Cancelled ==> post == pre && fx.len() == 0,
{
    if pick is Ready {
        let ask = fx[0]->ask;
        let send = fx[0]->send;
        assert(ask.args[0] == text("sessionToken"@, token));
        assert(send.args[0] == text("sessionToken"@, token));
        assert(ask.args[1] == text("serverId"@, pre.servers.selected->0.server_id@));
        assert(send.args[1] == text("serverId"@, pre.servers.selected->0.server_id@));
    }
}

/// What was stored is what is shown of the server, in its settings and in the
/// row of the list that has its id; other rows stay.
pub proof fn stored_texts_are_shown(
    pre: App,
    m: ServerMessage,
    now: Now,
    post: App,
    fx: Seq<EffectView>,
    k: int,
)
    requires
        step(pre, Message::Server(m), now, post, fx),
        pre.servers.selected is Some,
        0 <= k < pre.servers.list@.len(),
        forall|j: int|
            0 <= j < k ==> (#[trigger] pre.servers.list@[j]).server_id@
                != pre.servers.list@[k].server_id@,
    ensures
        m is RenameServerFinished && m->RenameServerFinished_0 is Ok ==> {
            &&& post.servers.selected is Some
            &&& post.servers.selected->0.name@ == trimmed(pre.servers.rename_input@)
            &&& post.servers.list@.len() == pre.servers.list@.len()
            &&& pre.servers.list@[k].server_id@ == pre.servers.selected->0.server_id@
                ==> post.servers.list@[k].name@ == trimmed(pre.servers.rename_input@)
            &&& pre.servers.list@[k].server_id@ != pre.servers.selected->0.server_id@
                ==> post.servers.list@[k] == pre.servers.list@[k]
            &&& post.servers.status is None
        },
        m is ServerIconUploadFinished && m->ServerIconUploadFinished_0 is Ok ==> {
            &&& post.servers.selected is Some
            &&& post.servers.selected->0.icon_url == m->ServerIconUploadFinished_0->Ok_0
            &&& !post.servers.icon_busy
            &&& pre.servers.list@[k].server_id@ == pre.servers.selected->0.server_id@
                ==> post.servers.list@[k].icon_url == m->ServerIconUploadFinished_0->Ok_0
            &&& pre.servers.list@[k].server_id@ != pre.servers.selected->0.server_id@
                ==> post.servers.list@[k] == pre.servers.list@[k]
        },
        m is ServerIconRemoveFinished && m->ServerIconRemoveFinished_0 is Ok ==> {
            &&& post.servers.selected is Some
            &&& post.servers.selected->0.icon_url@.len() == 0
            &&& !post.servers.icon_busy
            &&& pre.servers.list@[k].server_id@ == pre.servers.selected->0.server_id@
                ==> post.servers.list@[k].icon_url@.len() == 0
            &&& pre.servers.list@[k].server_id@ != pre.servers.selected->0.server_id@
                ==> post.servers.list@[k] == pre.servers.list@[k]
        },
        m is SaveServerDescriptionFinished && m->SaveServerDescriptionFinished_0 is Ok ==> {
            &&& post.servers.selected is Some
            &&& post.servers.selected->0.description@ == trimmed(pre.servers.description_input@)
            &&& post.servers.selected->0.name == pre.servers.selected->0.name
        },
        m is CustomSlugFinished && m->CustomSlugFinished_0 is Ok ==> {
            &&& post.servers.selected is Some
            &&& post.servers.selected->0.custom_slug == m->CustomSlugFinished_0->Ok_0
            &&& post.servers.custom_slug_input == m->CustomSlugFinished_0->Ok_0
        },
        m is TransferOwnershipFinished && m->TransferOwnershipFinished_0 is Ok ==> {
            &&& post.servers.selected is Some
            &&& !post.servers.selected->0.is_owner
        },
{
    lemma_position(pre.servers.list@, pre.servers.selected->0.server_id@);
    if pre.servers.list@[k].server_id@ == pre.servers.selected->0.server_id@ {
        lemma_position_is(pre.servers.list@, pre.servers.selected->0.server_id@, k);
    }
}

/// What failed is shown as the status of the servers, and nothing of what is
/// known of them changes.
pub proof fn server_failures_are_shown(
    pre: App,
    m: ServerMessage,
    now: Now,
    post: App,
    fx: Seq<EffectView>,
)
    requires
        step(pre, Message::Server(m), now, post, fx),
    ensures
        m is RenameServerFinished && m->RenameServerFinished_0 is Err ==> post.servers.status
            == Some(m->RenameServerFinished_0->Err_0) && post.servers.selected
            == pre.servers.selected,
        m is CustomSlugFinished && m->CustomSlugFinished_0 is Err ==> post.servers.status == Some(
            m->CustomSlugFinished_0->Err_0,
        ) && post.servers.selected == pre.servers.selected,
        m is RegenerateInviteCodeFinished && m->RegenerateInviteCodeFinished_0 is Err
            ==> post.servers.status == Some(m->RegenerateInviteCodeFinished_0->Err_0),
        m is SaveServerDescriptionFinished && m->SaveServerDescriptionFinished_0 is Err
            ==> post.servers.status == Some(m->SaveServerDescriptionFinished_0->Err_0)
            && post.servers.selected == pre.servers.selected,
        m is TransferOwnershipFinished && m->TransferOwnershipFinished_0 is Err
            ==> post.servers.status == Some(m->TransferOwnershipFinished_0->Err_0)
            && post.servers.selected == pre.servers.selected,
        m is ServerIconUploadFinished && m->ServerIconUploadFinished_0 is Err
            ==> post.servers.status == Some(m->ServerIconUploadFinished_0->Err_0)
            && !post.servers.icon_busy && post.servers.selected == pre.servers.selected,
        m is ServerIconRemoveFinished && m->ServerIconRemoveFinished_0 is Err
            ==> post.servers.status == Some(m->ServerIconRemoveFinished_0->Err_0)
            && !post.servers.icon_busy && post.servers.selected == pre.servers.selected,
        m is DeleteServerFinished && m->DeleteServerFinished_0 is Err ==> post.servers.status
            == Some(m->DeleteServerFinished_0->Err_0) && post.servers.selected
            == pre.servers.selected && !post.servers.confirm_delete,
        m is KickMemberFinished ==> post.servers.status == m->KickMemberFinished_0.err()
            && post.servers.members == pre.servers.members,
        m is SetWelcomeChannelFinished ==> post.servers.status
            == m->SetWelcomeChannelFinished_0.err(),
        m is SetInvitesPausedFinished ==> post.servers.status == m->SetInvitesPausedFinished_0.err(),
        m is MembersUpdated ==> post.servers.members == m->MembersUpdated_0 && post.servers.selected
            == pre.servers.selected,
        m is ServerStatsUpdated ==> post.servers.stats == m->ServerStatsUpdated_0,
        m is CopyInviteCode ==> fx == seq![EffectView::Clipboard(m->CopyInviteCode_0@)],
        m is CopyInviteLink ==> fx == seq![EffectView::Clipboard(invite_link(m->CopyInviteLink_0@))],
{
}

/// The forms take over what is typed; the switches turn over; settings open
/// with the texts of the selected server.
pub proof fn server_forms(
    pre: App,
    m: ServerMessage,
    now: Now,
    post: App,
    fx: Seq<EffectView>,
)
    requires
        step(pre, Message::Server(m), now, post, fx),
    ensures
        m is NewServerNameChanged ==> post.servers.new_name_input == m->NewServerNameChanged_0
            && fx.len() == 0,
        m is JoinServerCodeChanged ==> post.servers.join_code_input == m->JoinServerCodeChanged_0
            && fx.len() == 0,
        m is CustomSlugInputChanged ==> post.servers.custom_slug_input
            == m->CustomSlugInputChanged_0 && fx.len() == 0,
        m is RenameServerInputChanged ==> post.servers.rename_input == m->RenameServerInputChanged_0
            && fx.len() == 0,
        m is ServerDescriptionInputChanged ==> post.servers.description_input
            == m->ServerDescriptionInputChanged_0 && fx.len() == 0,
        m is ServerSettingsCategoryChanged ==> post.servers.settings_category
            == m->ServerSettingsCategoryChanged_0 && fx.len() == 0,
        m is ToggleServerAddMenu ==> post.servers.add_menu_open == !pre.servers.add_menu_open
            && fx.len() == 0,
        m is ToggleConfirmDeleteServer ==> post.servers.confirm_delete
            == !pre.servers.confirm_delete && fx.len() == 0,
        m is ConfirmTransferOwnership ==> fx.len() == 0 && {
            let id = m->ConfirmTransferOwnership_0;
            let was = pre.servers.confirm_transfer_owner_id;
            let is = post.servers.confirm_transfer_owner_id;
            &&& id@.len() == 0 || text_is(was, id@) ==> is is None
            &&& id@.len() > 0 && !text_is(was, id@) ==> is == Some(id)
        },
        m is ToggleServerSettings ==> {
            &&& post.servers.settings_open == !pre.servers.settings_open
            &&& !post.servers.confirm_delete
            &&& post.servers.confirm_transfer_owner_id is None
            &&& post.servers.selected == pre.servers.selected
            &&& post.servers.settings_open ==> fx == seq![
                EffectView::Dispatch(Message::Server(ServerMessage::LoadServerStats)),
            ]
            &&& !post.servers.settings_open ==> fx.len() == 0
            &&& post.servers.settings_open && pre.servers.selected is Some ==> {
                &&& post.servers.rename_input == pre.servers.selected->0.name
                &&& post.servers.custom_slug_input == pre.servers.selected->0.custom_slug
                &&& post.servers.description_input == pre.servers.selected->0.description
            }
        },
{
}

} // verus!
