//! Permissions: those of roles, and what channels allow and deny them.

use crate::laws::asked::{changes, lemma_request, looks_up, number, offline, online, text};
use crate::state::app::{App, Now};
use crate::state::channels::{bottom_role, overwrites_of};
use crate::state::effect::{EffectView, Reply};
use crate::state::keyed::{lemma_position_is, position};
use crate::state::message::{ChannelMessage, Message, RoleMessage};
use crate::state::types::ServerRoleRow;
use crate::state::update::step;
use crate::text::{text_is, trimmed};
use vstd::prelude::*;

verus! {

/// The bits that a role is allowed in the edited channel, as shown.
pub open spec fn allowed(app: App, role: Seq<char>) -> u32 {
    if app.channels.overwrites@.contains_key(role) {
        app.channels.overwrites@[role].0
    } else {
        0
    }
}

/// The bits that a role is denied in the edited channel, as shown.
pub open spec fn denied(app: App, role: Seq<char>) -> u32 {
    if app.channels.overwrites@.contains_key(role) {
        app.channels.overwrites@[role].1
    } else {
        0
    }
}

/// What is sent is what is then shown: after a click the backend is given the
/// bits that the screen shows for the role, allowed ones as allowed and denied
/// ones as denied.
pub proof fn the_server_gets_what_is_shown(
    pre: App,
    bit: u32,
    now: Now,
    post: App,
    fx: Seq<EffectView>,
    token: Seq<char>,
)
    requires
        step(
            pre,
            Message::Channel(ChannelMessage::CycleChannelOverwritePerm(bit)),
            now,
            post,
            fx,
        ),
    ensures
        pre.channels.perms_channel_id is Some && pre.channels.perms_role_id is Some && online(
            pre,
            token,
        ) ==> {
            let role = pre.channels.perms_role_id->0@;
            changes(
                fx,
                token,
                "channels:setOverwrite"@,
                seq![
                    text("conversationId"@, pre.channels.perms_channel_id->0@),
                    text("targetType"@, "role"@),
                    text("targetId"@, role),
                    number("allow"@, allowed(post, role) as int),
                    number("deny"@, denied(post, role) as int),
                ],
                Reply::ChannelOverwriteSaved,
            )
        },
        pre.channels.perms_channel_id is None || pre.channels.perms_role_id is None ==> post == pre
            && fx.len() == 0,
        offline(pre) ==> fx.len() == 0,
{
    broadcast use lemma_request;

}

/// A click takes a permission from inherited to allowed, from allowed to
/// denied, and from denied back; it is never both, the other permissions of the
/// role stay, and so do those of other roles.
pub proof fn clicks_go_round(
    pre: App,
    bit: u32,
    now: Now,
    post: App,
    fx: Seq<EffectView>,
    other: Seq<char>,
)
    requires
        step(
            pre,
            Message::Channel(ChannelMessage::CycleChannelOverwritePerm(bit)),
            now,
            post,
            fx,
        ),
        pre.channels.perms_channel_id is Some,
        pre.channels.perms_role_id is Some,
        bit != 0,
        other != pre.channels.perms_role_id->0@,
    ensures
        ({
            let role = pre.channels.perms_role_id->0@;
            let (a, d) = (allowed(pre, role), denied(pre, role));
            let (a2, d2) = (allowed(post, role), denied(post, role));
            &&& a & bit == 0 && d & bit == 0 ==> a2 & bit == bit && d2 & bit == 0
            &&& a & bit != 0 ==> a2 & bit == 0 && d2 & bit == bit
            &&& a & bit == 0 && d & bit != 0 ==> a2 & bit == 0 && d2 & bit == 0
            &&& a2 & !bit == a & !bit
            &&& d2 & !bit == d & !bit
        }),
        allowed(post, other) == allowed(pre, other),
        denied(post, other) == denied(pre, other),
        post.channels.perms_channel_id == pre.channels.perms_channel_id,
        post.channels.perms_role_id == pre.channels.perms_role_id,
{
    let role = pre.channels.perms_role_id->0@;
    let (a, d) = (allowed(pre, role), denied(pre, role));
    assert(((a & !bit) | bit) & bit == bit) by (bit_vector);
    assert(((d & !bit) | bit) & bit == bit) by (bit_vector);
    assert((a & !bit) & bit == 0) by (bit_vector);
    assert((d & !bit) & bit == 0) by (bit_vector);
    assert(((a & !bit) | bit) & !bit == a & !bit) by (bit_vector);
    assert(((d & !bit) | bit) & !bit == d & !bit) by (bit_vector);
    assert((a & !bit) & !bit == a & !bit) by (bit_vector);
    assert((d & !bit) & !bit == d & !bit) by (bit_vector);
    assert(0u32 & bit == 0) by (bit_vector);
    assert(0u32 & !bit == 0) by (bit_vector);
}

proof fn lemma_overwrites(rows: Seq<(String, u32, u32)>, k: int)
    requires
        0 <= k < rows.len(),
        forall|j: int| 0 <= j < rows.len() && j != k ==> (#[trigger] rows[j]).0@ != rows[k].0@,
    ensures
        ({
            let m = overwrites_of(rows);
            let r = rows[k];
            if r.1 == 0 && r.2 == 0 {
                !m.contains_key(r.0@)
            } else {
                m.contains_key(r.0@) && m[r.0@] == (r.1, r.2)
            }
        }),
    decreases rows.len(),
{
    let t = rows.drop_last();
    let role = rows[k].0@;
    if k < rows.len() - 1 {
        assert forall|j: int| 0 <= j < t.len() && j != k implies (#[trigger] t[j]).0@ != t[k].0@ by {
            assert(rows[j].0@ != rows[k].0@);
        }
        lemma_overwrites(t, k);
        assert(rows[rows.len() - 1].0@ != role);
    } else {
        assert forall|j: int| 0 <= j < t.len() implies (#[trigger] t[j]).0@ != role by {
            assert(rows[j].0@ != rows[k].0@);
        }
        lemma_unlisted(t, role);
    }
}

proof fn lemma_unlisted(rows: Seq<(String, u32, u32)>, role: Seq<char>)
    requires
        forall|j: int| 0 <= j < rows.len() ==> (#[trigger] rows[j]).0@ != role,
    ensures
        !overwrites_of(rows).contains_key(role),
    decreases rows.len(),
{
    if rows.len() > 0 {
        let t = rows.drop_last();
        assert forall|j: int| 0 <= j < t.len() implies (#[trigger] t[j]).0@ != role by {
            assert(rows[j].0@ != role);
        }
        lemma_unlisted(t, role);
        assert(rows[rows.len() - 1].0@ != role);
    }
}

/// What the backend lists for the edited channel is what is shown: for a role
/// that is listed once its bits, allowed and denied, and for one that is not
/// listed none. A list of another channel changes nothing.
pub proof fn listed_overwrites_are_shown(
    pre: App,
    channel: String,
    rows: Vec<(String, u32, u32)>,
    now: Now,
    post: App,
    fx: Seq<EffectView>,
    k: int,
    role: Seq<char>,
)
    requires
        step(
            pre,
            Message::Channel(ChannelMessage::ChannelOverwritesLoaded(Ok((channel, rows)))),
            now,
            post,
            fx,
        ),
    ensures
        fx.len() == 0,
        !text_is(pre.channels.perms_channel_id, channel@) ==> post == pre,
        text_is(pre.channels.perms_channel_id, channel@) && 0 <= k < rows@.len() && (forall|j: int|
            0 <= j < rows@.len() && j != k ==> (#[trigger] rows@[j]).0@ != rows@[k].0@) ==> allowed(
            post,
            rows@[k].0@,
        ) == rows@[k].1 && denied(post, rows@[k].0@) == rows@[k].2,
        text_is(pre.channels.perms_channel_id, channel@) && (forall|j: int|
            0 <= j < rows@.len() ==> (#[trigger] rows@[j]).0@ != role) ==> allowed(post, role) == 0
            && denied(post, role) == 0,
{
    if 0 <= k < rows@.len() && (forall|j: int|
        0 <= j < rows@.len() && j != k ==> (#[trigger] rows@[j]).0@ != rows@[k].0@) {
        lemma_overwrites(rows@, k);
    }
    if forall|j: int| 0 <= j < rows@.len() ==> (#[trigger] rows@[j]).0@ != role {
        lemma_unlisted(rows@, role);
    }
}

proof fn lemma_bottom(roles: Seq<ServerRoleRow>)
    ensures
        match bottom_role(roles) {
            Some(id) => exists|i: int|
                0 <= i < roles.len() && (#[trigger] roles[i]).role_id@ == id && roles[i].position == 0,
            None => forall|i: int| 0 <= i < roles.len() ==> (#[trigger] roles[i]).position != 0,
        },
    decreases roles.len(),
{
    if roles.len() > 0 {
        let t = roles.drop_last();
        lemma_bottom(t);
        if bottom_role(t) is Some {
            let i = choose|i: int|
                0 <= i < t.len() && (#[trigger] t[i]).role_id@ == bottom_role(t)->0 && t[i].position
                    == 0;
            assert(roles[i] == t[i]);
        } else if roles.last().position == 0 {
            assert(roles[roles.len() - 1].role_id@ == bottom_role(roles)->0);
        } else {
            assert forall|i: int| 0 <= i < roles.len() implies (#[trigger] roles[i]).position != 0 by {
                if i < t.len() {
                    assert(t[i].position != 0);
                }
            }
        }
    }
}

/// Editing a channel's permissions starts empty, asks for what is set there,
/// and begins with a role at the bottom, or else with the first.
pub proof fn editing_starts_at_the_bottom(
    pre: App,
    channel: String,
    now: Now,
    post: App,
    fx: Seq<EffectView>,
    token: Seq<char>,
    role: Seq<char>,
)
    requires
        step(pre, Message::Channel(ChannelMessage::EditChannelPerms(channel)), now, post, fx),
    ensures
        offline(pre) ==> post == pre && fx.len() == 0,
        online(pre, token) ==> {
            &&& post.channels.perms_channel_id == Some(channel)
            &&& allowed(post, role) == 0 && denied(post, role) == 0
            &&& looks_up(
                fx,
                token,
                "channels:listOverwrites"@,
                seq![text("conversationId"@, channel@)],
                Reply::ChannelOverwritesLoaded { conversation_id: channel },
            )
            &&& pre.roles.list@.len() == 0 ==> post.channels.perms_role_id is None
            &&& pre.roles.list@.len() > 0 ==> post.channels.perms_role_id is Some && exists|i: int|
                {
                    &&& 0 <= i < pre.roles.list@.len()
                    &&& (#[trigger] pre.roles.list@[i]).role_id@ == post.channels.perms_role_id->0@
                    &&& pre.roles.list@[i].position == 0 || (i == 0 && forall|j: int|
                        0 <= j < pre.roles.list@.len() ==> (#[trigger] pre.roles.list@[j]).position
                            != 0)
                }
        },
{
    broadcast use lemma_request;

    let roles = pre.roles.list@;
    lemma_bottom(roles);
    if online(pre, token) && roles.len() > 0 {
        if bottom_role(roles) is Some {
            let i = choose|i: int|
                0 <= i < roles.len() && (#[trigger] roles[i]).role_id@ == bottom_role(roles)->0
                    && roles[i].position == 0;
            assert(roles[i].role_id@ == post.channels.perms_role_id->0@);
        } else {
            assert(roles[0].role_id@ == post.channels.perms_role_id->0@);
        }
    }
}

/// Choosing a role or leaving the editor: the choice is kept, and leaving
/// forgets all of it.
pub proof fn the_editor_opens_and_closes(pre: App, m: ChannelMessage, now: Now, post: App, fx: Seq<EffectView>)
    requires
        step(pre, Message::Channel(m), now, post, fx),
    ensures
        m is SelectChannelPermRole ==> post.channels.perms_role_id == Some(
            m->SelectChannelPermRole_0,
        ) && post.channels.overwrites == pre.channels.overwrites && post.channels.perms_channel_id
            == pre.channels.perms_channel_id && fx.len() == 0,
        m is CloseChannelPerms ==> post.channels.perms_role_id is None
            && post.channels.perms_channel_id is None && post.channels.overwrites@.dom().is_empty()
            && fx.len() == 0,
        m is ChannelOverwriteSaved ==> post.channels == pre.channels && fx.len() == 0
            && post.servers.status == m->ChannelOverwriteSaved_0.err(),
{
    if m is CloseChannelPerms {
        assert(post.channels.overwrites@.dom() =~= Set::empty());
    }
}

/// The backend is asked, and asked nothing else, to give a role these bits.
pub open spec fn role_given(fx: Seq<EffectView>, token: Seq<char>, role: Seq<char>, bits: u32) -> bool {
    changes(
        fx,
        token,
        "roles:updateRole"@,
        seq![text("roleId"@, role), number("permissions"@, bits as int)],
        Reply::RoleMutationFinished,
    )
}

/// A click on a permission of a role asks for the role's bits with that one
/// turned over, and no other.
pub proof fn role_clicks_turn_one_permission(
    pre: App,
    id: String,
    bit: u32,
    k: int,
    now: Now,
    post: App,
    fx: Seq<EffectView>,
    token: Seq<char>,
)
    requires
        step(pre, Message::Role(RoleMessage::ToggleRolePermission(id, bit)), now, post, fx),
        0 <= k < pre.roles.list@.len(),
        pre.roles.list@[k].role_id@ == id@,
        forall|j: int| 0 <= j < k ==> (#[trigger] pre.roles.list@[j]).role_id@ != id@,
        online(pre, token),
    ensures
        post == pre,
        exists|bits: u32|
            {
                &&& bits & !bit == pre.roles.list@[k].permissions & !bit
                &&& bits & bit == !pre.roles.list@[k].permissions & bit
                &&& #[trigger] role_given(fx, token, id@, bits)
            },
{
    broadcast use lemma_request;

    lemma_position_is(pre.roles.list@, id@, k);
    let p = pre.roles.list@[k].permissions;
    let bits: u32 = p ^ bit;
    assert((p ^ bit) & !bit == p & !bit) by (bit_vector);
    assert((p ^ bit) & bit == !p & bit) by (bit_vector);
    assert(role_given(fx, token, id@, bits));
}

/// What the other buttons of the role editor ask for.
pub proof fn role_buttons(
    pre: App,
    m: RoleMessage,
    now: Now,
    post: App,
    fx: Seq<EffectView>,
    token: Seq<char>,
)
    requires
        step(pre, Message::Role(m), now, post, fx),
        online(pre, token),
    ensures
        m is CreateRole && pre.servers.selected is Some && trimmed(
            pre.roles.new_name_input@,
        ).len() > 0 ==> changes(
            fx,
            token,
            "roles:createRole"@,
            seq![
                text("serverId"@, pre.servers.selected->0.server_id@),
                text("name"@, trimmed(pre.roles.new_name_input@)),
            ],
            Reply::CreateRoleFinished,
        ),
        m is ToggleMemberRole && pre.servers.selected is Some ==> changes(
            fx,
            token,
            "roles:toggleRole"@,
            seq![
                text("serverId"@, pre.servers.selected->0.server_id@),
                text("userId"@, m->ToggleMemberRole_0@),
                text("roleId"@, m->ToggleMemberRole_1@),
            ],
            Reply::ToggleRoleFinished,
        ),
        m is SaveRoleName && pre.roles.editing_id is Some && trimmed(
            pre.roles.name_edit_input@,
        ).len() > 0 ==> changes(
            fx,
            token,
            "roles:updateRole"@,
            seq![
                text("roleId"@, pre.roles.editing_id->0@),
                text("name"@, trimmed(pre.roles.name_edit_input@)),
            ],
            Reply::RoleMutationFinished,
        ),
        m is SetRoleColor ==> changes(
            fx,
            token,
            "roles:updateRole"@,
            seq![text("roleId"@, m->SetRoleColor_0@), text("color"@, m->SetRoleColor_1@)],
            Reply::RoleMutationFinished,
        ),
        m is DeleteRole ==> changes(
            fx,
            token,
            "roles:deleteRole"@,
            seq![text("roleId"@, m->DeleteRole_0@)],
            Reply::RoleMutationFinished,
        ) && post.roles.confirm_delete_id is None && !text_is(
            post.roles.editing_id,
            m->DeleteRole_0@,
        ),
        m is ServerRolesUpdated ==> post.roles.list == m->ServerRolesUpdated_0,
        m is MyServerPermsUpdated ==> post.roles.my_permissions == m->MyServerPermsUpdated_0,
        m is ConfirmDeleteRole ==> post.roles.confirm_delete_id == Some(m->ConfirmDeleteRole_0)
            && fx.len() == 0,
        m is CancelDeleteRole ==> post.roles.confirm_delete_id is None && fx.len() == 0,
        m is SelectRoleForEdit ==> post.roles.editing_id == Some(m->SelectRoleForEdit_0),
        m is CloseRoleEditor ==> post.roles.editing_id is None && post.roles.confirm_delete_id is None,
{
    broadcast use lemma_request;

    if pre.servers.selected is Some {
        let s = text("serverId"@, pre.servers.selected->0.server_id@);
        if m is CreateRole {
            let a = text("name"@, trimmed(pre.roles.new_name_input@));
            assert(seq![s] + seq![a] =~= seq![s, a]);
        }
        if m is ToggleMemberRole {
            let a = text("userId"@, m->ToggleMemberRole_0@);
            let b = text("roleId"@, m->ToggleMemberRole_1@);
            assert(seq![s] + seq![a, b] =~= seq![s, a, b]);
        }
    }
}

/// A role that is edited starts with its own name.
pub proof fn edited_roles_start_with_their_name(
    pre: App,
    id: String,
    k: int,
    now: Now,
    post: App,
    fx: Seq<EffectView>,
)
    requires
        step(pre, Message::Role(RoleMessage::SelectRoleForEdit(id)), now, post, fx),
        0 <= k < pre.roles.list@.len(),
        pre.roles.list@[k].role_id@ == id@,
        forall|j: int| 0 <= j < k ==> (#[trigger] pre.roles.list@[j]).role_id@ != id@,
    ensures
        post.roles.name_edit_input == pre.roles.list@[k].name,
        post.roles.editing_id == Some(id),
        post.roles.list == pre.roles.list,
{
    lemma_position_is(pre.roles.list@, id@, k);
}

} // verus!
