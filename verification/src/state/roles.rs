//! Roles of the selected server.

use crate::state::app::{mutation, toasts, App, Now, Roles, Servers};
use crate::state::effect::{
    arg, args_view, nothing, views, Arg, ArgView, CallKind, Effect, EffectView, Reply,
};
use crate::state::keyed::{find, row};
use crate::state::message::RoleMessage;
use crate::state::servers::{server_mutation, servers_are};
use crate::text::{is_text, text_is, trim, trimmed};
use vstd::prelude::*;

verus! {

/// Only the roles pane changed, to `roles`.
pub open spec fn roles_are(pre: App, roles: Roles, post: App, fx: Seq<EffectView>) -> bool {
    post == (App { roles, ..pre }) && fx.len() == 0
}

/// A change of one property of a role.
pub open spec fn update_role(app: App, id: Seq<char>, key: Seq<char>, value: ArgView) -> Seq<EffectView> {
    mutation(
        app,
        "roles:updateRole"@,
        seq![("roleId"@, ArgView::Str(id)), (key, value)],
        Reply::RoleMutationFinished,
    )
}

/// What the "create role" button asks for.
pub open spec fn create_role(app: App) -> Seq<EffectView> {
    let name = trimmed(app.roles.new_name_input@);
    if name.len() == 0 {
        Seq::empty()
    } else {
        server_mutation(
            app,
            "roles:createRole"@,
            seq![("name"@, ArgView::Str(name))],
            Reply::CreateRoleFinished,
        )
    }
}

/// What saving the edited role's name asks for.
pub open spec fn save_role_name(app: App) -> Seq<EffectView> {
    let name = trimmed(app.roles.name_edit_input@);
    match app.roles.editing_id {
        Some(id) => if name.len() == 0 {
            Seq::empty()
        } else {
            update_role(app, id@, "name"@, ArgView::Str(name))
        },
        None => Seq::empty(),
    }
}

/// What a click on a permission of a role asks for.
pub open spec fn toggle_permission(app: App, id: Seq<char>, bit: u32) -> Seq<EffectView> {
    match row(app.roles.list@, id) {
        Some(r) => update_role(
            app,
            id,
            "permissions"@,
            ArgView::Num((r.permissions ^ bit) as int),
        ),
        None => Seq::empty(),
    }
}

/// A second click on a permission undoes the first, and a click changes no
/// other permission.
pub proof fn permission_clicks_undo(permissions: u32, bit: u32)
    ensures
        (permissions ^ bit) ^ bit == permissions,
        (permissions ^ bit) & !bit == permissions & !bit,
{
    assert((permissions ^ bit) ^ bit == permissions) by (bit_vector);
    assert((permissions ^ bit) & !bit == permissions & !bit) by (bit_vector);
}

/// What a message about roles does.
pub open spec fn role_step(pre: App, m: RoleMessage, now: Now, post: App, fx: Seq<EffectView>) -> bool {
    match m {
        RoleMessage::ServerRolesUpdated(list) => roles_are(
            pre,
            Roles { list, ..pre.roles },
            post,
            fx,
        ),
        RoleMessage::NewRoleNameChanged(value) => roles_are(
            pre,
            Roles { new_name_input: value, ..pre.roles },
            post,
            fx,
        ),
        RoleMessage::CreateRole => post == pre && fx == create_role(pre),
        RoleMessage::CreateRoleFinished(Ok(())) => {
            &&& post == (App {
                roles: Roles { new_name_input: post.roles.new_name_input, ..pre.roles },
                toast: post.toast,
                ..pre
            })
            &&& post.roles.new_name_input@.len() == 0
            &&& toasts(post.toast, "Role created"@, now)
            &&& fx.len() == 0
        },
        RoleMessage::CreateRoleFinished(Err(err)) | RoleMessage::ToggleRoleFinished(Err(err))
        | RoleMessage::RoleMutationFinished(Err(err)) => servers_are(
            pre,
            Servers { status: Some(err), ..pre.servers },
            post,
            fx,
        ),
        RoleMessage::ToggleMemberRole(user_id, role_id) => {
            &&& post == pre
            &&& fx == server_mutation(
                pre,
                "roles:toggleRole"@,
                seq![("userId"@, ArgView::Str(user_id@)), ("roleId"@, ArgView::Str(role_id@))],
                Reply::ToggleRoleFinished,
            )
        },
        RoleMessage::ToggleRoleFinished(Ok(())) => {
            &&& post == (App { toast: post.toast, ..pre })
            &&& toasts(post.toast, "Role updated"@, now)
            &&& fx.len() == 0
        },
        RoleMessage::ToggleMemberRolePicker(user_id) => roles_are(
            pre,
            Roles {
                member_picker_open: if text_is(pre.roles.member_picker_open, user_id@) {
                    None
                } else {
                    Some(user_id)
                },
                ..pre.roles
            },
            post,
            fx,
        ),
        RoleMessage::MyServerPermsUpdated(bits) => roles_are(
            pre,
            Roles { my_permissions: bits, ..pre.roles },
            post,
            fx,
        ),
        RoleMessage::SelectRoleForEdit(id) => roles_are(
            pre,
            Roles {
                name_edit_input: match row(pre.roles.list@, id@) {
                    Some(r) => r.name,
                    None => pre.roles.name_edit_input,
                },
                editing_id: Some(id),
                confirm_delete_id: None,
                ..pre.roles
            },
            post,
            fx,
        ),
        RoleMessage::CloseRoleEditor => {
            &&& roles_are(
                pre,
                Roles {
                    editing_id: None,
                    name_edit_input: post.roles.name_edit_input,
                    confirm_delete_id: None,
                    ..pre.roles
                },
                post,
                fx,
            )
            &&& post.roles.name_edit_input@.len() == 0
        },
        RoleMessage::RoleNameEditChanged(value) => roles_are(
            pre,
            Roles { name_edit_input: value, ..pre.roles },
            post,
            fx,
        ),
        RoleMessage::SaveRoleName => post == pre && fx == save_role_name(pre),
        RoleMessage::SetRoleColor(id, color) => {
            &&& post == pre
            &&& fx == update_role(pre, id@, "color"@, ArgView::Str(color@))
        },
        RoleMessage::ToggleRolePermission(id, bit) => post == pre && fx == toggle_permission(
            pre,
            id@,
            bit,
        ),
        RoleMessage::RoleMutationFinished(Ok(())) => post == pre && fx.len() == 0,
        RoleMessage::ConfirmDeleteRole(id) => roles_are(
            pre,
            Roles { confirm_delete_id: Some(id), ..pre.roles },
            post,
            fx,
        ),
        RoleMessage::CancelDeleteRole => roles_are(
            pre,
            Roles { confirm_delete_id: None, ..pre.roles },
            post,
            fx,
        ),
        RoleMessage::DeleteRole(id) => if pre.token() is None {
            post == pre && fx.len() == 0
        } else {
            &&& post == (App {
                roles: Roles {
                    confirm_delete_id: None,
                    editing_id: if text_is(pre.roles.editing_id, id@) {
                        None
                    } else {
                        pre.roles.editing_id
                    },
                    ..pre.roles
                },
                ..pre
            })
            &&& fx == mutation(
                pre,
                "roles:deleteRole"@,
                seq![("roleId"@, ArgView::Str(id@))],
                Reply::RoleMutationFinished,
            )
        },
    }
}

impl App {
    fn create_role(&self) -> (fx: Vec<Effect>)
        ensures
            views(fx@) == create_role(*self),
    {
        let name = trim(&self.roles.new_name_input);
        if name.as_str().is_empty() {
            return nothing();
        }
        self.ask_server1(
            "roles:createRole",
            "name",
            Arg::Str(name),
            Reply::CreateRoleFinished,
        )
    }

    fn ask_update_role(&self, id: &String, key: &'static str, value: Arg) -> (fx: Vec<Effect>)
        ensures
            views(fx@) == update_role(*self, id@, key@, value@),
    {
        self.ask2(
            CallKind::Mutation,
            "roles:updateRole",
            "roleId",
            arg(id),
            key,
            value,
            Reply::RoleMutationFinished,
        )
    }

    fn save_role_name(&self) -> (fx: Vec<Effect>)
        ensures
            views(fx@) == save_role_name(*self),
    {
        match &self.roles.editing_id {
            Some(id) => {
                let name = trim(&self.roles.name_edit_input);
                if name.as_str().is_empty() {
                    return nothing();
                }
                self.ask_update_role(id, "name", Arg::Str(name))
            },
            None => nothing(),
        }
    }

    fn toggle_role_permission(&self, id: &String, bit: u32) -> (fx: Vec<Effect>)
        ensures
            views(fx@) == toggle_permission(*self, id@, bit),
    {
        match find(&self.roles.list, id) {
            Some(i) => {
                let bits: u32 = self.roles.list[i].permissions ^ bit;
                self.ask_update_role(id, "permissions", Arg::Num(bits as i64))
            },
            None => nothing(),
        }
    }

    fn toggle_member_role(&self, user_id: String, role_id: String) -> (fx: Vec<Effect>)
        ensures
            views(fx@) == server_mutation(
                *self,
                "roles:toggleRole"@,
                seq![("userId"@, ArgView::Str(user_id@)), ("roleId"@, ArgView::Str(role_id@))],
                Reply::ToggleRoleFinished,
            ),
    {
        let extra = vec![("userId", Arg::Str(user_id)), ("roleId", Arg::Str(role_id))];
        assert(args_view(extra@) =~= seq![
            ("userId"@, ArgView::Str(user_id@)),
            ("roleId"@, ArgView::Str(role_id@)),
        ]);
        self.ask_server(CallKind::Mutation, "roles:toggleRole", extra, Reply::ToggleRoleFinished)
    }

    fn select_role(&mut self, id: String) -> (fx: Vec<Effect>)
        ensures
            role_step(
                *old(self),
                RoleMessage::SelectRoleForEdit(id),
                Now { tick_ms: 0, unix_ms: 0 },
                *final(self),
                views(fx@),
            ),
    {
        match find(&self.roles.list, &id) {
            Some(i) => {
                self.roles.name_edit_input = self.roles.list[i].name.clone();
            },
            None => {},
        }
        self.roles.editing_id = Some(id);
        self.roles.confirm_delete_id = None;
        nothing()
    }

    fn delete_role(&mut self, id: String) -> (fx: Vec<Effect>)
        ensures
            role_step(
                *old(self),
                RoleMessage::DeleteRole(id),
                Now { tick_ms: 0, unix_ms: 0 },
                *final(self),
                views(fx@),
            ),
    {
        if self.online_token().is_none() {
            return nothing();
        }
        self.roles.confirm_delete_id = None;
        if is_text(&self.roles.editing_id, &id) {
            self.roles.editing_id = None;
        }
        self.ask1(
            CallKind::Mutation,
            "roles:deleteRole",
            "roleId",
            Arg::Str(id),
            Reply::RoleMutationFinished,
        )
    }

    /// Handles a message about roles.
    #[verifier::rlimit(40)]
    pub fn update_roles(&mut self, m: RoleMessage, now: Now) -> (fx: Vec<Effect>)
        ensures
            role_step(*old(self), m, now, *final(self), views(fx@)),
    {
        match m {
            RoleMessage::ServerRolesUpdated(list) => {
                self.roles.list = list;
                nothing()
            },
            RoleMessage::NewRoleNameChanged(value) => {
                self.roles.new_name_input = value;
                nothing()
            },
            RoleMessage::CreateRole => self.create_role(),
            RoleMessage::CreateRoleFinished(Ok(_)) => {
                self.roles.new_name_input = String::new();
                self.show_toast("Role created", now);
                nothing()
            },
            RoleMessage::CreateRoleFinished(Err(err)) => {
                self.servers.status = Some(err);
                nothing()
            },
            RoleMessage::ToggleMemberRole(user_id, role_id) => self.toggle_member_role(
                user_id,
                role_id,
            ),
            RoleMessage::ToggleRoleFinished(Ok(_)) => {
                self.show_toast("Role updated", now);
                nothing()
            },
            RoleMessage::ToggleRoleFinished(Err(err)) => {
                self.servers.status = Some(err);
                nothing()
            },
            RoleMessage::ToggleMemberRolePicker(user_id) => {
                self.roles.member_picker_open = if is_text(
                    &self.roles.member_picker_open,
                    &user_id,
                ) {
                    None
                } else {
                    Some(user_id)
                };
                nothing()
            },
            RoleMessage::MyServerPermsUpdated(bits) => {
                self.roles.my_permissions = bits;
                nothing()
            },
            RoleMessage::SelectRoleForEdit(id) => self.select_role(id),
            RoleMessage::CloseRoleEditor => {
                self.roles.editing_id = None;
                self.roles.name_edit_input = String::new();
                self.roles.confirm_delete_id = None;
                nothing()
            },
            RoleMessage::RoleNameEditChanged(value) => {
                self.roles.name_edit_input = value;
                nothing()
            },
            RoleMessage::SaveRoleName => self.save_role_name(),
            RoleMessage::SetRoleColor(id, color) => self.ask_update_role(
                &id,
                "color",
                Arg::Str(color),
            ),
            RoleMessage::ToggleRolePermission(id, bit) => self.toggle_role_permission(&id, bit),
            RoleMessage::RoleMutationFinished(Ok(_)) => nothing(),
            RoleMessage::RoleMutationFinished(Err(err)) => {
                self.servers.status = Some(err);
                nothing()
            },
            RoleMessage::ConfirmDeleteRole(id) => {
                self.roles.confirm_delete_id = Some(id);
                nothing()
            },
            RoleMessage::CancelDeleteRole => {
                self.roles.confirm_delete_id = None;
                nothing()
            },
            RoleMessage::DeleteRole(id) => self.delete_role(id),
        }
    }
}

} // verus!
