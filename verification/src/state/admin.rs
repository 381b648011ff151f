//! The admin panel.

use crate::state::app::{mutation, query, toasts, Admin, App, Now};
use crate::state::effect::{
    nothing, one, views, Arg, ArgView, CallKind, Effect, EffectView, Reply,
};
use crate::state::message::{AdminMessage, Message};
use crate::text::{owned, same};
use vstd::prelude::*;

verus! {

/// Only the admin panel changed, to `admin`.
pub open spec fn admin_is(pre: App, admin: Admin, post: App, fx: Seq<EffectView>) -> bool {
    post == (App { admin, ..pre }) && fx.len() == 0
}

/// The details of this user are shown.
pub open spec fn detail_shown(app: App, user_id: Seq<char>) -> bool {
    match app.admin.user_detail {
        Some(d) => d.user_id@ == user_id,
        None => false,
    }
}

/// A toast and nothing else.
pub open spec fn just_toast(pre: App, text: Seq<char>, now: Now, post: App, fx: Seq<EffectView>) -> bool {
    &&& post == (App { toast: post.toast, ..pre })
    &&& toasts(post.toast, text, now)
    &&& fx.len() == 0
}

/// A platform role is asked for by its own message.
pub open spec fn set_role(user_id: String, make_admin: bool, fx: Seq<EffectView>) -> bool {
    exists|role: String|
        {
            &&& role@ == if make_admin {
                "admin"@
            } else {
                "user"@
            }
            &&& fx == #[trigger] role_dispatch(user_id, role)
        }
}

/// The message that sets a platform role.
pub open spec fn role_dispatch(user_id: String, role: String) -> Seq<EffectView> {
    seq![EffectView::Dispatch(Message::Admin(AdminMessage::AdminSetPlatformRole(user_id, role)))]
}

/// What a message about administration does.
pub open spec fn admin_step(pre: App, m: AdminMessage, now: Now, post: App, fx: Seq<EffectView>) -> bool {
    match m {
        AdminMessage::AdminUsersUpdated(users) => admin_is(
            pre,
            Admin { users, ..pre.admin },
            post,
            fx,
        ),
        AdminMessage::AdminSearchInputChanged(value) => admin_is(
            pre,
            Admin { search_input: value, ..pre.admin },
            post,
            fx,
        ),
        AdminMessage::AdminSetRole(user_id, make_admin) => post == pre && set_role(
            user_id,
            make_admin,
            fx,
        ),
        AdminMessage::AdminSetPlatformRole(user_id, role) => {
            &&& post == pre
            &&& fx == mutation(
                pre,
                "admin:setRole"@,
                seq![("userId"@, ArgView::Str(user_id@)), ("role"@, ArgView::Str(role@))],
                Reply::AdminSetRoleFinished,
            )
        },
        AdminMessage::AdminSetRoleFinished(Ok(())) => just_toast(
            pre,
            "Role updated"@,
            now,
            post,
            fx,
        ),
        AdminMessage::AdminSetRoleFinished(Err(err)) | AdminMessage::AdminSetBannedFinished(
            Err(err),
        ) | AdminMessage::AdminStatsUpdated(Err(err)) | AdminMessage::AdminRevokeSessionsFinished(
            Err(err),
        ) => admin_is(pre, Admin { status: Some(err), ..pre.admin }, post, fx),
        AdminMessage::AdminSetBanned(user_id, banned) => {
            &&& post == pre
            &&& fx == mutation(
                pre,
                "admin:setBanned"@,
                seq![("userId"@, ArgView::Str(user_id@)), ("banned"@, ArgView::Bool(banned))],
                Reply::AdminSetBannedFinished,
            )
        },
        AdminMessage::AdminSetBannedFinished(Ok(())) => post == pre && fx.len() == 0,
        AdminMessage::LoadAdminStats => {
            post == pre && fx == query(pre, "admin:adminStats"@, seq![], Reply::AdminStatsUpdated)
        },
        AdminMessage::AdminStatsUpdated(Ok(stats)) => admin_is(
            pre,
            Admin { stats: Some(stats), ..pre.admin },
            post,
            fx,
        ),
        AdminMessage::SetAdminFilter(filter) => admin_is(
            pre,
            Admin { filter, ..pre.admin },
            post,
            fx,
        ),
        AdminMessage::ToggleAdminUserDetail(user_id) => if detail_shown(pre, user_id@) {
            admin_is(pre, Admin { user_detail: None, ..pre.admin }, post, fx)
        } else {
            &&& post == pre
            &&& fx == query(
                pre,
                "admin:adminUserDetail"@,
                seq![("userId"@, ArgView::Str(user_id@))],
                Reply::AdminUserDetailUpdated,
            )
        },
        AdminMessage::AdminUserDetailUpdated(detail) => admin_is(
            pre,
            Admin { user_detail: detail, ..pre.admin },
            post,
            fx,
        ),
        AdminMessage::AdminRevokeSessions(user_id) => {
            &&& post == pre
            &&& fx == mutation(
                pre,
                "admin:adminRevokeSessions"@,
                seq![("userId"@, ArgView::Str(user_id@))],
                Reply::AdminRevokeSessionsFinished,
            )
        },
        AdminMessage::AdminRevokeSessionsFinished(Ok(())) => just_toast(
            pre,
            "Sessions revoked"@,
            now,
            post,
            fx,
        ),
        AdminMessage::LoadAdminReports => {
            &&& post == pre
            &&& fx == query(
                pre,
                "reports:adminListReports"@,
                seq![],
                Reply::AdminReportsUpdated,
            )
        },
        AdminMessage::AdminReportsUpdated(Ok(reports)) => admin_is(
            pre,
            Admin { reports, reports_status: None, ..pre.admin },
            post,
            fx,
        ),
        AdminMessage::AdminReportsUpdated(Err(err)) | AdminMessage::AdminResolveReportFinished(
            Err(err),
        ) => admin_is(pre, Admin { reports_status: Some(err), ..pre.admin }, post, fx),
        AdminMessage::AdminResolveReport(report_id, status) => {
            &&& post == pre
            &&& fx == mutation(
                pre,
                "reports:adminResolveReport"@,
                seq![("reportId"@, ArgView::Str(report_id@)), ("status"@, ArgView::Str(status@))],
                Reply::AdminResolveReportFinished,
            )
        },
        AdminMessage::AdminResolveReportFinished(Ok(())) => {
            &&& post == pre
            &&& fx == seq![EffectView::Dispatch(Message::Admin(AdminMessage::LoadAdminReports))]
        },
    }
}

impl App {
    fn admin_set_role(&self, user_id: String, make_admin: bool) -> (fx: Vec<Effect>)
        ensures
            set_role(user_id, make_admin, views(fx@)),
    {
        let role = if make_admin {
            owned("admin")
        } else {
            owned("user")
        };
        let fx = one(
            Effect::Dispatch(Message::Admin(AdminMessage::AdminSetPlatformRole(user_id, role))),
        );
        assert(views(fx@) == role_dispatch(user_id, role));
        fx
    }

    fn toggle_admin_detail(&mut self, user_id: String) -> (fx: Vec<Effect>)
        ensures
            admin_step(
                *old(self),
                AdminMessage::ToggleAdminUserDetail(user_id),
                Now { tick_ms: 0, unix_ms: 0 },
                *final(self),
                views(fx@),
            ),
    {
        let shown = match &self.admin.user_detail {
            Some(d) => same(&d.user_id, &user_id),
            None => false,
        };
        if shown {
            self.admin.user_detail = None;
            return nothing();
        }
        self.ask1(
            CallKind::Query,
            "admin:adminUserDetail",
            "userId",
            Arg::Str(user_id),
            Reply::AdminUserDetailUpdated,
        )
    }

    fn admin_failed(&mut self, err: String) -> (fx: Vec<Effect>)
        ensures
            admin_is(
                *old(self),
                Admin { status: Some(err), ..old(self).admin },
                *final(self),
                views(fx@),
            ),
    {
        self.admin.status = Some(err);
        nothing()
    }

    fn reports_failed(&mut self, err: String) -> (fx: Vec<Effect>)
        ensures
            admin_is(
                *old(self),
                Admin { reports_status: Some(err), ..old(self).admin },
                *final(self),
                views(fx@),
            ),
    {
        self.admin.reports_status = Some(err);
        nothing()
    }

    /// Handles a message about administration.
    #[verifier::rlimit(40)]
    pub fn update_admin(&mut self, m: AdminMessage, now: Now) -> (fx: Vec<Effect>)
        ensures
            admin_step(*old(self), m, now, *final(self), views(fx@)),
    {
        match m {
            AdminMessage::AdminUsersUpdated(users) => {
                self.admin.users = users;
                nothing()
            },
            AdminMessage::AdminSearchInputChanged(value) => {
                self.admin.search_input = value;
                nothing()
            },
            AdminMessage::AdminSetRole(user_id, make_admin) => self.admin_set_role(
                user_id,
                make_admin,
            ),
            AdminMessage::AdminSetPlatformRole(user_id, role) => self.ask2(
                CallKind::Mutation,
                "admin:setRole",
                "userId",
                Arg::Str(user_id),
                "role",
                Arg::Str(role),
                Reply::AdminSetRoleFinished,
            ),
            AdminMessage::AdminSetRoleFinished(Ok(_)) => {
                self.show_toast("Role updated", now);
                nothing()
            },
            AdminMessage::AdminSetRoleFinished(Err(err)) => self.admin_failed(err),
            AdminMessage::AdminSetBanned(user_id, banned) => self.ask2(
                CallKind::Mutation,
                "admin:setBanned",
                "userId",
                Arg::Str(user_id),
                "banned",
                Arg::Bool(banned),
                Reply::AdminSetBannedFinished,
            ),
            AdminMessage::AdminSetBannedFinished(Ok(_)) => nothing(),
            AdminMessage::AdminSetBannedFinished(Err(err)) => self.admin_failed(err),
            AdminMessage::LoadAdminStats => self.ask0(
                CallKind::Query,
                "admin:adminStats",
                Reply::AdminStatsUpdated,
            ),
            AdminMessage::AdminStatsUpdated(Ok(stats)) => {
                self.admin.stats = Some(stats);
                nothing()
            },
            AdminMessage::AdminStatsUpdated(Err(err)) => self.admin_failed(err),
            AdminMessage::SetAdminFilter(filter) => {
                self.admin.filter = filter;
                nothing()
            },
            AdminMessage::ToggleAdminUserDetail(user_id) => self.toggle_admin_detail(user_id),
            AdminMessage::AdminUserDetailUpdated(detail) => {
                self.admin.user_detail = detail;
                nothing()
            },
            AdminMessage::AdminRevokeSessions(user_id) => self.ask1(
                CallKind::Mutation,
                "admin:adminRevokeSessions",
                "userId",
                Arg::Str(user_id),
                Reply::AdminRevokeSessionsFinished,
            ),
            AdminMessage::AdminRevokeSessionsFinished(Ok(_)) => {
                self.show_toast("Sessions revoked", now);
                nothing()
            },
            AdminMessage::AdminRevokeSessionsFinished(Err(err)) => self.admin_failed(err),
            AdminMessage::LoadAdminReports => self.ask0(
                CallKind::Query,
                "reports:adminListReports",
                Reply::AdminReportsUpdated,
            ),
            AdminMessage::AdminReportsUpdated(Ok(reports)) => {
                self.admin.reports = reports;
                self.admin.reports_status = None;
                nothing()
            },
            AdminMessage::AdminReportsUpdated(Err(err)) => self.reports_failed(err),
            AdminMessage::AdminResolveReport(report_id, status) => self.ask2(
                CallKind::Mutation,
                "reports:adminResolveReport",
                "reportId",
                Arg::Str(report_id),
                "status",
                Arg::Str(status),
                Reply::AdminResolveReportFinished,
            ),
            AdminMessage::AdminResolveReportFinished(Ok(_)) => one(
                Effect::Dispatch(Message::Admin(AdminMessage::LoadAdminReports)),
            ),
            AdminMessage::AdminResolveReportFinished(Err(err)) => self.reports_failed(err),
        }
    }
}

} // verus!
