//! Connecting, signing in and out, and the e-mail address.

use crate::laws::asked::{asks, changes, lemma_request, offline, online, text};
use crate::state::app::{App, Now};
use crate::state::auth::reset_effects;
use crate::state::effect::{CallKind, EffectView, PeerCmdView, Reply};
use crate::state::message::{AuthMessage, Message};
use crate::state::types::Session;
use crate::state::update::step;
use crate::text::{byte_len, lowercase, text_is, trimmed};
use vstd::prelude::*;

verus! {

/// The user name that was entered, as accounts have it.
pub open spec fn entered_name(app: App) -> Seq<char> {
    lowercase(trimmed(app.auth.username_input@))
}

/// Letters, digits, `_` and `-` of the ASCII range.
pub open spec fn plain(c: char) -> bool {
    'a' <= c <= 'z' || 'A' <= c <= 'Z' || '0' <= c <= '9' || c == '_' || c == '-'
}

/// The form can be sent: a name and a password, and for a new account a name
/// of three plain characters or more, a password of six or more, and an
/// address that looks like one.
pub open spec fn complete_form(app: App) -> bool {
    let name = entered_name(app);
    let address = trimmed(app.auth.email_input@);
    &&& name.len() > 0
    &&& app.auth.password_input@.len() > 0
    &&& app.auth.auth_mode is Register ==> {
        &&& byte_len(name) >= 3
        &&& forall|i: int| 0 <= i < name.len() ==> plain(#[trigger] name[i])
        &&& byte_len(app.auth.password_input@) >= 6
        &&& address.len() > 0
        &&& address.contains('@')
        &&& address.contains('.')
    }
}

/// Signing in sends the name and the password that were entered and nothing
/// else; a new account also its shown name, which is the user name where none
/// was entered, and the address. An incomplete form, a missing connection or a
/// call on its way send nothing.
pub proof fn the_form_is_sent_as_entered(pre: App, now: Now, post: App, fx: Seq<EffectView>)
    requires
        step(pre, Message::Auth(AuthMessage::SubmitAuth), now, post, fx),
    ensures
        !pre.link.connected || pre.auth.auth_busy || !complete_form(pre) ==> fx.len() == 0
            && post.auth.auth_busy == pre.auth.auth_busy,
        !pre.link.connected || (!pre.auth.auth_busy && !complete_form(pre))
            ==> post.auth.auth_error is Some,
        pre.link.connected && !pre.auth.auth_busy && complete_form(pre) ==> {
            let name = text("username"@, entered_name(pre));
            let password = text("password"@, pre.auth.password_input@);
            let shown = trimmed(pre.auth.display_name_input@);
            &&& post.auth.auth_busy
            &&& post.auth.auth_error is None
            &&& fx.len() == 1
            &&& fx[0] is Call
            &&& fx[0]->Call_0.kind == CallKind::Action
            &&& fx[0]->Call_0.reply == Reply::AuthFinished
            &&& fx[0]->Call_0.args.contains(name)
            &&& fx[0]->Call_0.args.contains(password)
            &&& pre.auth.auth_mode is Login ==> fx[0]->Call_0.function == "auth:signIn"@
                && fx[0]->Call_0.args.len() == 2
            &&& pre.auth.auth_mode is Register ==> {
                &&& fx[0]->Call_0.function == "auth:signUp"@
                &&& fx[0]->Call_0.args.len() == 4
                &&& fx[0]->Call_0.args.contains(
                    text("email"@, lowercase(trimmed(pre.auth.email_input@))),
                )
                &&& shown.len() > 0 ==> fx[0]->Call_0.args.contains(text("displayName"@, shown))
                &&& shown.len() == 0 ==> fx[0]->Call_0.args.contains(
                    text("displayName"@, entered_name(pre)),
                )
            }
        },
        pre.link.connected && !pre.auth.auth_busy && (entered_name(pre).len() == 0
            || pre.auth.password_input@.len() == 0) ==> text_is(
            post.auth.auth_error,
            "Enter a username and password"@,
        ),
        pre.link.connected && !pre.auth.auth_busy && pre.auth.auth_mode is Register
            && entered_name(pre).len() > 0 && pre.auth.password_input@.len() > 0 && byte_len(
            entered_name(pre),
        ) < 3 ==> text_is(post.auth.auth_error, "Username must be at least 3 characters"@),
        post.session == pre.session,
{
    let name = entered_name(pre);
    if crate::state::auth::username_chars(name) {
        assert forall|i: int| 0 <= i < name.len() implies plain(#[trigger] name[i]) by {
            assert(crate::state::auth::username_char(name[i]));
        }
    }
    if forall|i: int| 0 <= i < name.len() ==> plain(#[trigger] name[i]) {
        assert forall|i: int| 0 <= i < name.len() implies crate::state::auth::username_char(
            #[trigger] name[i],
        ) by {
            assert(plain(name[i]));
        }
    }
    if pre.link.connected && !pre.auth.auth_busy && complete_form(pre) {
        let args = fx[0]->Call_0.args;
        assert(args[0] == text("username"@, name));
        assert(args[1] == text("password"@, pre.auth.password_input@));
        if pre.auth.auth_mode is Register {
            assert(args[2].0 == "displayName"@);
            assert(args[3] == text("email"@, lowercase(trimmed(pre.auth.email_input@))));
        }
    }
}

/// A session begins with what the server gave: it is kept and saved, the
/// password leaves the form, and this device is reported. A refusal is shown
/// and leaves the form.
pub proof fn sessions_begin(
    pre: App,
    r: Result<Session, String>,
    now: Now,
    post: App,
    fx: Seq<EffectView>,
)
    requires
        step(pre, Message::Auth(AuthMessage::AuthFinished(r)), now, post, fx),
    ensures
        !post.auth.auth_busy,
        r is Ok ==> {
            &&& post.session == Some(r->Ok_0)
            &&& fx.contains(EffectView::SaveSession(r->Ok_0))
            &&& post.auth.password_input@.len() == 0
            &&& post.auth.email_input@.len() == 0
            &&& post.auth.auth_error is None
            &&& post.email.verify_input == r->Ok_0.email
            &&& pre.link.connected ==> fx.contains(
                EffectView::LoadIdentity { user_id: r->Ok_0.user_id@ },
            ) && asks(
                seq![fx.last()],
                r->Ok_0.token@,
                CallKind::Mutation,
                "prefs:touchSession"@,
                seq![
                    text("deviceName"@, pre.config.device_name@),
                    text("platform"@, "desktop"@),
                ],
                Reply::Ignored,
            )
        },
        r is Err ==> post.session == pre.session && post.auth.auth_error == Some(r->Err_0)
            && post.auth.password_input == pre.auth.password_input && fx.len() == 0,
{
    if r is Ok {
        assert(fx[0] == EffectView::SaveSession(r->Ok_0));
        if pre.link.connected {
            assert(fx[fx.len() - 2] == EffectView::LoadIdentity { user_id: r->Ok_0.user_id@ });
            let call = fx.last()->Call_0;
            let args = seq![
                text("deviceName"@, pre.config.device_name@),
                text("platform"@, "desktop"@),
            ];
            assert(call.args[0] == text("sessionToken"@, r->Ok_0.token@));
            assert(call.args[1] == args[0]);
            assert(call.args[2] == args[1]);
            assert forall|i: int| 0 <= i < args.len() implies call.args.contains(
                #[trigger] args[i],
            ) by {
                assert(call.args[i + 1] == args[i]);
            }
        }
    }
}

/// A saved session is confirmed with its own token once we are connected; it
/// is back where the server confirms it, and forgotten where not.
pub proof fn saved_sessions_come_back(
    pre: App,
    m: AuthMessage,
    now: Now,
    post: App,
    fx: Seq<EffectView>,
)
    requires
        step(pre, Message::Auth(m), now, post, fx),
    ensures
        m is Connected ==> post.link.connected && post.link.pending_restore_token is None
            && post.session == pre.session,
        m is Connected && pre.link.pending_restore_token is None ==> fx.len() == 0,
        m is Connected && pre.link.pending_restore_token is Some ==> asks(
            fx,
            pre.link.pending_restore_token->0@,
            CallKind::Query,
            "auth:me"@,
            seq![],
            Reply::RestoreFinished { token: pre.link.pending_restore_token->0 },
        ),
        m is RestoreFinished && m->RestoreFinished_0 is Ok ==> post.session == Some(
            m->RestoreFinished_0->Ok_0,
        ) && !fx.contains(EffectView::ClearSession),
        m is RestoreFinished && m->RestoreFinished_0 is Err ==> post.session == pre.session && fx
            == seq![EffectView::ClearSession],
        m is ConnectFailed ==> post.link.connected == pre.link.connected
            && post.auth.auth_error is Some && fx.len() == 0,
        m is RetryConnect && !pre.link.connected ==> fx == seq![
            EffectView::Connect { url: pre.config.deployment_url@ },
        ],
        m is RetryConnect && pre.link.connected ==> fx.len() == 0,
{
    if m is Connected && pre.link.pending_restore_token is Some {
        let call = fx[0]->Call_0;
        assert(call.args[0] == text("sessionToken"@, pre.link.pending_restore_token->0@));
    }
    if m is RestoreFinished && m->RestoreFinished_0 is Ok {
        let jobs = crate::state::app::plain_jobs(
            seq![m->RestoreFinished_0->Ok_0.avatar_image_url@],
        );
        lemma_fetches_only(pre.images@, jobs);
        let a = crate::state::app::fetches(pre.images@, jobs);
        assert forall|i: int| 0 <= i < fx.len() implies fx[i] != EffectView::ClearSession by {
            if i < a.len() {
                assert(fx[i] == a[i]);
            }
        }
    }
}

proof fn lemma_fetches_only(
    images: Map<Seq<char>, Vec<u8>>,
    jobs: Seq<crate::state::app::ImageJobView>,
)
    ensures
        forall|i: int|
            0 <= i < crate::state::app::fetches(images, jobs).len() ==> (
            #[trigger] crate::state::app::fetches(images, jobs)[i]) is FetchImage,
    decreases jobs.len(),
{
    if jobs.len() > 0 {
        lemma_fetches_only(images, jobs.drop_last());
    }
}

/// Signing out forgets the saved session and tells the server where it can be
/// told; then, or at once where it cannot, we are signed out and every live
/// channel is told to end.
pub proof fn signing_out_ends_everything(
    pre: App,
    m: AuthMessage,
    now: Now,
    post: App,
    fx: Seq<EffectView>,
    token: Seq<char>,
    friend: Seq<char>,
)
    requires
        step(pre, Message::Auth(m), now, post, fx),
        m is LogOut || m is LoggedOut,
    ensures
        m is LogOut ==> fx.len() > 0 && fx[0] == EffectView::ClearSession,
        m is LogOut && online(pre, token) ==> post == pre && asks(
            fx.skip(1),
            token,
            CallKind::Mutation,
            "auth:signOut"@,
            seq![],
            Reply::LoggedOut,
        ),
        m is LoggedOut || offline(pre) ==> {
            &&& post.session is None
            &&& post.group_keys is None
            &&& post.place.conversation is None
            &&& post.chat.messages@.len() == 0
            &&& !post.peers.channels@.contains_key(friend)
            &&& !post.peers.live@.contains_key(friend)
            &&& post.peers.vault_key is None
            &&& pre.peers.channels@.contains_key(friend) ==> fx.contains(
                EffectView::SendPeerCmd { peer_id: friend, cmd: PeerCmdView::Shutdown },
            )
        },
{
    broadcast use lemma_request;

    if m is LogOut && online(pre, token) {
        let out = crate::state::app::mutation(pre, "auth:signOut"@, seq![], Reply::LoggedOut);
        assert(fx.skip(1) =~= out);
    }
    if m is LoggedOut || offline(pre) {
        pre.peers.channels.order_lists_keys();
        if pre.peers.channels@.contains_key(friend) {
            let order = pre.peers.channels.order();
            assert(order.contains(friend));
            let i = choose|i: int| 0 <= i < order.len() && order[i] == friend;
            let e = EffectView::SendPeerCmd { peer_id: friend, cmd: PeerCmdView::Shutdown };
            assert(reset_effects(pre)[i] == e);
            if m is LogOut {
                assert(fx[i + 1] == e);
            } else {
                assert(fx[i] == e);
            }
        }
    }
}

/// The e-mail address: a code is asked for the address that was entered, and
/// what was entered as the code is what is checked; the address counts as
/// verified only once the server says so.
pub proof fn addresses_are_verified(
    pre: App,
    m: AuthMessage,
    now: Now,
    post: App,
    fx: Seq<EffectView>,
    token: Seq<char>,
)
    requires
        step(pre, Message::Auth(m), now, post, fx),
        online(pre, token),
    ensures
        m is RequestEmailVerification ==> {
            let address = lowercase(trimmed(pre.email.verify_input@));
            let looks_right = address.len() > 0 && address.contains('@') && address.contains('.');
            &&& !pre.email.busy && looks_right ==> post.email.busy && asks(
                fx,
                token,
                CallKind::Action,
                "email:requestEmailVerification"@,
                seq![text("email"@, address)],
                Reply::RequestEmailVerificationFinished,
            )
            &&& pre.email.busy || !looks_right ==> fx.len() == 0
            &&& post.session == pre.session
        },
        m is SubmitEmailVerificationCode ==> {
            let code = trimmed(pre.email.code_input@);
            &&& !pre.email.busy && code.len() > 0 ==> post.email.busy && changes(
                fx,
                token,
                "email:verifyEmailCode"@,
                seq![text("code"@, code)],
                Reply::VerifyEmailCodeFinished,
            )
            &&& pre.email.busy || code.len() == 0 ==> fx.len() == 0
            &&& post.session == pre.session
        },
        m is RequestEmailVerificationFinished && m->RequestEmailVerificationFinished_0 is Ok
            ==> post.email.code_sent && !post.email.busy && post.session == pre.session,
        m is RequestEmailVerificationFinished && m->RequestEmailVerificationFinished_0 is Err
            ==> post.email.code_sent == pre.email.code_sent && !post.email.busy && post.email.error
            == Some(m->RequestEmailVerificationFinished_0->Err_0),
        m is VerifyEmailCodeFinished && m->VerifyEmailCodeFinished_0 is Ok ==> post.session is Some
            && post.session->0.email_verified && post.session->0.email == pre.email.verify_input
            && post.session->0.token == pre.session->0.token && !post.email.busy,
        m is VerifyEmailCodeFinished && m->VerifyEmailCodeFinished_0 is Err ==> post.session
            == pre.session && !post.email.busy && post.email.error == Some(
            m->VerifyEmailCodeFinished_0->Err_0,
        ),
        m is ChangeEmailVerifyAddress ==> !post.email.code_sent && post.email.code_input@.len() == 0
            && post.session == pre.session && fx.len() == 0,
{
    broadcast use lemma_request;

}

/// The forms take over what is typed, and the error of before is gone.
pub proof fn sign_in_forms(
    pre: App,
    m: AuthMessage,
    now: Now,
    post: App,
    fx: Seq<EffectView>,
    token: Seq<char>,
)
    requires
        step(pre, Message::Auth(m), now, post, fx),
    ensures
        m is SwitchAuthMode ==> post.auth.auth_mode == m->SwitchAuthMode_0
            && post.auth.auth_error is None && fx.len() == 0,
        m is PasswordInputChanged ==> post.auth.password_input == m->PasswordInputChanged_0
            && post.auth.username_input == pre.auth.username_input && fx.len() == 0,
        m is DisplayNameInputChanged ==> post.auth.display_name_input == m->DisplayNameInputChanged_0
            && fx.len() == 0,
        m is EmailInputChanged ==> post.auth.email_input == m->EmailInputChanged_0 && fx.len() == 0,
        m is EmailVerifyInputChanged ==> post.email.verify_input == m->EmailVerifyInputChanged_0
            && fx.len() == 0,
        m is EmailVerifyCodeInputChanged ==> post.email.code_input == m->EmailVerifyCodeInputChanged_0
            && fx.len() == 0,
        m is IdentityLoaded && m->IdentityLoaded_0 is Ok ==> post.peers.public_key == Some(
            m->IdentityLoaded_0->Ok_0.public_key,
        ) && post.peers.vault_key is Some,
        m is IdentityLoaded && m->IdentityLoaded_0 is Ok && online(pre, token) ==> changes(
            fx,
            token,
            "profile:setPublicKey"@,
            seq![text("publicKey"@, m->IdentityLoaded_0->Ok_0.public_key@)],
            Reply::PublicKeyUploaded,
        ),
        m is IdentityLoaded && m->IdentityLoaded_0 is Err ==> post.peers == pre.peers && fx.len()
            == 0 && post.chat.error is Some,
{
    broadcast use lemma_request;

}

} // verus!
