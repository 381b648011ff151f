//! Connecting, signing in and out, and verifying the e-mail address.

use crate::primitives::hkdf_derived;
use crate::state::app::{
    fetches, make_call, mutation, plain_jobs, request, session_call, toasts, App, AuthForm, Chat,
    EmailForm, Link, Now, Peers,
};
use crate::state::effect::{
    arg, args_view, both, nothing, one, views, Arg, ArgView, Call, CallKind, CallView, Effect,
    EffectView, Reply,
};
use crate::state::history::{vault_info, vault_key_from_identity_private};
use crate::state::lifecycle::{load_identity, session_reset, shutdowns};
use crate::state::message::{AuthMessage, Identity};
use crate::state::types::{AuthMode, Session};
use crate::text::{
    ascii_alphanumeric, byte_len, cat2, cat3, chars_of, has_char, is_ascii_alphanumeric, lowercase,
    owned, strip_start, stripped_start, text_is, text_len, trim, trimmed, Strip,
};
use vstd::prelude::*;

verus! {

/// An address that is worth trying: not empty, with an `@` and a dot.
pub open spec fn plausible_email(s: Seq<char>) -> bool {
    s.len() > 0 && s.contains('@') && s.contains('.')
}

fn is_plausible_email(s: &str) -> (r: bool)
    ensures
        r == plausible_email(s@),
{
    !s.is_empty() && has_char(s, '@') && has_char(s, '.')
}

/// A character that a username may have.
pub open spec fn username_char(c: char) -> bool {
    ascii_alphanumeric(c) || c == '_' || c == '-'
}

/// Every character is one that a username may have.
pub open spec fn username_chars(s: Seq<char>) -> bool {
    forall|i: int| 0 <= i < s.len() ==> username_char(#[trigger] s[i])
}

fn has_username_chars(s: &str) -> (r: bool)
    ensures
        r == username_chars(s@),
{
    let v = chars_of(s);
    let mut i: usize = 0;
    while i < v.len()
        invariant
            i <= v@.len(),
            v@ == s@,
            forall|j: int| 0 <= j < i ==> username_char(#[trigger] s@[j]),
        decreases v@.len() - i,
    {
        let c = v[i];
        if !(is_ascii_alphanumeric(c) || c == '_' || c == '-') {
            assert(!username_char(s@[i as int]));
            return false;
        }
        i += 1;
    }
    true
}

/// The username that the form stands for.
pub open spec fn form_username(form: AuthForm) -> Seq<char> {
    lowercase(trimmed(form.username_input@))
}

/// Why the form is not sent, if it is not.
pub open spec fn auth_refusal(form: AuthForm) -> Option<Seq<char>> {
    let username = form_username(form);
    if username.len() == 0 || form.password_input@.len() == 0 {
        Some("Enter a username and password"@)
    } else if form.auth_mode == AuthMode::Login {
        None
    } else if byte_len(username) < 3 {
        Some("Username must be at least 3 characters"@)
    } else if !username_chars(username) {
        Some("Username can only use letters, numbers, _ and -"@)
    } else if byte_len(form.password_input@) < 6 {
        Some("Password must be at least 6 characters"@)
    } else if !plausible_email(trimmed(form.email_input@)) {
        Some("Enter a valid email address"@)
    } else {
        None
    }
}

/// The call that the form makes.
pub open spec fn auth_call(form: AuthForm) -> CallView {
    let username = form_username(form);
    let name = trimmed(form.display_name_input@);
    let base = seq![
        ("username"@, ArgView::Str(username)),
        ("password"@, ArgView::Str(form.password_input@)),
    ];
    match form.auth_mode {
        AuthMode::Login => CallView {
            kind: CallKind::Action,
            function: "auth:signIn"@,
            args: base,
            reply: Reply::AuthFinished,
        },
        AuthMode::Register => CallView {
            kind: CallKind::Action,
            function: "auth:signUp"@,
            args: base.push(
                (
                    "displayName"@,
                    ArgView::Str(
                        if name.len() == 0 {
                            username
                        } else {
                            name
                        },
                    ),
                ),
            ).push(("email"@, ArgView::Str(lowercase(trimmed(form.email_input@))))),
            reply: Reply::AuthFinished,
        },
    }
}

/// What submitting the form does.
pub open spec fn submit_step(pre: App, post: App, fx: Seq<EffectView>) -> bool {
    if !pre.link.connected {
        &&& post == (App { auth: AuthForm { auth_error: post.auth.auth_error, ..pre.auth }, ..pre })
        &&& text_is(
            post.auth.auth_error,
            "Still connecting… wait a second, or press Retry."@,
        )
        &&& fx.len() == 0
    } else if pre.auth.auth_busy {
        post == pre && fx.len() == 0
    } else {
        match auth_refusal(pre.auth) {
            Some(why) => {
                &&& post == (App {
                    auth: AuthForm { auth_error: post.auth.auth_error, ..pre.auth },
                    ..pre
                })
                &&& text_is(post.auth.auth_error, why)
                &&& fx.len() == 0
            },
            None => {
                &&& post == (App {
                    auth: AuthForm {
                        auth_busy: true,
                        auth_error: None,
                        username_input: post.auth.username_input,
                        ..pre.auth
                    },
                    ..pre
                })
                &&& post.auth.username_input@ == form_username(pre.auth)
                &&& fx == seq![EffectView::Call(auth_call(pre.auth))]
            },
        }
    }
}

/// The e-mail form of a fresh session.
pub open spec fn email_of(pre: EmailForm, s: Session) -> EmailForm {
    EmailForm { verify_input: s.email, code_sent: s.email@.len() > 0, ..pre }
}

/// The device is registered with the session, where we are connected.
pub open spec fn touch_session(app: App, s: Session) -> Seq<EffectView> {
    if app.link.connected {
        seq![
            EffectView::Call(
                session_call(
                    s.token@,
                    CallKind::Mutation,
                    "prefs:touchSession"@,
                    seq![
                        ("deviceName"@, ArgView::Str(app.config.device_name@)),
                        ("platform"@, ArgView::Str("desktop"@)),
                    ],
                    Reply::Ignored,
                ),
            ),
        ]
    } else {
        Seq::empty()
    }
}

/// A session begins: it is kept, saved and announced.
pub open spec fn signed_in(pre: App, s: Session, now: Now, post: App, fx: Seq<EffectView>) -> bool {
    &&& post == (App {
        auth: AuthForm {
            auth_busy: false,
            password_input: post.auth.password_input,
            email_input: post.auth.email_input,
            auth_error: None,
            ..pre.auth
        },
        email: email_of(pre.email, s),
        session: Some(s),
        toast: post.toast,
        ..pre
    })
    &&& post.auth.password_input@.len() == 0
    &&& post.auth.email_input@.len() == 0
    &&& toasts(post.toast, "Signed in"@, now)
    &&& fx == seq![EffectView::SaveSession(s)] + fetches(
        pre.images@,
        plain_jobs(seq![s.avatar_image_url@]),
    ) + load_identity(post) + touch_session(pre, s)
}

/// A saved session was confirmed.
pub open spec fn restored(pre: App, s: Session, post: App, fx: Seq<EffectView>) -> bool {
    &&& post == (App { email: email_of(pre.email, s), session: Some(s), ..pre })
    &&& fx == fetches(pre.images@, plain_jobs(seq![s.avatar_image_url@])) + load_identity(post)
}

/// What asking for a verification code does.
pub open spec fn request_code_step(pre: App, post: App, fx: Seq<EffectView>) -> bool {
    let email = lowercase(trimmed(pre.email.verify_input@));
    if pre.token() is None || pre.email.busy {
        post == pre && fx.len() == 0
    } else if !plausible_email(email) {
        &&& post == (App { email: EmailForm { error: post.email.error, ..pre.email }, ..pre })
        &&& text_is(post.email.error, "Enter a valid email address"@)
        &&& fx.len() == 0
    } else {
        &&& post == (App { email: EmailForm { busy: true, error: None, ..pre.email }, ..pre })
        &&& fx == request(
            pre,
            CallKind::Action,
            "email:requestEmailVerification"@,
            seq![("email"@, ArgView::Str(email))],
            Reply::RequestEmailVerificationFinished,
        )
    }
}

/// What submitting a verification code does.
pub open spec fn submit_code_step(pre: App, post: App, fx: Seq<EffectView>) -> bool {
    let code = trimmed(pre.email.code_input@);
    if pre.token() is None || pre.email.busy {
        post == pre && fx.len() == 0
    } else if code.len() == 0 {
        &&& post == (App { email: EmailForm { error: post.email.error, ..pre.email }, ..pre })
        &&& text_is(post.email.error, "Enter the code from your email"@)
        &&& fx.len() == 0
    } else {
        &&& post == (App { email: EmailForm { busy: true, error: None, ..pre.email }, ..pre })
        &&& fx == mutation(
            pre,
            "email:verifyEmailCode"@,
            seq![("code"@, ArgView::Str(code))],
            Reply::VerifyEmailCodeFinished,
        )
    }
}

/// The session with a verified address.
pub open spec fn with_verified_email(s: Option<Session>, email: String) -> Option<Session> {
    match s {
        Some(s) => Some(Session { email, email_verified: true, ..s }),
        None => None,
    }
}

/// The effects of signing out on this side.
pub open spec fn reset_effects(pre: App) -> Seq<EffectView> {
    shutdowns(pre.peers.channels.order()) + seq![EffectView::ResetCallMutes]
}

/// What a message about connecting and signing in does.
pub open spec fn auth_step(pre: App, m: AuthMessage, now: Now, post: App, fx: Seq<EffectView>) -> bool {
    match m {
        AuthMessage::Connected => {
            &&& post == (App {
                link: Link {
                    connected: true,
                    connect_status: post.link.connect_status,
                    pending_restore_token: None,
                },
                ..pre
            })
            &&& post.link.connect_status@ == "Connected to Convex"@
            &&& fx == match pre.link.pending_restore_token {
                Some(token) => seq![
                    EffectView::Call(
                        session_call(
                            token@,
                            CallKind::Query,
                            "auth:me"@,
                            seq![],
                            Reply::RestoreFinished { token },
                        ),
                    ),
                ],
                None => Seq::empty(),
            }
        },
        AuthMessage::ConnectFailed(err) => {
            &&& post == (App {
                link: Link { connect_status: post.link.connect_status, ..pre.link },
                auth: AuthForm { auth_error: post.auth.auth_error, ..pre.auth },
                ..pre
            })
            &&& post.link.connect_status@ == "Connection error: "@ + err@
            &&& text_is(
                post.auth.auth_error,
                "Can't reach the server. Check your network and try again.\n("@ + err@ + ")"@,
            )
            &&& fx.len() == 0
        },
        AuthMessage::RetryConnect => if pre.link.connected {
            &&& post == (App {
                link: Link { connect_status: post.link.connect_status, ..pre.link },
                ..pre
            })
            &&& post.link.connect_status@ == "Already connected"@
            &&& fx.len() == 0
        } else {
            &&& post == (App {
                link: Link { connect_status: post.link.connect_status, ..pre.link },
                auth: AuthForm { auth_error: None, ..pre.auth },
                ..pre
            })
            &&& post.link.connect_status@ == "Reconnecting…"@
            &&& fx == seq![EffectView::Connect { url: pre.config.deployment_url@ }]
        },
        AuthMessage::SwitchAuthMode(mode) => {
            &&& post == (App {
                auth: AuthForm { auth_mode: mode, auth_error: None, ..pre.auth },
                ..pre
            })
            &&& fx.len() == 0
        },
        AuthMessage::UsernameInputChanged(value) => {
            &&& post == (App {
                auth: AuthForm {
                    username_input: post.auth.username_input,
                    auth_error: None,
                    ..pre.auth
                },
                ..pre
            })
            &&& post.auth.username_input@ == stripped_start(value@, Strip::Space)
            &&& fx.len() == 0
        },
        AuthMessage::PasswordInputChanged(value) => {
            &&& post == (App {
                auth: AuthForm { password_input: value, auth_error: None, ..pre.auth },
                ..pre
            })
            &&& fx.len() == 0
        },
        AuthMessage::DisplayNameInputChanged(value) => {
            &&& post == (App { auth: AuthForm { display_name_input: value, ..pre.auth }, ..pre })
            &&& fx.len() == 0
        },
        AuthMessage::EmailInputChanged(value) => {
            &&& post == (App {
                auth: AuthForm { email_input: value, auth_error: None, ..pre.auth },
                ..pre
            })
            &&& fx.len() == 0
        },
        AuthMessage::SubmitAuth => submit_step(pre, post, fx),
        AuthMessage::AuthFinished(Ok(s)) => signed_in(pre, s, now, post, fx),
        AuthMessage::AuthFinished(Err(err)) => {
            &&& post == (App {
                auth: AuthForm { auth_busy: false, auth_error: Some(err), ..pre.auth },
                ..pre
            })
            &&& fx.len() == 0
        },
        AuthMessage::RestoreFinished(Ok(s)) => restored(pre, s, post, fx),
        AuthMessage::RestoreFinished(Err(_)) => post == pre && fx == seq![EffectView::ClearSession],
        AuthMessage::IdentityLoaded(Ok(identity)) => {
            &&& post == (App {
                peers: Peers {
                    public_key: Some(identity.public_key),
                    vault_key: post.peers.vault_key,
                    ..pre.peers
                },
                ..pre
            })
            &&& post.peers.vault_key is Some
            &&& post.peers.vault_key->0@ == hkdf_derived(identity.private_key@, vault_info())
            &&& fx == mutation(
                pre,
                "profile:setPublicKey"@,
                seq![("publicKey"@, ArgView::Str(identity.public_key@))],
                Reply::PublicKeyUploaded,
            )
        },
        AuthMessage::IdentityLoaded(Err(err)) => {
            &&& post == (App { chat: Chat { error: post.chat.error, ..pre.chat }, ..pre })
            &&& text_is(post.chat.error, "peerseal identity: "@ + err@)
            &&& fx.len() == 0
        },
        AuthMessage::PublicKeyUploaded => post == pre && fx.len() == 0,
        AuthMessage::EmailVerifyInputChanged(value) => {
            &&& post == (App {
                email: EmailForm { verify_input: value, error: None, ..pre.email },
                ..pre
            })
            &&& fx.len() == 0
        },
        AuthMessage::EmailVerifyCodeInputChanged(value) => {
            &&& post == (App {
                email: EmailForm { code_input: value, error: None, ..pre.email },
                ..pre
            })
            &&& fx.len() == 0
        },
        AuthMessage::RequestEmailVerification => request_code_step(pre, post, fx),
        AuthMessage::RequestEmailVerificationFinished(Ok(())) => {
            &&& post == (App {
                email: EmailForm { busy: false, code_sent: true, ..pre.email },
                toast: post.toast,
                ..pre
            })
            &&& toasts(post.toast, "Verification code sent"@, now)
            &&& fx.len() == 0
        },
        AuthMessage::RequestEmailVerificationFinished(Err(err)) => {
            &&& post == (App { email: EmailForm { busy: false, error: Some(err), ..pre.email }, ..pre })
            &&& fx.len() == 0
        },
        AuthMessage::SubmitEmailVerificationCode => submit_code_step(pre, post, fx),
        AuthMessage::VerifyEmailCodeFinished(Ok(())) => {
            &&& post == (App {
                email: EmailForm { busy: false, code_input: post.email.code_input, ..pre.email },
                session: with_verified_email(pre.session, pre.email.verify_input),
                toast: post.toast,
                ..pre
            })
            &&& post.email.code_input@.len() == 0
            &&& toasts(post.toast, "Email verified"@, now)
            &&& fx.len() == 0
        },
        AuthMessage::VerifyEmailCodeFinished(Err(err)) => {
            &&& post == (App { email: EmailForm { busy: false, error: Some(err), ..pre.email }, ..pre })
            &&& fx.len() == 0
        },
        AuthMessage::ChangeEmailVerifyAddress => {
            &&& post == (App {
                email: EmailForm {
                    code_sent: false,
                    code_input: post.email.code_input,
                    error: None,
                    ..pre.email
                },
                ..pre
            })
            &&& post.email.code_input@.len() == 0
            &&& fx.len() == 0
        },
        AuthMessage::LogOut => match pre.token() {
            Some(_) => {
                &&& post == pre
                &&& fx == seq![EffectView::ClearSession] + mutation(
                    pre,
                    "auth:signOut"@,
                    seq![],
                    Reply::LoggedOut,
                )
            },
            None => {
                &&& session_reset(pre, post)
                &&& fx == seq![EffectView::ClearSession] + reset_effects(pre)
            },
        },
        AuthMessage::LoggedOut => session_reset(pre, post) && fx == reset_effects(pre),
    }
}

impl App {
    fn refuse_auth(&mut self, why: &str) -> (fx: Vec<Effect>)
        ensures
            *final(self) == (App {
                auth: AuthForm { auth_error: final(self).auth.auth_error, ..old(self).auth },
                ..*old(self)
            }),
            text_is(final(self).auth.auth_error, why@),
            views(fx@).len() == 0,
    {
        self.auth.auth_error = Some(owned(why));
        nothing()
    }

    fn submit_auth(&mut self) -> (fx: Vec<Effect>)
        ensures
            submit_step(*old(self), *final(self), views(fx@)),
    {
        if !self.link.connected {
            return self.refuse_auth("Still connecting… wait a second, or press Retry.");
        }
        if self.auth.auth_busy {
            return nothing();
        }
        let username = trim(&self.auth.username_input).as_str().to_lowercase();
        if username.as_str().is_empty() || self.auth.password_input.as_str().is_empty() {
            return self.refuse_auth("Enter a username and password");
        }
        let register = match self.auth.auth_mode {
            AuthMode::Login => false,
            AuthMode::Register => true,
        };
        let email = trim(&self.auth.email_input);
        if register {
            if text_len(&username) < 3 {
                return self.refuse_auth("Username must be at least 3 characters");
            }
            if !has_username_chars(&username) {
                return self.refuse_auth("Username can only use letters, numbers, _ and -");
            }
            if text_len(&self.auth.password_input) < 6 {
                return self.refuse_auth("Password must be at least 6 characters");
            }
            if !is_plausible_email(&email) {
                return self.refuse_auth("Enter a valid email address");
            }
        }
        let mut args: Vec<(&'static str, Arg)> = Vec::new();
        args.push(("username", arg(&username)));
        args.push(("password", arg(&self.auth.password_input)));
        let function = if register {
            let name = trim(&self.auth.display_name_input);
            let shown = if name.as_str().is_empty() {
                username.clone()
            } else {
                name
            };
            args.push(("displayName", Arg::Str(shown)));
            args.push(("email", Arg::Str(email.as_str().to_lowercase())));
            "auth:signUp"
        } else {
            "auth:signIn"
        };
        assert(args_view(args@) =~= auth_call(old(self).auth).args);
        self.auth.auth_busy = true;
        self.auth.auth_error = None;
        self.auth.username_input = username;
        one(
            Effect::Call(
                Call { kind: CallKind::Action, function, args, reply: Reply::AuthFinished },
            ),
        )
    }

    fn touch_session(&self, token: String) -> (fx: Vec<Effect>)
        ensures
            forall|s: Session|
                s.token@ == token@ ==> views(fx@) == #[trigger] touch_session(*self, s),
    {
        if self.link.connected {
            let extra: Vec<(&'static str, Arg)> = vec![
                ("deviceName", arg(&self.config.device_name)),
                ("platform", Arg::Str(owned("desktop"))),
            ];
            assert(args_view(extra@) =~= seq![
                ("deviceName"@, ArgView::Str(self.config.device_name@)),
                ("platform"@, ArgView::Str("desktop"@)),
            ]);
            one(
                Effect::Call(
                    make_call(
                        token,
                        CallKind::Mutation,
                        "prefs:touchSession",
                        extra,
                        Reply::Ignored,
                    ),
                ),
            )
        } else {
            nothing()
        }
    }

    fn sign_in(&mut self, session: Session, now: Now) -> (fx: Vec<Effect>)
        ensures
            signed_in(*old(self), session, now, *final(self), views(fx@)),
    {
        let save = one(Effect::SaveSession(session.copy()));
        let touch = self.touch_session(session.token.clone());
        self.auth.auth_busy = false;
        self.auth.password_input = String::new();
        self.auth.email_input = String::new();
        self.auth.auth_error = None;
        let fetch = self.fetch_avatar(session.avatar_image_url.clone());
        self.email.verify_input = session.email.clone();
        self.email.code_sent = !session.email.as_str().is_empty();
        self.session = Some(session);
        self.show_toast("Signed in", now);
        let identity = self.ensure_identity_key();
        both(both(both(save, fetch), identity), touch)
    }

    fn restore(&mut self, session: Session) -> (fx: Vec<Effect>)
        ensures
            restored(*old(self), session, *final(self), views(fx@)),
    {
        let fetch = self.fetch_avatar(session.avatar_image_url.clone());
        self.email.verify_input = session.email.clone();
        self.email.code_sent = !session.email.as_str().is_empty();
        self.session = Some(session);
        both(fetch, self.ensure_identity_key())
    }

    fn request_code(&mut self) -> (fx: Vec<Effect>)
        ensures
            request_code_step(*old(self), *final(self), views(fx@)),
    {
        if self.online_token().is_none() || self.email.busy {
            return nothing();
        }
        let email = trim(&self.email.verify_input).as_str().to_lowercase();
        if !is_plausible_email(&email) {
            self.email.error = Some(owned("Enter a valid email address"));
            return nothing();
        }
        self.email.busy = true;
        self.email.error = None;
        self.ask1(
            CallKind::Action,
            "email:requestEmailVerification",
            "email",
            Arg::Str(email),
            Reply::RequestEmailVerificationFinished,
        )
    }

    fn submit_code(&mut self) -> (fx: Vec<Effect>)
        ensures
            submit_code_step(*old(self), *final(self), views(fx@)),
    {
        if self.online_token().is_none() || self.email.busy {
            return nothing();
        }
        let code = trim(&self.email.code_input);
        if code.as_str().is_empty() {
            self.email.error = Some(owned("Enter the code from your email"));
            return nothing();
        }
        self.email.busy = true;
        self.email.error = None;
        self.ask1(
            CallKind::Mutation,
            "email:verifyEmailCode",
            "code",
            Arg::Str(code),
            Reply::VerifyEmailCodeFinished,
        )
    }

    fn connect(&mut self) -> (fx: Vec<Effect>)
        ensures
            auth_step(
                *old(self),
                AuthMessage::Connected,
                Now { tick_ms: 0, unix_ms: 0 },
                *final(self),
                views(fx@),
            ),
    {
        self.link.connect_status = owned("Connected to Convex");
        self.link.connected = true;
        match self.link.pending_restore_token.take() {
            Some(token) => {
                let none: Vec<(&'static str, Arg)> = Vec::new();
                assert(args_view(none@) =~= seq![]);
                one(
                    Effect::Call(
                        make_call(
                            token.clone(),
                            CallKind::Query,
                            "auth:me",
                            none,
                            Reply::RestoreFinished { token },
                        ),
                    ),
                )
            },
            None => nothing(),
        }
    }

    fn identity_loaded(&mut self, identity: Identity) -> (fx: Vec<Effect>)
        ensures
            auth_step(
                *old(self),
                AuthMessage::IdentityLoaded(Ok(identity)),
                Now { tick_ms: 0, unix_ms: 0 },
                *final(self),
                views(fx@),
            ),
    {
        let key = vault_key_from_identity_private(&identity.private_key);
        let fx = self.ask1(
            CallKind::Mutation,
            "profile:setPublicKey",
            "publicKey",
            arg(&identity.public_key),
            Reply::PublicKeyUploaded,
        );
        self.peers.public_key = Some(identity.public_key);
        self.peers.vault_key = Some(key);
        fx
    }

    fn email_verified(&mut self, now: Now) -> (fx: Vec<Effect>)
        ensures
            auth_step(
                *old(self),
                AuthMessage::VerifyEmailCodeFinished(Ok(())),
                now,
                *final(self),
                views(fx@),
            ),
    {
        self.email.busy = false;
        self.email.code_input = String::new();
        match self.session.take() {
            Some(s) => {
                let mut s = s;
                s.email = self.email.verify_input.clone();
                s.email_verified = true;
                self.session = Some(s);
            },
            None => {},
        }
        self.show_toast("Email verified", now);
        nothing()
    }

    fn log_out(&mut self) -> (fx: Vec<Effect>)
        ensures
            auth_step(
                *old(self),
                AuthMessage::LogOut,
                Now { tick_ms: 0, unix_ms: 0 },
                *final(self),
                views(fx@),
            ),
    {
        let clear = one(Effect::ClearSession);
        if self.online_token().is_some() {
            both(clear, self.ask0(CallKind::Mutation, "auth:signOut", Reply::LoggedOut))
        } else {
            both(clear, self.reset_session())
        }
    }

    /// Handles a message about connecting and signing in.
    pub fn update_auth(&mut self, m: AuthMessage, now: Now) -> (fx: Vec<Effect>)
        ensures
            auth_step(*old(self), m, now, *final(self), views(fx@)),
    {
        match m {
            AuthMessage::Connected => self.connect(),
            AuthMessage::ConnectFailed(err) => {
                self.link.connect_status = cat2("Connection error: ", &err);
                self.auth.auth_error = Some(
                    cat3(
                        "Can't reach the server. Check your network and try again.\n(",
                        &err,
                        ")",
                    ),
                );
                nothing()
            },
            AuthMessage::RetryConnect => {
                if self.link.connected {
                    self.link.connect_status = owned("Already connected");
                    nothing()
                } else {
                    self.link.connect_status = owned("Reconnecting…");
                    self.auth.auth_error = None;
                    one(Effect::Connect { url: self.config.deployment_url.clone() })
                }
            },
            AuthMessage::SwitchAuthMode(mode) => {
                self.auth.auth_mode = mode;
                self.auth.auth_error = None;
                nothing()
            },
            AuthMessage::UsernameInputChanged(value) => {
                self.auth.username_input = strip_start(&value, Strip::Space);
                self.auth.auth_error = None;
                nothing()
            },
            AuthMessage::PasswordInputChanged(value) => {
                self.auth.password_input = value;
                self.auth.auth_error = None;
                nothing()
            },
            AuthMessage::DisplayNameInputChanged(value) => {
                self.auth.display_name_input = value;
                nothing()
            },
            AuthMessage::EmailInputChanged(value) => {
                self.auth.email_input = value;
                self.auth.auth_error = None;
                nothing()
            },
            AuthMessage::SubmitAuth => self.submit_auth(),
            AuthMessage::AuthFinished(Ok(s)) => self.sign_in(s, now),
            AuthMessage::AuthFinished(Err(err)) => {
                self.auth.auth_busy = false;
                self.auth.auth_error = Some(err);
                nothing()
            },
            AuthMessage::RestoreFinished(Ok(s)) => self.restore(s),
            AuthMessage::RestoreFinished(Err(_)) => one(Effect::ClearSession),
            AuthMessage::IdentityLoaded(Ok(identity)) => self.identity_loaded(identity),
            AuthMessage::IdentityLoaded(Err(err)) => {
                self.chat.error = Some(cat2("peerseal identity: ", &err));
                nothing()
            },
            AuthMessage::PublicKeyUploaded => nothing(),
            AuthMessage::EmailVerifyInputChanged(value) => {
                self.email.verify_input = value;
                self.email.error = None;
                nothing()
            },
            AuthMessage::EmailVerifyCodeInputChanged(value) => {
                self.email.code_input = value;
                self.email.error = None;
                nothing()
            },
            AuthMessage::RequestEmailVerification => self.request_code(),
            AuthMessage::RequestEmailVerificationFinished(Ok(_)) => {
                self.email.busy = false;
                self.email.code_sent = true;
                self.show_toast("Verification code sent", now);
                nothing()
            },
            AuthMessage::RequestEmailVerificationFinished(Err(err)) => {
                self.email.busy = false;
                self.email.error = Some(err);
                nothing()
            },
            AuthMessage::SubmitEmailVerificationCode => self.submit_code(),
            AuthMessage::VerifyEmailCodeFinished(Ok(_)) => self.email_verified(now),
            AuthMessage::VerifyEmailCodeFinished(Err(err)) => {
                self.email.busy = false;
                self.email.error = Some(err);
                nothing()
            },
            AuthMessage::ChangeEmailVerifyAddress => {
                self.email.code_sent = false;
                self.email.code_input = String::new();
                self.email.error = None;
                nothing()
            },
            AuthMessage::LogOut => self.log_out(),
            AuthMessage::LoggedOut => self.reset_session(),
        }
    }
}

} // verus!
