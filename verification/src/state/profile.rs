//! Profile cards, the settings screen and our own picture.

use crate::state::app::{
    fetches, make_call, mutation, plain_jobs, query, request, session_call, toasts, App, Audio,
    Bots, Now, ProfilePane, Settings,
};
use crate::state::effect::{
    args_view, nothing, one, views, Arg, ArgView, CallKind, Effect, EffectView,
    PickPurpose, Reply, Upload,
};
use crate::state::message::{BotMessage, Message, ProfileMessage};
use crate::state::types::{ImagePick, ProfileView, Session, SettingsCategory};
use crate::text::{byte_len, owned, same, text_is, text_len, trim, trimmed};
use vstd::prelude::*;

verus! {

/// The shortest password, in bytes.
pub const MIN_PASSWORD: usize = 6;

// ---------- Small pieces ----------

/// Only the settings screen changed, to `settings`.
pub open spec fn settings_are(pre: App, settings: Settings, post: App, fx: Seq<EffectView>) -> bool {
    post == (App { settings, ..pre }) && fx.len() == 0
}

/// Only the status line of the profile page changed, and it shows `text`.
pub open spec fn profile_says(pre: App, text: Seq<char>, post: App) -> bool {
    &&& post == (App {
        settings: Settings { profile_status: post.settings.profile_status, ..pre.settings },
        ..pre
    })
    &&& text_is(post.settings.profile_status, text)
}

/// Only the status line of the password page changed, and it shows `text`.
pub open spec fn password_says(pre: App, text: Seq<char>, post: App) -> bool {
    &&& post == (App {
        settings: Settings { password_status: post.settings.password_status, ..pre.settings },
        ..pre
    })
    &&& text_is(post.settings.password_status, text)
}

/// No password is entered.
pub open spec fn passwords_cleared(s: Settings) -> bool {
    &&& s.current_password_input@.len() == 0
    &&& s.new_password_input@.len() == 0
    &&& s.confirm_password_input@.len() == 0
}

impl App {
    fn profile_say(&mut self, text: &str)
        ensures
            profile_says(*old(self), text@, *final(self)),
    {
        self.settings.profile_status = Some(owned(text));
    }

    fn password_say(&mut self, text: &str)
        ensures
            password_says(*old(self), text@, *final(self)),
    {
        self.settings.password_status = Some(owned(text));
    }
}

// ---------- Profile cards ----------

/// A profile card is asked for.
pub open spec fn open_profile_step(pre: App, user_id: Seq<char>, post: App, fx: Seq<EffectView>) -> bool {
    &&& post == if pre.token() is Some {
        App {
            profile: ProfilePane { viewing: None, error: None },
            settings: Settings { open: false, ..pre.settings },
            ..pre
        }
    } else {
        pre
    }
    &&& fx == query(
        pre,
        "profile:getProfile"@,
        seq![("userId"@, ArgView::Str(user_id))],
        Reply::ProfileLoaded,
    )
}

impl App {
    fn open_profile(&mut self, user_id: String) -> (fx: Vec<Effect>)
        ensures
            open_profile_step(*old(self), user_id@, *final(self), views(fx@)),
    {
        let fx = self.ask1(
            CallKind::Query,
            "profile:getProfile",
            "userId",
            Arg::Str(user_id),
            Reply::ProfileLoaded,
        );
        if self.online_token().is_some() {
            self.profile.viewing = None;
            self.profile.error = None;
            self.settings.open = false;
        }
        fx
    }

    fn profile_loaded(&mut self, profile: ProfileView) -> (fx: Vec<Effect>)
        ensures
            *final(self) == (App {
                profile: ProfilePane { viewing: Some(profile), ..old(self).profile },
                ..*old(self)
            }),
            views(fx@) == fetches(
                old(self).images@,
                plain_jobs(seq![profile.avatar_image_url@]),
            ),
    {
        let fx = self.fetch_avatar(profile.avatar_image_url.clone());
        self.profile.viewing = Some(profile);
        fx
    }
}

// ---------- The settings screen ----------

/// The settings screen opens with what the session says.
pub open spec fn settings_opened(
    pre: App,
    inputs: Vec<String>,
    outputs: Vec<String>,
    post: App,
    fx: Seq<EffectView>,
) -> bool {
    &&& post == (App {
        profile: ProfilePane { viewing: None, ..pre.profile },
        settings: post.settings,
        audio: Audio { input_devices: inputs, output_devices: outputs, ..pre.audio },
        bots: Bots { status: None, ..pre.bots },
        ..pre
    })
    &&& post.settings == (Settings {
        open: true,
        category: SettingsCategory::Account,
        profile_status: None,
        password_status: None,
        current_password_input: post.settings.current_password_input,
        new_password_input: post.settings.new_password_input,
        confirm_password_input: post.settings.confirm_password_input,
        ..match pre.session {
            Some(s) => Settings {
                display_name_input: s.display_name,
                status_input: s.status_message,
                bio_input: s.bio,
                avatar_color: if s.avatar_color@.len() == 0 {
                    pre.config.default_avatar_color
                } else {
                    s.avatar_color
                },
                ..pre.settings
            },
            None => pre.settings,
        }
    })
    &&& passwords_cleared(post.settings)
    &&& fx == seq![EffectView::Dispatch(Message::Bot(BotMessage::RefreshMyBots))]
}

/// What the "save profile" button does.
pub open spec fn save_profile_step(pre: App, post: App, fx: Seq<EffectView>) -> bool {
    let name = trimmed(pre.settings.display_name_input@);
    if pre.token() is None {
        post == pre && fx.len() == 0
    } else if name.len() == 0 {
        profile_says(pre, "Display name can't be empty"@, post) && fx.len() == 0
    } else {
        &&& post == pre
        &&& fx == mutation(
            pre,
            "profile:updateProfile"@,
            seq![
                ("displayName"@, ArgView::Str(name)),
                ("statusMessage"@, ArgView::Str(trimmed(pre.settings.status_input@))),
                ("bio"@, ArgView::Str(trimmed(pre.settings.bio_input@))),
                ("avatarColor"@, ArgView::Str(pre.settings.avatar_color@)),
            ],
            Reply::ProfileSaveFinished,
        )
    }
}

/// The profile is saved: the session shows it.
pub open spec fn profile_saved(pre: App, post: App) -> bool {
    &&& profile_says(App { session: post.session, ..pre }, "Profile saved"@, post)
    &&& match pre.session {
        Some(s) => {
            &&& post.session is Some
            &&& post.session->0 == (Session {
                display_name: post.session->0.display_name,
                status_message: post.session->0.status_message,
                bio: post.session->0.bio,
                avatar_color: pre.settings.avatar_color,
                ..s
            })
            &&& post.session->0.display_name@ == trimmed(pre.settings.display_name_input@)
            &&& post.session->0.status_message@ == trimmed(pre.settings.status_input@)
            &&& post.session->0.bio@ == trimmed(pre.settings.bio_input@)
        },
        None => post.session is None,
    }
}

/// Why the password cannot be changed as entered, if so.
pub open spec fn password_problem(s: Settings) -> Option<Seq<char>> {
    if s.current_password_input@.len() == 0 {
        Some("Enter your current password"@)
    } else if byte_len(s.new_password_input@) < MIN_PASSWORD {
        Some("New password must be at least 6 characters"@)
    } else if s.new_password_input@ != s.confirm_password_input@ {
        Some("Passwords don't match"@)
    } else if s.new_password_input@ == s.current_password_input@ {
        Some("New password must be different from the current one"@)
    } else {
        None
    }
}

/// What the "change password" button does.
pub open spec fn change_password_step(pre: App, post: App, fx: Seq<EffectView>) -> bool {
    if pre.token() is None {
        post == pre && fx.len() == 0
    } else {
        match password_problem(pre.settings) {
            Some(text) => password_says(pre, text, post) && fx.len() == 0,
            None => {
                &&& password_says(pre, "Changing password…"@, post)
                &&& fx == request(
                    pre,
                    CallKind::Action,
                    "auth:changePassword"@,
                    seq![
                        ("currentPassword"@, ArgView::Str(pre.settings.current_password_input@)),
                        ("newPassword"@, ArgView::Str(pre.settings.new_password_input@)),
                    ],
                    Reply::PasswordChangeFinished,
                )
            },
        }
    }
}

impl App {
    fn open_settings(&mut self, inputs: Vec<String>, outputs: Vec<String>) -> (fx: Vec<Effect>)
        ensures
            settings_opened(*old(self), inputs, outputs, *final(self), views(fx@)),
    {
        self.profile.viewing = None;
        match &self.session {
            Some(s) => {
                self.settings.display_name_input = s.display_name.clone();
                self.settings.status_input = s.status_message.clone();
                self.settings.bio_input = s.bio.clone();
                self.settings.avatar_color = if s.avatar_color.as_str().is_empty() {
                    self.config.default_avatar_color.clone()
                } else {
                    s.avatar_color.clone()
                };
            },
            None => {},
        }
        self.settings.profile_status = None;
        self.settings.password_status = None;
        self.settings.current_password_input = String::new();
        self.settings.new_password_input = String::new();
        self.settings.confirm_password_input = String::new();
        self.audio.input_devices = inputs;
        self.audio.output_devices = outputs;
        self.settings.open = true;
        self.settings.category = SettingsCategory::Account;
        self.bots.status = None;
        one(Effect::Dispatch(Message::Bot(BotMessage::RefreshMyBots)))
    }

    fn save_profile(&mut self) -> (fx: Vec<Effect>)
        ensures
            save_profile_step(*old(self), *final(self), views(fx@)),
    {
        if self.online_token().is_none() {
            return nothing();
        }
        let name = trim(&self.settings.display_name_input);
        if name.as_str().is_empty() {
            self.profile_say("Display name can't be empty");
            return nothing();
        }
        let extra = vec![
            ("displayName", Arg::Str(name)),
            ("statusMessage", Arg::Str(trim(&self.settings.status_input))),
            ("bio", Arg::Str(trim(&self.settings.bio_input))),
            ("avatarColor", Arg::Str(self.settings.avatar_color.clone())),
        ];
        assert(args_view(extra@) =~= seq![
            ("displayName"@, ArgView::Str(name@)),
            ("statusMessage"@, ArgView::Str(trimmed(self.settings.status_input@))),
            ("bio"@, ArgView::Str(trimmed(self.settings.bio_input@))),
            ("avatarColor"@, ArgView::Str(self.settings.avatar_color@)),
        ]);
        self.ask(CallKind::Mutation, "profile:updateProfile", extra, Reply::ProfileSaveFinished)
    }

    fn profile_was_saved(&mut self)
        ensures
            profile_saved(*old(self), *final(self)),
    {
        match self.session.take() {
            Some(s) => {
                let mut s = s;
                s.display_name = trim(&self.settings.display_name_input);
                s.status_message = trim(&self.settings.status_input);
                s.bio = trim(&self.settings.bio_input);
                s.avatar_color = self.settings.avatar_color.clone();
                self.session = Some(s);
            },
            None => {},
        }
        self.profile_say("Profile saved");
    }

    fn problem_of_password(&self) -> (r: Option<&'static str>)
        ensures
            match r {
                Some(text) => password_problem(self.settings) == Some(text@),
                None => password_problem(self.settings) is None,
            },
    {
        let s = &self.settings;
        if s.current_password_input.as_str().is_empty() {
            Some("Enter your current password")
        } else if text_len(&s.new_password_input) < MIN_PASSWORD {
            Some("New password must be at least 6 characters")
        } else if !same(&s.new_password_input, &s.confirm_password_input) {
            Some("Passwords don't match")
        } else if same(&s.new_password_input, &s.current_password_input) {
            Some("New password must be different from the current one")
        } else {
            None
        }
    }

    fn change_password(&mut self) -> (fx: Vec<Effect>)
        ensures
            change_password_step(*old(self), *final(self), views(fx@)),
    {
        if self.online_token().is_none() {
            return nothing();
        }
        match self.problem_of_password() {
            Some(text) => {
                self.password_say(text);
                nothing()
            },
            None => {
                let fx = self.ask2(
                    CallKind::Action,
                    "auth:changePassword",
                    "currentPassword",
                    Arg::Str(self.settings.current_password_input.clone()),
                    "newPassword",
                    Arg::Str(self.settings.new_password_input.clone()),
                    Reply::PasswordChangeFinished,
                );
                self.password_say("Changing password…");
                fx
            },
        }
    }

    fn password_changed(&mut self, now: Now)
        ensures
            *final(self) == (App {
                settings: final(self).settings,
                toast: final(self).toast,
                ..*old(self)
            }),
            final(self).settings == (Settings {
                current_password_input: final(self).settings.current_password_input,
                new_password_input: final(self).settings.new_password_input,
                confirm_password_input: final(self).settings.confirm_password_input,
                password_status: final(self).settings.password_status,
                ..old(self).settings
            }),
            passwords_cleared(final(self).settings),
            text_is(final(self).settings.password_status, "Password changed"@),
            toasts(final(self).toast, "Password changed"@, now),
    {
        self.settings.current_password_input = String::new();
        self.settings.new_password_input = String::new();
        self.settings.confirm_password_input = String::new();
        self.settings.password_status = Some(owned("Password changed"));
        self.show_toast("Password changed", now);
    }
}

// ---------- Our picture ----------

/// The upload of a new picture.
pub open spec fn avatar_upload(token: Seq<char>, bytes: Seq<u8>, content_type: Seq<char>) -> EffectView {
    EffectView::Upload {
        ask: session_call(
            token,
            CallKind::Mutation,
            "profile:generateAvatarUploadUrl"@,
            seq![],
            Reply::AvatarUploadFinished,
        ),
        bytes,
        content_type,
        send: session_call(
            token,
            CallKind::Mutation,
            "profile:setAvatarImage"@,
            seq![],
            Reply::AvatarUploadFinished,
        ),
        storage_arg: "storageId"@,
        strict: false,
    }
}

/// A picture was picked, or not.
pub open spec fn avatar_picked(pre: App, pick: ImagePick, post: App, fx: Seq<EffectView>) -> bool {
    let idle = App { settings: Settings { avatar_upload_busy: false, ..pre.settings }, ..pre };
    match pick {
        ImagePick::Cancelled => post == idle && fx.len() == 0,
        ImagePick::TooLarge => profile_says(idle, "Image must be smaller than 2MB"@, post)
            && fx.len() == 0,
        ImagePick::Ready(bytes, content_type) => match pre.token() {
            Some(t) => profile_says(pre, "Uploading..."@, post) && fx == seq![
                avatar_upload(t, bytes@, content_type@),
            ],
            None => post == idle && fx.len() == 0,
        },
    }
}

/// The new picture is stored.
pub open spec fn avatar_uploaded(pre: App, url: String, post: App, fx: Seq<EffectView>) -> bool {
    &&& profile_says(
        App {
            session: match pre.session {
                Some(s) => Some(Session { avatar_image_url: url, ..s }),
                None => None,
            },
            settings: Settings { avatar_upload_busy: false, ..pre.settings },
            ..pre
        },
        "Photo updated"@,
        post,
    )
    &&& fx == fetches(pre.images@, plain_jobs(seq![url@]))
}

/// The picture is gone.
pub open spec fn avatar_removed(pre: App, post: App) -> bool {
    &&& profile_says(App { session: post.session, ..pre }, "Photo removed"@, post)
    &&& match pre.session {
        Some(s) => {
            &&& post.session is Some
            &&& post.session->0 == (Session {
                avatar_image_url: post.session->0.avatar_image_url,
                ..s
            })
            &&& post.session->0.avatar_image_url@.len() == 0
        },
        None => post.session is None,
    }
}

impl App {
    fn pick_avatar(&mut self) -> (fx: Vec<Effect>)
        ensures
            profile_step(
                *old(self),
                ProfileMessage::PickAvatarImage,
                Now { tick_ms: 0, unix_ms: 0 },
                *final(self),
                views(fx@),
            ),
    {
        if self.settings.avatar_upload_busy {
            return nothing();
        }
        self.settings.avatar_upload_busy = true;
        self.settings.profile_status = None;
        one(Effect::PickImage(PickPurpose::Avatar))
    }

    fn avatar_picked(&mut self, pick: ImagePick) -> (fx: Vec<Effect>)
        ensures
            avatar_picked(*old(self), pick, *final(self), views(fx@)),
    {
        match pick {
            ImagePick::Cancelled => {
                self.settings.avatar_upload_busy = false;
                nothing()
            },
            ImagePick::TooLarge => {
                self.settings.avatar_upload_busy = false;
                self.profile_say("Image must be smaller than 2MB");
                nothing()
            },
            ImagePick::Ready(bytes, content_type) => {
                let token = match self.online_token() {
                    Some(t) => t,
                    None => {
                        self.settings.avatar_upload_busy = false;
                        return nothing();
                    },
                };
                self.profile_say("Uploading...");
                let first: Vec<(&'static str, Arg)> = Vec::new();
                let second: Vec<(&'static str, Arg)> = Vec::new();
                assert(args_view(first@) =~= seq![]);
                assert(args_view(second@) =~= seq![]);
                one(
                    Effect::Upload(
                        Upload {
                            ask: make_call(
                                token.clone(),
                                CallKind::Mutation,
                                "profile:generateAvatarUploadUrl",
                                first,
                                Reply::AvatarUploadFinished,
                            ),
                            bytes,
                            content_type,
                            send: make_call(
                                token,
                                CallKind::Mutation,
                                "profile:setAvatarImage",
                                second,
                                Reply::AvatarUploadFinished,
                            ),
                            storage_arg: "storageId",
                            strict: false,
                        },
                    ),
                )
            },
        }
    }

    fn avatar_uploaded(&mut self, url: String) -> (fx: Vec<Effect>)
        ensures
            avatar_uploaded(*old(self), url, *final(self), views(fx@)),
    {
        let fx = self.fetch_avatar(url.clone());
        self.settings.avatar_upload_busy = false;
        match self.session.take() {
            Some(s) => {
                let mut s = s;
                s.avatar_image_url = url;
                self.session = Some(s);
            },
            None => {},
        }
        self.profile_say("Photo updated");
        fx
    }

    fn avatar_removed(&mut self)
        ensures
            avatar_removed(*old(self), *final(self)),
    {
        match self.session.take() {
            Some(s) => {
                let mut s = s;
                s.avatar_image_url = String::new();
                self.session = Some(s);
            },
            None => {},
        }
        self.profile_say("Photo removed");
    }
}

// ---------- The messages ----------

/// The device with this name; the empty name stands for the default one.
pub open spec fn device(name: String) -> Option<String> {
    if name@.len() == 0 {
        None
    } else {
        Some(name)
    }
}

fn to_device(name: String) -> (r: Option<String>)
    ensures
        r == device(name),
{
    if name.as_str().is_empty() {
        None
    } else {
        Some(name)
    }
}

/// What a message about profiles and settings does.
pub open spec fn profile_step(pre: App, m: ProfileMessage, now: Now, post: App, fx: Seq<EffectView>) -> bool {
    match m {
        ProfileMessage::OpenProfile(id) => open_profile_step(pre, id@, post, fx),
        ProfileMessage::ProfileLoaded(Ok(profile)) => {
            &&& post == (App {
                profile: ProfilePane { viewing: Some(profile), ..pre.profile },
                ..pre
            })
            &&& fx == fetches(pre.images@, plain_jobs(seq![profile.avatar_image_url@]))
        },
        ProfileMessage::ProfileLoaded(Err(err)) => {
            &&& post == (App { profile: ProfilePane { error: Some(err), ..pre.profile }, ..pre })
            &&& fx.len() == 0
        },
        ProfileMessage::CloseProfile => {
            &&& post == (App { profile: ProfilePane { viewing: None, error: None }, ..pre })
            &&& fx.len() == 0
        },
        ProfileMessage::OpenSettings(inputs, outputs) => settings_opened(
            pre,
            inputs,
            outputs,
            post,
            fx,
        ),
        ProfileMessage::CloseSettings => settings_are(
            pre,
            Settings { open: false, ..pre.settings },
            post,
            fx,
        ),
        ProfileMessage::SettingsCategoryChanged(category) => {
            &&& post == (App { settings: Settings { category, ..pre.settings }, ..pre })
            &&& fx == if category == SettingsCategory::Bots {
                seq![EffectView::Dispatch(Message::Bot(BotMessage::RefreshMyBots))]
            } else {
                Seq::empty()
            }
        },
        ProfileMessage::SettingsDisplayNameChanged(value) => settings_are(
            pre,
            Settings { display_name_input: value, ..pre.settings },
            post,
            fx,
        ),
        ProfileMessage::SettingsStatusChanged(value) => settings_are(
            pre,
            Settings { status_input: value, ..pre.settings },
            post,
            fx,
        ),
        ProfileMessage::SettingsBioChanged(value) => settings_are(
            pre,
            Settings { bio_input: value, ..pre.settings },
            post,
            fx,
        ),
        ProfileMessage::SettingsAvatarColorSelected(color) => settings_are(
            pre,
            Settings { avatar_color: color, ..pre.settings },
            post,
            fx,
        ),
        ProfileMessage::SaveProfile => save_profile_step(pre, post, fx),
        ProfileMessage::ProfileSaveFinished(Ok(())) => profile_saved(pre, post) && fx.len() == 0,
        ProfileMessage::ProfileSaveFinished(Err(err)) | ProfileMessage::AvatarRemoveFinished(
            Err(err),
        ) => settings_are(
            pre,
            Settings { profile_status: Some(err), ..pre.settings },
            post,
            fx,
        ),
        ProfileMessage::SettingsCurrentPasswordChanged(value) => settings_are(
            pre,
            Settings { current_password_input: value, ..pre.settings },
            post,
            fx,
        ),
        ProfileMessage::SettingsNewPasswordChanged(value) => settings_are(
            pre,
            Settings { new_password_input: value, ..pre.settings },
            post,
            fx,
        ),
        ProfileMessage::SettingsConfirmPasswordChanged(value) => settings_are(
            pre,
            Settings { confirm_password_input: value, ..pre.settings },
            post,
            fx,
        ),
        ProfileMessage::ChangePassword => change_password_step(pre, post, fx),
        ProfileMessage::PasswordChangeFinished(Ok(())) => {
            &&& post == (App { settings: post.settings, toast: post.toast, ..pre })
            &&& post.settings == (Settings {
                current_password_input: post.settings.current_password_input,
                new_password_input: post.settings.new_password_input,
                confirm_password_input: post.settings.confirm_password_input,
                password_status: post.settings.password_status,
                ..pre.settings
            })
            &&& passwords_cleared(post.settings)
            &&& text_is(post.settings.password_status, "Password changed"@)
            &&& toasts(post.toast, "Password changed"@, now)
            &&& fx.len() == 0
        },
        ProfileMessage::PasswordChangeFinished(Err(err)) => settings_are(
            pre,
            Settings { password_status: Some(err), ..pre.settings },
            post,
            fx,
        ),
        ProfileMessage::SettingsInputDeviceSelected(name) => {
            &&& post == (App { audio: Audio { input_device: device(name), ..pre.audio }, ..pre })
            &&& fx == seq![EffectView::PersistSettings]
        },
        ProfileMessage::SettingsOutputDeviceSelected(name) => {
            &&& post == (App { audio: Audio { output_device: device(name), ..pre.audio }, ..pre })
            &&& fx == seq![EffectView::PersistSettings]
        },
        ProfileMessage::NoiseGateChanged(bits) => {
            &&& post == (App { audio: Audio { noise_gate: bits, ..pre.audio }, ..pre })
            &&& fx == seq![EffectView::PersistSettings]
        },
        ProfileMessage::PickAvatarImage => if pre.settings.avatar_upload_busy {
            post == pre && fx.len() == 0
        } else {
            &&& post == (App {
                settings: Settings {
                    avatar_upload_busy: true,
                    profile_status: None,
                    ..pre.settings
                },
                ..pre
            })
            &&& fx == seq![EffectView::PickImage(PickPurpose::Avatar)]
        },
        ProfileMessage::AvatarFilePicked(pick) => avatar_picked(pre, pick, post, fx),
        ProfileMessage::AvatarUploadFinished(Ok(url)) => avatar_uploaded(pre, url, post, fx),
        ProfileMessage::AvatarUploadFinished(Err(err)) => settings_are(
            pre,
            Settings { avatar_upload_busy: false, profile_status: Some(err), ..pre.settings },
            post,
            fx,
        ),
        ProfileMessage::RemoveAvatarImage => {
            &&& post == pre
            &&& fx == mutation(
                pre,
                "profile:removeAvatarImage"@,
                seq![],
                Reply::AvatarRemoveFinished,
            )
        },
        ProfileMessage::AvatarRemoveFinished(Ok(())) => avatar_removed(pre, post) && fx.len() == 0,
    }
}

impl App {
    fn settings_category_changed(&mut self, category: SettingsCategory) -> (fx: Vec<Effect>)
        ensures
            profile_step(
                *old(self),
                ProfileMessage::SettingsCategoryChanged(category),
                Now { tick_ms: 0, unix_ms: 0 },
                *final(self),
                views(fx@),
            ),
    {
        self.settings.category = category;
        if category == SettingsCategory::Bots {
            one(Effect::Dispatch(Message::Bot(BotMessage::RefreshMyBots)))
        } else {
            nothing()
        }
    }

    /// Handles a message about profiles and settings.
    #[verifier::rlimit(60)]
    pub fn update_profile(&mut self, m: ProfileMessage, now: Now) -> (fx: Vec<Effect>)
        ensures
            profile_step(*old(self), m, now, *final(self), views(fx@)),
    {
        match m {
            ProfileMessage::OpenProfile(id) => self.open_profile(id),
            ProfileMessage::ProfileLoaded(Ok(profile)) => self.profile_loaded(profile),
            ProfileMessage::ProfileLoaded(Err(err)) => {
                self.profile.error = Some(err);
                nothing()
            },
            ProfileMessage::CloseProfile => {
                self.profile.viewing = None;
                self.profile.error = None;
                nothing()
            },
            ProfileMessage::OpenSettings(inputs, outputs) => self.open_settings(inputs, outputs),
            ProfileMessage::CloseSettings => {
                self.settings.open = false;
                nothing()
            },
            ProfileMessage::SettingsCategoryChanged(c) => self.settings_category_changed(c),
            ProfileMessage::SettingsDisplayNameChanged(value) => {
                self.settings.display_name_input = value;
                nothing()
            },
            ProfileMessage::SettingsStatusChanged(value) => {
                self.settings.status_input = value;
                nothing()
            },
            ProfileMessage::SettingsBioChanged(value) => {
                self.settings.bio_input = value;
                nothing()
            },
            ProfileMessage::SettingsAvatarColorSelected(color) => {
                self.settings.avatar_color = color;
                nothing()
            },
            ProfileMessage::SaveProfile => self.save_profile(),
            ProfileMessage::ProfileSaveFinished(Ok(_)) => {
                self.profile_was_saved();
                nothing()
            },
            ProfileMessage::ProfileSaveFinished(Err(err)) => {
                self.settings.profile_status = Some(err);
                nothing()
            },
            ProfileMessage::SettingsCurrentPasswordChanged(value) => {
                self.settings.current_password_input = value;
                nothing()
            },
            ProfileMessage::SettingsNewPasswordChanged(value) => {
                self.settings.new_password_input = value;
                nothing()
            },
            ProfileMessage::SettingsConfirmPasswordChanged(value) => {
                self.settings.confirm_password_input = value;
                nothing()
            },
            ProfileMessage::ChangePassword => self.change_password(),
            ProfileMessage::PasswordChangeFinished(Ok(_)) => {
                self.password_changed(now);
                nothing()
            },
            ProfileMessage::PasswordChangeFinished(Err(err)) => {
                self.settings.password_status = Some(err);
                nothing()
            },
            ProfileMessage::SettingsInputDeviceSelected(name) => {
                self.audio.input_device = to_device(name);
                one(Effect::PersistSettings)
            },
            ProfileMessage::SettingsOutputDeviceSelected(name) => {
                self.audio.output_device = to_device(name);
                one(Effect::PersistSettings)
            },
            ProfileMessage::NoiseGateChanged(bits) => {
                self.audio.noise_gate = bits;
                one(Effect::PersistSettings)
            },
            ProfileMessage::PickAvatarImage => self.pick_avatar(),
            ProfileMessage::AvatarFilePicked(pick) => self.avatar_picked(pick),
            ProfileMessage::AvatarUploadFinished(Ok(url)) => self.avatar_uploaded(url),
            ProfileMessage::AvatarUploadFinished(Err(err)) => {
                self.settings.avatar_upload_busy = false;
                self.settings.profile_status = Some(err);
                nothing()
            },
            ProfileMessage::RemoveAvatarImage => self.ask0(
                CallKind::Mutation,
                "profile:removeAvatarImage",
                Reply::AvatarRemoveFinished,
            ),
            ProfileMessage::AvatarRemoveFinished(Ok(_)) => {
                self.avatar_removed();
                nothing()
            },
            ProfileMessage::AvatarRemoveFinished(Err(err)) => {
                self.settings.profile_status = Some(err);
                nothing()
            },
        }
    }
}

} // verus!
