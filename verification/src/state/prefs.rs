//! Privacy and storage preferences.

use crate::state::app::{mutation, toasts, App, Chat, Now, Settings};
use crate::state::effect::{
    nothing, views, Arg, ArgView, CallKind, Effect, EffectView, Reply,
};
use crate::state::lifecycle::load_store_pref;
use crate::state::message::PrefsMessage;
use crate::state::types::Session;
use crate::text::{cat3, decimal, digits};
use vstd::prelude::*;

verus! {

/// A privacy flag of the session.
#[derive(Debug, Clone, Copy, PartialEq, Eq, Structural)]
pub enum Flag {
    HideOnline,
    FriendsOnlyDms,
    Discoverable,
}

impl Flag {
    /// How the backend calls it.
    pub open spec fn arg_name(self) -> Seq<char> {
        match self {
            Flag::HideOnline => "hideOnlineStatus"@,
            Flag::FriendsOnlyDms => "friendsOnlyDms"@,
            Flag::Discoverable => "discoverable"@,
        }
    }

    /// Its value in a session.
    pub open spec fn of(self, s: Session) -> bool {
        match self {
            Flag::HideOnline => s.hide_online_status,
            Flag::FriendsOnlyDms => s.friends_only_dms,
            Flag::Discoverable => s.discoverable,
        }
    }

    /// The session with this value of it.
    pub open spec fn set(self, s: Session, value: bool) -> Session {
        match self {
            Flag::HideOnline => Session { hide_online_status: value, ..s },
            Flag::FriendsOnlyDms => Session { friends_only_dms: value, ..s },
            Flag::Discoverable => Session { discoverable: value, ..s },
        }
    }
}

/// A privacy flag is turned over: at once in the session, and on the backend.
pub open spec fn flag_step(pre: App, flag: Flag, post: App, fx: Seq<EffectView>) -> bool {
    match pre.session {
        Some(s) => if pre.link.connected {
            &&& post == (App { session: Some(flag.set(s, !flag.of(s))), ..pre })
            &&& fx == mutation(
                pre,
                "prefs:setPrivacyFlags"@,
                seq![(flag.arg_name(), ArgView::Bool(!flag.of(s)))],
                Reply::PrivacyFlagFinished,
            )
        } else {
            post == pre && fx.len() == 0
        },
        None => post == pre && fx.len() == 0,
    }
}

/// The profile page of the settings shows this error.
pub open spec fn settings_failed(pre: App, err: String, post: App, fx: Seq<EffectView>) -> bool {
    &&& post == (App { settings: Settings { profile_status: Some(err), ..pre.settings }, ..pre })
    &&& fx.len() == 0
}

/// What a message about preferences does.
pub open spec fn prefs_step(pre: App, m: PrefsMessage, now: Now, post: App, fx: Seq<EffectView>) -> bool {
    match m {
        PrefsMessage::ToggleStoreHistoryGlobal => {
            &&& post == pre
            &&& fx == match pre.session {
                Some(s) => mutation(
                    pre,
                    "prefs:setStoreChatHistory"@,
                    seq![("store"@, ArgView::Bool(!s.store_chat_history))],
                    Reply::StoreHistoryGlobalFinished { store: !s.store_chat_history },
                ),
                None => Seq::empty(),
            }
        },
        PrefsMessage::StoreHistoryGlobalFinished(Ok(store)) => {
            &&& post == (App {
                session: match pre.session {
                    Some(s) => Some(Session { store_chat_history: store, ..s }),
                    None => None,
                },
                toast: post.toast,
                ..pre
            })
            &&& toasts(
                post.toast,
                if store {
                    "Chat history storage: ON"@
                } else {
                    "Chat history storage: OFF (ephemeral)"@
                },
                now,
            )
            &&& fx.len() == 0
        },
        PrefsMessage::StoreHistoryGlobalFinished(Err(err)) | PrefsMessage::PrivacyFlagFinished(
            Err(err),
        ) | PrefsMessage::SignOutOthersFinished(Err(err)) => settings_failed(pre, err, post, fx),
        PrefsMessage::ToggleStoreHistoryThisChat => {
            &&& post == pre
            &&& fx == match pre.place.conversation {
                Some(c) => mutation(
                    pre,
                    "prefs:setConversationStore"@,
                    seq![
                        ("conversationId"@, ArgView::Str(c@)),
                        ("store"@, ArgView::Bool(!pre.chat.store_enabled)),
                    ],
                    Reply::StoreHistoryChatFinished { store: !pre.chat.store_enabled },
                ),
                None => Seq::empty(),
            }
        },
        PrefsMessage::StoreHistoryChatFinished(Ok(store)) => {
            &&& post == (App {
                chat: Chat { store_enabled: store, ..pre.chat },
                toast: post.toast,
                ..pre
            })
            &&& toasts(
                post.toast,
                if store {
                    "This chat: history ON"@
                } else {
                    "This chat: history OFF"@
                },
                now,
            )
            &&& fx == load_store_pref(post)
        },
        PrefsMessage::StoreHistoryChatFinished(Err(err)) => {
            &&& post == (App { chat: Chat { error: Some(err), ..pre.chat }, ..pre })
            &&& fx.len() == 0
        },
        PrefsMessage::ConversationStorePrefLoaded(store, allows) => {
            &&& post == (App {
                chat: Chat { store_enabled: store, store_allowed: allows, ..pre.chat },
                ..pre
            })
            &&& fx.len() == 0
        },
        PrefsMessage::ToggleHideOnline => flag_step(pre, Flag::HideOnline, post, fx),
        PrefsMessage::ToggleFriendsOnlyDms => flag_step(pre, Flag::FriendsOnlyDms, post, fx),
        PrefsMessage::ToggleDiscoverable => flag_step(pre, Flag::Discoverable, post, fx),
        PrefsMessage::PrivacyFlagFinished(Ok(())) => {
            &&& post == (App { toast: post.toast, ..pre })
            &&& toasts(post.toast, "Privacy updated"@, now)
            &&& fx.len() == 0
        },
        PrefsMessage::SignOutOtherSessions => {
            &&& post == pre
            &&& fx == mutation(
                pre,
                "prefs:signOutOtherSessions"@,
                seq![],
                Reply::SignOutOthersFinished,
            )
        },
        PrefsMessage::SignOutOthersFinished(Ok(n)) => {
            &&& post == (App { toast: post.toast, ..pre })
            &&& toasts(post.toast, "Signed out "@ + digits(n as nat) + " other session(s)"@, now)
            &&& fx.len() == 0
        },
    }
}

/// Turning a privacy flag over twice gives the session back.
pub proof fn privacy_flags_turn_back(flag: Flag, s: Session)
    ensures
        ({
            let once = flag.set(s, !flag.of(s));
            flag.set(once, !flag.of(once)) == s
        }),
{
}

impl App {
    fn toggle_flag(&mut self, flag: Flag) -> (fx: Vec<Effect>)
        ensures
            flag_step(*old(self), flag, *final(self), views(fx@)),
    {
        if !self.link.connected {
            return nothing();
        }
        let next = match &self.session {
            Some(s) => match flag {
                Flag::HideOnline => !s.hide_online_status,
                Flag::FriendsOnlyDms => !s.friends_only_dms,
                Flag::Discoverable => !s.discoverable,
            },
            None => {
                return nothing();
            },
        };
        let name: &'static str = match flag {
            Flag::HideOnline => "hideOnlineStatus",
            Flag::FriendsOnlyDms => "friendsOnlyDms",
            Flag::Discoverable => "discoverable",
        };
        let fx = self.ask1(
            CallKind::Mutation,
            "prefs:setPrivacyFlags",
            name,
            Arg::Bool(next),
            Reply::PrivacyFlagFinished,
        );
        match self.session.take() {
            Some(s) => {
                let mut s = s;
                match flag {
                    Flag::HideOnline => {
                        s.hide_online_status = next;
                    },
                    Flag::FriendsOnlyDms => {
                        s.friends_only_dms = next;
                    },
                    Flag::Discoverable => {
                        s.discoverable = next;
                    },
                }
                self.session = Some(s);
            },
            None => {},
        }
        fx
    }

    fn store_history_changed(&mut self, store: bool, now: Now) -> (fx: Vec<Effect>)
        ensures
            prefs_step(
                *old(self),
                PrefsMessage::StoreHistoryGlobalFinished(Ok(store)),
                now,
                *final(self),
                views(fx@),
            ),
    {
        match self.session.take() {
            Some(s) => {
                let mut s = s;
                s.store_chat_history = store;
                self.session = Some(s);
            },
            None => {},
        }
        if store {
            self.show_toast("Chat history storage: ON", now);
        } else {
            self.show_toast("Chat history storage: OFF (ephemeral)", now);
        }
        nothing()
    }

    /// Handles a message about preferences.
    #[verifier::rlimit(30)]
    pub fn update_prefs(&mut self, m: PrefsMessage, now: Now) -> (fx: Vec<Effect>)
        ensures
            prefs_step(*old(self), m, now, *final(self), views(fx@)),
    {
        match m {
            PrefsMessage::ToggleStoreHistoryGlobal => {
                let store = match &self.session {
                    Some(s) => !s.store_chat_history,
                    None => {
                        return nothing();
                    },
                };
                self.ask1(
                    CallKind::Mutation,
                    "prefs:setStoreChatHistory",
                    "store",
                    Arg::Bool(store),
                    Reply::StoreHistoryGlobalFinished { store },
                )
            },
            PrefsMessage::StoreHistoryGlobalFinished(Ok(store)) => self.store_history_changed(
                store,
                now,
            ),
            PrefsMessage::StoreHistoryGlobalFinished(Err(err)) => {
                self.settings.profile_status = Some(err);
                nothing()
            },
            PrefsMessage::ToggleStoreHistoryThisChat => {
                let c = match &self.place.conversation {
                    Some(c) => c.clone(),
                    None => {
                        return nothing();
                    },
                };
                let store = !self.chat.store_enabled;
                self.ask2(
                    CallKind::Mutation,
                    "prefs:setConversationStore",
                    "conversationId",
                    Arg::Str(c),
                    "store",
                    Arg::Bool(store),
                    Reply::StoreHistoryChatFinished { store },
                )
            },
            PrefsMessage::StoreHistoryChatFinished(Ok(store)) => {
                self.chat.store_enabled = store;
                if store {
                    self.show_toast("This chat: history ON", now);
                } else {
                    self.show_toast("This chat: history OFF", now);
                }
                self.load_conversation_store_pref()
            },
            PrefsMessage::StoreHistoryChatFinished(Err(err)) => {
                self.chat.error = Some(err);
                nothing()
            },
            PrefsMessage::ConversationStorePrefLoaded(store, allows) => {
                self.chat.store_enabled = store;
                self.chat.store_allowed = allows;
                nothing()
            },
            PrefsMessage::ToggleHideOnline => self.toggle_flag(Flag::HideOnline),
            PrefsMessage::ToggleFriendsOnlyDms => self.toggle_flag(Flag::FriendsOnlyDms),
            PrefsMessage::ToggleDiscoverable => self.toggle_flag(Flag::Discoverable),
            PrefsMessage::PrivacyFlagFinished(Ok(_)) => {
                self.show_toast("Privacy updated", now);
                nothing()
            },
            PrefsMessage::PrivacyFlagFinished(Err(err)) => {
                self.settings.profile_status = Some(err);
                nothing()
            },
            PrefsMessage::SignOutOtherSessions => self.ask0(
                CallKind::Mutation,
                "prefs:signOutOtherSessions",
                Reply::SignOutOthersFinished,
            ),
            PrefsMessage::SignOutOthersFinished(Ok(n)) => {
                self.show_toast(&cat3("Signed out ", &decimal(n as u64), " other session(s)"), now);
                nothing()
            },
            PrefsMessage::SignOutOthersFinished(Err(err)) => {
                self.settings.profile_status = Some(err);
                nothing()
            },
        }
    }
}

} // verus!
