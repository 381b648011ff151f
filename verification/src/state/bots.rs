//! Bots.

use crate::state::app::{mutation, query, toasts, App, Bots, Now};
use crate::state::effect::{
    nothing, one, views, Arg, ArgView, CallKind, Effect, EffectView, Reply,
};
use crate::state::message::{BotMessage, Message};
use crate::state::servers::server_mutation;
use crate::text::{byte_len, cat3, cat4, owned, text_is, text_len, trim, trimmed};
use vstd::prelude::*;

verus! {

/// The shortest name of a bot, in bytes.
pub const MIN_BOT_NAME: usize = 2;

/// Only the bots pane changed, to `bots`.
pub open spec fn bots_are(pre: App, bots: Bots, post: App, fx: Seq<EffectView>) -> bool {
    post == (App { bots, ..pre }) && fx.len() == 0
}

/// Only the status line of the bots changed, and it shows `text`.
pub open spec fn bots_say(pre: App, text: Seq<char>, post: App, fx: Seq<EffectView>) -> bool {
    &&& bots_are(pre, Bots { status: post.bots.status, ..pre.bots }, post, fx)
    &&& text_is(post.bots.status, text)
}

/// How a bot that was just made is called.
pub open spec fn new_bot_label(name: Seq<char>, username: Seq<char>) -> Seq<char> {
    name + " (@"@ + username + ")"@
}

/// [`new_bot_label`], computed.
pub fn bot_label(name: &str, username: &str) -> (r: String)
    ensures
        r@ == new_bot_label(name@, username@),
{
    cat4(name, " (@", username, ")")
}

/// Our bots are asked for.
pub open spec fn list_bots(app: App) -> Seq<EffectView> {
    query(app, "bots:listMine"@, seq![], Reply::MyBotsUpdated)
}

/// What the "create bot" button does.
pub open spec fn create_bot_step(pre: App, post: App, fx: Seq<EffectView>) -> bool {
    let name = trimmed(pre.bots.new_name_input@);
    if pre.token() is None {
        post == pre && fx.len() == 0
    } else if byte_len(name) < MIN_BOT_NAME {
        bots_say(pre, "Bot needs a name (min 2 chars)"@, post, fx)
    } else {
        &&& post == pre
        &&& exists|label: String| label@ == name && fx == #[trigger] bot_call(pre, label)
    }
}

/// The call that makes a bot.
pub open spec fn bot_call(app: App, name: String) -> Seq<EffectView> {
    mutation(
        app,
        "bots:create"@,
        seq![("name"@, ArgView::Str(name@))],
        Reply::BotCreateFinished { name },
    )
}

/// A bot was made: its token is shown this once.
pub open spec fn bot_created(
    pre: App,
    label: Seq<char>,
    token: String,
    now: Now,
    post: App,
    fx: Seq<EffectView>,
) -> bool {
    &&& post == (App {
        bots: Bots {
            new_name_input: post.bots.new_name_input,
            token_reveal: Some(token),
            status: post.bots.status,
            ..pre.bots
        },
        toast: post.toast,
        ..pre
    })
    &&& post.bots.new_name_input@.len() == 0
    &&& text_is(post.bots.status, "Created "@ + label + " — copy token now!"@)
    &&& toasts(post.toast, "Bot created"@, now)
    &&& fx == list_bots(pre)
}

/// What the "invite bot" button does.
pub open spec fn invite_bot_step(pre: App, post: App, fx: Seq<EffectView>) -> bool {
    let username = trimmed(pre.bots.invite_username_input@);
    if pre.token() is None {
        post == pre && fx.len() == 0
    } else if pre.servers.selected is None {
        bots_say(pre, "Open a server first"@, post, fx)
    } else if username.len() == 0 {
        post == pre && fx.len() == 0
    } else {
        &&& post == pre
        &&& fx == server_mutation(
            pre,
            "bots:inviteToServer"@,
            seq![("botUsername"@, ArgView::Str(username))],
            Reply::InviteBotFinished,
        )
    }
}

/// A call about one bot.
pub open spec fn about_bot(app: App, function: Seq<char>, id: Seq<char>, reply: Reply) -> Seq<EffectView> {
    mutation(app, function, seq![("botId"@, ArgView::Str(id))], reply)
}

/// What a message about bots does.
pub open spec fn bot_step(pre: App, m: BotMessage, now: Now, post: App, fx: Seq<EffectView>) -> bool {
    match m {
        BotMessage::CreateBot => create_bot_step(pre, post, fx),
        BotMessage::BotCreateFinished(Ok((label, token))) => bot_created(
            pre,
            label@,
            token,
            now,
            post,
            fx,
        ),
        BotMessage::BotCreateFinished(Err(err)) | BotMessage::InviteBotFinished(Err(err))
        | BotMessage::BotTokenFinished(Err(err)) | BotMessage::DeleteBotFinished(Err(err)) => bots_are(
            pre,
            Bots { status: Some(err), ..pre.bots },
            post,
            fx,
        ),
        BotMessage::RefreshMyBots => post == pre && fx == list_bots(pre),
        BotMessage::MyBotsUpdated(mine) => bots_are(pre, Bots { mine, ..pre.bots }, post, fx),
        BotMessage::NewBotNameChanged(value) => bots_are(
            pre,
            Bots { new_name_input: value, ..pre.bots },
            post,
            fx,
        ),
        BotMessage::BotInviteUsernameChanged(value) => bots_are(
            pre,
            Bots { invite_username_input: value, ..pre.bots },
            post,
            fx,
        ),
        BotMessage::InviteBotToServer => invite_bot_step(pre, post, fx),
        BotMessage::InviteBotFinished(Ok(())) => {
            &&& post == (App {
                bots: Bots {
                    invite_username_input: post.bots.invite_username_input,
                    ..pre.bots
                },
                toast: post.toast,
                ..pre
            })
            &&& post.bots.invite_username_input@.len() == 0
            &&& toasts(post.toast, "Bot invited to server"@, now)
            &&& fx.len() == 0
        },
        BotMessage::RegenerateBotToken(id) => {
            post == pre && fx == about_bot(
                pre,
                "bots:regenerateToken"@,
                id@,
                Reply::BotTokenFinished,
            )
        },
        BotMessage::BotTokenFinished(Ok(token)) => {
            &&& bots_are(
                pre,
                Bots { token_reveal: Some(token), status: post.bots.status, ..pre.bots },
                post,
                fx,
            )
            &&& text_is(post.bots.status, "New token ready — copy it now"@)
        },
        BotMessage::DeleteBot(id) => {
            post == pre && fx == about_bot(pre, "bots:destroy"@, id@, Reply::DeleteBotFinished)
        },
        BotMessage::DeleteBotFinished(Ok(())) => {
            &&& post == (App { toast: post.toast, ..pre })
            &&& toasts(post.toast, "Bot deleted"@, now)
            &&& fx == seq![EffectView::Dispatch(Message::Bot(BotMessage::RefreshMyBots))]
        },
        BotMessage::DismissBotToken => bots_are(
            pre,
            Bots { token_reveal: None, ..pre.bots },
            post,
            fx,
        ),
    }
}

impl App {
    fn bots_say(&mut self, text: &str) -> (fx: Vec<Effect>)
        ensures
            bots_say(*old(self), text@, *final(self), views(fx@)),
    {
        self.bots.status = Some(owned(text));
        nothing()
    }

    fn bots_failed(&mut self, err: String) -> (fx: Vec<Effect>)
        ensures
            bots_are(
                *old(self),
                Bots { status: Some(err), ..old(self).bots },
                *final(self),
                views(fx@),
            ),
    {
        self.bots.status = Some(err);
        nothing()
    }

    fn create_bot(&mut self) -> (fx: Vec<Effect>)
        ensures
            create_bot_step(*old(self), *final(self), views(fx@)),
    {
        if self.online_token().is_none() {
            return nothing();
        }
        let name = trim(&self.bots.new_name_input);
        if text_len(&name) < MIN_BOT_NAME {
            return self.bots_say("Bot needs a name (min 2 chars)");
        }
        let fx = self.ask1(
            CallKind::Mutation,
            "bots:create",
            "name",
            Arg::Str(name.clone()),
            Reply::BotCreateFinished { name: name.clone() },
        );
        assert(views(fx@) == bot_call(*self, name));
        fx
    }

    fn refresh_bots(&self) -> (fx: Vec<Effect>)
        ensures
            views(fx@) == list_bots(*self),
    {
        self.ask0(CallKind::Query, "bots:listMine", Reply::MyBotsUpdated)
    }

    fn bot_was_created(&mut self, label: String, token: String, now: Now) -> (fx: Vec<Effect>)
        ensures
            bot_created(*old(self), label@, token, now, *final(self), views(fx@)),
    {
        let fx = self.refresh_bots();
        self.bots.new_name_input = String::new();
        self.bots.token_reveal = Some(token);
        self.bots.status = Some(cat3("Created ", &label, " — copy token now!"));
        self.show_toast("Bot created", now);
        fx
    }

    fn invite_bot(&mut self) -> (fx: Vec<Effect>)
        ensures
            invite_bot_step(*old(self), *final(self), views(fx@)),
    {
        if self.online_token().is_none() {
            return nothing();
        }
        if self.servers.selected.is_none() {
            return self.bots_say("Open a server first");
        }
        let username = trim(&self.bots.invite_username_input);
        if username.as_str().is_empty() {
            return nothing();
        }
        self.ask_server1(
            "bots:inviteToServer",
            "botUsername",
            Arg::Str(username),
            Reply::InviteBotFinished,
        )
    }

    fn ask_about_bot(&self, function: &'static str, id: String, reply: Reply) -> (fx: Vec<Effect>)
        ensures
            views(fx@) == about_bot(*self, function@, id@, reply),
    {
        self.ask1(CallKind::Mutation, function, "botId", Arg::Str(id), reply)
    }

    /// Handles a message about bots.
    #[verifier::rlimit(40)]
    pub fn update_bots(&mut self, m: BotMessage, now: Now) -> (fx: Vec<Effect>)
        ensures
            bot_step(*old(self), m, now, *final(self), views(fx@)),
    {
        match m {
            BotMessage::CreateBot => self.create_bot(),
            BotMessage::BotCreateFinished(Ok((label, token))) => self.bot_was_created(
                label,
                token,
                now,
            ),
            BotMessage::BotCreateFinished(Err(err)) => self.bots_failed(err),
            BotMessage::RefreshMyBots => self.refresh_bots(),
            BotMessage::MyBotsUpdated(mine) => {
                self.bots.mine = mine;
                nothing()
            },
            BotMessage::NewBotNameChanged(value) => {
                self.bots.new_name_input = value;
                nothing()
            },
            BotMessage::BotInviteUsernameChanged(value) => {
                self.bots.invite_username_input = value;
                nothing()
            },
            BotMessage::InviteBotToServer => self.invite_bot(),
            BotMessage::InviteBotFinished(Ok(_)) => {
                self.bots.invite_username_input = String::new();
                self.show_toast("Bot invited to server", now);
                nothing()
            },
            BotMessage::InviteBotFinished(Err(err)) => self.bots_failed(err),
            BotMessage::RegenerateBotToken(id) => self.ask_about_bot(
                "bots:regenerateToken",
                id,
                Reply::BotTokenFinished,
            ),
            BotMessage::BotTokenFinished(Ok(token)) => {
                self.bots.token_reveal = Some(token);
                self.bots.status = Some(owned("New token ready — copy it now"));
                nothing()
            },
            BotMessage::BotTokenFinished(Err(err)) => self.bots_failed(err),
            BotMessage::DeleteBot(id) => self.ask_about_bot(
                "bots:destroy",
                id,
                Reply::DeleteBotFinished,
            ),
            BotMessage::DeleteBotFinished(Ok(_)) => {
                self.show_toast("Bot deleted", now);
                one(Effect::Dispatch(Message::Bot(BotMessage::RefreshMyBots)))
            },
            BotMessage::DeleteBotFinished(Err(err)) => self.bots_failed(err),
            BotMessage::DismissBotToken => {
                self.bots.token_reveal = None;
                nothing()
            },
        }
    }
}

} // verus!
