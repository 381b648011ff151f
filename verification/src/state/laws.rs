//! What holds of the update loop as a whole.

use crate::state::admin::admin_step;
use crate::state::app::{
    fetches, no_peers, shared_key_kind, starts_with, App, Config, ImageJobView, Now, SavedAudio,
};
use crate::state::auth::auth_step;
use crate::state::bots::bot_step;
use crate::state::calls::call_step;
use crate::state::channels::channel_step;
use crate::state::compose::{
    compose_step, dm_problem, draft_taken, message_args, message_sent, says, sealed_attachment,
    send_call, send_step,
};
use crate::state::effect::{ArgView, EffectView};
use crate::state::feed::feed_step;
use crate::state::lifecycle::{open_live, shows_picture, shutdown, stop_typing, wiped};
use crate::state::message::{
    AdminMessage, AuthMessage, BotMessage, CallMessage, ChannelMessage, ComposeMessage,
    FeedMessage, Message, PaletteMessage, PeerEvent, PeerMessage, PrefsMessage, ProfileMessage,
    RoleMessage, RoomMessage, SealedMessage, ServerMessage, SocialMessage, VoiceMessage,
    WindowMessage,
};
use crate::state::palette::palette_step;
use crate::state::peers::peer_step;
use crate::state::prefs::prefs_step;
use crate::state::profile::profile_step;
use crate::state::roles::role_step;
use crate::state::rooms::room_step;
use crate::state::servers::server_step;
use crate::state::social::{ended, missing_directs, social_step};
use crate::state::types::Friend;
use crate::state::update::step;
use crate::state::voice::voice_step;
use crate::state::window::window_step;
use crate::text::text_is;
use vstd::prelude::*;

verus! {

/// Neither a call nor an upload.
pub open spec fn is_local(e: EffectView) -> bool {
    !(e is Call) && !(e is Upload)
}

/// None of the effects is a call or an upload.
pub open spec fn no_calls(fx: Seq<EffectView>) -> bool {
    forall|i: int| 0 <= i < fx.len() ==> is_local(#[trigger] fx[i])
}

proof fn lemma_fetches(images: Map<Seq<char>, Vec<u8>>, jobs: Seq<ImageJobView>)
    ensures
        no_calls(fetches(images, jobs)),
    decreases jobs.len(),
{
    if jobs.len() > 0 {
        lemma_fetches(images, jobs.drop_last());
    }
}

proof fn lemma_ended(order: Seq<Seq<char>>, gone: Set<Seq<char>>)
    ensures
        no_calls(ended(order, gone)),
    decreases order.len(),
{
    if order.len() > 0 {
        lemma_ended(order.drop_last(), gone);
    }
}

proof fn lemma_missing_directs(app: App, friends: Seq<Friend>, now: Now)
    requires
        app.token() is None,
    ensures
        missing_directs(app, friends, now) == Seq::<EffectView>::empty(),
    decreases friends.len(),
{
    if friends.len() > 0 {
        lemma_missing_directs(app, friends.drop_last(), now);
    }
}

proof fn window_make_no_calls(pre: App, m: WindowMessage, now: Now, post: App, fx: Seq<EffectView>)
    requires
        window_step(pre, m, now, post, fx),
        pre.token() is None,
    ensures
        no_calls(fx),
{
}

proof fn social_make_no_calls(pre: App, m: SocialMessage, now: Now, post: App, fx: Seq<EffectView>)
    requires
        social_step(pre, m, now, post, fx),
        pre.token() is None,
    ensures
        no_calls(fx),
{
    assert forall|images: Map<Seq<char>, Vec<u8>>, jobs: Seq<ImageJobView>| no_calls(
        #[trigger] fetches(images, jobs),
    ) by {
        lemma_fetches(images, jobs);
    }
    assert forall|order: Seq<Seq<char>>, gone: Set<Seq<char>>| no_calls(
        #[trigger] ended(order, gone),
    ) by {
        lemma_ended(order, gone);
    }
    assert forall|app: App, friends: Seq<Friend>, at: Now| app.token() is None implies #[trigger] missing_directs(
        app,
        friends,
        at,
    ) == Seq::<EffectView>::empty() by {
        lemma_missing_directs(app, friends, at);
    }
}

proof fn peers_make_no_calls(pre: App, m: PeerMessage, now: Now, post: App, fx: Seq<EffectView>)
    requires
        peer_step(pre, m, now, post, fx),
        pre.token() is None,
    ensures
        no_calls(fx),
{
}

proof fn feed_make_no_calls(pre: App, m: FeedMessage, now: Now, post: App, fx: Seq<EffectView>)
    requires
        feed_step(pre, m, now, post, fx),
        pre.token() is None,
    ensures
        no_calls(fx),
{
    assert forall|images: Map<Seq<char>, Vec<u8>>, jobs: Seq<ImageJobView>| no_calls(
        #[trigger] fetches(images, jobs),
    ) by {
        lemma_fetches(images, jobs);
    }
}

proof fn rooms_make_no_calls(pre: App, m: RoomMessage, now: Now, post: App, fx: Seq<EffectView>)
    requires
        room_step(pre, m, now, post, fx),
        pre.token() is None,
    ensures
        no_calls(fx),
{
}

proof fn servers_make_no_calls(pre: App, m: ServerMessage, now: Now, post: App, fx: Seq<EffectView>)
    requires
        server_step(pre, m, now, post, fx),
        pre.token() is None,
    ensures
        no_calls(fx),
{
    assert forall|images: Map<Seq<char>, Vec<u8>>, jobs: Seq<ImageJobView>| no_calls(
        #[trigger] fetches(images, jobs),
    ) by {
        lemma_fetches(images, jobs);
    }
}

proof fn channels_make_no_calls(pre: App, m: ChannelMessage, now: Now, post: App, fx: Seq<EffectView>)
    requires
        channel_step(pre, m, now, post, fx),
        pre.token() is None,
    ensures
        no_calls(fx),
{
}

proof fn roles_make_no_calls(pre: App, m: RoleMessage, now: Now, post: App, fx: Seq<EffectView>)
    requires
        role_step(pre, m, now, post, fx),
        pre.token() is None,
    ensures
        no_calls(fx),
{
}

proof fn compose_make_no_calls(pre: App, m: ComposeMessage, now: Now, post: App, fx: Seq<EffectView>)
    requires
        compose_step(pre, m, now, post, fx),
        pre.token() is None,
    ensures
        no_calls(fx),
{
}

proof fn prefs_make_no_calls(pre: App, m: PrefsMessage, now: Now, post: App, fx: Seq<EffectView>)
    requires
        prefs_step(pre, m, now, post, fx),
        pre.token() is None,
    ensures
        no_calls(fx),
{
}

proof fn voice_make_no_calls(pre: App, m: VoiceMessage, now: Now, post: App, fx: Seq<EffectView>)
    requires
        voice_step(pre, m, now, post, fx),
        pre.token() is None,
    ensures
        no_calls(fx),
{
}

proof fn calls_make_no_calls(pre: App, m: CallMessage, now: Now, post: App, fx: Seq<EffectView>)
    requires
        call_step(pre, m, now, post, fx),
        pre.token() is None,
    ensures
        no_calls(fx),
{
}

proof fn admin_make_no_calls(pre: App, m: AdminMessage, now: Now, post: App, fx: Seq<EffectView>)
    requires
        admin_step(pre, m, now, post, fx),
        pre.token() is None,
    ensures
        no_calls(fx),
{
}

proof fn palette_make_no_calls(pre: App, m: PaletteMessage, now: Now, post: App, fx: Seq<EffectView>)
    requires
        palette_step(pre, m, now, post, fx),
        pre.token() is None,
    ensures
        no_calls(fx),
{
}

proof fn profile_make_no_calls(pre: App, m: ProfileMessage, now: Now, post: App, fx: Seq<EffectView>)
    requires
        profile_step(pre, m, now, post, fx),
        pre.token() is None,
    ensures
        no_calls(fx),
{
    assert forall|images: Map<Seq<char>, Vec<u8>>, jobs: Seq<ImageJobView>| no_calls(
        #[trigger] fetches(images, jobs),
    ) by {
        lemma_fetches(images, jobs);
    }
}

proof fn bots_make_no_calls(pre: App, m: BotMessage, now: Now, post: App, fx: Seq<EffectView>)
    requires
        bot_step(pre, m, now, post, fx),
        pre.token() is None,
    ensures
        no_calls(fx),
{
}

/// While we are not connected or not signed in, no backend function is called
/// and nothing is uploaded, but for what signing in takes.
pub proof fn no_calls_signed_out(pre: App, m: Message, now: Now, post: App, fx: Seq<EffectView>)
    requires
        step(pre, m, now, post, fx),
        pre.token() is None,
        !(m is Auth),
    ensures
        no_calls(fx),
{
    match m {
        Message::Auth(_) => {},
        Message::Window(m) => window_make_no_calls(pre, m, now, post, fx),
        Message::Social(m) => social_make_no_calls(pre, m, now, post, fx),
        Message::Peer(m) => peers_make_no_calls(pre, m, now, post, fx),
        Message::Feed(m) => feed_make_no_calls(pre, m, now, post, fx),
        Message::Room(m) => rooms_make_no_calls(pre, m, now, post, fx),
        Message::Server(m) => servers_make_no_calls(pre, m, now, post, fx),
        Message::Channel(m) => channels_make_no_calls(pre, m, now, post, fx),
        Message::Role(m) => roles_make_no_calls(pre, m, now, post, fx),
        Message::Compose(m) => compose_make_no_calls(pre, m, now, post, fx),
        Message::Prefs(m) => prefs_make_no_calls(pre, m, now, post, fx),
        Message::Voice(m) => voice_make_no_calls(pre, m, now, post, fx),
        Message::Call(m) => calls_make_no_calls(pre, m, now, post, fx),
        Message::Admin(m) => admin_make_no_calls(pre, m, now, post, fx),
        Message::Palette(m) => palette_make_no_calls(pre, m, now, post, fx),
        Message::Profile(m) => profile_make_no_calls(pre, m, now, post, fx),
        Message::Bot(m) => bots_make_no_calls(pre, m, now, post, fx),
    }
}

/// Signing out ends every live channel and leaves nothing of the session's
/// people and chats behind.
pub proof fn signing_out_forgets(pre: App, now: Now, post: App, fx: Seq<EffectView>)
    requires
        auth_step(pre, AuthMessage::LoggedOut, now, post, fx),
    ensures
        post.session is None,
        no_peers(post.peers),
        post.peers.vault_key is None,
        post.group_keys is None,
        post.place.conversation is None,
        post.chat.messages@.len() == 0,
        post.composer.sealing is None,
        post.social.friends@.len() == 0,
        post.inbox.conversations@.len() == 0,
        forall|id: Seq<char>|
            pre.peers.channels@.contains_key(id) ==> fx.contains(#[trigger] shutdown(id)),
{
    let order = pre.peers.channels.order();
    pre.peers.channels.order_lists_keys();
    assert forall|id: Seq<char>| pre.peers.channels@.contains_key(id) implies fx.contains(
        #[trigger] shutdown(id),
    ) by {
        assert(order.contains(id));
        let i = choose|i: int| 0 <= i < order.len() && order[i] == id;
        assert(fx[i] == shutdown(id));
    }
}

/// The effect seals the message, or gets at the key to seal it with.
pub open spec fn seals(e: EffectView) -> bool {
    e is SealMessage || e is LoadGroupKeys || e is ObtainGroupKey
}

/// A new message in a chat with a shared key is sealed before anything else:
/// it is handed to nobody as it was typed.
pub proof fn shared_chats_send_nothing_in_clear(pre: App, now: Now, post: App, fx: Seq<EffectView>)
    requires
        send_step(pre, now, post, fx),
        shared_key_kind(pre.place.kind),
        pre.composer.editing_id is None,
    ensures
        forall|i: int| 0 <= i < fx.len() ==> seals(#[trigger] fx[i]),
{
    reveal_strlit("direct");
    reveal_strlit("group");
    reveal_strlit("channel");
    reveal_strlit("voice");
    assert("direct"@[0] == 'd' && "group"@[0] == 'g' && "channel"@[0] == 'c' && "voice"@[0] == 'v');
}

/// So is the new body of an encrypted message in such a chat.
pub proof fn sealed_messages_are_edited_sealed(pre: App, now: Now, post: App, fx: Seq<EffectView>)
    requires
        send_step(pre, now, post, fx),
        shared_key_kind(pre.place.kind),
        pre.composer.editing_id is Some,
        pre.composer.editing_encrypted,
    ensures
        forall|i: int| 0 <= i < fx.len() ==> (#[trigger] fx[i]) is SealEdit,
{
    reveal_strlit("direct");
    reveal_strlit("group");
    reveal_strlit("channel");
    reveal_strlit("voice");
    assert("direct"@[0] == 'd' && "group"@[0] == 'g' && "channel"@[0] == 'c' && "voice"@[0] == 'v');
}

/// Nothing leaves a DM, neither to the friend nor to the backend, while the
/// live channel is down; the text stays in the composer.
pub proof fn dms_wait_for_their_channel(pre: App, now: Now, post: App, fx: Seq<EffectView>)
    requires
        send_step(pre, now, post, fx),
        text_is(pre.place.kind, "direct"@),
        dm_problem(pre) is Some,
    ensures
        fx.len() == 0,
        post.composer.input == pre.composer.input,
        post.composer.attachment == pre.composer.attachment,
{
}

/// Where we or the open DM do not store history, sending there leaves nothing
/// on the backend.
pub proof fn unstored_dms_leave_no_copy(pre: App, now: Now, post: App, fx: Seq<EffectView>)
    requires
        send_step(pre, now, post, fx),
        text_is(pre.place.kind, "direct"@),
        pre.session is Some,
        !pre.session->0.store_chat_history || !pre.chat.store_enabled,
    ensures
        no_calls(fx),
{
}

/// The same entry, or none, under a key.
pub open spec fn same_entry<V>(pre: Map<Seq<char>, V>, post: Map<Seq<char>, V>, key: Seq<char>) -> bool {
    pre.contains_key(key) == post.contains_key(key) && (pre.contains_key(key) ==> pre[key]
        == post[key])
}

/// What one friend's live channel reports changes nothing about another's.
pub proof fn live_channels_stay_apart(
    pre: App,
    peer_id: String,
    ev: PeerEvent,
    now: Now,
    post: App,
    fx: Seq<EffectView>,
    other: Seq<char>,
)
    requires
        peer_step(pre, PeerMessage::PeerEvent(peer_id, ev), now, post, fx),
        other != peer_id@,
    ensures
        same_entry(pre.peers.channels@, post.peers.channels@, other),
        same_entry(pre.peers.connected@, post.peers.connected@, other),
        same_entry(pre.peers.status@, post.peers.status@, other),
        same_entry(pre.peers.sas@, post.peers.sas@, other),
        same_entry(pre.peers.transport@, post.peers.transport@, other),
        same_entry(pre.peers.remote_fp@, post.peers.remote_fp@, other),
        same_entry(pre.peers.live@, post.peers.live@, other),
{
}

/// Wiping the open chat leaves the live messages of other friends alone, and
/// every picture that it does not show.
pub proof fn wiping_spares_other_chats(pre: App, post: App, other: Seq<char>, url: Seq<char>)
    requires
        wiped(pre, post),
    ensures
        !text_is(pre.place.peer_id, other) ==> same_entry(
            pre.peers.live@,
            post.peers.live@,
            other,
        ),
        !shows_picture(pre.chat.messages@, url) && !shows_picture(open_live(pre), url)
            ==> same_entry(pre.images@, post.images@, url),
{
}

/// A message that is sealed at once goes out as if there had been nothing
/// between the click and the send; and where it cannot be sealed, the composer
/// is as it was.
pub proof fn sealing_is_part_of_sending(
    pre: App,
    now: Now,
    mid: App,
    asked: Seq<EffectView>,
    sealed: Option<SealedMessage>,
    later: Now,
    post: App,
    fx: Seq<EffectView>,
    i: int,
)
    requires
        send_step(pre, now, mid, asked),
        pre.composer.sealing is None,
        0 <= i < asked.len(),
        asked[i] is SealMessage,
        compose_step(
            mid,
            ComposeMessage::MessageSealed(mid.composer.sealing->0.conversation_id, sealed),
            later,
            post,
            fx,
        ),
    ensures
        text_is(pre.place.conversation, asked[i]->SealMessage_conversation_id),
        match sealed {
            Some(s) => message_sent(
                pre,
                pre.token()->0,
                asked[i]->SealMessage_conversation_id,
                s.body@,
                true,
                sealed_attachment(s),
                post,
                fx,
            ),
            None => says(pre, "Could not encrypt message"@, post) && fx.len() == 0,
        },
{
    assert(mid.composer.sealing is Some);
    assert(draft_taken(pre, mid.composer.sealing->0, mid));
    assert(stop_typing(mid) == stop_typing(pre));
}

/// The effect, if it sends a message, sends it to this chat.
pub open spec fn goes_to(e: EffectView, conversation: Seq<char>) -> bool {
    let to = ("conversationId"@, ArgView::Str(conversation));
    match e {
        EffectView::Call(call) => call.args.contains(to),
        EffectView::Upload { send, .. } => send.args.contains(to),
        _ => true,
    }
}

/// What was sealed for a chat is sent to that chat, whichever is open when the
/// seal is there; and what was sealed for another chat than the one that is
/// waited for is not sent at all.
pub proof fn sealed_messages_reach_their_chat(
    pre: App,
    conversation: String,
    sealed: Option<SealedMessage>,
    now: Now,
    post: App,
    fx: Seq<EffectView>,
)
    requires
        compose_step(pre, ComposeMessage::MessageSealed(conversation, sealed), now, post, fx),
    ensures
        forall|i: int| 0 <= i < fx.len() ==> goes_to(#[trigger] fx[i], conversation@),
        !(pre.composer.sealing matches Some(d) && d.conversation_id@ == conversation@) ==> fx.len()
            == 0 && post == pre,
{
    let to = ("conversationId"@, ArgView::Str(conversation@));
    if pre.composer.sealing is Some && pre.token() is Some && sealed is Some {
        let d = pre.composer.sealing->0;
        let t = pre.token()->0;
        let reply = match d.reply {
            Some(r) => Some(r.0@),
            None => None,
        };
        let args = message_args(conversation@, sealed->0.body@, true, reply);
        assert(args[0] == to);
        let call = send_call(t, conversation@, sealed->0.body@, true, reply);
        assert(call.args.contains(to)) by {
            assert(call.args[1] == args[0]);
        }
    }
}

/// While a message is being sealed the composer counts as busy: together with
/// [`sends_do_not_overlap`] no second one is sent meanwhile.
pub proof fn sealing_keeps_busy(pre: App, now: Now, post: App, fx: Seq<EffectView>, i: int)
    requires
        send_step(pre, now, post, fx),
        0 <= i < fx.len(),
        fx[i] is SealMessage || fx[i] is SealEdit,
    ensures
        post.composer.send_busy,
        post.composer.sealing is Some,
{
}

/// While a message is being sealed or on its way, sending does nothing.
pub proof fn sends_do_not_overlap(pre: App, now: Now, post: App, fx: Seq<EffectView>)
    requires
        send_step(pre, now, post, fx),
        pre.composer.send_busy,
    ensures
        post == pre,
        fx.len() == 0,
{
}

// ---------- What every message keeps ----------

/// The members chosen for a new group are listed in order, each once; a call
/// has an engine exactly where we have a part in it; who is marked as typing
/// has a time since when; and while something is being sealed the composer is
/// busy.
pub open spec fn consistent(app: App) -> bool {
    &&& app.groups.selected.wf()
    &&& app.calls.role is Some == app.calls.engine_key is Some
    &&& app.composer.typing_active ==> app.composer.last_typing_ping is Some
    &&& app.composer.sealing is Some ==> app.composer.send_busy
}

/// The client starts in a consistent state.
pub proof fn the_start_is_consistent(app: App, config: Config, token: Option<String>, audio: SavedAudio)
    requires
        starts_with(app, config, token, audio),
    ensures
        consistent(app),
{
}

proof fn window_stay_consistent(pre: App, m: WindowMessage, now: Now, post: App, fx: Seq<EffectView>)
    requires
        window_step(pre, m, now, post, fx),
        consistent(pre),
    ensures
        consistent(post),
        post.config == pre.config,
{
}

proof fn social_stay_consistent(pre: App, m: SocialMessage, now: Now, post: App, fx: Seq<EffectView>)
    requires
        social_step(pre, m, now, post, fx),
        consistent(pre),
    ensures
        consistent(post),
        post.config == pre.config,
{
}

proof fn peers_stay_consistent(pre: App, m: PeerMessage, now: Now, post: App, fx: Seq<EffectView>)
    requires
        peer_step(pre, m, now, post, fx),
        consistent(pre),
    ensures
        consistent(post),
        post.config == pre.config,
{
}

proof fn feed_stay_consistent(pre: App, m: FeedMessage, now: Now, post: App, fx: Seq<EffectView>)
    requires
        feed_step(pre, m, now, post, fx),
        consistent(pre),
    ensures
        consistent(post),
        post.config == pre.config,
{
}

proof fn rooms_stay_consistent(pre: App, m: RoomMessage, now: Now, post: App, fx: Seq<EffectView>)
    requires
        room_step(pre, m, now, post, fx),
        consistent(pre),
    ensures
        consistent(post),
        post.config == pre.config,
{
}

proof fn servers_stay_consistent(pre: App, m: ServerMessage, now: Now, post: App, fx: Seq<EffectView>)
    requires
        server_step(pre, m, now, post, fx),
        consistent(pre),
    ensures
        consistent(post),
        post.config == pre.config,
{
}

proof fn channels_stay_consistent(pre: App, m: ChannelMessage, now: Now, post: App, fx: Seq<EffectView>)
    requires
        channel_step(pre, m, now, post, fx),
        consistent(pre),
    ensures
        consistent(post),
        post.config == pre.config,
{
}

proof fn roles_stay_consistent(pre: App, m: RoleMessage, now: Now, post: App, fx: Seq<EffectView>)
    requires
        role_step(pre, m, now, post, fx),
        consistent(pre),
    ensures
        consistent(post),
        post.config == pre.config,
{
}

proof fn compose_stay_consistent(pre: App, m: ComposeMessage, now: Now, post: App, fx: Seq<EffectView>)
    requires
        compose_step(pre, m, now, post, fx),
        consistent(pre),
    ensures
        consistent(post),
        post.config == pre.config,
{
}

proof fn prefs_stay_consistent(pre: App, m: PrefsMessage, now: Now, post: App, fx: Seq<EffectView>)
    requires
        prefs_step(pre, m, now, post, fx),
        consistent(pre),
    ensures
        consistent(post),
        post.config == pre.config,
{
}

proof fn voice_stay_consistent(pre: App, m: VoiceMessage, now: Now, post: App, fx: Seq<EffectView>)
    requires
        voice_step(pre, m, now, post, fx),
        consistent(pre),
    ensures
        consistent(post),
        post.config == pre.config,
{
}

proof fn calls_stay_consistent(pre: App, m: CallMessage, now: Now, post: App, fx: Seq<EffectView>)
    requires
        call_step(pre, m, now, post, fx),
        consistent(pre),
    ensures
        consistent(post),
        post.config == pre.config,
{
}

proof fn admin_stay_consistent(pre: App, m: AdminMessage, now: Now, post: App, fx: Seq<EffectView>)
    requires
        admin_step(pre, m, now, post, fx),
        consistent(pre),
    ensures
        consistent(post),
        post.config == pre.config,
{
}

proof fn palette_stay_consistent(pre: App, m: PaletteMessage, now: Now, post: App, fx: Seq<EffectView>)
    requires
        palette_step(pre, m, now, post, fx),
        consistent(pre),
    ensures
        consistent(post),
        post.config == pre.config,
{
}

proof fn profile_stay_consistent(pre: App, m: ProfileMessage, now: Now, post: App, fx: Seq<EffectView>)
    requires
        profile_step(pre, m, now, post, fx),
        consistent(pre),
    ensures
        consistent(post),
        post.config == pre.config,
{
}

proof fn bots_stay_consistent(pre: App, m: BotMessage, now: Now, post: App, fx: Seq<EffectView>)
    requires
        bot_step(pre, m, now, post, fx),
        consistent(pre),
    ensures
        consistent(post),
        post.config == pre.config,
{
}

proof fn auth_stay_consistent(pre: App, m: AuthMessage, now: Now, post: App, fx: Seq<EffectView>)
    requires
        auth_step(pre, m, now, post, fx),
        consistent(pre),
    ensures
        consistent(post),
        post.config == pre.config,
{
}

/// Every message leaves a consistent state consistent, and what the client is
/// built with as it is.
pub proof fn messages_keep_the_state_consistent(pre: App, m: Message, now: Now, post: App, fx: Seq<EffectView>)
    requires
        step(pre, m, now, post, fx),
        consistent(pre),
    ensures
        consistent(post),
        post.config == pre.config,
{
    match m {
        Message::Window(m) => window_stay_consistent(pre, m, now, post, fx),
        Message::Social(m) => social_stay_consistent(pre, m, now, post, fx),
        Message::Peer(m) => peers_stay_consistent(pre, m, now, post, fx),
        Message::Feed(m) => feed_stay_consistent(pre, m, now, post, fx),
        Message::Room(m) => rooms_stay_consistent(pre, m, now, post, fx),
        Message::Server(m) => servers_stay_consistent(pre, m, now, post, fx),
        Message::Channel(m) => channels_stay_consistent(pre, m, now, post, fx),
        Message::Role(m) => roles_stay_consistent(pre, m, now, post, fx),
        Message::Compose(m) => compose_stay_consistent(pre, m, now, post, fx),
        Message::Prefs(m) => prefs_stay_consistent(pre, m, now, post, fx),
        Message::Voice(m) => voice_stay_consistent(pre, m, now, post, fx),
        Message::Call(m) => calls_stay_consistent(pre, m, now, post, fx),
        Message::Admin(m) => admin_stay_consistent(pre, m, now, post, fx),
        Message::Palette(m) => palette_stay_consistent(pre, m, now, post, fx),
        Message::Profile(m) => profile_stay_consistent(pre, m, now, post, fx),
        Message::Bot(m) => bots_stay_consistent(pre, m, now, post, fx),
        Message::Auth(m) => auth_stay_consistent(pre, m, now, post, fx),
    }
}

} // verus!

