//! Opening the messages of groups and channels, and who can be mentioned in a
//! chat.

use crate::state::app::{everyone_kind, shared_key_kind, App};
use crate::state::keyed::{find, row};
use crate::state::lifecycle::is_shared_key_kind;
use crate::state::types::{Blob, ChatMessage, Friend, IncomingMessage, Opened, ServerMemberRow};
use crate::strmap::texts;
use crate::text::{chars_of, is_text, owned, same, text_is, text_of};
use crate::ui::mentions::{
    mentions_in, pair_names, pair_views, resolve_mentions, resolved_ids, suggest, suggests,
};
use vstd::prelude::*;

verus! {

// ---------- Opening messages ----------

/// A reply snippet is at most 80 characters long; what is longer is cut and
/// ends in an ellipsis.
pub open spec fn shortened(s: Seq<char>) -> Seq<char> {
    if s.len() > 80 {
        s.take(80).push('\u{2026}')
    } else {
        s
    }
}

/// [`shortened`], computed.
pub fn shorten(s: String) -> (r: String)
    ensures
        r@ == shortened(s@),
{
    let v = chars_of(&s);
    if v.len() > 80 {
        let mut t = text_of(&v, 0, 80);
        assert(v@.subrange(0, 80) =~= v@.take(80));
        t.push('\u{2026}');
        t
    } else {
        s
    }
}

/// Author and snippet of the message that is replied to.
pub open spec fn reply_view(r: Option<(String, String)>) -> Option<(Seq<char>, Seq<char>)> {
    match r {
        Some((author, snippet)) => Some((author@, snippet@)),
        None => None,
    }
}

/// The reply line of a message of an encrypted chat. `keyed` says whether the
/// chat's key is known, `failed` is shown for what could not be opened.
pub open spec fn opened_reply(m: IncomingMessage, keyed: bool, failed: Seq<char>) -> Option<
    (Seq<char>, Seq<char>),
> {
    match reply_view(m.message.reply_to) {
        Some((author, snippet)) => if !m.snippet.sealed {
            Some((author, snippet))
        } else {
            match m.snippet.opened {
                Some(o) => if keyed {
                    Some((author, shortened(o.text@)))
                } else {
                    Some((author, failed))
                },
                None => Some((author, failed)),
            }
        },
        None => None,
    }
}

/// The body of the message is opened: it is marked as encrypted, not deleted,
/// no call log, and has the shape of a ciphertext.
pub open spec fn body_sealed(m: IncomingMessage) -> bool {
    &&& m.message.encrypted
    &&& !m.message.deleted
    &&& m.message.kind@ != "call"@
    &&& m.body.sealed
}

/// `r` is the message of an encrypted chat after opening what is sealed in
/// it.
pub open spec fn opens_to(m: IncomingMessage, keyed: bool, failed: Seq<char>, r: ChatMessage) -> bool {
    &&& r == (ChatMessage {
        reply_to: r.reply_to,
        body: r.body,
        attachment_key: r.attachment_key,
        attachment_nonce: r.attachment_nonce,
        ..m.message
    })
    &&& reply_view(r.reply_to) == opened_reply(m, keyed, failed)
    &&& if !body_sealed(m) {
        &&& r.body == m.message.body
        &&& r.attachment_key == m.message.attachment_key
        &&& r.attachment_nonce == m.message.attachment_nonce
    } else if keyed && m.body.opened is Some {
        let o = m.body.opened->0;
        &&& r.body == o.text
        &&& r.attachment_key == o.attachment_key
        &&& r.attachment_nonce == o.attachment_nonce
    } else {
        &&& r.body@ == failed
        &&& r.attachment_key is None
        &&& r.attachment_nonce is None
    }
}

/// `r` are the messages after opening what is sealed in them: unchanged where
/// no encrypted chat is open.
pub open spec fn reads_as(app: App, list: Seq<IncomingMessage>, r: Seq<ChatMessage>) -> bool {
    &&& r.len() == list.len()
    &&& match app.place.conversation {
        Some(c) => if shared_key_kind(app.place.kind) {
            forall|i: int|
                0 <= i < list.len() ==> opens_to(
                    #[trigger] list[i],
                    app.key_of(c@) is Some,
                    app.config.decrypt_failed@,
                    r[i],
                )
        } else {
            forall|i: int| 0 <= i < list.len() ==> #[trigger] r[i] == list[i].message
        },
        None => forall|i: int| 0 <= i < list.len() ==> #[trigger] r[i] == list[i].message,
    }
}

fn open_message(m: IncomingMessage, keyed: bool, failed: &str) -> (r: ChatMessage)
    ensures
        opens_to(m, keyed, failed@, r),
{
    let IncomingMessage { message, body, snippet } = m;
    let mut message = message;
    let Blob { sealed: snippet_sealed, opened: snippet_opened } = snippet;
    if snippet_sealed {
        match message.reply_to.take() {
            Some((author, _)) => {
                let text = match snippet_opened {
                    Some(o) => if keyed {
                        let Opened { text, attachment_key: _, attachment_nonce: _ } = o;
                        shorten(text)
                    } else {
                        owned(failed)
                    },
                    None => owned(failed),
                };
                message.reply_to = Some((author, text));
            },
            None => {},
        }
    }
    if !message.encrypted || message.deleted || same(&message.kind, "call") || !body.sealed {
        return message;
    }
    let Blob { sealed: _, opened } = body;
    match opened {
        Some(o) => {
            if keyed {
                let Opened { text, attachment_key, attachment_nonce } = o;
                message.body = text;
                message.attachment_key = attachment_key;
                message.attachment_nonce = attachment_nonce;
                return message;
            }
        },
        None => {},
    }
    message.body = owned(failed);
    message.attachment_key = None;
    message.attachment_nonce = None;
    message
}

impl App {
    /// Opens the messages of the open group or channel with its key; messages
    /// of other chats come back as they are.
    pub fn decrypt_incoming_messages(&self, list: Vec<IncomingMessage>) -> (r: Vec<ChatMessage>)
        ensures
            reads_as(*self, list@, r@),
    {
        let groupish = is_shared_key_kind(&self.place.kind);
        let keyed = match &self.place.conversation {
            Some(c) => self.group_key(c).is_some(),
            None => false,
        };
        let open = self.place.conversation.is_some() && groupish;
        let mut list = list;
        let ghost all = list@;
        let mut back: Vec<ChatMessage> = Vec::new();
        while list.len() > 0
            invariant
                list@ == all.take(list@.len() as int),
                list@.len() + back@.len() == all.len(),
                open ==> forall|i: int|
                    list@.len() <= i < all.len() ==> opens_to(
                        #[trigger] all[i],
                        keyed,
                        self.config.decrypt_failed@,
                        back@[all.len() - 1 - i],
                    ),
                !open ==> forall|i: int|
                    list@.len() <= i < all.len() ==> #[trigger] all[i].message == back@[all.len() - 1
                        - i],
            decreases list@.len(),
        {
            let ghost n = list@.len();
            match list.pop() {
                Some(m) => {
                    assert(m == all[n - 1]);
                    assert(list@ =~= all.take(n - 1));
                    if open {
                        let r = open_message(m, keyed, &self.config.decrypt_failed);
                        back.push(r);
                    } else {
                        let IncomingMessage { message, body: _, snippet: _ } = m;
                        back.push(message);
                    }
                },
                None => {},
            }
        }
        let ghost reversed = back@;
        let mut r: Vec<ChatMessage> = Vec::new();
        while back.len() > 0
            invariant
                reversed.len() == all.len(),
                back@ == reversed.take(back@.len() as int),
                back@.len() + r@.len() == all.len(),
                forall|i: int| 0 <= i < r@.len() ==> #[trigger] r@[i] == reversed[all.len() - 1 - i],
            decreases back@.len(),
        {
            let ghost n = back@.len();
            match back.pop() {
                Some(m) => {
                    assert(m == reversed[n - 1]);
                    assert(back@ =~= reversed.take(n - 1));
                    r.push(m);
                },
                None => {},
            }
        }
        assert(forall|i: int| 0 <= i < r@.len() ==> #[trigger] r@[i] == reversed[all.len() - 1 - i]);
        r
    }
}

// ---------- Who can be mentioned ----------

/// The shown names of friends.
pub open spec fn friend_names(friends: Seq<Friend>) -> Seq<Seq<char>> {
    Seq::new(friends.len(), |i: int| friends[i].shown_name())
}

/// The shown names and ids of friends.
pub open spec fn friend_pairs(friends: Seq<Friend>) -> Seq<(Seq<char>, Seq<char>)> {
    Seq::new(friends.len(), |i: int| (friends[i].shown_name(), friends[i].user_id@))
}

/// The display names of members.
pub open spec fn member_names(members: Seq<ServerMemberRow>) -> Seq<Seq<char>> {
    Seq::new(members.len(), |i: int| members[i].display_name@)
}

/// The display names and ids of members.
pub open spec fn member_pairs(members: Seq<ServerMemberRow>) -> Seq<(Seq<char>, Seq<char>)> {
    Seq::new(members.len(), |i: int| (members[i].display_name@, members[i].user_id@))
}

impl App {
    /// The friend that the open DM is with.
    pub open spec fn dm_friend(&self) -> Option<Friend> {
        match self.place.peer_id {
            Some(id) => row(self.social.friends@, id@),
            None => None,
        }
    }

    /// The people that the composer offers behind an `@`: the members of the
    /// open channel, the friends in a group, the peer in a DM, or all friends
    /// where the peer is not known.
    pub open spec fn people_names(&self) -> Seq<Seq<char>> {
        if text_is(self.place.kind, "channel"@) || text_is(self.place.kind, "voice"@) {
            member_names(self.servers.members@)
        } else if text_is(self.place.kind, "group"@) {
            friend_names(self.social.friends@)
        } else {
            match self.dm_friend() {
                Some(f) => seq![f.shown_name()],
                None => friend_names(self.social.friends@),
            }
        }
    }

    /// Names that the composer offers behind an `@`: people, and `everyone`
    /// only where that pings the room.
    pub open spec fn mention_names(&self) -> Seq<Seq<char>> {
        if everyone_kind(self.place.kind) {
            self.people_names().push("everyone"@)
        } else {
            self.people_names()
        }
    }

    /// Names and ids that an outgoing message is resolved against.
    pub open spec fn mention_pairs(&self) -> Seq<(Seq<char>, Seq<char>)> {
        if text_is(self.place.kind, "channel"@) || text_is(self.place.kind, "voice"@) {
            member_pairs(self.servers.members@)
        } else if text_is(self.place.kind, "group"@) {
            friend_pairs(self.social.friends@)
        } else {
            match self.dm_friend() {
                Some(f) => seq![(f.shown_name(), f.user_id@)],
                None => friend_pairs(self.social.friends@),
            }
        }
    }

    /// The names by which the signed-in user can be pinged.
    pub open spec fn my_names(&self) -> Seq<Seq<char>> {
        match self.session {
            Some(s) => seq![s.display_name@, s.username@],
            None => Seq::empty(),
        }
    }

    /// [`App::my_names`], computed.
    pub fn my_mention_names(&self) -> (r: Vec<String>)
        ensures
            texts(r@) == self.my_names(),
    {
        match &self.session {
            Some(s) => {
                let r = vec![s.display_name.clone(), s.username.clone()];
                assert(texts(r@) =~= self.my_names());
                r
            },
            None => {
                let r: Vec<String> = Vec::new();
                assert(texts(r@) =~= self.my_names());
                r
            },
        }
    }

    fn all_friend_names(&self) -> (r: Vec<String>)
        ensures
            texts(r@) == friend_names(self.social.friends@),
    {
        let mut r: Vec<String> = Vec::new();
        let mut i: usize = 0;
        while i < self.social.friends.len()
            invariant
                i <= self.social.friends@.len(),
                r@.len() == i,
                forall|k: int|
                    0 <= k < i ==> (#[trigger] r@[k])@ == self.social.friends@[k].shown_name(),
            decreases self.social.friends@.len() - i,
        {
            r.push(owned(self.social.friends[i].label()));
            i += 1;
        }
        assert(texts(r@) =~= friend_names(self.social.friends@));
        r
    }

    fn all_member_names(&self) -> (r: Vec<String>)
        ensures
            texts(r@) == member_names(self.servers.members@),
    {
        let mut r: Vec<String> = Vec::new();
        let mut i: usize = 0;
        while i < self.servers.members.len()
            invariant
                i <= self.servers.members@.len(),
                r@.len() == i,
                forall|k: int|
                    0 <= k < i ==> (#[trigger] r@[k])@ == self.servers.members@[k].display_name@,
            decreases self.servers.members@.len() - i,
        {
            r.push(self.servers.members[i].display_name.clone());
            i += 1;
        }
        assert(texts(r@) =~= member_names(self.servers.members@));
        r
    }

    /// The position of the open DM's friend.
    fn dm_friend_index(&self) -> (r: Option<usize>)
        ensures
            match r {
                Some(i) => i < self.social.friends@.len() && self.dm_friend() == Some(
                    self.social.friends@[i as int],
                ),
                None => self.dm_friend() is None,
            },
    {
        match &self.place.peer_id {
            Some(id) => find(&self.social.friends, id),
            None => None,
        }
    }

    fn people(&self) -> (r: Vec<String>)
        ensures
            texts(r@) == self.people_names(),
    {
        if is_text(&self.place.kind, "channel") || is_text(&self.place.kind, "voice") {
            self.all_member_names()
        } else if is_text(&self.place.kind, "group") {
            self.all_friend_names()
        } else {
            match self.dm_friend_index() {
                Some(i) => {
                    let r = vec![owned(self.social.friends[i].label())];
                    assert(texts(r@) =~= self.people_names());
                    r
                },
                None => self.all_friend_names(),
            }
        }
    }

    fn mention_candidates(&self) -> (r: Vec<String>)
        ensures
            texts(r@) == self.mention_names(),
    {
        let mut r = self.people();
        if is_text(&self.place.kind, "channel") || is_text(&self.place.kind, "group") {
            r.push(owned("everyone"));
            assert(texts(r@) =~= self.mention_names());
        }
        r
    }

    /// What the composer's popup lists for the current input.
    pub fn compute_mention_suggestions(&self) -> (r: Vec<String>)
        ensures
            suggests(self.composer.input@, self.mention_names(), 8, texts(r@)),
    {
        let cands = self.mention_candidates();
        suggest(&self.composer.input, cands.as_slice(), 8)
    }

    /// [`App::mention_pairs`], computed.
    pub fn mention_id_candidates(&self) -> (r: Vec<(String, String)>)
        ensures
            pair_views(r@) == self.mention_pairs(),
    {
        let mut r: Vec<(String, String)> = Vec::new();
        if is_text(&self.place.kind, "channel") || is_text(&self.place.kind, "voice") {
            let mut i: usize = 0;
            while i < self.servers.members.len()
                invariant
                    i <= self.servers.members@.len(),
                    r@.len() == i,
                    forall|k: int|
                        0 <= k < i ==> pair_views(r@)[k] == #[trigger] member_pairs(
                            self.servers.members@,
                        )[k],
                decreases self.servers.members@.len() - i,
            {
                let m = &self.servers.members[i];
                r.push((m.display_name.clone(), m.user_id.clone()));
                i += 1;
            }
            assert(pair_views(r@) =~= self.mention_pairs());
            return r;
        }
        if !is_text(&self.place.kind, "group") {
            match self.dm_friend_index() {
                Some(i) => {
                    let f = &self.social.friends[i];
                    r.push((owned(f.label()), f.user_id.clone()));
                    assert(pair_views(r@) =~= self.mention_pairs());
                    return r;
                },
                None => {},
            }
        }
        let mut i: usize = 0;
        while i < self.social.friends.len()
            invariant
                i <= self.social.friends@.len(),
                r@.len() == i,
                forall|k: int|
                    0 <= k < i ==> pair_views(r@)[k] == #[trigger] friend_pairs(self.social.friends@)[k],
            decreases self.social.friends@.len() - i,
        {
            let f = &self.social.friends[i];
            r.push((owned(f.label()), f.user_id.clone()));
            i += 1;
        }
        assert(pair_views(r@) =~= self.mention_pairs());
        r
    }

    /// Ids without our own: our own messages never ping us.
    pub open spec fn not_me(&self, ids: Seq<Seq<char>>) -> Seq<Seq<char>>
        decreases ids.len(),
    {
        if ids.len() == 0 {
            Seq::empty()
        } else {
            let before = self.not_me(ids.drop_last());
            match self.session {
                Some(s) => if ids.last() == s.user_id@ {
                    before
                } else {
                    before.push(ids.last())
                },
                None => before.push(ids.last()),
            }
        }
    }

    /// The mentioned users of an outgoing body, and whether it pings
    /// everyone, which only channels and groups do.
    pub fn outgoing_mentions(&self, body: &str) -> (r: (Vec<String>, bool))
        ensures
            ({
                let pairs = self.mention_pairs();
                let ms = mentions_in(body@, pair_names(pairs));
                &&& texts((r.0)@) == self.not_me(resolved_ids(ms, pairs))
                &&& r.1 == (everyone_kind(self.place.kind) && exists|i: int|
                    0 <= i < ms.len() && (#[trigger] ms[i]).everyone)
            }),
    {
        let cands = self.mention_id_candidates();
        let (found, everyone) = resolve_mentions(body, cands.as_slice());
        let ghost all = texts(found@);
        let mut ids: Vec<String> = Vec::new();
        let mut i: usize = 0;
        assert(texts(ids@) =~= self.not_me(all.take(0)));
        while i < found.len()
            invariant
                i <= found@.len(),
                all == texts(found@),
                texts(ids@) == self.not_me(all.take(i as int)),
            decreases found@.len() - i,
        {
            assert(all.take(i + 1).drop_last() =~= all.take(i as int));
            assert(all.take(i + 1).last() == found@[i as int]@);
            let mine = match &self.session {
                Some(s) => same(&found[i], &s.user_id),
                None => false,
            };
            if !mine {
                let ghost before = texts(ids@);
                ids.push(found[i].clone());
                assert(texts(ids@) =~= before.push(found@[i as int]@));
            }
            i += 1;
        }
        assert(all.take(all.len() as int) =~= all);
        let allowed = is_text(&self.place.kind, "channel") || is_text(&self.place.kind, "group");
        (ids, everyone && allowed)
    }
}

} // verus!
