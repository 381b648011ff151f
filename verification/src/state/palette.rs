//! The command palette.

use crate::state::app::{query, toasts, App, Now, Palette};
use crate::state::effect::{
    nothing, views, Arg, ArgView, CallKind, Effect, EffectView, Reply,
};
use crate::state::keyed::{find, row};
use crate::state::message::PaletteMessage;
use crate::state::rooms::{channel_opened, listed_opened};
use crate::text::{byte_len, cat2, cat5, text_len, trim, trimmed};
use vstd::prelude::*;

verus! {

/// The palette is empty.
pub open spec fn palette_emptied(p: Palette, open: bool) -> bool {
    p.open == open && p.query@.len() == 0 && p.hits@.len() == 0
}

/// The line by which a hit of the search is shown.
pub open spec fn hit_line(conversation: Seq<char>, author: Seq<char>, body: Seq<char>) -> Seq<char> {
    "#"@ + conversation + " · "@ + author + (": "@ + body)
}

/// [`hit_line`], computed.
pub fn search_hit_line(conversation: &str, author: &str, body: &str) -> (r: String)
    ensures
        r@ == hit_line(conversation@, author@, body@),
{
    cat5("#", conversation, " · ", author, &cat2(": ", body))
}

/// What typing in the palette does: two bytes and more are searched for.
pub open spec fn search_step(pre: App, q: String, post: App, fx: Seq<EffectView>) -> bool {
    if byte_len(trimmed(q@)) < 2 {
        &&& post == (App {
            palette: Palette { query: q, hits: post.palette.hits, ..pre.palette },
            ..pre
        })
        &&& post.palette.hits@.len() == 0
        &&& fx.len() == 0
    } else {
        &&& post == (App { palette: Palette { query: q, ..pre.palette }, ..pre })
        &&& fx == query(
            pre,
            "messages:search"@,
            seq![("query"@, ArgView::Str(q@))],
            Reply::CommandPaletteSearchFinished,
        )
    }
}

/// What picking a hit does: a channel of the selected server is opened as
/// such, anything else as a chat of the list.
pub open spec fn pick_step(pre: App, at: usize, post: App, fx: Seq<EffectView>) -> bool {
    if at >= pre.palette.hits@.len() {
        post == pre && fx.len() == 0
    } else {
        let id = (pre.palette.hits@[at as int].0)@;
        let closed = App { palette: post.palette, ..pre };
        &&& palette_emptied(post.palette, false)
        &&& match row(pre.servers.channels@, id) {
            Some(c) => channel_opened(closed, c, post, fx),
            None => match row(pre.inbox.conversations@, id) {
                Some(c) => listed_opened(closed, c, post, fx),
                None => post == closed && fx.len() == 0,
            },
        }
    }
}

/// What a message about the palette does.
pub open spec fn palette_step(pre: App, m: PaletteMessage, now: Now, post: App, fx: Seq<EffectView>) -> bool {
    match m {
        PaletteMessage::OpenCommandPalette => {
            &&& fx.len() == 0
            &&& if pre.session is None {
                post == pre
            } else {
                &&& post == (App { palette: post.palette, ..pre })
                &&& palette_emptied(post.palette, true)
            }
        },
        PaletteMessage::CloseCommandPalette => {
            &&& post == (App { palette: post.palette, ..pre })
            &&& palette_emptied(post.palette, false)
            &&& fx.len() == 0
        },
        PaletteMessage::CommandPaletteQueryChanged(q) => search_step(pre, q, post, fx),
        PaletteMessage::CommandPaletteSearchFinished(Ok(hits)) => {
            &&& post == if pre.palette.open {
                App { palette: Palette { hits, ..pre.palette }, ..pre }
            } else {
                pre
            }
            &&& fx.len() == 0
        },
        PaletteMessage::CommandPaletteSearchFinished(Err(err)) => {
            &&& post == (App { toast: post.toast, ..pre })
            &&& toasts(post.toast, err@, now)
            &&& fx.len() == 0
        },
        PaletteMessage::CommandPalettePick(at) => pick_step(pre, at, post, fx),
    }
}

impl App {
    /// Closes the palette.
    pub fn empty_palette(&mut self, open: bool)
        ensures
            *final(self) == (App { palette: final(self).palette, ..*old(self) }),
            palette_emptied(final(self).palette, open),
    {
        self.palette.open = open;
        self.palette.query = String::new();
        self.palette.hits = Vec::new();
    }

    fn palette_query(&mut self, q: String) -> (fx: Vec<Effect>)
        ensures
            search_step(*old(self), q, *final(self), views(fx@)),
    {
        let short = text_len(&trim(&q)) < 2;
        let fx = if short {
            self.palette.hits = Vec::new();
            nothing()
        } else {
            self.ask1(
                CallKind::Query,
                "messages:search",
                "query",
                Arg::Str(q.clone()),
                Reply::CommandPaletteSearchFinished,
            )
        };
        self.palette.query = q;
        fx
    }

    fn palette_pick(&mut self, at: usize) -> (fx: Vec<Effect>)
        ensures
            pick_step(*old(self), at, *final(self), views(fx@)),
    {
        if at >= self.palette.hits.len() {
            return nothing();
        }
        let id = self.palette.hits[at].0.clone();
        self.empty_palette(false);
        if find(&self.servers.channels, &id).is_some() {
            self.open_channel(&id)
        } else {
            self.open_listed(&id)
        }
    }

    /// Handles a message about the palette.
    pub fn update_palette(&mut self, m: PaletteMessage, now: Now) -> (fx: Vec<Effect>)
        ensures
            palette_step(*old(self), m, now, *final(self), views(fx@)),
    {
        match m {
            PaletteMessage::OpenCommandPalette => {
                if self.session.is_some() {
                    self.empty_palette(true);
                }
                nothing()
            },
            PaletteMessage::CloseCommandPalette => {
                self.empty_palette(false);
                nothing()
            },
            PaletteMessage::CommandPaletteQueryChanged(q) => self.palette_query(q),
            PaletteMessage::CommandPaletteSearchFinished(Ok(hits)) => {
                if self.palette.open {
                    self.palette.hits = hits;
                }
                nothing()
            },
            PaletteMessage::CommandPaletteSearchFinished(Err(err)) => {
                self.show_toast(&err, now);
                nothing()
            },
            PaletteMessage::CommandPalettePick(at) => self.palette_pick(at),
        }
    }
}

} // verus!
