//! Looking rows up by their id.

use crate::state::types::{
    ChannelSummary, ConversationSummary, Friend, IncomingRequest, ServerRoleRow, ServerSummary,
};
use crate::text::same;
use vstd::prelude::*;

verus! {

/// A row that has an id.
pub trait Keyed: Sized {
    /// The id.
    spec fn id(&self) -> Seq<char>;

    /// Whether the row has this id.
    fn has_id(&self, id: &str) -> (r: bool)
        ensures
            r == (self.id() == id@),
    ;
}

impl Keyed for Friend {
    open spec fn id(&self) -> Seq<char> {
        self.user_id@
    }

    fn has_id(&self, id: &str) -> (r: bool) {
        same(&self.user_id, id)
    }
}

impl Keyed for ConversationSummary {
    open spec fn id(&self) -> Seq<char> {
        self.conversation_id@
    }

    fn has_id(&self, id: &str) -> (r: bool) {
        same(&self.conversation_id, id)
    }
}

impl Keyed for ChannelSummary {
    open spec fn id(&self) -> Seq<char> {
        self.conversation_id@
    }

    fn has_id(&self, id: &str) -> (r: bool) {
        same(&self.conversation_id, id)
    }
}

impl Keyed for ServerSummary {
    open spec fn id(&self) -> Seq<char> {
        self.server_id@
    }

    fn has_id(&self, id: &str) -> (r: bool) {
        same(&self.server_id, id)
    }
}

impl Keyed for ServerRoleRow {
    open spec fn id(&self) -> Seq<char> {
        self.role_id@
    }

    fn has_id(&self, id: &str) -> (r: bool) {
        same(&self.role_id, id)
    }
}

impl Keyed for IncomingRequest {
    open spec fn id(&self) -> Seq<char> {
        self.request_id@
    }

    fn has_id(&self, id: &str) -> (r: bool) {
        same(&self.request_id, id)
    }
}

/// Position of the first row with this id.
pub open spec fn position<T: Keyed>(list: Seq<T>, id: Seq<char>) -> Option<int>
    decreases list.len(),
{
    if list.len() == 0 {
        None
    } else {
        match position(list.drop_last(), id) {
            Some(i) => Some(i),
            None => if list.last().id() == id {
                Some(list.len() - 1)
            } else {
                None
            },
        }
    }
}

/// The first row with this id.
pub open spec fn row<T: Keyed>(list: Seq<T>, id: Seq<char>) -> Option<T> {
    match position(list, id) {
        Some(i) => Some(list[i]),
        None => None,
    }
}

/// What [`position`] means.
pub proof fn lemma_position<T: Keyed>(list: Seq<T>, id: Seq<char>)
    ensures
        match position(list, id) {
            Some(i) => {
                &&& 0 <= i < list.len()
                &&& list[i].id() == id
                &&& forall|j: int| 0 <= j < i ==> (#[trigger] list[j]).id() != id
            },
            None => forall|j: int| 0 <= j < list.len() ==> (#[trigger] list[j]).id() != id,
        },
    decreases list.len(),
{
    if list.len() > 0 {
        let t = list.drop_last();
        lemma_position(t, id);
        assert forall|j: int| 0 <= j < list.len() && position(list, id) is None implies (
        #[trigger] list[j]).id() != id by {
            if j < t.len() {
                assert(t[j].id() != id);
            }
        }
        match position(list, id) {
            Some(i) => {
                assert forall|j: int| 0 <= j < i implies (#[trigger] list[j]).id() != id by {
                    assert(t[j].id() != id);
                }
            },
            None => {},
        }
    }
}

/// A position with the properties of the first one is the first one.
pub proof fn lemma_position_is<T: Keyed>(list: Seq<T>, id: Seq<char>, i: int)
    requires
        0 <= i < list.len(),
        list[i].id() == id,
        forall|j: int| 0 <= j < i ==> (#[trigger] list[j]).id() != id,
    ensures
        position(list, id) == Some(i),
{
    lemma_position(list, id);
    match position(list, id) {
        Some(k) => {
            if k < i {
                assert(list[k].id() != id);
            }
            if i < k {
                assert(list[i].id() != id);
            }
        },
        None => {
            assert(list[i].id() != id);
        },
    }
}

/// [`position`], computed.
pub fn find<T: Keyed>(list: &Vec<T>, id: &str) -> (r: Option<usize>)
    ensures
        match r {
            Some(i) => i < list@.len() && list@[i as int].id() == id@ && position(list@, id@) == Some(
                i as int,
            ),
            None => position(list@, id@) is None,
        },
{
    let mut i: usize = 0;
    while i < list.len()
        invariant
            i <= list@.len(),
            forall|j: int| 0 <= j < i ==> (#[trigger] list@[j]).id() != id@,
        decreases list@.len() - i,
    {
        if list[i].has_id(id) {
            proof {
                lemma_position_is(list@, id@, i as int);
            }
            return Some(i);
        }
        i += 1;
    }
    proof {
        lemma_position(list@, id@);
    }
    None
}

} // verus!
