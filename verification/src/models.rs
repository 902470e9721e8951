//! Rows of the membership store: one tracked group per row.

use vstd::prelude::*;

verus! {

/// Mathematical value of a stored chat row.
pub struct ChatV {
    pub id: int,
    pub title: Seq<char>,
    pub description: Seq<char>,
    pub last_updated: int,
}

/// One tracked group, keyed by its platform chat id. `last_updated` is a
/// unix timestamp in seconds.
pub struct Chat {
    pub id: i64,
    pub title: String,
    pub description: String,
    pub last_updated: i64,
}

impl View for Chat {
    type V = ChatV;

    open spec fn view(&self) -> ChatV {
        ChatV {
            id: self.id as int,
            title: self.title@,
            description: self.description@,
            last_updated: self.last_updated as int,
        }
    }
}

impl Chat {
    /// A copy whose value is known to equal the original's.
    pub fn duplicate(&self) -> (r: Chat)
        ensures
            r@ == self@,
    {
        Chat {
            id: self.id,
            title: self.title.clone(),
            description: self.description.clone(),
            last_updated: self.last_updated,
        }
    }
}

/// A candidate row for insertion; the store fills in the timestamp.
pub struct NewChat {
    pub id: i64,
    pub title: String,
    pub description: String,
}

impl NewChat {
    /// The row this candidate becomes when inserted at time `now`.
    pub open spec fn as_row(&self, now: int) -> ChatV {
        ChatV {
            id: self.id as int,
            title: self.title@,
            description: self.description@,
            last_updated: now,
        }
    }
}

} // verus!
