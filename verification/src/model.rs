//! The store as a mathematical value: what the contracts of the store and
//! of the handlers speak of.

use vstd::prelude::*;

use crate::data::{DraftData, Status, TicketData};

verus! {

/// The state of a store: the tickets by identifier, and the identifier that
/// the next ticket will get.
pub struct StoreModel {
    pub tickets: Map<nat, TicketData>,
    pub counter: nat,
}

impl StoreModel {
    /// The store in which nothing has been created yet.
    pub open spec fn empty() -> StoreModel {
        StoreModel { tickets: Map::empty(), counter: 0 }
    }

    /// What every store satisfies: the identifiers in use are exactly those
    /// below the counter, each ticket sits under its own identifier, its
    /// fields are acceptable, and it is still in its first status.
    pub open spec fn wf(self) -> bool {
        &&& forall|id: nat| #[trigger] self.tickets.contains_key(id) <==> id < self.counter
        &&& forall|id: nat| #[trigger]
            self.tickets.contains_key(id) ==> {
                &&& self.tickets[id].id == id
                &&& self.tickets[id].is_valid()
                &&& self.tickets[id].status == Status::ToDo
            }
    }

    /// The identifier that the next ticket gets.
    pub open spec fn next_id(self) -> nat {
        self.counter
    }

    /// The store after one more ticket has been made of `draft`.
    pub open spec fn add(self, draft: DraftData) -> StoreModel {
        StoreModel {
            tickets: self.tickets.insert(self.counter, TicketData::created(self.counter, draft)),
            counter: self.counter + 1,
        }
    }

    /// The ticket under `id`, if there is one.
    pub open spec fn get(self, id: nat) -> Option<TicketData> {
        if self.tickets.contains_key(id) {
            Some(self.tickets[id])
        } else {
            None
        }
    }

    /// Whether `later` can come after `self` in the life of one store: the
    /// counter has not gone back, and every ticket of `self` is in `later`
    /// under its identifier, as it was.
    pub open spec fn grows_into(self, later: StoreModel) -> bool {
        &&& self.counter <= later.counter
        &&& forall|id: nat| #[trigger]
            self.tickets.contains_key(id) ==> later.tickets.contains_key(id)
                && later.tickets[id] == self.tickets[id]
    }

    /// The number of tickets in the store.
    pub open spec fn len(self) -> nat {
        self.tickets.dom().len()
    }

    /// The store after a ticket has been made of each draft in turn.
    pub open spec fn add_all(self, drafts: Seq<DraftData>) -> StoreModel
        decreases drafts.len(),
    {
        if drafts.len() == 0 {
            self
        } else {
            self.add_all(drafts.drop_last()).add(drafts.last())
        }
    }
}

} // verus!
