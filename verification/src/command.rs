//! A store that one thread owns and serves to others by commands.
//!
//! The owner takes one command at a time off a channel, lets [`server`]
//! decide, and sends the response back. The decisions are here; the
//! channels belong to whoever runs the loop.

use vstd::prelude::*;

use crate::data::{Ticket, TicketData, TicketDraft};
use crate::model::StoreModel;
use crate::store::{TicketId, TicketStoreInternal};

verus! {

/// What a client can ask of the store.
pub enum Command {
    /// Create a ticket from a draft.
    Insert { draft: TicketDraft },
    /// Look for the ticket with an identifier.
    Get { id: TicketId },
}

/// What the store answers.
pub enum Response {
    /// The identifier that the new ticket was given.
    Inserted { id: TicketId },
    /// A copy of the ticket, if there is one under the identifier.
    Found { ticket: Option<Ticket> },
}

/// What a response holds, as plain values.
pub enum ResponseData {
    Inserted { id: nat },
    Found { ticket: Option<TicketData> },
}

impl View for Response {
    type V = ResponseData;

    open spec fn view(&self) -> ResponseData {
        match self {
            Response::Inserted { id } => ResponseData::Inserted { id: id.0 as nat },
            Response::Found { ticket } => ResponseData::Found {
                ticket: match ticket {
                    Some(ticket) => Some(ticket@),
                    None => None,
                },
            },
        }
    }
}

/// The state in which a command leaves the store.
pub open spec fn after_command(store: StoreModel, command: Command) -> StoreModel {
    match command {
        Command::Insert { draft } => store.add(draft@),
        Command::Get { id } => store,
    }
}

/// The response that a command gets in the state `store`.
pub open spec fn response_to(store: StoreModel, command: Command) -> ResponseData {
    match command {
        Command::Insert { draft } => ResponseData::Inserted { id: store.next_id() },
        Command::Get { id } => ResponseData::Found { ticket: store.get(id.0 as nat) },
    }
}

/// Serves one command: an insertion stores a new ticket and answers with
/// its identifier, a lookup answers with a copy of the ticket or with
/// nothing and leaves the store as it is.
///
/// An insertion needs an identifier that is still free.
pub fn server(store: &mut TicketStoreInternal, command: Command) -> (response: Response)
    requires
        old(store).wf(),
        command is Insert ==> old(store)@.counter < u64::MAX,
    ensures
        final(store).wf(),
        final(store)@ == after_command(old(store)@, command),
        response@ == response_to(old(store)@, command),
{
    match command {
        Command::Insert { draft } => {
            let id = store.add_ticket(draft);
            Response::Inserted { id }
        },
        Command::Get { id } => {
            let ticket = match store.get(id) {
                Some(record) => Some(record.read()),
                None => None,
            };
            Response::Found { ticket }
        },
    }
}

} // verus!
