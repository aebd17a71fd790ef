use ticket_store::command::{server, Command, Response};
use ticket_store::data::{Status, TicketDescription, TicketDraft, TicketTitle};
use ticket_store::store::{TicketId, TicketStoreInternal};

fn draft(title: &str, description: &str) -> TicketDraft {
    TicketDraft {
        title: TicketTitle::new(title.to_string()).unwrap(),
        description: TicketDescription::new(description.to_string()).unwrap(),
    }
}

#[test]
fn insert_answers_with_the_identifier() {
    let mut store = TicketStoreInternal::new();
    let first = server(&mut store, Command::Insert { draft: draft("One", "first") });
    let second = server(&mut store, Command::Insert { draft: draft("Two", "second") });
    assert!(matches!(first, Response::Inserted { id: TicketId(0) }));
    assert!(matches!(second, Response::Inserted { id: TicketId(1) }));
    assert_eq!(store.len(), 2);
}

#[test]
fn get_answers_with_a_copy_of_the_ticket() {
    let mut store = TicketStoreInternal::new();
    server(&mut store, Command::Insert { draft: draft("One", "first") });
    server(&mut store, Command::Insert { draft: draft("Two", "second") });
    match server(&mut store, Command::Get { id: TicketId(1) }) {
        Response::Found { ticket: Some(ticket) } => {
            assert_eq!(ticket.id, TicketId(1));
            assert_eq!(ticket.title.as_str(), "Two");
            assert_eq!(ticket.description.as_str(), "second");
            assert_eq!(ticket.status, Status::ToDo);
        }
        _ => panic!("the ticket was stored"),
    }
    assert_eq!(store.len(), 2);
}

#[test]
fn get_of_an_unknown_identifier_answers_with_nothing() {
    let mut store = TicketStoreInternal::new();
    assert!(matches!(
        server(&mut store, Command::Get { id: TicketId(0) }),
        Response::Found { ticket: None }
    ));
    server(&mut store, Command::Insert { draft: draft("One", "first") });
    assert!(matches!(
        server(&mut store, Command::Get { id: TicketId(333) }),
        Response::Found { ticket: None }
    ));
    assert_eq!(store.len(), 1);
}
