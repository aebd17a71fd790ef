use ticket_store::data::{Status, TicketDescriptionError, TicketTitleError};
use ticket_store::server::{
    draft_from_body, error_handler, find_ticket, get_ticket, id_from_param, new_ticket,
    store_draft, CreateTicketRequest, CreateTicketResponse, DraftError, ErrorReply,
    FatalStoreError, Failure, GetTicketResponse, MyError, StatusCode,
};
use ticket_store::store::{TicketId, TicketStore, TicketStoreInternal};

fn create_ticket_request(n: u64) -> CreateTicketRequest {
    CreateTicketRequest {
        title: format!("Title {}", n).to_string(),
        description: format!("Description {}", n).to_string(),
    }
}

fn status_of(failure: Failure) -> u16 {
    error_handler(failure).unwrap().status.code()
}

#[test]
fn basic_server_functions() {
    let store = TicketStore::new();

    let create_ticket_req = create_ticket_request(1);

    let response = new_ticket(&store, Some(create_ticket_req));

    assert_eq!(StatusCode::Success.code(), 200);
    let response_body: CreateTicketResponse = response.unwrap();
    assert_eq!(response_body.ticket_id, 0.into());
}

#[test]
fn multiple_tickets_are_properly_stored_and_can_be_retrieved() {
    let store = TicketStore::new();

    for n in 1..3 {
        let new_ticket_req = create_ticket_request(n);
        let new_ticket_resp = new_ticket(&store, Some(new_ticket_req.clone()));

        let ticket_id: TicketId = new_ticket_resp.unwrap().ticket_id;

        let param = ticket_id.0.to_string();
        let get_ticket_resp = get_ticket(&store, Some(&param));
        let retreived_ticket = get_ticket_resp.unwrap().0;

        assert_eq!(retreived_ticket.title.as_str(), new_ticket_req.title);
        assert_eq!(retreived_ticket.description.as_str(), new_ticket_req.description);
        assert_eq!(retreived_ticket.status, Status::ToDo);
        assert_eq!(retreived_ticket.id, ticket_id);
    }
}

#[test]
fn malformed_new_ticket_request() {
    let store = TicketStore::new();

    let response = new_ticket(&store, None);

    let failure = response.unwrap_err();
    assert_eq!(failure, Failure::Rejected(MyError::BadRequest("Failed to parse.".to_string())));
    assert_eq!(status_of(failure), 400);
    let reader = store.read();
    assert_eq!(reader.len(), 0);
    reader.release();
}

#[test]
fn malformed_get_request() {
    let store = TicketStore::new();

    let ticket_req = CreateTicketRequest {
        title: "Really really long title, so long that it does not really fit in and it will fail validation and everything will blow up".to_string(),
        description: "Description".to_string(),
    };

    let response = new_ticket(&store, Some(ticket_req));

    let failure = response.unwrap_err();
    assert_eq!(
        failure,
        Failure::Rejected(MyError::BadRequest(
            "Malformed ticket: The title cannot be longer than 50 bytes".to_string()
        ))
    );
    assert_eq!(status_of(failure), 400);
    let reader = store.read();
    assert_eq!(reader.len(), 0);
    reader.release();
}

#[test]
fn ticket_not_found() {
    let store = TicketStore::new();

    let response = get_ticket(&store, Some("333"));

    let error = response.unwrap_err();
    assert_eq!(error, MyError::NotFound("Ticket not found".to_string()));
    assert_eq!(status_of(Failure::Rejected(error)), 404);
}

#[test]
fn create_then_get_then_create_again() {
    let store = TicketStore::new();
    let request =
        CreateTicketRequest { title: "Title 1".to_string(), description: "Description 1".to_string() };
    assert_eq!(new_ticket(&store, Some(request)), Ok(CreateTicketResponse { ticket_id: TicketId(0) }));

    let GetTicketResponse(ticket) = get_ticket(&store, Some("0")).unwrap();
    assert_eq!(ticket.id, TicketId(0));
    assert_eq!(ticket.title.as_str(), "Title 1");
    assert_eq!(ticket.description.as_str(), "Description 1");
    assert_eq!(ticket.status.as_str(), "to-do");

    assert_eq!(
        new_ticket(&store, Some(create_ticket_request(2))),
        Ok(CreateTicketResponse { ticket_id: TicketId(1) })
    );
    assert_eq!(get_ticket(&store, Some("1")).unwrap().0.title.as_str(), "Title 2");
    assert_eq!(get_ticket(&store, Some("0")).unwrap().0.title.as_str(), "Title 1");
}

#[test]
fn refused_bodies_leave_the_count_as_it_was() {
    let store = TicketStore::new();
    new_ticket(&store, Some(create_ticket_request(1))).unwrap();
    let refused = [
        None,
        Some(CreateTicketRequest { title: String::new(), description: "Description".to_string() }),
        Some(CreateTicketRequest { title: "t".repeat(51), description: String::new() }),
        Some(CreateTicketRequest { title: "Title".to_string(), description: "d".repeat(501) }),
    ];
    for body in refused {
        let failure = new_ticket(&store, body).unwrap_err();
        assert_eq!(status_of(failure), 400);
        let reader = store.read();
        assert_eq!(reader.len(), 1);
        reader.release();
    }
    assert_eq!(new_ticket(&store, Some(create_ticket_request(2))).unwrap().ticket_id, TicketId(1));
}

#[test]
fn the_title_is_looked_at_first() {
    let both_wrong = CreateTicketRequest { title: String::new(), description: "d".repeat(501) };
    assert_eq!(both_wrong.try_into(), Err(DraftError::Title(TicketTitleError::Empty)));
    let long_description =
        CreateTicketRequest { title: "Title".to_string(), description: "d".repeat(501) };
    assert_eq!(
        long_description.try_into(),
        Err(DraftError::Description(TicketDescriptionError::TooLong))
    );
    let fine = CreateTicketRequest { title: "Title".to_string(), description: String::new() };
    let draft = fine.try_into().unwrap();
    assert_eq!(draft.title.as_str(), "Title");
    assert_eq!(draft.description.as_str(), "");
}

#[test]
fn body_failures_say_why() {
    assert_eq!(draft_from_body(None), Err(MyError::BadRequest("Failed to parse.".to_string())));
    let empty_title =
        CreateTicketRequest { title: String::new(), description: "Description".to_string() };
    assert_eq!(
        draft_from_body(Some(empty_title)),
        Err(MyError::BadRequest("Malformed ticket: The title cannot be empty".to_string()))
    );
    let long_description =
        CreateTicketRequest { title: "Title".to_string(), description: "d".repeat(501) };
    assert_eq!(
        draft_from_body(Some(long_description)),
        Err(MyError::BadRequest(
            "Malformed ticket: The description cannot be longer than 500 bytes".to_string()
        ))
    );
    assert_eq!(DraftError::Title(TicketTitleError::Empty).to_string(), "The title cannot be empty");
}

#[test]
fn parameters_are_read_as_numbers() {
    assert_eq!(id_from_param(Some("0")), Ok(TicketId(0)));
    assert_eq!(id_from_param(Some("18446744073709551615")), Ok(TicketId(u64::MAX)));
    assert_eq!(
        id_from_param(None),
        Err(MyError::BadRequest("Missing id parameter".to_string()))
    );
    for text in ["", "abc", "-1", "1.5", "18446744073709551616"] {
        assert_eq!(
            id_from_param(Some(text)),
            Err(MyError::BadRequest("Wrong id parameter".to_string()))
        );
    }
}

#[test]
fn get_with_a_bad_parameter_is_a_bad_request() {
    let store = TicketStore::new();
    new_ticket(&store, Some(create_ticket_request(1))).unwrap();
    let missing = get_ticket(&store, None).unwrap_err();
    assert_eq!(missing.to_string(), "Bad request: Missing id parameter");
    assert_eq!(missing.status_code(), StatusCode::BadRequest);
    let wrong = get_ticket(&store, Some("zero")).unwrap_err();
    assert_eq!(wrong.to_string(), "Bad request: Wrong id parameter");
    assert_eq!(status_of(Failure::Rejected(wrong)), 400);
}

#[test]
fn errors_map_to_their_status_and_message() {
    let bad = MyError::BadRequest("Failed to parse.".to_string());
    assert_eq!(bad.status_code().code(), 400);
    assert_eq!(bad.to_string(), "Bad request: Failed to parse.");
    let missing = MyError::NotFound("Ticket not found".to_string());
    assert_eq!(missing.status_code().code(), 404);
    assert_eq!(missing.to_string(), "Not found: Ticket not found");
    assert_eq!(
        error_handler(Failure::Rejected(missing)),
        Ok(ErrorReply {
            status: StatusCode::NotFound,
            body: "Not found: Ticket not found".to_string()
        })
    );
    assert_eq!(
        error_handler(Failure::Rejected(bad)),
        Ok(ErrorReply {
            status: StatusCode::BadRequest,
            body: "Bad request: Failed to parse.".to_string()
        })
    );
}

#[test]
fn a_fatal_failure_is_not_mapped() {
    assert_eq!(
        error_handler(Failure::Fatal(FatalStoreError::IdentifiersExhausted)),
        Err(FatalStoreError::IdentifiersExhausted)
    );
}

#[test]
fn storing_and_finding_in_a_state() {
    let mut state = TicketStoreInternal::new();
    let draft = draft_from_body(Some(create_ticket_request(9))).unwrap();
    let stored = store_draft(&mut state, draft);
    assert_eq!(state.len(), 1);
    assert_eq!(stored, Ok(CreateTicketResponse { ticket_id: TicketId(0) }));

    let found = find_ticket(&state, TicketId(0));
    let missing = find_ticket(&state, TicketId(1));
    assert_eq!(found.ok().unwrap().read().title.as_str(), "Title 9");
    assert_eq!(missing.err(), Some(MyError::NotFound("Ticket not found".to_string())));
    assert_eq!(state.len(), 1);
}
