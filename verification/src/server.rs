//! The request handlers and the mapping of their failures to status codes.
//!
//! A handler takes what the transport has already decoded (the fields of a
//! body, a path parameter) and gives back a typed outcome; encoding the
//! outcome is left to the transport. Validation comes before any lock is
//! taken, so a request that is refused never reaches the store.

use vstd::prelude::*;
use vstd::utf8::encode_utf8;

use crate::data::{
    description_verdict, title_verdict, DraftData, Status, Ticket, TicketData, TicketDescription,
    TicketDescriptionError, TicketDraft, TicketTitle, TicketTitleError,
};
use crate::decimal::{parse_u64, parsed_u64};
use crate::model::StoreModel;
use crate::store::{SharedTicket, TicketId, TicketStore, TicketStoreInternal};

verus! {

/// The status classes that a reply can have.
#[derive(Clone, Copy, Debug, PartialEq, Eq, Structural)]
pub enum StatusCode {
    Success,
    BadRequest,
    NotFound,
}

impl StatusCode {
    /// The number of the status.
    pub open spec fn number(self) -> u16 {
        match self {
            StatusCode::Success => 200,
            StatusCode::BadRequest => 400,
            StatusCode::NotFound => 404,
        }
    }

    /// The status as the number that goes over the wire.
    pub fn code(&self) -> (number: u16)
        ensures
            number == self.number(),
    {
        match self {
            StatusCode::Success => 200,
            StatusCode::BadRequest => 400,
            StatusCode::NotFound => 404,
        }
    }
}

/// What a recoverable failure holds, as plain values.
pub enum ErrorData {
    BadRequest(Seq<char>),
    NotFound(Seq<char>),
}

impl ErrorData {
    /// The status that the failure is reported under.
    pub open spec fn status(self) -> StatusCode {
        match self {
            ErrorData::BadRequest(_) => StatusCode::BadRequest,
            ErrorData::NotFound(_) => StatusCode::NotFound,
        }
    }

    /// The message that the failure is reported with.
    pub open spec fn text(self) -> Seq<char> {
        match self {
            ErrorData::BadRequest(reason) => "Bad request: "@ + reason,
            ErrorData::NotFound(reason) => "Not found: "@ + reason,
        }
    }
}

/// The failures that a caller can recover from; each says what was wrong.
#[derive(Debug, PartialEq, Eq)]
pub enum MyError {
    BadRequest(String),
    NotFound(String),
}

impl View for MyError {
    type V = ErrorData;

    open spec fn view(&self) -> ErrorData {
        match self {
            MyError::BadRequest(reason) => ErrorData::BadRequest(reason@),
            MyError::NotFound(reason) => ErrorData::NotFound(reason@),
        }
    }
}

impl Clone for MyError {
    fn clone(&self) -> (copy: Self)
        ensures
            copy@ == self@,
    {
        match self {
            MyError::BadRequest(reason) => MyError::BadRequest(reason.clone()),
            MyError::NotFound(reason) => MyError::NotFound(reason.clone()),
        }
    }
}

impl MyError {
    /// The status that the error is reported under.
    pub fn status_code(&self) -> (status: StatusCode)
        ensures
            status == self@.status(),
    {
        match self {
            MyError::BadRequest(_) => StatusCode::BadRequest,
            MyError::NotFound(_) => StatusCode::NotFound,
        }
    }

    /// The message that the error is reported with: the kind, then the
    /// reason.
    pub fn to_string(&self) -> (message: String)
        ensures
            message@ == self@.text(),
    {
        match self {
            MyError::BadRequest(reason) => "Bad request: ".to_owned().concat(reason.as_str()),
            MyError::NotFound(reason) => "Not found: ".to_owned().concat(reason.as_str()),
        }
    }
}

/// The failures that no caller can recover from.
#[derive(Clone, Copy, Debug, PartialEq, Eq, Structural)]
pub enum FatalStoreError {
    /// Every identifier has been handed out.
    IdentifiersExhausted,
}

/// What a failure holds, as plain values.
pub enum FailureData {
    Rejected(ErrorData),
    Fatal(FatalStoreError),
}

/// Why a handler gave no result.
#[derive(Debug, PartialEq, Eq)]
pub enum Failure {
    Rejected(MyError),
    Fatal(FatalStoreError),
}

impl View for Failure {
    type V = FailureData;

    open spec fn view(&self) -> FailureData {
        match self {
            Failure::Rejected(error) => FailureData::Rejected(error@),
            Failure::Fatal(error) => FailureData::Fatal(*error),
        }
    }
}

impl Clone for Failure {
    fn clone(&self) -> (copy: Self)
        ensures
            copy@ == self@,
    {
        match self {
            Failure::Rejected(error) => Failure::Rejected(error.clone()),
            Failure::Fatal(error) => Failure::Fatal(*error),
        }
    }
}

/// The status and the body of the reply to a request that failed.
#[derive(Debug, PartialEq, Eq)]
pub struct ErrorReply {
    pub status: StatusCode,
    pub body: String,
}

impl Clone for ErrorReply {
    fn clone(&self) -> (copy: Self)
        ensures
            copy.status == self.status,
            copy.body@ == self.body@,
    {
        ErrorReply { status: self.status, body: self.body.clone() }
    }
}

/// Turns a failure into the reply that reports it. The two recoverable
/// kinds get their status and their message; a fatal failure is handed on
/// as it is and never reported as one of the two.
pub fn error_handler(failure: Failure) -> (outcome: Result<ErrorReply, FatalStoreError>)
    ensures
        match failure@ {
            FailureData::Rejected(error) => outcome matches Ok(reply) && reply.status
                == error.status() && reply.body@ == error.text(),
            FailureData::Fatal(error) => outcome == Err::<ErrorReply, _>(error),
        },
{
    match failure {
        Failure::Rejected(error) => Ok(
            ErrorReply { status: error.status_code(), body: error.to_string() },
        ),
        Failure::Fatal(error) => Err(error),
    }
}

/// The fields of a request for a new ticket, as plain values.
pub struct RequestData {
    pub title: Seq<char>,
    pub description: Seq<char>,
}

/// The body of a request for a new ticket, not yet validated.
#[derive(Debug, PartialEq, Eq)]
pub struct CreateTicketRequest {
    pub title: String,
    pub description: String,
}

impl Clone for CreateTicketRequest {
    fn clone(&self) -> (copy: Self)
        ensures
            copy@ == self@,
    {
        CreateTicketRequest { title: self.title.clone(), description: self.description.clone() }
    }
}

impl View for CreateTicketRequest {
    type V = RequestData;

    open spec fn view(&self) -> RequestData {
        RequestData { title: self.title@, description: self.description@ }
    }
}

/// Which field of a request was refused, and why.
#[derive(Clone, Copy, Debug, PartialEq, Eq, Structural)]
pub enum DraftError {
    Title(TicketTitleError),
    Description(TicketDescriptionError),
}

impl DraftError {
    /// The sentence that describes the error.
    pub open spec fn text(self) -> Seq<char> {
        match self {
            DraftError::Title(error) => error.text(),
            DraftError::Description(error) => error.text(),
        }
    }

    /// The sentence as a string.
    pub fn to_string(&self) -> (message: String)
        ensures
            message@ == self.text(),
    {
        match self {
            DraftError::Title(error) => error.to_string(),
            DraftError::Description(error) => error.to_string(),
        }
    }
}

/// The draft that a request makes: the title is looked at first, then the
/// description.
pub open spec fn draft_verdict(request: RequestData) -> Result<DraftData, DraftError> {
    match title_verdict(request.title) {
        Err(error) => Err(DraftError::Title(error)),
        Ok(_) => match description_verdict(request.description) {
            Err(error) => Err(DraftError::Description(error)),
            Ok(_) => Ok(DraftData { title: request.title, description: request.description }),
        },
    }
}

impl CreateTicketRequest {
    /// Validates the two fields and makes a draft of them.
    pub fn try_into(self) -> (outcome: Result<TicketDraft, DraftError>)
        ensures
            match outcome {
                Ok(draft) => draft_verdict(self@) == Ok::<_, DraftError>(draft@),
                Err(error) => draft_verdict(self@) == Err::<DraftData, _>(error),
            },
    {
        let title = match TicketTitle::new(self.title) {
            Ok(title) => title,
            Err(error) => return Err(DraftError::Title(error)),
        };
        let description = match TicketDescription::new(self.description) {
            Ok(description) => description,
            Err(error) => return Err(DraftError::Description(error)),
        };
        Ok(TicketDraft { title, description })
    }
}

/// The reply to a request that created a ticket.
#[derive(Clone, Copy, Debug, PartialEq, Eq, Structural)]
pub struct CreateTicketResponse {
    pub ticket_id: TicketId,
}

/// The reply to a request that asked for a ticket.
#[derive(Debug, PartialEq)]
pub struct GetTicketResponse(pub Ticket);

impl Clone for GetTicketResponse {
    fn clone(&self) -> (copy: Self)
        ensures
            copy.0@ == self.0@,
    {
        GetTicketResponse(self.0.clone())
    }
}

/// A body as the handler gets it: its fields, or nothing where the body
/// could not be decoded.
pub open spec fn body_view(body: Option<CreateTicketRequest>) -> Option<RequestData> {
    match body {
        Some(request) => Some(request@),
        None => None,
    }
}

/// A path parameter as the handler gets it: its text, or nothing where the
/// path had none.
pub open spec fn param_view(param: Option<&str>) -> Option<Seq<char>> {
    match param {
        Some(text) => Some(text@),
        None => None,
    }
}

/// The draft that a body makes, or the failure that it is refused with.
pub open spec fn body_verdict(body: Option<RequestData>) -> Result<DraftData, ErrorData> {
    match body {
        None => Err(ErrorData::BadRequest("Failed to parse."@)),
        Some(request) => match draft_verdict(request) {
            Err(error) => Err(ErrorData::BadRequest("Malformed ticket: "@ + error.text())),
            Ok(draft) => Ok(draft),
        },
    }
}

/// The identifier that a path parameter denotes, or the failure that it is
/// refused with.
pub open spec fn param_verdict(param: Option<Seq<char>>) -> Result<nat, ErrorData> {
    match param {
        None => Err(ErrorData::BadRequest("Missing id parameter"@)),
        Some(text) => match parsed_u64(encode_utf8(text)) {
            None => Err(ErrorData::BadRequest("Wrong id parameter"@)),
            Some(number) => Ok(number as nat),
        },
    }
}

/// What a request for a new ticket is answered with when it meets the store
/// in the state `store`.
pub open spec fn create_reply(store: StoreModel, body: Option<RequestData>) -> Result<
    nat,
    FailureData,
> {
    match body_verdict(body) {
        Err(error) => Err(FailureData::Rejected(error)),
        Ok(_) => if store.counter >= u64::MAX {
            Err(FailureData::Fatal(FatalStoreError::IdentifiersExhausted))
        } else {
            Ok(store.next_id())
        },
    }
}

/// The state in which a request for a new ticket leaves the store.
pub open spec fn after_create(store: StoreModel, body: Option<RequestData>) -> StoreModel {
    match body_verdict(body) {
        Ok(draft) if store.counter < u64::MAX => store.add(draft),
        _ => store,
    }
}

/// What a request for a ticket is answered with when it meets the store in
/// the state `store`.
pub open spec fn get_reply(store: StoreModel, param: Option<Seq<char>>) -> Result<
    TicketData,
    ErrorData,
> {
    match param_verdict(param) {
        Err(error) => Err(error),
        Ok(id) => match store.get(id) {
            None => Err(ErrorData::NotFound("Ticket not found"@)),
            Some(ticket) => Ok(ticket),
        },
    }
}

/// The outcome of [`new_ticket`], as plain values.
pub open spec fn created_view(outcome: Result<CreateTicketResponse, Failure>) -> Result<
    nat,
    FailureData,
> {
    match outcome {
        Ok(response) => Ok(response.ticket_id.0 as nat),
        Err(failure) => Err(failure@),
    }
}

/// The outcome of [`get_ticket`], as plain values.
pub open spec fn found_view(outcome: Result<GetTicketResponse, MyError>) -> Result<
    TicketData,
    ErrorData,
> {
    match outcome {
        Ok(response) => Ok(response.0@),
        Err(error) => Err(error@),
    }
}

/// Validates a body. A body that could not be decoded and a body with a
/// field that is not acceptable are both refused as bad requests.
pub fn draft_from_body(body: Option<CreateTicketRequest>) -> (outcome: Result<
    TicketDraft,
    MyError,
>)
    ensures
        match outcome {
            Ok(draft) => body_verdict(body_view(body)) == Ok::<_, ErrorData>(draft@),
            Err(error) => body_verdict(body_view(body)) == Err::<DraftData, _>(error@),
        },
{
    match body {
        None => Err(MyError::BadRequest("Failed to parse.".to_owned())),
        Some(request) => match request.try_into() {
            Ok(draft) => Ok(draft),
            Err(error) => Err(
                MyError::BadRequest(
                    "Malformed ticket: ".to_owned().concat(error.to_string().as_str()),
                ),
            ),
        },
    }
}

/// Reads the identifier out of a path parameter. A path without the
/// parameter and a parameter that is no number are both refused as bad
/// requests.
pub fn id_from_param(param: Option<&str>) -> (outcome: Result<TicketId, MyError>)
    ensures
        match outcome {
            Ok(id) => param_verdict(param_view(param)) == Ok::<_, ErrorData>(id.0 as nat),
            Err(error) => param_verdict(param_view(param)) == Err::<nat, _>(error@),
        },
{
    match param {
        None => Err(MyError::BadRequest("Missing id parameter".to_owned())),
        Some(text) => match parse_u64(text) {
            None => Err(MyError::BadRequest("Wrong id parameter".to_owned())),
            Some(number) => Ok(TicketId(number)),
        },
    }
}

/// Stores a ticket made of `draft`, unless every identifier has been handed
/// out: then the store is left as it is.
pub fn store_draft(state: &mut TicketStoreInternal, draft: TicketDraft) -> (outcome: Result<
    CreateTicketResponse,
    FatalStoreError,
>)
    requires
        old(state).wf(),
    ensures
        final(state).wf(),
        match outcome {
            Ok(response) => {
                &&& old(state)@.counter < u64::MAX
                &&& response.ticket_id.0 == old(state)@.next_id()
                &&& final(state)@ == old(state)@.add(draft@)
            },
            Err(error) => {
                &&& old(state)@.counter >= u64::MAX
                &&& error == FatalStoreError::IdentifiersExhausted
                &&& final(state)@ == old(state)@
            },
        },
{
    if state.is_full() {
        Err(FatalStoreError::IdentifiersExhausted)
    } else {
        let ticket_id = state.add_ticket(draft);
        Ok(CreateTicketResponse { ticket_id })
    }
}

/// Looks a record up. An identifier under which the store holds nothing is
/// refused as not found.
pub fn find_ticket(state: &TicketStoreInternal, id: TicketId) -> (outcome: Result<
    SharedTicket,
    MyError,
>)
    ensures
        match outcome {
            Ok(record) => state@.get(id.0 as nat) == Some(record@),
            Err(error) => state@.get(id.0 as nat) is None && error@ == ErrorData::NotFound(
                "Ticket not found"@,
            ),
        },
{
    match state.get(id) {
        Some(record) => Ok(record),
        None => Err(MyError::NotFound("Ticket not found".to_owned())),
    }
}

/// Creates a ticket from the body of a request.
///
/// The body is validated first; only a draft takes the write lock. The
/// outcome is the one that [`create_reply`] gives for the state in which the
/// request met the store, which other holders of the store may have changed
/// at any time before.
pub fn new_ticket(store: &TicketStore, body: Option<CreateTicketRequest>) -> (outcome: Result<
    CreateTicketResponse,
    Failure,
>)
    ensures
        exists|met: StoreModel|
            met.wf() && created_view(outcome) == #[trigger] create_reply(met, body_view(body)),
        body_verdict(body_view(body)) matches Err(error) ==> created_view(outcome) == Err::<
            nat,
            _,
        >(FailureData::Rejected(error)),
{
    let ghost request = body_view(body);
    let draft = match draft_from_body(body) {
        Ok(draft) => draft,
        Err(error) => {
            let outcome = Err(Failure::Rejected(error));
            assert(StoreModel::empty().wf());
            assert(created_view(outcome) == create_reply(StoreModel::empty(), request));
            return outcome;
        },
    };
    let mut writer = store.write();
    let ghost met = writer@;
    let stored = store_draft(writer.state_mut(), draft);
    writer.release();
    let outcome = match stored {
        Ok(response) => Ok(response),
        Err(error) => Err(Failure::Fatal(error)),
    };
    assert(created_view(outcome) == create_reply(met, request));
    outcome
}

/// Gets the ticket that a path parameter names.
///
/// The parameter is read first; only an identifier takes the read lock. The
/// lock of the store is given back before the lock of the record is taken.
/// The outcome is the one that [`get_reply`] gives for the state in which
/// the request met the store.
pub fn get_ticket(store: &TicketStore, param: Option<&str>) -> (outcome: Result<
    GetTicketResponse,
    MyError,
>)
    ensures
        exists|met: StoreModel|
            met.wf() && found_view(outcome) == #[trigger] get_reply(met, param_view(param)),
        param_verdict(param_view(param)) matches Err(error) ==> found_view(outcome) == Err::<
            TicketData,
            _,
        >(error),
        param_verdict(param_view(param)) matches Ok(id) ==> match outcome {
            Ok(response) => response.0@.id == id && response.0@.status == Status::ToDo
                && response.0@.is_valid(),
            Err(error) => error@ == ErrorData::NotFound("Ticket not found"@),
        },
{
    let id = match id_from_param(param) {
        Ok(id) => id,
        Err(error) => {
            let outcome = Err(error);
            assert(StoreModel::empty().wf());
            assert(found_view(outcome) == get_reply(StoreModel::empty(), param_view(param)));
            return outcome;
        },
    };
    let reader = store.read();
    let ghost met = reader@;
    let found = find_ticket(reader.state(), id);
    reader.release();
    let outcome = match found {
        Ok(record) => Ok(GetTicketResponse(record.read())),
        Err(error) => Err(error),
    };
    assert(found_view(outcome) == get_reply(met, param_view(param)));
    outcome
}

} // verus!
