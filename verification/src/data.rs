//! The record model: tickets, drafts and their validated fields.

use vstd::prelude::*;
use vstd::utf8::encode_utf8;

use crate::store::TicketId;

verus! {

/// The longest title that is accepted, in bytes of UTF-8.
pub const TITLE_MAX_BYTES: usize = 50;

/// The longest description that is accepted, in bytes of UTF-8.
pub const DESCRIPTION_MAX_BYTES: usize = 500;

/// The number of bytes that `text` takes when it is encoded as UTF-8.
pub open spec fn byte_len(text: Seq<char>) -> nat {
    encode_utf8(text).len()
}

/// Measures `text` in bytes.
pub fn utf8_len(text: &str) -> (len: usize)
    ensures
        len == byte_len(text@),
{
    text.as_bytes().len()
}

/// A title is acceptable when it is not empty and takes at most
/// [`TITLE_MAX_BYTES`] bytes.
pub open spec fn valid_title(text: Seq<char>) -> bool {
    text.len() > 0 && byte_len(text) <= TITLE_MAX_BYTES
}

/// A description is acceptable when it takes at most
/// [`DESCRIPTION_MAX_BYTES`] bytes; it may be empty.
pub open spec fn valid_description(text: Seq<char>) -> bool {
    byte_len(text) <= DESCRIPTION_MAX_BYTES
}

/// Why a text was refused as a title.
#[derive(Clone, Copy, Debug, PartialEq, Eq, Structural)]
pub enum TicketTitleError {
    Empty,
    TooLong,
}

impl TicketTitleError {
    /// The sentence that describes the error.
    pub open spec fn text(self) -> Seq<char> {
        match self {
            TicketTitleError::Empty => "The title cannot be empty"@,
            TicketTitleError::TooLong => "The title cannot be longer than 50 bytes"@,
        }
    }

    /// The sentence as a string.
    pub fn to_string(&self) -> (message: String)
        ensures
            message@ == self.text(),
    {
        match self {
            TicketTitleError::Empty => "The title cannot be empty".to_owned(),
            TicketTitleError::TooLong => "The title cannot be longer than 50 bytes".to_owned(),
        }
    }
}

/// The outcome that validation owes for `text` as a title.
pub open spec fn title_verdict(text: Seq<char>) -> Result<(), TicketTitleError> {
    if text.len() == 0 {
        Err(TicketTitleError::Empty)
    } else if byte_len(text) > TITLE_MAX_BYTES {
        Err(TicketTitleError::TooLong)
    } else {
        Ok(())
    }
}

/// A title that has passed validation.
#[derive(Debug, PartialEq, Eq)]
pub struct TicketTitle(String);

impl View for TicketTitle {
    type V = Seq<char>;

    closed spec fn view(&self) -> Seq<char> {
        self.0@
    }
}

impl TicketTitle {
    /// What holds of every title.
    #[verifier::type_invariant]
    pub open spec fn is_valid(self) -> bool {
        valid_title(self@)
    }

    /// Validates `value` and wraps it.
    pub fn new(value: String) -> (outcome: Result<TicketTitle, TicketTitleError>)
        ensures
            match outcome {
                Ok(title) => title_verdict(value@) is Ok && title@ == value@,
                Err(error) => title_verdict(value@) == Err::<(), _>(error),
            },
    {
        if value.as_str().is_empty() {
            Err(TicketTitleError::Empty)
        } else if utf8_len(value.as_str()) > TITLE_MAX_BYTES {
            Err(TicketTitleError::TooLong)
        } else {
            Ok(TicketTitle(value))
        }
    }

    /// The text of the title, which is acceptable as every title is.
    pub fn as_str(&self) -> (text: &str)
        ensures
            text@ == self@,
            valid_title(text@),
    {
        proof {
            use_type_invariant(self);
        }
        self.0.as_str()
    }
}

impl Clone for TicketTitle {
    fn clone(&self) -> (copy: Self)
        ensures
            copy@ == self@,
    {
        proof {
            use_type_invariant(self);
        }
        TicketTitle(self.0.clone())
    }
}

/// Why a text was refused as a description.
#[derive(Clone, Copy, Debug, PartialEq, Eq, Structural)]
pub enum TicketDescriptionError {
    TooLong,
}

impl TicketDescriptionError {
    /// The sentence that describes the error.
    pub open spec fn text(self) -> Seq<char> {
        "The description cannot be longer than 500 bytes"@
    }

    /// The sentence as a string.
    pub fn to_string(&self) -> (message: String)
        ensures
            message@ == self.text(),
    {
        "The description cannot be longer than 500 bytes".to_owned()
    }
}

/// The outcome that validation owes for `text` as a description.
pub open spec fn description_verdict(text: Seq<char>) -> Result<(), TicketDescriptionError> {
    if byte_len(text) > DESCRIPTION_MAX_BYTES {
        Err(TicketDescriptionError::TooLong)
    } else {
        Ok(())
    }
}

/// A description that has passed validation.
#[derive(Debug, PartialEq, Eq)]
pub struct TicketDescription(String);

impl View for TicketDescription {
    type V = Seq<char>;

    closed spec fn view(&self) -> Seq<char> {
        self.0@
    }
}

impl TicketDescription {
    /// What holds of every description.
    #[verifier::type_invariant]
    pub open spec fn is_valid(self) -> bool {
        valid_description(self@)
    }

    /// Validates `value` and wraps it.
    pub fn new(value: String) -> (outcome: Result<TicketDescription, TicketDescriptionError>)
        ensures
            match outcome {
                Ok(description) => description_verdict(value@) is Ok && description@ == value@,
                Err(error) => description_verdict(value@) == Err::<(), _>(error),
            },
    {
        if utf8_len(value.as_str()) > DESCRIPTION_MAX_BYTES {
            Err(TicketDescriptionError::TooLong)
        } else {
            Ok(TicketDescription(value))
        }
    }

    /// The text of the description, which is acceptable as every
    /// description is.
    pub fn as_str(&self) -> (text: &str)
        ensures
            text@ == self@,
            valid_description(text@),
    {
        proof {
            use_type_invariant(self);
        }
        self.0.as_str()
    }
}

impl Clone for TicketDescription {
    fn clone(&self) -> (copy: Self)
        ensures
            copy@ == self@,
    {
        proof {
            use_type_invariant(self);
        }
        TicketDescription(self.0.clone())
    }
}

/// Where a ticket stands. A ticket is created as [`Status::ToDo`], and
/// nothing in this crate moves it on.
#[derive(Clone, Copy, Debug, PartialEq, Eq, Structural)]
pub enum Status {
    ToDo,
    InProgress,
    Done,
}

impl Status {
    /// The name under which a status is shown.
    pub open spec fn label(self) -> Seq<char> {
        match self {
            Status::ToDo => "to-do"@,
            Status::InProgress => "in-progress"@,
            Status::Done => "done"@,
        }
    }

    /// The name as a string.
    pub fn as_str(&self) -> (name: &'static str)
        ensures
            name@ == self.label(),
    {
        match self {
            Status::ToDo => "to-do",
            Status::InProgress => "in-progress",
            Status::Done => "done",
        }
    }
}

/// What a draft holds, as plain values.
pub struct DraftData {
    pub title: Seq<char>,
    pub description: Seq<char>,
}

impl DraftData {
    /// Whether both fields are acceptable.
    pub open spec fn is_valid(self) -> bool {
        valid_title(self.title) && valid_description(self.description)
    }
}

/// The validated input from which a ticket is made. A draft is never stored.
#[derive(Debug, PartialEq, Eq)]
pub struct TicketDraft {
    pub title: TicketTitle,
    pub description: TicketDescription,
}

impl View for TicketDraft {
    type V = DraftData;

    open spec fn view(&self) -> DraftData {
        DraftData { title: self.title@, description: self.description@ }
    }
}

impl Clone for TicketDraft {
    fn clone(&self) -> (copy: Self)
        ensures
            copy@ == self@,
    {
        TicketDraft { title: self.title.clone(), description: self.description.clone() }
    }
}

/// What a ticket holds, as plain values.
pub struct TicketData {
    pub id: nat,
    pub title: Seq<char>,
    pub description: Seq<char>,
    pub status: Status,
}

impl TicketData {
    /// Whether the title and the description are acceptable.
    pub open spec fn is_valid(self) -> bool {
        valid_title(self.title) && valid_description(self.description)
    }

    /// The ticket that a store makes of `draft` under the identifier `id`.
    pub open spec fn created(id: nat, draft: DraftData) -> TicketData {
        TicketData { id, title: draft.title, description: draft.description, status: Status::ToDo }
    }
}

/// A stored record.
#[derive(Debug, PartialEq)]
pub struct Ticket {
    pub id: TicketId,
    pub title: TicketTitle,
    pub description: TicketDescription,
    pub status: Status,
}

impl View for Ticket {
    type V = TicketData;

    open spec fn view(&self) -> TicketData {
        TicketData {
            id: self.id.0 as nat,
            title: self.title@,
            description: self.description@,
            status: self.status,
        }
    }
}

impl Clone for Ticket {
    fn clone(&self) -> (copy: Self)
        ensures
            copy@ == self@,
    {
        Ticket {
            id: self.id,
            title: self.title.clone(),
            description: self.description.clone(),
            status: self.status,
        }
    }
}

} // verus!
