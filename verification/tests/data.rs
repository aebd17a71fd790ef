use ticket_store::data::{
    utf8_len, Status, TicketDescription, TicketDescriptionError, TicketTitle, TicketTitleError,
    DESCRIPTION_MAX_BYTES, TITLE_MAX_BYTES,
};

#[test]
fn title_is_kept_as_given() {
    let title = TicketTitle::new("Title 1".to_string()).unwrap();
    assert_eq!(title.as_str(), "Title 1");
}

#[test]
fn empty_title_is_refused() {
    assert_eq!(TicketTitle::new(String::new()), Err(TicketTitleError::Empty));
}

#[test]
fn title_of_fifty_bytes_is_the_longest() {
    assert_eq!(TITLE_MAX_BYTES, 50);
    let longest = "a".repeat(50);
    assert_eq!(TicketTitle::new(longest.clone()).unwrap().as_str(), longest);
    assert_eq!(TicketTitle::new("a".repeat(51)), Err(TicketTitleError::TooLong));
}

#[test]
fn title_is_measured_in_bytes() {
    let accents = "\u{e9}".repeat(25);
    assert_eq!(utf8_len(&accents), 50);
    assert!(TicketTitle::new(accents).is_ok());
    let more = "\u{e9}".repeat(26);
    assert_eq!(more.chars().count(), 26);
    assert_eq!(TicketTitle::new(more), Err(TicketTitleError::TooLong));
}

#[test]
fn description_may_be_empty() {
    let description = TicketDescription::new(String::new()).unwrap();
    assert_eq!(description.as_str(), "");
}

#[test]
fn description_of_five_hundred_bytes_is_the_longest() {
    assert_eq!(DESCRIPTION_MAX_BYTES, 500);
    assert!(TicketDescription::new("d".repeat(500)).is_ok());
    assert_eq!(TicketDescription::new("d".repeat(501)), Err(TicketDescriptionError::TooLong));
}

#[test]
fn field_errors_say_what_was_wrong() {
    assert_eq!(TicketTitleError::Empty.to_string(), "The title cannot be empty");
    assert_eq!(TicketTitleError::TooLong.to_string(), "The title cannot be longer than 50 bytes");
    assert_eq!(
        TicketDescriptionError::TooLong.to_string(),
        "The description cannot be longer than 500 bytes"
    );
}

#[test]
fn status_names() {
    assert_eq!(Status::ToDo.as_str(), "to-do");
    assert_eq!(Status::InProgress.as_str(), "in-progress");
    assert_eq!(Status::Done.as_str(), "done");
}

#[test]
fn clones_keep_the_text() {
    let title = TicketTitle::new("Title".to_string()).unwrap();
    assert_eq!(title.clone(), title);
    let description = TicketDescription::new("Description".to_string()).unwrap();
    assert_eq!(description.clone().as_str(), "Description");
}
