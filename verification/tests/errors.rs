use flexvg::error::FlexError;

#[test]
fn unknown_failure_has_its_message() {
    assert_eq!(FlexError::Unknown.message(), "unknown error");
}

#[test]
fn failure_messages_are_distinct() {
    let unknown = FlexError::Unknown;
    assert!(format!("{unknown:?}").contains("Unknown"));
}
