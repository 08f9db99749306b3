use task_tracker::error::TrackerError;

#[test]
fn every_error_has_its_message() {
    assert_eq!(
        TrackerError::DuplicateDescription.message(),
        "a task with this description already exists"
    );
    assert_eq!(
        TrackerError::PersistenceError.message(),
        "the task table could not be read or written"
    );
    assert_eq!(TrackerError::InvalidInput.message(), "the input is not valid");
    assert_eq!(TrackerError::UnknownCommand.message(), "unknown command");
}

#[test]
fn errors_compare_by_kind() {
    assert_eq!(TrackerError::InvalidInput, TrackerError::InvalidInput);
    assert_ne!(TrackerError::InvalidInput, TrackerError::PersistenceError);
    assert_ne!(TrackerError::DuplicateDescription, TrackerError::UnknownCommand);
}
