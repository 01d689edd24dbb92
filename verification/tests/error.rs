use tissue_rs::error::CheckinError;

#[test]
fn too_long_has_its_message() {
    assert_eq!(CheckinError::TooLong.message(), "The parameter was too long");
}

#[test]
fn has_whitespaces_has_its_message() {
    assert_eq!(CheckinError::HasWhitespaces.message(), "The parameter had whitespaces");
}

#[test]
fn checkin_errors_compare_and_copy() {
    let error = CheckinError::TooLong;
    let copy = error;
    assert_eq!(error, copy);
    assert_ne!(CheckinError::TooLong, CheckinError::HasWhitespaces);
}
