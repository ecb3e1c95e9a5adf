use rustible::apt::{check_apt_return, failure_of, AptError};

#[test]
fn successful_operation_is_ok() {
    assert!(check_apt_return(true, Vec::new()).is_ok());
    assert!(check_apt_return(true, b"W: some warning, are you root?".to_vec()).is_ok());
    assert!(check_apt_return(true, vec![0xff, 0xfe]).is_ok());
}

#[test]
fn missing_root_rights_are_insufficient_permissions() {
    let stderr = b"E: Could not open lock file /var/lib/dpkg/lock-frontend - open (13: Permission denied)\nE: Unable to acquire the dpkg frontend lock (/var/lib/dpkg/lock-frontend), are you root?\n";
    let error = check_apt_return(false, stderr.to_vec()).unwrap_err();
    assert_eq!(error.details, "Insufficient permissions");
    let error = check_apt_return(false, b"are you root?".to_vec()).unwrap_err();
    assert_eq!(error.details, "Insufficient permissions");
}

#[test]
fn other_failures_pass_the_error_stream_on() {
    let error = check_apt_return(false, b"E: Unable to locate package sl2\n".to_vec()).unwrap_err();
    assert_eq!(error.details, "E: Unable to locate package sl2\n");
    let error = check_apt_return(false, Vec::new()).unwrap_err();
    assert_eq!(error.details, "");
    let error = check_apt_return(false, b"Are you root?".to_vec()).unwrap_err();
    assert_eq!(error.details, "Are you root?");
    let error = check_apt_return(false, b"are you root".to_vec()).unwrap_err();
    assert_eq!(error.details, "are you root");
}

#[test]
fn error_stream_is_read_as_utf8() {
    let error = check_apt_return(false, vec![0x50, 0x61, 0x6b, 0x65, 0x74, 0x20, 0xc3, 0xa9]).unwrap_err();
    assert_eq!(error.details, "Paket é");
    assert_eq!(error.details.chars().count(), 7);
}

#[test]
fn error_stream_that_is_no_text_gives_the_decoders_complaint() {
    let bytes = vec![0x45, 0x3a, 0xff, 0x20];
    let expected = String::from_utf8(bytes.clone()).unwrap_err().to_string();
    let error = check_apt_return(false, bytes).unwrap_err();
    assert_eq!(error.details, expected);
    assert_eq!(error.details, "invalid utf-8 sequence of 1 bytes from index 2");
}

#[test]
fn message_names_the_operation() {
    let error = AptError::new("Insufficient permissions".to_string());
    assert_eq!(error.details, "Insufficient permissions");
    assert_eq!(
        error.message(),
        "Error during `apt-get` operation: Insufficient permissions"
    );
    assert_eq!(AptError::new(String::new()).message(), "Error during `apt-get` operation: ");
}

#[test]
fn failure_of_each_kind_of_report() {
    let error = failure_of(Ok("dpkg was interrupted".to_string()));
    assert_eq!(error.details, "dpkg was interrupted");
    let error = failure_of(Ok("lock held -- are you root? try sudo".to_string()));
    assert_eq!(error.details, "Insufficient permissions");
    let error = failure_of(Err("incomplete utf-8 byte sequence from index 3".to_string()));
    assert_eq!(error.details, "incomplete utf-8 byte sequence from index 3");
    let error = failure_of(Err("not text, are you root?".to_string()));
    assert_eq!(error.details, "not text, are you root?");
}
