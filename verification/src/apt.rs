//! Judging what the `apt-get` package manager reported.
//!
//! Running the command is the caller's part. What it hands over is whether
//! the command succeeded and what it wrote to its error stream.

use crate::text::{chars_of, contains_word, mentions};
use vstd::prelude::*;
use vstd::utf8::{decode_utf8, valid_utf8};

verus! {

/// A failed package manager operation, with what is known of the reason.
#[derive(Debug)]
pub struct AptError {
    pub details: String,
}

/// The complaint of `String::from_utf8` about bytes that are no UTF-8, as
/// text.
pub uninterp spec fn invalid_utf8_text(bytes: Seq<u8>) -> Seq<char>;

/// Reads bytes as UTF-8 text by `String::from_utf8`.
///
/// What is claimed of it, and not proved: valid UTF-8 comes back as the text
/// that it encodes; for any other bytes the result is the error that
/// `String::from_utf8` reports, as text, which depends on the bytes alone.
#[verifier::external_body]
fn read_text(bytes: Vec<u8>) -> (text: Result<String, String>)
    ensures
        match text {
            Ok(decoded) => valid_utf8(bytes@) && decoded@ == decode_utf8(bytes@),
            Err(complaint) => !valid_utf8(bytes@) && complaint@ == invalid_utf8_text(bytes@),
        },
{
    match String::from_utf8(bytes) {
        Ok(decoded) => Ok(decoded),
        Err(error) => Err(error.to_string()),
    }
}

/// What reading an error stream as text comes to: the text, or the decoder's
/// complaint.
pub open spec fn spec_read_text(bytes: Seq<u8>) -> Result<Seq<char>, Seq<char>> {
    if valid_utf8(bytes) {
        Ok(decode_utf8(bytes))
    } else {
        Err(invalid_utf8_text(bytes))
    }
}

/// The details of a failure, from what its error stream read as. A stream
/// that complains about missing root rights is summed up as insufficient
/// permissions; any other is passed on whole; one that is no text gives the
/// decoder's complaint.
pub open spec fn spec_failure_details(report: Result<Seq<char>, Seq<char>>) -> Seq<char> {
    match report {
        Err(complaint) => complaint,
        Ok(text) => if mentions(text, "are you root?"@) {
            "Insufficient permissions"@
        } else {
            text
        },
    }
}

/// The details of the failure that an operation ended in, or `None` where it
/// succeeded.
pub open spec fn spec_check_apt_return(success: bool, stderr: Seq<u8>) -> Option<Seq<char>> {
    if success {
        None
    } else {
        Some(spec_failure_details(spec_read_text(stderr)))
    }
}

/// The text and the complaint of a reading, as plain values.
pub open spec fn report_view(report: Result<String, String>) -> Result<Seq<char>, Seq<char>> {
    match report {
        Ok(text) => Ok(text@),
        Err(complaint) => Err(complaint@),
    }
}

impl AptError {
    /// Makes an error of its details.
    pub fn new(details: String) -> (error: AptError)
        ensures
            error.details == details,
    {
        AptError { details }
    }

    /// Returns the error as text for a reader.
    pub fn message(&self) -> (text: String)
        ensures
            text@ == "Error during `apt-get` operation: "@ + self.details@,
    {
        "Error during `apt-get` operation: ".to_owned().concat(self.details.as_str())
    }
}

/// Makes the error of a failed operation from what its error stream read
/// as.
pub fn failure_of(report: Result<String, String>) -> (error: AptError)
    ensures
        error.details@ == spec_failure_details(report_view(report)),
{
    match report {
        Err(complaint) => AptError::new(complaint),
        Ok(text) => {
            let letters = chars_of(text.as_str());
            let phrase = chars_of("are you root?");
            if contains_word(&letters, &phrase) {
                AptError::new("Insufficient permissions".to_owned())
            } else {
                AptError::new(text)
            }
        },
    }
}

/// Judges a finished operation from its exit status and its error stream.
/// A successful operation is `Ok` whatever it wrote; a failed one is an error
/// whose details come from the stream.
pub fn check_apt_return(success: bool, stderr: Vec<u8>) -> (outcome: Result<(), AptError>)
    ensures
        match spec_check_apt_return(success, stderr@) {
            None => outcome is Ok,
            Some(details) => outcome is Err && outcome->Err_0.details@ == details,
        },
{
    if success {
        Ok(())
    } else {
        Err(failure_of(read_text(stderr)))
    }
}

} // verus!
