//! Response shaping of the filesystem commands.
//!
//! The shell around this crate performs the actual read or write and hands
//! the raw outcome over; these functions turn that outcome into the
//! command's response. Success passes the value through untouched; failure
//! is surfaced as a human-readable error string and never as a panic.

use vstd::prelude::*;

verus! {

/// The error string the read command returns for a failure described by
/// `detail`.
pub open spec fn read_failure_message(detail: Seq<char>) -> Seq<char> {
    "Failed to read file: "@ + detail
}

/// The error string the write command returns for a failure described by
/// `detail`.
pub open spec fn write_failure_message(detail: Seq<char>) -> Seq<char> {
    "Failed to write file: "@ + detail
}

/// Response of the read command, given the outcome of the read itself:
/// the file's text on success, or the file's absence, unreadability or
/// invalid encoding described by an error string.
///
/// The content is returned exactly as read; a failure becomes an error
/// response carrying the failure's description.
pub fn read_file_content(outcome: Result<String, String>) -> (r: Result<String, String>)
    ensures
        outcome matches Ok(content) ==> r == Ok::<String, String>(content),
        outcome matches Err(detail) ==> (r matches Err(m) && m@ == read_failure_message(detail@)),
{
    match outcome {
        Ok(content) => Ok(content),
        Err(detail) => Err(String::from_str("Failed to read file: ").concat(detail.as_str())),
    }
}

/// Response of the write command, given the outcome of the write itself:
/// nothing on success, or the failure (bad path, missing or unwritable
/// directory, permissions) described by an error string.
///
/// A failure becomes an error response carrying the failure's description.
pub fn write_file_content(outcome: Result<(), String>) -> (r: Result<(), String>)
    ensures
        outcome is Ok ==> r == Ok::<(), String>(()),
        outcome matches Err(detail) ==> (r matches Err(m) && m@ == write_failure_message(detail@)),
{
    match outcome {
        Ok(()) => Ok(()),
        Err(detail) => Err(String::from_str("Failed to write file: ").concat(detail.as_str())),
    }
}

} // verus!
