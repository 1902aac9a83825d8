//! Whole-file reads and writes: what is handed to the filesystem, and how its
//! answer is reported to the front-end.
//!
//! The caller makes the filesystem call. A write is described by a
//! `WriteJob`; a failure is reported as a message that names the operation
//! and carries the system's own words.

use vstd::prelude::*;
use vstd::string::*;

verus! {

#[verifier::external_type_specification]
#[verifier::external_body]
pub struct ExIoError(std::io::Error);

/// One write of a whole file: the bytes replace what the path held.
#[derive(Debug)]
pub struct WriteJob {
    pub path: String,
    pub data: Vec<u8>,
}

impl View for WriteJob {
    type V = (Seq<char>, Seq<u8>);

    open spec fn view(&self) -> (Seq<char>, Seq<u8>) {
        (self.path@, self.data@)
    }
}

/// The message for a read that failed with `detail`.
pub open spec fn read_failure_text(detail: Seq<char>) -> Seq<char> {
    "Failed to read file: "@ + detail
}

/// The message for a write that failed with `detail`.
pub open spec fn write_failure_text(detail: Seq<char>) -> Seq<char> {
    "Failed to write file: "@ + detail
}

/// Formats a `std::io::Error` through its `Display` impl. The text comes from
/// the operating system, so nothing is claimed of it.
#[verifier::external_body]
pub(crate) fn io_error_text(error: &std::io::Error) -> (r: String) {
    format!("{}", error)
}

/// The message for a read that failed with `detail`.
pub fn read_failure(detail: &str) -> (r: String)
    ensures
        r@ == read_failure_text(detail@),
{
    let mut message = String::from_str("Failed to read file: ");
    message.append(detail);
    message
}

/// The message for a write that failed with `detail`.
pub fn write_failure(detail: &str) -> (r: String)
    ensures
        r@ == write_failure_text(detail@),
{
    let mut message = String::from_str("Failed to write file: ");
    message.append(detail);
    message
}

/// Reports a read: the file's bytes as they were read, all of them, or the
/// read-failure message and no data.
pub fn read_file_bytes(outcome: Result<Vec<u8>, std::io::Error>) -> (r: Result<Vec<u8>, String>)
    ensures
        match outcome {
            Ok(bytes) => r == Ok::<Vec<u8>, String>(bytes),
            Err(_) => r matches Err(message) && exists|detail: Seq<char>|
                message@ == read_failure_text(detail),
        },
{
    match outcome {
        Ok(bytes) => Ok(bytes),
        Err(error) => {
            let detail = io_error_text(&error);
            let message = read_failure(detail.as_str());
            assert(message@ == read_failure_text(detail@));
            Err(message)
        },
    }
}

/// The write that the structured command asks for: `data` to `path`, both as
/// given.
pub fn write_file_bytes(path: String, data: Vec<u8>) -> (r: WriteJob)
    ensures
        r.path == path,
        r.data == data,
{
    WriteJob { path, data }
}

/// Reports a write: success, or the write-failure message.
pub fn write_outcome(outcome: Result<(), std::io::Error>) -> (r: Result<(), String>)
    ensures
        match outcome {
            Ok(_) => r is Ok,
            Err(_) => r matches Err(message) && exists|detail: Seq<char>|
                message@ == write_failure_text(detail),
        },
{
    match outcome {
        Ok(_) => Ok(()),
        Err(error) => {
            let detail = io_error_text(&error);
            let message = write_failure(detail.as_str());
            assert(message@ == write_failure_text(detail@));
            Err(message)
        },
    }
}

} // verus!
