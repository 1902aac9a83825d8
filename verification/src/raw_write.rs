//! The raw write command: the destination travels in a request header, the
//! payload in the body, as plain bytes or, for older callers, as a JSON array
//! of numbers.
//!
//! A request is resolved to one path and one payload before anything is
//! written. A request that cannot be resolved yields an error and no
//! `WriteJob`, so nothing is written for it.

use vstd::prelude::*;
use vstd::string::*;
use crate::files::WriteJob;
use crate::headers::{header_bytes, header_lookup};
use crate::json::{decode_byte_array, decode_error_text, json_byte_array};
use crate::text::{ascii_chars, header_text, is_header_text};

verus! {

/// The header that carries the destination path.
pub const PATH_HEADER: &'static str = "X-File-Path";

/// The name of the header that carries the destination path.
pub open spec fn path_header_name() -> Seq<char> {
    "X-File-Path"@
}

/// The body of a raw write request.
#[derive(Debug)]
pub enum Payload {
    /// The payload itself.
    RawBytes(Vec<u8>),
    /// A JSON value that is expected to be an array of byte values.
    LegacyEncoded(serde_json::Value),
}

/// A raw write request, as the transport delivered it.
#[derive(Debug)]
pub struct WriteRequest {
    pub headers: http::HeaderMap<http::HeaderValue>,
    pub body: Payload,
}

/// Why a request was rejected.
#[derive(Debug)]
pub enum WriteError {
    /// The path header is absent or is not text.
    MissingPath,
    /// The body is JSON that does not spell a byte array.
    Decode { detail: String },
}

/// Why a request was rejected, without the decoder's words.
pub enum Rejection {
    MissingPath,
    Decode,
}

/// The path that the headers name: the value of the path header, where it
/// is there and is text.
pub open spec fn resolved_path(headers: http::HeaderMap<http::HeaderValue>) -> Option<Seq<char>> {
    match header_lookup(headers, path_header_name()) {
        Some(bytes) => if is_header_text(bytes) {
            Some(ascii_chars(bytes))
        } else {
            None
        },
        None => None,
    }
}

/// The payload that a body carries, if it carries one.
pub open spec fn resolved_data(body: Payload) -> Option<Seq<u8>> {
    match body {
        Payload::RawBytes(bytes) => Some(bytes@),
        Payload::LegacyEncoded(value) => json_byte_array(value),
    }
}

/// What a request resolves to: the path and payload of the write, or the
/// reason for its rejection. A missing path is reported before the body is
/// looked at.
pub open spec fn raw_write_outcome(request: WriteRequest) -> Result<
    (Seq<char>, Seq<u8>),
    Rejection,
> {
    match resolved_path(request.headers) {
        None => Err(Rejection::MissingPath),
        Some(path) => match resolved_data(request.body) {
            None => Err(Rejection::Decode),
            Some(data) => Ok((path, data)),
        },
    }
}

/// The message of a rejection whose decoder detail, if any, is `detail`.
pub open spec fn rejection_text(rejection: Rejection, detail: Seq<char>) -> Seq<char> {
    match rejection {
        Rejection::MissingPath => "Missing X-File-Path header"@,
        Rejection::Decode => "Failed to deserialize data: "@ + detail,
    }
}

impl WriteError {
    /// The reason, without the decoder's words.
    pub open spec fn rejection(&self) -> Rejection {
        match self {
            WriteError::MissingPath => Rejection::MissingPath,
            WriteError::Decode { .. } => Rejection::Decode,
        }
    }

    /// The decoder's words; empty where the decoder was not reached.
    pub open spec fn detail(&self) -> Seq<char> {
        match self {
            WriteError::MissingPath => Seq::<char>::empty(),
            WriteError::Decode { detail } => detail@,
        }
    }

    /// The message shown to the front-end.
    pub fn message(&self) -> (r: String)
        ensures
            r@ == rejection_text(self.rejection(), self.detail()),
    {
        match self {
            WriteError::MissingPath => String::from_str("Missing X-File-Path header"),
            WriteError::Decode { detail } => {
                let mut message = String::from_str("Failed to deserialize data: ");
                message.append(detail.as_str());
                message
            },
        }
    }
}

/// The destination named by the path header's value, given the bytes of
/// that value, or `None` where the header is absent.
pub fn path_from_header(value: Option<Vec<u8>>) -> (r: Result<String, WriteError>)
    ensures
        match value {
            Some(bytes) => if is_header_text(bytes@) {
                r matches Ok(found) && found@ == ascii_chars(bytes@)
            } else {
                r matches Err(error) && error == WriteError::MissingPath
            },
            None => r matches Err(error) && error == WriteError::MissingPath,
        },
{
    match value {
        Some(bytes) => match header_text(&bytes) {
            Some(path) => Ok(path),
            None => Err(WriteError::MissingPath),
        },
        None => Err(WriteError::MissingPath),
    }
}

/// The destination that the headers name.
pub fn destination_path(headers: &http::HeaderMap<http::HeaderValue>) -> (r: Result<
    String,
    WriteError,
>)
    ensures
        match resolved_path(*headers) {
            Some(path) => r matches Ok(found) && found@ == path,
            None => r matches Err(error) && error == WriteError::MissingPath,
        },
{
    path_from_header(header_bytes(headers, PATH_HEADER))
}

/// The payload of a legacy body, given what the JSON decoder made of it: the
/// decoded bytes, or the decoder's words.
pub fn legacy_payload(decoded: Result<Vec<u8>, String>) -> (r: Result<Vec<u8>, WriteError>)
    ensures
        match decoded {
            Ok(bytes) => r == Ok::<Vec<u8>, WriteError>(bytes),
            Err(detail) => r == Err::<Vec<u8>, WriteError>(WriteError::Decode { detail }),
        },
{
    match decoded {
        Ok(bytes) => Ok(bytes),
        Err(detail) => Err(WriteError::Decode { detail }),
    }
}

/// The payload that a body carries: raw bytes as they are, a legacy body as
/// the JSON decoder reads it.
pub fn payload_bytes(body: Payload) -> (r: Result<Vec<u8>, WriteError>)
    ensures
        match resolved_data(body) {
            Some(data) => r matches Ok(bytes) && bytes@ == data,
            None => r matches Err(error) && error.rejection() == Rejection::Decode,
        },
{
    match body {
        Payload::RawBytes(bytes) => Ok(bytes),
        Payload::LegacyEncoded(value) => {
            let decoded = match decode_byte_array(&value) {
                Ok(bytes) => Ok(bytes),
                Err(error) => Err(decode_error_text(&error)),
            };
            legacy_payload(decoded)
        },
    }
}

/// Resolves a raw write request to the write it asks for.
///
/// A request without a readable path header is rejected as `MissingPath`,
/// whatever its body; one whose legacy body is no byte array is rejected as
/// `Decode`. Every other request yields the job that writes its payload,
/// byte for byte, to the path in its header.
pub fn write_file_bytes_raw(request: WriteRequest) -> (r: Result<WriteJob, WriteError>)
    ensures
        match raw_write_outcome(request) {
            Ok(write) => r matches Ok(job) && job@ == write,
            Err(rejection) => r matches Err(error) && error.rejection() == rejection,
        },
{
    let WriteRequest { headers, body } = request;
    let path = match destination_path(&headers) {
        Ok(path) => path,
        Err(error) => {
            return Err(error);
        },
    };
    match payload_bytes(body) {
        Ok(data) => Ok(WriteJob { path, data }),
        Err(error) => Err(error),
    }
}

/// A payload sent to a path arrives at the filesystem unchanged, whichever
/// way it travels: as the raw body of a raw write, as its legacy JSON body,
/// or through the structured command, the job is the same path and the same
/// bytes.
pub proof fn encodings_agree(
    headers: http::HeaderMap<http::HeaderValue>,
    raw: Vec<u8>,
    legacy: serde_json::Value,
    structured: WriteJob,
)
    requires
        resolved_path(headers) == Some(structured.path@),
        json_byte_array(legacy) == Some(raw@),
        structured.data == raw,
    ensures
        raw_write_outcome(
            (WriteRequest { headers, body: Payload::RawBytes(raw) }),
        ) == Ok::<(Seq<char>, Seq<u8>), Rejection>(structured@),
        raw_write_outcome(
            (WriteRequest { headers, body: Payload::LegacyEncoded(legacy) }),
        ) == Ok::<(Seq<char>, Seq<u8>), Rejection>(structured@),
{
}

/// A request without a path header is rejected as a missing path, whatever
/// its body holds.
pub proof fn missing_header_is_rejected(request: WriteRequest)
    requires
        header_lookup(request.headers, path_header_name()) is None,
    ensures
        raw_write_outcome(request) == Err::<(Seq<char>, Seq<u8>), Rejection>(
            Rejection::MissingPath,
        ),
{
}

/// A request whose header names a path and whose legacy body is no byte
/// array is rejected as a decode failure.
pub proof fn undecodable_body_is_rejected(
    headers: http::HeaderMap<http::HeaderValue>,
    legacy: serde_json::Value,
)
    requires
        resolved_path(headers) is Some,
        json_byte_array(legacy) is None,
    ensures
        raw_write_outcome(
            (WriteRequest { headers, body: Payload::LegacyEncoded(legacy) }),
        ) == Err::<(Seq<char>, Seq<u8>), Rejection>(Rejection::Decode),
{
}

} // verus!
