use vstd::prelude::*;

use crate::json::JsonValue;

verus! {

/// Everything that can make a preview publication or a sweep fail.
///
/// Errors raised by the network client, the archive reader or the file
/// system are carried as their text; the others carry the values that
/// explain them.
#[derive(Debug)]
pub enum PreviewerError {
    RequestError(String),
    JsonPayloadError(String),
    PayloadError(String),
    ZipError(String),
    IOError(String),
    SystemTimeError(String),
    StatusError { url: String, status_code: u16 },
    ResponseContentError(String, JsonValue),
    PatternNotFound(String),
}

} // verus!
