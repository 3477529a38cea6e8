//! Structured errors for failures reported by the boundary library, and the
//! translation of its ambient last-error indicator into one.

use vstd::prelude::*;
use vstd::utf8::decode_utf8;
use vstd::utf8::valid_utf8;

use crate::marshal::CStrBytes;

verus! {

/// The category of a failure, assigned at the point of detection.
#[derive(Clone, Copy, Debug, PartialEq, Eq, Structural)]
pub enum ErrorKind {
    /// Opening could not locate or access the device.
    NotFound,
    /// Bytes that should have been text, or a path that should have been
    /// null-free, were not.
    InvalidData,
    /// The boundary library reported any other failure.
    OperationFailed,
    /// The boundary library's own error indicator was unreadable.
    Unknown,
}

/// A structured error: a kind together with a human-readable message sourced
/// from the boundary library's last-error indicator at the moment the failure
/// was detected.
#[derive(Debug)]
pub struct DeviceError {
    pub kind: ErrorKind,
    pub message: String,
}

impl DeviceError {
    /// Build an error from a kind and an owned message.
    pub fn new(kind: ErrorKind, message: String) -> (r: DeviceError)
        ensures
            r.kind == kind,
            r.message == message,
    {
        DeviceError { kind, message }
    }
}

/// The kind a failure translates to: the context's own kind when the
/// last-error indicator could be read, and `Unknown` when the indicator was
/// null or its bytes were not valid text.
pub open spec fn translated_kind(context: ErrorKind, indicator: CStrBytes) -> ErrorKind {
    if !indicator.is_null() && valid_utf8(indicator.byte_seq()) {
        context
    } else {
        ErrorKind::Unknown
    }
}

/// The message a failure translates to: the decoded indicator text when it
/// could be read, and a generic fallback otherwise.
pub open spec fn translated_message(indicator: CStrBytes) -> Seq<char> {
    if !indicator.is_null() && valid_utf8(indicator.byte_seq()) {
        decode_utf8(indicator.byte_seq())
    } else {
        "Unknown error"@
    }
}

/// Produce a structured error from the boundary library's ambient last-error
/// indicator, read immediately after a call signalled failure.  `context`
/// says what the failing call was about; it becomes the error's kind whenever
/// the indicator itself could be read.  An unreadable indicator (null, or
/// bytes that are not valid text) falls back to a generic unknown error
/// rather than failing the translation itself.
pub fn translate_last_error(context: ErrorKind, indicator: &CStrBytes) -> (r: DeviceError)
    ensures
        r.kind == translated_kind(context, *indicator),
        r.message@ == translated_message(*indicator),
{
    match indicator {
        CStrBytes::Null => DeviceError::new(ErrorKind::Unknown, "Unknown error".to_owned()),
        CStrBytes::Bytes(b) => match crate::marshal::utf8_decode(b.as_slice()) {
            Some(s) => DeviceError::new(context, s.to_owned()),
            None => DeviceError::new(ErrorKind::Unknown, "Unknown error".to_owned()),
        },
    }
}

} // verus!
