//! What can go wrong in the flashing logic itself.
use vstd::prelude::*;

use crate::config::FlashStep;

verus! {

/// `std::string::FromUtf8Error`, carried through as it came.
#[verifier::external_type_specification]
#[verifier::external_body]
pub struct ExFromUtf8Error(std::string::FromUtf8Error);

/// Error types that the flashing logic reports.
#[derive(Debug)]
pub enum Error {
    /// An operation is invalid in the current context.
    InvalidOperation(String),
    /// Bytes that should have been text were not UTF-8.
    Utf8Error(std::string::FromUtf8Error),
    /// The device is not found.
    NotFound,
    /// The device is in an incompatible mode.
    WrongMode,
    /// The device answered a fastboot command with FAIL, or with something unintelligible.
    Fastboot { command: String, reason: String },
    /// The `meta.json` version is not supported.
    UnsupportedVersion(usize),
    /// A feature in `meta.json` is not supported.
    UnsupportedFeature(FlashStep),
    /// A zip archive could not be read.
    Zip(zip::result::ZipError),
}

/// How a routine that drives a device ends.
pub enum Outcome {
    /// Everything was done.
    Done,
    /// The routine itself found something wrong.
    Failed(Error),
    /// The error of the last operation that failed is the routine's own.
    Rethrow,
}

/// Whether an error is an invalid operation with the given text.
pub open spec fn is_invalid(error: Error, text: Seq<char>) -> bool {
    error matches Error::InvalidOperation(shown) && shown@ == text
}

/// Whether an error reports the given fastboot command and reason.
pub open spec fn is_fastboot(error: Error, command: Seq<char>, reason: Seq<char>) -> bool {
    error matches Error::Fastboot { command: c, reason: r } && c@ == command && r@ == reason
}

/// An invalid operation with the given text.
pub fn invalid(text: &str) -> (error: Error)
    ensures
        is_invalid(error, text@),
{
    Error::InvalidOperation(text.to_owned())
}

/// An error carries one text, and that is the text that was given.
pub proof fn errors_carry_their_text(shown: String, other: Seq<char>, command: String, reason: String)
    ensures
        is_invalid(Error::InvalidOperation(shown), other) <==> other == shown@,
        !is_invalid(Error::NotFound, other) && !is_invalid(Error::WrongMode, other),
        !is_invalid((Error::Fastboot { command, reason }), other),
        is_fastboot((Error::Fastboot { command, reason }), command@, other) <==> other == reason@,
        is_fastboot((Error::Fastboot { command, reason }), other, reason@) <==> other == command@,
        !is_fastboot(Error::InvalidOperation(shown), command@, other),
{
}

} // verus!
