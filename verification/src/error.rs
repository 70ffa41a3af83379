//! The errors a caller gets to see.

use vstd::prelude::*;

verus! {

/// `std::io::Error`, carried through as it came from the byte source.
#[verifier::external_type_specification]
#[verifier::external_body]
pub struct ExIoError(std::io::Error);

/// The two failures that reach the caller. Everything else is handled by
/// resyncing.
#[derive(Debug)]
pub enum Error {
    /// Reading from the byte source failed.
    Io(std::io::Error),
    /// A message was whole and could not be authenticated or decrypted.
    DecryptionFailed,
}

/// Formats an `std::io::Error` as its `Display` impl does. The text is the
/// operating system's or the error's own, so nothing is stated of it.
#[verifier::external_body]
fn io_error_text(err: &std::io::Error) -> String {
    format!("{}", err)
}

impl Error {
    /// The error in words: for a failed read what the I/O error says of
    /// itself, else "decryption failed".
    pub fn message(&self) -> (text: String)
        ensures
            self is DecryptionFailed ==> text@ == "decryption failed"@,
    {
        match self {
            Error::Io(err) => io_error_text(err),
            Error::DecryptionFailed => "decryption failed".to_owned(),
        }
    }
}

} // verus!
