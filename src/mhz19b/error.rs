//! What can go wrong in an exchange with the sensor.

use vstd::prelude::*;

verus! {

/// The failure of one exchange, over the transport's own error type `IO`.
#[derive(Debug, PartialEq, Eq)]
pub enum ErrorBase<IO> {
    /// The response did not start with the bytes that the command expects.
    InvalidResponse,
    /// The response's last byte is not the checksum of its bytes 1 through 7.
    InvalidChecksum,
    /// Writing the request or reading the response failed.
    IoError(IO),
}

impl<IO> ErrorBase<IO> {
    /// A short human-readable description; the transport's error is
    /// described by the caller.
    pub fn message(&self) -> (r: &'static str)
        ensures
            self is InvalidResponse ==> r@ == "Unexpected response (wrong prefix)."@,
            self is InvalidChecksum ==> r@ == "Checksum verification failed."@,
            self is IoError ==> r@ == "Transport failure."@,
    {
        match self {
            ErrorBase::InvalidResponse => "Unexpected response (wrong prefix).",
            ErrorBase::InvalidChecksum => "Checksum verification failed.",
            ErrorBase::IoError(_) => "Transport failure.",
        }
    }
}

} // verus!
