//! The error type of the library.

use hidapi::HidError;
use vstd::prelude::*;

verus! {

/// `hidapi::HidError`, the error of the HID transport. The library carries
/// it through and never looks inside.
#[verifier::external_type_specification]
#[verifier::external_body]
pub struct ExHidError(hidapi::HidError);

/// A possible error value when opening the sensor or taking a reading.
#[derive(Debug)]
pub enum Error {
    /// A hardware access error.
    Hid(Box<HidError>),
    /// The sensor returned an invalid message or a single read timeout
    /// expired.
    InvalidMessage,
    /// A checksum error.
    Checksum,
    /// The sensor did not report all values before the timeout expired.
    Timeout,
    /// The configured timeout was too large.
    InvalidTimeout,
}

impl From<HidError> for Error {
    fn from(err: HidError) -> (e: Error) {
        Error::Hid(Box::new(err))
    }
}

impl vstd::std_specs::convert::FromSpecImpl<HidError> for Error {
    open spec fn obeys_from_spec() -> bool {
        true
    }

    open spec fn from_spec(err: HidError) -> Error {
        Error::Hid(Box::new(err))
    }
}

} // verus!
