//! The error shim for byte-stream wrappers.
//!
//! Stream-oriented adapters around the serial port report failures through a
//! small portable taxonomy instead of the transport layer's many variants.
//! `WouldBlock` is not an error in that taxonomy: stream wrappers turn it
//! into "try again" or "park the caller" before an [`Error`] is ever built.

use vstd::prelude::*;

use crate::bus::UsbError;

verus! {

/// The portable error taxonomy of the byte-stream wrappers.
#[derive(Clone, Copy, Debug, PartialEq, Eq, Structural)]
pub enum IoErrorKind {
    /// The host asked for something the device does not implement.
    Unsupported,
    /// An endpoint-memory or buffer-overflow condition.
    OutOfMemory,
    /// Any other transport error.
    Other,
}

/// A transport error as a byte-stream wrapper carries it.
#[derive(Clone, Copy, Debug, PartialEq, Eq, Structural)]
pub struct Error(pub UsbError);

impl Error {
    /// Where each transport error lands in the portable taxonomy.
    pub open spec fn spec_kind(&self) -> IoErrorKind {
        match self.0 {
            UsbError::Unsupported => IoErrorKind::Unsupported,
            UsbError::BufferOverflow => IoErrorKind::OutOfMemory,
            UsbError::EndpointOverflow => IoErrorKind::OutOfMemory,
            UsbError::EndpointMemoryOverflow => IoErrorKind::OutOfMemory,
            _ => IoErrorKind::Other,
        }
    }

    /// Maps the carried transport error onto the portable taxonomy:
    /// `Unsupported` stays `Unsupported`, the three overflow kinds become
    /// `OutOfMemory`, and everything else is `Other`.
    pub fn kind(&self) -> (r: IoErrorKind)
        ensures
            r == self.spec_kind(),
    {
        match self.0 {
            UsbError::Unsupported => IoErrorKind::Unsupported,
            UsbError::BufferOverflow => IoErrorKind::OutOfMemory,
            UsbError::EndpointOverflow => IoErrorKind::OutOfMemory,
            UsbError::EndpointMemoryOverflow => IoErrorKind::OutOfMemory,
            _ => IoErrorKind::Other,
        }
    }
}

impl From<UsbError> for Error {
    /// Wraps a transport error.
    fn from(e: UsbError) -> (r: Error) {
        Error(e)
    }
}

impl vstd::std_specs::convert::FromSpecImpl<UsbError> for Error {
    open spec fn obeys_from_spec() -> bool {
        true
    }

    open spec fn from_spec(e: UsbError) -> Error {
        Error(e)
    }
}

} // verus!
