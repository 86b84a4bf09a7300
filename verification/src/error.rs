//! The failures a display interface can report.

use vstd::prelude::*;

verus! {

/// What went wrong while talking to a display.
///
/// An error is its kind and nothing more: it carries no payload, so it can be
/// handed from interface to driver without allocation. Further kinds may be
/// added later, which is why a `match` outside this crate needs a fallback
/// arm.
#[derive(Debug)]
#[non_exhaustive]
pub enum DisplayError {
    /// The data cannot be expressed on this transport at all.
    InvalidFormatError,
    /// The transport failed while writing.
    BusWriteError,
    /// The data/command line could not be driven.
    DCError,
    /// The chip-select line could not be driven.
    CSError,
    /// The interface knows this data format but does not transmit it.
    DataFormatNotImplemented,
}

impl Clone for DisplayError {
    /// A clone reports the same kind of failure as the value it was made from.
    fn clone(&self) -> (copy: Self)
        ensures
            copy == *self,
    {
        match self {
            DisplayError::InvalidFormatError => DisplayError::InvalidFormatError,
            DisplayError::BusWriteError => DisplayError::BusWriteError,
            DisplayError::DCError => DisplayError::DCError,
            DisplayError::CSError => DisplayError::CSError,
            DisplayError::DataFormatNotImplemented => DisplayError::DataFormatNotImplemented,
        }
    }
}

} // verus!
