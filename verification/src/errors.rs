//! Error taxonomy of the library.
//!
//! Every fallible operation of the verified core returns one of these
//! variants; the contracts of the functions say exactly on which inputs each
//! variant comes.

use vstd::prelude::*;

verus! {

/// A malformed or inconsistent flag archive or date string.
#[derive(Debug, Clone, PartialEq, Eq, Structural)]
pub enum FormatError {
    /// The raw bit buffer does not have the length implied by the header
    /// scalars.
    BufferLengthMismatch,
    /// A header scalar is zero or the channel count does not fit in the row
    /// width.
    BadDimensions,
    /// The total number of samples does not fit the statistics counters.
    TooManySamples,
    /// A date string is not of the form `YYYY-MM-DDTHH:MM:SS` or holds an
    /// impossible calendar date.
    BadDateString,
}

/// A value outside the range a routine accepts.
#[derive(Debug, Clone, PartialEq, Eq, Structural)]
pub enum ValueError {
    /// A reflag threshold outside `(0, 1]`.
    ThresholdOutOfRange,
    /// A visibility sample row whose length does not match the container
    /// header.
    SampleLengthMismatch,
    /// Polarisation columns of differing lengths.
    PolarisationLengthMismatch,
}

/// The geodetic/time collaborator reported a non-zero status.
#[derive(Debug, Clone, PartialEq, Eq, Structural)]
pub struct ConversionError {
    pub status: i32,
}

} // verus!
