//! Verified core of a toolkit that converts radio-interferometer visibility
//! data between storage formats and analyses per-channel RFI flag occupancy.
//!
//! The modules here hold the bit-exact logic of the toolkit: decoding a
//! packed-bit flag archive into per-channel statistics, deriving a reflag
//! directive from those statistics, laying out the header and tables of a
//! random-group visibility container, and building the text of an RTS
//! configuration file.  File I/O, coordinate math and floating-point work
//! stay outside, in the unverified shell around this library.

pub mod delays;
pub mod errors;
pub mod flags;
pub mod numfmt;
pub mod occupancy;
pub mod rts;
pub mod time;
pub mod uvfits;
