//! Validation of NORAD two-line element sets (TLEs) and the requests made of
//! the SGP4 propagator: line checks, the split of a combined text, the epoch
//! and the elapsed time since it.
pub mod error;
pub mod laws;
pub mod propagator;
pub mod text;
pub mod tle;

pub use error::Error;
pub use tle::{Timestamp, TwoLineElement, TLE_LINE_LENGTH};
