//! A half-open interval of offsets into a text buffer, together with the
//! interval arithmetic needed to reason about such spans: emptiness, point
//! and range containment, intersection, and the smallest covering range.
//!
//! Offsets are [`TextSize`] values: unsigned 32-bit positions whose maximum
//! representable value is reserved as an "unbounded" sentinel, so a range
//! whose end is the sentinel extends to the end of whatever buffer it
//! addresses.

pub mod range;
pub mod size;

pub use range::EndBound;
pub use range::TextRange;
pub use size::TextSize;
