//! A multi-domain measurement-conversion library.
//!
//! A scalar quantity tagged with a unit of a physical domain (distance,
//! temperature, plane angle) can be converted into any other unit of the
//! same domain that the source unit's conversion table supports.  Scalars
//! are exact rationals, so every conversion table entry is the exact
//! decimal constant it is documented to be.  A calendrical module turns a
//! validated civil date/time into its Julian Day Number, likewise as an
//! exact rational.

pub mod angular;
pub mod distance;
pub mod ratio;
pub mod temperature;
pub mod time;
pub mod units;
