//! Complex numbers in rectangular form over IEEE-754 binary64 components.
//!
//! A component is held as its 64-bit encoding, so that everything this crate
//! states is exact: which bits a sign change touches, what the two units are,
//! and how a value is laid out as text. Rounded arithmetic on the components
//! is the platform's and lives with the caller.

pub mod binary64;
pub mod complex;

pub use complex::Complex;
