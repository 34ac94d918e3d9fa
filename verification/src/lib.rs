//! A read-only counterpart of [`core::cell::Cell`].
//!
//! [`ReadCell`] owns a value that can be read, but not written, through a
//! shared reference. [`ReadRef`] is the read-only handle on a location that
//! somebody else owns: it is made from a plain shared reference or from a
//! reference to a [`core::cell::Cell`], and in the second case it keeps
//! following what the cell holds.
//!
//! Everything here is safe code. A handle therefore carries the reference it
//! was made from, with a tag that tells the two kinds apart, where a
//! transparent wrapper would reuse the reference itself; and handing out the
//! handles on the items of a sequence builds a new sequence.

pub mod borrowed;
pub mod compare;
pub mod laws;
pub mod owned;
pub mod std_cell;

pub use borrowed::ReadRef;
pub use owned::ReadCell;
