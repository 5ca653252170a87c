//! Layout interface.
//!
//! A layout maps pixel indices to positions in space; the geometry itself is
//! an external collaborator, and the protocol core only needs to know how
//! many pixels a layout holds.

use vstd::prelude::*;

verus! {

/// A one-dimensional layout: a chain of pixels along a line.
///
/// Implementors live with the geometry system outside the protocol core, so
/// the interface carries no contract.
pub trait Layout1d {
    /// How many pixels the layout holds.
    fn pixel_count() -> usize;
}

} // verus!
