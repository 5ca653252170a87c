//! Type-level markers.
//!
//! Dimension markers state how many spatial dimensions a layout has, and
//! execution markers state whether a control system drives its backend
//! blocking or asynchronously. They carry no data; they only steer generic
//! types.

use vstd::prelude::*;

verus! {

/// Marker type for one-dimensional space.
pub struct Dim1d;

/// Marker type for two-dimensional space.
pub struct Dim2d;

/// Marker type for three-dimensional space.
pub struct Dim3d;

/// Marker type for blocking execution.
pub struct Blocking;

/// Marker type for asynchronous execution.
pub struct Async;

} // verus!
