//! The uniform driver contract.
//!
//! A driver owns one transmission resource and is called once per tick with a
//! full frame of colors plus the global brightness and correction. The pixel
//! count is fixed when the driver is built; a frame of any other length is a
//! configuration fault and is reported before anything is transmitted.

use vstd::prelude::*;

use crate::color::{ColorCorrection, LinearRgb};

verus! {

/// Faults a driver can report.
///
/// Transmission faults are propagated immediately and never retried inside
/// the library: a retry in the middle of a frame would break the protocol's
/// timing. Capacity and configuration faults are reported before anything is
/// transmitted.
#[derive(Clone, Copy, Debug, PartialEq, Eq, Structural)]
pub enum DriverError<E> {
    /// Configuration fault: the frame's length differs from the driver's
    /// fixed pixel count.
    PixelCountMismatch,
    /// Transmission fault from the underlying channel.
    Io(E),
}

/// The uniform interface between the orchestration layer and a transmission
/// backend: one call writes one full frame of colors.
pub trait Driver {
    /// Fault type the backend reports.
    type Error;

    /// Color representation the backend accepts.
    type Color;

    /// Writes one frame. `pixels` must hold exactly the driver's fixed pixel
    /// count of colors; `brightness` and the channel factors of `correction`
    /// are 16-bit fractions, `0xFFFF` standing for one.
    fn write(
        &mut self,
        pixels: &Vec<Self::Color>,
        brightness: u16,
        correction: ColorCorrection,
    ) -> Result<(), Self::Error>;
}

} // verus!
