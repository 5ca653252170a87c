//! Core machinery for driving addressable LED hardware: bit-level word
//! iteration, color channel ordering, RGBW derivation, brightness and
//! color-correction compositing, and encoders for the clocked and clockless
//! wire protocol families.

pub mod bits;
pub mod channels;
pub mod clocked;
pub mod clockless;
pub mod color;
pub mod control;
pub mod driver;
pub mod layout;
pub mod leds;
pub mod markers;
pub mod rmt;
