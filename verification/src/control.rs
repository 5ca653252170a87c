//! Orchestration of LED updates: a pattern produces one color per pixel per
//! tick, and a driver transmits them.
//!
//! [`Control`] owns a pattern and a driver together with the global
//! brightness and color correction, and forwards one frame per tick.
//! [`ControlBuilder`] assembles the generic pieces one by one.

use vstd::prelude::*;

use crate::color::{ColorCorrection, CHANNEL_MAX};
use crate::driver::Driver;
use crate::markers::{Async, Blocking, Dim1d, Dim2d, Dim3d};

verus! {

/// A pattern: produces one color per pixel for each point in time.
///
/// `Dim` is the dimension marker of the layouts the pattern can drive.
/// Implementors are the visual effects; they are external collaborators of
/// the protocol core and only meet it through this interface.
pub trait Pattern<Dim>: Sized {
    /// Parameters the pattern is created from.
    type Params;

    /// Color representation the pattern produces.
    type Color;

    /// Creates the pattern from its parameters.
    fn new(params: Self::Params) -> Self;

    /// Produces the frame's colors, one per pixel in index order, for the
    /// given time in milliseconds.
    fn tick(&self, time_in_ms: u64) -> Vec<Self::Color>;
}

/// Central LED control system: a layout, a pattern and a driver, plus the
/// global brightness and color correction.
pub struct Control<Dim, Layout, Pat, Drv> {
    dim: core::marker::PhantomData<Dim>,
    layout: core::marker::PhantomData<Layout>,
    pattern: Pat,
    driver: Drv,
    brightness: u16,
    correction: ColorCorrection,
}

impl<Dim, Layout, Pat, Drv> Control<Dim, Layout, Pat, Drv> where
    Pat: Pattern<Dim>,
    Drv: Driver<Color = Pat::Color>,
 {
    /// The stored pattern.
    pub closed spec fn spec_pattern(self) -> Pat {
        self.pattern
    }

    /// The stored driver.
    pub closed spec fn spec_driver(self) -> Drv {
        self.driver
    }

    /// The global brightness, a 16-bit fraction.
    pub closed spec fn spec_brightness(self) -> u16 {
        self.brightness
    }

    /// The global color correction.
    pub closed spec fn spec_correction(self) -> ColorCorrection {
        self.correction
    }

    /// Creates a control system at full brightness with neutral correction.
    pub fn new(pattern: Pat, driver: Drv) -> (r: Control<Dim, Layout, Pat, Drv>)
        ensures
            r.spec_pattern() == pattern,
            r.spec_driver() == driver,
            r.spec_brightness() == CHANNEL_MAX,
            r.spec_correction() == (ColorCorrection {
                red: CHANNEL_MAX,
                green: CHANNEL_MAX,
                blue: CHANNEL_MAX,
            }),
    {
        Control {
            dim: core::marker::PhantomData,
            layout: core::marker::PhantomData,
            pattern,
            driver,
            brightness: CHANNEL_MAX,
            correction: ColorCorrection::default(),
        }
    }

    /// Sets the global brightness, a 16-bit fraction where `0xFFFF` is full
    /// power.
    pub fn set_brightness(&mut self, brightness: u16)
        ensures
            final(self).spec_brightness() == brightness,
            final(self).spec_correction() == old(self).spec_correction(),
            final(self).spec_pattern() == old(self).spec_pattern(),
            final(self).spec_driver() == old(self).spec_driver(),
    {
        self.brightness = brightness;
    }

    /// Sets the global color correction.
    pub fn set_color_correction(&mut self, correction: ColorCorrection)
        ensures
            final(self).spec_correction() == correction,
            final(self).spec_brightness() == old(self).spec_brightness(),
            final(self).spec_pattern() == old(self).spec_pattern(),
            final(self).spec_driver() == old(self).spec_driver(),
    {
        self.correction = correction;
    }

    /// Runs one tick: asks the pattern for the frame's colors and hands them
    /// to the driver with the global brightness and correction.
    pub fn tick(&mut self, time_in_ms: u64) -> Result<(), Drv::Error> {
        let pixels = self.pattern.tick(time_in_ms);
        self.driver.write(&pixels, self.brightness, self.correction)
    }
}

/// Builder for [`Control`]: fixes the dimension and execution markers, then
/// takes the layout, the pattern and the driver one by one.
pub struct ControlBuilder<Dim, Exec, Layout, Pat, Drv> {
    dim: core::marker::PhantomData<Dim>,
    execution: core::marker::PhantomData<Exec>,
    layout: core::marker::PhantomData<Layout>,
    pattern: Pat,
    driver: Drv,
}

impl<Dim, Exec, Layout, Pat, Drv> ControlBuilder<Dim, Exec, Layout, Pat, Drv> {
    /// The stored pattern.
    pub closed spec fn spec_pattern(self) -> Pat {
        self.pattern
    }

    /// The stored driver.
    pub closed spec fn spec_driver(self) -> Drv {
        self.driver
    }
}

impl ControlBuilder<(), (), (), (), ()> {
    /// Starts building a one-dimensional blocking control system.
    pub fn new_1d() -> (r: ControlBuilder<Dim1d, Blocking, (), (), ()>) {
        ControlBuilder {
            dim: core::marker::PhantomData,
            execution: core::marker::PhantomData,
            layout: core::marker::PhantomData,
            pattern: (),
            driver: (),
        }
    }

    /// Starts building a one-dimensional asynchronous control system.
    pub fn new_1d_async() -> (r: ControlBuilder<Dim1d, Async, (), (), ()>) {
        ControlBuilder {
            dim: core::marker::PhantomData,
            execution: core::marker::PhantomData,
            layout: core::marker::PhantomData,
            pattern: (),
            driver: (),
        }
    }

    /// Starts building a two-dimensional blocking control system.
    pub fn new_2d() -> (r: ControlBuilder<Dim2d, Blocking, (), (), ()>) {
        ControlBuilder {
            dim: core::marker::PhantomData,
            execution: core::marker::PhantomData,
            layout: core::marker::PhantomData,
            pattern: (),
            driver: (),
        }
    }

    /// Starts building a two-dimensional asynchronous control system.
    pub fn new_2d_async() -> (r: ControlBuilder<Dim2d, Async, (), (), ()>) {
        ControlBuilder {
            dim: core::marker::PhantomData,
            execution: core::marker::PhantomData,
            layout: core::marker::PhantomData,
            pattern: (),
            driver: (),
        }
    }

    /// Starts building a three-dimensional blocking control system.
    pub fn new_3d() -> (r: ControlBuilder<Dim3d, Blocking, (), (), ()>) {
        ControlBuilder {
            dim: core::marker::PhantomData,
            execution: core::marker::PhantomData,
            layout: core::marker::PhantomData,
            pattern: (),
            driver: (),
        }
    }

    /// Starts building a three-dimensional asynchronous control system.
    pub fn new_3d_async() -> (r: ControlBuilder<Dim3d, Async, (), (), ()>) {
        ControlBuilder {
            dim: core::marker::PhantomData,
            execution: core::marker::PhantomData,
            layout: core::marker::PhantomData,
            pattern: (),
            driver: (),
        }
    }
}

impl<Dim, Exec, Pat, Drv> ControlBuilder<Dim, Exec, (), Pat, Drv> {
    /// Specifies the layout type.
    pub fn with_layout<Layout>(self) -> (r: ControlBuilder<Dim, Exec, Layout, Pat, Drv>)
        ensures
            r.spec_pattern() == self.spec_pattern(),
            r.spec_driver() == self.spec_driver(),
    {
        ControlBuilder {
            dim: self.dim,
            execution: self.execution,
            layout: core::marker::PhantomData,
            pattern: self.pattern,
            driver: self.driver,
        }
    }
}

impl<Dim, Exec, Layout, Drv> ControlBuilder<Dim, Exec, Layout, (), Drv> {
    /// Creates the pattern from its parameters and stores it.
    pub fn with_pattern<Pat: Pattern<Dim>>(self, params: Pat::Params) -> (r: ControlBuilder<
        Dim,
        Exec,
        Layout,
        Pat,
        Drv,
    >)
        ensures
            r.spec_driver() == self.spec_driver(),
    {
        let pattern = Pat::new(params);
        ControlBuilder {
            dim: self.dim,
            execution: self.execution,
            layout: self.layout,
            pattern,
            driver: self.driver,
        }
    }
}

impl<Dim, Exec, Layout, Pat> ControlBuilder<Dim, Exec, Layout, Pat, ()> {
    /// Stores the driver.
    pub fn with_driver<Drv>(self, driver: Drv) -> (r: ControlBuilder<Dim, Exec, Layout, Pat, Drv>)
        ensures
            r.spec_driver() == driver,
            r.spec_pattern() == self.spec_pattern(),
    {
        ControlBuilder {
            dim: self.dim,
            execution: self.execution,
            layout: self.layout,
            pattern: self.pattern,
            driver,
        }
    }
}

impl<Dim, Layout, Pat, Drv> ControlBuilder<Dim, Blocking, Layout, Pat, Drv> where
    Pat: Pattern<Dim>,
    Drv: Driver<Color = Pat::Color>,
 {
    /// Builds the final [`Control`].
    pub fn build(self) -> (r: Control<Dim, Layout, Pat, Drv>)
        ensures
            r.spec_pattern() == self.spec_pattern(),
            r.spec_driver() == self.spec_driver(),
            r.spec_brightness() == CHANNEL_MAX,
    {
        Control::new(self.pattern, self.driver)
    }
}

/// A one-dimensional control system: a pattern and a driver, driven at full
/// brightness with neutral correction.
pub struct Control1d<Layout, Pat, Drv> {
    layout: core::marker::PhantomData<Layout>,
    pattern: Pat,
    driver: Drv,
}

impl<Layout, Pat, Drv> Control1d<Layout, Pat, Drv> where
    Pat: Pattern<Dim1d>,
    Drv: Driver<Color = Pat::Color>,
 {
    /// The stored pattern.
    pub closed spec fn spec_pattern(self) -> Pat {
        self.pattern
    }

    /// The stored driver.
    pub closed spec fn spec_driver(self) -> Drv {
        self.driver
    }

    /// Creates a one-dimensional control system.
    pub fn new(pattern: Pat, driver: Drv) -> (r: Control1d<Layout, Pat, Drv>)
        ensures
            r.spec_pattern() == pattern,
            r.spec_driver() == driver,
    {
        Control1d { layout: core::marker::PhantomData, pattern, driver }
    }

    /// Runs one tick at full brightness with neutral correction.
    pub fn tick(&mut self, time_in_ms: u64) -> Result<(), Drv::Error> {
        let pixels = self.pattern.tick(time_in_ms);
        self.driver.write(&pixels, CHANNEL_MAX, ColorCorrection::default())
    }
}

/// Builder for [`Control1d`].
pub struct Control1dBuilder<Layout, Pat, Drv> {
    layout: core::marker::PhantomData<Layout>,
    pattern: Pat,
    driver: Drv,
}

impl<Layout, Pat, Drv> Control1dBuilder<Layout, Pat, Drv> {
    /// The stored pattern.
    pub closed spec fn spec_pattern(self) -> Pat {
        self.pattern
    }

    /// The stored driver.
    pub closed spec fn spec_driver(self) -> Drv {
        self.driver
    }
}

impl Control1dBuilder<(), (), ()> {
    /// Starts an empty builder.
    pub fn new() -> (r: Control1dBuilder<(), (), ()>) {
        Control1dBuilder {
            layout: core::marker::PhantomData,
            pattern: (),
            driver: (),
        }
    }
}

impl<Pat, Drv> Control1dBuilder<(), Pat, Drv> {
    /// Specifies the layout type.
    pub fn with_layout<Layout>(self) -> (r: Control1dBuilder<Layout, Pat, Drv>)
        ensures
            r.spec_pattern() == self.spec_pattern(),
            r.spec_driver() == self.spec_driver(),
    {
        Control1dBuilder {
            layout: core::marker::PhantomData,
            pattern: self.pattern,
            driver: self.driver,
        }
    }
}

impl<Layout, Drv> Control1dBuilder<Layout, (), Drv> {
    /// Creates the pattern from its parameters and stores it.
    pub fn with_pattern<Pat: Pattern<Dim1d>>(self, params: Pat::Params) -> (r: Control1dBuilder<
        Layout,
        Pat,
        Drv,
    >)
        ensures
            r.spec_driver() == self.spec_driver(),
    {
        let pattern = Pat::new(params);
        Control1dBuilder { layout: self.layout, pattern, driver: self.driver }
    }
}

impl<Layout, Pat> Control1dBuilder<Layout, Pat, ()> {
    /// Stores the driver.
    pub fn with_driver<Drv>(self, driver: Drv) -> (r: Control1dBuilder<Layout, Pat, Drv>)
        ensures
            r.spec_driver() == driver,
            r.spec_pattern() == self.spec_pattern(),
    {
        Control1dBuilder { layout: self.layout, pattern: self.pattern, driver }
    }
}

impl<Layout, Pat, Drv> Control1dBuilder<Layout, Pat, Drv> where
    Pat: Pattern<Dim1d>,
    Drv: Driver<Color = Pat::Color>,
 {
    /// Builds the final [`Control1d`].
    pub fn build(self) -> (r: Control1d<Layout, Pat, Drv>)
        ensures
            r.spec_pattern() == self.spec_pattern(),
            r.spec_driver() == self.spec_driver(),
    {
        Control1d::new(self.pattern, self.driver)
    }
}

} // verus!
