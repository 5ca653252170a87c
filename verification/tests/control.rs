use blinksy::clocked::{BufferWriter, ClockedDriver};
use blinksy::color::{ColorCorrection, LinearRgb};
use blinksy::control::{Control1dBuilder, ControlBuilder, Pattern};
use blinksy::driver::DriverError;
use blinksy::layout::Layout1d;
use blinksy::leds::Apa102;
use blinksy::markers::Dim1d;

struct Strip;

impl Layout1d for Strip {
    fn pixel_count() -> usize {
        3
    }
}

/// Produces the same color for every pixel on every tick.
struct Solid {
    color: LinearRgb,
    count: usize,
}

struct SolidParams {
    color: LinearRgb,
    count: usize,
}

impl Pattern<Dim1d> for Solid {
    type Params = SolidParams;
    type Color = LinearRgb;

    fn new(params: SolidParams) -> Self {
        Solid { color: params.color, count: params.count }
    }

    fn tick(&self, _time_in_ms: u64) -> Vec<LinearRgb> {
        vec![self.color; self.count]
    }
}

#[test]
fn test_control_tick_drives_driver() {
    let writer = BufferWriter::new();
    let driver = ClockedDriver::<Apa102, BufferWriter>::new(writer, 3);
    let mut control = ControlBuilder::new_1d()
        .with_layout::<Strip>()
        .with_pattern::<Solid>(SolidParams { color: LinearRgb::new(0, 0, 0), count: 3 })
        .with_driver(driver)
        .build();
    control.set_brightness(0x8000);
    control.set_color_correction(ColorCorrection::default());
    assert_eq!(control.tick(0), Ok(()));
    assert_eq!(control.tick(16), Ok(()));
}

#[test]
fn test_control_tick_reports_pixel_count_fault() {
    let writer = BufferWriter::new();
    let driver = ClockedDriver::<Apa102, BufferWriter>::new(writer, 3);
    let mut control = ControlBuilder::new_1d()
        .with_layout::<Strip>()
        .with_pattern::<Solid>(SolidParams { color: LinearRgb::new(0, 0, 0), count: 2 })
        .with_driver(driver)
        .build();
    assert_eq!(control.tick(0), Err(DriverError::PixelCountMismatch));
}

#[test]
fn test_layout_pixel_count() {
    assert_eq!(Strip::pixel_count(), 3);
}

#[test]
fn test_control_1d_builder() {
    let writer = BufferWriter::new();
    let driver = ClockedDriver::<Apa102, BufferWriter>::new(writer, 2);
    let mut control = Control1dBuilder::new()
        .with_layout::<Strip>()
        .with_pattern::<Solid>(SolidParams { color: LinearRgb::new(1, 2, 3), count: 2 })
        .with_driver(driver)
        .build();
    assert_eq!(control.tick(100), Ok(()));
}
