use blinksy::clockless::{
    clockless_frame, clockless_frame_buffer_size, frame_pulses, ClocklessDriver, ClocklessLed,
    ProtocolTiming, Pulse,
};
use blinksy::channels::{ColorChannels, RgbChannels};
use blinksy::color::{ColorCorrection, LinearRgb, CHANNEL_MAX};
use blinksy::driver::DriverError;
use blinksy::leds::Ws2812;

#[test]
fn test_ws2812_timing_constants() {
    let timing = <Ws2812 as ClocklessLed>::timing();
    assert_eq!(
        timing,
        ProtocolTiming { t_0h: 400, t_0l: 850, t_1h: 800, t_1l: 450, t_reset: 50_000 }
    );
    assert_eq!(<Ws2812 as ClocklessLed>::channels(), ColorChannels::Rgb(RgbChannels::GRB));
}

#[test]
fn test_pulse_sequence_for_one_byte() {
    // bits of 0b1011_0000, most significant first: 1,0,1,1,0,0,0,0
    let timing = <Ws2812 as ClocklessLed>::timing();
    let pulses = frame_pulses(timing, &vec![0b1011_0000u8]);
    let one = Pulse { high_ns: 800, low_ns: 450 };
    let zero = Pulse { high_ns: 400, low_ns: 850 };
    assert_eq!(pulses, vec![one, zero, one, one, zero, zero, zero, zero]);
}

#[test]
fn test_pulse_sequence_length() {
    let timing = <Ws2812 as ClocklessLed>::timing();
    let pulses = frame_pulses(timing, &vec![0xAB, 0xCD, 0xEF]);
    assert_eq!(pulses.len(), 24);
}

#[test]
fn test_cycle_ns_takes_longer_cycle() {
    let timing = ProtocolTiming { t_0h: 300, t_0l: 900, t_1h: 600, t_1l: 550, t_reset: 80_000 };
    // 0-cycle is 1200, 1-cycle is 1150
    assert_eq!(timing.cycle_ns(), 1200);
}

#[test]
fn test_clockless_frame_pure_red_grb() {
    let channels = ColorChannels::Rgb(RgbChannels::GRB);
    let pixels = vec![LinearRgb::new(CHANNEL_MAX, 0, 0)];
    let frame = clockless_frame(channels, &pixels, CHANNEL_MAX, ColorCorrection::default());
    assert_eq!(frame, vec![0x00, 0xFF, 0x00]);
}

#[test]
fn test_clockless_driver_end_to_end_red() {
    let driver = ClocklessDriver::<Ws2812>::new(1);
    let pixels = vec![LinearRgb::new(CHANNEL_MAX, 0, 0)];
    let frame = driver
        .frame(&pixels, CHANNEL_MAX, ColorCorrection::default())
        .expect("one pixel matches the driver's pixel count");
    assert_eq!(frame, vec![0x00, 0xFF, 0x00]);

    let signal = driver
        .signal(&pixels, CHANNEL_MAX, ColorCorrection::default())
        .expect("one pixel matches the driver's pixel count");
    // 3 bytes of 8 bits each
    assert_eq!(signal.pulses.len(), 24);
    // green byte 0x00: eight zero pulses
    assert_eq!(signal.pulses[0], Pulse { high_ns: 400, low_ns: 850 });
    // red byte 0xFF: eight one pulses
    assert_eq!(signal.pulses[8], Pulse { high_ns: 800, low_ns: 450 });
    // the line then idles low for at least the 50 us reset
    assert!(signal.reset_ns >= 50_000);
}

#[test]
fn test_clockless_driver_rejects_wrong_pixel_count() {
    let driver = ClocklessDriver::<Ws2812>::new(2);
    let pixels = vec![LinearRgb::new(0, 0, 0)];
    assert_eq!(
        driver.frame(&pixels, CHANNEL_MAX, ColorCorrection::default()),
        Err(DriverError::PixelCountMismatch)
    );
}

#[test]
fn test_clockless_frame_applies_brightness() {
    let channels = ColorChannels::Rgb(RgbChannels::RGB);
    let pixels = vec![LinearRgb::new(CHANNEL_MAX, CHANNEL_MAX, 0)];
    // half brightness: 0x8000 / 0xFFFF of full scale
    let frame = clockless_frame(channels, &pixels, 0x8000, ColorCorrection::default());
    assert_eq!(frame, vec![0x80, 0x80, 0x00]);
}

#[test]
fn test_clockless_frame_applies_correction() {
    let channels = ColorChannels::Rgb(RgbChannels::RGB);
    let pixels = vec![LinearRgb::new(CHANNEL_MAX, CHANNEL_MAX, CHANNEL_MAX)];
    let correction = ColorCorrection::new(CHANNEL_MAX, 0x8000, 0);
    let frame = clockless_frame(channels, &pixels, CHANNEL_MAX, correction);
    assert_eq!(frame, vec![0xFF, 0x80, 0x00]);
}

#[test]
fn test_frame_buffer_size() {
    assert_eq!(clockless_frame_buffer_size(0), 0);
    assert_eq!(clockless_frame_buffer_size(10), 30);
    assert_eq!(Ws2812::frame_buffer_size(7), 21);
}
