use blinksy::clocked::{
    clocked_frame, clocked_half_cycle_ns, clocked_signal, BufferWriter, ClockedAction,
    ClockedDriver, ClockedWriter,
};
use blinksy::color::{ColorCorrection, LinearRgb, CHANNEL_MAX};
use blinksy::driver::DriverError;
use blinksy::leds::{Apa102, Lpd8806};

#[test]
fn test_apa102_three_pixel_stream_is_17_bytes() {
    // 4 start bytes + 3 pixels of 4 bytes + ceil(2/16) = 1 end byte
    let writer = BufferWriter::new();
    let mut driver = ClockedDriver::<Apa102, BufferWriter>::new(writer, 3);
    let pixels = vec![
        LinearRgb::new(CHANNEL_MAX, 0, 0),
        LinearRgb::new(0, CHANNEL_MAX, 0),
        LinearRgb::new(0, 0, CHANNEL_MAX),
    ];
    driver
        .write(&pixels, CHANNEL_MAX, ColorCorrection::default())
        .expect("the in-memory writer cannot fail");
    assert_eq!(driver.writer().bytes().len(), 17);
}

#[test]
fn test_apa102_stream_contents() {
    let writer = BufferWriter::new();
    let mut driver = ClockedDriver::<Apa102, BufferWriter>::new(writer, 1);
    let pixels = vec![LinearRgb::new(CHANNEL_MAX, 0, 0)];
    driver
        .write(&pixels, CHANNEL_MAX, ColorCorrection::default())
        .expect("the in-memory writer cannot fail");
    let bytes = driver.writer().bytes();
    // start frame, then header (top 3 bits plus full 5-bit brightness),
    // then B, G, R; no end bytes for a single pixel
    assert_eq!(bytes, &vec![0x00, 0x00, 0x00, 0x00, 0xFF, 0x00, 0x00, 0xFF]);
}

#[test]
fn test_apa102_brightness_header() {
    let writer = BufferWriter::new();
    let mut driver = ClockedDriver::<Apa102, BufferWriter>::new(writer, 1);
    let pixels = vec![LinearRgb::new(0, 0, 0)];
    // zero brightness leaves only the three mandatory header bits
    driver
        .write(&pixels, 0, ColorCorrection::default())
        .expect("the in-memory writer cannot fail");
    assert_eq!(driver.writer().bytes()[4], 0xE0);
}

#[test]
fn test_lpd8806_stream() {
    let writer = BufferWriter::new();
    let mut driver = ClockedDriver::<Lpd8806, BufferWriter>::new(writer, 1);
    let pixels = vec![LinearRgb::new(CHANNEL_MAX, 0, 0)];
    driver
        .write(&pixels, CHANNEL_MAX, ColorCorrection::default())
        .expect("the in-memory writer cannot fail");
    // 4 start bytes + GRB words; 0xFFFF narrows to 0xFF whose 7-bit word is
    // 0x80 | 0x7F, and zero channels keep only the latch bit
    assert_eq!(driver.writer().bytes(), &vec![0x00, 0x00, 0x00, 0x00, 0x80, 0xFF, 0x80]);
}

#[test]
fn test_mismatched_pixel_count_writes_nothing() {
    let writer = BufferWriter::new();
    let mut driver = ClockedDriver::<Apa102, BufferWriter>::new(writer, 3);
    let pixels = vec![LinearRgb::new(0, 0, 0)];
    let result = driver.write(&pixels, CHANNEL_MAX, ColorCorrection::default());
    assert_eq!(result, Err(DriverError::PixelCountMismatch));
    assert_eq!(driver.writer().bytes().len(), 0);
}

#[test]
fn test_end_frame_grows_every_16_pixels() {
    for (pixel_count, total) in [(1usize, 8usize), (16, 69), (17, 73), (33, 138)] {
        let writer = BufferWriter::new();
        let mut driver = ClockedDriver::<Apa102, BufferWriter>::new(writer, pixel_count);
        let pixels = vec![LinearRgb::new(0, 0, 0); pixel_count];
        driver
            .write(&pixels, CHANNEL_MAX, ColorCorrection::default())
            .expect("the in-memory writer cannot fail");
        assert_eq!(driver.writer().bytes().len(), total);
    }
}

#[test]
fn test_chipset_frame_buffer_sizes() {
    assert_eq!(Apa102::frame_buffer_size(3), 17);
    assert_eq!(Apa102::frame_buffer_size(17), 73);
    assert_eq!(Lpd8806::frame_buffer_size(1), 7);
    assert_eq!(Lpd8806::frame_buffer_size(17), 56);
}

#[test]
fn test_clocked_frame_function() {
    let pixels = vec![LinearRgb::new(0, 0, 0); 3];
    let frame = clocked_frame::<Apa102>(&pixels, CHANNEL_MAX, ColorCorrection::default());
    assert_eq!(frame.len(), 17);
}

#[test]
fn test_buffer_writer_accumulates() {
    let mut writer = BufferWriter::new();
    writer.write(&[1, 2]).expect("the in-memory writer cannot fail");
    writer.write(&[3]).expect("the in-memory writer cannot fail");
    assert_eq!(writer.bytes(), &vec![1, 2, 3]);
}

#[test]
fn test_half_cycle_from_data_rate() {
    // 2 MHz clock: 500 ns cycle, 250 ns half cycle
    assert_eq!(clocked_half_cycle_ns(2), 250);
    assert_eq!(clocked_half_cycle_ns(1), 500);
}

#[test]
fn test_clocked_signal_one_byte() {
    let actions = clocked_signal(&vec![0x80u8], 250);
    assert_eq!(actions.len(), 40);
    // first bit is 1
    assert_eq!(
        &actions[0..5],
        &[
            ClockedAction::SetData(true),
            ClockedAction::Delay(250),
            ClockedAction::SetClockHigh,
            ClockedAction::Delay(250),
            ClockedAction::SetClockLow,
        ]
    );
    // remaining bits are 0
    assert_eq!(actions[5], ClockedAction::SetData(false));
    assert_eq!(actions[35], ClockedAction::SetData(false));
}
