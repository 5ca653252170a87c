use blinksy::clockless::ClocklessLed;
use blinksy::leds::Ws2812;
use blinksy::rmt::{
    pulse_code, setup_pulses, ClocklessRmt, ClocklessRmtDriver, ClocklessRmtDriverError,
};

#[test]
fn test_pulse_code_layout() {
    // first half: 1 tick high (bit 15 set); second half: 2 ticks low
    assert_eq!(pulse_code(true, 1, false, 2), 0x0002_8001);
    assert_eq!(pulse_code(false, 0x7FFF, false, 0), 0x0000_7FFF);
    assert_eq!(pulse_code(true, 0, true, 0), 0x8000_8000);
}

#[test]
fn test_setup_pulses_at_80_mhz() {
    let timing = <Ws2812 as ClocklessLed>::timing();
    let pulses = setup_pulses(timing, 80).expect("all durations fit at 80 MHz");
    // 400 ns -> 32 ticks, 850 ns -> 68 ticks
    assert_eq!(pulses.zero, pulse_code(true, 32, false, 68));
    // 800 ns -> 64 ticks, 450 ns -> 36 ticks
    assert_eq!(pulses.one, pulse_code(true, 64, false, 36));
    // 50 us -> 4000 ticks of idle low
    assert_eq!(pulses.reset, pulse_code(false, 4000, false, 0));
}

#[test]
fn test_setup_pulses_rejects_unresolvable_clock() {
    let timing = <Ws2812 as ClocklessLed>::timing();
    // at 1 MHz the 400 ns pulse is below one tick
    assert_eq!(setup_pulses(timing, 1).ok(), None);
    // at 0 MHz nothing is representable
    assert_eq!(setup_pulses(timing, 0), Err(ClocklessRmtDriverError::InvalidTiming));
}

#[test]
fn test_driver_construction_faults() {
    // a buffer of one code cannot hold a code plus the terminator
    assert_eq!(
        ClocklessRmtDriver::<Ws2812>::new(80, 1).err(),
        Some(ClocklessRmtDriverError::BufferSizeExceeded)
    );
    assert_eq!(
        ClocklessRmtDriver::<Ws2812>::new(0, 64).err(),
        Some(ClocklessRmtDriverError::InvalidTiming)
    );
    assert!(ClocklessRmtDriver::<Ws2812>::new(80, 64).is_ok());
}

#[test]
fn test_encode_single_buffer() {
    let driver = ClocklessRmtDriver::<Ws2812>::new(80, 64).expect("valid configuration");
    // one pixel's three bytes: 24 data codes + reset + terminator = 26
    let buffer = driver.encode(&vec![0x00, 0xFF, 0x00]).expect("26 codes fit in 64");
    assert_eq!(buffer.len(), 26);
    let zero = pulse_code(true, 32, false, 68);
    let one = pulse_code(true, 64, false, 36);
    assert_eq!(buffer[0], zero);
    assert_eq!(buffer[8], one);
    assert_eq!(buffer[24], pulse_code(false, 4000, false, 0));
    assert_eq!(buffer[25], 0);
}

#[test]
fn test_encode_capacity_fault_before_transmission() {
    // 3 bytes need 26 codes; a 25-code buffer must be refused outright
    let driver = ClocklessRmtDriver::<Ws2812>::new(80, 25).expect("valid configuration");
    assert_eq!(
        driver.encode(&vec![0x00, 0xFF, 0x00]),
        Err(ClocklessRmtDriverError::BufferSizeExceeded)
    );
    // the same frame fits a 26-code buffer exactly
    let driver = ClocklessRmtDriver::<Ws2812>::new(80, 26).expect("valid configuration");
    assert!(driver.encode(&vec![0x00, 0xFF, 0x00]).is_ok());
}

#[test]
fn test_encode_chunks_splits_and_terminates() {
    let driver = ClocklessRmtDriver::<Ws2812>::new(80, 10).expect("valid configuration");
    // 2 bytes: 16 data codes + reset = 17 payload codes, in chunks of 9
    let frame = vec![0xA5u8, 0x5A];
    let chunks = driver.encode_chunks(&frame);
    assert_eq!(chunks.len(), 2);
    // every buffer before the last is filled to the configured size
    assert_eq!(chunks[0].len(), 10);
    assert_eq!(chunks[1].len(), 9);
    for chunk in &chunks {
        assert!(chunk.len() <= 10);
        assert_eq!(*chunk.last().expect("chunks are never empty"), 0);
    }
    let payload: Vec<u32> =
        chunks.iter().flat_map(|c| c[..c.len() - 1].to_vec()).collect();
    let big = ClocklessRmtDriver::<Ws2812>::new(80, 64).expect("valid configuration");
    let whole = big.encode(&frame).expect("18 codes fit in a large buffer");
    // chunk payloads in order are exactly the single-buffer codes minus its
    // terminator
    assert_eq!(payload, whole[..whole.len() - 1].to_vec());
}

#[test]
fn test_builder_path() {
    let driver = ClocklessRmt::new()
        .with_led::<Ws2812>()
        .with_rmt_buffer_size(64)
        .build(80)
        .expect("valid configuration");
    assert!(driver.encode(&vec![0x12]).is_ok());
}
