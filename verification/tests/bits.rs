use blinksy::bits::{bits_of, bits_of_lsb, bits_of_msb, BitOrder, Bits, Word};

fn collect_bits<T: Word>(mut cursor: Bits<T>) -> Vec<bool> {
    let mut out = Vec::new();
    while let Some(bit) = cursor.next() {
        out.push(bit);
    }
    out
}

#[test]
fn test_u8_msb() {
    let bits: Vec<bool> = collect_bits(bits_of(&0b1010_0001_u8, BitOrder::MostSignificantBit));

    assert_eq!(bits, vec![true, false, true, false, false, false, false, true]);
}

#[test]
fn test_u8_lsb() {
    let bits: Vec<bool> = collect_bits(bits_of(&0b1010_0001_u8, BitOrder::LeastSignificantBit));

    assert_eq!(bits, vec![true, false, false, false, false, true, false, true]);
}

#[test]
fn test_u16_msb() {
    let bits: Vec<bool> = collect_bits(bits_of(&0x0408_u16, BitOrder::MostSignificantBit));

    assert_eq!(
        bits,
        vec![
            false, false, false, false, false, true, false, false, // 0x04
            false, false, false, false, true, false, false, false, // 0x08
        ]
    );
}

#[test]
fn test_u16_lsb() {
    let bits: Vec<bool> = collect_bits(bits_of(&0x0408_u16, BitOrder::LeastSignificantBit));

    assert_eq!(
        bits,
        vec![
            false, false, false, true, false, false, false, false, // 0x08
            false, false, true, false, false, false, false, false, // 0x04
        ]
    );
}

#[test]
fn test_msb_cursor_len() {
    let mut cursor = bits_of_msb(0xF0_u8);
    assert_eq!(cursor.len(), 8);
    assert_eq!(cursor.next(), Some(true));
    assert_eq!(cursor.len(), 7);
}

#[test]
fn test_lsb_cursor_exhausts() {
    let mut cursor = bits_of_lsb(0x01_u8);
    assert_eq!(cursor.next(), Some(true));
    for _ in 0..7 {
        assert_eq!(cursor.next(), Some(false));
    }
    assert_eq!(cursor.next(), None);
    assert_eq!(cursor.next(), None);
}

#[test]
fn test_u32_msb_top_bit() {
    let mut cursor = bits_of_msb(0x8000_0000_u32);
    assert_eq!(cursor.next(), Some(true));
    assert_eq!(cursor.len(), 31);
}

#[test]
fn test_u64_width() {
    assert_eq!(<u64 as Word>::width(), 64);
    assert!(0x8000_0000_0000_0000_u64.bit_at(63));
    assert!(!0x8000_0000_0000_0000_u64.bit_at(0));
}
