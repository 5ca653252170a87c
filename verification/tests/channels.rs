use blinksy::channels::{rgb_to_rgbw, ColorArray, ColorChannels, RgbChannels, RgbOrder, RgbwChannels};
use blinksy::color::{ColorCorrection, LinearRgb, CHANNEL_MAX};

#[test]
fn test_rgb_reorder_values() {
    let rgb = [1u8, 2u8, 3u8];
    assert_eq!(RgbChannels::RGB.reorder(rgb), [1, 2, 3]);
    assert_eq!(RgbChannels::RBG.reorder(rgb), [1, 3, 2]);
    assert_eq!(RgbChannels::GRB.reorder(rgb), [2, 1, 3]);
    assert_eq!(RgbChannels::GBR.reorder(rgb), [2, 3, 1]);
    assert_eq!(RgbChannels::BRG.reorder(rgb), [3, 1, 2]);
    assert_eq!(RgbChannels::BGR.reorder(rgb), [3, 2, 1]);
}

#[test]
fn test_rgb_reorder_roundtrip_all_orders() {
    let orders = [
        RgbChannels::RGB,
        RgbChannels::RBG,
        RgbChannels::GRB,
        RgbChannels::GBR,
        RgbChannels::BRG,
        RgbChannels::BGR,
    ];
    let rgb = [17u8, 42u8, 99u8];
    for order in orders {
        let wire = order.reorder(rgb);
        let back = order.inverse().reorder(wire);
        assert_eq!(back, rgb);
    }
}

#[test]
fn test_rgbw_reorder_roundtrip_all_orders() {
    let orders = [
        RgbwChannels::WRGB,
        RgbwChannels::RWGB,
        RgbwChannels::RGWB,
        RgbwChannels::RGBW,
        RgbwChannels::WRBG,
        RgbwChannels::RWBG,
        RgbwChannels::RBWG,
        RgbwChannels::RBGW,
        RgbwChannels::WGRB,
        RgbwChannels::GWRB,
        RgbwChannels::GRWB,
        RgbwChannels::GRBW,
        RgbwChannels::WGBR,
        RgbwChannels::GWBR,
        RgbwChannels::GBWR,
        RgbwChannels::GBRW,
        RgbwChannels::WBRG,
        RgbwChannels::BWRG,
        RgbwChannels::BRWG,
        RgbwChannels::BRGW,
        RgbwChannels::WBGR,
        RgbwChannels::BWGR,
        RgbwChannels::BGWR,
        RgbwChannels::BGRW,
    ];
    let rgbw = [10u8, 20u8, 30u8, 40u8];
    for order in orders {
        let wire = order.reorder(rgbw);
        let back = order.inverse().reorder(wire);
        assert_eq!(back, rgbw);
    }
}

#[test]
fn test_rgbw_reorder_values() {
    let rgbw = [1u8, 2u8, 3u8, 4u8];
    assert_eq!(RgbwChannels::WRGB.reorder(rgbw), [4, 1, 2, 3]);
    assert_eq!(RgbwChannels::RGBW.reorder(rgbw), [1, 2, 3, 4]);
    assert_eq!(RgbwChannels::GRBW.reorder(rgbw), [2, 1, 3, 4]);
    assert_eq!(RgbwChannels::BGRW.reorder(rgbw), [3, 2, 1, 4]);
}

#[test]
fn test_rgb_order_reorder_tuple() {
    assert_eq!(RgbOrder::GRB.reorder((1u8, 2u8, 3u8)), [2, 1, 3]);
    assert_eq!(RgbOrder::BGR.reorder((1u8, 2u8, 3u8)), [3, 2, 1]);
}

#[test]
fn test_rgb_to_rgbw_white_extraction() {
    let rgbw = rgb_to_rgbw([10, 20, 5]);
    assert_eq!(rgbw, [5, 15, 0, 5]);
    // each color channel plus white gives the original channel back
    assert_eq!(rgbw[0] + rgbw[3], 10);
    assert_eq!(rgbw[1] + rgbw[3], 20);
    assert_eq!(rgbw[2] + rgbw[3], 5);
}

#[test]
fn test_rgb_to_rgbw_equal_channels() {
    assert_eq!(rgb_to_rgbw([7, 7, 7]), [0, 0, 0, 7]);
}

#[test]
fn test_rgb_to_rgbw_black_and_full() {
    assert_eq!(rgb_to_rgbw([0, 0, 0]), [0, 0, 0, 0]);
    assert_eq!(rgb_to_rgbw([255, 255, 255]), [0, 0, 0, 255]);
}

#[test]
fn test_channel_count() {
    assert_eq!(ColorChannels::Rgb(RgbChannels::GRB).channel_count(), 3);
    assert_eq!(ColorChannels::Rgbw(RgbwChannels::GRBW).channel_count(), 4);
}

#[test]
fn test_color_channels_reorder() {
    let reordered = ColorChannels::Rgb(RgbChannels::BGR).reorder(ColorArray::Rgb([1u8, 2, 3]));
    assert_eq!(reordered.as_slice(), &[3, 2, 1]);
}

#[test]
fn test_to_array_rgb() {
    let channels = ColorChannels::Rgb(RgbChannels::GRB);
    let red = LinearRgb::new(CHANNEL_MAX, 0, 0);
    let full = ColorCorrection::default();
    let arr = channels.to_array(red, CHANNEL_MAX, full);
    assert_eq!(arr.as_slice(), &[0x00, 0xFF, 0x00]);
}

#[test]
fn test_to_array_rgbw_derives_white() {
    let channels = ColorChannels::Rgbw(RgbwChannels::GRBW);
    let grey = LinearRgb::new(CHANNEL_MAX, CHANNEL_MAX, CHANNEL_MAX);
    let full = ColorCorrection::default();
    let arr = channels.to_array(grey, CHANNEL_MAX, full);
    // all light moves onto the white emitter
    assert_eq!(arr.as_slice(), &[0x00, 0x00, 0x00, 0xFF]);
}
