//! Color channel ordering for LED chipsets.
//!
//! Chipsets expect the red, green, blue (and, for four-channel parts, white)
//! bytes of a pixel in a chipset-specific wire order. The orders are closed
//! enumerations of the 6 permutations of (R, G, B) and the 24 permutations of
//! (R, G, B, W); reordering is a pure permutation of array positions, and each
//! order has an inverse within the same enumeration.

use vstd::prelude::*;

use crate::color::{spec_channel_word, channel_word, ColorCorrection, LinearRgb};

verus! {

/// Enumeration of color channel formats.
///
/// Different LED chipsets have different ordering of color channels.
#[derive(Clone, Copy, Debug, PartialEq, Eq, Structural)]
pub enum ColorChannels {
    /// RGB with 3 channels
    Rgb(RgbChannels),
    /// RGBW with 4 channels
    Rgbw(RgbwChannels),
}

/// Enumeration of RGB channel orders.
#[derive(Clone, Copy, Debug, PartialEq, Eq, Structural)]
pub enum RgbChannels {
    /// Red, Green, Blue
    RGB,
    /// Red, Blue, Green
    RBG,
    /// Green, Red, Blue
    GRB,
    /// Green, Blue, Red
    GBR,
    /// Blue, Red, Green
    BRG,
    /// Blue, Green, Red
    BGR,
}

/// Enumeration of RGBW channel orders, one variant per permutation of the
/// four channels; each name spells the wire order.
#[derive(Clone, Copy, Debug, PartialEq, Eq, Structural)]
#[allow(missing_docs)]
pub enum RgbwChannels {
    WRGB,
    RWGB,
    RGWB,
    RGBW,
    WRBG,
    RWBG,
    RBWG,
    RBGW,
    WGRB,
    GWRB,
    GRWB,
    GRBW,
    WGBR,
    GWBR,
    GBWR,
    GBRW,
    WBRG,
    BWRG,
    BRWG,
    BRGW,
    WBGR,
    BWGR,
    BGWR,
    BGRW,
}

/// Container for one pixel's worth of channel words in wire order.
#[derive(Clone, Copy, Debug, PartialEq, Eq, Structural)]
pub enum ColorArray<Word> {
    /// RGB color data
    Rgb([Word; 3]),
    /// RGBW color data
    Rgbw([Word; 4]),
}

impl RgbChannels {
    /// The reordering of a canonical `[R, G, B]` sequence under this order.
    pub open spec fn spec_reorder<Word>(self, rgb: Seq<Word>) -> Seq<Word>
        recommends
            rgb.len() == 3,
    {
        match self {
            RgbChannels::RGB => seq![rgb[0], rgb[1], rgb[2]],
            RgbChannels::RBG => seq![rgb[0], rgb[2], rgb[1]],
            RgbChannels::GRB => seq![rgb[1], rgb[0], rgb[2]],
            RgbChannels::GBR => seq![rgb[1], rgb[2], rgb[0]],
            RgbChannels::BRG => seq![rgb[2], rgb[0], rgb[1]],
            RgbChannels::BGR => seq![rgb[2], rgb[1], rgb[0]],
        }
    }

    /// The order that undoes this one.
    pub open spec fn spec_inverse(self) -> RgbChannels {
        match self {
            RgbChannels::RGB => RgbChannels::RGB,
            RgbChannels::RBG => RgbChannels::RBG,
            RgbChannels::GRB => RgbChannels::GRB,
            RgbChannels::GBR => RgbChannels::BRG,
            RgbChannels::BRG => RgbChannels::GBR,
            RgbChannels::BGR => RgbChannels::BGR,
        }
    }

    /// Reorders `[R, G, B]` values into this wire order.
    pub fn reorder<Word: Copy>(&self, rgb: [Word; 3]) -> (r: [Word; 3])
        ensures
            r@ == self.spec_reorder(rgb@),
    {
        let r = match self {
            RgbChannels::RGB => [rgb[0], rgb[1], rgb[2]],
            RgbChannels::RBG => [rgb[0], rgb[2], rgb[1]],
            RgbChannels::GRB => [rgb[1], rgb[0], rgb[2]],
            RgbChannels::GBR => [rgb[1], rgb[2], rgb[0]],
            RgbChannels::BRG => [rgb[2], rgb[0], rgb[1]],
            RgbChannels::BGR => [rgb[2], rgb[1], rgb[0]],
        };
        proof {
            assert(r@ =~= self.spec_reorder(rgb@));
        }
        r
    }

    /// The order that undoes this one.
    pub fn inverse(&self) -> (r: RgbChannels)
        ensures
            r == self.spec_inverse(),
    {
        match self {
            RgbChannels::RGB => RgbChannels::RGB,
            RgbChannels::RBG => RgbChannels::RBG,
            RgbChannels::GRB => RgbChannels::GRB,
            RgbChannels::GBR => RgbChannels::BRG,
            RgbChannels::BRG => RgbChannels::GBR,
            RgbChannels::BGR => RgbChannels::BGR,
        }
    }
}

/// Reordering by an RGB order and then by its inverse returns the original
/// three-element sequence: every order is a bijection on positions, with no
/// value duplicated or dropped.
pub proof fn lemma_rgb_reorder_roundtrip<Word>(order: RgbChannels, rgb: Seq<Word>)
    requires
        rgb.len() == 3,
    ensures
        order.spec_inverse().spec_reorder(order.spec_reorder(rgb)) == rgb,
{
    match order {
        RgbChannels::RGB => {
            assert(order.spec_inverse().spec_reorder(order.spec_reorder(rgb)) =~= rgb);
        },
        RgbChannels::RBG => {
            assert(order.spec_inverse().spec_reorder(order.spec_reorder(rgb)) =~= rgb);
        },
        RgbChannels::GRB => {
            assert(order.spec_inverse().spec_reorder(order.spec_reorder(rgb)) =~= rgb);
        },
        RgbChannels::GBR => {
            assert(order.spec_inverse().spec_reorder(order.spec_reorder(rgb)) =~= rgb);
        },
        RgbChannels::BRG => {
            assert(order.spec_inverse().spec_reorder(order.spec_reorder(rgb)) =~= rgb);
        },
        RgbChannels::BGR => {
            assert(order.spec_inverse().spec_reorder(order.spec_reorder(rgb)) =~= rgb);
        },
    }
}


impl RgbwChannels {
    /// The reordering of a canonical `[R, G, B, W]` sequence under this order.
    pub open spec fn spec_reorder<Word>(self, rgbw: Seq<Word>) -> Seq<Word>
        recommends
            rgbw.len() == 4,
    {
        match self {
            RgbwChannels::WRGB => seq![rgbw[3], rgbw[0], rgbw[1], rgbw[2]],
            RgbwChannels::RWGB => seq![rgbw[0], rgbw[3], rgbw[1], rgbw[2]],
            RgbwChannels::RGWB => seq![rgbw[0], rgbw[1], rgbw[3], rgbw[2]],
            RgbwChannels::RGBW => seq![rgbw[0], rgbw[1], rgbw[2], rgbw[3]],
            RgbwChannels::WRBG => seq![rgbw[3], rgbw[0], rgbw[2], rgbw[1]],
            RgbwChannels::RWBG => seq![rgbw[0], rgbw[3], rgbw[2], rgbw[1]],
            RgbwChannels::RBWG => seq![rgbw[0], rgbw[2], rgbw[3], rgbw[1]],
            RgbwChannels::RBGW => seq![rgbw[0], rgbw[2], rgbw[1], rgbw[3]],
            RgbwChannels::WGRB => seq![rgbw[3], rgbw[1], rgbw[0], rgbw[2]],
            RgbwChannels::GWRB => seq![rgbw[1], rgbw[3], rgbw[0], rgbw[2]],
            RgbwChannels::GRWB => seq![rgbw[1], rgbw[0], rgbw[3], rgbw[2]],
            RgbwChannels::GRBW => seq![rgbw[1], rgbw[0], rgbw[2], rgbw[3]],
            RgbwChannels::WGBR => seq![rgbw[3], rgbw[1], rgbw[2], rgbw[0]],
            RgbwChannels::GWBR => seq![rgbw[1], rgbw[3], rgbw[2], rgbw[0]],
            RgbwChannels::GBWR => seq![rgbw[1], rgbw[2], rgbw[3], rgbw[0]],
            RgbwChannels::GBRW => seq![rgbw[1], rgbw[2], rgbw[0], rgbw[3]],
            RgbwChannels::WBRG => seq![rgbw[3], rgbw[2], rgbw[0], rgbw[1]],
            RgbwChannels::BWRG => seq![rgbw[2], rgbw[3], rgbw[0], rgbw[1]],
            RgbwChannels::BRWG => seq![rgbw[2], rgbw[0], rgbw[3], rgbw[1]],
            RgbwChannels::BRGW => seq![rgbw[2], rgbw[0], rgbw[1], rgbw[3]],
            RgbwChannels::WBGR => seq![rgbw[3], rgbw[2], rgbw[1], rgbw[0]],
            RgbwChannels::BWGR => seq![rgbw[2], rgbw[3], rgbw[1], rgbw[0]],
            RgbwChannels::BGWR => seq![rgbw[2], rgbw[1], rgbw[3], rgbw[0]],
            RgbwChannels::BGRW => seq![rgbw[2], rgbw[1], rgbw[0], rgbw[3]],
        }
    }

    /// The order that undoes this one.
    pub open spec fn spec_inverse(self) -> RgbwChannels {
        match self {
            RgbwChannels::WRGB => RgbwChannels::GBWR,
            RgbwChannels::RWGB => RgbwChannels::RBWG,
            RgbwChannels::RGWB => RgbwChannels::RGWB,
            RgbwChannels::RGBW => RgbwChannels::RGBW,
            RgbwChannels::WRBG => RgbwChannels::GWBR,
            RgbwChannels::RWBG => RgbwChannels::RWBG,
            RgbwChannels::RBWG => RgbwChannels::RWGB,
            RgbwChannels::RBGW => RgbwChannels::RBGW,
            RgbwChannels::WGRB => RgbwChannels::BGWR,
            RgbwChannels::GWRB => RgbwChannels::BRWG,
            RgbwChannels::GRWB => RgbwChannels::GRWB,
            RgbwChannels::GRBW => RgbwChannels::GRBW,
            RgbwChannels::WGBR => RgbwChannels::WGBR,
            RgbwChannels::GWBR => RgbwChannels::WRBG,
            RgbwChannels::GBWR => RgbwChannels::WRGB,
            RgbwChannels::GBRW => RgbwChannels::BRGW,
            RgbwChannels::WBRG => RgbwChannels::BWGR,
            RgbwChannels::BWRG => RgbwChannels::BWRG,
            RgbwChannels::BRWG => RgbwChannels::GWRB,
            RgbwChannels::BRGW => RgbwChannels::GBRW,
            RgbwChannels::WBGR => RgbwChannels::WBGR,
            RgbwChannels::BWGR => RgbwChannels::WBRG,
            RgbwChannels::BGWR => RgbwChannels::WGRB,
            RgbwChannels::BGRW => RgbwChannels::BGRW,
        }
    }

    /// Reorders `[R, G, B, W]` values into this wire order.
    pub fn reorder<Word: Copy>(&self, rgbw: [Word; 4]) -> (r: [Word; 4])
        ensures
            r@ == self.spec_reorder(rgbw@),
    {
        let r = match self {
            RgbwChannels::WRGB => [rgbw[3], rgbw[0], rgbw[1], rgbw[2]],
            RgbwChannels::RWGB => [rgbw[0], rgbw[3], rgbw[1], rgbw[2]],
            RgbwChannels::RGWB => [rgbw[0], rgbw[1], rgbw[3], rgbw[2]],
            RgbwChannels::RGBW => [rgbw[0], rgbw[1], rgbw[2], rgbw[3]],
            RgbwChannels::WRBG => [rgbw[3], rgbw[0], rgbw[2], rgbw[1]],
            RgbwChannels::RWBG => [rgbw[0], rgbw[3], rgbw[2], rgbw[1]],
            RgbwChannels::RBWG => [rgbw[0], rgbw[2], rgbw[3], rgbw[1]],
            RgbwChannels::RBGW => [rgbw[0], rgbw[2], rgbw[1], rgbw[3]],
            RgbwChannels::WGRB => [rgbw[3], rgbw[1], rgbw[0], rgbw[2]],
            RgbwChannels::GWRB => [rgbw[1], rgbw[3], rgbw[0], rgbw[2]],
            RgbwChannels::GRWB => [rgbw[1], rgbw[0], rgbw[3], rgbw[2]],
            RgbwChannels::GRBW => [rgbw[1], rgbw[0], rgbw[2], rgbw[3]],
            RgbwChannels::WGBR => [rgbw[3], rgbw[1], rgbw[2], rgbw[0]],
            RgbwChannels::GWBR => [rgbw[1], rgbw[3], rgbw[2], rgbw[0]],
            RgbwChannels::GBWR => [rgbw[1], rgbw[2], rgbw[3], rgbw[0]],
            RgbwChannels::GBRW => [rgbw[1], rgbw[2], rgbw[0], rgbw[3]],
            RgbwChannels::WBRG => [rgbw[3], rgbw[2], rgbw[0], rgbw[1]],
            RgbwChannels::BWRG => [rgbw[2], rgbw[3], rgbw[0], rgbw[1]],
            RgbwChannels::BRWG => [rgbw[2], rgbw[0], rgbw[3], rgbw[1]],
            RgbwChannels::BRGW => [rgbw[2], rgbw[0], rgbw[1], rgbw[3]],
            RgbwChannels::WBGR => [rgbw[3], rgbw[2], rgbw[1], rgbw[0]],
            RgbwChannels::BWGR => [rgbw[2], rgbw[3], rgbw[1], rgbw[0]],
            RgbwChannels::BGWR => [rgbw[2], rgbw[1], rgbw[3], rgbw[0]],
            RgbwChannels::BGRW => [rgbw[2], rgbw[1], rgbw[0], rgbw[3]],
        };
        proof {
            assert(r@ =~= self.spec_reorder(rgbw@));
        }
        r
    }

    /// The order that undoes this one.
    pub fn inverse(&self) -> (r: RgbwChannels)
        ensures
            r == self.spec_inverse(),
    {
        match self {
            RgbwChannels::WRGB => RgbwChannels::GBWR,
            RgbwChannels::RWGB => RgbwChannels::RBWG,
            RgbwChannels::RGWB => RgbwChannels::RGWB,
            RgbwChannels::RGBW => RgbwChannels::RGBW,
            RgbwChannels::WRBG => RgbwChannels::GWBR,
            RgbwChannels::RWBG => RgbwChannels::RWBG,
            RgbwChannels::RBWG => RgbwChannels::RWGB,
            RgbwChannels::RBGW => RgbwChannels::RBGW,
            RgbwChannels::WGRB => RgbwChannels::BGWR,
            RgbwChannels::GWRB => RgbwChannels::BRWG,
            RgbwChannels::GRWB => RgbwChannels::GRWB,
            RgbwChannels::GRBW => RgbwChannels::GRBW,
            RgbwChannels::WGBR => RgbwChannels::WGBR,
            RgbwChannels::GWBR => RgbwChannels::WRBG,
            RgbwChannels::GBWR => RgbwChannels::WRGB,
            RgbwChannels::GBRW => RgbwChannels::BRGW,
            RgbwChannels::WBRG => RgbwChannels::BWGR,
            RgbwChannels::BWRG => RgbwChannels::BWRG,
            RgbwChannels::BRWG => RgbwChannels::GWRB,
            RgbwChannels::BRGW => RgbwChannels::GBRW,
            RgbwChannels::WBGR => RgbwChannels::WBGR,
            RgbwChannels::BWGR => RgbwChannels::WBRG,
            RgbwChannels::BGWR => RgbwChannels::WGRB,
            RgbwChannels::BGRW => RgbwChannels::BGRW,
        }
    }
}

/// Reordering by an RGBW order and then by its inverse returns the original
/// four-element sequence: every order is a bijection on positions, with no
/// value duplicated or dropped.
pub proof fn lemma_rgbw_reorder_roundtrip<Word>(order: RgbwChannels, rgbw: Seq<Word>)
    requires
        rgbw.len() == 4,
    ensures
        order.spec_inverse().spec_reorder(order.spec_reorder(rgbw)) == rgbw,
{
    match order {
        RgbwChannels::WRGB => {
            assert(order.spec_inverse().spec_reorder(order.spec_reorder(rgbw)) =~= rgbw);
        },
        RgbwChannels::RWGB => {
            assert(order.spec_inverse().spec_reorder(order.spec_reorder(rgbw)) =~= rgbw);
        },
        RgbwChannels::RGWB => {
            assert(order.spec_inverse().spec_reorder(order.spec_reorder(rgbw)) =~= rgbw);
        },
        RgbwChannels::RGBW => {
            assert(order.spec_inverse().spec_reorder(order.spec_reorder(rgbw)) =~= rgbw);
        },
        RgbwChannels::WRBG => {
            assert(order.spec_inverse().spec_reorder(order.spec_reorder(rgbw)) =~= rgbw);
        },
        RgbwChannels::RWBG => {
            assert(order.spec_inverse().spec_reorder(order.spec_reorder(rgbw)) =~= rgbw);
        },
        RgbwChannels::RBWG => {
            assert(order.spec_inverse().spec_reorder(order.spec_reorder(rgbw)) =~= rgbw);
        },
        RgbwChannels::RBGW => {
            assert(order.spec_inverse().spec_reorder(order.spec_reorder(rgbw)) =~= rgbw);
        },
        RgbwChannels::WGRB => {
            assert(order.spec_inverse().spec_reorder(order.spec_reorder(rgbw)) =~= rgbw);
        },
        RgbwChannels::GWRB => {
            assert(order.spec_inverse().spec_reorder(order.spec_reorder(rgbw)) =~= rgbw);
        },
        RgbwChannels::GRWB => {
            assert(order.spec_inverse().spec_reorder(order.spec_reorder(rgbw)) =~= rgbw);
        },
        RgbwChannels::GRBW => {
            assert(order.spec_inverse().spec_reorder(order.spec_reorder(rgbw)) =~= rgbw);
        },
        RgbwChannels::WGBR => {
            assert(order.spec_inverse().spec_reorder(order.spec_reorder(rgbw)) =~= rgbw);
        },
        RgbwChannels::GWBR => {
            assert(order.spec_inverse().spec_reorder(order.spec_reorder(rgbw)) =~= rgbw);
        },
        RgbwChannels::GBWR => {
            assert(order.spec_inverse().spec_reorder(order.spec_reorder(rgbw)) =~= rgbw);
        },
        RgbwChannels::GBRW => {
            assert(order.spec_inverse().spec_reorder(order.spec_reorder(rgbw)) =~= rgbw);
        },
        RgbwChannels::WBRG => {
            assert(order.spec_inverse().spec_reorder(order.spec_reorder(rgbw)) =~= rgbw);
        },
        RgbwChannels::BWRG => {
            assert(order.spec_inverse().spec_reorder(order.spec_reorder(rgbw)) =~= rgbw);
        },
        RgbwChannels::BRWG => {
            assert(order.spec_inverse().spec_reorder(order.spec_reorder(rgbw)) =~= rgbw);
        },
        RgbwChannels::BRGW => {
            assert(order.spec_inverse().spec_reorder(order.spec_reorder(rgbw)) =~= rgbw);
        },
        RgbwChannels::WBGR => {
            assert(order.spec_inverse().spec_reorder(order.spec_reorder(rgbw)) =~= rgbw);
        },
        RgbwChannels::BWGR => {
            assert(order.spec_inverse().spec_reorder(order.spec_reorder(rgbw)) =~= rgbw);
        },
        RgbwChannels::BGWR => {
            assert(order.spec_inverse().spec_reorder(order.spec_reorder(rgbw)) =~= rgbw);
        },
        RgbwChannels::BGRW => {
            assert(order.spec_inverse().spec_reorder(order.spec_reorder(rgbw)) =~= rgbw);
        },
    }
}


/// The smaller of two wire words.
pub open spec fn spec_min_u8(a: u8, b: u8) -> u8 {
    if a <= b {
        a
    } else {
        b
    }
}

/// RGBW derivation on wire words: the white word is the minimum of the three
/// color words and is subtracted from each of them.
pub open spec fn spec_rgb_to_rgbw(rgb: Seq<u8>) -> Seq<u8>
    recommends
        rgb.len() == 3,
{
    let w = spec_min_u8(rgb[0], spec_min_u8(rgb[1], rgb[2]));
    seq![(rgb[0] - w) as u8, (rgb[1] - w) as u8, (rgb[2] - w) as u8, w]
}

/// Extracts the white component from `[R, G, B]` wire words as the minimum of
/// the three, and subtracts it from each channel, so the remaining RGB words
/// carry color only while the sum per channel is preserved.
pub fn rgb_to_rgbw(rgb: [u8; 3]) -> (r: [u8; 4])
    ensures
        r@ == spec_rgb_to_rgbw(rgb@),
        r@[3] == spec_min_u8(rgb@[0], spec_min_u8(rgb@[1], rgb@[2])),
        r@[0] + r@[3] == rgb@[0],
        r@[1] + r@[3] == rgb@[1],
        r@[2] + r@[3] == rgb@[2],
{
    let w = if rgb[0] <= rgb[1] && rgb[0] <= rgb[2] {
        rgb[0]
    } else if rgb[1] <= rgb[0] && rgb[1] <= rgb[2] {
        rgb[1]
    } else {
        rgb[2]
    };
    let r = [rgb[0] - w, rgb[1] - w, rgb[2] - w, w];
    proof {
        assert(r@ =~= spec_rgb_to_rgbw(rgb@));
    }
    r
}

impl<Word> ColorArray<Word> {
    /// The channel words in wire order.
    pub open spec fn spec_words(self) -> Seq<Word> {
        match self {
            ColorArray::Rgb(rgb) => rgb@,
            ColorArray::Rgbw(rgbw) => rgbw@,
        }
    }

    /// Whether this array carries RGB (as opposed to RGBW) data.
    pub open spec fn is_rgb(self) -> bool {
        self is Rgb
    }

    /// The channel words in wire order, as a slice.
    pub fn as_slice(&self) -> (r: &[Word])
        ensures
            r@ == self.spec_words(),
    {
        match self {
            ColorArray::Rgb(rgb) => vstd::array::array_as_slice(rgb),
            ColorArray::Rgbw(rgbw) => vstd::array::array_as_slice(rgbw),
        }
    }
}

/// One pixel's wire words: each linear channel is scaled by brightness and by
/// its correction factor, narrowed to 8 bits, a white word is derived when the
/// format is four-channel, and the words are put into the chipset's order.
pub open spec fn spec_pixel_words(
    channels: ColorChannels,
    color: LinearRgb,
    brightness: u16,
    correction: ColorCorrection,
) -> Seq<u8> {
    let r = spec_channel_word(color.red, brightness, correction.red);
    let g = spec_channel_word(color.green, brightness, correction.green);
    let b = spec_channel_word(color.blue, brightness, correction.blue);
    match channels {
        ColorChannels::Rgb(order) => order.spec_reorder(seq![r, g, b]),
        ColorChannels::Rgbw(order) => order.spec_reorder(spec_rgb_to_rgbw(seq![r, g, b])),
    }
}

impl ColorChannels {
    /// The number of channel words per pixel under this format.
    pub open spec fn spec_channel_count(self) -> usize {
        match self {
            ColorChannels::Rgb(_) => 3,
            ColorChannels::Rgbw(_) => 4,
        }
    }

    /// Returns the number of color channels.
    pub fn channel_count(&self) -> (r: usize)
        ensures
            r == self.spec_channel_count(),
    {
        match self {
            ColorChannels::Rgb(_) => 3,
            ColorChannels::Rgbw(_) => 4,
        }
    }

    /// Reorders a canonical color array into this format's wire order.
    ///
    /// The array must carry the same channel format: an RGB array for an RGB
    /// format, an RGBW array for an RGBW format.
    pub fn reorder<Word: Copy>(&self, color: ColorArray<Word>) -> (r: ColorArray<Word>)
        requires
            self is Rgb <==> color is Rgb,
        ensures
            r is Rgb <==> color is Rgb,
            self matches ColorChannels::Rgb(order) ==> r.spec_words() == order.spec_reorder(
                color.spec_words(),
            ),
            self matches ColorChannels::Rgbw(order) ==> r.spec_words() == order.spec_reorder(
                color.spec_words(),
            ),
    {
        match (self, color) {
            (ColorChannels::Rgb(rgb_order), ColorArray::Rgb(rgb)) => {
                ColorArray::Rgb(rgb_order.reorder(rgb))
            },
            (ColorChannels::Rgbw(rgbw_order), ColorArray::Rgbw(rgbw)) => {
                ColorArray::Rgbw(rgbw_order.reorder(rgbw))
            },
            (_, mismatched) => {
                proof {
                    assert(false);
                }
                mismatched
            },
        }
    }

    /// Turns one linear color into its wire words under this channel format,
    /// applying brightness and correction and deriving a white word for
    /// four-channel formats.
    pub fn to_array(&self, color: LinearRgb, brightness: u16, correction: ColorCorrection) -> (r:
        ColorArray<u8>)
        ensures
            r is Rgb <==> self is Rgb,
            r.spec_words() == spec_pixel_words(*self, color, brightness, correction),
            r.spec_words().len() == self.spec_channel_count(),
    {
        let red = channel_word(color.red, brightness, correction.red);
        let green = channel_word(color.green, brightness, correction.green);
        let blue = channel_word(color.blue, brightness, correction.blue);
        proof {
            assert([red, green, blue]@ =~= seq![red, green, blue]);
        }
        match self {
            ColorChannels::Rgb(order) => ColorArray::Rgb(order.reorder([red, green, blue])),
            ColorChannels::Rgbw(order) => {
                ColorArray::Rgbw(order.reorder(rgb_to_rgbw([red, green, blue])))
            },
        }
    }
}

/// Enumeration of RGB channel orders, keyed by wire position.
#[derive(Clone, Copy, Debug, PartialEq, Eq, Structural)]
pub enum RgbOrder {
    /// Red, Green, Blue
    RGB,
    /// Red, Blue, Green
    RBG,
    /// Green, Red, Blue
    GRB,
    /// Green, Blue, Red
    GBR,
    /// Blue, Red, Green
    BRG,
    /// Blue, Green, Red
    BGR,
}

impl RgbOrder {
    /// The reordering of a canonical `(R, G, B)` triple under this order.
    pub open spec fn spec_reorder<Word>(self, rgb: (Word, Word, Word)) -> Seq<Word> {
        match self {
            RgbOrder::RGB => seq![rgb.0, rgb.1, rgb.2],
            RgbOrder::RBG => seq![rgb.0, rgb.2, rgb.1],
            RgbOrder::GRB => seq![rgb.1, rgb.0, rgb.2],
            RgbOrder::GBR => seq![rgb.1, rgb.2, rgb.0],
            RgbOrder::BRG => seq![rgb.2, rgb.0, rgb.1],
            RgbOrder::BGR => seq![rgb.2, rgb.1, rgb.0],
        }
    }

    /// Reorders an `(R, G, B)` triple into this wire order.
    pub fn reorder<Word>(&self, rgb: (Word, Word, Word)) -> (r: [Word; 3])
        ensures
            r@ == self.spec_reorder(rgb),
    {
        let (red, green, blue) = rgb;
        let r = match self {
            RgbOrder::RGB => [red, green, blue],
            RgbOrder::RBG => [red, blue, green],
            RgbOrder::GRB => [green, red, blue],
            RgbOrder::GBR => [green, blue, red],
            RgbOrder::BRG => [blue, red, green],
            RgbOrder::BGR => [blue, green, red],
        };
        proof {
            assert(r@ =~= self.spec_reorder((red, green, blue)));
        }
        r
    }
}

} // verus!
