use vstd::prelude::*;

verus! {

/// A colour with red, green, blue and alpha channels.
///
/// The colour with every channel at zero is the "none" colour: it means
/// that an attribute is not painted at all.
#[derive(PartialEq, Eq, Structural, Hash, Clone, Copy, Debug)]
pub struct Color(pub u8, pub u8, pub u8, pub u8);

impl Color {
    /// Whether this is the "none" colour.
    pub open spec fn spec_is_none(self) -> bool {
        self.0 == 0 && self.1 == 0 && self.2 == 0 && self.3 == 0
    }

    /// An opaque colour.
    pub fn rgb(red: u8, green: u8, blue: u8) -> (r: Self)
        ensures
            r == Color(red, green, blue, 255),
    {
        Color(red, green, blue, 255)
    }

    /// A colour with an explicit alpha channel.
    pub fn rgba(red: u8, green: u8, blue: u8, alpha: u8) -> (r: Self)
        ensures
            r == Color(red, green, blue, alpha),
    {
        Color(red, green, blue, alpha)
    }

    /// An opaque colour from `0xRRGGBB`; bits above the lowest 24 are ignored.
    pub fn hex(rgb: u32) -> (r: Self)
        ensures
            r == Color(
                ((rgb >> 16u32) & 0xffu32) as u8,
                ((rgb >> 8u32) & 0xffu32) as u8,
                (rgb & 0xffu32) as u8,
                255,
            ),
    {
        let red = (rgb >> 16u32) & 0xffu32;
        let green = (rgb >> 8u32) & 0xffu32;
        let blue = rgb & 0xffu32;
        Color(red as u8, green as u8, blue as u8, 255)
    }

    /// A colour from `0xRRGGBBAA`; bits above the lowest 32 are ignored.
    pub fn hexa(rgba: u64) -> (r: Self)
        ensures
            r == Color(
                ((rgba >> 24u64) & 0xffu64) as u8,
                ((rgba >> 16u64) & 0xffu64) as u8,
                ((rgba >> 8u64) & 0xffu64) as u8,
                (rgba & 0xffu64) as u8,
            ),
    {
        let red = (rgba >> 24u64) & 0xffu64;
        let green = (rgba >> 16u64) & 0xffu64;
        let blue = (rgba >> 8u64) & 0xffu64;
        let alpha = rgba & 0xffu64;
        Color(red as u8, green as u8, blue as u8, alpha as u8)
    }

    /// Opaque white.
    pub fn white() -> (r: Self)
        ensures
            r == Color(255, 255, 255, 255),
    {
        let r = Self::hex(0xFF_FF_FF);
        assert(((0xffffffu32 >> 16u32) & 0xffu32) == 0xffu32) by (bit_vector);
        assert(((0xffffffu32 >> 8u32) & 0xffu32) == 0xffu32) by (bit_vector);
        assert((0xffffffu32 & 0xffu32) == 0xffu32) by (bit_vector);
        r
    }

    /// Opaque black.
    pub fn black() -> (r: Self)
        ensures
            r == Color(0, 0, 0, 255),
    {
        let r = Self::hex(0x00_00_00);
        assert(((0u32 >> 16u32) & 0xffu32) == 0u32) by (bit_vector);
        assert(((0u32 >> 8u32) & 0xffu32) == 0u32) by (bit_vector);
        assert((0u32 & 0xffu32) == 0u32) by (bit_vector);
        r
    }

    /// The "none" colour: nothing is painted.
    pub fn none() -> (r: Self)
        ensures
            r == Color(0, 0, 0, 0),
            r.spec_is_none(),
    {
        Color(0, 0, 0, 0)
    }

    /// Whether this is the "none" colour.
    pub fn is_none(&self) -> (r: bool)
        ensures
            r == self.spec_is_none(),
    {
        let Color(r, g, b, a) = *self;
        r == 0 && g == 0 && b == 0 && a == 0
    }
}

impl Default for Color {
    /// The default colour is "none".
    fn default() -> (r: Self)
        ensures
            r == Color(0, 0, 0, 0),
    {
        Color(0, 0, 0, 0)
    }
}

} // verus!
