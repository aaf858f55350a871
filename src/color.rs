use vstd::prelude::*;

verus! {

/// An RGB colour with one byte per channel.
#[derive(Clone, Copy, Debug, PartialEq, Eq, Structural)]
pub struct Color {
    pub r: u8,
    pub g: u8,
    pub b: u8,
}

/// The 24-bit packed form `0xRRGGBB` of three channels.
pub open spec fn pack(r: u8, g: u8, b: u8) -> u32 {
    ((r as u32) << 16u32) | ((g as u32) << 8u32) | (b as u32)
}

/// The red channel of a packed value: bits 16 to 23.
pub open spec fn red_of(hex: u32) -> u8 {
    ((hex >> 16u32) & 0xffu32) as u8
}

/// The green channel of a packed value: bits 8 to 15.
pub open spec fn green_of(hex: u32) -> u8 {
    ((hex >> 8u32) & 0xffu32) as u8
}

/// The blue channel of a packed value: bits 0 to 7.
pub open spec fn blue_of(hex: u32) -> u8 {
    (hex & 0xffu32) as u8
}

impl Color {
    pub fn new(r: u8, g: u8, b: u8) -> (c: Color)
        ensures
            c.r == r,
            c.g == g,
            c.b == b,
    {
        Color { r, g, b }
    }

    /// Unpacks `0xRRGGBB`; bits above the lowest 24 are ignored.
    pub fn from_hex(hex: u32) -> (c: Color)
        ensures
            c.r == red_of(hex),
            c.g == green_of(hex),
            c.b == blue_of(hex),
    {
        Color {
            r: ((hex >> 16u32) & 0xffu32) as u8,
            g: ((hex >> 8u32) & 0xffu32) as u8,
            b: (hex & 0xffu32) as u8,
        }
    }

    /// Packs the channels as `0xRRGGBB`.
    pub fn to_hex(&self) -> (hex: u32)
        ensures
            hex == pack(self.r, self.g, self.b),
            hex < 0x1000000,
    {
        let r = self.r as u32;
        let g = self.g as u32;
        let b = self.b as u32;
        assert(((r << 16u32) | (g << 8u32) | b) < 0x1000000) by (bit_vector)
            requires
                r < 256,
                g < 256,
                b < 256,
        ;
        (r << 16u32) | (g << 8u32) | b
    }
}

/// Packing a colour and unpacking the result gives back each channel.
pub proof fn lemma_unpack_pack(r: u8, g: u8, b: u8)
    ensures
        red_of(pack(r, g, b)) == r,
        green_of(pack(r, g, b)) == g,
        blue_of(pack(r, g, b)) == b,
{
    assert(((((r as u32) << 16u32) | ((g as u32) << 8u32) | (b as u32)) >> 16u32) & 0xffu32
        == r as u32) by (bit_vector);
    assert(((((r as u32) << 16u32) | ((g as u32) << 8u32) | (b as u32)) >> 8u32) & 0xffu32
        == g as u32) by (bit_vector);
    assert((((r as u32) << 16u32) | ((g as u32) << 8u32) | (b as u32)) & 0xffu32 == b as u32)
        by (bit_vector);
}

/// Unpacking a value and packing its channels again keeps its lowest 24 bits.
pub proof fn lemma_pack_unpack(hex: u32)
    ensures
        pack(red_of(hex), green_of(hex), blue_of(hex)) == hex & 0xffffffu32,
{
    assert(((((hex >> 16u32) & 0xffu32) as u8 as u32) << 16u32) | ((((hex >> 8u32) & 0xffu32)
        as u8 as u32) << 8u32) | ((hex & 0xffu32) as u8 as u32) == hex & 0xffffffu32)
        by (bit_vector);
}

} // verus!
