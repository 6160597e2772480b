//! RGB565 colour values and their packed 16-bit wire form.

use vstd::prelude::*;

verus! {

/// A colour with 5 bits of red, 6 bits of green and 5 bits of blue: the
/// native colour format of the panel. The packed form is the 16-bit word
/// transmitted on the bus.
#[derive(Clone, Copy, Debug, PartialEq, Eq, Structural)]
pub struct Rgb565 {
    pub r: u8,
    pub g: u8,
    pub b: u8,
}

impl Rgb565 {
    /// Each component fits its bit field: red and blue 5 bits, green 6.
    pub open spec fn wf(self) -> bool {
        self.r < 32 && self.g < 64 && self.b < 32
    }

    /// The packed wire word: red in bits 11..16, green in bits 5..11,
    /// blue in bits 0..5.
    pub open spec fn packed(self) -> u16 {
        ((self.r as u16) << 11) | ((self.g as u16) << 5) | (self.b as u16)
    }

    /// The colour whose fields are the three bit ranges of `w`.
    pub open spec fn spec_from_storage(w: u16) -> Rgb565 {
        Rgb565 { r: (w >> 11) as u8, g: ((w >> 5) & 0x3f) as u8, b: (w & 0x1f) as u8 }
    }

    /// Builds a colour from components, masking each to its bit field.
    pub fn new(r: u8, g: u8, b: u8) -> (c: Rgb565)
        ensures
            c == (Rgb565 { r: (r & 0x1f) as u8, g: (g & 0x3f) as u8, b: (b & 0x1f) as u8 }),
            c.wf(),
    {
        let c = Rgb565 { r: r & 0x1f, g: g & 0x3f, b: b & 0x1f };
        proof {
            assert(r & 0x1f < 32 && g & 0x3f < 64 && b & 0x1f < 32) by (bit_vector);
        }
        c
    }

    /// Packs the colour into its 16-bit wire word.
    pub fn into_storage(self) -> (w: u16)
        ensures
            w == self.packed(),
    {
        ((self.r as u16) << 11) | ((self.g as u16) << 5) | (self.b as u16)
    }

    /// Unpacks a 16-bit wire word into its three components.
    pub fn from_storage(w: u16) -> (c: Rgb565)
        ensures
            c == Rgb565::spec_from_storage(w),
            c.wf(),
    {
        let c = Rgb565 { r: (w >> 11) as u8, g: ((w >> 5) & 0x3f) as u8, b: (w & 0x1f) as u8 };
        proof {
            assert(((w >> 11) as u8) < 32 && (((w >> 5) & 0x3f) as u8) < 64 && ((w & 0x1f) as u8)
                < 32) by (bit_vector);
        }
        c
    }
}

/// Unpacking a wire word into components and packing it again yields the
/// original word: the wire path itself loses nothing.
pub proof fn lemma_rgb565_roundtrip_storage(w: u16)
    ensures
        Rgb565::spec_from_storage(w).packed() == w,
{
    assert((((((w >> 11) as u8) as u16) << 11) | (((((w >> 5) & 0x3f) as u8) as u16) << 5) | (((
    w & 0x1f) as u8) as u16)) == w) by (bit_vector);
}

/// Packing a well-formed colour and unpacking the word yields the original
/// components.
pub proof fn lemma_rgb565_roundtrip_components(c: Rgb565)
    requires
        c.wf(),
    ensures
        Rgb565::spec_from_storage(c.packed()) == c,
{
    let r = c.r;
    let g = c.g;
    let b = c.b;
    let w = c.packed();
    assert(r < 32 && g < 64 && b < 32 ==> {
        let p = ((r as u16) << 11) | ((g as u16) << 5) | (b as u16);
        (p >> 11) as u8 == r && ((p >> 5) & 0x3f) as u8 == g && (p & 0x1f) as u8 == b
    }) by (bit_vector);
}

} // verus!
