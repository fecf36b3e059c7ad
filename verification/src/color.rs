//! Color values accepted by the pixel encoders.
//!
//! Each type holds its channels as plain integers at the channel width of one
//! controller pixel format; constructors mask oversized inputs down to the
//! channel width, so every constructed value is well formed.

use vstd::prelude::*;

verus! {

/// A color with 5 bits of red, 6 bits of green and 5 bits of blue.
#[derive(Clone, Copy, PartialEq, Eq, Structural, Debug)]
pub struct Rgb565 {
    /// Red channel, below 32.
    pub r: u8,
    /// Green channel, below 64.
    pub g: u8,
    /// Blue channel, below 32.
    pub b: u8,
}

impl Rgb565 {
    /// Every channel fits its width.
    pub open spec fn wf(self) -> bool {
        self.r < 32 && self.g < 64 && self.b < 32
    }

    /// A color from channel values; each channel is masked to its width.
    pub fn new(r: u8, g: u8, b: u8) -> (c: Rgb565)
        ensures
            c == (Rgb565 { r: (r % 32) as u8, g: (g % 64) as u8, b: (b % 32) as u8 }),
            c.wf(),
    {
        Rgb565 { r: r % 32, g: g % 64, b: b % 32 }
    }

    /// The native packed representation: red in the top 5 bits, green in the
    /// middle 6, blue in the bottom 5.
    pub open spec fn spec_packed(self) -> int {
        self.r * 2048 + self.g * 32 + self.b
    }

    /// High byte of the big-endian serialization of `spec_packed`.
    pub open spec fn spec_hi(self) -> u8 {
        (self.spec_packed() / 256) as u8
    }

    /// Low byte of the big-endian serialization of `spec_packed`.
    pub open spec fn spec_lo(self) -> u8 {
        (self.spec_packed() % 256) as u8
    }

    /// The packed 16-bit representation.
    pub fn packed(self) -> (r: u16)
        requires
            self.wf(),
        ensures
            r == self.spec_packed(),
    {
        (self.r as u16) * 2048 + (self.g as u16) * 32 + (self.b as u16)
    }

    /// The two wire bytes of this color: its packed representation, big
    /// endian.
    pub fn to_wire_bytes(self) -> (r: (u8, u8))
        requires
            self.wf(),
        ensures
            r.0 == self.spec_hi(),
            r.1 == self.spec_lo(),
    {
        let packed: u16 = self.packed();
        ((packed / 256) as u8, (packed % 256) as u8)
    }
}

/// A color with 6 bits per channel.
#[derive(Clone, Copy, PartialEq, Eq, Structural, Debug)]
pub struct Rgb666 {
    /// Red channel, below 64.
    pub r: u8,
    /// Green channel, below 64.
    pub g: u8,
    /// Blue channel, below 64.
    pub b: u8,
}

impl Rgb666 {
    /// Every channel fits its width.
    pub open spec fn wf(self) -> bool {
        self.r < 64 && self.g < 64 && self.b < 64
    }

    /// A color from channel values; each channel is masked to its width.
    pub fn new(r: u8, g: u8, b: u8) -> (c: Rgb666)
        ensures
            c == (Rgb666 { r: (r % 64) as u8, g: (g % 64) as u8, b: (b % 64) as u8 }),
            c.wf(),
    {
        Rgb666 { r: r % 64, g: g % 64, b: b % 64 }
    }

    /// The three wire bytes of this color: each channel left-shifted by two
    /// bits, in red, green, blue order.
    pub fn to_wire_bytes(self) -> (r: (u8, u8, u8))
        requires
            self.wf(),
        ensures
            r.0 == self.r * 4,
            r.1 == self.g * 4,
            r.2 == self.b * 4,
    {
        (self.r * 4, self.g * 4, self.b * 4)
    }
}

} // verus!
