//! Fragment shading rates and their one-byte attachment encoding.
//!
//! The byte of a tile is `(log2(width) << 2) | log2(height)`, where width and
//! height are the size of a coarse fragment in pixels.

use vstd::arithmetic::power2::{lemma2_to64, pow2};
use vstd::prelude::*;

verus! {

/// A fragment shading rate: a coarse fragment of `width` x `height` pixels.
#[derive(Clone, Copy, Debug, PartialEq, Eq, PartialOrd, Ord, Structural)]
pub struct ShadingRate {
    pub width: u8,
    pub height: u8,
}

/// The base-2 logarithm of a side of 1, 2, 4 or 8 pixels; any other side is
/// taken for 1.
pub open spec fn log2(v: u8) -> int {
    if v == 2 {
        1
    } else if v == 4 {
        2
    } else if v == 8 {
        3
    } else {
        0
    }
}

/// The side whose base-2 logarithm is `e`, for `e` below 4.
pub open spec fn exp2(e: int) -> int {
    if e == 0 {
        1
    } else if e == 1 {
        2
    } else if e == 2 {
        4
    } else {
        8
    }
}

impl ShadingRate {
    /// The rate of 1x1 fragments.
    #[allow(non_snake_case)]
    pub fn RATE_1X1() -> (r: Self)
        ensures
            r.width == 1,
            r.height == 1,
    {
        Self { width: 1, height: 1 }
    }

    /// The rate of 1x2 fragments.
    #[allow(non_snake_case)]
    pub fn RATE_1X2() -> (r: Self)
        ensures
            r.width == 1,
            r.height == 2,
    {
        Self { width: 1, height: 2 }
    }

    /// The rate of 2x1 fragments.
    #[allow(non_snake_case)]
    pub fn RATE_2X1() -> (r: Self)
        ensures
            r.width == 2,
            r.height == 1,
    {
        Self { width: 2, height: 1 }
    }

    /// The rate of 2x2 fragments.
    #[allow(non_snake_case)]
    pub fn RATE_2X2() -> (r: Self)
        ensures
            r.width == 2,
            r.height == 2,
    {
        Self { width: 2, height: 2 }
    }

    /// The rate of 2x4 fragments.
    #[allow(non_snake_case)]
    pub fn RATE_2X4() -> (r: Self)
        ensures
            r.width == 2,
            r.height == 4,
    {
        Self { width: 2, height: 4 }
    }

    /// The rate of 4x2 fragments.
    #[allow(non_snake_case)]
    pub fn RATE_4X2() -> (r: Self)
        ensures
            r.width == 4,
            r.height == 2,
    {
        Self { width: 4, height: 2 }
    }

    /// The rate of 4x4 fragments.
    #[allow(non_snake_case)]
    pub fn RATE_4X4() -> (r: Self)
        ensures
            r.width == 4,
            r.height == 4,
    {
        Self { width: 4, height: 4 }
    }

    /// The attachment byte of a rate.
    pub open spec fn byte(self) -> int {
        4 * log2(self.width) + log2(self.height)
    }

    /// The rate of an attachment byte; the upper four bits do not count.
    pub open spec fn of_byte(byte: u8) -> ShadingRate {
        ShadingRate {
            width: exp2((byte as int / 4) % 4) as u8,
            height: exp2(byte as int % 4) as u8,
        }
    }

    /// Whether both sides are powers of two that the byte can tell apart.
    pub open spec fn encodable(self) -> bool {
        &&& self.width == 1 || self.width == 2 || self.width == 4 || self.width == 8
        &&& self.height == 1 || self.height == 2 || self.height == 4 || self.height == 8
    }

    pub fn new(width: u8, height: u8) -> (r: Self)
        ensures
            r.width == width,
            r.height == height,
    {
        Self { width, height }
    }

    /// Encode to the attachment byte: `(log2(w) << 2) | log2(h)`.
    pub fn encode(self) -> (r: u8)
        ensures
            r == self.byte(),
    {
        let w: u8 = log2_u8(self.width);
        let h: u8 = log2_u8(self.height);
        assert((w << 2u8) | h == 4 * w + h) by (bit_vector)
            requires
                w < 4,
                h < 4,
        ;
        (w << 2u8) | h
    }

    /// Decode an attachment byte back into a rate.
    pub fn decode(byte: u8) -> (r: Self)
        ensures
            r == Self::of_byte(byte),
    {
        let we: u8 = (byte >> 2u8) & 0b11;
        let he: u8 = byte & 0b11;
        assert(we == (byte / 4) % 4 && he == byte % 4) by (bit_vector)
            requires
                we == (byte >> 2u8) & 0b11,
                he == byte & 0b11,
        ;
        assert(1u8 << 0u8 == 1 && 1u8 << 1u8 == 2 && 1u8 << 2u8 == 4 && 1u8 << 3u8 == 8)
            by (bit_vector);
        let w: u8 = 1u8 << we;
        let h: u8 = 1u8 << he;
        Self { width: w, height: h }
    }

    /// The number of pixels that one coarse fragment covers, which is the
    /// factor by which it cuts the shading cost of 1x1.
    pub fn coverage(self) -> (r: u32)
        ensures
            r == self.width * self.height,
    {
        assert(self.width * self.height <= 255 * 255) by (nonlinear_arith)
            requires
                self.width <= 255,
                self.height <= 255,
        ;
        self.width as u32 * self.height as u32
    }
}

/// The base-2 logarithm of 1, 2, 4 and 8, and 0 for anything else.
pub fn log2_u8(v: u8) -> (r: u8)
    ensures
        r == log2(v),
{
    match v {
        1 => 0,
        2 => 1,
        4 => 2,
        8 => 3,
        _ => 0,
    }
}

/// Decoding an encoded rate gives the rate back, for every rate whose sides
/// are powers of two up to 8.
pub proof fn encode_then_decode(r: ShadingRate)
    requires
        r.encodable(),
    ensures
        0 <= r.byte() < 16,
        ShadingRate::of_byte(r.byte() as u8) == r,
{
}

/// Encoding a decoded byte gives its lower four bits back, and every byte
/// decodes to an encodable rate.
pub proof fn decode_then_encode(byte: u8)
    ensures
        ShadingRate::of_byte(byte).encodable(),
        ShadingRate::of_byte(byte).byte() == byte % 16,
{
}

/// The byte of a rate holds the two powers of two: its upper pair of bits that
/// of the width, its lower pair that of the height.
pub proof fn byte_holds_powers(r: ShadingRate)
    requires
        r.encodable(),
    ensures
        pow2((r.byte() / 4) as nat) == r.width,
        pow2((r.byte() % 4) as nat) == r.height,
{
    lemma2_to64();
}

/// Reading a byte takes the width from bits 2 and 3 and the height from bits 0
/// and 1.
pub proof fn byte_gives_powers(byte: u8)
    ensures
        ShadingRate::of_byte(byte).width == pow2(((byte as int / 4) % 4) as nat),
        ShadingRate::of_byte(byte).height == pow2((byte as int % 4) as nat),
{
    lemma2_to64();
}

/// A side that is no power of two up to 8 counts as 1, whatever the other is.
pub proof fn odd_sides_count_as_one(r: ShadingRate)
    ensures
        r.width != 1 && r.width != 2 && r.width != 4 && r.width != 8 ==> r.byte() < 4,
        r.height != 1 && r.height != 2 && r.height != 4 && r.height != 8 ==> r.byte() % 4 == 0,
        0 <= r.byte() < 16,
        log2(r.width) == r.byte() / 4,
        log2(r.height) == r.byte() % 4,
{
}

} // verus!
