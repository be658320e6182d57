//! Reconstruction of signed 16-bit measurements from raw register bytes.
use vstd::prelude::*;

verus! {

/// XYZ triple
#[derive(Debug, Copy, Clone, PartialEq, Eq, Structural)]
pub struct I16x3 {
    /// X component
    pub x: i16,
    /// Y component
    pub y: i16,
    /// Z component
    pub z: i16,
}

/// The signed 16-bit value whose two's complement little-endian bytes are
/// `low` and `high`.
pub open spec fn combine(low: u8, high: u8) -> i16 {
    let u = low as int + 256 * (high as int);
    (if u >= 0x8000 { u - 0x10000 } else { u }) as i16
}

/// Combines a low and a high byte into a signed 16-bit value (two's complement).
pub fn combine_bytes(low: u8, high: u8) -> (r: i16)
    ensures
        r == combine(low, high),
{
    let u: u16 = (low as u16) | ((high as u16) << 8u16);
    assert(u == low as int + 256 * (high as int)) by (bit_vector)
        requires
            u == (low as u16) | ((high as u16) << 8u16),
    ;
    if u < 0x8000 {
        u as i16
    } else {
        let v: i16 = (u - 0x8000) as i16;
        v - 0x7FFF - 1
    }
}

} // verus!

verus! {

/// The accelerometer triple of a burst read from `OUT_X_L_A`: X, Y, Z in that
/// order, each low byte first.
pub open spec fn accel_triple(b: Seq<u8>) -> I16x3 {
    I16x3 { x: combine(b[0], b[1]), y: combine(b[2], b[3]), z: combine(b[4], b[5]) }
}

/// The magnetometer triple of a burst read from `OUT_X_H_M`: X, Z, Y in that
/// order, each high byte first.
pub open spec fn mag_triple(b: Seq<u8>) -> I16x3 {
    I16x3 { x: combine(b[1], b[0]), y: combine(b[5], b[4]), z: combine(b[3], b[2]) }
}

/// The temperature of the two temperature registers: a left-justified 12-bit
/// signed value, shifted right arithmetically.
pub open spec fn temperature(low: u8, high: u8) -> i16 {
    combine(low, high) >> 4i16
}

/// Assembles the accelerometer triple from the six bytes of a burst read.
pub fn accel_from_bytes(b: &[u8]) -> (r: I16x3)
    requires
        b@.len() == 6,
    ensures
        r == accel_triple(b@),
{
    I16x3 {
        x: combine_bytes(b[0], b[1]),
        y: combine_bytes(b[2], b[3]),
        z: combine_bytes(b[4], b[5]),
    }
}

/// Assembles the magnetometer triple from the six bytes of a burst read.
pub fn mag_from_bytes(b: &[u8]) -> (r: I16x3)
    requires
        b@.len() == 6,
    ensures
        r == mag_triple(b@),
{
    I16x3 {
        x: combine_bytes(b[1], b[0]),
        y: combine_bytes(b[5], b[4]),
        z: combine_bytes(b[3], b[2]),
    }
}

/// Assembles the temperature from the `TEMP_OUT_L_M` and `TEMP_OUT_H_M` bytes.
pub fn temp_from_bytes(low: u8, high: u8) -> (r: i16)
    ensures
        r == temperature(low, high),
        r as int == (combine(low, high) as int) / 16,
{
    let v = combine_bytes(low, high);
    let r = v >> 4i16;
    assert(r as int == (v as int) / 16) by {
        let w: i32 = v as i32;
        assert((r as i32) * 16 + (w & 15) == w && 0 <= (w & 15) < 16) by (bit_vector)
            requires
                r == v >> 4i16,
                w == v as i32,
        ;
        assert(0 <= (w & 15) < 16);
        vstd::arithmetic::div_mod::lemma_fundamental_div_mod_converse(
            v as int,
            16,
            r as int,
            (w & 15) as int,
        );
    }
    r
}

} // verus!
