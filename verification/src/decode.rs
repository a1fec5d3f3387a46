//! Decoding of the raw register bytes into typed readings.
//!
//! The device latches multi-byte values big-endian, and the six field
//! output registers hold the axes in the order X, Z, Y; the temperature
//! is a 12-bit reading left-justified in 16 bits, so the raw value is
//! divided by 16, truncating toward zero.

use vstd::prelude::*;
use crate::error::Error;

verus! {

/// The signed 16-bit value held big-endian in the bytes `hi`, `lo`.
pub open spec fn be_i16_value(hi: u8, lo: u8) -> int {
    let unsigned = hi * 256 + lo;
    if unsigned >= 0x8000 {
        unsigned - 0x10000
    } else {
        unsigned
    }
}

/// Division of a raw temperature count by 16, truncating toward zero.
pub open spec fn temp_scaled(raw: int) -> int {
    if raw >= 0 {
        raw / 16
    } else {
        -((-raw) / 16)
    }
}

/// Reassemble a big-endian signed 16-bit value from its two bytes.
pub fn be_i16(hi: u8, lo: u8) -> (r: i16)
    ensures
        r as int == be_i16_value(hi, lo),
{
    let unsigned: u16 = (hi as u16) * 256 + (lo as u16);
    if unsigned >= 0x8000 {
        ((unsigned as i32) - 0x10000) as i16
    } else {
        unsigned as i16
    }
}

/// Decode one block read of the six field output registers.
///
/// The wire order is X, Z, Y; the result is in logical (x, y, z) order.
/// Fewer than six bytes is the insufficient-data error, and nothing is
/// decoded.
pub fn decode_magnetic_field(data: &Vec<u8>) -> (r: Result<(i16, i16, i16), Error>)
    ensures
        data@.len() < 6 ==> r == Err::<(i16, i16, i16), Error>(Error::NotEnoughData),
        data@.len() >= 6 ==> (r matches Ok(v)
            && v.0 as int == be_i16_value(data@[0], data@[1])
            && v.2 as int == be_i16_value(data@[2], data@[3])
            && v.1 as int == be_i16_value(data@[4], data@[5])),
{
    if data.len() < 6 {
        return Err(Error::NotEnoughData);
    }
    let x = be_i16(data[0], data[1]);
    let z = be_i16(data[2], data[3]);
    let y = be_i16(data[4], data[5]);
    Ok((x, y, z))
}

/// Decode one block read of the two temperature output registers.
///
/// The raw big-endian value is divided by 16, truncating toward zero,
/// per the device's left-justified 12-bit encoding. A short read is a
/// transport failure: this path has no minimum-length contract of its
/// own.
pub fn decode_temperature(data: &Vec<u8>) -> (r: Result<i16, Error>)
    ensures
        data@.len() < 2 ==> r == Err::<i16, Error>(Error::Transport),
        data@.len() >= 2 ==> (r matches Ok(t)
            && t as int == temp_scaled(be_i16_value(data@[0], data@[1]))),
{
    if data.len() < 2 {
        return Err(Error::Transport);
    }
    let raw = be_i16(data[0], data[1]);
    Ok(temp_scale(raw))
}

/// Divide a raw temperature count by 16, truncating toward zero.
///
/// Truncation, not flooring: -8 scales to 0 and -16 to -1.
pub fn temp_scale(raw: i16) -> (r: i16)
    ensures
        r as int == temp_scaled(raw as int),
{
    if raw >= 0 {
        let q: u16 = (raw as u16) / 16;
        q as i16
    } else {
        let magnitude: i32 = -(raw as i32);
        let q: i32 = magnitude / 16;
        (-q) as i16
    }
}

} // verus!
