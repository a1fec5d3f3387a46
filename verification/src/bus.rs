//! The bus transport the driver is injected with.

use vstd::prelude::*;
use crate::error::Error;

verus! {

/// A register-oriented bus transport addressing one device.
///
/// The driver owns exactly one implementation of this trait and issues
/// every register transaction through it. Nothing is assumed of a
/// transport: a read may return any bytes, and fewer than asked for, and
/// either operation may fail. The driver is verified to behave correctly
/// whatever comes back; opening and addressing the device is the
/// implementor's business.
pub trait Bus: Sized {
    /// Read up to `len` bytes starting at register `register`.
    ///
    /// The result may be shorter than `len`; callers must check.
    fn read_block(&mut self, register: u8, len: u8) -> (r: Result<Vec<u8>, Error>);

    /// Write one byte to register `register`.
    fn write_byte(&mut self, register: u8, value: u8) -> (r: Result<(), Error>);
}

} // verus!
