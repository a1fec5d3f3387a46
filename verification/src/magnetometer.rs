//! Interface to the magnetometer.

use vstd::prelude::*;
use crate::bus::Bus;
use crate::error::Error;
use crate::registers::CRA_INIT;
use crate::registers::CRA_REG_M;
use crate::registers::CRB_REG_M;
use crate::registers::CRB_VALID;
use crate::registers::CraRegM;
use crate::registers::CrbRegM;
use crate::registers::GAIN_MASK;
use crate::registers::GN0;
use crate::registers::GN1;
use crate::registers::GN2;
use crate::registers::MR_REG_M;
use crate::registers::MrRegM;
use crate::registers::OUT_X_H_M;
use crate::registers::TEMP_OUT_H_M;
use crate::decode::decode_magnetic_field;
use crate::decode::decode_temperature;

verus! {

/// The allowed settings for the gain on the magnetometer.
#[allow(non_camel_case_types)]
#[derive(Clone, Copy, Debug, PartialEq, Eq, Structural)]
pub enum Gain {
    /// +/- 1.3 Gauss
    Gain_1_3,
    /// +/- 1.9 Gauss
    Gain_1_9,
    /// +/- 2.5 Gauss
    Gain_2_5,
    /// +/- 4.0 Gauss
    Gain_4_0,
    /// +/- 4.7 Gauss
    Gain_4_7,
    /// +/- 5.6 Gauss
    Gain_5_6,
    /// +/- 8.1 Gauss
    Gain_8_1,
}

/// The documented selector-bit pattern of each gain setting.
///
/// The patterns are taken from the datasheet's table; they are not an
/// arithmetic encoding of the variant's position.
pub open spec fn spec_gain_bits(g: Gain) -> u8 {
    match g {
        Gain::Gain_1_3 => GN0,
        Gain::Gain_1_9 => GN1,
        Gain::Gain_2_5 => GN1 | GN0,
        Gain::Gain_4_0 => GN2,
        Gain::Gain_4_7 => GN2 | GN0,
        Gain::Gain_5_6 => GN2 | GN1,
        Gain::Gain_8_1 => GN2 | GN1 | GN0,
    }
}

proof fn lemma_gain_pattern_in_mask(b: u8)
    by (bit_vector)
    requires
        b == 0x20u8 || b == 0x40u8 || b == (0x40u8 | 0x20u8) || b == 0x80u8 || b == (0x80u8
            | 0x20u8) || b == (0x80u8 | 0x40u8) || b == (0x80u8 | 0x40u8 | 0x20u8),
    ensures
        b & !0xE0u8 == 0,
        b & 0xE0u8 == b,
        b != 0,
{
}

/// The numeric value of each gain setting's selector-bit pattern.
pub proof fn lemma_gain_bits_values()
    ensures
        spec_gain_bits(Gain::Gain_1_3) == 0x20u8,
        spec_gain_bits(Gain::Gain_1_9) == 0x40u8,
        spec_gain_bits(Gain::Gain_2_5) == 0x60u8,
        spec_gain_bits(Gain::Gain_4_0) == 0x80u8,
        spec_gain_bits(Gain::Gain_4_7) == 0xA0u8,
        spec_gain_bits(Gain::Gain_5_6) == 0xC0u8,
        spec_gain_bits(Gain::Gain_8_1) == 0xE0u8,
{
    assert(0x40u8 | 0x20u8 == 0x60u8) by (bit_vector);
    assert(0x80u8 | 0x20u8 == 0xA0u8) by (bit_vector);
    assert(0x80u8 | 0x40u8 == 0xC0u8) by (bit_vector);
    assert(0x80u8 | 0x40u8 | 0x20u8 == 0xE0u8) by (bit_vector);
}

/// Every gain pattern is a nonempty subset of the gain selector bits.
pub proof fn lemma_gain_bits_in_mask(g: Gain)
    ensures
        spec_gain_bits(g) & !GAIN_MASK == 0,
        spec_gain_bits(g) & GAIN_MASK == spec_gain_bits(g),
        spec_gain_bits(g) != 0,
{
    crate::registers::lemma_mask_values();
    let b = spec_gain_bits(g);
    match g {
        Gain::Gain_1_3 => assert(b == 0x20u8),
        Gain::Gain_1_9 => assert(b == 0x40u8),
        Gain::Gain_2_5 => assert(b == (0x40u8 | 0x20u8)),
        Gain::Gain_4_0 => assert(b == 0x80u8),
        Gain::Gain_4_7 => assert(b == (0x80u8 | 0x20u8)),
        Gain::Gain_5_6 => assert(b == (0x80u8 | 0x40u8)),
        Gain::Gain_8_1 => assert(b == (0x80u8 | 0x40u8 | 0x20u8)),
    }
    lemma_gain_pattern_in_mask(b);
}

/// The selector-bit pattern for a gain setting.
pub fn gain_bits(g: Gain) -> (r: u8)
    ensures
        r == spec_gain_bits(g),
{
    match g {
        Gain::Gain_1_3 => GN0,
        Gain::Gain_1_9 => GN1,
        Gain::Gain_2_5 => GN1 | GN0,
        Gain::Gain_4_0 => GN2,
        Gain::Gain_4_7 => GN2 | GN0,
        Gain::Gain_5_6 => GN2 | GN1,
        Gain::Gain_8_1 => GN2 | GN1 | GN0,
    }
}

/// The control-register-B value written when the gain changes: the
/// documented bits of the register's current value, with the three
/// selector positions cleared as a unit and the new pattern set.
pub open spec fn crb_after_set_gain(current: u8, g: Gain) -> u8 {
    ((current & CRB_VALID) & !GAIN_MASK) | spec_gain_bits(g)
}

/// Law: after a gain change, control register B holds exactly the new
/// gain's selector bits, whatever value the register held before; no
/// bits of a previous gain remain.
pub proof fn lemma_set_gain_register_exact(current: u8, g: Gain)
    ensures
        crb_after_set_gain(current, g) == spec_gain_bits(g),
        crb_after_set_gain(current, g) & GAIN_MASK == spec_gain_bits(g),
        crb_after_set_gain(current, g) & !GAIN_MASK == 0,
{
    lemma_gain_bits_in_mask(g);
    crate::registers::lemma_mask_values();
    let b = spec_gain_bits(g);
    assert(((current & 0xE0u8) & !0xE0u8) | b == b && (b & !0xE0u8 == 0 ==> b & 0xE0u8 == b))
        by (bit_vector);
}

/// Compute the register value for a gain change from the register's
/// current value.
pub fn crb_value_for_gain(current: u8, g: Gain) -> (r: u8)
    ensures
        r == crb_after_set_gain(current, g),
        r == spec_gain_bits(g),
{
    proof {
        lemma_gain_bits_in_mask(g);
        lemma_set_gain_register_exact(current, g);
        crate::registers::lemma_mask_values();
    }
    let flags = CrbRegM::from_bits_truncate(current);
    let selector = CrbRegM::from_bits_truncate(GN2 | GN1 | GN0);
    let cleared = flags.difference(selector);
    let setting = CrbRegM::from_bits_truncate(gain_bits(g));
    let written = cleared.union(setting);
    written.bits()
}

/// Interface to an LSM303 digital magnetometer.
///
/// The driver owns its bus transport and tracks the currently configured
/// gain; the gain always reflects what was last successfully written to
/// the device.
pub struct Magnetometer<Dev> where Dev: Bus {
    device: Dev,
    gain: Gain,
}

impl<Dev> Magnetometer<Dev> where Dev: Bus {
    /// The gain the driver recorded at the last successful write.
    pub closed spec fn recorded_gain(self) -> Gain {
        self.gain
    }

    /// The owned bus transport.
    pub closed spec fn bus(self) -> Dev {
        self.device
    }

    /// Initialize the magnetometer, given an open bus transport.
    ///
    /// Writes the mode register (continuous-conversion mode) and control
    /// register A (temperature sensor on, 15 Hz data rate), in that
    /// order; if either write fails no driver is produced. The gain
    /// register is deliberately not written: the driver records the
    /// device's power-on default of +/- 1.3 Gauss and assumes the device
    /// matches it. Should a device ever power on with another gain, the
    /// recorded state diverges until `set_gain` is called.
    pub fn from_i2c_device(device: Dev) -> (r: Result<Magnetometer<Dev>, Error>)
        ensures
            r matches Ok(m) ==> m.recorded_gain() == Gain::Gain_1_3,
    {
        let mut device = device;

        // Set magnetometer to continuous mode
        let mr_reg_m = MrRegM::empty();
        device.write_byte(MR_REG_M, mr_reg_m.bits())?;

        // enable temperature; set output rate to 15 Hz
        let cra_reg_m = CraRegM::from_bits_truncate(CRA_INIT);
        device.write_byte(CRA_REG_M, cra_reg_m.bits())?;

        let gain = Gain::Gain_1_3;

        let magnetometer = Magnetometer { device, gain };
        Ok(magnetometer)
    }

    /// Read the magnetometer.
    ///
    /// Issues one six-byte block read of the output registers and
    /// returns the decoded (x, y, z) field vector; the wire carries the
    /// axes as X, Z, Y. Nothing is cached: every call is one fresh bus
    /// transaction, and the recorded gain is untouched.
    pub fn read_magnetic_field(&mut self) -> (r: Result<(i16, i16, i16), Error>)
        ensures
            final(self).recorded_gain() == old(self).recorded_gain(),
    {
        let data = self.device.read_block(OUT_X_H_M, 6)?;
        decode_magnetic_field(&data)
    }

    /// Set the gain of the magnetometer.
    ///
    /// Reads control register B, replaces the three selector bits as a
    /// unit with the new gain's pattern, and writes the result back.
    /// Only after the write succeeds is the new gain recorded; on any
    /// failure the old gain remains authoritative, still matching what
    /// is physically configured.
    pub fn set_gain(&mut self, gain: Gain) -> (r: Result<(), Error>)
        ensures
            r is Ok ==> final(self).recorded_gain() == gain,
            r is Err ==> final(self).recorded_gain() == old(self).recorded_gain(),
    {
        let data = self.device.read_block(CRB_REG_M, 1)?;
        if data.len() < 1 {
            return Err(Error::Transport);
        }
        let value = crb_value_for_gain(data[0], gain);
        self.device.write_byte(CRB_REG_M, value)?;
        self.gain = gain;

        Ok(())
    }

    /// Read the thermometer.
    ///
    /// Issues one two-byte block read of the temperature registers and
    /// returns the raw count divided by 16, truncating toward zero.
    /// Nothing is cached, and the recorded gain is untouched.
    pub fn read_temperature(&mut self) -> (r: Result<i16, Error>)
        ensures
            final(self).recorded_gain() == old(self).recorded_gain(),
    {
        let data = self.device.read_block(TEMP_OUT_H_M, 2)?;
        decode_temperature(&data)
    }

    /// The gain the driver currently records.
    pub fn gain(&self) -> (g: Gain)
        ensures
            g == self.recorded_gain(),
    {
        self.gain
    }

    /// Access the underlying bus transport.
    pub fn device(&self) -> (d: &Dev)
        ensures
            *d == self.bus(),
    {
        &self.device
    }

    /// Mutable access to the underlying bus transport.
    ///
    /// Register operations issued through this reference bypass the
    /// driver's invariants: a caller that rewrites control register B
    /// directly is responsible for keeping the recorded gain truthful.
    pub fn device_mut(&mut self) -> (d: &mut Dev)
        ensures
            *d == old(self).bus(),
            final(self).bus() == *final(d),
            final(self).recorded_gain() == old(self).recorded_gain(),
    {
        &mut self.device
    }
}

} // verus!
