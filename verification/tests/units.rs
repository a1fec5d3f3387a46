//! Unit tests for the register model and the byte decoding.

use lsm303::Error;
use lsm303::Gain;
use lsm303::decode::be_i16;
use lsm303::decode::decode_magnetic_field;
use lsm303::decode::decode_temperature;
use lsm303::decode::temp_scale;
use lsm303::magnetometer::crb_value_for_gain;
use lsm303::magnetometer::gain_bits;
use lsm303::registers::CRA_INIT;
use lsm303::registers::CRA_REG_M;
use lsm303::registers::CRA_VALID;
use lsm303::registers::CRB_REG_M;
use lsm303::registers::CraRegM;
use lsm303::registers::CrbRegM;
use lsm303::registers::DO2;
use lsm303::registers::GAIN_MASK;
use lsm303::registers::I2C_ADDRESS;
use lsm303::registers::MR_CONTINUOUS;
use lsm303::registers::MR_REG_M;
use lsm303::registers::MrRegM;
use lsm303::registers::OUT_X_H_M;
use lsm303::registers::TEMP_EN;
use lsm303::registers::TEMP_OUT_H_M;

#[test]
fn protocol_constants_match_datasheet() {
    assert_eq!(I2C_ADDRESS, 0x1E);
    assert_eq!(I2C_ADDRESS, 0x3C >> 1);
    assert_eq!(CRA_REG_M, 0x00);
    assert_eq!(CRB_REG_M, 0x01);
    assert_eq!(MR_REG_M, 0x02);
    assert_eq!(OUT_X_H_M, 0x03);
    assert_eq!(TEMP_OUT_H_M, 0x31);
    assert_eq!(GAIN_MASK, 0xE0);
    assert_eq!(CRA_VALID, 0x9C);
    assert_eq!(MR_CONTINUOUS, 0x00);
    assert_eq!(CRA_INIT, 0x90);
}

#[test]
fn big_endian_reassembly() {
    assert_eq!(be_i16(0x00, 0x0A), 10);
    assert_eq!(be_i16(0x7F, 0xFF), 32767);
    assert_eq!(be_i16(0x80, 0x00), -32768);
    assert_eq!(be_i16(0xFF, 0xFF), -1);
    assert_eq!(be_i16(0xFF, 0xF0), -16);
}

#[test]
fn field_decode_wire_order() {
    let data = vec![0x00, 0x0A, 0x00, 0x14, 0x00, 0x1E];
    assert_eq!(decode_magnetic_field(&data).unwrap(), (10, 30, 20));
}

#[test]
fn field_decode_short_input() {
    for n in 0..6 {
        let data = vec![0xAB; n];
        assert_eq!(decode_magnetic_field(&data), Err(Error::NotEnoughData));
    }
}

#[test]
fn temperature_decode_truncates_toward_zero() {
    assert_eq!(decode_temperature(&vec![0x00, 0x20]).unwrap(), 2);
    assert_eq!(decode_temperature(&vec![0xFF, 0xF0]).unwrap(), -1);
    assert_eq!(decode_temperature(&vec![0xFF, 0xF8]).unwrap(), 0);
    assert_eq!(decode_temperature(&vec![0x01, 0x00]).unwrap(), 16);
    assert_eq!(temp_scale(-32768), -2048);
    assert_eq!(temp_scale(32767), 2047);
    assert_eq!(temp_scale(15), 0);
    assert_eq!(temp_scale(-15), 0);
}

#[test]
fn temperature_decode_short_input() {
    assert_eq!(decode_temperature(&vec![]), Err(Error::Transport));
    assert_eq!(decode_temperature(&vec![0x01]), Err(Error::Transport));
}

#[test]
fn gain_table_matches_datasheet() {
    assert_eq!(gain_bits(Gain::Gain_1_3), 0x20);
    assert_eq!(gain_bits(Gain::Gain_1_9), 0x40);
    assert_eq!(gain_bits(Gain::Gain_2_5), 0x60);
    assert_eq!(gain_bits(Gain::Gain_4_0), 0x80);
    assert_eq!(gain_bits(Gain::Gain_4_7), 0xA0);
    assert_eq!(gain_bits(Gain::Gain_5_6), 0xC0);
    assert_eq!(gain_bits(Gain::Gain_8_1), 0xE0);
}

#[test]
fn gain_register_value_ignores_previous_bits() {
    let gains = vec![
        Gain::Gain_1_3,
        Gain::Gain_1_9,
        Gain::Gain_2_5,
        Gain::Gain_4_0,
        Gain::Gain_4_7,
        Gain::Gain_5_6,
        Gain::Gain_8_1,
    ];
    for gain in gains {
        assert_eq!(crb_value_for_gain(0x00, gain), gain_bits(gain));
        assert_eq!(crb_value_for_gain(0xFF, gain), gain_bits(gain));
        assert_eq!(crb_value_for_gain(0xE0, gain), gain_bits(gain));
    }
}

#[test]
fn flag_sets_compose_within_their_mask() {
    let cra = CraRegM::from_bits_truncate(TEMP_EN).union(CraRegM::from_bits_truncate(DO2));
    assert_eq!(cra.bits(), 0x90);
    assert_eq!(CraRegM::from_bits_truncate(0xFF).bits(), CRA_VALID);
    assert_eq!(CraRegM::empty().bits(), 0x00);
    assert_eq!(cra.difference(CraRegM::from_bits_truncate(TEMP_EN)).bits(), DO2);
    assert!(cra.contains(CraRegM::from_bits_truncate(DO2)));
    assert!(!cra.contains(CraRegM::from_bits_truncate(0x08)));

    assert_eq!(CrbRegM::from_bits_truncate(0xFF).bits(), 0xE0);
    assert_eq!(MrRegM::from_bits_truncate(0xFF).bits(), 0x03);
    assert_eq!(MrRegM::empty().bits(), MR_CONTINUOUS);
}

#[test]
fn flag_sets_reject_undocumented_bits() {
    assert!(CraRegM::from_bits(0x40).is_none());
    assert_eq!(CraRegM::from_bits(0x90).unwrap().bits(), 0x90);
    assert!(CrbRegM::from_bits(0x01).is_none());
    assert_eq!(CrbRegM::from_bits(0xE0).unwrap().bits(), 0xE0);
    assert!(MrRegM::from_bits(0x04).is_none());
    assert_eq!(MrRegM::from_bits(0x03).unwrap().bits(), 0x03);
}

#[test]
fn error_kinds_are_distinct() {
    assert_ne!(Error::FailedToOpenDevice, Error::Transport);
    assert_ne!(Error::Transport, Error::NotEnoughData);
    assert_ne!(Error::FailedToOpenDevice, Error::NotEnoughData);
    assert_eq!(Error::FailedToOpenDevice.describe(), "failed to open the device");
    assert_eq!(Error::Transport.describe(), "bus transport failure");
    assert_eq!(Error::NotEnoughData.describe(), "not enough data returned by the bus");
}
