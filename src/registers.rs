//! The parts of the outside register map that the driver relies on.
use vstd::prelude::*;
use lsm303dlhc_registers::accel::{AccelOdr, ControlRegister1A, RegisterAddress, Sensitivity};
use lsm303dlhc_registers::mag::{ConfigurationARegisterM, MagOdr};

verus! {

#[verifier::external_type_specification]
pub struct ExAccelOdr(AccelOdr);

#[verifier::external_type_specification]
pub struct ExMagOdr(MagOdr);

#[verifier::external_type_specification]
pub struct ExSensitivity(Sensitivity);

#[verifier::external_type_specification]
pub struct ExAccelRegisterAddress(RegisterAddress);

/// The 4-bit code of an accelerometer output data rate.
pub open spec fn accel_odr_code(odr: AccelOdr) -> u8 {
    match odr {
        AccelOdr::Disabled => 0b0000,
        AccelOdr::Hz1 => 0b0001,
        AccelOdr::Hz10 => 0b0010,
        AccelOdr::Hz25 => 0b0011,
        AccelOdr::Hz50 => 0b0100,
        AccelOdr::Hz100 => 0b0101,
        AccelOdr::Hz200 => 0b0110,
        AccelOdr::Hz400 => 0b0111,
        AccelOdr::LpHz1620 => 0b1000,
        AccelOdr::LpHz1620NormalHz5376 => 0b1001,
    }
}

/// The 3-bit code of a magnetometer output data rate.
pub open spec fn mag_odr_code(odr: MagOdr) -> u8 {
    match odr {
        MagOdr::Hz0_75 => 0b000,
        MagOdr::Hz1_5 => 0b001,
        MagOdr::Hz3 => 0b010,
        MagOdr::Hz7_5 => 0b011,
        MagOdr::Hz15 => 0b100,
        MagOdr::Hz30 => 0b101,
        MagOdr::Hz75 => 0b110,
        MagOdr::Hz220 => 0b111,
    }
}

/// The 2-bit full-scale code of an accelerometer sensitivity.
pub open spec fn sensitivity_code(s: Sensitivity) -> u8 {
    match s {
        Sensitivity::G1 => 0b00,
        Sensitivity::G2 => 0b01,
        Sensitivity::G4 => 0b10,
        Sensitivity::G12 => 0b11,
    }
}

/// The address of an accelerometer register.
pub open spec fn accel_register_addr(reg: RegisterAddress) -> u8 {
    match reg {
        RegisterAddress::CTRL_REG1_A => 0x20,
        RegisterAddress::CTRL_REG2_A => 0x21,
        RegisterAddress::CTRL_REG3_A => 0x22,
        RegisterAddress::CTRL_REG4_A => 0x23,
        RegisterAddress::CTRL_REG5_A => 0x24,
        RegisterAddress::CTRL_REG6_A => 0x25,
        RegisterAddress::REFERENCE_A => 0x26,
        RegisterAddress::STATUS_REG_A => 0x27,
        RegisterAddress::OUT_X_L_A => 0x28,
        RegisterAddress::OUT_X_H_A => 0x29,
        RegisterAddress::OUT_Y_L_A => 0x2A,
        RegisterAddress::OUT_Y_H_A => 0x2B,
        RegisterAddress::OUT_Z_L_A => 0x2C,
        RegisterAddress::OUT_Z_H_A => 0x2D,
        RegisterAddress::FIFO_CTRL_REG_A => 0x2E,
        RegisterAddress::FIFO_SRC_REG_A => 0x2F,
        RegisterAddress::INT1_CFG_A => 0x30,
        RegisterAddress::INT1_SRC_A => 0x31,
        RegisterAddress::INT1_THS_A => 0x32,
        RegisterAddress::INT1_DURATION_A => 0x33,
        RegisterAddress::INT2_CFG_A => 0x34,
        RegisterAddress::INT2_SRC_A => 0x35,
        RegisterAddress::INT2_THS_A => 0x36,
        RegisterAddress::INT2_DURATION_A => 0x37,
        RegisterAddress::CLICK_CFG_A => 0x38,
        RegisterAddress::CLICK_SRC_A => 0x39,
        RegisterAddress::CLICK_THS_A => 0x3A,
        RegisterAddress::TIME_LIMIT_A => 0x3B,
        RegisterAddress::TIME_LATENCY_A => 0x3C,
        RegisterAddress::TIME_WINDOW_A => 0x3D,
    }
}

/// Relies on accel::RegisterAddress::addr: the variant's discriminant.
pub assume_specification[ RegisterAddress::addr ](reg: &RegisterAddress) -> (r: u8)
    ensures
        r == accel_register_addr(*reg),
;

/// Relies on AccelOdr::into_bits: the variant's discriminant.
pub assume_specification[ AccelOdr::into_bits ](odr: AccelOdr) -> (r: u8)
    ensures
        r == accel_odr_code(odr),
;

/// Relies on MagOdr::into_bits: the variant's discriminant.
pub assume_specification[ MagOdr::into_bits ](odr: MagOdr) -> (r: u8)
    ensures
        r == mag_odr_code(odr),
;

/// Relies on Sensitivity::into_bits: the variant's discriminant.
pub assume_specification[ Sensitivity::into_bits ](s: Sensitivity) -> (r: u8)
    ensures
        r == sensitivity_code(s),
;

/// `bits` with its data-rate field (bits 7 to 4 of `CTRL_REG1_A`) replaced by
/// the code of `odr`.
pub open spec fn with_accel_odr(bits: u8, odr: AccelOdr) -> u8 {
    (bits & 0x0F) | (accel_odr_code(odr) << 4u8)
}

/// `bits` with its data-rate field (bits 4 to 2 of `CRA_REG_M`) replaced by the
/// code of `odr`.
pub open spec fn with_mag_odr(bits: u8, odr: MagOdr) -> u8 {
    (bits & 0xE3) | (mag_odr_code(odr) << 2u8)
}

/// Relies on ControlRegister1A's `from_bits`, `with_output_data_rate` and
/// `into_bits`: the data-rate field is the top four bits.
#[verifier::external_body]
pub(crate) fn accel_ctrl1_with_odr(bits: u8, odr: AccelOdr) -> (r: u8)
    ensures
        r == with_accel_odr(bits, odr),
{
    ControlRegister1A::from_bits(bits).with_output_data_rate(odr).into_bits()
}

/// Relies on ConfigurationARegisterM's `from_bits`, `with_data_output_rate` and
/// `into_bits`: the data-rate field is bits 4 to 2.
#[verifier::external_body]
pub(crate) fn mag_cra_with_odr(bits: u8, odr: MagOdr) -> (r: u8)
    ensures
        r == with_mag_odr(bits, odr),
{
    ConfigurationARegisterM::from_bits(bits).with_data_output_rate(odr).into_bits()
}

} // verus!
