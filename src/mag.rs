//! Magnetometer register addresses.
use vstd::prelude::*;

verus! {

/// The 7-bit bus address of the magnetometer.
pub const ADDRESS: u8 = 0x1E;

/// Magnetometer register addresses.
#[allow(non_camel_case_types)]
#[derive(Copy, Clone, PartialEq, Eq, Debug)]
pub enum Register {
    CRA_REG_M,
    CRB_REG_M,
    MR_REG_M,
    OUT_X_H_M,
    OUT_X_L_M,
    OUT_Z_H_M,
    OUT_Z_L_M,
    OUT_Y_H_M,
    OUT_Y_L_M,
    SR_REG_M,
    IRA_REG_M,
    IRB_REG_M,
    IRC_REG_M,
    TEMP_OUT_H_M,
    TEMP_OUT_L_M,
}

impl Register {
    /// The register's address inside the magnetometer's address space.
    pub open spec fn spec_addr(self) -> u8 {
        match self {
            Register::CRA_REG_M => 0x00,
            Register::CRB_REG_M => 0x01,
            Register::MR_REG_M => 0x02,
            Register::OUT_X_H_M => 0x03,
            Register::OUT_X_L_M => 0x04,
            Register::OUT_Z_H_M => 0x05,
            Register::OUT_Z_L_M => 0x06,
            Register::OUT_Y_H_M => 0x07,
            Register::OUT_Y_L_M => 0x08,
            Register::SR_REG_M => 0x09,
            Register::IRA_REG_M => 0x0A,
            Register::IRB_REG_M => 0x0B,
            Register::IRC_REG_M => 0x0C,
            Register::TEMP_OUT_H_M => 0x31,
            Register::TEMP_OUT_L_M => 0x32,
        }
    }

    /// Returns the address of a register.
    pub fn addr(&self) -> (r: u8)
        ensures
            r == self.spec_addr(),
            r < 0x80,
    {
        match self {
            Register::CRA_REG_M => 0x00,
            Register::CRB_REG_M => 0x01,
            Register::MR_REG_M => 0x02,
            Register::OUT_X_H_M => 0x03,
            Register::OUT_X_L_M => 0x04,
            Register::OUT_Z_H_M => 0x05,
            Register::OUT_Z_L_M => 0x06,
            Register::OUT_Y_H_M => 0x07,
            Register::OUT_Y_L_M => 0x08,
            Register::SR_REG_M => 0x09,
            Register::IRA_REG_M => 0x0A,
            Register::IRB_REG_M => 0x0B,
            Register::IRC_REG_M => 0x0C,
            Register::TEMP_OUT_H_M => 0x31,
            Register::TEMP_OUT_L_M => 0x32,
        }
    }
}

} // verus!
