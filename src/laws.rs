//! Facts about the byte-level protocol that the driver's contracts rest on.
use vstd::prelude::*;
use lsm303dlhc_registers::accel::{AccelOdr, RegisterAddress, Sensitivity};
use lsm303dlhc_registers::mag::MagOdr;
use crate::bus::{Transfer, write_read_transfer, write_transfer};
use crate::driver::{accel_burst_start, init_writes, modify_trace, with_sensitivity, ACCEL_ADDRESS};
use crate::mag;
use crate::measurement::combine;
use crate::registers::{accel_register_addr, sensitivity_code, with_accel_odr, with_mag_odr};

verus! {

/// The assembled value is the two's complement reading of the little-endian
/// word `low, high`: it is that word modulo 2^16, and it is negative exactly
/// when the top bit of `high` is set.
pub proof fn combine_is_le_twos_complement(low: u8, high: u8)
    ensures
        (combine(low, high) as int + 0x10000) % 0x10000 == low as int + 256 * (high as int),
        (combine(low, high) < 0) == (high >= 0x80),
{
}

/// Every signed 16-bit value is assembled back from its own two bytes.
pub proof fn combine_round_trip(v: i16)
    ensures
        combine(((v as int + 0x10000) % 256) as u8, (((v as int + 0x10000) % 0x10000) / 256) as u8) == v,
{
}

/// An accelerometer burst read starts at the register's address with bit 7
/// set; a magnetometer one sends the register's address unchanged, whose bit 7
/// is always clear.
pub proof fn burst_start_bits(a: RegisterAddress, m: mag::Register)
    ensures
        accel_burst_start(a) == accel_register_addr(a) | 0x80,
        accel_burst_start(a) & 0x80 == 0x80,
        accel_burst_start(a) & 0x7F == accel_register_addr(a),
        m.spec_addr() & 0x80 == 0,
{
    let x = accel_register_addr(a);
    assert(x < 0x80);
    assert(x < 0x80 ==> (x | 0x80) & 0x80 == 0x80 && (x | 0x80) & 0x7F == x) by (bit_vector);
    let y = m.spec_addr();
    assert(y < 0x80);
    assert(y < 0x80 ==> y & 0x80 == 0) by (bit_vector);
}

/// Changing the sensitivity keeps every bit of `CTRL_REG4_A` but bits 5 and
/// 4, which then hold the sensitivity's code.
pub proof fn sensitivity_patch_keeps_other_bits(initial: u8, s: Sensitivity)
    ensures
        with_sensitivity(initial, s) & !0x30u8 == initial & !0x30u8,
        (with_sensitivity(initial, s) >> 4u8) & 0b11 == sensitivity_code(s),
{
    let c = sensitivity_code(s);
    assert(c <= 3);
    assert(c <= 3 ==> ((initial & !0x30u8) | (c << 4u8)) & !0x30u8 == initial & !0x30u8 && (((
    initial & !0x30u8) | (c << 4u8)) >> 4u8) & 0b11 == c) by (bit_vector);
}

/// Changing a data rate keeps every other bit of its register.
pub proof fn odr_patch_keeps_other_bits(bits: u8, a: AccelOdr, m: MagOdr)
    ensures
        with_accel_odr(bits, a) & 0x0F == bits & 0x0F,
        with_accel_odr(bits, a) >> 4u8 == crate::registers::accel_odr_code(a),
        with_mag_odr(bits, m) & 0xE3 == bits & 0xE3,
        (with_mag_odr(bits, m) >> 2u8) & 0b111 == crate::registers::mag_odr_code(m),
{
    let c = crate::registers::accel_odr_code(a);
    let d = crate::registers::mag_odr_code(m);
    assert(c <= 9 && d <= 7);
    assert(c <= 15 ==> ((bits & 0x0F) | (c << 4u8)) & 0x0F == bits & 0x0F && ((bits & 0x0F) | (c
        << 4u8)) >> 4u8 == c) by (bit_vector);
    assert(d <= 7 ==> ((bits & 0xE3) | (d << 2u8)) & 0xE3 == bits & 0xE3 && (((bits & 0xE3) | (d
        << 2u8)) >> 2u8) & 0b111 == d) by (bit_vector);
}

/// The construction sequence is eight writes: `0x77` to `CTRL_REG1_A`, zero to
/// `CTRL_REG2_A` through `CTRL_REG6_A`, zero to `MR_REG_M`, `0x98` to
/// `CRA_REG_M`.
pub proof fn init_sequence_bytes()
    ensures
        init_writes() == seq![
            (ACCEL_ADDRESS, 0x20u8, 0x77u8),
            (ACCEL_ADDRESS, 0x21u8, 0u8),
            (ACCEL_ADDRESS, 0x22u8, 0u8),
            (ACCEL_ADDRESS, 0x23u8, 0u8),
            (ACCEL_ADDRESS, 0x24u8, 0u8),
            (ACCEL_ADDRESS, 0x25u8, 0u8),
            (mag::ADDRESS, 0x02u8, 0u8),
            (mag::ADDRESS, 0x00u8, 0x98u8),
        ],
{
    assert(((0x07u8 & 0x0Fu8) | (0x07u8 << 4u8)) == 0x77u8) by (bit_vector);
    assert(((0x80u8 & 0xE3u8) | (0x06u8 << 2u8)) == 0x98u8) by (bit_vector);
    assert(init_writes() =~= seq![
        (ACCEL_ADDRESS, 0x20u8, 0x77u8),
        (ACCEL_ADDRESS, 0x21u8, 0u8),
        (ACCEL_ADDRESS, 0x22u8, 0u8),
        (ACCEL_ADDRESS, 0x23u8, 0u8),
        (ACCEL_ADDRESS, 0x24u8, 0u8),
        (ACCEL_ADDRESS, 0x25u8, 0u8),
        (mag::ADDRESS, 0x02u8, 0u8),
        (mag::ADDRESS, 0x00u8, 0x98u8),
    ]);
}

/// A read-modify-write whose read succeeded is exactly a one-byte read of the
/// register followed by a write of the register and the updated byte.
pub proof fn modify_is_read_then_write(
    before: Seq<Transfer>,
    after: Seq<Transfer>,
    device: u8,
    register: u8,
    update: spec_fn(u8, u8) -> bool,
    ok: bool,
)
    requires
        modify_trace(before, after, device, register, register, update, ok),
        after[before.len() as int].ok,
    ensures
        ({
            let b = after[before.len() as int].received[0];
            let w = after[before.len() + 1 as int].sent[1];
            &&& update(b, w)
            &&& after == before.push(write_read_transfer(device, seq![register], seq![b], true)).push(
                write_transfer(device, seq![register, w], ok),
            )
        }),
{
    let n = before.len();
    let b = after[n as int].received[0];
    assert(after[n as int].received =~= seq![b]);
    assert(after =~= before.push(write_read_transfer(device, seq![register], seq![b], true)).push(
        write_transfer(device, seq![register, after[n + 1 as int].sent[1]], ok),
    ));
}

} // verus!
