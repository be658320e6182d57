//! The driver session: register access over an exclusively owned bus.
use vstd::prelude::*;
use lsm303dlhc_registers::accel::{AccelOdr, RegisterAddress, Sensitivity};
use lsm303dlhc_registers::mag::MagOdr;
use crate::bus::{I2c, Transfer, write_read_transfer, write_transfer};
use crate::mag;
use crate::measurement::{I16x3, accel_from_bytes, accel_triple, mag_from_bytes, mag_triple, temp_from_bytes, temperature};
use crate::registers::{
    accel_ctrl1_with_odr, accel_register_addr, mag_cra_with_odr, sensitivity_code, with_accel_odr,
    with_mag_odr,
};

verus! {

/// The 7-bit bus address of the accelerometer.
pub const ACCEL_ADDRESS: u8 = 0x19;

/// The flag that asks the accelerometer to auto-increment its register pointer
/// during a read.
pub const AUTO_INCREMENT: u8 = 0x80;

/// The byte that starts an accelerometer burst read at `reg`.
pub open spec fn accel_burst_start(reg: RegisterAddress) -> u8 {
    accel_register_addr(reg) | AUTO_INCREMENT
}

/// `after` is `before` followed by a read-modify-write of `register` at
/// `device`: a one-byte write-then-read of `read_start`, then, if it succeeded,
/// a write of `register` and a byte `w` such that `update(b, w)` holds of the
/// byte `b` read. `ok` tells whether every transaction succeeded.
pub open spec fn modify_trace(
    before: Seq<Transfer>,
    after: Seq<Transfer>,
    device: u8,
    read_start: u8,
    register: u8,
    update: spec_fn(u8, u8) -> bool,
    ok: bool,
) -> bool {
    let n = before.len();
    let read = after[n as int];
    let write = after[n + 1 as int];
    &&& after.len() > n
    &&& after.subrange(0, n as int) == before
    &&& read == write_read_transfer(device, seq![read_start], read.received, read.ok)
    &&& read.received.len() == 1
    &&& if read.ok {
        &&& after.len() == n + 2
        &&& write.sent.len() == 2
        &&& write == write_transfer(device, seq![register, write.sent[1]], write.ok)
        &&& update(read.received[0], write.sent[1])
        &&& ok == write.ok
    } else {
        after.len() == n + 1 && !ok
    }
}

/// `after` is `before` followed by one-byte write-then-reads at `device` of the
/// addresses in `starts`, in order, stopping after the first that failed.
pub open spec fn reads_trace(before: Seq<Transfer>, after: Seq<Transfer>, device: u8, starts: Seq<u8>) -> bool {
    let n = before.len();
    &&& n < after.len() <= n + starts.len()
    &&& after.subrange(0, n as int) == before
    &&& forall|i: int|
        0 <= i < after.len() - n ==> {
            &&& #[trigger] after[n + i] == write_read_transfer(
                device,
                seq![starts[i]],
                after[n + i].received,
                after[n + i].ok,
            )
            &&& after[n + i].received.len() == 1
        }
    &&& forall|i: int| 0 <= i < after.len() - n - 1 ==> #[trigger] after[n + i].ok
    &&& (after.len() < n + starts.len() ==> !after.last().ok)
}

/// `after` is `before` followed by the writes of `writes` (each a device
/// address, a register address and a byte), in order, stopping after the first
/// that failed.
pub open spec fn writes_trace(before: Seq<Transfer>, after: Seq<Transfer>, writes: Seq<(u8, u8, u8)>) -> bool {
    let n = before.len();
    &&& n < after.len() <= n + writes.len()
    &&& after.subrange(0, n as int) == before
    &&& forall|i: int|
        0 <= i < after.len() - n ==> #[trigger] after[n + i] == write_transfer(
            writes[i].0,
            seq![writes[i].1, writes[i].2],
            after[n + i].ok,
        )
    &&& forall|i: int| 0 <= i < after.len() - n - 1 ==> #[trigger] after[n + i].ok
    &&& (after.len() < n + writes.len() ==> !after.last().ok)
}

/// Whether every transaction after the first `n` of `after` was made and
/// succeeded, `k` of them in all.
pub open spec fn all_done(n: nat, after: Seq<Transfer>, k: nat) -> bool {
    after.len() == n + k && after.last().ok
}

/// The byte read back by the `i`-th transaction after the first `n`.
pub open spec fn byte_read(n: nat, after: Seq<Transfer>, i: int) -> u8 {
    after[n + i].received[0]
}

/// `bits` of `CTRL_REG4_A` with its full-scale field (bits 5 and 4) replaced by
/// the code of `s`.
pub open spec fn with_sensitivity(bits: u8, s: Sensitivity) -> u8 {
    (bits & !0x30u8) | (sensitivity_code(s) << 4u8)
}

/// `CTRL_REG1_A` with low-power mode off and the X, Y and Z axes enabled, at
/// the data rate code zero.
pub const ACCEL_AXES_ENABLED: u8 = 0b0000_0111;

/// `CRA_REG_M` with the temperature sensor enabled, at the data rate code zero.
pub const MAG_TEMP_ENABLED: u8 = 0b1000_0000;

/// The register writes that bring both sensors into a known, active state, in
/// order: the accelerometer at 400 Hz with all axes on, its other control
/// registers cleared, the magnetometer converting continuously, its
/// temperature sensor on at 75 Hz.
pub open spec fn init_writes() -> Seq<(u8, u8, u8)> {
    seq![
        (ACCEL_ADDRESS, 0x20u8, with_accel_odr(ACCEL_AXES_ENABLED, AccelOdr::Hz400)),
        (ACCEL_ADDRESS, 0x21u8, 0u8),
        (ACCEL_ADDRESS, 0x22u8, 0u8),
        (ACCEL_ADDRESS, 0x23u8, 0u8),
        (ACCEL_ADDRESS, 0x24u8, 0u8),
        (ACCEL_ADDRESS, 0x25u8, 0u8),
        (mag::ADDRESS, 0x02u8, 0u8),
        (mag::ADDRESS, 0x00u8, with_mag_odr(MAG_TEMP_ENABLED, MagOdr::Hz75)),
    ]
}

/// LSM303DLHC driver.
#[allow(non_snake_case)]
pub struct LSM303DLHC<I2C> {
    i2c: I2C,
}

impl<I2C: I2c> LSM303DLHC<I2C> {
    /// Creates a new driver from a bus and runs the construction sequence on
    /// it. Any failed write aborts the construction and hands back its error.
    pub fn new(i2c: I2C) -> (r: Result<Self, I2C::Error>)
        ensures
            r is Ok ==> writes_trace(i2c.transfers(), r->Ok_0.transfers(), init_writes()),
            r is Ok ==> all_done(i2c.transfers().len(), r->Ok_0.transfers(), 8),
    {
        let mut sensor = LSM303DLHC { i2c };
        match sensor.configure() {
            Ok(()) => Ok(sensor),
            Err(e) => Err(e),
        }
    }

    /// The transactions made on the owned bus so far.
    pub closed spec fn transfers(&self) -> Seq<Transfer> {
        self.i2c.transfers()
    }

    /// The bytes that the latest transaction read back.
    pub open spec fn last_received(&self) -> Seq<u8> {
        self.transfers().last().received
    }

    /// The owned bus.
    pub fn bus(&self) -> (r: &I2C)
        ensures
            r.transfers() == self.transfers(),
    {
        &self.i2c
    }

    /// Gives the owned bus back.
    pub fn release(self) -> (r: I2C)
        ensures
            r.transfers() == self.transfers(),
    {
        self.i2c
    }

    /// Reads the register at `register` of the device at `device`: one
    /// write-then-read of the address, one byte back.
    pub fn read_register_bits(&mut self, device: u8, register: u8) -> (r: Result<u8, I2C::Error>)
        ensures
            final(self).transfers() == old(self).transfers().push(
                write_read_transfer(device, seq![register], final(self).last_received(), r is Ok),
            ),
            final(self).last_received().len() == 1,
            r is Ok ==> r->Ok_0 == final(self).last_received()[0],
    {
        let mut buffer = [0u8; 1];
        let out = [register];
        let res = self.i2c.write_read(device, &out, &mut buffer);
        assert(out@ == seq![register]);
        match res {
            Ok(()) => Ok(buffer[0]),
            Err(e) => Err(e),
        }
    }

    /// Writes `bits` to the register at `register` of the device at `device`:
    /// one write of the address and the byte.
    pub fn write_register_bits(&mut self, device: u8, register: u8, bits: u8) -> (r: Result<
        (),
        I2C::Error,
    >)
        ensures
            final(self).transfers() == old(self).transfers().push(
                write_transfer(device, seq![register, bits], r is Ok),
            ),
    {
        let out = [register, bits];
        let res = self.i2c.write(device, &out);
        assert(out@ == seq![register, bits]);
        res
    }

    /// Reads the register at `register` of the device at `device`, applies `f`
    /// and writes the result back. Another bus user may change the register
    /// between the read and the write.
    pub fn modify_register_bits<F: FnOnce(u8) -> u8>(&mut self, device: u8, register: u8, f: F) -> (r:
        Result<(), I2C::Error>)
        requires
            forall|b: u8| call_requires(f, (b,)),
        ensures
            modify_trace(
                old(self).transfers(),
                final(self).transfers(),
                device,
                register,
                register,
                |b: u8, w: u8| call_ensures(f, (b,), w),
                r is Ok,
            ),
    {
        let ghost before = self.transfers();
        let res = self.read_register_bits(device, register);
        match res {
            Ok(b) => {
                let ghost mid = self.transfers();
                let w = f(b);
                let res2 = self.write_register_bits(device, register, w);
                assert(self.transfers().subrange(0, before.len() as int) =~= before);
                assert(self.transfers()[before.len() + 1 as int].sent =~= seq![register, w]);
                res2
            },
            Err(e) => {
                assert(self.transfers().subrange(0, before.len() as int) =~= before);
                Err(e)
            },
        }
    }

    /// Reads `buffer.len()` consecutive accelerometer registers from `reg` in one
    /// transaction. The start address carries the auto-increment flag, so the
    /// device advances its register pointer after each byte.
    fn read_accel_registers(&mut self, reg: RegisterAddress, buffer: &mut [u8]) -> (r: Result<
        (),
        I2C::Error,
    >)
        ensures
            final(buffer)@.len() == old(buffer)@.len(),
            final(self).transfers() == old(self).transfers().push(
                write_read_transfer(ACCEL_ADDRESS, seq![accel_burst_start(reg)], final(buffer)@, r is Ok),
            ),
    {
        let out = [reg.addr() | AUTO_INCREMENT];
        let res = self.i2c.write_read(ACCEL_ADDRESS, &out, buffer);
        assert(out@ == seq![accel_burst_start(reg)]);
        res
    }

    /// Reads an accelerometer register.
    pub fn read_accel_register(&mut self, reg: RegisterAddress) -> (r: Result<u8, I2C::Error>)
        ensures
            final(self).transfers() == old(self).transfers().push(
                write_read_transfer(
                    ACCEL_ADDRESS,
                    seq![accel_burst_start(reg)],
                    final(self).last_received(),
                    r is Ok,
                ),
            ),
            final(self).last_received().len() == 1,
            r is Ok ==> r->Ok_0 == final(self).last_received()[0],
    {
        let mut buffer = [0u8; 1];
        match self.read_accel_registers(reg, &mut buffer) {
            Ok(()) => Ok(buffer[0]),
            Err(e) => Err(e),
        }
    }

    /// Writes an accelerometer register.
    ///
    /// Neither the register nor the byte is checked: the caller answers for
    /// writing only what the device's register map allows.
    pub fn write_accel_register(&mut self, reg: RegisterAddress, byte: u8) -> (r: Result<
        (),
        I2C::Error,
    >)
        ensures
            final(self).transfers() == old(self).transfers().push(
                write_transfer(ACCEL_ADDRESS, seq![accel_register_addr(reg), byte], r is Ok),
            ),
    {
        self.write_register_bits(ACCEL_ADDRESS, reg.addr(), byte)
    }

    /// Modifies an accelerometer register: reads it, applies `f`, writes the
    /// result back.
    ///
    /// Neither the register nor the byte is checked: the caller answers for
    /// writing only what the device's register map allows.
    pub fn modify_accel_register<F: FnOnce(u8) -> u8>(&mut self, reg: RegisterAddress, f: F) -> (r:
        Result<(), I2C::Error>)
        requires
            forall|b: u8| call_requires(f, (b,)),
        ensures
            modify_trace(
                old(self).transfers(),
                final(self).transfers(),
                ACCEL_ADDRESS,
                accel_burst_start(reg),
                accel_register_addr(reg),
                |b: u8, w: u8| call_ensures(f, (b,), w),
                r is Ok,
            ),
    {
        let ghost before = self.transfers();
        match self.read_accel_register(reg) {
            Ok(b) => {
                let w = f(b);
                let res = self.write_accel_register(reg, w);
                assert(self.transfers().subrange(0, before.len() as int) =~= before);
                assert(self.transfers()[before.len() + 1 as int].sent =~= seq![
                    accel_register_addr(reg),
                    w,
                ]);
                res
            },
            Err(e) => {
                assert(self.transfers().subrange(0, before.len() as int) =~= before);
                Err(e)
            },
        }
    }

    /// Reads `buffer.len()` consecutive magnetometer registers from `reg` in one
    /// transaction. The address is sent as it is: the magnetometer advances its
    /// register pointer by its own rule (from `0x08` back to `0x03`, from `0x0C`
    /// and above back to `0x00`, else by one).
    fn read_mag_registers(&mut self, reg: mag::Register, buffer: &mut [u8]) -> (r: Result<
        (),
        I2C::Error,
    >)
        ensures
            final(buffer)@.len() == old(buffer)@.len(),
            final(self).transfers() == old(self).transfers().push(
                write_read_transfer(mag::ADDRESS, seq![reg.spec_addr()], final(buffer)@, r is Ok),
            ),
    {
        let out = [reg.addr()];
        let res = self.i2c.write_read(mag::ADDRESS, &out, buffer);
        assert(out@ == seq![reg.spec_addr()]);
        res
    }

    /// Reads a magnetometer register.
    pub fn read_mag_register(&mut self, reg: mag::Register) -> (r: Result<u8, I2C::Error>)
        ensures
            final(self).transfers() == old(self).transfers().push(
                write_read_transfer(mag::ADDRESS, seq![reg.spec_addr()], final(self).last_received(), r is Ok),
            ),
            final(self).last_received().len() == 1,
            r is Ok ==> r->Ok_0 == final(self).last_received()[0],
    {
        let mut buffer = [0u8; 1];
        match self.read_mag_registers(reg, &mut buffer) {
            Ok(()) => Ok(buffer[0]),
            Err(e) => Err(e),
        }
    }

    /// Writes a magnetometer register.
    ///
    /// Neither the register nor the byte is checked: the caller answers for
    /// writing only what the device's register map allows.
    pub fn write_mag_register(&mut self, reg: mag::Register, byte: u8) -> (r: Result<
        (),
        I2C::Error,
    >)
        ensures
            final(self).transfers() == old(self).transfers().push(
                write_transfer(mag::ADDRESS, seq![reg.spec_addr(), byte], r is Ok),
            ),
    {
        self.write_register_bits(mag::ADDRESS, reg.addr(), byte)
    }

    /// Modifies a magnetometer register: reads it, applies `f`, writes the
    /// result back.
    ///
    /// Neither the register nor the byte is checked: the caller answers for
    /// writing only what the device's register map allows.
    pub fn modify_mag_register<F: FnOnce(u8) -> u8>(&mut self, reg: mag::Register, f: F) -> (r:
        Result<(), I2C::Error>)
        requires
            forall|b: u8| call_requires(f, (b,)),
        ensures
            modify_trace(
                old(self).transfers(),
                final(self).transfers(),
                mag::ADDRESS,
                reg.spec_addr(),
                reg.spec_addr(),
                |b: u8, w: u8| call_ensures(f, (b,), w),
                r is Ok,
            ),
    {
        let a = reg.addr();
        self.modify_register_bits(mag::ADDRESS, a, f)
    }

    /// Accelerometer measurements: one burst read of the six output registers
    /// from `OUT_X_L_A`.
    pub fn accel(&mut self) -> (r: Result<I16x3, I2C::Error>)
        ensures
            final(self).transfers() == old(self).transfers().push(
                write_read_transfer(ACCEL_ADDRESS, seq![0xA8u8], final(self).last_received(), r is Ok),
            ),
            final(self).last_received().len() == 6,
            r is Ok ==> r->Ok_0 == accel_triple(final(self).last_received()),
    {
        let mut buffer = [0u8; 6];
        let res = self.read_accel_registers(RegisterAddress::OUT_X_L_A, &mut buffer);
        assert((0x28u8 | 0x80u8) == 0xA8u8) by (bit_vector);
        match res {
            Ok(()) => Ok(accel_from_bytes(&buffer)),
            Err(e) => Err(e),
        }
    }

    /// Magnetometer measurements: one burst read of the six output registers
    /// from `OUT_X_H_M`.
    pub fn mag(&mut self) -> (r: Result<I16x3, I2C::Error>)
        ensures
            final(self).transfers() == old(self).transfers().push(
                write_read_transfer(mag::ADDRESS, seq![0x03u8], final(self).last_received(), r is Ok),
            ),
            final(self).last_received().len() == 6,
            r is Ok ==> r->Ok_0 == mag_triple(final(self).last_received()),
    {
        let mut buffer = [0u8; 6];
        let res = self.read_mag_registers(mag::Register::OUT_X_H_M, &mut buffer);
        match res {
            Ok(()) => Ok(mag_from_bytes(&buffer)),
            Err(e) => Err(e),
        }
    }

    /// Temperature sensor measurement: `TEMP_OUT_L_M`, then `TEMP_OUT_H_M`, read
    /// one by one. 12-bit resolution, 8 LSB per degree Celsius, relative to an
    /// unspecified reference temperature.
    pub fn temp(&mut self) -> (r: Result<i16, I2C::Error>)
        ensures
            reads_trace(old(self).transfers(), final(self).transfers(), mag::ADDRESS, seq![0x32u8, 0x31u8]),
            r is Ok <==> all_done(old(self).transfers().len(), final(self).transfers(), 2),
            r is Ok ==> r->Ok_0 == temperature(
                byte_read(old(self).transfers().len(), final(self).transfers(), 0),
                byte_read(old(self).transfers().len(), final(self).transfers(), 1),
            ),
    {
        let ghost before = self.transfers();
        let ghost n: int = before.len() as int;
        let low = match self.read_mag_register(mag::Register::TEMP_OUT_L_M) {
            Ok(b) => b,
            Err(e) => {
                assert(self.transfers().subrange(0, n) =~= before);
                assert(self.transfers()[n + 0] == self.transfers().last());
                return Err(e);
            },
        };
        let ghost mid = self.transfers();
        let res = self.read_mag_register(mag::Register::TEMP_OUT_H_M);
        assert(self.transfers().subrange(0, n) =~= before);
        assert(self.transfers()[n + 0] == mid.last());
        assert(self.transfers()[n + 1] == self.transfers().last());
        match res {
            Ok(high) => Ok(temp_from_bytes(low, high)),
            Err(e) => Err(e),
        }
    }

    /// Attempts to identify the sensor by its identification registers
    /// `IRA_REG_M`, `IRB_REG_M` and `IRC_REG_M`, read one by one.
    pub fn identify(&mut self) -> (r: Result<bool, I2C::Error>)
        ensures
            reads_trace(old(self).transfers(), final(self).transfers(), mag::ADDRESS, seq![0x0Au8, 0x0Bu8, 0x0Cu8]),
            r is Ok <==> all_done(old(self).transfers().len(), final(self).transfers(), 3),
            r is Ok ==> (r->Ok_0 <==> {
                let n = old(self).transfers().len();
                let t = final(self).transfers();
                &&& byte_read(n, t, 0) == 0x48
                &&& byte_read(n, t, 1) == 0x34
                &&& byte_read(n, t, 2) == 0x33
            }),
    {
        let ghost before = self.transfers();
        let ghost n: int = before.len() as int;
        let ira = match self.read_mag_register(mag::Register::IRA_REG_M) {
            Ok(b) => b,
            Err(e) => {
                assert(self.transfers().subrange(0, n) =~= before);
                assert(self.transfers()[n + 0] == self.transfers().last());
                return Err(e);
            },
        };
        let ghost t1 = self.transfers();
        let irb = match self.read_mag_register(mag::Register::IRB_REG_M) {
            Ok(b) => b,
            Err(e) => {
                assert(self.transfers().subrange(0, n) =~= before);
                assert(self.transfers()[n + 0] == t1.last());
                assert(self.transfers()[n + 1] == self.transfers().last());
                return Err(e);
            },
        };
        let ghost t2 = self.transfers();
        let res = self.read_mag_register(mag::Register::IRC_REG_M);
        assert(self.transfers().subrange(0, n) =~= before);
        assert(self.transfers()[n + 0] == t1.last());
        assert(self.transfers()[n + 1] == t2.last());
        assert(self.transfers()[n + 2] == self.transfers().last());
        match res {
            Ok(irc) => Ok(ira == 0x48 && irb == 0x34 && irc == 0x33),
            Err(e) => Err(e),
        }
    }

    /// Sets the accelerometer output data rate: a read-modify-write of
    /// `CTRL_REG1_A` that changes only its data-rate field.
    pub fn accel_odr(&mut self, odr: AccelOdr) -> (r: Result<(), I2C::Error>)
        ensures
            modify_trace(
                old(self).transfers(),
                final(self).transfers(),
                ACCEL_ADDRESS,
                0x20,
                0x20,
                |b: u8, w: u8| w == with_accel_odr(b, odr),
                r is Ok,
            ),
    {
        let f = |b: u8| -> (w: u8)
            ensures
                w == with_accel_odr(b, odr),
            { accel_ctrl1_with_odr(b, odr) };
        self.modify_register_bits(ACCEL_ADDRESS, 0x20, f)
    }

    /// Sets the magnetometer output data rate: a read-modify-write of
    /// `CRA_REG_M` that changes only its data-rate field.
    pub fn mag_odr(&mut self, odr: MagOdr) -> (r: Result<(), I2C::Error>)
        ensures
            modify_trace(
                old(self).transfers(),
                final(self).transfers(),
                mag::ADDRESS,
                0x00,
                0x00,
                |b: u8, w: u8| w == with_mag_odr(b, odr),
                r is Ok,
            ),
    {
        let f = |b: u8| -> (w: u8)
            ensures
                w == with_mag_odr(b, odr),
            { mag_cra_with_odr(b, odr) };
        self.modify_register_bits(mag::ADDRESS, 0x00, f)
    }

    /// Changes the sensitivity (full scale) of the accelerometer: a
    /// read-modify-write of the raw `CTRL_REG4_A` byte that replaces bits 5 and
    /// 4 and keeps the others.
    pub fn set_accel_sensitivity(&mut self, sensitivity: Sensitivity) -> (r: Result<(), I2C::Error>)
        ensures
            modify_trace(
                old(self).transfers(),
                final(self).transfers(),
                ACCEL_ADDRESS,
                0xA3,
                0x23,
                |b: u8, w: u8| w == with_sensitivity(b, sensitivity),
                r is Ok,
            ),
    {
        let code = sensitivity.into_bits();
        assert(code <= 3);
        let f = |b: u8| -> (w: u8)
            requires
                code == sensitivity_code(sensitivity),
            ensures
                w == with_sensitivity(b, sensitivity),
            {
                let w = b & !(0b11u8 << 4u8) | (code << 4u8);
                assert(w == (b & !0x30u8) | (code << 4u8)) by (bit_vector)
                    requires
                        w == b & !(0b11u8 << 4u8) | (code << 4u8),
                ;
                w
            };
        assert((0x23u8 | 0x80u8) == 0xA3u8) by (bit_vector);
        self.modify_accel_register(RegisterAddress::CTRL_REG4_A, f)
    }

    /// Writes the construction sequence: the registers and bytes of
    /// `init_writes`, in order, stopping at the first failure.
    pub fn configure(&mut self) -> (r: Result<(), I2C::Error>)
        ensures
            writes_trace(old(self).transfers(), final(self).transfers(), init_writes()),
            r is Ok <==> all_done(old(self).transfers().len(), final(self).transfers(), 8),
    {
        let ghost before = self.transfers();
        let ghost n: int = before.len() as int;
        let ctrl1 = accel_ctrl1_with_odr(ACCEL_AXES_ENABLED, AccelOdr::Hz400);
        let cra = mag_cra_with_odr(MAG_TEMP_ENABLED, MagOdr::Hz75);
        let writes = [
            (ACCEL_ADDRESS, 0x20u8, ctrl1),
            (ACCEL_ADDRESS, 0x21u8, 0u8),
            (ACCEL_ADDRESS, 0x22u8, 0u8),
            (ACCEL_ADDRESS, 0x23u8, 0u8),
            (ACCEL_ADDRESS, 0x24u8, 0u8),
            (ACCEL_ADDRESS, 0x25u8, 0u8),
            (mag::ADDRESS, 0x02u8, 0u8),
            (mag::ADDRESS, 0x00u8, cra),
        ];
        assert(writes@ =~= init_writes());
        let mut i: usize = 0;
        while i < 8
            invariant
                writes@ == init_writes(),
                before == old(self).transfers(),
                n == before.len(),
                0 <= i <= 8,
                self.transfers().len() == n + i,
                self.transfers().subrange(0, n) == before,
                forall|j: int|
                    0 <= j < i ==> #[trigger] self.transfers()[n + j] == write_transfer(
                        writes@[j].0,
                        seq![writes@[j].1, writes@[j].2],
                        true,
                    ),
            decreases 8 - i,
        {
            let (device, register, bits) = writes[i];
            let ghost prev = self.transfers();
            let res = self.write_register_bits(device, register, bits);
            assert(self.transfers().subrange(0, n) =~= before);
            assert forall|j: int| 0 <= j < i implies #[trigger] self.transfers()[n + j] == prev[n + j] by {}
            match res {
                Ok(()) => {},
                Err(e) => {
                    assert(self.transfers()[n + i] == self.transfers().last());
                    let ghost t = self.transfers();
                    assert forall|j: int| 0 <= j < t.len() - before.len() implies #[trigger] t[before.len() + j]
                        == write_transfer(
                        init_writes()[j].0,
                        seq![init_writes()[j].1, init_writes()[j].2],
                        t[before.len() + j].ok,
                    ) by {
                        if j < i {
                            assert(t[n + j] == prev[n + j]);
                        }
                    }
                    assert(t.len() == before.len() + i + 1);
                    assert(t.subrange(0, n) == before);
                    assert(writes_trace(before, t, init_writes()));
                    return Err(e);
                },
            }
            assert(self.transfers()[n + i] == self.transfers().last());
            i = i + 1;
        }
        assert(self.transfers()[n + 7] == self.transfers().last());
        let ghost t = self.transfers();
        assert forall|j: int| 0 <= j < t.len() - before.len() implies #[trigger] t[before.len() + j]
            == write_transfer(
            init_writes()[j].0,
            seq![init_writes()[j].1, init_writes()[j].2],
            t[before.len() + j].ok,
        ) by {
            assert(t[n + j] == write_transfer(writes@[j].0, seq![writes@[j].1, writes@[j].2], true));
        }
        assert(t.len() == before.len() + 8);
        assert(writes_trace(before, t, init_writes()));
        Ok(())
    }
}

} // verus!
