//! The two-wire bus that the driver talks through, and a recording bus.
use vstd::prelude::*;

verus! {

/// One transaction on the bus, as the driver sees it.
pub struct Transfer {
    /// The 7-bit device address the transaction went to.
    pub address: u8,
    /// The bytes sent to the device.
    pub sent: Seq<u8>,
    /// Whether bytes were read back after sending (a write-then-read).
    pub is_read: bool,
    /// The bytes read back; empty for a plain write.
    pub received: Seq<u8>,
    /// Whether the transaction succeeded.
    pub ok: bool,
}

/// The trace entry of a plain write.
pub open spec fn write_transfer(address: u8, sent: Seq<u8>, ok: bool) -> Transfer {
    Transfer { address, sent, is_read: false, received: Seq::empty(), ok }
}

/// The trace entry of a write-then-read.
pub open spec fn write_read_transfer(address: u8, sent: Seq<u8>, received: Seq<u8>, ok: bool) -> Transfer {
    Transfer { address, sent, is_read: true, received, ok }
}

/// A blocking two-wire bus, addressed by 7-bit device addresses.
///
/// Each call is one atomic bus transaction; `transfers` is the trace of the
/// transactions made so far, oldest first.
pub trait I2c {
    /// The bus's own error type, handed to callers as it is.
    type Error;

    /// The transactions made on this bus so far.
    ///
    /// Every verified implementation defines it: the contracts of `write` and
    /// `write_read` cannot hold of the default. The default lets a bus written
    /// in plain Rust implement the trait; nothing is proved of such a bus.
    closed spec fn transfers(&self) -> Seq<Transfer> {
        Seq::empty()
    }

    /// Sends `bytes` to the device at `address`.
    fn write(&mut self, address: u8, bytes: &[u8]) -> (r: Result<(), Self::Error>)
        ensures
            final(self).transfers() == old(self).transfers().push(
                write_transfer(address, bytes@, r is Ok),
            ),
    ;

    /// Sends `bytes` to the device at `address`, then fills `buffer` with what it
    /// answers.
    fn write_read(&mut self, address: u8, bytes: &[u8], buffer: &mut [u8]) -> (r: Result<
        (),
        Self::Error,
    >)
        ensures
            final(buffer)@.len() == old(buffer)@.len(),
            final(self).transfers() == old(self).transfers().push(
                write_read_transfer(address, bytes@, final(buffer)@, r is Ok),
            ),
    ;
}

} // verus!

verus! {

/// One recorded transaction of a [`RecordingBus`].
#[derive(Debug)]
pub struct Record {
    /// The 7-bit device address the transaction went to.
    pub address: u8,
    /// The bytes sent to the device.
    pub sent: Vec<u8>,
    /// Whether bytes were read back after sending.
    pub is_read: bool,
    /// The bytes read back; empty for a plain write.
    pub received: Vec<u8>,
    /// Whether the transaction succeeded.
    pub ok: bool,
}

impl Record {
    /// The trace entry this record stands for.
    pub open spec fn view(&self) -> Transfer {
        Transfer {
            address: self.address,
            sent: self.sent@,
            is_read: self.is_read,
            received: self.received@,
            ok: self.ok,
        }
    }
}

/// The error of a [`RecordingBus`] transaction that was set to fail.
#[derive(Copy, Clone, Debug, PartialEq, Eq, Structural)]
pub struct BusFault {
    /// The position of the failed transaction in the log.
    pub index: usize,
}

/// A bus that records every transaction and answers reads from a script.
///
/// Reads take their bytes from `responses` in order (zero once it is used
/// up); the transaction at position `fail_at`, if any, fails.
pub struct RecordingBus {
    /// Every transaction so far, oldest first.
    pub log: Vec<Record>,
    /// The bytes that reads hand out, in order.
    pub responses: Vec<u8>,
    /// How many bytes of `responses` reads have taken.
    pub consumed: usize,
    /// The position of the transaction that fails, if any.
    pub fail_at: Option<usize>,
}

/// Copies a slice into a new vector.
fn to_vec(bytes: &[u8]) -> (r: Vec<u8>)
    ensures
        r@ == bytes@,
{
    let mut v: Vec<u8> = Vec::new();
    let mut i: usize = 0;
    while i < bytes.len()
        invariant
            i <= bytes@.len(),
            v@ == bytes@.subrange(0, i as int),
        decreases bytes@.len() - i,
    {
        v.push(bytes[i]);
        i = i + 1;
        assert(v@ =~= bytes@.subrange(0, i as int));
    }
    assert(v@ =~= bytes@);
    v
}

impl RecordingBus {
    /// A bus that answers reads with `responses` and fails at `fail_at`.
    pub fn new(responses: Vec<u8>, fail_at: Option<usize>) -> (r: RecordingBus)
        ensures
            r.log@.len() == 0,
            r.responses@ == responses@,
            r.consumed == 0,
            r.fail_at == fail_at,
    {
        RecordingBus { log: Vec::new(), responses, consumed: 0, fail_at }
    }

    /// Whether the next transaction fails.
    fn next_fails(&self) -> (r: bool)
        ensures
            r == (self.fail_at == Some(self.log@.len() as usize)),
    {
        match self.fail_at {
            Some(k) => k == self.log.len(),
            None => false,
        }
    }

    /// The next scripted response byte, or zero once the script is used up.
    fn next_byte(&mut self) -> (r: u8)
        ensures
            final(self).log == old(self).log,
            final(self).fail_at == old(self).fail_at,
    {
        if self.consumed < self.responses.len() {
            let b = self.responses[self.consumed];
            self.consumed = self.consumed + 1;
            b
        } else {
            0
        }
    }
}

impl I2c for RecordingBus {
    type Error = BusFault;

    open spec fn transfers(&self) -> Seq<Transfer> {
        self.log@.map_values(|r: Record| r.view())
    }

    fn write(&mut self, address: u8, bytes: &[u8]) -> (r: Result<(), BusFault>) {
        let fails = self.next_fails();
        let index = self.log.len();
        let record = Record { address, sent: to_vec(bytes), is_read: false, received: Vec::new(), ok: !fails };
        let ghost before = self.log@;
        self.log.push(record);
        assert(self.log@.map_values(|r: Record| r.view()) =~= before.map_values(
            |r: Record| r.view(),
        ).push(write_transfer(address, bytes@, !fails)));
        if fails {
            Err(BusFault { index })
        } else {
            Ok(())
        }
    }

    fn write_read(&mut self, address: u8, bytes: &[u8], buffer: &mut [u8]) -> (r: Result<
        (),
        BusFault,
    >) {
        let fails = self.next_fails();
        let index = self.log.len();
        if !fails {
            let mut i: usize = 0;
            while i < buffer.len()
                invariant
                    i <= buffer@.len(),
                    buffer@.len() == old(buffer)@.len(),
                    self.log == old(self).log,
                    self.fail_at == old(self).fail_at,
                decreases buffer@.len() - i,
            {
                let b = self.next_byte();
                buffer[i] = b;
                i = i + 1;
            }
        }
        let record = Record {
            address,
            sent: to_vec(bytes),
            is_read: true,
            received: to_vec(buffer),
            ok: !fails,
        };
        let ghost before = self.log@;
        self.log.push(record);
        assert(self.log@.map_values(|r: Record| r.view()) =~= before.map_values(
            |r: Record| r.view(),
        ).push(write_read_transfer(address, bytes@, buffer@, !fails)));
        if fails {
            Err(BusFault { index })
        } else {
            Ok(())
        }
    }
}

} // verus!
