//! The two-wire bus transport abstraction and its ghost model.
//!
//! The driver does not implement the bus itself: the caller supplies a type
//! implementing [`I2cBus`], exactly as the hardware abstraction expects. The
//! trait carries a ghost log of every transaction performed, so that each
//! driver operation can state, in its contract, precisely which bytes it put
//! on the bus and in which order.

use vstd::prelude::*;

verus! {

/// Fixed 7-bit bus address of the nPM1300 device.
pub const DEVICE_ADDR: u8 = 0x6B;

/// Model of one completed transaction on the two-wire bus.
pub enum BusOp {
    /// An addressed write of a byte string.
    Write { dev: u8, bytes: Seq<u8> },
    /// An addressed write of a byte string followed by a one-byte read.
    WriteRead { dev: u8, out: Seq<u8>, read: u8 },
}

/// A two-wire bus transport, supplied by the caller.
///
/// `ops` is the ghost log of completed transactions. A successful call
/// appends exactly one transaction; a failed call leaves the log unchanged
/// (a transaction that did not complete is not recorded).
pub trait I2cBus: Sized {
    type BusError;

    spec fn ops(&self) -> Seq<BusOp>;

    /// Write `bytes` to the device at bus address `dev`.
    fn write(&mut self, dev: u8, bytes: &[u8]) -> (r: Result<(), Self::BusError>)
        ensures
            r is Ok ==> final(self).ops() == old(self).ops().push(
                BusOp::Write { dev, bytes: bytes@ },
            ),
            r is Err ==> final(self).ops() == old(self).ops(),
    ;

    /// Write `out` to the device at bus address `dev`, then read one byte.
    fn write_read(&mut self, dev: u8, out: &[u8]) -> (r: Result<u8, Self::BusError>)
        ensures
            r matches Ok(data) ==> final(self).ops() == old(self).ops().push(
                BusOp::WriteRead { dev, out: out@, read: data },
            ),
            r is Err ==> final(self).ops() == old(self).ops(),
    ;
}

/// An asynchronous-sleep provider, supplied by the caller.
///
/// Nothing is promised of it: the settle delays the driver inserts are a
/// documented datasheet requirement, not something the proof can observe.
pub trait DelayProvider: Sized {
    fn delay_us(&mut self, us: u32);

    fn delay_ms(&mut self, ms: u32);
}

/// The two-byte big-endian encoding of a register address.
pub open spec fn reg_addr_bytes(address: u16) -> Seq<u8> {
    seq![(address >> 8) as u8, address as u8]
}

/// The bus transaction that writes `data` to the register at `address`.
pub open spec fn write_op(address: u16, data: u8) -> BusOp {
    BusOp::Write {
        dev: DEVICE_ADDR,
        bytes: seq![(address >> 8) as u8, address as u8, data],
    }
}

/// The bus transaction that reads `data` back from the register at `address`.
pub open spec fn read_op(address: u16, data: u8) -> BusOp {
    BusOp::WriteRead { dev: DEVICE_ADDR, out: reg_addr_bytes(address), read: data }
}

/// Holds when `op` is a read of the register at `address`, whatever byte the
/// device returned.
pub open spec fn is_read_of(op: BusOp, address: u16) -> bool {
    op matches BusOp::WriteRead { dev, out, read: _ } && dev == DEVICE_ADDR && out
        == reg_addr_bytes(address)
}

/// The byte a read transaction returned.
pub open spec fn read_data(op: BusOp) -> u8 {
    op->WriteRead_read
}

/// The data byte a register write transaction carried, after its two
/// address bytes.
pub open spec fn write_data(op: BusOp) -> u8 {
    op->Write_bytes.last()
}

/// A prefix agrees with the longer log at every index it covers.
pub proof fn lemma_prefix_index(a: Seq<BusOp>, b: Seq<BusOp>, i: int)
    requires
        a.is_prefix_of(b),
        0 <= i < a.len(),
    ensures
        a[i] == b[i],
{
    assert(a[i] == b.subrange(0, a.len() as int)[i]);
}

/// Being a prefix of a bus log is transitive.
pub proof fn lemma_prefix_trans(a: Seq<BusOp>, b: Seq<BusOp>, c: Seq<BusOp>)
    requires
        a.is_prefix_of(b),
        b.is_prefix_of(c),
    ensures
        a.is_prefix_of(c),
{
    assert forall|i: int| 0 <= i < a.len() implies a[i] == c[i] by {
        lemma_prefix_index(a, b, i);
        lemma_prefix_index(b, c, i);
    }
    assert(a =~= c.subrange(0, a.len() as int));
}

} // verus!
