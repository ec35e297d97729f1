//! The device handle and the register access layer: addressed reads and
//! writes, the read-modify-write protocol, and one-shot task dispatch.

use vstd::prelude::*;

use crate::NPM1300Error;
use crate::bus::{BusOp, DelayProvider, I2cBus, DEVICE_ADDR, read_op, write_op, is_read_of, read_data, reg_addr_bytes};
use crate::codec::masked_update;

verus! {

/// Holds when `post` extends `pre` with exactly the read and the write of a
/// read-modify-write on the register at `address`: whatever byte the read
/// returned, the write put back that byte with the field selected by `mask`
/// replaced by `bits` and every other bit preserved.
pub open spec fn is_modify_trace(
    pre: Seq<BusOp>,
    post: Seq<BusOp>,
    address: u16,
    mask: u8,
    bits: u8,
) -> bool {
    &&& post.len() == pre.len() + 2
    &&& pre.is_prefix_of(post)
    &&& is_read_of(post[pre.len() as int], address)
    &&& post[pre.len() as int + 1] == write_op(
        address,
        masked_update(read_data(post[pre.len() as int]), mask, bits),
    )
}

/// A read-modify-write never touches bits outside its own field: in every
/// modify trace, the byte written back agrees bit for bit with the byte
/// the read returned on every bit outside the mask, and carries `bits` on
/// every bit inside it.
pub proof fn lemma_modify_trace_preserves_other_bits(
    pre: Seq<BusOp>,
    post: Seq<BusOp>,
    address: u16,
    mask: u8,
    bits: u8,
)
    requires
        is_modify_trace(pre, post, address, mask, bits),
    ensures
        crate::bus::write_data(post.last()) & !mask == read_data(post[pre.len() as int]) & !mask,
        crate::bus::write_data(post.last()) & mask == bits & mask,
{
    crate::codec::lemma_masked_update_preserves_other_bits(
        read_data(post[pre.len() as int]),
        mask,
        bits,
    );
}

/// The driver handle: exclusive owner of the bus transport and the delay
/// provider, plus the NTC thermistor beta calibration value.
pub struct NPM1300<B: I2cBus, D: DelayProvider> {
    pub(crate) bus: B,
    pub(crate) delay: D,
    pub(crate) ntc_beta: Option<u32>,
}

impl<B: I2cBus, D: DelayProvider> NPM1300<B, D> {
    /// The ghost log of bus transactions this driver has performed.
    pub open(crate) spec fn bus_ops(&self) -> Seq<BusOp> {
        self.bus.ops()
    }

    /// The configured NTC thermistor beta value, in kelvin.
    pub open(crate) spec fn beta(&self) -> Option<u32> {
        self.ntc_beta
    }

    /// Create a driver bound to a live transport. No NTC beta is configured
    /// until `configure_ntc_resistance` stores one.
    pub fn new(bus: B, delay: D) -> (r: Self)
        ensures
            r.bus_ops() == bus.ops(),
            r.beta() is None,
    {
        NPM1300 { bus, delay, ntc_beta: None }
    }

    /// Read the register at `address`: one bus transaction writing the
    /// two-byte big-endian address, then reading one data byte.
    pub fn read_register(&mut self, address: u16) -> (r: Result<
        u8,
        NPM1300Error<B::BusError>,
    >)
        ensures
            final(self).beta() == old(self).beta(),
            old(self).bus_ops().is_prefix_of(final(self).bus_ops()),
            r matches Ok(v) ==> final(self).bus_ops() == old(self).bus_ops().push(
                read_op(address, v),
            ),
            r matches Err(e) ==> final(self).bus_ops() == old(self).bus_ops() && e is I2c,
    {
        let out: [u8; 2] = [(address >> 8) as u8, address as u8];
        proof {
            assert(out@ =~= reg_addr_bytes(address));
        }
        match self.bus.write_read(DEVICE_ADDR, out.as_slice()) {
            Ok(v) => Ok(v),
            Err(e) => Err(NPM1300Error::I2c(e)),
        }
    }

    /// Write `data` to the register at `address`: one bus transaction of the
    /// two-byte big-endian address followed by exactly one data byte.
    pub fn write_register(&mut self, address: u16, data: u8) -> (r: Result<
        (),
        NPM1300Error<B::BusError>,
    >)
        ensures
            final(self).beta() == old(self).beta(),
            old(self).bus_ops().is_prefix_of(final(self).bus_ops()),
            r is Ok ==> final(self).bus_ops() == old(self).bus_ops().push(
                write_op(address, data),
            ),
            r matches Err(e) ==> final(self).bus_ops() == old(self).bus_ops() && e is I2c,
    {
        let buf: [u8; 3] = [(address >> 8) as u8, address as u8, data];
        proof {
            assert(buf@ =~= write_op(address, data)->Write_bytes);
        }
        match self.bus.write(DEVICE_ADDR, buf.as_slice()) {
            Ok(()) => Ok(()),
            Err(e) => Err(NPM1300Error::I2c(e)),
        }
    }

    /// Dispatch a one-shot task: write `trigger` directly to the write-only
    /// task register at `address`, never a read-modify-write.
    pub fn dispatch_command(&mut self, address: u16, trigger: u8) -> (r: Result<
        (),
        NPM1300Error<B::BusError>,
    >)
        ensures
            final(self).beta() == old(self).beta(),
            old(self).bus_ops().is_prefix_of(final(self).bus_ops()),
            r is Ok ==> final(self).bus_ops() == old(self).bus_ops().push(
                write_op(address, trigger),
            ),
            r matches Err(e) ==> final(self).bus_ops() == old(self).bus_ops() && e is I2c,
    {
        self.write_register(address, trigger)
    }

    /// Read-modify-write the register at `address`: read the current byte,
    /// replace the field selected by `mask` with `bits`, preserving every
    /// bit outside `mask`, and write the result back. Not atomic at the
    /// hardware level; exclusivity comes from single ownership of the handle.
    pub fn modify_register(&mut self, address: u16, mask: u8, bits: u8) -> (r: Result<
        (),
        NPM1300Error<B::BusError>,
    >)
        ensures
            final(self).beta() == old(self).beta(),
            old(self).bus_ops().is_prefix_of(final(self).bus_ops()),
            r is Ok ==> is_modify_trace(
                old(self).bus_ops(),
                final(self).bus_ops(),
                address,
                mask,
                bits,
            ),
            r matches Err(e) ==> e is I2c && final(self).bus_ops().len() <= old(
                self,
            ).bus_ops().len() + 1,
    {
        let prev = match self.read_register(address) {
            Ok(v) => v,
            Err(e) => {
                return Err(e);
            },
        };
        let next = (prev & !mask) | (bits & mask);
        match self.write_register(address, next) {
            Ok(()) => Ok(()),
            Err(e) => Err(e),
        }
    }
}

} // verus!
