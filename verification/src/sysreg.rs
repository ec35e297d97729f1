//! VBUS input operations: input current limits, suspend mode, and the
//! USB-C and input status registers.

use vstd::prelude::*;

use crate::NPM1300Error;
use crate::bus::{DelayProvider, I2cBus, write_op, is_read_of, read_data};
use crate::device::NPM1300;
use crate::sysreg_types::{VbusInCurrentLimit, VbusCcStatus, VbusInStatus};
use crate::regs::{
    TASK_TRIGGER, TASK_UPDATE_ILIM_SW, VBUSIN_ILIM0, VBUSIN_ILIM_STARTUP,
    VBUS_SUSPEND, USBC_DETECT_STATUS, VBUSIN_STATUS,
};

verus! {

impl<B: I2cBus, D: DelayProvider> NPM1300<B, D> {
    /// Set the VBUS input current limit: write the limit code, then
    /// trigger the task that switches from the startup limit to it. The
    /// hardware reverts to its default limit on reset or VBUS replug.
    pub fn set_vbus_in_current_limit(&mut self, current_limit: VbusInCurrentLimit) -> (r: Result<
        (),
        NPM1300Error<B::BusError>,
    >)
        ensures
            final(self).beta() == old(self).beta(),
            old(self).bus_ops().is_prefix_of(final(self).bus_ops()),
            r is Ok ==> final(self).bus_ops() == old(self).bus_ops().push(
                write_op(VBUSIN_ILIM0, current_limit.spec_code()),
            ).push(write_op(TASK_UPDATE_ILIM_SW, TASK_TRIGGER)),
            r matches Err(e) ==> e is I2c,
    {
        let code = current_limit.code();
        match self.write_register(VBUSIN_ILIM0, code) {
            Ok(()) => {},
            Err(e) => {
                return Err(e);
            },
        }
        self.dispatch_command(TASK_UPDATE_ILIM_SW, TASK_TRIGGER)
    }

    /// Set the VBUS input startup current limit: one write of the limit
    /// code.
    pub fn set_vbus_in_startup_current_limit(
        &mut self,
        current_limit: VbusInCurrentLimit,
    ) -> (r: Result<(), NPM1300Error<B::BusError>>)
        ensures
            final(self).beta() == old(self).beta(),
            old(self).bus_ops().is_prefix_of(final(self).bus_ops()),
            r is Ok ==> final(self).bus_ops() == old(self).bus_ops().push(
                write_op(VBUSIN_ILIM_STARTUP, current_limit.spec_code()),
            ),
            r matches Err(e) ==> e is I2c,
    {
        let code = current_limit.code();
        self.write_register(VBUSIN_ILIM_STARTUP, code)
    }

    /// Suspend or resume the VBUS input: one full write of the suspend
    /// register, holding 1 to suspend and 0 for normal operation.
    pub fn set_vbus_mode(&mut self, suspend: bool) -> (r: Result<(), NPM1300Error<B::BusError>>)
        ensures
            final(self).beta() == old(self).beta(),
            old(self).bus_ops().is_prefix_of(final(self).bus_ops()),
            r is Ok ==> final(self).bus_ops() == old(self).bus_ops().push(
                write_op(VBUS_SUSPEND, if suspend { 0x01 } else { 0x00 }),
            ),
            r matches Err(e) ==> e is I2c,
    {
        let data: u8 = if suspend { 0x01 } else { 0x00 };
        self.write_register(VBUS_SUSPEND, data)
    }

    /// Read the USB-C CC comparator flags: one read of the detection
    /// status register, decoding both comparator fields.
    pub fn get_vbus_cc_status(&mut self) -> (r: Result<VbusCcStatus, NPM1300Error<B::BusError>>)
        ensures
            final(self).beta() == old(self).beta(),
            old(self).bus_ops().is_prefix_of(final(self).bus_ops()),
            r matches Ok(status) ==> final(self).bus_ops().len() == old(self).bus_ops().len() + 1
                && is_read_of(final(self).bus_ops().last(), USBC_DETECT_STATUS)
                && status == VbusCcStatus::spec_from_byte(read_data(final(self).bus_ops().last())),
            r matches Err(e) ==> e is I2c,
    {
        match self.read_register(USBC_DETECT_STATUS) {
            Ok(b) => Ok(VbusCcStatus::from_byte(b)),
            Err(e) => Err(e),
        }
    }

    /// Read the VBUS input status flags: one read of the status register,
    /// decoded bit by bit.
    pub fn get_vbus_in_status(&mut self) -> (r: Result<VbusInStatus, NPM1300Error<B::BusError>>)
        ensures
            final(self).beta() == old(self).beta(),
            old(self).bus_ops().is_prefix_of(final(self).bus_ops()),
            r matches Ok(status) ==> final(self).bus_ops().len() == old(self).bus_ops().len() + 1
                && is_read_of(final(self).bus_ops().last(), VBUSIN_STATUS)
                && status == VbusInStatus::spec_from_byte(read_data(final(self).bus_ops().last())),
            r matches Err(e) ==> e is I2c,
    {
        match self.read_register(VBUSIN_STATUS) {
            Ok(b) => Ok(VbusInStatus::from_byte(b)),
            Err(e) => Err(e),
        }
    }
}

} // verus!
