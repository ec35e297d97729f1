//! Load switch operations: enabling and disabling the two LDSW regulators
//! through their one-shot set and clear tasks, and reading their status.

use vstd::prelude::*;

use crate::NPM1300Error;
use crate::bus::{DelayProvider, I2cBus, write_op, is_read_of, read_data};
use crate::device::NPM1300;
use crate::ldsw_types::LdswStatus;
use crate::regs::{
    TASK_TRIGGER, TASK_LDSW1_SET, TASK_LDSW1_CLR, TASK_LDSW2_SET, TASK_LDSW2_CLR,
    LDSW_STATUS,
};

verus! {

impl<B: I2cBus, D: DelayProvider> NPM1300<B, D> {
    /// Enable or disable one load switch: a single trigger write to the
    /// switch's set task register or its clear task register.
    fn control_ldsw_power(&mut self, ldsw_index: u8, enable: bool) -> (r: Result<
        (),
        NPM1300Error<B::BusError>,
    >)
        requires
            ldsw_index < 2,
        ensures
            final(self).beta() == old(self).beta(),
            old(self).bus_ops().is_prefix_of(final(self).bus_ops()),
            r is Ok ==> final(self).bus_ops() == old(self).bus_ops().push(
                write_op(
                    if ldsw_index == 0 {
                        if enable {
                            TASK_LDSW1_SET
                        } else {
                            TASK_LDSW1_CLR
                        }
                    } else {
                        if enable {
                            TASK_LDSW2_SET
                        } else {
                            TASK_LDSW2_CLR
                        }
                    },
                    TASK_TRIGGER,
                ),
            ),
            r matches Err(e) ==> e is I2c,
    {
        let task_register: u16 = if ldsw_index == 0 {
            if enable {
                TASK_LDSW1_SET
            } else {
                TASK_LDSW1_CLR
            }
        } else {
            if enable {
                TASK_LDSW2_SET
            } else {
                TASK_LDSW2_CLR
            }
        };
        self.dispatch_command(task_register, TASK_TRIGGER)
    }

    /// Enable LDSW1: one trigger write to its set task register.
    pub fn enable_ldsw1(&mut self) -> (r: Result<(), NPM1300Error<B::BusError>>)
        ensures
            final(self).beta() == old(self).beta(),
            old(self).bus_ops().is_prefix_of(final(self).bus_ops()),
            r is Ok ==> final(self).bus_ops() == old(self).bus_ops().push(
                write_op(TASK_LDSW1_SET, TASK_TRIGGER),
            ),
            r matches Err(e) ==> e is I2c,
    {
        self.control_ldsw_power(0, true)
    }

    /// Disable LDSW1: one trigger write to its clear task register.
    pub fn disable_ldsw1(&mut self) -> (r: Result<(), NPM1300Error<B::BusError>>)
        ensures
            final(self).beta() == old(self).beta(),
            old(self).bus_ops().is_prefix_of(final(self).bus_ops()),
            r is Ok ==> final(self).bus_ops() == old(self).bus_ops().push(
                write_op(TASK_LDSW1_CLR, TASK_TRIGGER),
            ),
            r matches Err(e) ==> e is I2c,
    {
        self.control_ldsw_power(0, false)
    }

    /// Enable LDSW2: one trigger write to its set task register.
    pub fn enable_ldsw2(&mut self) -> (r: Result<(), NPM1300Error<B::BusError>>)
        ensures
            final(self).beta() == old(self).beta(),
            old(self).bus_ops().is_prefix_of(final(self).bus_ops()),
            r is Ok ==> final(self).bus_ops() == old(self).bus_ops().push(
                write_op(TASK_LDSW2_SET, TASK_TRIGGER),
            ),
            r matches Err(e) ==> e is I2c,
    {
        self.control_ldsw_power(1, true)
    }

    /// Disable LDSW2: one trigger write to its clear task register.
    pub fn disable_ldsw2(&mut self) -> (r: Result<(), NPM1300Error<B::BusError>>)
        ensures
            final(self).beta() == old(self).beta(),
            old(self).bus_ops().is_prefix_of(final(self).bus_ops()),
            r is Ok ==> final(self).bus_ops() == old(self).bus_ops().push(
                write_op(TASK_LDSW2_CLR, TASK_TRIGGER),
            ),
            r matches Err(e) ==> e is I2c,
    {
        self.control_ldsw_power(1, false)
    }

    /// Read the load switch status: one read of the status register,
    /// decoded bit by bit.
    pub fn get_ldsw_status(&mut self) -> (r: Result<LdswStatus, NPM1300Error<B::BusError>>)
        ensures
            final(self).beta() == old(self).beta(),
            old(self).bus_ops().is_prefix_of(final(self).bus_ops()),
            r matches Ok(status) ==> final(self).bus_ops().len() == old(self).bus_ops().len() + 1
                && is_read_of(final(self).bus_ops().last(), LDSW_STATUS)
                && status == LdswStatus::spec_from_byte(read_data(final(self).bus_ops().last())),
            r matches Err(e) ==> e is I2c,
    {
        match self.read_register(LDSW_STATUS) {
            Ok(b) => Ok(LdswStatus::from_byte(b)),
            Err(e) => Err(e),
        }
    }
}

} // verus!
