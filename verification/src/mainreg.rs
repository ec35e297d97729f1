//! MAIN block operations: latching and clearing event flags, and enabling
//! and disabling their interrupts, for the ADC, charger, ship-hold button,
//! VBUS input and GPIO event groups. Every operation is a single full
//! write of the chosen mask to a write-1-to-set or write-1-to-clear
//! register.

use vstd::prelude::*;

use crate::NPM1300Error;
use crate::bus::{DelayProvider, I2cBus, write_op};
use crate::device::NPM1300;
use crate::mainreg_types::{Vbusin0EventMask, Vbusin1EventMask};
use crate::regs::{
    EVENTS_ADC_SET, EVENTS_ADC_CLR, INTEN_EVENTS_ADC_SET, INTEN_EVENTS_ADC_CLR,
    EVENTS_BCHARGER0_SET, EVENTS_BCHARGER0_CLR, INTEN_EVENTS_BCHARGER0_SET,
    INTEN_EVENTS_BCHARGER0_CLR, EVENTS_BCHARGER1_SET, EVENTS_BCHARGER1_CLR,
    INTEN_EVENTS_BCHARGER1_SET, INTEN_EVENTS_BCHARGER1_CLR, EVENTS_BCHARGER2_SET,
    EVENTS_BCHARGER2_CLR, INTEN_EVENTS_BCHARGER2_SET, INTEN_EVENTS_BCHARGER2_CLR,
    EVENTS_SHPHLD_SET, EVENTS_SHPHLD_CLR, INTEN_EVENTS_SHPHLD_SET,
    INTEN_EVENTS_SHPHLD_CLR, EVENTS_VBUSIN0_SET, EVENTS_VBUSIN0_CLR,
    INTEN_EVENTS_VBUSIN0_SET, INTEN_EVENTS_VBUSIN0_CLR, EVENTS_VBUSIN1_SET,
    EVENTS_VBUSIN1_CLR, INTEN_EVENTS_VBUSIN1_SET, INTEN_EVENTS_VBUSIN1_CLR,
    EVENTS_GPIO_SET, EVENTS_GPIO_CLR, INTEN_EVENTS_GPIO_SET, INTEN_EVENTS_GPIO_CLR,
};

verus! {

impl<B: I2cBus, D: DelayProvider> NPM1300<B, D> {

    /// Latch the selected first-group VBUS input events.
    pub fn set_vbusin0_event_mask(&mut self, mask: Vbusin0EventMask) -> (r: Result<(), NPM1300Error<B::BusError>>)
        ensures
            final(self).beta() == old(self).beta(),
            old(self).bus_ops().is_prefix_of(final(self).bus_ops()),
            r is Ok ==> final(self).bus_ops() == old(self).bus_ops().push(
                write_op(EVENTS_VBUSIN0_SET, mask.spec_bits()),
            ),
            r matches Err(e) ==> e is I2c,
    {
        let bits = mask.bits();
        self.write_register(EVENTS_VBUSIN0_SET, bits)
    }

    /// Clear the selected first-group VBUS input events.
    pub fn clear_vbusin0_event_mask(&mut self, mask: Vbusin0EventMask) -> (r: Result<(), NPM1300Error<B::BusError>>)
        ensures
            final(self).beta() == old(self).beta(),
            old(self).bus_ops().is_prefix_of(final(self).bus_ops()),
            r is Ok ==> final(self).bus_ops() == old(self).bus_ops().push(
                write_op(EVENTS_VBUSIN0_CLR, mask.spec_bits()),
            ),
            r matches Err(e) ==> e is I2c,
    {
        let bits = mask.bits();
        self.write_register(EVENTS_VBUSIN0_CLR, bits)
    }

    /// Enable interrupts for the selected first-group VBUS input events.
    pub fn enable_vbusin0_interrupts(&mut self, mask: Vbusin0EventMask) -> (r: Result<(), NPM1300Error<B::BusError>>)
        ensures
            final(self).beta() == old(self).beta(),
            old(self).bus_ops().is_prefix_of(final(self).bus_ops()),
            r is Ok ==> final(self).bus_ops() == old(self).bus_ops().push(
                write_op(INTEN_EVENTS_VBUSIN0_SET, mask.spec_bits()),
            ),
            r matches Err(e) ==> e is I2c,
    {
        let bits = mask.bits();
        self.write_register(INTEN_EVENTS_VBUSIN0_SET, bits)
    }

    /// Disable interrupts for the selected first-group VBUS input events.
    pub fn disable_vbusin0_interrupts(&mut self, mask: Vbusin0EventMask) -> (r: Result<(), NPM1300Error<B::BusError>>)
        ensures
            final(self).beta() == old(self).beta(),
            old(self).bus_ops().is_prefix_of(final(self).bus_ops()),
            r is Ok ==> final(self).bus_ops() == old(self).bus_ops().push(
                write_op(INTEN_EVENTS_VBUSIN0_CLR, mask.spec_bits()),
            ),
            r matches Err(e) ==> e is I2c,
    {
        let bits = mask.bits();
        self.write_register(INTEN_EVENTS_VBUSIN0_CLR, bits)
    }

    /// Latch the selected ADC events.
    pub fn set_adc_event_mask(&mut self, mask: u8) -> (r: Result<(), NPM1300Error<B::BusError>>)
        ensures
            final(self).beta() == old(self).beta(),
            old(self).bus_ops().is_prefix_of(final(self).bus_ops()),
            r is Ok ==> final(self).bus_ops() == old(self).bus_ops().push(
                write_op(EVENTS_ADC_SET, mask),
            ),
            r matches Err(e) ==> e is I2c,
    {
        self.write_register(EVENTS_ADC_SET, mask)
    }

    /// Clear the selected ADC events.
    pub fn clear_adc_event_mask(&mut self, mask: u8) -> (r: Result<(), NPM1300Error<B::BusError>>)
        ensures
            final(self).beta() == old(self).beta(),
            old(self).bus_ops().is_prefix_of(final(self).bus_ops()),
            r is Ok ==> final(self).bus_ops() == old(self).bus_ops().push(
                write_op(EVENTS_ADC_CLR, mask),
            ),
            r matches Err(e) ==> e is I2c,
    {
        self.write_register(EVENTS_ADC_CLR, mask)
    }

    /// Enable interrupts for the selected ADC events.
    pub fn enable_adc_interrupts(&mut self, mask: u8) -> (r: Result<(), NPM1300Error<B::BusError>>)
        ensures
            final(self).beta() == old(self).beta(),
            old(self).bus_ops().is_prefix_of(final(self).bus_ops()),
            r is Ok ==> final(self).bus_ops() == old(self).bus_ops().push(
                write_op(INTEN_EVENTS_ADC_SET, mask),
            ),
            r matches Err(e) ==> e is I2c,
    {
        self.write_register(INTEN_EVENTS_ADC_SET, mask)
    }

    /// Disable interrupts for the selected ADC events.
    pub fn disable_adc_interrupts(&mut self, mask: u8) -> (r: Result<(), NPM1300Error<B::BusError>>)
        ensures
            final(self).beta() == old(self).beta(),
            old(self).bus_ops().is_prefix_of(final(self).bus_ops()),
            r is Ok ==> final(self).bus_ops() == old(self).bus_ops().push(
                write_op(INTEN_EVENTS_ADC_CLR, mask),
            ),
            r matches Err(e) ==> e is I2c,
    {
        self.write_register(INTEN_EVENTS_ADC_CLR, mask)
    }

    /// Latch the selected charger events of group 0.
    pub fn set_bcharger0_event_mask(&mut self, mask: u8) -> (r: Result<(), NPM1300Error<B::BusError>>)
        ensures
            final(self).beta() == old(self).beta(),
            old(self).bus_ops().is_prefix_of(final(self).bus_ops()),
            r is Ok ==> final(self).bus_ops() == old(self).bus_ops().push(
                write_op(EVENTS_BCHARGER0_SET, mask),
            ),
            r matches Err(e) ==> e is I2c,
    {
        self.write_register(EVENTS_BCHARGER0_SET, mask)
    }

    /// Clear the selected charger events of group 0.
    pub fn clear_bcharger0_event_mask(&mut self, mask: u8) -> (r: Result<(), NPM1300Error<B::BusError>>)
        ensures
            final(self).beta() == old(self).beta(),
            old(self).bus_ops().is_prefix_of(final(self).bus_ops()),
            r is Ok ==> final(self).bus_ops() == old(self).bus_ops().push(
                write_op(EVENTS_BCHARGER0_CLR, mask),
            ),
            r matches Err(e) ==> e is I2c,
    {
        self.write_register(EVENTS_BCHARGER0_CLR, mask)
    }

    /// Enable interrupts for the selected charger events of group 0.
    pub fn enable_bcharger0_interrupts(&mut self, mask: u8) -> (r: Result<(), NPM1300Error<B::BusError>>)
        ensures
            final(self).beta() == old(self).beta(),
            old(self).bus_ops().is_prefix_of(final(self).bus_ops()),
            r is Ok ==> final(self).bus_ops() == old(self).bus_ops().push(
                write_op(INTEN_EVENTS_BCHARGER0_SET, mask),
            ),
            r matches Err(e) ==> e is I2c,
    {
        self.write_register(INTEN_EVENTS_BCHARGER0_SET, mask)
    }

    /// Disable interrupts for the selected charger events of group 0.
    pub fn disable_bcharger0_interrupts(&mut self, mask: u8) -> (r: Result<(), NPM1300Error<B::BusError>>)
        ensures
            final(self).beta() == old(self).beta(),
            old(self).bus_ops().is_prefix_of(final(self).bus_ops()),
            r is Ok ==> final(self).bus_ops() == old(self).bus_ops().push(
                write_op(INTEN_EVENTS_BCHARGER0_CLR, mask),
            ),
            r matches Err(e) ==> e is I2c,
    {
        self.write_register(INTEN_EVENTS_BCHARGER0_CLR, mask)
    }

    /// Latch the selected charger events of group 1.
    pub fn set_bcharger1_event_mask(&mut self, mask: u8) -> (r: Result<(), NPM1300Error<B::BusError>>)
        ensures
            final(self).beta() == old(self).beta(),
            old(self).bus_ops().is_prefix_of(final(self).bus_ops()),
            r is Ok ==> final(self).bus_ops() == old(self).bus_ops().push(
                write_op(EVENTS_BCHARGER1_SET, mask),
            ),
            r matches Err(e) ==> e is I2c,
    {
        self.write_register(EVENTS_BCHARGER1_SET, mask)
    }

    /// Clear the selected charger events of group 1.
    pub fn clear_bcharger1_event_mask(&mut self, mask: u8) -> (r: Result<(), NPM1300Error<B::BusError>>)
        ensures
            final(self).beta() == old(self).beta(),
            old(self).bus_ops().is_prefix_of(final(self).bus_ops()),
            r is Ok ==> final(self).bus_ops() == old(self).bus_ops().push(
                write_op(EVENTS_BCHARGER1_CLR, mask),
            ),
            r matches Err(e) ==> e is I2c,
    {
        self.write_register(EVENTS_BCHARGER1_CLR, mask)
    }

    /// Enable interrupts for the selected charger events of group 1.
    pub fn enable_bcharger1_interrupts(&mut self, mask: u8) -> (r: Result<(), NPM1300Error<B::BusError>>)
        ensures
            final(self).beta() == old(self).beta(),
            old(self).bus_ops().is_prefix_of(final(self).bus_ops()),
            r is Ok ==> final(self).bus_ops() == old(self).bus_ops().push(
                write_op(INTEN_EVENTS_BCHARGER1_SET, mask),
            ),
            r matches Err(e) ==> e is I2c,
    {
        self.write_register(INTEN_EVENTS_BCHARGER1_SET, mask)
    }

    /// Disable interrupts for the selected charger events of group 1.
    pub fn disable_bcharger1_interrupts(&mut self, mask: u8) -> (r: Result<(), NPM1300Error<B::BusError>>)
        ensures
            final(self).beta() == old(self).beta(),
            old(self).bus_ops().is_prefix_of(final(self).bus_ops()),
            r is Ok ==> final(self).bus_ops() == old(self).bus_ops().push(
                write_op(INTEN_EVENTS_BCHARGER1_CLR, mask),
            ),
            r matches Err(e) ==> e is I2c,
    {
        self.write_register(INTEN_EVENTS_BCHARGER1_CLR, mask)
    }

    /// Latch the selected charger events of group 2.
    pub fn set_bcharger2_event_mask(&mut self, mask: u8) -> (r: Result<(), NPM1300Error<B::BusError>>)
        ensures
            final(self).beta() == old(self).beta(),
            old(self).bus_ops().is_prefix_of(final(self).bus_ops()),
            r is Ok ==> final(self).bus_ops() == old(self).bus_ops().push(
                write_op(EVENTS_BCHARGER2_SET, mask),
            ),
            r matches Err(e) ==> e is I2c,
    {
        self.write_register(EVENTS_BCHARGER2_SET, mask)
    }

    /// Clear the selected charger events of group 2.
    pub fn clear_bcharger2_event_mask(&mut self, mask: u8) -> (r: Result<(), NPM1300Error<B::BusError>>)
        ensures
            final(self).beta() == old(self).beta(),
            old(self).bus_ops().is_prefix_of(final(self).bus_ops()),
            r is Ok ==> final(self).bus_ops() == old(self).bus_ops().push(
                write_op(EVENTS_BCHARGER2_CLR, mask),
            ),
            r matches Err(e) ==> e is I2c,
    {
        self.write_register(EVENTS_BCHARGER2_CLR, mask)
    }

    /// Enable interrupts for the selected charger events of group 2.
    pub fn enable_bcharger2_interrupts(&mut self, mask: u8) -> (r: Result<(), NPM1300Error<B::BusError>>)
        ensures
            final(self).beta() == old(self).beta(),
            old(self).bus_ops().is_prefix_of(final(self).bus_ops()),
            r is Ok ==> final(self).bus_ops() == old(self).bus_ops().push(
                write_op(INTEN_EVENTS_BCHARGER2_SET, mask),
            ),
            r matches Err(e) ==> e is I2c,
    {
        self.write_register(INTEN_EVENTS_BCHARGER2_SET, mask)
    }

    /// Disable interrupts for the selected charger events of group 2.
    pub fn disable_bcharger2_interrupts(&mut self, mask: u8) -> (r: Result<(), NPM1300Error<B::BusError>>)
        ensures
            final(self).beta() == old(self).beta(),
            old(self).bus_ops().is_prefix_of(final(self).bus_ops()),
            r is Ok ==> final(self).bus_ops() == old(self).bus_ops().push(
                write_op(INTEN_EVENTS_BCHARGER2_CLR, mask),
            ),
            r matches Err(e) ==> e is I2c,
    {
        self.write_register(INTEN_EVENTS_BCHARGER2_CLR, mask)
    }

    /// Latch the ship-hold button event.
    pub fn set_shphld_event(&mut self) -> (r: Result<(), NPM1300Error<B::BusError>>)
        ensures
            final(self).beta() == old(self).beta(),
            old(self).bus_ops().is_prefix_of(final(self).bus_ops()),
            r is Ok ==> final(self).bus_ops() == old(self).bus_ops().push(
                write_op(EVENTS_SHPHLD_SET, 0x01),
            ),
            r matches Err(e) ==> e is I2c,
    {
        self.write_register(EVENTS_SHPHLD_SET, 0x01)
    }

    /// Clear the ship-hold button event.
    pub fn clear_shphld_event(&mut self) -> (r: Result<(), NPM1300Error<B::BusError>>)
        ensures
            final(self).beta() == old(self).beta(),
            old(self).bus_ops().is_prefix_of(final(self).bus_ops()),
            r is Ok ==> final(self).bus_ops() == old(self).bus_ops().push(
                write_op(EVENTS_SHPHLD_CLR, 0x01),
            ),
            r matches Err(e) ==> e is I2c,
    {
        self.write_register(EVENTS_SHPHLD_CLR, 0x01)
    }

    /// Enable the ship-hold button interrupt.
    pub fn enable_shphld_interrupt(&mut self) -> (r: Result<(), NPM1300Error<B::BusError>>)
        ensures
            final(self).beta() == old(self).beta(),
            old(self).bus_ops().is_prefix_of(final(self).bus_ops()),
            r is Ok ==> final(self).bus_ops() == old(self).bus_ops().push(
                write_op(INTEN_EVENTS_SHPHLD_SET, 0x01),
            ),
            r matches Err(e) ==> e is I2c,
    {
        self.write_register(INTEN_EVENTS_SHPHLD_SET, 0x01)
    }

    /// Disable the ship-hold button interrupt.
    pub fn disable_shphld_interrupt(&mut self) -> (r: Result<(), NPM1300Error<B::BusError>>)
        ensures
            final(self).beta() == old(self).beta(),
            old(self).bus_ops().is_prefix_of(final(self).bus_ops()),
            r is Ok ==> final(self).bus_ops() == old(self).bus_ops().push(
                write_op(INTEN_EVENTS_SHPHLD_CLR, 0x01),
            ),
            r matches Err(e) ==> e is I2c,
    {
        self.write_register(INTEN_EVENTS_SHPHLD_CLR, 0x01)
    }

    /// Latch the selected second-group VBUS input events.
    pub fn set_vbusin1_event_mask(&mut self, mask: Vbusin1EventMask) -> (r: Result<(), NPM1300Error<B::BusError>>)
        ensures
            final(self).beta() == old(self).beta(),
            old(self).bus_ops().is_prefix_of(final(self).bus_ops()),
            r is Ok ==> final(self).bus_ops() == old(self).bus_ops().push(
                write_op(EVENTS_VBUSIN1_SET, mask.spec_bits()),
            ),
            r matches Err(e) ==> e is I2c,
    {
        let bits = mask.bits();
        self.write_register(EVENTS_VBUSIN1_SET, bits)
    }

    /// Clear the selected second-group VBUS input events.
    pub fn clear_vbusin1_event_mask(&mut self, mask: Vbusin1EventMask) -> (r: Result<(), NPM1300Error<B::BusError>>)
        ensures
            final(self).beta() == old(self).beta(),
            old(self).bus_ops().is_prefix_of(final(self).bus_ops()),
            r is Ok ==> final(self).bus_ops() == old(self).bus_ops().push(
                write_op(EVENTS_VBUSIN1_CLR, mask.spec_bits()),
            ),
            r matches Err(e) ==> e is I2c,
    {
        let bits = mask.bits();
        self.write_register(EVENTS_VBUSIN1_CLR, bits)
    }

    /// Enable interrupts for the selected second-group VBUS input events.
    pub fn enable_vbusin1_interrupts(&mut self, mask: Vbusin1EventMask) -> (r: Result<(), NPM1300Error<B::BusError>>)
        ensures
            final(self).beta() == old(self).beta(),
            old(self).bus_ops().is_prefix_of(final(self).bus_ops()),
            r is Ok ==> final(self).bus_ops() == old(self).bus_ops().push(
                write_op(INTEN_EVENTS_VBUSIN1_SET, mask.spec_bits()),
            ),
            r matches Err(e) ==> e is I2c,
    {
        let bits = mask.bits();
        self.write_register(INTEN_EVENTS_VBUSIN1_SET, bits)
    }

    /// Disable interrupts for the selected second-group VBUS input events.
    pub fn disable_vbusin1_interrupts(&mut self, mask: Vbusin1EventMask) -> (r: Result<(), NPM1300Error<B::BusError>>)
        ensures
            final(self).beta() == old(self).beta(),
            old(self).bus_ops().is_prefix_of(final(self).bus_ops()),
            r is Ok ==> final(self).bus_ops() == old(self).bus_ops().push(
                write_op(INTEN_EVENTS_VBUSIN1_CLR, mask.spec_bits()),
            ),
            r matches Err(e) ==> e is I2c,
    {
        let bits = mask.bits();
        self.write_register(INTEN_EVENTS_VBUSIN1_CLR, bits)
    }

    /// Latch the selected GPIO events.
    pub fn set_gpio_event_mask(&mut self, mask: u8) -> (r: Result<(), NPM1300Error<B::BusError>>)
        ensures
            final(self).beta() == old(self).beta(),
            old(self).bus_ops().is_prefix_of(final(self).bus_ops()),
            r is Ok ==> final(self).bus_ops() == old(self).bus_ops().push(
                write_op(EVENTS_GPIO_SET, mask),
            ),
            r matches Err(e) ==> e is I2c,
    {
        self.write_register(EVENTS_GPIO_SET, mask)
    }

    /// Clear the selected GPIO events.
    pub fn clear_gpio_event_mask(&mut self, mask: u8) -> (r: Result<(), NPM1300Error<B::BusError>>)
        ensures
            final(self).beta() == old(self).beta(),
            old(self).bus_ops().is_prefix_of(final(self).bus_ops()),
            r is Ok ==> final(self).bus_ops() == old(self).bus_ops().push(
                write_op(EVENTS_GPIO_CLR, mask),
            ),
            r matches Err(e) ==> e is I2c,
    {
        self.write_register(EVENTS_GPIO_CLR, mask)
    }

    /// Enable interrupts for the selected GPIO events.
    pub fn enable_gpio_interrupts(&mut self, mask: u8) -> (r: Result<(), NPM1300Error<B::BusError>>)
        ensures
            final(self).beta() == old(self).beta(),
            old(self).bus_ops().is_prefix_of(final(self).bus_ops()),
            r is Ok ==> final(self).bus_ops() == old(self).bus_ops().push(
                write_op(INTEN_EVENTS_GPIO_SET, mask),
            ),
            r matches Err(e) ==> e is I2c,
    {
        self.write_register(INTEN_EVENTS_GPIO_SET, mask)
    }

    /// Disable interrupts for the selected GPIO events.
    pub fn disable_gpio_interrupts(&mut self, mask: u8) -> (r: Result<(), NPM1300Error<B::BusError>>)
        ensures
            final(self).beta() == old(self).beta(),
            old(self).bus_ops().is_prefix_of(final(self).bus_ops()),
            r is Ok ==> final(self).bus_ops() == old(self).bus_ops().push(
                write_op(INTEN_EVENTS_GPIO_CLR, mask),
            ),
            r matches Err(e) ==> e is I2c,
    {
        self.write_register(INTEN_EVENTS_GPIO_CLR, mask)
    }

}

} // verus!
