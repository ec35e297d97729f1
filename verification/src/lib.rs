//! Driver for the nPM1300 power-management IC.
//!
//! The driver exposes the chip's register map (charger, ADC, load switches,
//! event/interrupt blocks, VBUS input) as typed operations over a two-wire
//! bus. The caller supplies the bus transport and a delay provider; the
//! driver owns the register address space, the read-modify-write protocol
//! and the bit-field codecs, and every operation's effect on the bus is
//! stated in its contract as a sequence of bus operations.

use vstd::prelude::*;

pub mod bus;
pub mod codec;
pub mod regs;
pub mod device;
pub mod adc;
pub mod adc_types;
pub mod charger;
pub mod charger_types;
pub mod ldsw;
pub mod ldsw_types;
pub mod mainreg;
pub mod mainreg_types;
pub mod sysreg;
pub mod sysreg_types;

pub use device::NPM1300;

verus! {

/// Error returned by every driver operation.
///
/// `I2c` wraps a failure of the underlying bus transport verbatim; all other
/// variants are validation failures raised before any bus access, except
/// `UnexpectedHardwareState`, which reports a status register holding a bit
/// pattern outside its documented encoding.
#[derive(Clone, Copy, Debug, PartialEq, Eq)]
pub enum NPM1300Error<E> {
    /// Bus transport failure, surfaced verbatim from the transport.
    I2c(E),
    /// Requested charger current exceeds the 800 mA ceiling.
    ChargerCurrentTooHigh(u16),
    /// Computed NTC threshold falls outside the 10-bit range.
    InvalidNtcThreshold,
    /// Die temperature threshold outside the accepted 50..=110 Celsius range.
    InvalidDieTemperatureThreshold,
    /// An NTC operation needs a thermistor beta value and none is configured.
    InvalidNtcBeta,
    /// Delayed VBAT measurement delay must be between 4 and 514 and a multiple of 2.
    InvalidVbatMeasurementDelayValue,
    /// VSYS power-off threshold outside its documented range.
    InvalidPofVsysThreshold,
    /// Discharge current limit registers hold a pair of values that match
    /// neither documented limit setting.
    InvalidDischargeCurrentValue { msb: u8, lsb: u8 },
    /// A status register reported a bit pattern outside its documented encoding.
    UnexpectedHardwareState,
}

} // verus!
