//! ADC operations: triggered and automatic measurements of battery,
//! system and supply voltages, NTC and die temperature, and battery
//! current, plus their configuration registers.
//!
//! Measured quantities are returned as raw 10-bit ADC codes; the linear or
//! nonlinear conversions to physical units are floating-point and live
//! outside the verified driver.

use vstd::prelude::*;

use crate::NPM1300Error;
use crate::bus::{BusOp, DelayProvider, I2cBus, read_op, write_op, is_read_of, read_data, lemma_prefix_index, lemma_prefix_trans};
use crate::codec::{masked_update, spec_compose10, compose10};
use crate::device::{NPM1300, is_modify_trace};
use crate::adc_types::{
    IbatStatuscodes, Vbatautoenable, Vbatburstenable, Ntcautotim, Tempautotim,
    NtcThermistorType,
};
use crate::charger_types::DischargeCurrentLimit;
use crate::regs::{
    TASK_TRIGGER, TASK_VBAT_MEASURE, TASK_NTC_MEASURE, TASK_TEMP_MEASURE,
    TASK_VSYS_MEASURE, TASK_VBUS7_MEASURE, TASK_DELAYED_VBAT_MEASURE,
    TASK_AUTO_TIM_UPDATE, ADC_CONFIG, ADC_NTC_R_SEL, ADC_AUTO_TIM_CONF,
    ADC_DEL_TIM_CONF, ADC_IBAT_MEAS_STATUS, ADC_VBAT_RESULT_MSB,
    ADC_NTC_RESULT_MSB, ADC_TEMP_RESULT_MSB, ADC_VSYS_RESULT_MSB,
    ADC_GP0_RESULT_LSBS, ADC_VBAT0_RESULT_MSB, ADC_VBAT1_RESULT_MSB,
    ADC_VBAT2_RESULT_MSB, ADC_VBAT3_RESULT_MSB, ADC_GP1_RESULT_LSBS,
    ADC_IBAT_MEAS_EN, MASK_VBAT_AUTO, MASK_VBAT_BURST, MASK_NTC_AUTO_TIM,
    MASK_TEMP_AUTO_TIM, MASK_IBAT_MEAS_ENABLE,
};

verus! {

/// In the IBAT measurement status byte, the bit flagging the measurement
/// as invalid.
pub const MASK_IBAT_MEAS_INVALID: u8 = 0x10;

/// In the IBAT measurement status byte, the 4-bit charger mode code.
pub const MASK_IBAT_MODE: u8 = 0x0F;

/// Holds when `post` extends `pre` with exactly the two reads that fetch a
/// composite 10-bit result: the MSB register, then the shared LSB register
/// whose relevant two bits sit `shift` bits up, recomposed as `result`.
pub open spec fn is_composite_read(
    pre: Seq<BusOp>,
    post: Seq<BusOp>,
    msb_register: u16,
    lsb_register: u16,
    shift: u8,
    result: u16,
) -> bool {
    let n = pre.len() as int;
    &&& pre.is_prefix_of(post)
    &&& post.len() == n + 2
    &&& is_read_of(post[n], msb_register)
    &&& is_read_of(post[n + 1], lsb_register)
    &&& result == spec_compose10(read_data(post[n]), read_data(post[n + 1]) >> shift)
}

/// Holds when `post` extends `pre` with a task trigger write followed by
/// the two reads of a composite 10-bit result.
pub open spec fn is_task_then_composite_read(
    pre: Seq<BusOp>,
    post: Seq<BusOp>,
    task_register: u16,
    msb_register: u16,
    lsb_register: u16,
    shift: u8,
    result: u16,
) -> bool {
    let n = pre.len() as int;
    &&& pre.is_prefix_of(post)
    &&& post.len() == n + 3
    &&& post[n] == write_op(task_register, TASK_TRIGGER)
    &&& is_read_of(post[n + 1], msb_register)
    &&& is_read_of(post[n + 2], lsb_register)
    &&& result == spec_compose10(read_data(post[n + 1]), read_data(post[n + 2]) >> shift)
}

/// Battery current in microamps computed from the charger mode code, the
/// raw 10-bit ADC code and the two full-scale current settings: the code
/// scaled by the discharge limit with negative sign while discharging, by
/// the configured charging current limit with positive sign while
/// charging, and zero for any mode code outside the documented set.
pub open spec fn spec_ibat_microamps(
    mode: u8,
    code: u16,
    discharge_limit: DischargeCurrentLimit,
    charge_limit_ma: u16,
) -> int {
    match IbatStatuscodes::spec_from_code(mode) {
        Some(IbatStatuscodes::IbatStatDischarge) => -(code * discharge_limit.spec_limit_ma()
            * 1000 / 1024),
        Some(IbatStatuscodes::IbatStatChargeTrickle) => code * charge_limit_ma * 1000 / 1024,
        Some(IbatStatuscodes::IbatStatChargeCool) => code * charge_limit_ma * 1000 / 1024,
        Some(IbatStatuscodes::IbatStatChargeNormal) => code * charge_limit_ma * 1000 / 1024,
        _ => 0,
    }
}

/// The MSB result register of one VBAT burst slot.
pub open spec fn spec_vbat_burst_msb_register(index: u8) -> u16
    recommends
        index < 4,
{
    if index == 0 {
        ADC_VBAT0_RESULT_MSB
    } else if index == 1 {
        ADC_VBAT1_RESULT_MSB
    } else if index == 2 {
        ADC_VBAT2_RESULT_MSB
    } else {
        ADC_VBAT3_RESULT_MSB
    }
}

impl<B: I2cBus, D: DelayProvider> NPM1300<B, D> {
    /// Read one composite 10-bit result: the MSB register, then the shared
    /// LSB register whose two relevant bits sit `shift` bits up.
    fn read_composite_result(&mut self, msb_register: u16, lsb_register: u16, shift: u8) -> (r:
        Result<u16, NPM1300Error<B::BusError>>)
        requires
            shift <= 6,
        ensures
            final(self).beta() == old(self).beta(),
            old(self).bus_ops().is_prefix_of(final(self).bus_ops()),
            r matches Ok(v) ==> is_composite_read(
                old(self).bus_ops(),
                final(self).bus_ops(),
                msb_register,
                lsb_register,
                shift,
                v,
            ) && v <= 1023,
            r matches Err(e) ==> e is I2c,
    {
        let msb = match self.read_register(msb_register) {
            Ok(v) => v,
            Err(e) => {
                return Err(e);
            },
        };
        let lsb = match self.read_register(lsb_register) {
            Ok(v) => v,
            Err(e) => {
                return Err(e);
            },
        };
        Ok(compose10(msb, lsb >> shift))
    }

    /// Configure automatic VBAT measurement: a read-modify-write of the
    /// auto-enable bit of the ADC configuration register.
    pub fn configure_auto_vbat_measurement(&mut self, enable: bool) -> (r: Result<
        (),
        NPM1300Error<B::BusError>,
    >)
        ensures
            final(self).beta() == old(self).beta(),
            old(self).bus_ops().is_prefix_of(final(self).bus_ops()),
            r is Ok ==> is_modify_trace(
                old(self).bus_ops(),
                final(self).bus_ops(),
                ADC_CONFIG,
                MASK_VBAT_AUTO,
                if enable { 0x01 } else { 0x00 },
            ),
            r matches Err(e) ==> e is I2c,
    {
        let bits: u8 = if enable { 0x01 } else { 0x00 };
        self.modify_register(ADC_CONFIG, MASK_VBAT_AUTO, bits)
    }

    /// Configure automatic IBAT measurement after each VBAT measurement: a
    /// read-modify-write of the enable bit of its own register.
    pub fn configure_auto_ibat_measurement(&mut self, enable: bool) -> (r: Result<
        (),
        NPM1300Error<B::BusError>,
    >)
        ensures
            final(self).beta() == old(self).beta(),
            old(self).bus_ops().is_prefix_of(final(self).bus_ops()),
            r is Ok ==> is_modify_trace(
                old(self).bus_ops(),
                final(self).bus_ops(),
                ADC_IBAT_MEAS_EN,
                MASK_IBAT_MEAS_ENABLE,
                if enable { 0x01 } else { 0x00 },
            ),
            r matches Err(e) ==> e is I2c,
    {
        let bits: u8 = if enable { 0x01 } else { 0x00 };
        self.modify_register(ADC_IBAT_MEAS_EN, MASK_IBAT_MEAS_ENABLE, bits)
    }

    /// Configure VBAT burst mode: a read-modify-write of the burst bit of
    /// the ADC configuration register.
    pub fn configure_vbat_burst_measurement(&mut self, enable: bool) -> (r: Result<
        (),
        NPM1300Error<B::BusError>,
    >)
        ensures
            final(self).beta() == old(self).beta(),
            old(self).bus_ops().is_prefix_of(final(self).bus_ops()),
            r is Ok ==> is_modify_trace(
                old(self).bus_ops(),
                final(self).bus_ops(),
                ADC_CONFIG,
                MASK_VBAT_BURST,
                if enable { 0x02 } else { 0x00 },
            ),
            r matches Err(e) ==> e is I2c,
    {
        let bits: u8 = if enable { 0x02 } else { 0x00 };
        self.modify_register(ADC_CONFIG, MASK_VBAT_BURST, bits)
    }

    /// Read back the automatic VBAT measurement configuration: one read of
    /// the ADC configuration register, decoding its auto-enable bit.
    pub fn get_vbat_auto_measurement_configuration(&mut self) -> (r: Result<
        Vbatautoenable,
        NPM1300Error<B::BusError>,
    >)
        ensures
            final(self).beta() == old(self).beta(),
            old(self).bus_ops().is_prefix_of(final(self).bus_ops()),
            r matches Ok(cfg) ==> final(self).bus_ops().len() == old(self).bus_ops().len() + 1
                && is_read_of(final(self).bus_ops().last(), ADC_CONFIG)
                && Vbatautoenable::spec_from_code(
                read_data(final(self).bus_ops().last()) & MASK_VBAT_AUTO,
            ) == Some(cfg),
            r matches Err(e) ==> e is I2c,
    {
        let b = match self.read_register(ADC_CONFIG) {
            Ok(v) => v,
            Err(e) => {
                return Err(e);
            },
        };
        proof {
            assert(b & MASK_VBAT_AUTO == 0 || b & MASK_VBAT_AUTO == 1) by (bit_vector);
        }
        if b & MASK_VBAT_AUTO != 0 {
            Ok(Vbatautoenable::Autoenable)
        } else {
            Ok(Vbatautoenable::Noauto)
        }
    }

    /// Read back the VBAT burst configuration: one read of the ADC
    /// configuration register, decoding its burst bit.
    pub fn get_vbat_burst_measurement_configuration(&mut self) -> (r: Result<
        Vbatburstenable,
        NPM1300Error<B::BusError>,
    >)
        ensures
            final(self).beta() == old(self).beta(),
            old(self).bus_ops().is_prefix_of(final(self).bus_ops()),
            r matches Ok(cfg) ==> final(self).bus_ops().len() == old(self).bus_ops().len() + 1
                && is_read_of(final(self).bus_ops().last(), ADC_CONFIG)
                && Vbatburstenable::spec_from_code(
                (read_data(final(self).bus_ops().last()) & MASK_VBAT_BURST) >> 1,
            ) == Some(cfg),
            r matches Err(e) ==> e is I2c,
    {
        let b = match self.read_register(ADC_CONFIG) {
            Ok(v) => v,
            Err(e) => {
                return Err(e);
            },
        };
        proof {
            assert((b & 0x02) >> 1 == 0 || (b & 0x02) >> 1 == 1) by (bit_vector);
            assert(b & 0x02 != 0 ==> (b & 0x02) >> 1 == 1) by (bit_vector);
            assert(b & 0x02 == 0 ==> (b & 0x02) >> 1 == 0) by (bit_vector);
        }
        if b & MASK_VBAT_BURST != 0 {
            Ok(Vbatburstenable::Burstmode)
        } else {
            Ok(Vbatburstenable::Singlemode)
        }
    }

    /// Select the NTC thermistor type, storing its beta value for
    /// temperature conversion. Selecting a real thermistor requires a beta
    /// value: without one the call fails with `InvalidNtcBeta` before any
    /// bus access. Otherwise the selection code is written.
    pub fn configure_ntc_resistance(
        &mut self,
        ntc_resistance: NtcThermistorType,
        ntc_beta: Option<u32>,
    ) -> (r: Result<(), NPM1300Error<B::BusError>>)
        ensures
            old(self).bus_ops().is_prefix_of(final(self).bus_ops()),
            (ntc_resistance != NtcThermistorType::NoThermistor && ntc_beta is None) ==> r
                == Err::<(), NPM1300Error<B::BusError>>(NPM1300Error::InvalidNtcBeta)
                && final(self).bus_ops() == old(self).bus_ops()
                && final(self).beta() == old(self).beta(),
            (ntc_resistance == NtcThermistorType::NoThermistor || ntc_beta is Some) ==> {
                &&& r is Ok ==> {
                    &&& final(self).bus_ops() == old(self).bus_ops().push(
                        write_op(ADC_NTC_R_SEL, ntc_resistance.spec_code()),
                    )
                    &&& final(self).beta() == if ntc_resistance
                        != NtcThermistorType::NoThermistor {
                        ntc_beta
                    } else {
                        old(self).beta()
                    }
                }
                &&& r matches Err(e) ==> e is I2c && final(self).bus_ops() == old(self).bus_ops()
                    && final(self).beta() == old(self).beta()
            },
    {
        if !matches!(ntc_resistance, NtcThermistorType::NoThermistor) && ntc_beta.is_none() {
            return Err(NPM1300Error::InvalidNtcBeta);
        }
        let code = ntc_resistance.code();
        match self.write_register(ADC_NTC_R_SEL, code) {
            Ok(()) => {},
            Err(e) => {
                return Err(e);
            },
        }
        if !matches!(ntc_resistance, NtcThermistorType::NoThermistor) {
            self.ntc_beta = ntc_beta;
        }
        Ok(())
    }

    /// Read back the NTC thermistor selection: one read of the selection
    /// register, failing with `UnexpectedHardwareState` when its code lies
    /// outside the documented set.
    pub fn get_ntc_resistance_configuration(&mut self) -> (r: Result<
        NtcThermistorType,
        NPM1300Error<B::BusError>,
    >)
        ensures
            final(self).beta() == old(self).beta(),
            old(self).bus_ops().is_prefix_of(final(self).bus_ops()),
            r matches Ok(sel) ==> final(self).bus_ops().len() == old(self).bus_ops().len() + 1
                && is_read_of(final(self).bus_ops().last(), ADC_NTC_R_SEL)
                && NtcThermistorType::spec_from_code(
                read_data(final(self).bus_ops().last()) & 0x07,
            ) == Some(sel),
            r matches Err(e) ==> e is I2c || (e is UnexpectedHardwareState
                && final(self).bus_ops().len() == old(self).bus_ops().len() + 1
                && is_read_of(final(self).bus_ops().last(), ADC_NTC_R_SEL)
                && NtcThermistorType::spec_from_code(
                read_data(final(self).bus_ops().last()) & 0x07,
            ) is None),
    {
        let b = match self.read_register(ADC_NTC_R_SEL) {
            Ok(v) => v,
            Err(e) => {
                return Err(e);
            },
        };
        match NtcThermistorType::from_code(b & 0x07) {
            Some(sel) => Ok(sel),
            None => Err(NPM1300Error::UnexpectedHardwareState),
        }
    }

    /// The NTC thermistor beta value currently configured, in kelvin.
    pub fn get_ntc_beta(&self) -> (r: Option<u32>)
        ensures
            r == self.beta(),
    {
        self.ntc_beta
    }

    /// Configure the automatic NTC measurement interval: a
    /// read-modify-write of the interval field, then the auto-timer update
    /// task trigger.
    pub fn configure_auto_ntc_measurement(
        &mut self,
        ntc_auto_measurement_interval: Ntcautotim,
    ) -> (r: Result<(), NPM1300Error<B::BusError>>)
        ensures
            final(self).beta() == old(self).beta(),
            old(self).bus_ops().is_prefix_of(final(self).bus_ops()),
            r is Ok ==> {
                let pre = old(self).bus_ops();
                let post = final(self).bus_ops();
                &&& post.len() == pre.len() + 3
                &&& is_modify_trace(
                    pre,
                    post.subrange(0, post.len() - 1),
                    ADC_AUTO_TIM_CONF,
                    MASK_NTC_AUTO_TIM,
                    ntc_auto_measurement_interval.spec_code(),
                )
                &&& post.last() == write_op(TASK_AUTO_TIM_UPDATE, TASK_TRIGGER)
            },
            r matches Err(e) ==> e is I2c,
    {
        let bits = ntc_auto_measurement_interval.code();
        match self.modify_register(ADC_AUTO_TIM_CONF, MASK_NTC_AUTO_TIM, bits) {
            Ok(()) => {},
            Err(e) => {
                return Err(e);
            },
        }
        let ghost mid = self.bus_ops();
        let r = self.dispatch_command(TASK_AUTO_TIM_UPDATE, TASK_TRIGGER);
        proof {
            if r is Ok {
                assert(self.bus_ops().subrange(0, self.bus_ops().len() - 1) =~= mid);
            }
        }
        r
    }

    /// Read back the automatic NTC measurement interval: one read of the
    /// auto-timer configuration register, decoding the interval field.
    pub fn get_ntc_auto_measurement_configuration(&mut self) -> (r: Result<
        Ntcautotim,
        NPM1300Error<B::BusError>,
    >)
        ensures
            final(self).beta() == old(self).beta(),
            old(self).bus_ops().is_prefix_of(final(self).bus_ops()),
            r matches Ok(interval) ==> final(self).bus_ops().len() == old(self).bus_ops().len()
                + 1 && is_read_of(final(self).bus_ops().last(), ADC_AUTO_TIM_CONF)
                && Ntcautotim::spec_from_code(
                read_data(final(self).bus_ops().last()) & MASK_NTC_AUTO_TIM,
            ) == Some(interval),
            r matches Err(e) ==> e is I2c,
    {
        let b = match self.read_register(ADC_AUTO_TIM_CONF) {
            Ok(v) => v,
            Err(e) => {
                return Err(e);
            },
        };
        proof {
            assert(b & 0x03 < 4) by (bit_vector);
        }
        match Ntcautotim::from_code(b & MASK_NTC_AUTO_TIM) {
            Some(interval) => Ok(interval),
            None => Err(NPM1300Error::UnexpectedHardwareState),
        }
    }

    /// Configure the automatic die temperature measurement interval: a
    /// read-modify-write of the interval field, then the auto-timer update
    /// task trigger.
    pub fn configure_die_temperature_auto_measurement_interval(
        &mut self,
        die_temperature_auto_measurement_interval: Tempautotim,
    ) -> (r: Result<(), NPM1300Error<B::BusError>>)
        ensures
            final(self).beta() == old(self).beta(),
            old(self).bus_ops().is_prefix_of(final(self).bus_ops()),
            r is Ok ==> {
                let pre = old(self).bus_ops();
                let post = final(self).bus_ops();
                &&& post.len() == pre.len() + 3
                &&& is_modify_trace(
                    pre,
                    post.subrange(0, post.len() - 1),
                    ADC_AUTO_TIM_CONF,
                    MASK_TEMP_AUTO_TIM,
                    (die_temperature_auto_measurement_interval.spec_code() << 2) as u8,
                )
                &&& post.last() == write_op(TASK_AUTO_TIM_UPDATE, TASK_TRIGGER)
            },
            r matches Err(e) ==> e is I2c,
    {
        let code = die_temperature_auto_measurement_interval.code();
        let bits: u8 = code << 2;
        match self.modify_register(ADC_AUTO_TIM_CONF, MASK_TEMP_AUTO_TIM, bits) {
            Ok(()) => {},
            Err(e) => {
                return Err(e);
            },
        }
        let ghost mid = self.bus_ops();
        let r = self.dispatch_command(TASK_AUTO_TIM_UPDATE, TASK_TRIGGER);
        proof {
            if r is Ok {
                assert(self.bus_ops().subrange(0, self.bus_ops().len() - 1) =~= mid);
            }
        }
        r
    }

    /// Read back the automatic die temperature measurement interval: one
    /// read of the auto-timer configuration register, decoding the
    /// interval field.
    pub fn get_die_temperature_auto_measurement_configuration(&mut self) -> (r: Result<
        Tempautotim,
        NPM1300Error<B::BusError>,
    >)
        ensures
            final(self).beta() == old(self).beta(),
            old(self).bus_ops().is_prefix_of(final(self).bus_ops()),
            r matches Ok(interval) ==> final(self).bus_ops().len() == old(self).bus_ops().len()
                + 1 && is_read_of(final(self).bus_ops().last(), ADC_AUTO_TIM_CONF)
                && Tempautotim::spec_from_code(
                (read_data(final(self).bus_ops().last()) & MASK_TEMP_AUTO_TIM) >> 2,
            ) == Some(interval),
            r matches Err(e) ==> e is I2c,
    {
        let b = match self.read_register(ADC_AUTO_TIM_CONF) {
            Ok(v) => v,
            Err(e) => {
                return Err(e);
            },
        };
        proof {
            assert((b & 0x0C) >> 2 < 4) by (bit_vector);
        }
        match Tempautotim::from_code((b & MASK_TEMP_AUTO_TIM) >> 2) {
            Some(interval) => Ok(interval),
            None => Err(NPM1300Error::UnexpectedHardwareState),
        }
    }

    /// Read back the delayed VBAT measurement delay register.
    pub fn get_vbat_delay_configuration(&mut self) -> (r: Result<u8, NPM1300Error<B::BusError>>)
        ensures
            final(self).beta() == old(self).beta(),
            old(self).bus_ops().is_prefix_of(final(self).bus_ops()),
            r matches Ok(v) ==> final(self).bus_ops() == old(self).bus_ops().push(
                read_op(ADC_DEL_TIM_CONF, v),
            ),
            r matches Err(e) ==> e is I2c,
    {
        self.read_register(ADC_DEL_TIM_CONF)
    }

    /// Fetch the latest VBAT measurement without triggering a new one: two
    /// reads recomposing the 10-bit code. The caller is responsible for
    /// any settle delay.
    pub fn get_vbat_measurement_result(&mut self) -> (r: Result<u16, NPM1300Error<B::BusError>>)
        ensures
            final(self).beta() == old(self).beta(),
            old(self).bus_ops().is_prefix_of(final(self).bus_ops()),
            r matches Ok(raw) ==> is_composite_read(
                old(self).bus_ops(),
                final(self).bus_ops(),
                ADC_VBAT_RESULT_MSB,
                ADC_GP0_RESULT_LSBS,
                0,
                raw,
            ) && raw <= 1023,
            r matches Err(e) ==> e is I2c,
    {
        self.read_composite_result(ADC_VBAT_RESULT_MSB, ADC_GP0_RESULT_LSBS, 0)
    }

    /// Fetch one slot of the latest VBAT burst measurement: two reads
    /// recomposing the 10-bit code of the chosen slot, whose two low bits
    /// sit `2 * vbat_index` bits up in the shared LSB register. The
    /// caller is responsible for any settle delay.
    pub fn get_vbat_burst_measurement_result(&mut self, vbat_index: u8) -> (r: Result<
        u16,
        NPM1300Error<B::BusError>,
    >)
        requires
            vbat_index < 4,
        ensures
            final(self).beta() == old(self).beta(),
            old(self).bus_ops().is_prefix_of(final(self).bus_ops()),
            r matches Ok(raw) ==> is_composite_read(
                old(self).bus_ops(),
                final(self).bus_ops(),
                spec_vbat_burst_msb_register(vbat_index),
                ADC_GP1_RESULT_LSBS,
                (2 * vbat_index) as u8,
                raw,
            ) && raw <= 1023,
            r matches Err(e) ==> e is I2c,
    {
        let msb_register: u16 = if vbat_index == 0 {
            ADC_VBAT0_RESULT_MSB
        } else if vbat_index == 1 {
            ADC_VBAT1_RESULT_MSB
        } else if vbat_index == 2 {
            ADC_VBAT2_RESULT_MSB
        } else {
            ADC_VBAT3_RESULT_MSB
        };
        self.read_composite_result(msb_register, ADC_GP1_RESULT_LSBS, 2 * vbat_index)
    }

    /// Measure VBAT: disable burst mode, trigger the VBAT measurement
    /// task, wait the 250 microsecond settle delay, and fetch the raw
    /// 10-bit result.
    pub fn measure_vbat(&mut self) -> (r: Result<u16, NPM1300Error<B::BusError>>)
        ensures
            final(self).beta() == old(self).beta(),
            old(self).bus_ops().is_prefix_of(final(self).bus_ops()),
            r matches Ok(raw) ==> measure_vbat_trace(
                old(self).bus_ops(),
                final(self).bus_ops(),
                raw,
            ) && raw <= 1023,
            r matches Err(e) ==> e is I2c,
    {
        let ghost pre = self.bus_ops();
        let ghost n = pre.len() as int;
        match self.configure_vbat_burst_measurement(false) {
            Ok(()) => {},
            Err(e) => {
                return Err(e);
            },
        }
        let ghost ops1 = self.bus_ops();
        match self.dispatch_command(TASK_VBAT_MEASURE, TASK_TRIGGER) {
            Ok(()) => {},
            Err(e) => {
                return Err(e);
            },
        }
        let ghost ops2 = self.bus_ops();
        self.delay.delay_us(250);
        let raw = match self.read_composite_result(ADC_VBAT_RESULT_MSB, ADC_GP0_RESULT_LSBS, 0) {
            Ok(v) => v,
            Err(e) => {
                return Err(e);
            },
        };
        proof {
            let post = self.bus_ops();
            lemma_prefix_trans(pre, ops1, ops2);
            lemma_prefix_trans(pre, ops2, post);
            lemma_prefix_index(ops2, post, n);
            lemma_prefix_index(ops2, post, n + 1);
            lemma_prefix_index(ops2, post, n + 2);
            let lsb = read_data(post[n + 4]);
            assert(lsb >> 0u8 == lsb) by (bit_vector);
            assert(measure_vbat_trace(pre, post, raw));
        }
        Ok(raw)
    }

    /// Measure VBAT in burst mode: enable burst mode, trigger the VBAT
    /// measurement task, wait the 250 microsecond settle delay for the
    /// back-to-back conversions, and fetch the four raw 10-bit results.
    pub fn measure_vbat_burst(&mut self) -> (r: Result<
        (u16, u16, u16, u16),
        NPM1300Error<B::BusError>,
    >)
        ensures
            final(self).beta() == old(self).beta(),
            old(self).bus_ops().is_prefix_of(final(self).bus_ops()),
            r matches Ok(raw) ==> measure_vbat_burst_trace(
                old(self).bus_ops(),
                final(self).bus_ops(),
                raw.0,
                raw.1,
                raw.2,
                raw.3,
            ),
            r matches Err(e) ==> e is I2c,
    {
        let ghost pre = self.bus_ops();
        let ghost n = pre.len() as int;
        match self.configure_vbat_burst_measurement(true) {
            Ok(()) => {},
            Err(e) => {
                return Err(e);
            },
        }
        let ghost ops1 = self.bus_ops();
        match self.dispatch_command(TASK_VBAT_MEASURE, TASK_TRIGGER) {
            Ok(()) => {},
            Err(e) => {
                return Err(e);
            },
        }
        let ghost ops2 = self.bus_ops();
        self.delay.delay_us(250);
        let vbat0 = match self.get_vbat_burst_measurement_result(0) {
            Ok(v) => v,
            Err(e) => {
                return Err(e);
            },
        };
        let ghost ops3 = self.bus_ops();
        let vbat1 = match self.get_vbat_burst_measurement_result(1) {
            Ok(v) => v,
            Err(e) => {
                return Err(e);
            },
        };
        let ghost ops4 = self.bus_ops();
        let vbat2 = match self.get_vbat_burst_measurement_result(2) {
            Ok(v) => v,
            Err(e) => {
                return Err(e);
            },
        };
        let ghost ops5 = self.bus_ops();
        let vbat3 = match self.get_vbat_burst_measurement_result(3) {
            Ok(v) => v,
            Err(e) => {
                return Err(e);
            },
        };
        proof {
            let post = self.bus_ops();
            lemma_prefix_trans(pre, ops1, ops2);
            lemma_prefix_trans(pre, ops2, ops3);
            lemma_prefix_trans(pre, ops3, ops4);
            lemma_prefix_trans(pre, ops4, ops5);
            lemma_prefix_trans(pre, ops5, post);
            lemma_prefix_trans(ops2, ops3, ops4);
            lemma_prefix_trans(ops2, ops4, ops5);
            lemma_prefix_trans(ops2, ops5, post);
            lemma_prefix_trans(ops3, ops4, ops5);
            lemma_prefix_trans(ops3, ops5, post);
            lemma_prefix_trans(ops4, ops5, post);
            lemma_prefix_index(ops2, post, n);
            lemma_prefix_index(ops2, post, n + 1);
            lemma_prefix_index(ops2, post, n + 2);
            lemma_prefix_index(ops3, post, n + 3);
            lemma_prefix_index(ops3, post, n + 4);
            lemma_prefix_index(ops4, post, n + 5);
            lemma_prefix_index(ops4, post, n + 6);
            lemma_prefix_index(ops5, post, n + 7);
            lemma_prefix_index(ops5, post, n + 8);
            let lsb0 = read_data(post[n + 4]);
            assert(lsb0 >> 0u8 == lsb0) by (bit_vector);
            assert(measure_vbat_burst_trace(pre, post, vbat0, vbat1, vbat2, vbat3));
        }
        Ok((vbat0, vbat1, vbat2, vbat3))
    }

    /// Fetch the latest NTC measurement without triggering a new one: two
    /// reads recomposing the 10-bit code. Without a configured thermistor
    /// beta value the result could not be converted, so the call fails
    /// with `InvalidNtcBeta` before any bus access. The caller is
    /// responsible for any settle delay.
    pub fn get_ntc_measurement_result(&mut self) -> (r: Result<u16, NPM1300Error<B::BusError>>)
        ensures
            final(self).beta() == old(self).beta(),
            old(self).bus_ops().is_prefix_of(final(self).bus_ops()),
            old(self).beta() is None ==> r == Err::<u16, NPM1300Error<B::BusError>>(
                NPM1300Error::InvalidNtcBeta,
            ) && final(self).bus_ops() == old(self).bus_ops(),
            old(self).beta() is Some ==> {
                &&& r matches Ok(raw) ==> is_composite_read(
                    old(self).bus_ops(),
                    final(self).bus_ops(),
                    ADC_NTC_RESULT_MSB,
                    ADC_GP0_RESULT_LSBS,
                    2,
                    raw,
                ) && raw <= 1023
                &&& r matches Err(e) ==> e is I2c
            },
    {
        if self.ntc_beta.is_none() {
            return Err(NPM1300Error::InvalidNtcBeta);
        }
        self.read_composite_result(ADC_NTC_RESULT_MSB, ADC_GP0_RESULT_LSBS, 2)
    }

    /// Measure the NTC thermistor: trigger the NTC measurement task, wait
    /// the 250 microsecond settle delay, and fetch the raw 10-bit result,
    /// failing with `InvalidNtcBeta` — after the trigger, before the
    /// result reads — when no beta value is configured.
    pub fn measure_ntc(&mut self) -> (r: Result<u16, NPM1300Error<B::BusError>>)
        ensures
            final(self).beta() == old(self).beta(),
            old(self).bus_ops().is_prefix_of(final(self).bus_ops()),
            r matches Ok(raw) ==> old(self).beta() is Some && is_task_then_composite_read(
                old(self).bus_ops(),
                final(self).bus_ops(),
                TASK_NTC_MEASURE,
                ADC_NTC_RESULT_MSB,
                ADC_GP0_RESULT_LSBS,
                2,
                raw,
            ) && raw <= 1023,
            old(self).beta() is None ==> r is Err,
            r matches Err(e) ==> e is I2c || (e is InvalidNtcBeta && old(self).beta() is None
                && final(self).bus_ops() == old(self).bus_ops().push(
                write_op(TASK_NTC_MEASURE, TASK_TRIGGER),
            )),
    {
        let ghost pre = self.bus_ops();
        let ghost n = pre.len() as int;
        match self.dispatch_command(TASK_NTC_MEASURE, TASK_TRIGGER) {
            Ok(()) => {},
            Err(e) => {
                return Err(e);
            },
        }
        let ghost ops1 = self.bus_ops();
        self.delay.delay_us(250);
        let raw = match self.get_ntc_measurement_result() {
            Ok(v) => v,
            Err(e) => {
                return Err(e);
            },
        };
        proof {
            let post = self.bus_ops();
            lemma_prefix_trans(pre, ops1, post);
            lemma_prefix_index(ops1, post, n);
        }
        Ok(raw)
    }

    /// Fetch the latest die temperature measurement without triggering a
    /// new one: two reads recomposing the 10-bit code. The caller is
    /// responsible for any settle delay.
    pub fn get_die_temperature_measurement_result(&mut self) -> (r: Result<
        u16,
        NPM1300Error<B::BusError>,
    >)
        ensures
            final(self).beta() == old(self).beta(),
            old(self).bus_ops().is_prefix_of(final(self).bus_ops()),
            r matches Ok(raw) ==> is_composite_read(
                old(self).bus_ops(),
                final(self).bus_ops(),
                ADC_TEMP_RESULT_MSB,
                ADC_GP0_RESULT_LSBS,
                4,
                raw,
            ) && raw <= 1023,
            r matches Err(e) ==> e is I2c,
    {
        self.read_composite_result(ADC_TEMP_RESULT_MSB, ADC_GP0_RESULT_LSBS, 4)
    }

    /// Measure the die temperature: trigger the measurement task, wait the
    /// 250 microsecond settle delay, and fetch the raw 10-bit result.
    pub fn measure_die_temperature(&mut self) -> (r: Result<u16, NPM1300Error<B::BusError>>)
        ensures
            final(self).beta() == old(self).beta(),
            old(self).bus_ops().is_prefix_of(final(self).bus_ops()),
            r matches Ok(raw) ==> is_task_then_composite_read(
                old(self).bus_ops(),
                final(self).bus_ops(),
                TASK_TEMP_MEASURE,
                ADC_TEMP_RESULT_MSB,
                ADC_GP0_RESULT_LSBS,
                4,
                raw,
            ) && raw <= 1023,
            r matches Err(e) ==> e is I2c,
    {
        let ghost pre = self.bus_ops();
        let ghost n = pre.len() as int;
        match self.dispatch_command(TASK_TEMP_MEASURE, TASK_TRIGGER) {
            Ok(()) => {},
            Err(e) => {
                return Err(e);
            },
        }
        let ghost ops1 = self.bus_ops();
        self.delay.delay_us(250);
        let raw = match self.get_die_temperature_measurement_result() {
            Ok(v) => v,
            Err(e) => {
                return Err(e);
            },
        };
        proof {
            let post = self.bus_ops();
            lemma_prefix_trans(pre, ops1, post);
            lemma_prefix_index(ops1, post, n);
        }
        Ok(raw)
    }

    /// Measure VSYS: trigger the measurement task, wait the 250
    /// microsecond settle delay, and fetch the raw 10-bit result.
    pub fn measure_vsys(&mut self) -> (r: Result<u16, NPM1300Error<B::BusError>>)
        ensures
            final(self).beta() == old(self).beta(),
            old(self).bus_ops().is_prefix_of(final(self).bus_ops()),
            r matches Ok(raw) ==> is_task_then_composite_read(
                old(self).bus_ops(),
                final(self).bus_ops(),
                TASK_VSYS_MEASURE,
                ADC_VSYS_RESULT_MSB,
                ADC_GP0_RESULT_LSBS,
                6,
                raw,
            ) && raw <= 1023,
            r matches Err(e) ==> e is I2c,
    {
        let ghost pre = self.bus_ops();
        let ghost n = pre.len() as int;
        match self.dispatch_command(TASK_VSYS_MEASURE, TASK_TRIGGER) {
            Ok(()) => {},
            Err(e) => {
                return Err(e);
            },
        }
        let ghost ops1 = self.bus_ops();
        self.delay.delay_us(250);
        let raw = match self.read_composite_result(
            ADC_VSYS_RESULT_MSB,
            ADC_GP0_RESULT_LSBS,
            6,
        ) {
            Ok(v) => v,
            Err(e) => {
                return Err(e);
            },
        };
        proof {
            let post = self.bus_ops();
            lemma_prefix_trans(pre, ops1, post);
            lemma_prefix_index(ops1, post, n);
        }
        Ok(raw)
    }

    /// Measure VBUS: trigger the measurement task, wait the 250
    /// microsecond settle delay, and fetch the raw 10-bit result from the
    /// shared burst result slot it is delivered in.
    pub fn measure_vbus(&mut self) -> (r: Result<u16, NPM1300Error<B::BusError>>)
        ensures
            final(self).beta() == old(self).beta(),
            old(self).bus_ops().is_prefix_of(final(self).bus_ops()),
            r matches Ok(raw) ==> is_task_then_composite_read(
                old(self).bus_ops(),
                final(self).bus_ops(),
                TASK_VBUS7_MEASURE,
                ADC_VBAT3_RESULT_MSB,
                ADC_GP1_RESULT_LSBS,
                6,
                raw,
            ) && raw <= 1023,
            r matches Err(e) ==> e is I2c,
    {
        let ghost pre = self.bus_ops();
        let ghost n = pre.len() as int;
        match self.dispatch_command(TASK_VBUS7_MEASURE, TASK_TRIGGER) {
            Ok(()) => {},
            Err(e) => {
                return Err(e);
            },
        }
        let ghost ops1 = self.bus_ops();
        self.delay.delay_us(250);
        let raw = match self.read_composite_result(
            ADC_VBAT3_RESULT_MSB,
            ADC_GP1_RESULT_LSBS,
            6,
        ) {
            Ok(v) => v,
            Err(e) => {
                return Err(e);
            },
        };
        proof {
            let post = self.bus_ops();
            lemma_prefix_trans(pre, ops1, post);
            lemma_prefix_index(ops1, post, n);
        }
        Ok(raw)
    }

    /// Measure VBAT after a configured delay, failing with
    /// `InvalidVbatMeasurementDelayValue` before any bus access unless the
    /// delay is between 4 and 514 milliseconds and a multiple of 2. Writes
    /// the delay register, triggers the delayed measurement task, waits —
    /// the wait is over 1024 milliseconds whatever delay is configured, an
    /// unexplained behavior of the hardware, plus the settle delay — and
    /// fetches the raw 10-bit result.
    pub fn measure_delayed_vbat(&mut self, delay: u16) -> (r: Result<
        u16,
        NPM1300Error<B::BusError>,
    >)
        ensures
            final(self).beta() == old(self).beta(),
            old(self).bus_ops().is_prefix_of(final(self).bus_ops()),
            (delay < 4 || delay > 514 || delay % 2 != 0) ==> r == Err::<
                u16,
                NPM1300Error<B::BusError>,
            >(NPM1300Error::InvalidVbatMeasurementDelayValue) && final(self).bus_ops() == old(
                self,
            ).bus_ops(),
            (4 <= delay <= 514 && delay % 2 == 0) ==> {
                &&& r matches Ok(raw) ==> delayed_vbat_trace(
                    old(self).bus_ops(),
                    final(self).bus_ops(),
                    delay,
                    raw,
                ) && raw <= 1023
                &&& r matches Err(e) ==> e is I2c
            },
    {
        if delay < 4 || delay > 514 || delay % 2 != 0 {
            return Err(NPM1300Error::InvalidVbatMeasurementDelayValue);
        }
        let ghost pre = self.bus_ops();
        let ghost n = pre.len() as int;
        let register_delay = ((delay / 2) - 2) as u8;
        match self.write_register(ADC_DEL_TIM_CONF, register_delay) {
            Ok(()) => {},
            Err(e) => {
                return Err(e);
            },
        }
        match self.dispatch_command(TASK_DELAYED_VBAT_MEASURE, TASK_TRIGGER) {
            Ok(()) => {},
            Err(e) => {
                return Err(e);
            },
        }
        let ghost ops2 = self.bus_ops();
        // The delayed measurement completes only after more than 1024 ms,
        // whatever delay the register holds.
        self.delay.delay_ms(1025);
        self.delay.delay_us(250);
        let raw = match self.get_vbat_measurement_result() {
            Ok(v) => v,
            Err(e) => {
                return Err(e);
            },
        };
        proof {
            let post = self.bus_ops();
            lemma_prefix_trans(pre, ops2, post);
            lemma_prefix_index(ops2, post, n);
            lemma_prefix_index(ops2, post, n + 1);
            let lsb = read_data(post[n + 3]);
            assert(lsb >> 0u8 == lsb) by (bit_vector);
        }
        Ok(raw)
    }

    /// Measure the battery current, in microamps: trigger a VBAT
    /// measurement, wait the 200 microsecond settle delay, and read the
    /// charger mode status. An invalid measurement yields zero without
    /// touching the result registers; otherwise the raw 10-bit code is
    /// read and scaled by the discharge limit (negative, discharging) or
    /// the configured charging current limit (positive, charging), with
    /// zero for a mode code outside the documented set.
    pub fn calculate_ibat(
        &mut self,
        discharge_current_limit: DischargeCurrentLimit,
        charge_current_limit_ma: u16,
    ) -> (r: Result<i32, NPM1300Error<B::BusError>>)
        ensures
            final(self).beta() == old(self).beta(),
            old(self).bus_ops().is_prefix_of(final(self).bus_ops()),
            r matches Ok(microamps) ==> ibat_trace(
                old(self).bus_ops(),
                final(self).bus_ops(),
                discharge_current_limit,
                charge_current_limit_ma,
                microamps,
            ),
            r matches Err(e) ==> e is I2c,
    {
        let ghost pre = self.bus_ops();
        let ghost n = pre.len() as int;
        match self.dispatch_command(TASK_VBAT_MEASURE, TASK_TRIGGER) {
            Ok(()) => {},
            Err(e) => {
                return Err(e);
            },
        }
        self.delay.delay_us(200);
        let status = match self.read_register(ADC_IBAT_MEAS_STATUS) {
            Ok(v) => v,
            Err(e) => {
                return Err(e);
            },
        };
        if status & MASK_IBAT_MEAS_INVALID != 0 {
            return Ok(0);
        }
        let ghost ops2 = self.bus_ops();
        let msb = match self.read_register(ADC_VBAT2_RESULT_MSB) {
            Ok(v) => v,
            Err(e) => {
                return Err(e);
            },
        };
        let gp1 = match self.read_register(ADC_GP1_RESULT_LSBS) {
            Ok(v) => v,
            Err(e) => {
                return Err(e);
            },
        };
        let code = compose10(msb, gp1 >> 4);
        let mode = status & MASK_IBAT_MODE;

        let microamps: i32 = match IbatStatuscodes::from_code(mode) {
            Some(IbatStatuscodes::IbatStatDischarge) => {
                let full_scale_ma = discharge_current_limit.limit_ma();
                proof {
                    assert((code as int) * (full_scale_ma as int) <= 1023 * 1000) by (nonlinear_arith)
                        requires
                            code <= 1023,
                            full_scale_ma <= 1000,
                    ;
                    vstd::arithmetic::div_mod::lemma_div_is_ordered(
                        (code as int) * (full_scale_ma as int) * 1000,
                        1023int * 1000 * 1000,
                        1024,
                    );
                }
                let magnitude: i64 = (code as i64) * (full_scale_ma as i64) * 1000 / 1024;
                -(magnitude as i32)
            },
            Some(IbatStatuscodes::IbatStatChargeTrickle)
            | Some(IbatStatuscodes::IbatStatChargeCool)
            | Some(IbatStatuscodes::IbatStatChargeNormal) => {
                proof {
                    assert((code as int) * (charge_current_limit_ma as int) <= 1023 * 65535)
                        by (nonlinear_arith)
                        requires
                            code <= 1023,
                            charge_current_limit_ma <= 65535,
                    ;
                    vstd::arithmetic::div_mod::lemma_div_is_ordered(
                        (code as int) * (charge_current_limit_ma as int) * 1000,
                        1023int * 65535 * 1000,
                        1024,
                    );
                }
                let magnitude: i64 = (code as i64) * (charge_current_limit_ma as i64) * 1000
                    / 1024;
                magnitude as i32
            },
            _ => 0,
        };
        proof {
            let post = self.bus_ops();
            lemma_prefix_trans(pre, ops2, post);
            lemma_prefix_index(ops2, post, n);
            lemma_prefix_index(ops2, post, n + 1);
            assert(ibat_trace(
                pre,
                post,
                discharge_current_limit,
                charge_current_limit_ma,
                microamps,
            ));
        }
        Ok(microamps)
    }
}

/// Holds when `post` extends `pre` with exactly the bus transactions of a
/// plain VBAT measurement: the burst-disabling read-modify-write of the
/// ADC configuration register, the task trigger, and the two result
/// reads whose bytes recompose to `result`.
pub open spec fn measure_vbat_trace(pre: Seq<BusOp>, post: Seq<BusOp>, result: u16) -> bool {
    let n = pre.len() as int;
    &&& pre.is_prefix_of(post)
    &&& post.len() == n + 5
    &&& is_read_of(post[n], ADC_CONFIG)
    &&& post[n + 1] == write_op(
        ADC_CONFIG,
        masked_update(read_data(post[n]), MASK_VBAT_BURST, 0x00),
    )
    &&& post[n + 2] == write_op(TASK_VBAT_MEASURE, TASK_TRIGGER)
    &&& is_read_of(post[n + 3], ADC_VBAT_RESULT_MSB)
    &&& is_read_of(post[n + 4], ADC_GP0_RESULT_LSBS)
    &&& result == spec_compose10(read_data(post[n + 3]), read_data(post[n + 4]))
}

/// Holds when `post` extends `pre` with exactly the bus transactions of a
/// burst VBAT measurement: the burst-enabling read-modify-write, the task
/// trigger, and four pairs of result reads, one per slot, each slot
/// recomposed from its own MSB register and its own two-bit field of the
/// shared LSB register.
pub open spec fn measure_vbat_burst_trace(
    pre: Seq<BusOp>,
    post: Seq<BusOp>,
    result0: u16,
    result1: u16,
    result2: u16,
    result3: u16,
) -> bool {
    let n = pre.len() as int;
    &&& pre.is_prefix_of(post)
    &&& post.len() == n + 11
    &&& is_read_of(post[n], ADC_CONFIG)
    &&& post[n + 1] == write_op(
        ADC_CONFIG,
        masked_update(read_data(post[n]), MASK_VBAT_BURST, 0x02),
    )
    &&& post[n + 2] == write_op(TASK_VBAT_MEASURE, TASK_TRIGGER)
    &&& is_read_of(post[n + 3], ADC_VBAT0_RESULT_MSB)
    &&& is_read_of(post[n + 4], ADC_GP1_RESULT_LSBS)
    &&& result0 == spec_compose10(read_data(post[n + 3]), read_data(post[n + 4]))
    &&& is_read_of(post[n + 5], ADC_VBAT1_RESULT_MSB)
    &&& is_read_of(post[n + 6], ADC_GP1_RESULT_LSBS)
    &&& result1 == spec_compose10(read_data(post[n + 5]), read_data(post[n + 6]) >> 2)
    &&& is_read_of(post[n + 7], ADC_VBAT2_RESULT_MSB)
    &&& is_read_of(post[n + 8], ADC_GP1_RESULT_LSBS)
    &&& result2 == spec_compose10(read_data(post[n + 7]), read_data(post[n + 8]) >> 4)
    &&& is_read_of(post[n + 9], ADC_VBAT3_RESULT_MSB)
    &&& is_read_of(post[n + 10], ADC_GP1_RESULT_LSBS)
    &&& result3 == spec_compose10(read_data(post[n + 9]), read_data(post[n + 10]) >> 6)
}

/// Holds when `post` extends `pre` with exactly the bus transactions of a
/// delayed VBAT measurement: the delay register write holding
/// `delay / 2 - 2`, the delayed measurement task trigger, and the two
/// result reads whose bytes recompose to `result`.
pub open spec fn delayed_vbat_trace(
    pre: Seq<BusOp>,
    post: Seq<BusOp>,
    delay: u16,
    result: u16,
) -> bool
    recommends
        4 <= delay <= 514,
{
    let n = pre.len() as int;
    &&& pre.is_prefix_of(post)
    &&& post.len() == n + 4
    &&& post[n] == write_op(ADC_DEL_TIM_CONF, (delay / 2 - 2) as u8)
    &&& post[n + 1] == write_op(TASK_DELAYED_VBAT_MEASURE, TASK_TRIGGER)
    &&& is_read_of(post[n + 2], ADC_VBAT_RESULT_MSB)
    &&& is_read_of(post[n + 3], ADC_GP0_RESULT_LSBS)
    &&& result == spec_compose10(read_data(post[n + 2]), read_data(post[n + 3]))
}

/// Holds when `post` extends `pre` with exactly the bus transactions of a
/// battery current measurement: the VBAT task trigger and the status
/// read, followed — unless the status byte flags the measurement invalid,
/// which yields zero — by the two result reads, with `microamps` the
/// scaled and signed current those bytes and the status byte stand for.
pub open spec fn ibat_trace(
    pre: Seq<BusOp>,
    post: Seq<BusOp>,
    discharge_limit: DischargeCurrentLimit,
    charge_limit_ma: u16,
    microamps: i32,
) -> bool {
    let n = pre.len() as int;
    &&& pre.is_prefix_of(post)
    &&& post.len() >= n + 2
    &&& post[n] == write_op(TASK_VBAT_MEASURE, TASK_TRIGGER)
    &&& is_read_of(post[n + 1], ADC_IBAT_MEAS_STATUS)
    &&& if read_data(post[n + 1]) & MASK_IBAT_MEAS_INVALID != 0 {
        post.len() == n + 2 && microamps == 0
    } else {
        &&& post.len() == n + 4
        &&& is_read_of(post[n + 2], ADC_VBAT2_RESULT_MSB)
        &&& is_read_of(post[n + 3], ADC_GP1_RESULT_LSBS)
        &&& microamps == spec_ibat_microamps(
            read_data(post[n + 1]) & MASK_IBAT_MODE,
            spec_compose10(read_data(post[n + 2]), read_data(post[n + 3]) >> 4),
            discharge_limit,
            charge_limit_ma,
        )
    }
}

} // verus!
