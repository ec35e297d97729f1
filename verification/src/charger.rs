//! Battery charger operations: enable control, charging current, discharge
//! limit, termination voltages, NTC and die-temperature thresholds, and
//! status reporting.

use vstd::prelude::*;

use crate::NPM1300Error;
use crate::bus::{BusOp, DelayProvider, I2cBus, write_op, is_read_of, read_data};
use crate::codec::{masked_update, spec_msb10, spec_lsb10, spec_compose10, split10, compose10};
use crate::device::{NPM1300, is_modify_trace};
use crate::charger_types::{
    DischargeCurrentLimit, NtcThresholdRegion, DieTemperatureThresholdType,
    ChargerTerminationVoltage, ChargerTrickleLevelSelect,
    ChargerTerminationCurrentLevelSelect, ChargerStatus, ChargerErrorReason,
    ChargerSensorValueDuringError,
};
use crate::regs::{
    TASK_TRIGGER, TASK_RELEASE_ERR, TASK_CLEAR_CHG_ERR, TASK_CLEAR_SAFETY_TIMER,
    BCHG_ENABLE_SET, BCHG_ENABLE_CLR, BCHG_DISABLE_SET, BCHG_DISABLE_CLR,
    BCHG_ISET_MSB, BCHG_ISET_LSB, BCHG_ISET_DISCHARGE_MSB, BCHG_ISET_DISCHARGE_LSB,
    BCHG_VTERM, BCHG_VTERM_R, BCHG_VTRICKLE_SEL, BCHG_ITERM_SEL,
    BCHG_ILIM_STATUS, NTC_STATUS, DIE_TEMP_STATUS, BCHG_CHARGE_STATUS,
    BCHG_ERR_REASON, BCHG_ERR_SENSOR, BCHG_CONFIG,
    MASK_CHG_ENABLE, MASK_CHG_FULL_COOL, MASK_DIS_RECHARGE, MASK_DIS_NTC,
};

verus! {

/// Ceiling on the configurable charging current, in mA.
pub const MAX_CHARGER_CURRENT_MA: u16 = 800;

/// The MSB register byte for a charging current: `current_ma / 4`.
pub open spec fn spec_charger_current_msb(current_ma: u16) -> u8
    recommends
        current_ma <= MAX_CHARGER_CURRENT_MA,
{
    (current_ma / 4) as u8
}

/// The LSB register byte for a charging current: 1 when `current_ma / 2`
/// is odd, 0 when even.
pub open spec fn spec_charger_current_lsb(current_ma: u16) -> u8 {
    ((current_ma / 2) % 2) as u8
}

/// The 10-bit NTC threshold code for a desired thermistor resistance
/// against the reference resistance at 25 Celsius: the nearest integer to
/// `1024 * desired / (desired + reference)`.
pub open spec fn spec_ntc_threshold(desired: u32, reference: u32) -> int
    recommends
        desired + reference > 0,
{
    (2048 * desired + desired + reference) / (2 * (desired + reference))
}

/// Holds when no 10-bit threshold code exists for this resistance pair:
/// the resistances are both zero, or the nearest integer falls above 1023.
pub open spec fn ntc_threshold_out_of_range(desired: u32, reference: u32) -> bool {
    desired + reference == 0 || spec_ntc_threshold(desired, reference) > 1023
}

/// The 10-bit die temperature threshold code for a temperature in Celsius:
/// the nearest integer to `(394.67 - celsius) / 0.7926`, computed exactly
/// over the scaled integer constants of that linear calibration.
pub open spec fn spec_die_temp_code(celsius: u16) -> int
    recommends
        50 <= celsius <= 110,
{
    (2 * (3946700 - 10000 * celsius) + 7926) / (2 * 7926int)
}

/// Compute the 10-bit NTC threshold code, or `None` when no valid code
/// exists for this resistance pair.
pub fn compute_ntc_threshold(desired_resistance: u32, reference_resistance_25c: u32) -> (r:
    Option<u16>)
    ensures
        ntc_threshold_out_of_range(desired_resistance, reference_resistance_25c) <==> r is None,
        r matches Some(t) ==> t == spec_ntc_threshold(desired_resistance, reference_resistance_25c)
            && t <= 1023,
{
    let d = desired_resistance as u64;
    let f = reference_resistance_25c as u64;
    let sum: u64 = d + f;
    if sum == 0 {
        return None;
    }
    let t: u64 = (2048 * d + sum) / (2 * sum);
    if t > 1023 {
        None
    } else {
        Some(t as u16)
    }
}

/// Compute the 10-bit die temperature threshold code, or `None` when the
/// temperature lies outside the accepted 50..=110 Celsius range.
pub fn compute_die_temperature_code(temperature_celsius: u16) -> (r: Option<u16>)
    ensures
        (50 <= temperature_celsius <= 110) <==> r is Some,
        r matches Some(c) ==> c == spec_die_temp_code(temperature_celsius) && c <= 1023,
{
    if temperature_celsius < 50 || temperature_celsius > 110 {
        return None;
    }
    let n: u32 = 3946700 - 10000 * (temperature_celsius as u32);
    let k: u32 = (2 * n + 7926) / 15852;
    proof {
        vstd::arithmetic::div_mod::lemma_div_is_ordered(
            2 * n + 7926,
            15852 * 1024 - 1,
            15852,
        );
    }
    Some(k as u16)
}

impl<B: I2cBus, D: DelayProvider> NPM1300<B, D> {
    /// Clear charger errors: clears the error reason and error sensor
    /// registers, then releases the charger from its error state. Two task
    /// triggers, in that order.
    pub fn clear_charger_errors(&mut self) -> (r: Result<(), NPM1300Error<B::BusError>>)
        ensures
            final(self).beta() == old(self).beta(),
            old(self).bus_ops().is_prefix_of(final(self).bus_ops()),
            r is Ok ==> final(self).bus_ops() == old(self).bus_ops().push(
                write_op(TASK_CLEAR_CHG_ERR, TASK_TRIGGER),
            ).push(write_op(TASK_RELEASE_ERR, TASK_TRIGGER)),
            r matches Err(e) ==> e is I2c,
    {
        match self.dispatch_command(TASK_CLEAR_CHG_ERR, TASK_TRIGGER) {
            Ok(()) => {},
            Err(e) => {
                return Err(e);
            },
        }
        self.dispatch_command(TASK_RELEASE_ERR, TASK_TRIGGER)
    }

    /// Clear the charger safety timer, which enforces a timeout on the
    /// combined constant current and constant voltage charging phases.
    pub fn clear_charger_safety_timer(&mut self) -> (r: Result<(), NPM1300Error<B::BusError>>)
        ensures
            final(self).beta() == old(self).beta(),
            old(self).bus_ops().is_prefix_of(final(self).bus_ops()),
            r is Ok ==> final(self).bus_ops() == old(self).bus_ops().push(
                write_op(TASK_CLEAR_SAFETY_TIMER, TASK_TRIGGER),
            ),
            r matches Err(e) ==> e is I2c,
    {
        self.dispatch_command(TASK_CLEAR_SAFETY_TIMER, TASK_TRIGGER)
    }

    /// Enable battery charging: set the charging enable bit, preserving the
    /// other bits of the enable-set register.
    pub fn enable_battery_charging(&mut self) -> (r: Result<(), NPM1300Error<B::BusError>>)
        ensures
            final(self).beta() == old(self).beta(),
            old(self).bus_ops().is_prefix_of(final(self).bus_ops()),
            r is Ok ==> is_modify_trace(
                old(self).bus_ops(),
                final(self).bus_ops(),
                BCHG_ENABLE_SET,
                MASK_CHG_ENABLE,
                0x01,
            ),
            r matches Err(e) ==> e is I2c,
    {
        self.modify_register(BCHG_ENABLE_SET, MASK_CHG_ENABLE, 0x01)
    }

    /// Disable battery charging: set the charging bit in the enable-clear
    /// register, preserving its other bits.
    pub fn disable_battery_charging(&mut self) -> (r: Result<(), NPM1300Error<B::BusError>>)
        ensures
            final(self).beta() == old(self).beta(),
            old(self).bus_ops().is_prefix_of(final(self).bus_ops()),
            r is Ok ==> is_modify_trace(
                old(self).bus_ops(),
                final(self).bus_ops(),
                BCHG_ENABLE_CLR,
                MASK_CHG_ENABLE,
                0x01,
            ),
            r matches Err(e) ==> e is I2c,
    {
        self.modify_register(BCHG_ENABLE_CLR, MASK_CHG_ENABLE, 0x01)
    }

    /// Report whether charging is enabled: one read of the enable-set
    /// register; enabled exactly when its charging bit is set.
    pub fn is_charging_enabled(&mut self) -> (r: Result<bool, NPM1300Error<B::BusError>>)
        ensures
            final(self).beta() == old(self).beta(),
            old(self).bus_ops().is_prefix_of(final(self).bus_ops()),
            r matches Ok(enabled) ==> final(self).bus_ops().len() == old(self).bus_ops().len() + 1
                && is_read_of(final(self).bus_ops().last(), BCHG_ENABLE_SET)
                && enabled == (read_data(final(self).bus_ops().last()) & MASK_CHG_ENABLE != 0),
            r matches Err(e) ==> e is I2c,
    {
        match self.read_register(BCHG_ENABLE_SET) {
            Ok(b) => Ok(b & MASK_CHG_ENABLE != 0),
            Err(e) => Err(e),
        }
    }

    /// Configure the battery charging current, in mA, up to the 800 mA
    /// ceiling.
    ///
    /// The trace first reads the enable-set register to learn whether
    /// charging is enabled. If it is, charging is disabled while the two
    /// current registers are written and re-enabled afterwards; otherwise
    /// the two writes happen alone. The values written are
    /// `current_ma / 4` (MSB) and the parity of `current_ma / 2` (LSB).
    pub fn set_charger_current(&mut self, current_ma: u16) -> (r: Result<
        (),
        NPM1300Error<B::BusError>,
    >)
        ensures
            final(self).beta() == old(self).beta(),
            old(self).bus_ops().is_prefix_of(final(self).bus_ops()),
            current_ma > MAX_CHARGER_CURRENT_MA ==> r == Err::<(), NPM1300Error<B::BusError>>(
                NPM1300Error::ChargerCurrentTooHigh(current_ma),
            ) && final(self).bus_ops() == old(self).bus_ops(),
            current_ma <= MAX_CHARGER_CURRENT_MA ==> {
                &&& r is Ok ==> charger_current_trace(
                    old(self).bus_ops(),
                    final(self).bus_ops(),
                    current_ma,
                )
                &&& r matches Err(e) ==> e is I2c
            },
    {
        if current_ma > MAX_CHARGER_CURRENT_MA {
            return Err(NPM1300Error::ChargerCurrentTooHigh(current_ma));
        }
        let ghost pre = self.bus_ops();
        let ghost n = pre.len() as int;

        let was_enabled = match self.is_charging_enabled() {
            Ok(b) => b,
            Err(e) => {
                return Err(e);
            },
        };
        let ghost ops1 = self.bus_ops();

        if was_enabled {
            match self.disable_battery_charging() {
                Ok(()) => {},
                Err(e) => {
                    return Err(e);
                },
            }
        }
        let ghost ops2 = self.bus_ops();
        proof {
            assert(ops2[n] == ops1[n]);
            assert(pre.is_prefix_of(ops2));
        }

        let msb = (current_ma / 4) as u8;
        let lsb = ((current_ma / 2) % 2) as u8;

        match self.write_register(BCHG_ISET_MSB, msb) {
            Ok(()) => {},
            Err(e) => {
                return Err(e);
            },
        }
        match self.write_register(BCHG_ISET_LSB, lsb) {
            Ok(()) => {},
            Err(e) => {
                return Err(e);
            },
        }
        let ghost ops4 = self.bus_ops();
        proof {
            assert(pre.is_prefix_of(ops4));
        }

        if was_enabled {
            match self.enable_battery_charging() {
                Ok(()) => {},
                Err(e) => {
                    return Err(e);
                },
            }
        }
        proof {
            let post = self.bus_ops();
            assert(post[n] == ops1[n]);
            assert(pre.is_prefix_of(post));
            if was_enabled {
                assert(post.len() == n + 7);
                crate::bus::lemma_prefix_index(ops4, post, n + 1);
                crate::bus::lemma_prefix_index(ops4, post, n + 2);
                crate::bus::lemma_prefix_index(ops4, post, n + 3);
                crate::bus::lemma_prefix_index(ops4, post, n + 4);
                assert(is_read_of(post[n + 1], BCHG_ENABLE_CLR));
                assert(post[n + 2] == write_op(
                    BCHG_ENABLE_CLR,
                    masked_update(read_data(post[n + 1]), MASK_CHG_ENABLE, 0x01),
                ));
                assert(post[n + 3] == write_op(
                    BCHG_ISET_MSB,
                    spec_charger_current_msb(current_ma),
                ));
                assert(post[n + 4] == write_op(
                    BCHG_ISET_LSB,
                    spec_charger_current_lsb(current_ma),
                ));
                assert(is_read_of(post[n + 5], BCHG_ENABLE_SET));
                assert(post[n + 6] == write_op(
                    BCHG_ENABLE_SET,
                    masked_update(read_data(post[n + 5]), MASK_CHG_ENABLE, 0x01),
                ));
            } else {
                assert(post.len() == n + 3);
                assert(post[n + 1] == write_op(
                    BCHG_ISET_MSB,
                    spec_charger_current_msb(current_ma),
                ));
                assert(post[n + 2] == write_op(
                    BCHG_ISET_LSB,
                    spec_charger_current_lsb(current_ma),
                ));
            }
            assert(charger_current_trace(pre, post, current_ma));
        }
        Ok(())
    }

    /// Read back the configured charging current, in mA: reads the MSB and
    /// LSB current registers and returns `msb * 4 + lsb * 2`.
    pub fn get_charger_config_current(&mut self) -> (r: Result<u16, NPM1300Error<B::BusError>>)
        ensures
            final(self).beta() == old(self).beta(),
            old(self).bus_ops().is_prefix_of(final(self).bus_ops()),
            r matches Ok(ma) ==> {
                let pre = old(self).bus_ops();
                let post = final(self).bus_ops();
                &&& post.len() == pre.len() + 2
                &&& is_read_of(post[pre.len() as int], BCHG_ISET_MSB)
                &&& is_read_of(post[pre.len() as int + 1], BCHG_ISET_LSB)
                &&& ma == read_data(post[pre.len() as int]) as u16 * 4 + (read_data(
                    post[pre.len() as int + 1],
                ) as u16) * 2
            },
            r matches Err(e) ==> e is I2c,
    {
        let msb = match self.read_register(BCHG_ISET_MSB) {
            Ok(v) => v,
            Err(e) => {
                return Err(e);
            },
        };
        let lsb = match self.read_register(BCHG_ISET_LSB) {
            Ok(v) => v,
            Err(e) => {
                return Err(e);
            },
        };
        Ok((msb as u16) * 4 + (lsb as u16) * 2)
    }

    /// Configure the maximum battery discharge current: writes the MSB and
    /// LSB pair documented for the chosen limit.
    pub fn set_discharge_current_limit(&mut self, limit: DischargeCurrentLimit) -> (r: Result<
        (),
        NPM1300Error<B::BusError>,
    >)
        ensures
            final(self).beta() == old(self).beta(),
            old(self).bus_ops().is_prefix_of(final(self).bus_ops()),
            r is Ok ==> final(self).bus_ops() == old(self).bus_ops().push(
                write_op(BCHG_ISET_DISCHARGE_MSB, limit.spec_msb()),
            ).push(write_op(BCHG_ISET_DISCHARGE_LSB, limit.spec_lsb())),
            r matches Err(e) ==> e is I2c,
    {
        let msb = limit.msb();
        let lsb = limit.lsb();
        match self.write_register(BCHG_ISET_DISCHARGE_MSB, msb) {
            Ok(()) => {},
            Err(e) => {
                return Err(e);
            },
        }
        self.write_register(BCHG_ISET_DISCHARGE_LSB, lsb)
    }

    /// Read back the configured discharge current limit, failing with
    /// `InvalidDischargeCurrentValue` when the register pair matches
    /// neither documented setting.
    pub fn get_discharge_current_limit(&mut self) -> (r: Result<
        DischargeCurrentLimit,
        NPM1300Error<B::BusError>,
    >)
        ensures
            final(self).beta() == old(self).beta(),
            old(self).bus_ops().is_prefix_of(final(self).bus_ops()),
            r matches Ok(limit) ==> {
                let pre = old(self).bus_ops();
                let post = final(self).bus_ops();
                &&& post.len() == pre.len() + 2
                &&& is_read_of(post[pre.len() as int], BCHG_ISET_DISCHARGE_MSB)
                &&& is_read_of(post[pre.len() as int + 1], BCHG_ISET_DISCHARGE_LSB)
                &&& DischargeCurrentLimit::spec_from_registers(
                    read_data(post[pre.len() as int]),
                    read_data(post[pre.len() as int + 1]),
                ) == Some(limit)
            },
            r matches Err(e) ==> e is I2c || (e matches NPM1300Error::InvalidDischargeCurrentValue {
                msb,
                lsb,
            } && {
                let pre = old(self).bus_ops();
                let post = final(self).bus_ops();
                &&& post.len() == pre.len() + 2
                &&& is_read_of(post[pre.len() as int], BCHG_ISET_DISCHARGE_MSB)
                &&& is_read_of(post[pre.len() as int + 1], BCHG_ISET_DISCHARGE_LSB)
                &&& msb == read_data(post[pre.len() as int])
                &&& lsb == read_data(post[pre.len() as int + 1])
                &&& DischargeCurrentLimit::spec_from_registers(msb, lsb) is None
            }),
    {
        let msb = match self.read_register(BCHG_ISET_DISCHARGE_MSB) {
            Ok(v) => v,
            Err(e) => {
                return Err(e);
            },
        };
        let lsb = match self.read_register(BCHG_ISET_DISCHARGE_LSB) {
            Ok(v) => v,
            Err(e) => {
                return Err(e);
            },
        };
        match DischargeCurrentLimit::from_registers(msb, lsb) {
            Some(limit) => Ok(limit),
            None => Err(NPM1300Error::InvalidDischargeCurrentValue { msb, lsb }),
        }
    }

    /// Enable full charge current in cool temperature conditions: set the
    /// corresponding bit in the enable-set register, preserving the rest.
    pub fn enable_battery_charger_full_charge_in_cool_temp(&mut self) -> (r: Result<
        (),
        NPM1300Error<B::BusError>,
    >)
        ensures
            final(self).beta() == old(self).beta(),
            old(self).bus_ops().is_prefix_of(final(self).bus_ops()),
            r is Ok ==> is_modify_trace(
                old(self).bus_ops(),
                final(self).bus_ops(),
                BCHG_ENABLE_SET,
                MASK_CHG_FULL_COOL,
                0x02,
            ),
            r matches Err(e) ==> e is I2c,
    {
        self.modify_register(BCHG_ENABLE_SET, MASK_CHG_FULL_COOL, 0x02)
    }

    /// Disable full charge current in cool temperature conditions: set the
    /// corresponding bit in the enable-clear register, preserving the rest.
    pub fn disable_battery_charger_full_charge_in_cool_temp(&mut self) -> (r: Result<
        (),
        NPM1300Error<B::BusError>,
    >)
        ensures
            final(self).beta() == old(self).beta(),
            old(self).bus_ops().is_prefix_of(final(self).bus_ops()),
            r is Ok ==> is_modify_trace(
                old(self).bus_ops(),
                final(self).bus_ops(),
                BCHG_ENABLE_CLR,
                MASK_CHG_FULL_COOL,
                0x02,
            ),
            r matches Err(e) ==> e is I2c,
    {
        self.modify_register(BCHG_ENABLE_CLR, MASK_CHG_FULL_COOL, 0x02)
    }

    /// Report whether full charge current in cool temperature conditions
    /// is enabled: one read of the enable-set register.
    pub fn is_full_charge_current_in_cool_temp_enabled(&mut self) -> (r: Result<
        bool,
        NPM1300Error<B::BusError>,
    >)
        ensures
            final(self).beta() == old(self).beta(),
            old(self).bus_ops().is_prefix_of(final(self).bus_ops()),
            r matches Ok(enabled) ==> final(self).bus_ops().len() == old(self).bus_ops().len() + 1
                && is_read_of(final(self).bus_ops().last(), BCHG_ENABLE_SET)
                && enabled == (read_data(final(self).bus_ops().last()) & MASK_CHG_FULL_COOL != 0),
            r matches Err(e) ==> e is I2c,
    {
        match self.read_register(BCHG_ENABLE_SET) {
            Ok(b) => Ok(b & MASK_CHG_FULL_COOL != 0),
            Err(e) => Err(e),
        }
    }

    /// Enable battery recharge once charged: set the recharge bit in the
    /// disable-clear register, preserving its other bits.
    pub fn enable_battery_recharge(&mut self) -> (r: Result<(), NPM1300Error<B::BusError>>)
        ensures
            final(self).beta() == old(self).beta(),
            old(self).bus_ops().is_prefix_of(final(self).bus_ops()),
            r is Ok ==> is_modify_trace(
                old(self).bus_ops(),
                final(self).bus_ops(),
                BCHG_DISABLE_CLR,
                MASK_DIS_RECHARGE,
                0x01,
            ),
            r matches Err(e) ==> e is I2c,
    {
        self.modify_register(BCHG_DISABLE_CLR, MASK_DIS_RECHARGE, 0x01)
    }

    /// Disable battery recharge once charged: set the recharge bit in the
    /// disable-set register, preserving its other bits.
    pub fn disable_battery_recharge(&mut self) -> (r: Result<(), NPM1300Error<B::BusError>>)
        ensures
            final(self).beta() == old(self).beta(),
            old(self).bus_ops().is_prefix_of(final(self).bus_ops()),
            r is Ok ==> is_modify_trace(
                old(self).bus_ops(),
                final(self).bus_ops(),
                BCHG_DISABLE_SET,
                MASK_DIS_RECHARGE,
                0x01,
            ),
            r matches Err(e) ==> e is I2c,
    {
        self.modify_register(BCHG_DISABLE_SET, MASK_DIS_RECHARGE, 0x01)
    }

    /// Report whether battery recharge is enabled: one read of the
    /// disable-set register; enabled exactly when its recharge-disable bit
    /// is clear.
    pub fn is_battery_recharge_enabled(&mut self) -> (r: Result<bool, NPM1300Error<B::BusError>>)
        ensures
            final(self).beta() == old(self).beta(),
            old(self).bus_ops().is_prefix_of(final(self).bus_ops()),
            r matches Ok(enabled) ==> final(self).bus_ops().len() == old(self).bus_ops().len() + 1
                && is_read_of(final(self).bus_ops().last(), BCHG_DISABLE_SET)
                && enabled == (read_data(final(self).bus_ops().last()) & MASK_DIS_RECHARGE == 0),
            r matches Err(e) ==> e is I2c,
    {
        match self.read_register(BCHG_DISABLE_SET) {
            Ok(b) => Ok(b & MASK_DIS_RECHARGE == 0),
            Err(e) => Err(e),
        }
    }

    /// Ignore NTC thermistor measurements when charging: set the NTC bit
    /// in the disable-set register, preserving its other bits.
    pub fn ignore_ntc_measurements(&mut self) -> (r: Result<(), NPM1300Error<B::BusError>>)
        ensures
            final(self).beta() == old(self).beta(),
            old(self).bus_ops().is_prefix_of(final(self).bus_ops()),
            r is Ok ==> is_modify_trace(
                old(self).bus_ops(),
                final(self).bus_ops(),
                BCHG_DISABLE_SET,
                MASK_DIS_NTC,
                0x02,
            ),
            r matches Err(e) ==> e is I2c,
    {
        self.modify_register(BCHG_DISABLE_SET, MASK_DIS_NTC, 0x02)
    }

    /// Use NTC thermistor measurements when charging: set the NTC bit in
    /// the disable-clear register, preserving its other bits.
    pub fn use_ntc_measurements(&mut self) -> (r: Result<(), NPM1300Error<B::BusError>>)
        ensures
            final(self).beta() == old(self).beta(),
            old(self).bus_ops().is_prefix_of(final(self).bus_ops()),
            r is Ok ==> is_modify_trace(
                old(self).bus_ops(),
                final(self).bus_ops(),
                BCHG_DISABLE_CLR,
                MASK_DIS_NTC,
                0x02,
            ),
            r matches Err(e) ==> e is I2c,
    {
        self.modify_register(BCHG_DISABLE_CLR, MASK_DIS_NTC, 0x02)
    }

    /// Report whether NTC measurements are ignored while charging: one
    /// read of the disable-set register.
    pub fn is_ntc_measurement_ignored(&mut self) -> (r: Result<bool, NPM1300Error<B::BusError>>)
        ensures
            final(self).beta() == old(self).beta(),
            old(self).bus_ops().is_prefix_of(final(self).bus_ops()),
            r matches Ok(ignored) ==> final(self).bus_ops().len() == old(self).bus_ops().len() + 1
                && is_read_of(final(self).bus_ops().last(), BCHG_DISABLE_SET)
                && ignored == (read_data(final(self).bus_ops().last()) & MASK_DIS_NTC != 0),
            r matches Err(e) ==> e is I2c,
    {
        match self.read_register(BCHG_DISABLE_SET) {
            Ok(b) => Ok(b & MASK_DIS_NTC != 0),
            Err(e) => Err(e),
        }
    }

    /// Set the termination voltage for normal battery temperature: one
    /// full write of the voltage code.
    pub fn set_normal_temperature_termination_voltage(
        &mut self,
        termination_voltage: ChargerTerminationVoltage,
    ) -> (r: Result<(), NPM1300Error<B::BusError>>)
        ensures
            final(self).beta() == old(self).beta(),
            old(self).bus_ops().is_prefix_of(final(self).bus_ops()),
            r is Ok ==> final(self).bus_ops() == old(self).bus_ops().push(
                write_op(BCHG_VTERM, termination_voltage.spec_code()),
            ),
            r matches Err(e) ==> e is I2c,
    {
        let code = termination_voltage.code();
        self.write_register(BCHG_VTERM, code)
    }

    /// Set the termination voltage for warm battery temperature: one full
    /// write of the voltage code.
    pub fn set_warm_temperature_termination_voltage(
        &mut self,
        termination_voltage: ChargerTerminationVoltage,
    ) -> (r: Result<(), NPM1300Error<B::BusError>>)
        ensures
            final(self).beta() == old(self).beta(),
            old(self).bus_ops().is_prefix_of(final(self).bus_ops()),
            r is Ok ==> final(self).bus_ops() == old(self).bus_ops().push(
                write_op(BCHG_VTERM_R, termination_voltage.spec_code()),
            ),
            r matches Err(e) ==> e is I2c,
    {
        let code = termination_voltage.code();
        self.write_register(BCHG_VTERM_R, code)
    }

    /// Set the trickle charging voltage threshold: one full write of the
    /// level code.
    pub fn set_trickle_level(&mut self, trickle_level: ChargerTrickleLevelSelect) -> (r: Result<
        (),
        NPM1300Error<B::BusError>,
    >)
        ensures
            final(self).beta() == old(self).beta(),
            old(self).bus_ops().is_prefix_of(final(self).bus_ops()),
            r is Ok ==> final(self).bus_ops() == old(self).bus_ops().push(
                write_op(BCHG_VTRICKLE_SEL, trickle_level.spec_code()),
            ),
            r matches Err(e) ==> e is I2c,
    {
        let code = trickle_level.code();
        self.write_register(BCHG_VTRICKLE_SEL, code)
    }

    /// Set the charging termination current level: one full write of the
    /// level code.
    pub fn set_termination_current_level(
        &mut self,
        termination_current_level: ChargerTerminationCurrentLevelSelect,
    ) -> (r: Result<(), NPM1300Error<B::BusError>>)
        ensures
            final(self).beta() == old(self).beta(),
            old(self).bus_ops().is_prefix_of(final(self).bus_ops()),
            r is Ok ==> final(self).bus_ops() == old(self).bus_ops().push(
                write_op(BCHG_ITERM_SEL, termination_current_level.spec_code()),
            ),
            r matches Err(e) ==> e is I2c,
    {
        let code = termination_current_level.code();
        self.write_register(BCHG_ITERM_SEL, code)
    }

    /// Report whether the discharge current limit is active: one read of
    /// the current limiter status register.
    pub fn get_discharge_current_limit_active(&mut self) -> (r: Result<
        bool,
        NPM1300Error<B::BusError>,
    >)
        ensures
            final(self).beta() == old(self).beta(),
            old(self).bus_ops().is_prefix_of(final(self).bus_ops()),
            r matches Ok(active) ==> final(self).bus_ops().len() == old(self).bus_ops().len() + 1
                && is_read_of(final(self).bus_ops().last(), BCHG_ILIM_STATUS)
                && active == (read_data(final(self).bus_ops().last()) & 0x01 != 0),
            r matches Err(e) ==> e is I2c,
    {
        match self.read_register(BCHG_ILIM_STATUS) {
            Ok(b) => Ok(b & 0x01 != 0),
            Err(e) => Err(e),
        }
    }

    /// Read the NTC temperature region the battery is currently in: one
    /// read of the NTC status register, decoded lowest bit first. A status
    /// byte flagging no region fails with `UnexpectedHardwareState` rather
    /// than guessing.
    pub fn get_ntc_current_region(&mut self) -> (r: Result<
        NtcThresholdRegion,
        NPM1300Error<B::BusError>,
    >)
        ensures
            final(self).beta() == old(self).beta(),
            old(self).bus_ops().is_prefix_of(final(self).bus_ops()),
            r matches Ok(region) ==> final(self).bus_ops().len() == old(self).bus_ops().len() + 1
                && is_read_of(final(self).bus_ops().last(), NTC_STATUS)
                && spec_ntc_region_from_status(read_data(final(self).bus_ops().last())) == Some(
                region,
            ),
            r matches Err(e) ==> e is I2c || (e is UnexpectedHardwareState
                && final(self).bus_ops().len() == old(self).bus_ops().len() + 1
                && is_read_of(final(self).bus_ops().last(), NTC_STATUS)
                && spec_ntc_region_from_status(read_data(final(self).bus_ops().last())) is None),
    {
        let b = match self.read_register(NTC_STATUS) {
            Ok(v) => v,
            Err(e) => {
                return Err(e);
            },
        };
        if b & 0x01 != 0 {
            Ok(NtcThresholdRegion::Cold)
        } else if b & 0x02 != 0 {
            Ok(NtcThresholdRegion::Cool)
        } else if b & 0x04 != 0 {
            Ok(NtcThresholdRegion::Warm)
        } else if b & 0x08 != 0 {
            Ok(NtcThresholdRegion::Hot)
        } else {
            Err(NPM1300Error::UnexpectedHardwareState)
        }
    }

    /// Report whether the die temperature is above the charging stop
    /// threshold: one read of the die temperature status register.
    pub fn is_die_temperature_above_charging_threshold(&mut self) -> (r: Result<
        bool,
        NPM1300Error<B::BusError>,
    >)
        ensures
            final(self).beta() == old(self).beta(),
            old(self).bus_ops().is_prefix_of(final(self).bus_ops()),
            r matches Ok(high) ==> final(self).bus_ops().len() == old(self).bus_ops().len() + 1
                && is_read_of(final(self).bus_ops().last(), DIE_TEMP_STATUS)
                && high == (read_data(final(self).bus_ops().last()) & 0x01 != 0),
            r matches Err(e) ==> e is I2c,
    {
        match self.read_register(DIE_TEMP_STATUS) {
            Ok(b) => Ok(b & 0x01 != 0),
            Err(e) => Err(e),
        }
    }

    /// Read the charger status flags: one read of the charge status
    /// register, decoded bit by bit.
    pub fn get_charger_status(&mut self) -> (r: Result<ChargerStatus, NPM1300Error<B::BusError>>)
        ensures
            final(self).beta() == old(self).beta(),
            old(self).bus_ops().is_prefix_of(final(self).bus_ops()),
            r matches Ok(status) ==> final(self).bus_ops().len() == old(self).bus_ops().len() + 1
                && is_read_of(final(self).bus_ops().last(), BCHG_CHARGE_STATUS)
                && status == ChargerStatus::spec_from_byte(
                read_data(final(self).bus_ops().last()),
            ),
            r matches Err(e) ==> e is I2c,
    {
        match self.read_register(BCHG_CHARGE_STATUS) {
            Ok(b) => Ok(ChargerStatus::from_byte(b)),
            Err(e) => Err(e),
        }
    }

    /// Read the charger error reason and the sensor values captured when
    /// the error occurred: one read of each register, decoded bit by bit.
    pub fn get_charger_error_reason_and_sensor_value(&mut self) -> (r: Result<
        (ChargerErrorReason, ChargerSensorValueDuringError),
        NPM1300Error<B::BusError>,
    >)
        ensures
            final(self).beta() == old(self).beta(),
            old(self).bus_ops().is_prefix_of(final(self).bus_ops()),
            r matches Ok(pair) ==> {
                let pre = old(self).bus_ops();
                let post = final(self).bus_ops();
                &&& post.len() == pre.len() + 2
                &&& is_read_of(post[pre.len() as int], BCHG_ERR_REASON)
                &&& is_read_of(post[pre.len() as int + 1], BCHG_ERR_SENSOR)
                &&& pair.0 == ChargerErrorReason::spec_from_byte(read_data(post[pre.len() as int]))
                &&& pair.1 == ChargerSensorValueDuringError::spec_from_byte(
                    read_data(post[pre.len() as int + 1]),
                )
            },
            r matches Err(e) ==> e is I2c,
    {
        let reason = match self.read_register(BCHG_ERR_REASON) {
            Ok(v) => v,
            Err(e) => {
                return Err(e);
            },
        };
        let sensor = match self.read_register(BCHG_ERR_SENSOR) {
            Ok(v) => v,
            Err(e) => {
                return Err(e);
            },
        };
        Ok((ChargerErrorReason::from_byte(reason), ChargerSensorValueDuringError::from_byte(
            sensor,
        )))
    }

    /// Allow or disallow charging while the battery is warm: one full
    /// write of the charger configuration register, whose warm-disable bit
    /// is clear when charging is allowed and set when it is not.
    pub fn set_charge_if_battery_warm(&mut self, enable: bool) -> (r: Result<
        (),
        NPM1300Error<B::BusError>,
    >)
        ensures
            final(self).beta() == old(self).beta(),
            old(self).bus_ops().is_prefix_of(final(self).bus_ops()),
            r is Ok ==> final(self).bus_ops() == old(self).bus_ops().push(
                write_op(BCHG_CONFIG, if enable { 0x00 } else { 0x01 }),
            ),
            r matches Err(e) ==> e is I2c,
    {
        let data: u8 = if enable { 0x00 } else { 0x01 };
        self.write_register(BCHG_CONFIG, data)
    }

    /// Configure an NTC temperature threshold from the desired and the
    /// 25 Celsius reference resistances of the thermistor, failing with
    /// `InvalidNtcThreshold` before any bus access when no 10-bit code
    /// exists for the pair. On success the code's MSB and LSB bytes are
    /// written to the chosen region's register pair.
    pub fn set_ntc_threshold(
        &mut self,
        region: NtcThresholdRegion,
        desired_resistance: u32,
        reference_resistance_25c: u32,
    ) -> (r: Result<(), NPM1300Error<B::BusError>>)
        ensures
            final(self).beta() == old(self).beta(),
            old(self).bus_ops().is_prefix_of(final(self).bus_ops()),
            ntc_threshold_out_of_range(desired_resistance, reference_resistance_25c) ==> r == Err::<
                (),
                NPM1300Error<B::BusError>,
            >(NPM1300Error::InvalidNtcThreshold) && final(self).bus_ops() == old(self).bus_ops(),
            !ntc_threshold_out_of_range(desired_resistance, reference_resistance_25c) ==> {
                let code = spec_ntc_threshold(desired_resistance, reference_resistance_25c) as u16;
                &&& r is Ok ==> final(self).bus_ops() == old(self).bus_ops().push(
                    write_op(region.spec_msb_register(), spec_msb10(code)),
                ).push(write_op(region.spec_lsb_register(), spec_lsb10(code)))
                &&& r matches Err(e) ==> e is I2c
            },
    {
        let threshold = match compute_ntc_threshold(desired_resistance, reference_resistance_25c) {
            Some(t) => t,
            None => {
                return Err(NPM1300Error::InvalidNtcThreshold);
            },
        };
        let (msb, lsb) = split10(threshold);
        let msb_register = region.msb_register();
        let lsb_register = region.lsb_register();
        match self.write_register(msb_register, msb) {
            Ok(()) => {},
            Err(e) => {
                return Err(e);
            },
        }
        self.write_register(lsb_register, lsb)
    }

    /// Read back the configured NTC threshold of a region: reads the MSB
    /// and LSB registers and recomposes the 10-bit code.
    pub fn get_ntc_threshold(&mut self, region: NtcThresholdRegion) -> (r: Result<
        u16,
        NPM1300Error<B::BusError>,
    >)
        ensures
            final(self).beta() == old(self).beta(),
            old(self).bus_ops().is_prefix_of(final(self).bus_ops()),
            r matches Ok(code) ==> {
                let pre = old(self).bus_ops();
                let post = final(self).bus_ops();
                &&& post.len() == pre.len() + 2
                &&& is_read_of(post[pre.len() as int], region.spec_msb_register())
                &&& is_read_of(post[pre.len() as int + 1], region.spec_lsb_register())
                &&& code == spec_compose10(
                    read_data(post[pre.len() as int]),
                    read_data(post[pre.len() as int + 1]),
                )
                &&& code <= 1023
            },
            r matches Err(e) ==> e is I2c,
    {
        let msb_register = region.msb_register();
        let lsb_register = region.lsb_register();
        let msb = match self.read_register(msb_register) {
            Ok(v) => v,
            Err(e) => {
                return Err(e);
            },
        };
        let lsb = match self.read_register(lsb_register) {
            Ok(v) => v,
            Err(e) => {
                return Err(e);
            },
        };
        Ok(compose10(msb, lsb))
    }

    /// Configure a die temperature threshold from a temperature in
    /// Celsius, failing with `InvalidDieTemperatureThreshold` before any
    /// bus access when the temperature lies outside 50..=110. On success
    /// the 10-bit code's MSB and LSB bytes are written to the stop or
    /// resume register pair.
    pub fn set_die_temperature_threshold(
        &mut self,
        threshold_type: DieTemperatureThresholdType,
        temperature_celsius: u16,
    ) -> (r: Result<(), NPM1300Error<B::BusError>>)
        ensures
            final(self).beta() == old(self).beta(),
            old(self).bus_ops().is_prefix_of(final(self).bus_ops()),
            (temperature_celsius < 50 || temperature_celsius > 110) ==> r == Err::<
                (),
                NPM1300Error<B::BusError>,
            >(NPM1300Error::InvalidDieTemperatureThreshold) && final(self).bus_ops() == old(self).bus_ops(),
            50 <= temperature_celsius <= 110 ==> {
                let code = spec_die_temp_code(temperature_celsius) as u16;
                &&& r is Ok ==> final(self).bus_ops() == old(self).bus_ops().push(
                    write_op(threshold_type.spec_msb_register(), spec_msb10(code)),
                ).push(write_op(threshold_type.spec_lsb_register(), spec_lsb10(code)))
                &&& r matches Err(e) ==> e is I2c
            },
    {
        let code = match compute_die_temperature_code(temperature_celsius) {
            Some(c) => c,
            None => {
                return Err(NPM1300Error::InvalidDieTemperatureThreshold);
            },
        };
        let (msb, lsb) = split10(code);
        let msb_register = threshold_type.msb_register();
        let lsb_register = threshold_type.lsb_register();
        match self.write_register(msb_register, msb) {
            Ok(()) => {},
            Err(e) => {
                return Err(e);
            },
        }
        self.write_register(lsb_register, lsb)
    }
}

/// The NTC temperature region an NTC status byte reports, decoded lowest
/// bit first, or `None` when the byte flags no region at all.
pub open spec fn spec_ntc_region_from_status(b: u8) -> Option<NtcThresholdRegion> {
    if b & 0x01 != 0 {
        Some(NtcThresholdRegion::Cold)
    } else if b & 0x02 != 0 {
        Some(NtcThresholdRegion::Cool)
    } else if b & 0x04 != 0 {
        Some(NtcThresholdRegion::Warm)
    } else if b & 0x08 != 0 {
        Some(NtcThresholdRegion::Hot)
    } else {
        None
    }
}

/// Holds when `post` extends `pre` with exactly the bus transactions of a
/// charging current configuration: a read of the enable-set register, then
/// — when its charging bit was set — a disabling read-modify-write, the two
/// current register writes and a re-enabling read-modify-write, or — when
/// it was clear — the two current register writes alone.
pub open spec fn charger_current_trace(pre: Seq<BusOp>, post: Seq<BusOp>, current_ma: u16) -> bool {
    let n = pre.len() as int;
    &&& pre.is_prefix_of(post)
    &&& post.len() > n
    &&& is_read_of(post[n], BCHG_ENABLE_SET)
    &&& if read_data(post[n]) & MASK_CHG_ENABLE != 0 {
        &&& post.len() == n + 7
        &&& is_read_of(post[n + 1], BCHG_ENABLE_CLR)
        &&& post[n + 2] == write_op(
            BCHG_ENABLE_CLR,
            masked_update(read_data(post[n + 1]), MASK_CHG_ENABLE, 0x01),
        )
        &&& post[n + 3] == write_op(BCHG_ISET_MSB, spec_charger_current_msb(current_ma))
        &&& post[n + 4] == write_op(BCHG_ISET_LSB, spec_charger_current_lsb(current_ma))
        &&& is_read_of(post[n + 5], BCHG_ENABLE_SET)
        &&& post[n + 6] == write_op(
            BCHG_ENABLE_SET,
            masked_update(read_data(post[n + 5]), MASK_CHG_ENABLE, 0x01),
        )
    } else {
        &&& post.len() == n + 3
        &&& post[n + 1] == write_op(BCHG_ISET_MSB, spec_charger_current_msb(current_ma))
        &&& post[n + 2] == write_op(BCHG_ISET_LSB, spec_charger_current_lsb(current_ma))
    }
}

} // verus!
