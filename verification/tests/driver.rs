//! End-to-end tests of the driver against a fake bus transport that holds
//! a register map and records every transaction, so call ordering and the
//! exact bytes on the bus can be checked.

use std::cell::RefCell;
use std::collections::HashMap;
use std::rc::Rc;

use npm1300::NPM1300;
use npm1300::NPM1300Error;
use npm1300::adc_types::NtcThermistorType;
use npm1300::bus::{DelayProvider, I2cBus};
use npm1300::charger_types::{
    ChargerTerminationVoltage, DieTemperatureThresholdType, DischargeCurrentLimit,
    NtcThresholdRegion,
};
use npm1300::sysreg_types::{VbusCcComparator, VbusInCurrentLimit};

const DEV: u8 = 0x6B;

#[derive(Debug, Clone, PartialEq, Eq)]
enum Transaction {
    Write(u8, Vec<u8>),
    WriteRead(u8, Vec<u8>, u8),
}

fn wr(addr: u16, data: u8) -> Transaction {
    Transaction::Write(DEV, vec![(addr >> 8) as u8, addr as u8, data])
}

fn rd(addr: u16, data: u8) -> Transaction {
    Transaction::WriteRead(DEV, vec![(addr >> 8) as u8, addr as u8], data)
}

#[derive(Clone)]
struct SharedState {
    regs: Rc<RefCell<HashMap<u16, u8>>>,
    log: Rc<RefCell<Vec<Transaction>>>,
    fail_at: Rc<RefCell<Option<usize>>>,
}

struct FakeBus {
    state: SharedState,
}

impl SharedState {
    fn new() -> SharedState {
        SharedState {
            regs: Rc::new(RefCell::new(HashMap::new())),
            log: Rc::new(RefCell::new(Vec::new())),
            fail_at: Rc::new(RefCell::new(None)),
        }
    }

    fn preload(&self, addr: u16, value: u8) {
        self.regs.borrow_mut().insert(addr, value);
    }

    fn log(&self) -> Vec<Transaction> {
        self.log.borrow().clone()
    }

    fn reg(&self, addr: u16) -> u8 {
        *self.regs.borrow().get(&addr).unwrap_or(&0)
    }

    fn fail_at(&self, n: usize) {
        *self.fail_at.borrow_mut() = Some(n);
    }

    fn should_fail(&self) -> bool {
        match *self.fail_at.borrow() {
            Some(n) => self.log.borrow().len() == n,
            None => false,
        }
    }
}

impl I2cBus for FakeBus {
    type BusError = u8;

    // The ghost transaction log is specification-only; it has no runtime
    // representation and is never called.
    fn ops(&self) -> vstd::seq::Seq<npm1300::bus::BusOp> {
        panic!()
    }

    fn write(&mut self, dev: u8, bytes: &[u8]) -> Result<(), u8> {
        if self.state.should_fail() {
            return Err(0x55);
        }
        assert_eq!(bytes.len(), 3, "register writes carry a 2-byte address and 1 data byte");
        let addr = ((bytes[0] as u16) << 8) | bytes[1] as u16;
        self.state.regs.borrow_mut().insert(addr, bytes[2]);
        self.state.log.borrow_mut().push(Transaction::Write(dev, bytes.to_vec()));
        Ok(())
    }

    fn write_read(&mut self, dev: u8, out: &[u8]) -> Result<u8, u8> {
        if self.state.should_fail() {
            return Err(0x55);
        }
        assert_eq!(out.len(), 2, "register reads address with 2 bytes");
        let addr = ((out[0] as u16) << 8) | out[1] as u16;
        let value = *self.state.regs.borrow().get(&addr).unwrap_or(&0);
        self.state.log.borrow_mut().push(Transaction::WriteRead(dev, out.to_vec(), value));
        Ok(value)
    }
}

struct FakeDelay;

impl DelayProvider for FakeDelay {
    fn delay_us(&mut self, _us: u32) {}

    fn delay_ms(&mut self, _ms: u32) {}
}

fn device() -> (NPM1300<FakeBus, FakeDelay>, SharedState) {
    let state = SharedState::new();
    let bus = FakeBus { state: state.clone() };
    (NPM1300::new(bus, FakeDelay), state)
}

// Register addresses used by the assertions below.
const BCHG_ENABLE_SET: u16 = 0x0304;
const BCHG_ENABLE_CLR: u16 = 0x0305;
const BCHG_DISABLE_SET: u16 = 0x0306;
const BCHG_ISET_MSB: u16 = 0x0308;
const BCHG_ISET_LSB: u16 = 0x0309;
const BCHG_ISET_DISCHARGE_MSB: u16 = 0x030A;
const BCHG_ISET_DISCHARGE_LSB: u16 = 0x030B;
const BCHG_VTERM: u16 = 0x030C;
const NTC_COLD: u16 = 0x0310;
const NTC_COLD_LSB: u16 = 0x0311;
const NTC_WARM: u16 = 0x0314;
const NTC_WARM_LSB: u16 = 0x0315;
const DIE_TEMP_STOP: u16 = 0x0318;
const DIE_TEMP_STOP_LSB: u16 = 0x0319;
const NTC_STATUS: u16 = 0x0332;
const BCHG_CHARGE_STATUS: u16 = 0x0334;
const TASK_VBAT_MEASURE: u16 = 0x0500;
const TASK_NTC_MEASURE: u16 = 0x0501;
const TASK_VSYS_MEASURE: u16 = 0x0503;
const ADC_CONFIG: u16 = 0x0509;
const ADC_NTC_R_SEL: u16 = 0x050A;
const ADC_DEL_TIM_CONF: u16 = 0x050D;
const TASK_DELAYED_VBAT_MEASURE: u16 = 0x0508;
const ADC_IBAT_MEAS_STATUS: u16 = 0x0510;
const ADC_VBAT_RESULT_MSB: u16 = 0x0511;
const ADC_NTC_RESULT_MSB: u16 = 0x0512;
const ADC_VSYS_RESULT_MSB: u16 = 0x0514;
const ADC_GP0_RESULT_LSBS: u16 = 0x0515;
const ADC_VBAT2_RESULT_MSB: u16 = 0x0518;
const ADC_GP1_RESULT_LSBS: u16 = 0x051A;
const TASK_LDSW1_SET: u16 = 0x0800;
const TASK_LDSW2_CLR: u16 = 0x0803;
const LDSW_STATUS: u16 = 0x0804;
const TASK_UPDATE_ILIM_SW: u16 = 0x0200;
const VBUSIN_ILIM0: u16 = 0x0201;
const USBC_DETECT_STATUS: u16 = 0x0205;
const VBUSIN_STATUS: u16 = 0x0207;
const EVENTS_VBUSIN0_SET: u16 = 0x0016;
const EVENTS_ADC_SET: u16 = 0x0002;

#[test]
fn measure_vbat_call_order_on_blank_device() {
    // Every register reads as zero: the measurement must issue exactly the
    // burst-disabling read-modify-write, the task trigger, and the two
    // result reads, in that order, and the result comes from those bytes.
    let (mut dev, state) = device();
    let raw = dev.measure_vbat().unwrap();
    assert_eq!(raw, 0);
    assert_eq!(
        state.log(),
        vec![
            rd(ADC_CONFIG, 0x00),
            wr(ADC_CONFIG, 0x00),
            wr(TASK_VBAT_MEASURE, 0x01),
            rd(ADC_VBAT_RESULT_MSB, 0x00),
            rd(ADC_GP0_RESULT_LSBS, 0x00),
        ],
    );
}

#[test]
fn measure_vbat_composes_result_bytes() {
    let (mut dev, state) = device();
    state.preload(ADC_VBAT_RESULT_MSB, 128);
    state.preload(ADC_GP0_RESULT_LSBS, 0x02);
    let raw = dev.measure_vbat().unwrap();
    assert_eq!(raw, (128 << 2) | 2);
}

#[test]
fn measure_vbat_propagates_bus_error() {
    let (mut dev, state) = device();
    state.fail_at(2);
    match dev.measure_vbat() {
        Err(NPM1300Error::I2c(code)) => assert_eq!(code, 0x55),
        other => panic!("expected a transport error, got {:?}", other),
    }
    // The failed transaction is not recorded, and nothing follows it.
    assert_eq!(state.log().len(), 2);
}

#[test]
fn modify_preserves_unrelated_bits() {
    // The ADC configuration register holds the auto-enable bit and the
    // burst bit side by side: clearing the burst bit must leave every
    // other bit of the last-read byte unchanged in the written byte.
    let (mut dev, state) = device();
    state.preload(ADC_CONFIG, 0xAB);
    dev.configure_vbat_burst_measurement(false).unwrap();
    assert_eq!(state.log(), vec![rd(ADC_CONFIG, 0xAB), wr(ADC_CONFIG, 0xA9)]);
    assert_eq!(state.reg(ADC_CONFIG), 0xA9);
}

#[test]
fn modify_sets_only_its_own_field() {
    let (mut dev, state) = device();
    state.preload(ADC_CONFIG, 0xAA);
    dev.configure_auto_vbat_measurement(true).unwrap();
    assert_eq!(state.log(), vec![rd(ADC_CONFIG, 0xAA), wr(ADC_CONFIG, 0xAB)]);
}

#[test]
fn set_charger_current_too_high() {
    let (mut dev, state) = device();
    match dev.set_charger_current(801) {
        Err(NPM1300Error::ChargerCurrentTooHigh(ma)) => assert_eq!(ma, 801),
        other => panic!("expected ChargerCurrentTooHigh, got {:?}", other),
    }
    match dev.set_charger_current(802) {
        Err(NPM1300Error::ChargerCurrentTooHigh(ma)) => assert_eq!(ma, 802),
        other => panic!("expected ChargerCurrentTooHigh, got {:?}", other),
    }
    // Validation happens before any bus access.
    assert_eq!(state.log(), vec![]);
}

#[test]
fn set_charger_current_800_writes_msb_200_lsb_0() {
    let (mut dev, state) = device();
    dev.set_charger_current(800).unwrap();
    assert_eq!(
        state.log(),
        vec![rd(BCHG_ENABLE_SET, 0x00), wr(BCHG_ISET_MSB, 200), wr(BCHG_ISET_LSB, 0)],
    );
}

#[test]
fn set_charger_current_2_writes_msb_0_lsb_1() {
    let (mut dev, state) = device();
    dev.set_charger_current(2).unwrap();
    assert_eq!(state.reg(BCHG_ISET_MSB), 0);
    assert_eq!(state.reg(BCHG_ISET_LSB), 1);
}

#[test]
fn set_charger_current_disables_and_restores_charging() {
    let (mut dev, state) = device();
    state.preload(BCHG_ENABLE_SET, 0x01);
    dev.set_charger_current(300).unwrap();
    assert_eq!(
        state.log(),
        vec![
            rd(BCHG_ENABLE_SET, 0x01),
            rd(BCHG_ENABLE_CLR, 0x00),
            wr(BCHG_ENABLE_CLR, 0x01),
            wr(BCHG_ISET_MSB, 75),
            wr(BCHG_ISET_LSB, 0),
            rd(BCHG_ENABLE_SET, 0x01),
            wr(BCHG_ENABLE_SET, 0x01),
        ],
    );
}

#[test]
fn charger_current_config_round_trip() {
    let (mut dev, _state) = device();
    for ma in vec![0u16, 2, 4, 6, 100, 300, 798, 800] {
        dev.set_charger_current(ma).unwrap();
        assert_eq!(dev.get_charger_config_current().unwrap(), ma);
    }
}

#[test]
fn set_ntc_threshold_half_ratio_writes_512() {
    let (mut dev, state) = device();
    dev.set_ntc_threshold(NtcThresholdRegion::Cold, 10000, 10000).unwrap();
    assert_eq!(state.log(), vec![wr(NTC_COLD, 128), wr(NTC_COLD_LSB, 0)]);
}

#[test]
fn set_ntc_threshold_rejects_out_of_range() {
    let (mut dev, state) = device();
    match dev.set_ntc_threshold(NtcThresholdRegion::Cool, 2047000, 1000) {
        Err(NPM1300Error::InvalidNtcThreshold) => {},
        other => panic!("expected InvalidNtcThreshold, got {:?}", other),
    }
    assert_eq!(state.log(), vec![]);
}

#[test]
fn ntc_threshold_round_trip_through_registers() {
    let (mut dev, _state) = device();
    dev.set_ntc_threshold(NtcThresholdRegion::Warm, 10000, 10000).unwrap();
    assert_eq!(dev.get_ntc_threshold(NtcThresholdRegion::Warm).unwrap(), 512);
}

#[test]
fn get_ntc_threshold_reads_region_registers() {
    let (mut dev, state) = device();
    state.preload(NTC_WARM, 128);
    state.preload(NTC_WARM_LSB, 2);
    assert_eq!(dev.get_ntc_threshold(NtcThresholdRegion::Warm).unwrap(), 514);
    assert_eq!(state.log(), vec![rd(NTC_WARM, 128), rd(NTC_WARM_LSB, 2)]);
}

#[test]
fn die_temperature_threshold_rejects_49() {
    let (mut dev, state) = device();
    match dev.set_die_temperature_threshold(DieTemperatureThresholdType::Stop, 49) {
        Err(NPM1300Error::InvalidDieTemperatureThreshold) => {},
        other => panic!("expected InvalidDieTemperatureThreshold, got {:?}", other),
    }
    assert_eq!(state.log(), vec![]);
}

#[test]
fn die_temperature_threshold_50_writes_435() {
    let (mut dev, state) = device();
    dev.set_die_temperature_threshold(DieTemperatureThresholdType::Stop, 50).unwrap();
    // round((394.67 - 50) / 0.7926) == 435 == (108 << 2) | 3
    assert_eq!(state.log(), vec![wr(DIE_TEMP_STOP, 108), wr(DIE_TEMP_STOP_LSB, 3)]);
}

#[test]
fn calculate_ibat_discharge_scales_negative() {
    // Discharging at the 200 mA limit with raw code 512 reads half the
    // full scale: -100000 microamps, that is -100.0 mA.
    let (mut dev, state) = device();
    state.preload(ADC_IBAT_MEAS_STATUS, 0x04);
    state.preload(ADC_VBAT2_RESULT_MSB, 128);
    state.preload(ADC_GP1_RESULT_LSBS, 0x00);
    let microamps = dev.calculate_ibat(DischargeCurrentLimit::Low, 800).unwrap();
    assert_eq!(microamps, -100_000);
    assert_eq!((microamps as f64) / 1000.0, -100.0);
    assert_eq!(
        state.log(),
        vec![
            wr(TASK_VBAT_MEASURE, 0x01),
            rd(ADC_IBAT_MEAS_STATUS, 0x04),
            rd(ADC_VBAT2_RESULT_MSB, 128),
            rd(ADC_GP1_RESULT_LSBS, 0x00),
        ],
    );
}

#[test]
fn calculate_ibat_charge_scales_positive() {
    let (mut dev, state) = device();
    state.preload(ADC_IBAT_MEAS_STATUS, 0x0F);
    state.preload(ADC_VBAT2_RESULT_MSB, 128);
    let microamps = dev.calculate_ibat(DischargeCurrentLimit::Low, 800).unwrap();
    assert_eq!(microamps, 512 * 800 * 1000 / 1024);
}

#[test]
fn calculate_ibat_gp1_uses_third_slot_bits() {
    // The third burst slot's two low bits sit at bits 4 and 5 of the
    // shared LSB register.
    let (mut dev, state) = device();
    state.preload(ADC_IBAT_MEAS_STATUS, 0x04);
    state.preload(ADC_VBAT2_RESULT_MSB, 0);
    state.preload(ADC_GP1_RESULT_LSBS, 0x30);
    let microamps = dev.calculate_ibat(DischargeCurrentLimit::High, 800).unwrap();
    assert_eq!(microamps, -(3 * 1000 * 1000 / 1024));
}

#[test]
fn calculate_ibat_invalid_measurement_is_zero() {
    let (mut dev, state) = device();
    state.preload(ADC_IBAT_MEAS_STATUS, 0x10);
    assert_eq!(dev.calculate_ibat(DischargeCurrentLimit::Low, 800).unwrap(), 0);
    // No result registers are touched.
    assert_eq!(state.log().len(), 2);
}

#[test]
fn calculate_ibat_undocumented_mode_is_zero() {
    let (mut dev, state) = device();
    state.preload(ADC_IBAT_MEAS_STATUS, 0x08);
    state.preload(ADC_VBAT2_RESULT_MSB, 128);
    assert_eq!(dev.calculate_ibat(DischargeCurrentLimit::Low, 800).unwrap(), 0);
    let (mut dev2, state2) = device();
    state2.preload(ADC_IBAT_MEAS_STATUS, 0x03);
    state2.preload(ADC_VBAT2_RESULT_MSB, 128);
    assert_eq!(dev2.calculate_ibat(DischargeCurrentLimit::Low, 800).unwrap(), 0);
}

#[test]
fn measure_delayed_vbat_validates_delay() {
    let (mut dev, state) = device();
    for bad in vec![0u16, 2, 3, 5, 513, 515, 516, 1000] {
        match dev.measure_delayed_vbat(bad) {
            Err(NPM1300Error::InvalidVbatMeasurementDelayValue) => {},
            other => panic!("delay {} should be invalid, got {:?}", bad, other),
        }
    }
    assert_eq!(state.log(), vec![]);
}

#[test]
fn measure_delayed_vbat_writes_delay_register() {
    let (mut dev, state) = device();
    dev.measure_delayed_vbat(4).unwrap();
    assert_eq!(
        state.log(),
        vec![
            wr(ADC_DEL_TIM_CONF, 0),
            wr(TASK_DELAYED_VBAT_MEASURE, 0x01),
            rd(ADC_VBAT_RESULT_MSB, 0x00),
            rd(ADC_GP0_RESULT_LSBS, 0x00),
        ],
    );
    let (mut dev2, state2) = device();
    dev2.measure_delayed_vbat(514).unwrap();
    assert_eq!(state2.reg(ADC_DEL_TIM_CONF), 255);
}

#[test]
fn measure_vsys_issues_task_then_reads() {
    let (mut dev, state) = device();
    state.preload(ADC_VSYS_RESULT_MSB, 0x40);
    state.preload(ADC_GP0_RESULT_LSBS, 0xC0);
    let raw = dev.measure_vsys().unwrap();
    // The VSYS low bits sit at bits 6 and 7 of the shared LSB register.
    assert_eq!(raw, (0x40 << 2) | 3);
    assert_eq!(
        state.log(),
        vec![
            wr(TASK_VSYS_MEASURE, 0x01),
            rd(ADC_VSYS_RESULT_MSB, 0x40),
            rd(ADC_GP0_RESULT_LSBS, 0xC0),
        ],
    );
}

#[test]
fn measure_ntc_requires_beta() {
    let (mut dev, state) = device();
    match dev.measure_ntc() {
        Err(NPM1300Error::InvalidNtcBeta) => {},
        other => panic!("expected InvalidNtcBeta, got {:?}", other),
    }
    // The task trigger happened, but the result reads were short-circuited
    // by the missing beta value.
    assert_eq!(state.log(), vec![wr(TASK_NTC_MEASURE, 0x01)]);
}

#[test]
fn measure_ntc_with_beta_returns_raw_code() {
    let (mut dev, state) = device();
    dev.configure_ntc_resistance(NtcThermistorType::Ntc10K, Some(3380)).unwrap();
    state.preload(ADC_NTC_RESULT_MSB, 100);
    state.preload(ADC_GP0_RESULT_LSBS, 0x04);
    let raw = dev.measure_ntc().unwrap();
    // The NTC low bits sit at bits 2 and 3 of the shared LSB register.
    assert_eq!(raw, (100 << 2) | 1);
    assert_eq!(state.log()[1], wr(TASK_NTC_MEASURE, 0x01));
}

#[test]
fn configure_ntc_resistance_requires_beta_for_real_thermistor() {
    let (mut dev, state) = device();
    match dev.configure_ntc_resistance(NtcThermistorType::Ntc10K, None) {
        Err(NPM1300Error::InvalidNtcBeta) => {},
        other => panic!("expected InvalidNtcBeta, got {:?}", other),
    }
    // Validation precedes any bus access: nothing was written.
    assert_eq!(state.log(), vec![]);
    assert_eq!(dev.get_ntc_beta(), None);
}

#[test]
fn configure_ntc_resistance_writes_selection_code() {
    let (mut dev, state) = device();
    dev.configure_ntc_resistance(NtcThermistorType::Ntc10K, Some(3380)).unwrap();
    assert_eq!(state.log(), vec![wr(ADC_NTC_R_SEL, 1)]);
}

#[test]
fn configure_ntc_resistance_stores_beta() {
    let (mut dev, _state) = device();
    assert_eq!(dev.get_ntc_beta(), None);
    dev.configure_ntc_resistance(NtcThermistorType::Ntc47K, Some(4050)).unwrap();
    assert_eq!(dev.get_ntc_beta(), Some(4050));
    // Selecting no thermistor does not disturb the stored beta.
    dev.configure_ntc_resistance(NtcThermistorType::NoThermistor, None).unwrap();
    assert_eq!(dev.get_ntc_beta(), Some(4050));
}

#[test]
fn discharge_current_limit_registers() {
    let (mut dev, state) = device();
    dev.set_discharge_current_limit(DischargeCurrentLimit::Low).unwrap();
    assert_eq!(
        state.log(),
        vec![wr(BCHG_ISET_DISCHARGE_MSB, 42), wr(BCHG_ISET_DISCHARGE_LSB, 0)],
    );
    assert_eq!(dev.get_discharge_current_limit().unwrap(), DischargeCurrentLimit::Low);
    dev.set_discharge_current_limit(DischargeCurrentLimit::High).unwrap();
    assert_eq!(dev.get_discharge_current_limit().unwrap(), DischargeCurrentLimit::High);
}

#[test]
fn discharge_current_limit_rejects_unknown_pair() {
    let (mut dev, state) = device();
    state.preload(BCHG_ISET_DISCHARGE_MSB, 5);
    state.preload(BCHG_ISET_DISCHARGE_LSB, 0);
    match dev.get_discharge_current_limit() {
        Err(NPM1300Error::InvalidDischargeCurrentValue { msb, lsb }) => {
            assert_eq!((msb, lsb), (5, 0));
        },
        other => panic!("expected InvalidDischargeCurrentValue, got {:?}", other),
    }
}

#[test]
fn charging_enable_control() {
    let (mut dev, state) = device();
    assert!(!dev.is_charging_enabled().unwrap());
    dev.enable_battery_charging().unwrap();
    assert_eq!(state.reg(BCHG_ENABLE_SET), 0x01);
    assert!(dev.is_charging_enabled().unwrap());
    dev.disable_battery_charging().unwrap();
    assert_eq!(state.reg(BCHG_ENABLE_CLR), 0x01);
}

#[test]
fn recharge_and_ntc_disable_bits() {
    let (mut dev, state) = device();
    assert!(dev.is_battery_recharge_enabled().unwrap());
    dev.disable_battery_recharge().unwrap();
    assert_eq!(state.reg(BCHG_DISABLE_SET), 0x01);
    assert!(!dev.is_battery_recharge_enabled().unwrap());
    assert!(!dev.is_ntc_measurement_ignored().unwrap());
    dev.ignore_ntc_measurements().unwrap();
    assert_eq!(state.reg(BCHG_DISABLE_SET), 0x03);
    assert!(dev.is_ntc_measurement_ignored().unwrap());
}

#[test]
fn charger_status_decodes_bits() {
    let (mut dev, state) = device();
    state.preload(BCHG_CHARGE_STATUS, 0x55);
    let status = dev.get_charger_status().unwrap();
    assert!(status.is_battery_present);
    assert!(!status.is_charging_complete);
    assert!(status.is_trickle_charging);
    assert!(!status.is_constant_current_charging);
    assert!(status.is_constant_voltage_charging);
    assert!(!status.needs_recharge);
    assert!(status.is_charging_paused_by_die_temperature);
    assert!(!status.is_supplement_mode_active);
}

#[test]
fn ntc_region_decodes_lowest_bit_first() {
    let (mut dev, state) = device();
    state.preload(NTC_STATUS, 0x04);
    assert_eq!(dev.get_ntc_current_region().unwrap(), NtcThresholdRegion::Warm);
    state.preload(NTC_STATUS, 0x03);
    assert_eq!(dev.get_ntc_current_region().unwrap(), NtcThresholdRegion::Cold);
}

#[test]
fn ntc_region_rejects_empty_status() {
    let (mut dev, state) = device();
    state.preload(NTC_STATUS, 0x00);
    match dev.get_ntc_current_region() {
        Err(NPM1300Error::UnexpectedHardwareState) => {},
        other => panic!("expected UnexpectedHardwareState, got {:?}", other),
    }
}

#[test]
fn termination_voltage_writes_code() {
    let (mut dev, state) = device();
    dev.set_normal_temperature_termination_voltage(ChargerTerminationVoltage::V4_20).unwrap();
    assert_eq!(state.log(), vec![wr(BCHG_VTERM, 8)]);
}

#[test]
fn ldsw_control_and_status() {
    let (mut dev, state) = device();
    dev.enable_ldsw1().unwrap();
    dev.disable_ldsw2().unwrap();
    assert_eq!(
        state.log(),
        vec![wr(TASK_LDSW1_SET, 0x01), wr(TASK_LDSW2_CLR, 0x01)],
    );
    state.preload(LDSW_STATUS, 0x05);
    let status = dev.get_ldsw_status().unwrap();
    assert!(status.ldsw1_powered_as_switch);
    assert!(!status.ldsw1_powered_as_ldo);
    assert!(status.ldsw2_powered_as_switch);
    assert!(!status.ldsw2_powered_as_ldo);
}

#[test]
fn vbus_current_limit_switches_after_write() {
    let (mut dev, state) = device();
    dev.set_vbus_in_current_limit(VbusInCurrentLimit::Ma500).unwrap();
    assert_eq!(
        state.log(),
        vec![wr(VBUSIN_ILIM0, 5), wr(TASK_UPDATE_ILIM_SW, 0x01)],
    );
}

#[test]
fn vbus_status_decodes() {
    let (mut dev, state) = device();
    state.preload(VBUSIN_STATUS, 0x21);
    let status = dev.get_vbus_in_status().unwrap();
    assert!(status.is_vbus_in_present);
    assert!(!status.is_vbus_in_current_limit_active);
    assert!(status.is_vbus_out_active);
    state.preload(USBC_DETECT_STATUS, 0x09);
    let cc = dev.get_vbus_cc_status().unwrap();
    assert_eq!(cc.vbusin_cc1_status, VbusCcComparator::DefaultUsb);
    assert_eq!(cc.vbusin_cc2_status, VbusCcComparator::Ma1500);
}

#[test]
fn event_mask_writes() {
    let (mut dev, state) = device();
    let mask = npm1300::mainreg_types::Vbusin0EventMask {
        vbus_detected: true,
        vbus_removed: false,
        overvoltage_detected: true,
        overvoltage_removed: false,
        undervoltage_detected: false,
        undervoltage_removed: true,
    };
    dev.set_vbusin0_event_mask(mask).unwrap();
    dev.set_adc_event_mask(0x3F).unwrap();
    assert_eq!(
        state.log(),
        vec![wr(EVENTS_VBUSIN0_SET, 0x25), wr(EVENTS_ADC_SET, 0x3F)],
    );
}

#[test]
fn measure_vbat_burst_reads_all_slots() {
    let (mut dev, state) = device();
    state.preload(0x0516, 10);
    state.preload(0x0517, 20);
    state.preload(0x0518, 30);
    state.preload(0x0519, 40);
    // Slot fields of the shared LSB register, lowest slot first: 0, 1, 2, 3.
    state.preload(ADC_GP1_RESULT_LSBS, 0b11_10_01_00);
    let (v0, v1, v2, v3) = dev.measure_vbat_burst().unwrap();
    // Each slot takes its own two-bit field of the shared LSB register.
    assert_eq!(v0, (10 << 2) | 0);
    assert_eq!(v1, (20 << 2) | 1);
    assert_eq!(v2, (30 << 2) | 2);
    assert_eq!(v3, (40 << 2) | 3);
    // Burst enable read-modify-write, task trigger, then four read pairs.
    assert_eq!(state.log().len(), 11);
    assert_eq!(state.log()[1], wr(ADC_CONFIG, 0x02));
}

#[test]
fn clear_charger_errors_dispatches_both_tasks() {
    let (mut dev, state) = device();
    dev.clear_charger_errors().unwrap();
    assert_eq!(state.log(), vec![wr(0x0301, 0x01), wr(0x0300, 0x01)]);
}

#[test]
fn die_temperature_measurement_uses_bits_4_and_5() {
    let (mut dev, state) = device();
    state.preload(0x0513, 0x10);
    state.preload(ADC_GP0_RESULT_LSBS, 0x20);
    let raw = dev.measure_die_temperature().unwrap();
    assert_eq!(raw, (0x10 << 2) | 2);
}

#[test]
fn auto_measurement_configuration_round_trip() {
    let (mut dev, _state) = device();
    dev.configure_auto_vbat_measurement(true).unwrap();
    assert_eq!(
        dev.get_vbat_auto_measurement_configuration().unwrap(),
        npm1300::adc_types::Vbatautoenable::Autoenable,
    );
    dev.configure_auto_vbat_measurement(false).unwrap();
    assert_eq!(
        dev.get_vbat_auto_measurement_configuration().unwrap(),
        npm1300::adc_types::Vbatautoenable::Noauto,
    );
    dev.configure_vbat_burst_measurement(true).unwrap();
    assert_eq!(
        dev.get_vbat_burst_measurement_configuration().unwrap(),
        npm1300::adc_types::Vbatburstenable::Burstmode,
    );
}

#[test]
fn auto_ntc_interval_updates_timer() {
    let (mut dev, state) = device();
    dev.configure_auto_ntc_measurement(npm1300::adc_types::Ntcautotim::Ms1024).unwrap();
    assert_eq!(
        state.log(),
        vec![rd(0x050B, 0x00), wr(0x050B, 0x03), wr(0x050C, 0x01)],
    );
    assert_eq!(
        dev.get_ntc_auto_measurement_configuration().unwrap(),
        npm1300::adc_types::Ntcautotim::Ms1024,
    );
}

#[test]
fn auto_die_temperature_interval_keeps_ntc_field() {
    let (mut dev, state) = device();
    state.preload(0x050B, 0x03);
    dev.configure_die_temperature_auto_measurement_interval(
        npm1300::adc_types::Tempautotim::Ms32,
    )
    .unwrap();
    // The NTC interval bits are preserved by the read-modify-write.
    assert_eq!(state.reg(0x050B), 0x0F);
    assert_eq!(
        dev.get_die_temperature_auto_measurement_configuration().unwrap(),
        npm1300::adc_types::Tempautotim::Ms32,
    );
}

#[test]
fn auto_ibat_measurement_enable() {
    let (mut dev, state) = device();
    dev.configure_auto_ibat_measurement(true).unwrap();
    assert_eq!(state.reg(0x0524), 0x01);
    dev.configure_auto_ibat_measurement(false).unwrap();
    assert_eq!(state.reg(0x0524), 0x00);
}

#[test]
fn vbat_delay_configuration_getter() {
    let (mut dev, state) = device();
    state.preload(ADC_DEL_TIM_CONF, 0x42);
    assert_eq!(dev.get_vbat_delay_configuration().unwrap(), 0x42);
}

#[test]
fn charger_error_reason_and_sensor_decode() {
    let (mut dev, state) = device();
    state.preload(0x0336, 0x41);
    state.preload(0x0337, 0x82);
    let (reason, sensor) = dev.get_charger_error_reason_and_sensor_value().unwrap();
    assert!(reason.ntc_sensor_error);
    assert!(!reason.vbat_sensor_error);
    assert!(reason.trickle_timeout_error);
    assert!(!sensor.sensor_ntc_cold);
    assert!(sensor.sensor_ntc_cool);
    assert!(sensor.sensor_vbat_low);
}

#[test]
fn full_charge_in_cool_temp_control() {
    let (mut dev, state) = device();
    assert!(!dev.is_full_charge_current_in_cool_temp_enabled().unwrap());
    dev.enable_battery_charger_full_charge_in_cool_temp().unwrap();
    assert_eq!(state.reg(BCHG_ENABLE_SET), 0x02);
    assert!(dev.is_full_charge_current_in_cool_temp_enabled().unwrap());
    dev.disable_battery_charger_full_charge_in_cool_temp().unwrap();
    assert_eq!(state.reg(BCHG_ENABLE_CLR), 0x02);
}

#[test]
fn charge_if_battery_warm_writes_config() {
    let (mut dev, state) = device();
    dev.set_charge_if_battery_warm(true).unwrap();
    assert_eq!(state.log(), vec![wr(0x033C, 0x00)]);
    dev.set_charge_if_battery_warm(false).unwrap();
    assert_eq!(state.reg(0x033C), 0x01);
}

#[test]
fn trickle_and_termination_writes() {
    let (mut dev, state) = device();
    dev.set_trickle_level(npm1300::charger_types::ChargerTrickleLevelSelect::V2_5).unwrap();
    dev.set_termination_current_level(
        npm1300::charger_types::ChargerTerminationCurrentLevelSelect::Sel20,
    )
    .unwrap();
    dev.set_warm_temperature_termination_voltage(ChargerTerminationVoltage::V4_00).unwrap();
    assert_eq!(
        state.log(),
        vec![wr(0x030E, 0x01), wr(0x030F, 0x01), wr(0x030D, 0x04)],
    );
}

#[test]
fn clear_charger_safety_timer_dispatches_task() {
    let (mut dev, state) = device();
    dev.clear_charger_safety_timer().unwrap();
    assert_eq!(state.log(), vec![wr(0x0302, 0x01)]);
}

#[test]
fn discharge_limit_and_die_temperature_flags() {
    let (mut dev, state) = device();
    assert!(!dev.get_discharge_current_limit_active().unwrap());
    state.preload(0x032D, 0x01);
    assert!(dev.get_discharge_current_limit_active().unwrap());
    assert!(!dev.is_die_temperature_above_charging_threshold().unwrap());
    state.preload(0x0333, 0x01);
    assert!(dev.is_die_temperature_above_charging_threshold().unwrap());
}

#[test]
fn ntc_resistance_configuration_round_trip() {
    let (mut dev, _state) = device();
    dev.configure_ntc_resistance(NtcThermistorType::Ntc100K, Some(4250)).unwrap();
    assert_eq!(
        dev.get_ntc_resistance_configuration().unwrap(),
        NtcThermistorType::Ntc100K,
    );
}

#[test]
fn ntc_resistance_configuration_rejects_unknown_code() {
    let (mut dev, state) = device();
    state.preload(ADC_NTC_R_SEL, 0x07);
    match dev.get_ntc_resistance_configuration() {
        Err(NPM1300Error::UnexpectedHardwareState) => {},
        other => panic!("expected UnexpectedHardwareState, got {:?}", other),
    }
}

#[test]
fn vbat_and_die_temperature_result_getters() {
    let (mut dev, state) = device();
    state.preload(ADC_VBAT_RESULT_MSB, 255);
    state.preload(ADC_GP0_RESULT_LSBS, 0x03);
    assert_eq!(dev.get_vbat_measurement_result().unwrap(), 1023);
    state.preload(0x0513, 0x01);
    state.preload(ADC_GP0_RESULT_LSBS, 0x10);
    assert_eq!(dev.get_die_temperature_measurement_result().unwrap(), (1 << 2) | 1);
}

#[test]
fn vbat_burst_result_getter_uses_slot_register() {
    let (mut dev, state) = device();
    state.preload(0x0517, 7);
    // Slot 1's two low bits sit at bits 2 and 3 of the shared register.
    state.preload(ADC_GP1_RESULT_LSBS, 0x04);
    let raw = dev.get_vbat_burst_measurement_result(1).unwrap();
    assert_eq!(raw, (7 << 2) | 1);
    assert_eq!(state.log(), vec![rd(0x0517, 7), rd(ADC_GP1_RESULT_LSBS, 0x04)]);
}

#[test]
fn shphld_and_group_event_registers() {
    let (mut dev, state) = device();
    dev.set_shphld_event().unwrap();
    dev.clear_shphld_event().unwrap();
    dev.enable_shphld_interrupt().unwrap();
    dev.disable_shphld_interrupt().unwrap();
    dev.set_bcharger1_event_mask(0xAA).unwrap();
    dev.enable_gpio_interrupts(0x1F).unwrap();
    assert_eq!(
        state.log(),
        vec![
            wr(0x0012, 0x01),
            wr(0x0013, 0x01),
            wr(0x0014, 0x01),
            wr(0x0015, 0x01),
            wr(0x000A, 0xAA),
            wr(0x0020, 0x1F),
        ],
    );
}

#[test]
fn vbusin1_event_mask_bits() {
    let (mut dev, state) = device();
    let mask = npm1300::mainreg_types::Vbusin1EventMask {
        thermal_warning_detected: false,
        thermal_warning_removed: true,
        thermal_shutdown_detected: false,
        thermal_shutdown_removed: false,
        cc1_state_change: true,
        cc2_state_change: true,
    };
    dev.enable_vbusin1_interrupts(mask).unwrap();
    assert_eq!(state.log(), vec![wr(0x001C, 0x32)]);
}

#[test]
fn vbus_startup_limit_and_suspend() {
    let (mut dev, state) = device();
    dev.set_vbus_in_startup_current_limit(VbusInCurrentLimit::Ma100).unwrap();
    dev.set_vbus_mode(true).unwrap();
    dev.set_vbus_mode(false).unwrap();
    assert_eq!(
        state.log(),
        vec![wr(0x0202, 0x01), wr(0x0203, 0x01), wr(0x0203, 0x00)],
    );
}

#[test]
fn new_device_has_no_beta() {
    let (dev, state) = device();
    assert_eq!(dev.get_ntc_beta(), None);
    assert_eq!(state.log(), vec![]);
}
