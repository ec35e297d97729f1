//! The 16-bit register address space of the device, one named constant per
//! register, grouped by block, plus the field masks used by
//! read-modify-write operations and the one-shot task trigger value.

use vstd::prelude::*;

verus! {

/// Value written to a task register to trigger its one-shot action.
pub const TASK_TRIGGER: u8 = 0x01;

// MAIN block: event latches and interrupt enables, each with a
// write-1-to-set and a write-1-to-clear register.
pub const EVENTS_ADC_SET: u16 = 0x0002;
pub const EVENTS_ADC_CLR: u16 = 0x0003;
pub const INTEN_EVENTS_ADC_SET: u16 = 0x0004;
pub const INTEN_EVENTS_ADC_CLR: u16 = 0x0005;
pub const EVENTS_BCHARGER0_SET: u16 = 0x0006;
pub const EVENTS_BCHARGER0_CLR: u16 = 0x0007;
pub const INTEN_EVENTS_BCHARGER0_SET: u16 = 0x0008;
pub const INTEN_EVENTS_BCHARGER0_CLR: u16 = 0x0009;
pub const EVENTS_BCHARGER1_SET: u16 = 0x000A;
pub const EVENTS_BCHARGER1_CLR: u16 = 0x000B;
pub const INTEN_EVENTS_BCHARGER1_SET: u16 = 0x000C;
pub const INTEN_EVENTS_BCHARGER1_CLR: u16 = 0x000D;
pub const EVENTS_BCHARGER2_SET: u16 = 0x000E;
pub const EVENTS_BCHARGER2_CLR: u16 = 0x000F;
pub const INTEN_EVENTS_BCHARGER2_SET: u16 = 0x0010;
pub const INTEN_EVENTS_BCHARGER2_CLR: u16 = 0x0011;
pub const EVENTS_SHPHLD_SET: u16 = 0x0012;
pub const EVENTS_SHPHLD_CLR: u16 = 0x0013;
pub const INTEN_EVENTS_SHPHLD_SET: u16 = 0x0014;
pub const INTEN_EVENTS_SHPHLD_CLR: u16 = 0x0015;
pub const EVENTS_VBUSIN0_SET: u16 = 0x0016;
pub const EVENTS_VBUSIN0_CLR: u16 = 0x0017;
pub const INTEN_EVENTS_VBUSIN0_SET: u16 = 0x0018;
pub const INTEN_EVENTS_VBUSIN0_CLR: u16 = 0x0019;
pub const EVENTS_VBUSIN1_SET: u16 = 0x001A;
pub const EVENTS_VBUSIN1_CLR: u16 = 0x001B;
pub const INTEN_EVENTS_VBUSIN1_SET: u16 = 0x001C;
pub const INTEN_EVENTS_VBUSIN1_CLR: u16 = 0x001D;
pub const EVENTS_GPIO_SET: u16 = 0x001E;
pub const EVENTS_GPIO_CLR: u16 = 0x001F;
pub const INTEN_EVENTS_GPIO_SET: u16 = 0x0020;
pub const INTEN_EVENTS_GPIO_CLR: u16 = 0x0021;

// VBUSIN block: input current limits, suspend mode and status.
pub const TASK_UPDATE_ILIM_SW: u16 = 0x0200;
pub const VBUSIN_ILIM0: u16 = 0x0201;
pub const VBUSIN_ILIM_STARTUP: u16 = 0x0202;
pub const VBUS_SUSPEND: u16 = 0x0203;
pub const USBC_DETECT_STATUS: u16 = 0x0205;
pub const VBUSIN_STATUS: u16 = 0x0207;

// BCHARGER block: charger tasks, enables, current and voltage settings,
// NTC and die-temperature thresholds, and status.
pub const TASK_RELEASE_ERR: u16 = 0x0300;
pub const TASK_CLEAR_CHG_ERR: u16 = 0x0301;
pub const TASK_CLEAR_SAFETY_TIMER: u16 = 0x0302;
pub const BCHG_ENABLE_SET: u16 = 0x0304;
pub const BCHG_ENABLE_CLR: u16 = 0x0305;
pub const BCHG_DISABLE_SET: u16 = 0x0306;
pub const BCHG_DISABLE_CLR: u16 = 0x0307;
pub const BCHG_ISET_MSB: u16 = 0x0308;
pub const BCHG_ISET_LSB: u16 = 0x0309;
pub const BCHG_ISET_DISCHARGE_MSB: u16 = 0x030A;
pub const BCHG_ISET_DISCHARGE_LSB: u16 = 0x030B;
pub const BCHG_VTERM: u16 = 0x030C;
pub const BCHG_VTERM_R: u16 = 0x030D;
pub const BCHG_VTRICKLE_SEL: u16 = 0x030E;
pub const BCHG_ITERM_SEL: u16 = 0x030F;
pub const NTC_COLD: u16 = 0x0310;
pub const NTC_COLD_LSB: u16 = 0x0311;
pub const NTC_COOL: u16 = 0x0312;
pub const NTC_COOL_LSB: u16 = 0x0313;
pub const NTC_WARM: u16 = 0x0314;
pub const NTC_WARM_LSB: u16 = 0x0315;
pub const NTC_HOT: u16 = 0x0316;
pub const NTC_HOT_LSB: u16 = 0x0317;
pub const DIE_TEMP_STOP: u16 = 0x0318;
pub const DIE_TEMP_STOP_LSB: u16 = 0x0319;
pub const DIE_TEMP_RESUME: u16 = 0x031A;
pub const DIE_TEMP_RESUME_LSB: u16 = 0x031B;
pub const BCHG_ILIM_STATUS: u16 = 0x032D;
pub const NTC_STATUS: u16 = 0x0332;
pub const DIE_TEMP_STATUS: u16 = 0x0333;
pub const BCHG_CHARGE_STATUS: u16 = 0x0334;
pub const BCHG_ERR_REASON: u16 = 0x0336;
pub const BCHG_ERR_SENSOR: u16 = 0x0337;
pub const BCHG_CONFIG: u16 = 0x033C;

// ADC block: measurement tasks, configuration and results.
pub const TASK_VBAT_MEASURE: u16 = 0x0500;
pub const TASK_NTC_MEASURE: u16 = 0x0501;
pub const TASK_TEMP_MEASURE: u16 = 0x0502;
pub const TASK_VSYS_MEASURE: u16 = 0x0503;
pub const TASK_IBAT_MEASURE: u16 = 0x0506;
pub const TASK_VBUS7_MEASURE: u16 = 0x0507;
pub const TASK_DELAYED_VBAT_MEASURE: u16 = 0x0508;
pub const ADC_CONFIG: u16 = 0x0509;
pub const ADC_NTC_R_SEL: u16 = 0x050A;
pub const ADC_AUTO_TIM_CONF: u16 = 0x050B;
pub const TASK_AUTO_TIM_UPDATE: u16 = 0x050C;
pub const ADC_DEL_TIM_CONF: u16 = 0x050D;
pub const ADC_IBAT_MEAS_STATUS: u16 = 0x0510;
pub const ADC_VBAT_RESULT_MSB: u16 = 0x0511;
pub const ADC_NTC_RESULT_MSB: u16 = 0x0512;
pub const ADC_TEMP_RESULT_MSB: u16 = 0x0513;
pub const ADC_VSYS_RESULT_MSB: u16 = 0x0514;
pub const ADC_GP0_RESULT_LSBS: u16 = 0x0515;
pub const ADC_VBAT0_RESULT_MSB: u16 = 0x0516;
pub const ADC_VBAT1_RESULT_MSB: u16 = 0x0517;
pub const ADC_VBAT2_RESULT_MSB: u16 = 0x0518;
pub const ADC_VBAT3_RESULT_MSB: u16 = 0x0519;
pub const ADC_GP1_RESULT_LSBS: u16 = 0x051A;
pub const ADC_IBAT_MEAS_EN: u16 = 0x0524;

// LDSW block: per-switch set and clear tasks, plus status.
pub const TASK_LDSW1_SET: u16 = 0x0800;
pub const TASK_LDSW1_CLR: u16 = 0x0801;
pub const TASK_LDSW2_SET: u16 = 0x0802;
pub const TASK_LDSW2_CLR: u16 = 0x0803;
pub const LDSW_STATUS: u16 = 0x0804;

// Field masks for read-modify-write operations.

/// ADC_CONFIG: automatic VBAT measurement enable, one bit.
pub const MASK_VBAT_AUTO: u8 = 0x01;

/// ADC_CONFIG: VBAT burst mode enable, one bit.
pub const MASK_VBAT_BURST: u8 = 0x02;

/// ADC_AUTO_TIM_CONF: NTC auto measurement interval, two bits.
pub const MASK_NTC_AUTO_TIM: u8 = 0x03;

/// ADC_AUTO_TIM_CONF: die temperature auto measurement interval, two bits.
pub const MASK_TEMP_AUTO_TIM: u8 = 0x0C;

/// ADC_IBAT_MEAS_EN: automatic IBAT measurement enable, one bit.
pub const MASK_IBAT_MEAS_ENABLE: u8 = 0x01;

/// BCHG_ENABLE_SET / BCHG_ENABLE_CLR: charging enable, one bit.
pub const MASK_CHG_ENABLE: u8 = 0x01;

/// BCHG_ENABLE_SET / BCHG_ENABLE_CLR: full charge current in cool
/// temperature conditions, one bit.
pub const MASK_CHG_FULL_COOL: u8 = 0x02;

/// BCHG_DISABLE_SET / BCHG_DISABLE_CLR: recharge disable, one bit.
pub const MASK_DIS_RECHARGE: u8 = 0x01;

/// BCHG_DISABLE_SET / BCHG_DISABLE_CLR: NTC measurement disable, one bit.
pub const MASK_DIS_NTC: u8 = 0x02;

} // verus!
