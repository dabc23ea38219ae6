use tps6572x::error::InvalidField;
use tps6572x::registers::{
    AcInputCurrent, BatteryTemperatureShift, BatteryVoltageTreshold, ChargeCurrentFactor,
    ChargeVoltage, GPIODrive, GPIOMode, GPIOPull, NTC, OpampMuxMeasurement, OutputVoltage,
    PowerBatThreshold, PreChargeCurrentFactor, PreChargeTimer, ResetDelay, SafetyChargeTimer,
    SysOutputVoltage, TerminationCurrentScalingFactor,
};

#[test]
fn sys_output_voltage_codes() {
    assert_eq!(SysOutputVoltage::Vsys.code(), 0b00);
    assert_eq!(SysOutputVoltage::V4_4.code(), 0b01);
    assert_eq!(SysOutputVoltage::V5.code(), 0b10);
    assert_eq!(SysOutputVoltage::V5_5.code(), 0b11);
}

#[test]
fn sys_output_voltage_from_code() {
    assert_eq!(SysOutputVoltage::from_code(0b00), Ok(SysOutputVoltage::Vsys));
    assert_eq!(SysOutputVoltage::from_code(0b01), Ok(SysOutputVoltage::V4_4));
    assert_eq!(SysOutputVoltage::from_code(0b10), Ok(SysOutputVoltage::V5));
    assert_eq!(SysOutputVoltage::from_code(0b11), Ok(SysOutputVoltage::V5_5));
}

#[test]
fn sys_output_voltage_rejects_codes_outside_its_width() {
    assert_eq!(SysOutputVoltage::from_code(4), Err(InvalidField));
    assert_eq!(SysOutputVoltage::from_code(255), Err(InvalidField));
    for code in 4..=255u8 {
        assert!(SysOutputVoltage::from_code(code).is_err());
    }
}

#[test]
fn sys_output_voltage_code_round_trip() {
    for code in 0..4u8 {
        assert_eq!(SysOutputVoltage::from_code(code).unwrap().code(), code);
    }
}

#[test]
fn ac_input_current_codes() {
    assert_eq!(AcInputCurrent::MA100ddpm.code(), 0b00);
    assert_eq!(AcInputCurrent::MA500ddpm.code(), 0b01);
    assert_eq!(AcInputCurrent::MA500.code(), 0b10);
    assert_eq!(AcInputCurrent::UsbSuspend.code(), 0b11);
}

#[test]
fn ac_input_current_from_code() {
    assert_eq!(AcInputCurrent::from_code(0b00), Ok(AcInputCurrent::MA100ddpm));
    assert_eq!(AcInputCurrent::from_code(0b01), Ok(AcInputCurrent::MA500ddpm));
    assert_eq!(AcInputCurrent::from_code(0b10), Ok(AcInputCurrent::MA500));
    assert_eq!(AcInputCurrent::from_code(0b11), Ok(AcInputCurrent::UsbSuspend));
}

#[test]
fn ac_input_current_rejects_codes_outside_its_width() {
    assert_eq!(AcInputCurrent::from_code(4), Err(InvalidField));
    assert_eq!(AcInputCurrent::from_code(255), Err(InvalidField));
    for code in 4..=255u8 {
        assert!(AcInputCurrent::from_code(code).is_err());
    }
}

#[test]
fn ac_input_current_code_round_trip() {
    for code in 0..4u8 {
        assert_eq!(AcInputCurrent::from_code(code).unwrap().code(), code);
    }
}

#[test]
fn termination_current_scaling_factor_codes() {
    assert_eq!(TerminationCurrentScalingFactor::P5.code(), 0b00);
    assert_eq!(TerminationCurrentScalingFactor::P10.code(), 0b01);
    assert_eq!(TerminationCurrentScalingFactor::P15.code(), 0b10);
    assert_eq!(TerminationCurrentScalingFactor::P20.code(), 0b11);
}

#[test]
fn termination_current_scaling_factor_from_code() {
    assert_eq!(
        TerminationCurrentScalingFactor::from_code(0b00),
        Ok(TerminationCurrentScalingFactor::P5)
    );
    assert_eq!(
        TerminationCurrentScalingFactor::from_code(0b01),
        Ok(TerminationCurrentScalingFactor::P10)
    );
    assert_eq!(
        TerminationCurrentScalingFactor::from_code(0b10),
        Ok(TerminationCurrentScalingFactor::P15)
    );
    assert_eq!(
        TerminationCurrentScalingFactor::from_code(0b11),
        Ok(TerminationCurrentScalingFactor::P20)
    );
}

#[test]
fn termination_current_scaling_factor_rejects_codes_outside_its_width() {
    assert_eq!(TerminationCurrentScalingFactor::from_code(4), Err(InvalidField));
    assert_eq!(TerminationCurrentScalingFactor::from_code(255), Err(InvalidField));
    for code in 4..=255u8 {
        assert!(TerminationCurrentScalingFactor::from_code(code).is_err());
    }
}

#[test]
fn termination_current_scaling_factor_code_round_trip() {
    for code in 0..4u8 {
        assert_eq!(TerminationCurrentScalingFactor::from_code(code).unwrap().code(), code);
    }
}

#[test]
fn charge_current_factor_codes() {
    assert_eq!(ChargeCurrentFactor::P25.code(), 0b00);
    assert_eq!(ChargeCurrentFactor::P50.code(), 0b01);
    assert_eq!(ChargeCurrentFactor::P75.code(), 0b10);
    assert_eq!(ChargeCurrentFactor::P100.code(), 0b11);
}

#[test]
fn charge_current_factor_from_code() {
    assert_eq!(ChargeCurrentFactor::from_code(0b00), Ok(ChargeCurrentFactor::P25));
    assert_eq!(ChargeCurrentFactor::from_code(0b01), Ok(ChargeCurrentFactor::P50));
    assert_eq!(ChargeCurrentFactor::from_code(0b10), Ok(ChargeCurrentFactor::P75));
    assert_eq!(ChargeCurrentFactor::from_code(0b11), Ok(ChargeCurrentFactor::P100));
}

#[test]
fn charge_current_factor_rejects_codes_outside_its_width() {
    assert_eq!(ChargeCurrentFactor::from_code(4), Err(InvalidField));
    assert_eq!(ChargeCurrentFactor::from_code(255), Err(InvalidField));
    for code in 4..=255u8 {
        assert!(ChargeCurrentFactor::from_code(code).is_err());
    }
}

#[test]
fn charge_current_factor_code_round_trip() {
    for code in 0..4u8 {
        assert_eq!(ChargeCurrentFactor::from_code(code).unwrap().code(), code);
    }
}

#[test]
fn pre_charge_current_factor_codes() {
    assert_eq!(PreChargeCurrentFactor::P5.code(), 0b00);
    assert_eq!(PreChargeCurrentFactor::P10.code(), 0b01);
    assert_eq!(PreChargeCurrentFactor::P15.code(), 0b10);
    assert_eq!(PreChargeCurrentFactor::P20.code(), 0b11);
}

#[test]
fn pre_charge_current_factor_from_code() {
    assert_eq!(PreChargeCurrentFactor::from_code(0b00), Ok(PreChargeCurrentFactor::P5));
    assert_eq!(PreChargeCurrentFactor::from_code(0b01), Ok(PreChargeCurrentFactor::P10));
    assert_eq!(PreChargeCurrentFactor::from_code(0b10), Ok(PreChargeCurrentFactor::P15));
    assert_eq!(PreChargeCurrentFactor::from_code(0b11), Ok(PreChargeCurrentFactor::P20));
}

#[test]
fn pre_charge_current_factor_rejects_codes_outside_its_width() {
    assert_eq!(PreChargeCurrentFactor::from_code(4), Err(InvalidField));
    assert_eq!(PreChargeCurrentFactor::from_code(255), Err(InvalidField));
    for code in 4..=255u8 {
        assert!(PreChargeCurrentFactor::from_code(code).is_err());
    }
}

#[test]
fn pre_charge_current_factor_code_round_trip() {
    for code in 0..4u8 {
        assert_eq!(PreChargeCurrentFactor::from_code(code).unwrap().code(), code);
    }
}

#[test]
fn power_bat_threshold_codes() {
    assert_eq!(PowerBatThreshold::VBAT100mV.code(), 0b0);
    assert_eq!(PowerBatThreshold::V4_3.code(), 0b1);
}

#[test]
fn power_bat_threshold_from_code() {
    assert_eq!(PowerBatThreshold::from_code(0b0), Ok(PowerBatThreshold::VBAT100mV));
    assert_eq!(PowerBatThreshold::from_code(0b1), Ok(PowerBatThreshold::V4_3));
}

#[test]
fn power_bat_threshold_rejects_codes_outside_its_width() {
    assert_eq!(PowerBatThreshold::from_code(2), Err(InvalidField));
    assert_eq!(PowerBatThreshold::from_code(255), Err(InvalidField));
    for code in 2..=255u8 {
        assert!(PowerBatThreshold::from_code(code).is_err());
    }
}

#[test]
fn power_bat_threshold_code_round_trip() {
    for code in 0..2u8 {
        assert_eq!(PowerBatThreshold::from_code(code).unwrap().code(), code);
    }
}

#[test]
fn ntc_codes() {
    assert_eq!(NTC::K100.code(), 0b0);
    assert_eq!(NTC::K10.code(), 0b1);
}

#[test]
fn ntc_from_code() {
    assert_eq!(NTC::from_code(0b0), Ok(NTC::K100));
    assert_eq!(NTC::from_code(0b1), Ok(NTC::K10));
}

#[test]
fn ntc_rejects_codes_outside_its_width() {
    assert_eq!(NTC::from_code(2), Err(InvalidField));
    assert_eq!(NTC::from_code(255), Err(InvalidField));
    for code in 2..=255u8 {
        assert!(NTC::from_code(code).is_err());
    }
}

#[test]
fn ntc_code_round_trip() {
    for code in 0..2u8 {
        assert_eq!(NTC::from_code(code).unwrap().code(), code);
    }
}

#[test]
fn pre_charge_timer_codes() {
    assert_eq!(PreChargeTimer::Min30.code(), 0b0);
    assert_eq!(PreChargeTimer::Min60.code(), 0b1);
}

#[test]
fn pre_charge_timer_from_code() {
    assert_eq!(PreChargeTimer::from_code(0b0), Ok(PreChargeTimer::Min30));
    assert_eq!(PreChargeTimer::from_code(0b1), Ok(PreChargeTimer::Min60));
}

#[test]
fn pre_charge_timer_rejects_codes_outside_its_width() {
    assert_eq!(PreChargeTimer::from_code(2), Err(InvalidField));
    assert_eq!(PreChargeTimer::from_code(255), Err(InvalidField));
    for code in 2..=255u8 {
        assert!(PreChargeTimer::from_code(code).is_err());
    }
}

#[test]
fn pre_charge_timer_code_round_trip() {
    for code in 0..2u8 {
        assert_eq!(PreChargeTimer::from_code(code).unwrap().code(), code);
    }
}

#[test]
fn safety_charge_timer_codes() {
    assert_eq!(SafetyChargeTimer::Hour4.code(), 0b00);
    assert_eq!(SafetyChargeTimer::Hour5.code(), 0b01);
    assert_eq!(SafetyChargeTimer::Hour6.code(), 0b10);
    assert_eq!(SafetyChargeTimer::Hour8.code(), 0b11);
}

#[test]
fn safety_charge_timer_from_code() {
    assert_eq!(SafetyChargeTimer::from_code(0b00), Ok(SafetyChargeTimer::Hour4));
    assert_eq!(SafetyChargeTimer::from_code(0b01), Ok(SafetyChargeTimer::Hour5));
    assert_eq!(SafetyChargeTimer::from_code(0b10), Ok(SafetyChargeTimer::Hour6));
    assert_eq!(SafetyChargeTimer::from_code(0b11), Ok(SafetyChargeTimer::Hour8));
}

#[test]
fn safety_charge_timer_rejects_codes_outside_its_width() {
    assert_eq!(SafetyChargeTimer::from_code(4), Err(InvalidField));
    assert_eq!(SafetyChargeTimer::from_code(255), Err(InvalidField));
    for code in 4..=255u8 {
        assert!(SafetyChargeTimer::from_code(code).is_err());
    }
}

#[test]
fn safety_charge_timer_code_round_trip() {
    for code in 0..4u8 {
        assert_eq!(SafetyChargeTimer::from_code(code).unwrap().code(), code);
    }
}

#[test]
fn battery_voltage_treshold_codes() {
    assert_eq!(BatteryVoltageTreshold::V2_2.code(), 0b00);
    assert_eq!(BatteryVoltageTreshold::V2_3.code(), 0b01);
    assert_eq!(BatteryVoltageTreshold::V2_4.code(), 0b10);
    assert_eq!(BatteryVoltageTreshold::V2_5.code(), 0b11);
}

#[test]
fn battery_voltage_treshold_from_code() {
    assert_eq!(BatteryVoltageTreshold::from_code(0b00), Ok(BatteryVoltageTreshold::V2_2));
    assert_eq!(BatteryVoltageTreshold::from_code(0b01), Ok(BatteryVoltageTreshold::V2_3));
    assert_eq!(BatteryVoltageTreshold::from_code(0b10), Ok(BatteryVoltageTreshold::V2_4));
    assert_eq!(BatteryVoltageTreshold::from_code(0b11), Ok(BatteryVoltageTreshold::V2_5));
}

#[test]
fn battery_voltage_treshold_rejects_codes_outside_its_width() {
    assert_eq!(BatteryVoltageTreshold::from_code(4), Err(InvalidField));
    assert_eq!(BatteryVoltageTreshold::from_code(255), Err(InvalidField));
    for code in 4..=255u8 {
        assert!(BatteryVoltageTreshold::from_code(code).is_err());
    }
}

#[test]
fn battery_voltage_treshold_code_round_trip() {
    for code in 0..4u8 {
        assert_eq!(BatteryVoltageTreshold::from_code(code).unwrap().code(), code);
    }
}

#[test]
fn battery_temperature_shift_codes() {
    assert_eq!(BatteryTemperatureShift::C0_45.code(), 0b00);
    assert_eq!(BatteryTemperatureShift::C5_50.code(), 0b01);
    assert_eq!(BatteryTemperatureShift::C10_55.code(), 0b10);
    assert_eq!(BatteryTemperatureShift::C15_60.code(), 0b11);
}

#[test]
fn battery_temperature_shift_from_code() {
    assert_eq!(BatteryTemperatureShift::from_code(0b00), Ok(BatteryTemperatureShift::C0_45));
    assert_eq!(BatteryTemperatureShift::from_code(0b01), Ok(BatteryTemperatureShift::C5_50));
    assert_eq!(BatteryTemperatureShift::from_code(0b10), Ok(BatteryTemperatureShift::C10_55));
    assert_eq!(BatteryTemperatureShift::from_code(0b11), Ok(BatteryTemperatureShift::C15_60));
}

#[test]
fn battery_temperature_shift_rejects_codes_outside_its_width() {
    assert_eq!(BatteryTemperatureShift::from_code(4), Err(InvalidField));
    assert_eq!(BatteryTemperatureShift::from_code(255), Err(InvalidField));
    for code in 4..=255u8 {
        assert!(BatteryTemperatureShift::from_code(code).is_err());
    }
}

#[test]
fn battery_temperature_shift_code_round_trip() {
    for code in 0..4u8 {
        assert_eq!(BatteryTemperatureShift::from_code(code).unwrap().code(), code);
    }
}

#[test]
fn charge_voltage_codes() {
    assert_eq!(ChargeVoltage::V4_150.code(), 0b000);
    assert_eq!(ChargeVoltage::V4_175.code(), 0b001);
    assert_eq!(ChargeVoltage::V4_200.code(), 0b010);
    assert_eq!(ChargeVoltage::V4_225.code(), 0b011);
    assert_eq!(ChargeVoltage::V4_250.code(), 0b100);
    assert_eq!(ChargeVoltage::V4_275.code(), 0b101);
    assert_eq!(ChargeVoltage::V4_300.code(), 0b110);
    assert_eq!(ChargeVoltage::V4_325.code(), 0b111);
}

#[test]
fn charge_voltage_from_code() {
    assert_eq!(ChargeVoltage::from_code(0b000), Ok(ChargeVoltage::V4_150));
    assert_eq!(ChargeVoltage::from_code(0b001), Ok(ChargeVoltage::V4_175));
    assert_eq!(ChargeVoltage::from_code(0b010), Ok(ChargeVoltage::V4_200));
    assert_eq!(ChargeVoltage::from_code(0b011), Ok(ChargeVoltage::V4_225));
    assert_eq!(ChargeVoltage::from_code(0b100), Ok(ChargeVoltage::V4_250));
    assert_eq!(ChargeVoltage::from_code(0b101), Ok(ChargeVoltage::V4_275));
    assert_eq!(ChargeVoltage::from_code(0b110), Ok(ChargeVoltage::V4_300));
    assert_eq!(ChargeVoltage::from_code(0b111), Ok(ChargeVoltage::V4_325));
}

#[test]
fn charge_voltage_rejects_codes_outside_its_width() {
    assert_eq!(ChargeVoltage::from_code(8), Err(InvalidField));
    assert_eq!(ChargeVoltage::from_code(255), Err(InvalidField));
    for code in 8..=255u8 {
        assert!(ChargeVoltage::from_code(code).is_err());
    }
}

#[test]
fn charge_voltage_code_round_trip() {
    for code in 0..8u8 {
        assert_eq!(ChargeVoltage::from_code(code).unwrap().code(), code);
    }
}

#[test]
fn output_voltage_codes() {
    assert_eq!(OutputVoltage::V0_800.code(), 0);
    assert_eq!(OutputVoltage::V0_825.code(), 1);
    assert_eq!(OutputVoltage::V0_850.code(), 2);
    assert_eq!(OutputVoltage::V0_875.code(), 3);
    assert_eq!(OutputVoltage::V0_900.code(), 4);
    assert_eq!(OutputVoltage::V0_925.code(), 5);
    assert_eq!(OutputVoltage::V0_950.code(), 6);
    assert_eq!(OutputVoltage::V0_975.code(), 7);
    assert_eq!(OutputVoltage::V1_000.code(), 8);
    assert_eq!(OutputVoltage::V1_025.code(), 9);
    assert_eq!(OutputVoltage::V1_050.code(), 10);
    assert_eq!(OutputVoltage::V1_075.code(), 11);
    assert_eq!(OutputVoltage::V1_100.code(), 12);
    assert_eq!(OutputVoltage::V1_125.code(), 13);
    assert_eq!(OutputVoltage::V1_150.code(), 14);
    assert_eq!(OutputVoltage::V1_175.code(), 15);
    assert_eq!(OutputVoltage::V1_200.code(), 16);
    assert_eq!(OutputVoltage::V1_225.code(), 17);
    assert_eq!(OutputVoltage::V1_250.code(), 18);
    assert_eq!(OutputVoltage::V1_275.code(), 19);
    assert_eq!(OutputVoltage::V1_300.code(), 20);
    assert_eq!(OutputVoltage::V1_325.code(), 21);
    assert_eq!(OutputVoltage::V1_350.code(), 22);
    assert_eq!(OutputVoltage::V1_375.code(), 23);
    assert_eq!(OutputVoltage::V1_400.code(), 24);
    assert_eq!(OutputVoltage::V1_425.code(), 25);
    assert_eq!(OutputVoltage::V1_450.code(), 26);
    assert_eq!(OutputVoltage::V1_475.code(), 27);
    assert_eq!(OutputVoltage::V1_500.code(), 28);
    assert_eq!(OutputVoltage::V1_525.code(), 29);
    assert_eq!(OutputVoltage::V1_550.code(), 30);
    assert_eq!(OutputVoltage::V1_575.code(), 31);
    assert_eq!(OutputVoltage::V1_600.code(), 32);
    assert_eq!(OutputVoltage::V1_650.code(), 33);
    assert_eq!(OutputVoltage::V1_700.code(), 34);
    assert_eq!(OutputVoltage::V1_750.code(), 35);
    assert_eq!(OutputVoltage::V1_800.code(), 36);
    assert_eq!(OutputVoltage::V1_850.code(), 37);
    assert_eq!(OutputVoltage::V1_900.code(), 38);
    assert_eq!(OutputVoltage::V1_950.code(), 39);
    assert_eq!(OutputVoltage::V2_000.code(), 40);
    assert_eq!(OutputVoltage::V2_050.code(), 41);
    assert_eq!(OutputVoltage::V2_100.code(), 42);
    assert_eq!(OutputVoltage::V2_150.code(), 43);
    assert_eq!(OutputVoltage::V2_200.code(), 44);
    assert_eq!(OutputVoltage::V2_250.code(), 45);
    assert_eq!(OutputVoltage::V2_300.code(), 46);
    assert_eq!(OutputVoltage::V2_350.code(), 47);
    assert_eq!(OutputVoltage::V2_400.code(), 48);
    assert_eq!(OutputVoltage::V2_450.code(), 49);
    assert_eq!(OutputVoltage::V2_500.code(), 50);
    assert_eq!(OutputVoltage::V2_550.code(), 51);
    assert_eq!(OutputVoltage::V2_600.code(), 52);
    assert_eq!(OutputVoltage::V2_650.code(), 53);
    assert_eq!(OutputVoltage::V2_700.code(), 54);
    assert_eq!(OutputVoltage::V2_750.code(), 55);
    assert_eq!(OutputVoltage::V2_800.code(), 56);
    assert_eq!(OutputVoltage::V2_850.code(), 57);
    assert_eq!(OutputVoltage::V2_900.code(), 58);
    assert_eq!(OutputVoltage::V2_950.code(), 59);
    assert_eq!(OutputVoltage::V3_000.code(), 60);
    assert_eq!(OutputVoltage::V3_100.code(), 61);
    assert_eq!(OutputVoltage::V3_200.code(), 62);
    assert_eq!(OutputVoltage::V3_300.code(), 63);
}

#[test]
fn output_voltage_from_code() {
    assert_eq!(OutputVoltage::from_code(0), Ok(OutputVoltage::V0_800));
    assert_eq!(OutputVoltage::from_code(1), Ok(OutputVoltage::V0_825));
    assert_eq!(OutputVoltage::from_code(2), Ok(OutputVoltage::V0_850));
    assert_eq!(OutputVoltage::from_code(3), Ok(OutputVoltage::V0_875));
    assert_eq!(OutputVoltage::from_code(4), Ok(OutputVoltage::V0_900));
    assert_eq!(OutputVoltage::from_code(5), Ok(OutputVoltage::V0_925));
    assert_eq!(OutputVoltage::from_code(6), Ok(OutputVoltage::V0_950));
    assert_eq!(OutputVoltage::from_code(7), Ok(OutputVoltage::V0_975));
    assert_eq!(OutputVoltage::from_code(8), Ok(OutputVoltage::V1_000));
    assert_eq!(OutputVoltage::from_code(9), Ok(OutputVoltage::V1_025));
    assert_eq!(OutputVoltage::from_code(10), Ok(OutputVoltage::V1_050));
    assert_eq!(OutputVoltage::from_code(11), Ok(OutputVoltage::V1_075));
    assert_eq!(OutputVoltage::from_code(12), Ok(OutputVoltage::V1_100));
    assert_eq!(OutputVoltage::from_code(13), Ok(OutputVoltage::V1_125));
    assert_eq!(OutputVoltage::from_code(14), Ok(OutputVoltage::V1_150));
    assert_eq!(OutputVoltage::from_code(15), Ok(OutputVoltage::V1_175));
    assert_eq!(OutputVoltage::from_code(16), Ok(OutputVoltage::V1_200));
    assert_eq!(OutputVoltage::from_code(17), Ok(OutputVoltage::V1_225));
    assert_eq!(OutputVoltage::from_code(18), Ok(OutputVoltage::V1_250));
    assert_eq!(OutputVoltage::from_code(19), Ok(OutputVoltage::V1_275));
    assert_eq!(OutputVoltage::from_code(20), Ok(OutputVoltage::V1_300));
    assert_eq!(OutputVoltage::from_code(21), Ok(OutputVoltage::V1_325));
    assert_eq!(OutputVoltage::from_code(22), Ok(OutputVoltage::V1_350));
    assert_eq!(OutputVoltage::from_code(23), Ok(OutputVoltage::V1_375));
    assert_eq!(OutputVoltage::from_code(24), Ok(OutputVoltage::V1_400));
    assert_eq!(OutputVoltage::from_code(25), Ok(OutputVoltage::V1_425));
    assert_eq!(OutputVoltage::from_code(26), Ok(OutputVoltage::V1_450));
    assert_eq!(OutputVoltage::from_code(27), Ok(OutputVoltage::V1_475));
    assert_eq!(OutputVoltage::from_code(28), Ok(OutputVoltage::V1_500));
    assert_eq!(OutputVoltage::from_code(29), Ok(OutputVoltage::V1_525));
    assert_eq!(OutputVoltage::from_code(30), Ok(OutputVoltage::V1_550));
    assert_eq!(OutputVoltage::from_code(31), Ok(OutputVoltage::V1_575));
    assert_eq!(OutputVoltage::from_code(32), Ok(OutputVoltage::V1_600));
    assert_eq!(OutputVoltage::from_code(33), Ok(OutputVoltage::V1_650));
    assert_eq!(OutputVoltage::from_code(34), Ok(OutputVoltage::V1_700));
    assert_eq!(OutputVoltage::from_code(35), Ok(OutputVoltage::V1_750));
    assert_eq!(OutputVoltage::from_code(36), Ok(OutputVoltage::V1_800));
    assert_eq!(OutputVoltage::from_code(37), Ok(OutputVoltage::V1_850));
    assert_eq!(OutputVoltage::from_code(38), Ok(OutputVoltage::V1_900));
    assert_eq!(OutputVoltage::from_code(39), Ok(OutputVoltage::V1_950));
    assert_eq!(OutputVoltage::from_code(40), Ok(OutputVoltage::V2_000));
    assert_eq!(OutputVoltage::from_code(41), Ok(OutputVoltage::V2_050));
    assert_eq!(OutputVoltage::from_code(42), Ok(OutputVoltage::V2_100));
    assert_eq!(OutputVoltage::from_code(43), Ok(OutputVoltage::V2_150));
    assert_eq!(OutputVoltage::from_code(44), Ok(OutputVoltage::V2_200));
    assert_eq!(OutputVoltage::from_code(45), Ok(OutputVoltage::V2_250));
    assert_eq!(OutputVoltage::from_code(46), Ok(OutputVoltage::V2_300));
    assert_eq!(OutputVoltage::from_code(47), Ok(OutputVoltage::V2_350));
    assert_eq!(OutputVoltage::from_code(48), Ok(OutputVoltage::V2_400));
    assert_eq!(OutputVoltage::from_code(49), Ok(OutputVoltage::V2_450));
    assert_eq!(OutputVoltage::from_code(50), Ok(OutputVoltage::V2_500));
    assert_eq!(OutputVoltage::from_code(51), Ok(OutputVoltage::V2_550));
    assert_eq!(OutputVoltage::from_code(52), Ok(OutputVoltage::V2_600));
    assert_eq!(OutputVoltage::from_code(53), Ok(OutputVoltage::V2_650));
    assert_eq!(OutputVoltage::from_code(54), Ok(OutputVoltage::V2_700));
    assert_eq!(OutputVoltage::from_code(55), Ok(OutputVoltage::V2_750));
    assert_eq!(OutputVoltage::from_code(56), Ok(OutputVoltage::V2_800));
    assert_eq!(OutputVoltage::from_code(57), Ok(OutputVoltage::V2_850));
    assert_eq!(OutputVoltage::from_code(58), Ok(OutputVoltage::V2_900));
    assert_eq!(OutputVoltage::from_code(59), Ok(OutputVoltage::V2_950));
    assert_eq!(OutputVoltage::from_code(60), Ok(OutputVoltage::V3_000));
    assert_eq!(OutputVoltage::from_code(61), Ok(OutputVoltage::V3_100));
    assert_eq!(OutputVoltage::from_code(62), Ok(OutputVoltage::V3_200));
    assert_eq!(OutputVoltage::from_code(63), Ok(OutputVoltage::V3_300));
}

#[test]
fn output_voltage_rejects_codes_outside_its_width() {
    assert_eq!(OutputVoltage::from_code(64), Err(InvalidField));
    assert_eq!(OutputVoltage::from_code(255), Err(InvalidField));
    for code in 64..=255u8 {
        assert!(OutputVoltage::from_code(code).is_err());
    }
}

#[test]
fn output_voltage_code_round_trip() {
    for code in 0..64u8 {
        assert_eq!(OutputVoltage::from_code(code).unwrap().code(), code);
    }
}

#[test]
fn reset_delay_codes() {
    assert_eq!(ResetDelay::Ms11.code(), 0b0);
    assert_eq!(ResetDelay::Ms90.code(), 0b1);
}

#[test]
fn reset_delay_from_code() {
    assert_eq!(ResetDelay::from_code(0b0), Ok(ResetDelay::Ms11));
    assert_eq!(ResetDelay::from_code(0b1), Ok(ResetDelay::Ms90));
}

#[test]
fn reset_delay_rejects_codes_outside_its_width() {
    assert_eq!(ResetDelay::from_code(2), Err(InvalidField));
    assert_eq!(ResetDelay::from_code(255), Err(InvalidField));
    for code in 2..=255u8 {
        assert!(ResetDelay::from_code(code).is_err());
    }
}

#[test]
fn reset_delay_code_round_trip() {
    for code in 0..2u8 {
        assert_eq!(ResetDelay::from_code(code).unwrap().code(), code);
    }
}

#[test]
fn opamp_mux_measurement_codes() {
    assert_eq!(OpampMuxMeasurement::BatteryVoltage.code(), 0b0);
    assert_eq!(OpampMuxMeasurement::Temperature.code(), 0b1);
}

#[test]
fn opamp_mux_measurement_from_code() {
    assert_eq!(OpampMuxMeasurement::from_code(0b0), Ok(OpampMuxMeasurement::BatteryVoltage));
    assert_eq!(OpampMuxMeasurement::from_code(0b1), Ok(OpampMuxMeasurement::Temperature));
}

#[test]
fn opamp_mux_measurement_rejects_codes_outside_its_width() {
    assert_eq!(OpampMuxMeasurement::from_code(2), Err(InvalidField));
    assert_eq!(OpampMuxMeasurement::from_code(255), Err(InvalidField));
    for code in 2..=255u8 {
        assert!(OpampMuxMeasurement::from_code(code).is_err());
    }
}

#[test]
fn opamp_mux_measurement_code_round_trip() {
    for code in 0..2u8 {
        assert_eq!(OpampMuxMeasurement::from_code(code).unwrap().code(), code);
    }
}

#[test]
fn gpio_pull_codes() {
    assert_eq!(GPIOPull::PullLowLedDriver.code(), 0b0);
    assert_eq!(GPIOPull::HighImpedence.code(), 0b1);
}

#[test]
fn gpio_pull_from_code() {
    assert_eq!(GPIOPull::from_code(0b0), Ok(GPIOPull::PullLowLedDriver));
    assert_eq!(GPIOPull::from_code(0b1), Ok(GPIOPull::HighImpedence));
}

#[test]
fn gpio_pull_rejects_codes_outside_its_width() {
    assert_eq!(GPIOPull::from_code(2), Err(InvalidField));
    assert_eq!(GPIOPull::from_code(255), Err(InvalidField));
    for code in 2..=255u8 {
        assert!(GPIOPull::from_code(code).is_err());
    }
}

#[test]
fn gpio_pull_code_round_trip() {
    for code in 0..2u8 {
        assert_eq!(GPIOPull::from_code(code).unwrap().code(), code);
    }
}

#[test]
fn gpio_mode_codes() {
    assert_eq!(GPIOMode::Ouput.code(), 0b0);
    assert_eq!(GPIOMode::Input.code(), 0b1);
}

#[test]
fn gpio_mode_from_code() {
    assert_eq!(GPIOMode::from_code(0b0), Ok(GPIOMode::Ouput));
    assert_eq!(GPIOMode::from_code(0b1), Ok(GPIOMode::Input));
}

#[test]
fn gpio_mode_rejects_codes_outside_its_width() {
    assert_eq!(GPIOMode::from_code(2), Err(InvalidField));
    assert_eq!(GPIOMode::from_code(255), Err(InvalidField));
    for code in 2..=255u8 {
        assert!(GPIOMode::from_code(code).is_err());
    }
}

#[test]
fn gpio_mode_code_round_trip() {
    for code in 0..2u8 {
        assert_eq!(GPIOMode::from_code(code).unwrap().code(), code);
    }
}

#[test]
fn gpio_drive_codes() {
    assert_eq!(GPIODrive::StandardGPIO.code(), 0b0);
    assert_eq!(GPIODrive::LedDriver5mA.code(), 0b1);
}

#[test]
fn gpio_drive_from_code() {
    assert_eq!(GPIODrive::from_code(0b0), Ok(GPIODrive::StandardGPIO));
    assert_eq!(GPIODrive::from_code(0b1), Ok(GPIODrive::LedDriver5mA));
}

#[test]
fn gpio_drive_rejects_codes_outside_its_width() {
    assert_eq!(GPIODrive::from_code(2), Err(InvalidField));
    assert_eq!(GPIODrive::from_code(255), Err(InvalidField));
    for code in 2..=255u8 {
        assert!(GPIODrive::from_code(code).is_err());
    }
}

#[test]
fn gpio_drive_code_round_trip() {
    for code in 0..2u8 {
        assert_eq!(GPIODrive::from_code(code).unwrap().code(), code);
    }
}
