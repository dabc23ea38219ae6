//! The four configuration registers of the charger, and the settings that their
//! fields hold.

use vstd::prelude::*;
use crate::bits::{
    bit, field, get_bit, get_field, lemma_field_bound, set_bit, set_field, unchanged_outside,
    with_bit, with_field,
};
use crate::error::InvalidField;
use crate::registers::{Register, RegisterAddress, WritableRegister};

verus! {

/// Voltage at the SYS output of the power path.
#[derive(Clone, Copy, Debug, PartialEq, Eq, Structural)]
pub enum SysOutputVoltage {
    /// The output voltage of the power path at the SYS pin
    Vsys,
    /// 4.4 V
    V4_4,
    /// 5 V
    V5,
    /// 5.5 V
    V5_5,
}

impl SysOutputVoltage {
    /// The two-bit code that stands for this voltage.
    pub open spec fn code_spec(self) -> u8 {
        match self {
            SysOutputVoltage::Vsys => 0b00,
            SysOutputVoltage::V4_4 => 0b01,
            SysOutputVoltage::V5 => 0b10,
            SysOutputVoltage::V5_5 => 0b11,
        }
    }

    /// The voltage that `code` stands for. A code above 0b11 stands for none.
    pub open spec fn from_code_spec(code: u8) -> Result<Self, InvalidField> {
        match code {
            0b00 => Ok(SysOutputVoltage::Vsys),
            0b01 => Ok(SysOutputVoltage::V4_4),
            0b10 => Ok(SysOutputVoltage::V5),
            0b11 => Ok(SysOutputVoltage::V5_5),
            _ => Err(InvalidField),
        }
    }

    /// The two-bit code that stands for this voltage.
    #[verifier::when_used_as_spec(code_spec)]
    pub fn code(self) -> (code: u8)
        ensures
            code == self.code_spec(),
    {
        match self {
            SysOutputVoltage::Vsys => 0b00,
            SysOutputVoltage::V4_4 => 0b01,
            SysOutputVoltage::V5 => 0b10,
            SysOutputVoltage::V5_5 => 0b11,
        }
    }

    /// The voltage that `code` stands for, or the failure where it stands for none.
    pub fn from_code(code: u8) -> (value: Result<Self, InvalidField>)
        ensures
            value == Self::from_code_spec(code),
    {
        match code {
            0b00 => Ok(SysOutputVoltage::Vsys),
            0b01 => Ok(SysOutputVoltage::V4_4),
            0b10 => Ok(SysOutputVoltage::V5),
            0b11 => Ok(SysOutputVoltage::V5_5),
            _ => Err(InvalidField),
        }
    }

    /// Every voltage has a code below 4, and that code stands for it.
    pub proof fn lemma_code(value: Self)
        ensures
            value.code() < 4,
            Self::from_code_spec(value.code()) == Ok::<Self, InvalidField>(value),
    {
    }

    /// The codes below 4 are the ones that stand for a voltage, each for the
    /// voltage that has it as its code; every other code is rejected.
    pub proof fn lemma_from_code(code: u8)
        ensures
            Self::from_code_spec(code) is Ok <==> code < 4,
            Self::from_code_spec(code) matches Ok(value) ==> value.code() == code,
    {
    }
}

/// Input current limit of the AC input.
#[derive(Clone, Copy, Debug, PartialEq, Eq, Structural)]
pub enum AcInputCurrent {
    /// 100 mA, with DDPM
    MA100ddpm,
    /// 500 mA, with DDPM
    MA500ddpm,
    /// 500 mA, without DDPM
    MA500,
    /// USB suspend mode, standby
    UsbSuspend,
}

impl AcInputCurrent {
    /// The two-bit code that stands for this limit.
    pub open spec fn code_spec(self) -> u8 {
        match self {
            AcInputCurrent::MA100ddpm => 0b00,
            AcInputCurrent::MA500ddpm => 0b01,
            AcInputCurrent::MA500 => 0b10,
            AcInputCurrent::UsbSuspend => 0b11,
        }
    }

    /// The limit that `code` stands for. A code above 0b11 stands for none.
    pub open spec fn from_code_spec(code: u8) -> Result<Self, InvalidField> {
        match code {
            0b00 => Ok(AcInputCurrent::MA100ddpm),
            0b01 => Ok(AcInputCurrent::MA500ddpm),
            0b10 => Ok(AcInputCurrent::MA500),
            0b11 => Ok(AcInputCurrent::UsbSuspend),
            _ => Err(InvalidField),
        }
    }

    /// The two-bit code that stands for this limit.
    #[verifier::when_used_as_spec(code_spec)]
    pub fn code(self) -> (code: u8)
        ensures
            code == self.code_spec(),
    {
        match self {
            AcInputCurrent::MA100ddpm => 0b00,
            AcInputCurrent::MA500ddpm => 0b01,
            AcInputCurrent::MA500 => 0b10,
            AcInputCurrent::UsbSuspend => 0b11,
        }
    }

    /// The limit that `code` stands for, or the failure where it stands for none.
    pub fn from_code(code: u8) -> (value: Result<Self, InvalidField>)
        ensures
            value == Self::from_code_spec(code),
    {
        match code {
            0b00 => Ok(AcInputCurrent::MA100ddpm),
            0b01 => Ok(AcInputCurrent::MA500ddpm),
            0b10 => Ok(AcInputCurrent::MA500),
            0b11 => Ok(AcInputCurrent::UsbSuspend),
            _ => Err(InvalidField),
        }
    }

    /// Every limit has a code below 4, and that code stands for it.
    pub proof fn lemma_code(value: Self)
        ensures
            value.code() < 4,
            Self::from_code_spec(value.code()) == Ok::<Self, InvalidField>(value),
    {
    }

    /// The codes below 4 are the ones that stand for a limit, each for the
    /// limit that has it as its code; every other code is rejected.
    pub proof fn lemma_from_code(code: u8)
        ensures
            Self::from_code_spec(code) is Ok <==> code < 4,
            Self::from_code_spec(code) matches Ok(value) ==> value.code() == code,
    {
    }
}

/// `CHGCONFIG0`, charger configuration 0. The host can write it.
///
/// | bits | field |
/// |------|-------|
/// | 0 | `charger_enabled` |
/// | 1 | `termination_enabled` |
/// | 2 | `dynamic_timer` |
/// | 3 | `thermal_loop` |
/// | 4 to 5 | `ac_input_current` |
/// | 6 to 7 | `output_voltage` |
#[derive(Clone, Copy, Debug, PartialEq, Eq, Structural)]
pub struct ChargerConfig0 {
    bits: u8,
}

impl View for ChargerConfig0 {
    type V = u8;

    /// The byte of the register.
    closed spec fn view(&self) -> u8 {
        self.bits
    }
}

impl ChargerConfig0 {
    /// The value with every bit clear.
    pub fn new() -> (value: Self)
        ensures
            value@ == 0,
    {
        ChargerConfig0 { bits: 0 }
    }

    /// `CH_EN`: whether the charger is enabled.
    pub fn charger_enabled(&self) -> (value: bool)
        ensures
            value == bit(self@, 0),
    {
        get_bit(self.bits, 0)
    }

    /// Sets `CH_EN` and leaves every other bit as it is.
    pub fn set_charger_enabled(&mut self, value: bool)
        ensures
            final(self)@ == with_bit(old(self)@, 0, value),
            bit(final(self)@, 0) == value,
            unchanged_outside(old(self)@, final(self)@, 0, 1),
    {
        self.bits = set_bit(self.bits, 0, value);
    }

    /// This value with `CH_EN` set to `value`.
    pub fn with_charger_enabled(self, value: bool) -> (updated: Self)
        ensures
            updated@ == with_bit(self@, 0, value),
            bit(updated@, 0) == value,
            unchanged_outside(self@, updated@, 0, 1),
    {
        ChargerConfig0 { bits: set_bit(self.bits, 0, value) }
    }

    /// `TERM_EN`: whether charge termination is enabled.
    pub fn termination_enabled(&self) -> (value: bool)
        ensures
            value == bit(self@, 1),
    {
        get_bit(self.bits, 1)
    }

    /// Sets `TERM_EN` and leaves every other bit as it is.
    pub fn set_termination_enabled(&mut self, value: bool)
        ensures
            final(self)@ == with_bit(old(self)@, 1, value),
            bit(final(self)@, 1) == value,
            unchanged_outside(old(self)@, final(self)@, 1, 1),
    {
        self.bits = set_bit(self.bits, 1, value);
    }

    /// This value with `TERM_EN` set to `value`.
    pub fn with_termination_enabled(self, value: bool) -> (updated: Self)
        ensures
            updated@ == with_bit(self@, 1, value),
            bit(updated@, 1) == value,
            unchanged_outside(self@, updated@, 1, 1),
    {
        ChargerConfig0 { bits: set_bit(self.bits, 1, value) }
    }

    /// `DYN_TMR`: whether the dynamic timer is enabled.
    pub fn dynamic_timer(&self) -> (value: bool)
        ensures
            value == bit(self@, 2),
    {
        get_bit(self.bits, 2)
    }

    /// Sets `DYN_TMR` and leaves every other bit as it is.
    pub fn set_dynamic_timer(&mut self, value: bool)
        ensures
            final(self)@ == with_bit(old(self)@, 2, value),
            bit(final(self)@, 2) == value,
            unchanged_outside(old(self)@, final(self)@, 2, 1),
    {
        self.bits = set_bit(self.bits, 2, value);
    }

    /// This value with `DYN_TMR` set to `value`.
    pub fn with_dynamic_timer(self, value: bool) -> (updated: Self)
        ensures
            updated@ == with_bit(self@, 2, value),
            bit(updated@, 2) == value,
            unchanged_outside(self@, updated@, 2, 1),
    {
        ChargerConfig0 { bits: set_bit(self.bits, 2, value) }
    }

    /// `TH_LOOP`: whether the thermal loop is enabled.
    pub fn thermal_loop(&self) -> (value: bool)
        ensures
            value == bit(self@, 3),
    {
        get_bit(self.bits, 3)
    }

    /// Sets `TH_LOOP` and leaves every other bit as it is.
    pub fn set_thermal_loop(&mut self, value: bool)
        ensures
            final(self)@ == with_bit(old(self)@, 3, value),
            bit(final(self)@, 3) == value,
            unchanged_outside(old(self)@, final(self)@, 3, 1),
    {
        self.bits = set_bit(self.bits, 3, value);
    }

    /// This value with `TH_LOOP` set to `value`.
    pub fn with_thermal_loop(self, value: bool) -> (updated: Self)
        ensures
            updated@ == with_bit(self@, 3, value),
            bit(updated@, 3) == value,
            unchanged_outside(self@, updated@, 3, 1),
    {
        ChargerConfig0 { bits: set_bit(self.bits, 3, value) }
    }

    /// The input current limit of the AC input.
    pub fn ac_input_current(&self) -> (value: AcInputCurrent)
        ensures
            value.code() == field(self@, 4, 2),
    {
        let code = get_field(self.bits, 4, 2);
        AcInputCurrent::from_code(code).unwrap()
    }

    /// Sets `ac_input_current` and leaves every other bit as it is.
    pub fn set_ac_input_current(&mut self, value: AcInputCurrent)
        ensures
            final(self)@ == with_field(old(self)@, 4, 2, value.code()),
            field(final(self)@, 4, 2) == value.code(),
            unchanged_outside(old(self)@, final(self)@, 4, 2),
    {
        self.bits = set_field(self.bits, 4, 2, value.code());
    }

    /// This value with `ac_input_current` set to `value`.
    pub fn with_ac_input_current(self, value: AcInputCurrent) -> (updated: Self)
        ensures
            updated@ == with_field(self@, 4, 2, value.code()),
            field(updated@, 4, 2) == value.code(),
            unchanged_outside(self@, updated@, 4, 2),
    {
        ChargerConfig0 { bits: set_field(self.bits, 4, 2, value.code()) }
    }

    /// `VSYS`: the voltage at the SYS output.
    pub fn output_voltage(&self) -> (value: SysOutputVoltage)
        ensures
            value.code() == field(self@, 6, 2),
    {
        let code = get_field(self.bits, 6, 2);
        SysOutputVoltage::from_code(code).unwrap()
    }

    /// Sets `VSYS` and leaves every other bit as it is.
    pub fn set_output_voltage(&mut self, value: SysOutputVoltage)
        ensures
            final(self)@ == with_field(old(self)@, 6, 2, value.code()),
            field(final(self)@, 6, 2) == value.code(),
            unchanged_outside(old(self)@, final(self)@, 6, 2),
    {
        self.bits = set_field(self.bits, 6, 2, value.code());
    }

    /// This value with `VSYS` set to `value`.
    pub fn with_output_voltage(self, value: SysOutputVoltage) -> (updated: Self)
        ensures
            updated@ == with_field(self@, 6, 2, value.code()),
            field(updated@, 6, 2) == value.code(),
            unchanged_outside(self@, updated@, 6, 2),
    {
        ChargerConfig0 { bits: set_field(self.bits, 6, 2, value.code()) }
    }

    /// Whether every field of `byte` holds a code that the field's enumeration
    /// lists.
    pub open spec fn legal(byte: u8) -> bool {
        &&& AcInputCurrent::from_code_spec(field(byte, 4, 2)) is Ok
        &&& SysOutputVoltage::from_code_spec(field(byte, 6, 2)) is Ok
    }

    /// Each enumeration lists every code of its width, so every byte is legal.
    pub proof fn lemma_legal(byte: u8)
        ensures
            Self::legal(byte),
    {
        lemma_field_bound(byte, 4, 2);
        AcInputCurrent::lemma_from_code(field(byte, 4, 2));
        lemma_field_bound(byte, 6, 2);
        SysOutputVoltage::lemma_from_code(field(byte, 6, 2));
    }

    /// A byte decodes if and only if it is legal, and then to the value that
    /// holds it; a byte that is not legal is refused. Every byte is legal, so
    /// every byte decodes.
    pub proof fn lemma_decode(byte: u8)
        ensures
            Self::decode_spec(byte) is Ok <==> Self::legal(byte),
            Self::decode_spec(byte) matches Ok(value) && value@ == byte,
    {
        Self::lemma_legal(byte);
    }

    /// The fields are all of the byte: two values that agree on each of them
    /// are equal.
    pub proof fn lemma_fields_determine_value(a: Self, b: Self)
        requires
            bit(a@, 0) == bit(b@, 0),
            bit(a@, 1) == bit(b@, 1),
            bit(a@, 2) == bit(b@, 2),
            bit(a@, 3) == bit(b@, 3),
            field(a@, 4, 2) == field(b@, 4, 2),
            field(a@, 6, 2) == field(b@, 6, 2),
        ensures
            a == b,
    {
        let x = a@;
        let y = b@;
        assert(x == y) by (bit_vector)
            requires
                bit(x, 0) == bit(y, 0),
                bit(x, 1) == bit(y, 1),
                bit(x, 2) == bit(y, 2),
                bit(x, 3) == bit(y, 3),
                field(x, 4, 2) == field(y, 4, 2),
                field(x, 6, 2) == field(y, 6, 2),
        ;
    }
}

impl Register for ChargerConfig0 {
    open spec fn address_spec() -> RegisterAddress {
        RegisterAddress::ChargerConfigControl0
    }

    closed spec fn decode_spec(byte: u8) -> Result<Self, InvalidField> {
        if Self::legal(byte) {
            Ok(ChargerConfig0 { bits: byte })
        } else {
            Err(InvalidField)
        }
    }

    open spec fn encode_spec(self) -> u8 {
        self@
    }

    fn address() -> (address: RegisterAddress)
        ensures
            address == RegisterAddress::ChargerConfigControl0,
    {
        RegisterAddress::ChargerConfigControl0
    }

    /// Every byte is legal, so every byte decodes.
    fn decode(byte: u8) -> (value: Result<Self, InvalidField>)
        ensures
            value matches Ok(register) && register@ == byte,
    {
        proof {
            Self::lemma_legal(byte);
        }
        Ok(ChargerConfig0 { bits: byte })
    }

    fn encode(self) -> (byte: u8)
        ensures
            byte == self@,
    {
        self.bits
    }

    proof fn lemma_decode_encode(value: Self) {
        Self::lemma_legal(value@);
    }
}

impl WritableRegister for ChargerConfig0 {
    proof fn lemma_writable() {
    }

    proof fn lemma_encode_decode(byte: u8) {
    }
}

/// Termination current, as a share of the charge current.
#[derive(Clone, Copy, Debug, PartialEq, Eq, Structural)]
pub enum TerminationCurrentScalingFactor {
    /// 5 %
    P5,
    /// 10 %
    P10,
    /// 15 %
    P15,
    /// 20 %
    P20,
}

impl TerminationCurrentScalingFactor {
    /// The two-bit code that stands for this factor.
    pub open spec fn code_spec(self) -> u8 {
        match self {
            TerminationCurrentScalingFactor::P5 => 0b00,
            TerminationCurrentScalingFactor::P10 => 0b01,
            TerminationCurrentScalingFactor::P15 => 0b10,
            TerminationCurrentScalingFactor::P20 => 0b11,
        }
    }

    /// The factor that `code` stands for. A code above 0b11 stands for none.
    pub open spec fn from_code_spec(code: u8) -> Result<Self, InvalidField> {
        match code {
            0b00 => Ok(TerminationCurrentScalingFactor::P5),
            0b01 => Ok(TerminationCurrentScalingFactor::P10),
            0b10 => Ok(TerminationCurrentScalingFactor::P15),
            0b11 => Ok(TerminationCurrentScalingFactor::P20),
            _ => Err(InvalidField),
        }
    }

    /// The two-bit code that stands for this factor.
    #[verifier::when_used_as_spec(code_spec)]
    pub fn code(self) -> (code: u8)
        ensures
            code == self.code_spec(),
    {
        match self {
            TerminationCurrentScalingFactor::P5 => 0b00,
            TerminationCurrentScalingFactor::P10 => 0b01,
            TerminationCurrentScalingFactor::P15 => 0b10,
            TerminationCurrentScalingFactor::P20 => 0b11,
        }
    }

    /// The factor that `code` stands for, or the failure where it stands for none.
    pub fn from_code(code: u8) -> (value: Result<Self, InvalidField>)
        ensures
            value == Self::from_code_spec(code),
    {
        match code {
            0b00 => Ok(TerminationCurrentScalingFactor::P5),
            0b01 => Ok(TerminationCurrentScalingFactor::P10),
            0b10 => Ok(TerminationCurrentScalingFactor::P15),
            0b11 => Ok(TerminationCurrentScalingFactor::P20),
            _ => Err(InvalidField),
        }
    }

    /// Every factor has a code below 4, and that code stands for it.
    pub proof fn lemma_code(value: Self)
        ensures
            value.code() < 4,
            Self::from_code_spec(value.code()) == Ok::<Self, InvalidField>(value),
    {
    }

    /// The codes below 4 are the ones that stand for a factor, each for the
    /// factor that has it as its code; every other code is rejected.
    pub proof fn lemma_from_code(code: u8)
        ensures
            Self::from_code_spec(code) is Ok <==> code < 4,
            Self::from_code_spec(code) matches Ok(value) ==> value.code() == code,
    {
    }
}

/// Charge current, as a share of the full charge current.
#[derive(Clone, Copy, Debug, PartialEq, Eq, Structural)]
pub enum ChargeCurrentFactor {
    /// 25 %
    P25,
    /// 50 %
    P50,
    /// 75 %
    P75,
    /// 100 %
    P100,
}

impl ChargeCurrentFactor {
    /// The two-bit code that stands for this factor.
    pub open spec fn code_spec(self) -> u8 {
        match self {
            ChargeCurrentFactor::P25 => 0b00,
            ChargeCurrentFactor::P50 => 0b01,
            ChargeCurrentFactor::P75 => 0b10,
            ChargeCurrentFactor::P100 => 0b11,
        }
    }

    /// The factor that `code` stands for. A code above 0b11 stands for none.
    pub open spec fn from_code_spec(code: u8) -> Result<Self, InvalidField> {
        match code {
            0b00 => Ok(ChargeCurrentFactor::P25),
            0b01 => Ok(ChargeCurrentFactor::P50),
            0b10 => Ok(ChargeCurrentFactor::P75),
            0b11 => Ok(ChargeCurrentFactor::P100),
            _ => Err(InvalidField),
        }
    }

    /// The two-bit code that stands for this factor.
    #[verifier::when_used_as_spec(code_spec)]
    pub fn code(self) -> (code: u8)
        ensures
            code == self.code_spec(),
    {
        match self {
            ChargeCurrentFactor::P25 => 0b00,
            ChargeCurrentFactor::P50 => 0b01,
            ChargeCurrentFactor::P75 => 0b10,
            ChargeCurrentFactor::P100 => 0b11,
        }
    }

    /// The factor that `code` stands for, or the failure where it stands for none.
    pub fn from_code(code: u8) -> (value: Result<Self, InvalidField>)
        ensures
            value == Self::from_code_spec(code),
    {
        match code {
            0b00 => Ok(ChargeCurrentFactor::P25),
            0b01 => Ok(ChargeCurrentFactor::P50),
            0b10 => Ok(ChargeCurrentFactor::P75),
            0b11 => Ok(ChargeCurrentFactor::P100),
            _ => Err(InvalidField),
        }
    }

    /// Every factor has a code below 4, and that code stands for it.
    pub proof fn lemma_code(value: Self)
        ensures
            value.code() < 4,
            Self::from_code_spec(value.code()) == Ok::<Self, InvalidField>(value),
    {
    }

    /// The codes below 4 are the ones that stand for a factor, each for the
    /// factor that has it as its code; every other code is rejected.
    pub proof fn lemma_from_code(code: u8)
        ensures
            Self::from_code_spec(code) is Ok <==> code < 4,
            Self::from_code_spec(code) matches Ok(value) ==> value.code() == code,
    {
    }
}

/// Pre-charge current, as a share of the charge current.
#[derive(Clone, Copy, Debug, PartialEq, Eq, Structural)]
pub enum PreChargeCurrentFactor {
    /// 5 %
    P5,
    /// 10 %
    P10,
    /// 15 %
    P15,
    /// 20 %
    P20,
}

impl PreChargeCurrentFactor {
    /// The two-bit code that stands for this factor.
    pub open spec fn code_spec(self) -> u8 {
        match self {
            PreChargeCurrentFactor::P5 => 0b00,
            PreChargeCurrentFactor::P10 => 0b01,
            PreChargeCurrentFactor::P15 => 0b10,
            PreChargeCurrentFactor::P20 => 0b11,
        }
    }

    /// The factor that `code` stands for. A code above 0b11 stands for none.
    pub open spec fn from_code_spec(code: u8) -> Result<Self, InvalidField> {
        match code {
            0b00 => Ok(PreChargeCurrentFactor::P5),
            0b01 => Ok(PreChargeCurrentFactor::P10),
            0b10 => Ok(PreChargeCurrentFactor::P15),
            0b11 => Ok(PreChargeCurrentFactor::P20),
            _ => Err(InvalidField),
        }
    }

    /// The two-bit code that stands for this factor.
    #[verifier::when_used_as_spec(code_spec)]
    pub fn code(self) -> (code: u8)
        ensures
            code == self.code_spec(),
    {
        match self {
            PreChargeCurrentFactor::P5 => 0b00,
            PreChargeCurrentFactor::P10 => 0b01,
            PreChargeCurrentFactor::P15 => 0b10,
            PreChargeCurrentFactor::P20 => 0b11,
        }
    }

    /// The factor that `code` stands for, or the failure where it stands for none.
    pub fn from_code(code: u8) -> (value: Result<Self, InvalidField>)
        ensures
            value == Self::from_code_spec(code),
    {
        match code {
            0b00 => Ok(PreChargeCurrentFactor::P5),
            0b01 => Ok(PreChargeCurrentFactor::P10),
            0b10 => Ok(PreChargeCurrentFactor::P15),
            0b11 => Ok(PreChargeCurrentFactor::P20),
            _ => Err(InvalidField),
        }
    }

    /// Every factor has a code below 4, and that code stands for it.
    pub proof fn lemma_code(value: Self)
        ensures
            value.code() < 4,
            Self::from_code_spec(value.code()) == Ok::<Self, InvalidField>(value),
    {
    }

    /// The codes below 4 are the ones that stand for a factor, each for the
    /// factor that has it as its code; every other code is rejected.
    pub proof fn lemma_from_code(code: u8)
        ensures
            Self::from_code_spec(code) is Ok <==> code < 4,
            Self::from_code_spec(code) matches Ok(value) ==> value.code() == code,
    {
    }
}

/// `CHGCONFIG1`, charger configuration 1. The host can write it.
///
/// | bits | field |
/// |------|-------|
/// | 0 to 1 | reserved |
/// | 2 to 3 | `termination_current_factor` |
/// | 4 to 5 | `charge_current_factor` |
/// | 6 to 7 | `pre_charge_current_factor` |
///
/// Reserved bits pass through: `decode` keeps them as they were read, no setter
/// touches them, and `encode` hands them back unchanged. `new` clears them.
#[derive(Clone, Copy, Debug, PartialEq, Eq, Structural)]
pub struct ChargerConfig1 {
    bits: u8,
}

impl View for ChargerConfig1 {
    type V = u8;

    /// The byte of the register.
    closed spec fn view(&self) -> u8 {
        self.bits
    }
}

impl ChargerConfig1 {
    /// The value with every bit clear.
    pub fn new() -> (value: Self)
        ensures
            value@ == 0,
    {
        ChargerConfig1 { bits: 0 }
    }

    /// `I_TERM`: the termination current factor.
    pub fn termination_current_factor(&self) -> (value: TerminationCurrentScalingFactor)
        ensures
            value.code() == field(self@, 2, 2),
    {
        let code = get_field(self.bits, 2, 2);
        TerminationCurrentScalingFactor::from_code(code).unwrap()
    }

    /// Sets `I_TERM` and leaves every other bit as it is.
    pub fn set_termination_current_factor(&mut self, value: TerminationCurrentScalingFactor)
        ensures
            final(self)@ == with_field(old(self)@, 2, 2, value.code()),
            field(final(self)@, 2, 2) == value.code(),
            unchanged_outside(old(self)@, final(self)@, 2, 2),
    {
        self.bits = set_field(self.bits, 2, 2, value.code());
    }

    /// This value with `I_TERM` set to `value`.
    pub fn with_termination_current_factor(
        self,
        value: TerminationCurrentScalingFactor,
    ) -> (updated: Self)
        ensures
            updated@ == with_field(self@, 2, 2, value.code()),
            field(updated@, 2, 2) == value.code(),
            unchanged_outside(self@, updated@, 2, 2),
    {
        ChargerConfig1 { bits: set_field(self.bits, 2, 2, value.code()) }
    }

    /// `ICH_SCL`: the charge current factor.
    pub fn charge_current_factor(&self) -> (value: ChargeCurrentFactor)
        ensures
            value.code() == field(self@, 4, 2),
    {
        let code = get_field(self.bits, 4, 2);
        ChargeCurrentFactor::from_code(code).unwrap()
    }

    /// Sets `ICH_SCL` and leaves every other bit as it is.
    pub fn set_charge_current_factor(&mut self, value: ChargeCurrentFactor)
        ensures
            final(self)@ == with_field(old(self)@, 4, 2, value.code()),
            field(final(self)@, 4, 2) == value.code(),
            unchanged_outside(old(self)@, final(self)@, 4, 2),
    {
        self.bits = set_field(self.bits, 4, 2, value.code());
    }

    /// This value with `ICH_SCL` set to `value`.
    pub fn with_charge_current_factor(self, value: ChargeCurrentFactor) -> (updated: Self)
        ensures
            updated@ == with_field(self@, 4, 2, value.code()),
            field(updated@, 4, 2) == value.code(),
            unchanged_outside(self@, updated@, 4, 2),
    {
        ChargerConfig1 { bits: set_field(self.bits, 4, 2, value.code()) }
    }

    /// `I_PRE`: the pre-charge current factor.
    pub fn pre_charge_current_factor(&self) -> (value: PreChargeCurrentFactor)
        ensures
            value.code() == field(self@, 6, 2),
    {
        let code = get_field(self.bits, 6, 2);
        PreChargeCurrentFactor::from_code(code).unwrap()
    }

    /// Sets `I_PRE` and leaves every other bit as it is.
    pub fn set_pre_charge_current_factor(&mut self, value: PreChargeCurrentFactor)
        ensures
            final(self)@ == with_field(old(self)@, 6, 2, value.code()),
            field(final(self)@, 6, 2) == value.code(),
            unchanged_outside(old(self)@, final(self)@, 6, 2),
    {
        self.bits = set_field(self.bits, 6, 2, value.code());
    }

    /// This value with `I_PRE` set to `value`.
    pub fn with_pre_charge_current_factor(self, value: PreChargeCurrentFactor) -> (updated: Self)
        ensures
            updated@ == with_field(self@, 6, 2, value.code()),
            field(updated@, 6, 2) == value.code(),
            unchanged_outside(self@, updated@, 6, 2),
    {
        ChargerConfig1 { bits: set_field(self.bits, 6, 2, value.code()) }
    }

    /// Whether every field of `byte` holds a code that the field's enumeration
    /// lists.
    pub open spec fn legal(byte: u8) -> bool {
        &&& TerminationCurrentScalingFactor::from_code_spec(field(byte, 2, 2)) is Ok
        &&& ChargeCurrentFactor::from_code_spec(field(byte, 4, 2)) is Ok
        &&& PreChargeCurrentFactor::from_code_spec(field(byte, 6, 2)) is Ok
    }

    /// Each enumeration lists every code of its width, so every byte is legal.
    pub proof fn lemma_legal(byte: u8)
        ensures
            Self::legal(byte),
    {
        lemma_field_bound(byte, 2, 2);
        TerminationCurrentScalingFactor::lemma_from_code(field(byte, 2, 2));
        lemma_field_bound(byte, 4, 2);
        ChargeCurrentFactor::lemma_from_code(field(byte, 4, 2));
        lemma_field_bound(byte, 6, 2);
        PreChargeCurrentFactor::lemma_from_code(field(byte, 6, 2));
    }

    /// A byte decodes if and only if it is legal, and then to the value that
    /// holds it; a byte that is not legal is refused. Every byte is legal, so
    /// every byte decodes.
    pub proof fn lemma_decode(byte: u8)
        ensures
            Self::decode_spec(byte) is Ok <==> Self::legal(byte),
            Self::decode_spec(byte) matches Ok(value) && value@ == byte,
    {
        Self::lemma_legal(byte);
    }

    /// The fields and the reserved bits are all of the byte: two values that
    /// agree on each of them are equal.
    pub proof fn lemma_fields_determine_value(a: Self, b: Self)
        requires
            field(a@, 0, 2) == field(b@, 0, 2),
            field(a@, 2, 2) == field(b@, 2, 2),
            field(a@, 4, 2) == field(b@, 4, 2),
            field(a@, 6, 2) == field(b@, 6, 2),
        ensures
            a == b,
    {
        let x = a@;
        let y = b@;
        assert(x == y) by (bit_vector)
            requires
                field(x, 0, 2) == field(y, 0, 2),
                field(x, 2, 2) == field(y, 2, 2),
                field(x, 4, 2) == field(y, 4, 2),
                field(x, 6, 2) == field(y, 6, 2),
        ;
    }
}

impl Register for ChargerConfig1 {
    open spec fn address_spec() -> RegisterAddress {
        RegisterAddress::BatteryChargerConfigControl1
    }

    closed spec fn decode_spec(byte: u8) -> Result<Self, InvalidField> {
        if Self::legal(byte) {
            Ok(ChargerConfig1 { bits: byte })
        } else {
            Err(InvalidField)
        }
    }

    open spec fn encode_spec(self) -> u8 {
        self@
    }

    fn address() -> (address: RegisterAddress)
        ensures
            address == RegisterAddress::BatteryChargerConfigControl1,
    {
        RegisterAddress::BatteryChargerConfigControl1
    }

    /// Every byte is legal, so every byte decodes.
    fn decode(byte: u8) -> (value: Result<Self, InvalidField>)
        ensures
            value matches Ok(register) && register@ == byte,
    {
        proof {
            Self::lemma_legal(byte);
        }
        Ok(ChargerConfig1 { bits: byte })
    }

    fn encode(self) -> (byte: u8)
        ensures
            byte == self@,
    {
        self.bits
    }

    proof fn lemma_decode_encode(value: Self) {
        Self::lemma_legal(value@);
    }
}

impl WritableRegister for ChargerConfig1 {
    proof fn lemma_writable() {
    }

    proof fn lemma_encode_decode(byte: u8) {
    }
}

/// Threshold of the dynamic power path.
#[derive(Clone, Copy, Debug, PartialEq, Eq, Structural)]
pub enum PowerBatThreshold {
    /// The battery voltage plus 100 mV
    VBAT100mV,
    /// 4.3 V
    V4_3,
}

impl PowerBatThreshold {
    /// The one-bit code that stands for this threshold.
    pub open spec fn code_spec(self) -> u8 {
        match self {
            PowerBatThreshold::VBAT100mV => 0b0,
            PowerBatThreshold::V4_3 => 0b1,
        }
    }

    /// The threshold that `code` stands for. A code above 0b1 stands for none.
    pub open spec fn from_code_spec(code: u8) -> Result<Self, InvalidField> {
        match code {
            0b0 => Ok(PowerBatThreshold::VBAT100mV),
            0b1 => Ok(PowerBatThreshold::V4_3),
            _ => Err(InvalidField),
        }
    }

    /// The one-bit code that stands for this threshold.
    #[verifier::when_used_as_spec(code_spec)]
    pub fn code(self) -> (code: u8)
        ensures
            code == self.code_spec(),
    {
        match self {
            PowerBatThreshold::VBAT100mV => 0b0,
            PowerBatThreshold::V4_3 => 0b1,
        }
    }

    /// The threshold that `code` stands for, or the failure where it stands for none.
    pub fn from_code(code: u8) -> (value: Result<Self, InvalidField>)
        ensures
            value == Self::from_code_spec(code),
    {
        match code {
            0b0 => Ok(PowerBatThreshold::VBAT100mV),
            0b1 => Ok(PowerBatThreshold::V4_3),
            _ => Err(InvalidField),
        }
    }

    /// Every threshold has a code below 2, and that code stands for it.
    pub proof fn lemma_code(value: Self)
        ensures
            value.code() < 2,
            Self::from_code_spec(value.code()) == Ok::<Self, InvalidField>(value),
    {
    }

    /// The codes below 2 are the ones that stand for a threshold, each for the
    /// threshold that has it as its code; every other code is rejected.
    pub proof fn lemma_from_code(code: u8)
        ensures
            Self::from_code_spec(code) is Ok <==> code < 2,
            Self::from_code_spec(code) matches Ok(value) ==> value.code() == code,
    {
    }
}

/// Resistance of the NTC temperature sensor.
#[derive(Clone, Copy, Debug, PartialEq, Eq, Structural)]
pub enum NTC {
    /// 100 kOhm
    K100,
    /// 10 kOhm
    K10,
}

impl NTC {
    /// The one-bit code that stands for this resistance.
    pub open spec fn code_spec(self) -> u8 {
        match self {
            NTC::K100 => 0b0,
            NTC::K10 => 0b1,
        }
    }

    /// The resistance that `code` stands for. A code above 0b1 stands for none.
    pub open spec fn from_code_spec(code: u8) -> Result<Self, InvalidField> {
        match code {
            0b0 => Ok(NTC::K100),
            0b1 => Ok(NTC::K10),
            _ => Err(InvalidField),
        }
    }

    /// The one-bit code that stands for this resistance.
    #[verifier::when_used_as_spec(code_spec)]
    pub fn code(self) -> (code: u8)
        ensures
            code == self.code_spec(),
    {
        match self {
            NTC::K100 => 0b0,
            NTC::K10 => 0b1,
        }
    }

    /// The resistance that `code` stands for, or the failure where it stands for none.
    pub fn from_code(code: u8) -> (value: Result<Self, InvalidField>)
        ensures
            value == Self::from_code_spec(code),
    {
        match code {
            0b0 => Ok(NTC::K100),
            0b1 => Ok(NTC::K10),
            _ => Err(InvalidField),
        }
    }

    /// Every resistance has a code below 2, and that code stands for it.
    pub proof fn lemma_code(value: Self)
        ensures
            value.code() < 2,
            Self::from_code_spec(value.code()) == Ok::<Self, InvalidField>(value),
    {
    }

    /// The codes below 2 are the ones that stand for a resistance, each for the
    /// resistance that has it as its code; every other code is rejected.
    pub proof fn lemma_from_code(code: u8)
        ensures
            Self::from_code_spec(code) is Ok <==> code < 2,
            Self::from_code_spec(code) matches Ok(value) ==> value.code() == code,
    {
    }
}

/// Longest time that pre-charging may take.
#[derive(Clone, Copy, Debug, PartialEq, Eq, Structural)]
pub enum PreChargeTimer {
    /// 30 minutes
    Min30,
    /// 60 minutes
    Min60,
}

impl PreChargeTimer {
    /// The one-bit code that stands for this time.
    pub open spec fn code_spec(self) -> u8 {
        match self {
            PreChargeTimer::Min30 => 0b0,
            PreChargeTimer::Min60 => 0b1,
        }
    }

    /// The time that `code` stands for. A code above 0b1 stands for none.
    pub open spec fn from_code_spec(code: u8) -> Result<Self, InvalidField> {
        match code {
            0b0 => Ok(PreChargeTimer::Min30),
            0b1 => Ok(PreChargeTimer::Min60),
            _ => Err(InvalidField),
        }
    }

    /// The one-bit code that stands for this time.
    #[verifier::when_used_as_spec(code_spec)]
    pub fn code(self) -> (code: u8)
        ensures
            code == self.code_spec(),
    {
        match self {
            PreChargeTimer::Min30 => 0b0,
            PreChargeTimer::Min60 => 0b1,
        }
    }

    /// The time that `code` stands for, or the failure where it stands for none.
    pub fn from_code(code: u8) -> (value: Result<Self, InvalidField>)
        ensures
            value == Self::from_code_spec(code),
    {
        match code {
            0b0 => Ok(PreChargeTimer::Min30),
            0b1 => Ok(PreChargeTimer::Min60),
            _ => Err(InvalidField),
        }
    }

    /// Every time has a code below 2, and that code stands for it.
    pub proof fn lemma_code(value: Self)
        ensures
            value.code() < 2,
            Self::from_code_spec(value.code()) == Ok::<Self, InvalidField>(value),
    {
    }

    /// The codes below 2 are the ones that stand for a time, each for the time
    /// that has it as its code; every other code is rejected.
    pub proof fn lemma_from_code(code: u8)
        ensures
            Self::from_code_spec(code) is Ok <==> code < 2,
            Self::from_code_spec(code) matches Ok(value) ==> value.code() == code,
    {
    }
}

/// Longest time that charging may take.
#[derive(Clone, Copy, Debug, PartialEq, Eq, Structural)]
pub enum SafetyChargeTimer {
    /// 4 hours
    Hour4,
    /// 5 hours
    Hour5,
    /// 6 hours
    Hour6,
    /// 8 hours
    Hour8,
}

impl SafetyChargeTimer {
    /// The two-bit code that stands for this time.
    pub open spec fn code_spec(self) -> u8 {
        match self {
            SafetyChargeTimer::Hour4 => 0b00,
            SafetyChargeTimer::Hour5 => 0b01,
            SafetyChargeTimer::Hour6 => 0b10,
            SafetyChargeTimer::Hour8 => 0b11,
        }
    }

    /// The time that `code` stands for. A code above 0b11 stands for none.
    pub open spec fn from_code_spec(code: u8) -> Result<Self, InvalidField> {
        match code {
            0b00 => Ok(SafetyChargeTimer::Hour4),
            0b01 => Ok(SafetyChargeTimer::Hour5),
            0b10 => Ok(SafetyChargeTimer::Hour6),
            0b11 => Ok(SafetyChargeTimer::Hour8),
            _ => Err(InvalidField),
        }
    }

    /// The two-bit code that stands for this time.
    #[verifier::when_used_as_spec(code_spec)]
    pub fn code(self) -> (code: u8)
        ensures
            code == self.code_spec(),
    {
        match self {
            SafetyChargeTimer::Hour4 => 0b00,
            SafetyChargeTimer::Hour5 => 0b01,
            SafetyChargeTimer::Hour6 => 0b10,
            SafetyChargeTimer::Hour8 => 0b11,
        }
    }

    /// The time that `code` stands for, or the failure where it stands for none.
    pub fn from_code(code: u8) -> (value: Result<Self, InvalidField>)
        ensures
            value == Self::from_code_spec(code),
    {
        match code {
            0b00 => Ok(SafetyChargeTimer::Hour4),
            0b01 => Ok(SafetyChargeTimer::Hour5),
            0b10 => Ok(SafetyChargeTimer::Hour6),
            0b11 => Ok(SafetyChargeTimer::Hour8),
            _ => Err(InvalidField),
        }
    }

    /// Every time has a code below 4, and that code stands for it.
    pub proof fn lemma_code(value: Self)
        ensures
            value.code() < 4,
            Self::from_code_spec(value.code()) == Ok::<Self, InvalidField>(value),
    {
    }

    /// The codes below 4 are the ones that stand for a time, each for the time
    /// that has it as its code; every other code is rejected.
    pub proof fn lemma_from_code(code: u8)
        ensures
            Self::from_code_spec(code) is Ok <==> code < 4,
            Self::from_code_spec(code) matches Ok(value) ==> value.code() == code,
    {
    }
}

/// `CHGCONFIG2`, charger configuration 2. The host can write it.
///
/// | bits | field |
/// |------|-------|
/// | 0 | reserved |
/// | 1 | `batt_voltage_comparator_enabled` |
/// | 2 | `dynamic_power_path_treshold` |
/// | 3 | `sensor_resistance` |
/// | 4 | reserved |
/// | 5 | `pre_charge_timer` |
/// | 6 to 7 | `safety_charge_timer` |
///
/// Reserved bits pass through: `decode` keeps them as they were read, no setter
/// touches them, and `encode` hands them back unchanged. `new` clears them.
#[derive(Clone, Copy, Debug, PartialEq, Eq, Structural)]
pub struct ChargerConfig2 {
    bits: u8,
}

impl View for ChargerConfig2 {
    type V = u8;

    /// The byte of the register.
    closed spec fn view(&self) -> u8 {
        self.bits
    }
}

impl ChargerConfig2 {
    /// The value with every bit clear.
    pub fn new() -> (value: Self)
        ensures
            value@ == 0,
    {
        ChargerConfig2 { bits: 0 }
    }

    /// `VBAT_COMP_EN`: whether the battery voltage comparator is enabled.
    pub fn batt_voltage_comparator_enabled(&self) -> (value: bool)
        ensures
            value == bit(self@, 1),
    {
        get_bit(self.bits, 1)
    }

    /// Sets `VBAT_COMP_EN` and leaves every other bit as it is.
    pub fn set_batt_voltage_comparator_enabled(&mut self, value: bool)
        ensures
            final(self)@ == with_bit(old(self)@, 1, value),
            bit(final(self)@, 1) == value,
            unchanged_outside(old(self)@, final(self)@, 1, 1),
    {
        self.bits = set_bit(self.bits, 1, value);
    }

    /// This value with `VBAT_COMP_EN` set to `value`.
    pub fn with_batt_voltage_comparator_enabled(self, value: bool) -> (updated: Self)
        ensures
            updated@ == with_bit(self@, 1, value),
            bit(updated@, 1) == value,
            unchanged_outside(self@, updated@, 1, 1),
    {
        ChargerConfig2 { bits: set_bit(self.bits, 1, value) }
    }

    /// `V_DDPM`: the threshold of the dynamic power path.
    pub fn dynamic_power_path_treshold(&self) -> (value: PowerBatThreshold)
        ensures
            value.code() == field(self@, 2, 1),
    {
        let code = get_field(self.bits, 2, 1);
        PowerBatThreshold::from_code(code).unwrap()
    }

    /// Sets `V_DDPM` and leaves every other bit as it is.
    pub fn set_dynamic_power_path_treshold(&mut self, value: PowerBatThreshold)
        ensures
            final(self)@ == with_field(old(self)@, 2, 1, value.code()),
            field(final(self)@, 2, 1) == value.code(),
            unchanged_outside(old(self)@, final(self)@, 2, 1),
    {
        self.bits = set_field(self.bits, 2, 1, value.code());
    }

    /// This value with `V_DDPM` set to `value`.
    pub fn with_dynamic_power_path_treshold(self, value: PowerBatThreshold) -> (updated: Self)
        ensures
            updated@ == with_field(self@, 2, 1, value.code()),
            field(updated@, 2, 1) == value.code(),
            unchanged_outside(self@, updated@, 2, 1),
    {
        ChargerConfig2 { bits: set_field(self.bits, 2, 1, value.code()) }
    }

    /// `NTC`: the resistance of the temperature sensor.
    pub fn sensor_resistance(&self) -> (value: NTC)
        ensures
            value.code() == field(self@, 3, 1),
    {
        let code = get_field(self.bits, 3, 1);
        NTC::from_code(code).unwrap()
    }

    /// Sets `NTC` and leaves every other bit as it is.
    pub fn set_sensor_resistance(&mut self, value: NTC)
        ensures
            final(self)@ == with_field(old(self)@, 3, 1, value.code()),
            field(final(self)@, 3, 1) == value.code(),
            unchanged_outside(old(self)@, final(self)@, 3, 1),
    {
        self.bits = set_field(self.bits, 3, 1, value.code());
    }

    /// This value with `NTC` set to `value`.
    pub fn with_sensor_resistance(self, value: NTC) -> (updated: Self)
        ensures
            updated@ == with_field(self@, 3, 1, value.code()),
            field(updated@, 3, 1) == value.code(),
            unchanged_outside(self@, updated@, 3, 1),
    {
        ChargerConfig2 { bits: set_field(self.bits, 3, 1, value.code()) }
    }

    /// `PRE_TMR`: the pre-charge timer.
    pub fn pre_charge_timer(&self) -> (value: PreChargeTimer)
        ensures
            value.code() == field(self@, 5, 1),
    {
        let code = get_field(self.bits, 5, 1);
        PreChargeTimer::from_code(code).unwrap()
    }

    /// Sets `PRE_TMR` and leaves every other bit as it is.
    pub fn set_pre_charge_timer(&mut self, value: PreChargeTimer)
        ensures
            final(self)@ == with_field(old(self)@, 5, 1, value.code()),
            field(final(self)@, 5, 1) == value.code(),
            unchanged_outside(old(self)@, final(self)@, 5, 1),
    {
        self.bits = set_field(self.bits, 5, 1, value.code());
    }

    /// This value with `PRE_TMR` set to `value`.
    pub fn with_pre_charge_timer(self, value: PreChargeTimer) -> (updated: Self)
        ensures
            updated@ == with_field(self@, 5, 1, value.code()),
            field(updated@, 5, 1) == value.code(),
            unchanged_outside(self@, updated@, 5, 1),
    {
        ChargerConfig2 { bits: set_field(self.bits, 5, 1, value.code()) }
    }

    /// `SFTY_TMR`: the charge safety timer.
    pub fn safety_charge_timer(&self) -> (value: SafetyChargeTimer)
        ensures
            value.code() == field(self@, 6, 2),
    {
        let code = get_field(self.bits, 6, 2);
        SafetyChargeTimer::from_code(code).unwrap()
    }

    /// Sets `SFTY_TMR` and leaves every other bit as it is.
    pub fn set_safety_charge_timer(&mut self, value: SafetyChargeTimer)
        ensures
            final(self)@ == with_field(old(self)@, 6, 2, value.code()),
            field(final(self)@, 6, 2) == value.code(),
            unchanged_outside(old(self)@, final(self)@, 6, 2),
    {
        self.bits = set_field(self.bits, 6, 2, value.code());
    }

    /// This value with `SFTY_TMR` set to `value`.
    pub fn with_safety_charge_timer(self, value: SafetyChargeTimer) -> (updated: Self)
        ensures
            updated@ == with_field(self@, 6, 2, value.code()),
            field(updated@, 6, 2) == value.code(),
            unchanged_outside(self@, updated@, 6, 2),
    {
        ChargerConfig2 { bits: set_field(self.bits, 6, 2, value.code()) }
    }

    /// Whether every field of `byte` holds a code that the field's enumeration
    /// lists.
    pub open spec fn legal(byte: u8) -> bool {
        &&& PowerBatThreshold::from_code_spec(field(byte, 2, 1)) is Ok
        &&& NTC::from_code_spec(field(byte, 3, 1)) is Ok
        &&& PreChargeTimer::from_code_spec(field(byte, 5, 1)) is Ok
        &&& SafetyChargeTimer::from_code_spec(field(byte, 6, 2)) is Ok
    }

    /// Each enumeration lists every code of its width, so every byte is legal.
    pub proof fn lemma_legal(byte: u8)
        ensures
            Self::legal(byte),
    {
        lemma_field_bound(byte, 2, 1);
        PowerBatThreshold::lemma_from_code(field(byte, 2, 1));
        lemma_field_bound(byte, 3, 1);
        NTC::lemma_from_code(field(byte, 3, 1));
        lemma_field_bound(byte, 5, 1);
        PreChargeTimer::lemma_from_code(field(byte, 5, 1));
        lemma_field_bound(byte, 6, 2);
        SafetyChargeTimer::lemma_from_code(field(byte, 6, 2));
    }

    /// A byte decodes if and only if it is legal, and then to the value that
    /// holds it; a byte that is not legal is refused. Every byte is legal, so
    /// every byte decodes.
    pub proof fn lemma_decode(byte: u8)
        ensures
            Self::decode_spec(byte) is Ok <==> Self::legal(byte),
            Self::decode_spec(byte) matches Ok(value) && value@ == byte,
    {
        Self::lemma_legal(byte);
    }

    /// The fields and the reserved bits are all of the byte: two values that
    /// agree on each of them are equal.
    pub proof fn lemma_fields_determine_value(a: Self, b: Self)
        requires
            bit(a@, 0) == bit(b@, 0),
            bit(a@, 1) == bit(b@, 1),
            field(a@, 2, 1) == field(b@, 2, 1),
            field(a@, 3, 1) == field(b@, 3, 1),
            bit(a@, 4) == bit(b@, 4),
            field(a@, 5, 1) == field(b@, 5, 1),
            field(a@, 6, 2) == field(b@, 6, 2),
        ensures
            a == b,
    {
        let x = a@;
        let y = b@;
        assert(x == y) by (bit_vector)
            requires
                bit(x, 0) == bit(y, 0),
                bit(x, 1) == bit(y, 1),
                field(x, 2, 1) == field(y, 2, 1),
                field(x, 3, 1) == field(y, 3, 1),
                bit(x, 4) == bit(y, 4),
                field(x, 5, 1) == field(y, 5, 1),
                field(x, 6, 2) == field(y, 6, 2),
        ;
    }
}

impl Register for ChargerConfig2 {
    open spec fn address_spec() -> RegisterAddress {
        RegisterAddress::BatteryChargerConfigControl2
    }

    closed spec fn decode_spec(byte: u8) -> Result<Self, InvalidField> {
        if Self::legal(byte) {
            Ok(ChargerConfig2 { bits: byte })
        } else {
            Err(InvalidField)
        }
    }

    open spec fn encode_spec(self) -> u8 {
        self@
    }

    fn address() -> (address: RegisterAddress)
        ensures
            address == RegisterAddress::BatteryChargerConfigControl2,
    {
        RegisterAddress::BatteryChargerConfigControl2
    }

    /// Every byte is legal, so every byte decodes.
    fn decode(byte: u8) -> (value: Result<Self, InvalidField>)
        ensures
            value matches Ok(register) && register@ == byte,
    {
        proof {
            Self::lemma_legal(byte);
        }
        Ok(ChargerConfig2 { bits: byte })
    }

    fn encode(self) -> (byte: u8)
        ensures
            byte == self@,
    {
        self.bits
    }

    proof fn lemma_decode_encode(value: Self) {
        Self::lemma_legal(value@);
    }
}

impl WritableRegister for ChargerConfig2 {
    proof fn lemma_writable() {
    }

    proof fn lemma_encode_decode(byte: u8) {
    }
}

/// Threshold of the battery voltage comparator.
#[derive(Clone, Copy, Debug, PartialEq, Eq, Structural)]
pub enum BatteryVoltageTreshold {
    /// 2.2 V
    V2_2,
    /// 2.3 V
    V2_3,
    /// 2.4 V
    V2_4,
    /// 2.5 V
    V2_5,
}

impl BatteryVoltageTreshold {
    /// The two-bit code that stands for this threshold.
    pub open spec fn code_spec(self) -> u8 {
        match self {
            BatteryVoltageTreshold::V2_2 => 0b00,
            BatteryVoltageTreshold::V2_3 => 0b01,
            BatteryVoltageTreshold::V2_4 => 0b10,
            BatteryVoltageTreshold::V2_5 => 0b11,
        }
    }

    /// The threshold that `code` stands for. A code above 0b11 stands for none.
    pub open spec fn from_code_spec(code: u8) -> Result<Self, InvalidField> {
        match code {
            0b00 => Ok(BatteryVoltageTreshold::V2_2),
            0b01 => Ok(BatteryVoltageTreshold::V2_3),
            0b10 => Ok(BatteryVoltageTreshold::V2_4),
            0b11 => Ok(BatteryVoltageTreshold::V2_5),
            _ => Err(InvalidField),
        }
    }

    /// The two-bit code that stands for this threshold.
    #[verifier::when_used_as_spec(code_spec)]
    pub fn code(self) -> (code: u8)
        ensures
            code == self.code_spec(),
    {
        match self {
            BatteryVoltageTreshold::V2_2 => 0b00,
            BatteryVoltageTreshold::V2_3 => 0b01,
            BatteryVoltageTreshold::V2_4 => 0b10,
            BatteryVoltageTreshold::V2_5 => 0b11,
        }
    }

    /// The threshold that `code` stands for, or the failure where it stands for none.
    pub fn from_code(code: u8) -> (value: Result<Self, InvalidField>)
        ensures
            value == Self::from_code_spec(code),
    {
        match code {
            0b00 => Ok(BatteryVoltageTreshold::V2_2),
            0b01 => Ok(BatteryVoltageTreshold::V2_3),
            0b10 => Ok(BatteryVoltageTreshold::V2_4),
            0b11 => Ok(BatteryVoltageTreshold::V2_5),
            _ => Err(InvalidField),
        }
    }

    /// Every threshold has a code below 4, and that code stands for it.
    pub proof fn lemma_code(value: Self)
        ensures
            value.code() < 4,
            Self::from_code_spec(value.code()) == Ok::<Self, InvalidField>(value),
    {
    }

    /// The codes below 4 are the ones that stand for a threshold, each for the
    /// threshold that has it as its code; every other code is rejected.
    pub proof fn lemma_from_code(code: u8)
        ensures
            Self::from_code_spec(code) is Ok <==> code < 4,
            Self::from_code_spec(code) matches Ok(value) ==> value.code() == code,
    {
    }
}

/// Temperature window in which the battery is charged.
#[derive(Clone, Copy, Debug, PartialEq, Eq, Structural)]
pub enum BatteryTemperatureShift {
    /// 0 to 45 degrees Celsius
    C0_45,
    /// 5 to 50 degrees Celsius
    C5_50,
    /// 10 to 55 degrees Celsius
    C10_55,
    /// 15 to 60 degrees Celsius
    C15_60,
}

impl BatteryTemperatureShift {
    /// The two-bit code that stands for this window.
    pub open spec fn code_spec(self) -> u8 {
        match self {
            BatteryTemperatureShift::C0_45 => 0b00,
            BatteryTemperatureShift::C5_50 => 0b01,
            BatteryTemperatureShift::C10_55 => 0b10,
            BatteryTemperatureShift::C15_60 => 0b11,
        }
    }

    /// The window that `code` stands for. A code above 0b11 stands for none.
    pub open spec fn from_code_spec(code: u8) -> Result<Self, InvalidField> {
        match code {
            0b00 => Ok(BatteryTemperatureShift::C0_45),
            0b01 => Ok(BatteryTemperatureShift::C5_50),
            0b10 => Ok(BatteryTemperatureShift::C10_55),
            0b11 => Ok(BatteryTemperatureShift::C15_60),
            _ => Err(InvalidField),
        }
    }

    /// The two-bit code that stands for this window.
    #[verifier::when_used_as_spec(code_spec)]
    pub fn code(self) -> (code: u8)
        ensures
            code == self.code_spec(),
    {
        match self {
            BatteryTemperatureShift::C0_45 => 0b00,
            BatteryTemperatureShift::C5_50 => 0b01,
            BatteryTemperatureShift::C10_55 => 0b10,
            BatteryTemperatureShift::C15_60 => 0b11,
        }
    }

    /// The window that `code` stands for, or the failure where it stands for none.
    pub fn from_code(code: u8) -> (value: Result<Self, InvalidField>)
        ensures
            value == Self::from_code_spec(code),
    {
        match code {
            0b00 => Ok(BatteryTemperatureShift::C0_45),
            0b01 => Ok(BatteryTemperatureShift::C5_50),
            0b10 => Ok(BatteryTemperatureShift::C10_55),
            0b11 => Ok(BatteryTemperatureShift::C15_60),
            _ => Err(InvalidField),
        }
    }

    /// Every window has a code below 4, and that code stands for it.
    pub proof fn lemma_code(value: Self)
        ensures
            value.code() < 4,
            Self::from_code_spec(value.code()) == Ok::<Self, InvalidField>(value),
    {
    }

    /// The codes below 4 are the ones that stand for a window, each for the
    /// window that has it as its code; every other code is rejected.
    pub proof fn lemma_from_code(code: u8)
        ensures
            Self::from_code_spec(code) is Ok <==> code < 4,
            Self::from_code_spec(code) matches Ok(value) ==> value.code() == code,
    {
    }
}

/// Voltage up to which the battery is charged.
#[derive(Clone, Copy, Debug, PartialEq, Eq, Structural)]
pub enum ChargeVoltage {
    /// 4.150 V
    V4_150,
    /// 4.175 V
    V4_175,
    /// 4.200 V
    V4_200,
    /// 4.225 V
    V4_225,
    /// 4.250 V
    V4_250,
    /// 4.275 V
    V4_275,
    /// 4.300 V
    V4_300,
    /// 4.325 V
    V4_325,
}

impl ChargeVoltage {
    /// The three-bit code that stands for this voltage.
    pub open spec fn code_spec(self) -> u8 {
        match self {
            ChargeVoltage::V4_150 => 0b000,
            ChargeVoltage::V4_175 => 0b001,
            ChargeVoltage::V4_200 => 0b010,
            ChargeVoltage::V4_225 => 0b011,
            ChargeVoltage::V4_250 => 0b100,
            ChargeVoltage::V4_275 => 0b101,
            ChargeVoltage::V4_300 => 0b110,
            ChargeVoltage::V4_325 => 0b111,
        }
    }

    /// The voltage that `code` stands for. A code above 0b111 stands for none.
    pub open spec fn from_code_spec(code: u8) -> Result<Self, InvalidField> {
        match code {
            0b000 => Ok(ChargeVoltage::V4_150),
            0b001 => Ok(ChargeVoltage::V4_175),
            0b010 => Ok(ChargeVoltage::V4_200),
            0b011 => Ok(ChargeVoltage::V4_225),
            0b100 => Ok(ChargeVoltage::V4_250),
            0b101 => Ok(ChargeVoltage::V4_275),
            0b110 => Ok(ChargeVoltage::V4_300),
            0b111 => Ok(ChargeVoltage::V4_325),
            _ => Err(InvalidField),
        }
    }

    /// The three-bit code that stands for this voltage.
    #[verifier::when_used_as_spec(code_spec)]
    pub fn code(self) -> (code: u8)
        ensures
            code == self.code_spec(),
    {
        match self {
            ChargeVoltage::V4_150 => 0b000,
            ChargeVoltage::V4_175 => 0b001,
            ChargeVoltage::V4_200 => 0b010,
            ChargeVoltage::V4_225 => 0b011,
            ChargeVoltage::V4_250 => 0b100,
            ChargeVoltage::V4_275 => 0b101,
            ChargeVoltage::V4_300 => 0b110,
            ChargeVoltage::V4_325 => 0b111,
        }
    }

    /// The voltage that `code` stands for, or the failure where it stands for none.
    pub fn from_code(code: u8) -> (value: Result<Self, InvalidField>)
        ensures
            value == Self::from_code_spec(code),
    {
        match code {
            0b000 => Ok(ChargeVoltage::V4_150),
            0b001 => Ok(ChargeVoltage::V4_175),
            0b010 => Ok(ChargeVoltage::V4_200),
            0b011 => Ok(ChargeVoltage::V4_225),
            0b100 => Ok(ChargeVoltage::V4_250),
            0b101 => Ok(ChargeVoltage::V4_275),
            0b110 => Ok(ChargeVoltage::V4_300),
            0b111 => Ok(ChargeVoltage::V4_325),
            _ => Err(InvalidField),
        }
    }

    /// Every voltage has a code below 8, and that code stands for it.
    pub proof fn lemma_code(value: Self)
        ensures
            value.code() < 8,
            Self::from_code_spec(value.code()) == Ok::<Self, InvalidField>(value),
    {
    }

    /// The codes below 8 are the ones that stand for a voltage, each for the
    /// voltage that has it as its code; every other code is rejected.
    pub proof fn lemma_from_code(code: u8)
        ensures
            Self::from_code_spec(code) is Ok <==> code < 8,
            Self::from_code_spec(code) matches Ok(value) ==> value.code() == code,
    {
    }
}

/// `CHGCONFIG3`, charger configuration 3. The host can write it.
///
/// | bits | field |
/// |------|-------|
/// | 0 | `vbatt_comparator`, read only |
/// | 1 to 2 | `vbatt_treshold` |
/// | 3 to 4 | `batt_temperature_shift` |
/// | 5 to 7 | `charge_voltage` |
#[derive(Clone, Copy, Debug, PartialEq, Eq, Structural)]
pub struct ChargerConfig3 {
    bits: u8,
}

impl View for ChargerConfig3 {
    type V = u8;

    /// The byte of the register.
    closed spec fn view(&self) -> u8 {
        self.bits
    }
}

impl ChargerConfig3 {
    /// The value with every bit clear.
    pub fn new() -> (value: Self)
        ensures
            value@ == 0,
    {
        ChargerConfig3 { bits: 0 }
    }

    /// `VBAT_COMP`: the output of the battery voltage comparator.
    pub fn vbatt_comparator(&self) -> (value: bool)
        ensures
            value == bit(self@, 0),
    {
        get_bit(self.bits, 0)
    }

    /// `VBAT`: the threshold of the battery voltage comparator.
    pub fn vbatt_treshold(&self) -> (value: BatteryVoltageTreshold)
        ensures
            value.code() == field(self@, 1, 2),
    {
        let code = get_field(self.bits, 1, 2);
        BatteryVoltageTreshold::from_code(code).unwrap()
    }

    /// Sets `VBAT` and leaves every other bit as it is.
    pub fn set_vbatt_treshold(&mut self, value: BatteryVoltageTreshold)
        ensures
            final(self)@ == with_field(old(self)@, 1, 2, value.code()),
            field(final(self)@, 1, 2) == value.code(),
            unchanged_outside(old(self)@, final(self)@, 1, 2),
    {
        self.bits = set_field(self.bits, 1, 2, value.code());
    }

    /// This value with `VBAT` set to `value`.
    pub fn with_vbatt_treshold(self, value: BatteryVoltageTreshold) -> (updated: Self)
        ensures
            updated@ == with_field(self@, 1, 2, value.code()),
            field(updated@, 1, 2) == value.code(),
            unchanged_outside(self@, updated@, 1, 2),
    {
        ChargerConfig3 { bits: set_field(self.bits, 1, 2, value.code()) }
    }

    /// `TMP_SHIFT`: the temperature window of charging.
    pub fn batt_temperature_shift(&self) -> (value: BatteryTemperatureShift)
        ensures
            value.code() == field(self@, 3, 2),
    {
        let code = get_field(self.bits, 3, 2);
        BatteryTemperatureShift::from_code(code).unwrap()
    }

    /// Sets `TMP_SHIFT` and leaves every other bit as it is.
    pub fn set_batt_temperature_shift(&mut self, value: BatteryTemperatureShift)
        ensures
            final(self)@ == with_field(old(self)@, 3, 2, value.code()),
            field(final(self)@, 3, 2) == value.code(),
            unchanged_outside(old(self)@, final(self)@, 3, 2),
    {
        self.bits = set_field(self.bits, 3, 2, value.code());
    }

    /// This value with `TMP_SHIFT` set to `value`.
    pub fn with_batt_temperature_shift(self, value: BatteryTemperatureShift) -> (updated: Self)
        ensures
            updated@ == with_field(self@, 3, 2, value.code()),
            field(updated@, 3, 2) == value.code(),
            unchanged_outside(self@, updated@, 3, 2),
    {
        ChargerConfig3 { bits: set_field(self.bits, 3, 2, value.code()) }
    }

    /// `CH_VLTG`: the charge voltage.
    pub fn charge_voltage(&self) -> (value: ChargeVoltage)
        ensures
            value.code() == field(self@, 5, 3),
    {
        let code = get_field(self.bits, 5, 3);
        ChargeVoltage::from_code(code).unwrap()
    }

    /// Sets `CH_VLTG` and leaves every other bit as it is.
    pub fn set_charge_voltage(&mut self, value: ChargeVoltage)
        ensures
            final(self)@ == with_field(old(self)@, 5, 3, value.code()),
            field(final(self)@, 5, 3) == value.code(),
            unchanged_outside(old(self)@, final(self)@, 5, 3),
    {
        self.bits = set_field(self.bits, 5, 3, value.code());
    }

    /// This value with `CH_VLTG` set to `value`.
    pub fn with_charge_voltage(self, value: ChargeVoltage) -> (updated: Self)
        ensures
            updated@ == with_field(self@, 5, 3, value.code()),
            field(updated@, 5, 3) == value.code(),
            unchanged_outside(self@, updated@, 5, 3),
    {
        ChargerConfig3 { bits: set_field(self.bits, 5, 3, value.code()) }
    }

    /// Whether every field of `byte` holds a code that the field's enumeration
    /// lists.
    pub open spec fn legal(byte: u8) -> bool {
        &&& BatteryVoltageTreshold::from_code_spec(field(byte, 1, 2)) is Ok
        &&& BatteryTemperatureShift::from_code_spec(field(byte, 3, 2)) is Ok
        &&& ChargeVoltage::from_code_spec(field(byte, 5, 3)) is Ok
    }

    /// Each enumeration lists every code of its width, so every byte is legal.
    pub proof fn lemma_legal(byte: u8)
        ensures
            Self::legal(byte),
    {
        lemma_field_bound(byte, 1, 2);
        BatteryVoltageTreshold::lemma_from_code(field(byte, 1, 2));
        lemma_field_bound(byte, 3, 2);
        BatteryTemperatureShift::lemma_from_code(field(byte, 3, 2));
        lemma_field_bound(byte, 5, 3);
        ChargeVoltage::lemma_from_code(field(byte, 5, 3));
    }

    /// A byte decodes if and only if it is legal, and then to the value that
    /// holds it; a byte that is not legal is refused. Every byte is legal, so
    /// every byte decodes.
    pub proof fn lemma_decode(byte: u8)
        ensures
            Self::decode_spec(byte) is Ok <==> Self::legal(byte),
            Self::decode_spec(byte) matches Ok(value) && value@ == byte,
    {
        Self::lemma_legal(byte);
    }

    /// The fields are all of the byte: two values that agree on each of them
    /// are equal.
    pub proof fn lemma_fields_determine_value(a: Self, b: Self)
        requires
            bit(a@, 0) == bit(b@, 0),
            field(a@, 1, 2) == field(b@, 1, 2),
            field(a@, 3, 2) == field(b@, 3, 2),
            field(a@, 5, 3) == field(b@, 5, 3),
        ensures
            a == b,
    {
        let x = a@;
        let y = b@;
        assert(x == y) by (bit_vector)
            requires
                bit(x, 0) == bit(y, 0),
                field(x, 1, 2) == field(y, 1, 2),
                field(x, 3, 2) == field(y, 3, 2),
                field(x, 5, 3) == field(y, 5, 3),
        ;
    }
}

impl Register for ChargerConfig3 {
    open spec fn address_spec() -> RegisterAddress {
        RegisterAddress::BatteryChargerConfigControl3
    }

    closed spec fn decode_spec(byte: u8) -> Result<Self, InvalidField> {
        if Self::legal(byte) {
            Ok(ChargerConfig3 { bits: byte })
        } else {
            Err(InvalidField)
        }
    }

    open spec fn encode_spec(self) -> u8 {
        self@
    }

    fn address() -> (address: RegisterAddress)
        ensures
            address == RegisterAddress::BatteryChargerConfigControl3,
    {
        RegisterAddress::BatteryChargerConfigControl3
    }

    /// Every byte is legal, so every byte decodes.
    fn decode(byte: u8) -> (value: Result<Self, InvalidField>)
        ensures
            value matches Ok(register) && register@ == byte,
    {
        proof {
            Self::lemma_legal(byte);
        }
        Ok(ChargerConfig3 { bits: byte })
    }

    fn encode(self) -> (byte: u8)
        ensures
            byte == self@,
    {
        self.bits
    }

    proof fn lemma_decode_encode(value: Self) {
        Self::lemma_legal(value@);
    }
}

impl WritableRegister for ChargerConfig3 {
    proof fn lemma_writable() {
    }

    proof fn lemma_encode_decode(byte: u8) {
    }
}

} // verus!
