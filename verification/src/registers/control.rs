//! The two control registers.

use vstd::prelude::*;
use crate::bits::{
    bit, field, get_bit, get_field, lemma_field_bound, set_bit, set_field, unchanged_outside,
    with_bit, with_field,
};
use crate::error::InvalidField;
use crate::registers::{Register, RegisterAddress, WritableRegister};

verus! {

/// `CONTROL0`, control register 0. The host can write it.
///
/// | bits | field |
/// |------|-------|
/// | 0 to 4 | reserved |
/// | 5 | `good_ldo_range`, read only |
/// | 6 | `good_dcdc_range`, read only |
/// | 7 | `forced_pwm` |
///
/// Reserved bits pass through: `decode` keeps them as they were read, no setter
/// touches them, and `encode` hands them back unchanged. `new` clears them.
#[derive(Clone, Copy, Debug, PartialEq, Eq, Structural)]
pub struct Control0 {
    bits: u8,
}

impl View for Control0 {
    type V = u8;

    /// The byte of the register.
    closed spec fn view(&self) -> u8 {
        self.bits
    }
}

impl Control0 {
    /// The value with every bit clear.
    pub fn new() -> (value: Self)
        ensures
            value@ == 0,
    {
        Control0 { bits: 0 }
    }

    /// `PGOODZ_LDO1`: the power-good signal of the LDO regulator.
    pub fn good_ldo_range(&self) -> (value: bool)
        ensures
            value == bit(self@, 5),
    {
        get_bit(self.bits, 5)
    }

    /// `PGOODZ_DCDC1`: the power-good signal of the DCDC converter.
    pub fn good_dcdc_range(&self) -> (value: bool)
        ensures
            value == bit(self@, 6),
    {
        get_bit(self.bits, 6)
    }

    /// `F_PWM`: whether the DCDC converter is forced into PWM mode.
    pub fn forced_pwm(&self) -> (value: bool)
        ensures
            value == bit(self@, 7),
    {
        get_bit(self.bits, 7)
    }

    /// Sets `F_PWM` and leaves every other bit as it is.
    pub fn set_forced_pwm(&mut self, value: bool)
        ensures
            final(self)@ == with_bit(old(self)@, 7, value),
            bit(final(self)@, 7) == value,
            unchanged_outside(old(self)@, final(self)@, 7, 1),
    {
        self.bits = set_bit(self.bits, 7, value);
    }

    /// This value with `F_PWM` set to `value`.
    pub fn with_forced_pwm(self, value: bool) -> (updated: Self)
        ensures
            updated@ == with_bit(self@, 7, value),
            bit(updated@, 7) == value,
            unchanged_outside(self@, updated@, 7, 1),
    {
        Control0 { bits: set_bit(self.bits, 7, value) }
    }

    /// No field is an enumeration, so every byte decodes, to the value that
    /// holds it.
    pub proof fn lemma_decode(byte: u8)
        ensures
            Self::decode_spec(byte) matches Ok(value) && value@ == byte,
    {
    }

    /// The fields and the reserved bits are all of the byte: two values that
    /// agree on each of them are equal.
    pub proof fn lemma_fields_determine_value(a: Self, b: Self)
        requires
            field(a@, 0, 5) == field(b@, 0, 5),
            bit(a@, 5) == bit(b@, 5),
            bit(a@, 6) == bit(b@, 6),
            bit(a@, 7) == bit(b@, 7),
        ensures
            a == b,
    {
        let x = a@;
        let y = b@;
        assert(x == y) by (bit_vector)
            requires
                field(x, 0, 5) == field(y, 0, 5),
                bit(x, 5) == bit(y, 5),
                bit(x, 6) == bit(y, 6),
                bit(x, 7) == bit(y, 7),
        ;
    }
}

impl Register for Control0 {
    open spec fn address_spec() -> RegisterAddress {
        RegisterAddress::Control0
    }

    closed spec fn decode_spec(byte: u8) -> Result<Self, InvalidField> {
        Ok(Control0 { bits: byte })
    }

    open spec fn encode_spec(self) -> u8 {
        self@
    }

    fn address() -> (address: RegisterAddress)
        ensures
            address == RegisterAddress::Control0,
    {
        RegisterAddress::Control0
    }

    /// No field is an enumeration, so every byte decodes.
    fn decode(byte: u8) -> (value: Result<Self, InvalidField>)
        ensures
            value matches Ok(register) && register@ == byte,
    {
        Ok(Control0 { bits: byte })
    }

    fn encode(self) -> (byte: u8)
        ensures
            byte == self@,
    {
        self.bits
    }

    proof fn lemma_decode_encode(value: Self) {
    }
}

impl WritableRegister for Control0 {
    proof fn lemma_writable() {
    }

    proof fn lemma_encode_decode(byte: u8) {
    }
}

/// Delay of the reset output.
#[derive(Clone, Copy, Debug, PartialEq, Eq, Structural)]
pub enum ResetDelay {
    /// 11 ms
    Ms11,
    /// 90 ms
    Ms90,
}

impl ResetDelay {
    /// The one-bit code that stands for this delay.
    pub open spec fn code_spec(self) -> u8 {
        match self {
            ResetDelay::Ms11 => 0b0,
            ResetDelay::Ms90 => 0b1,
        }
    }

    /// The delay that `code` stands for. A code above 0b1 stands for none.
    pub open spec fn from_code_spec(code: u8) -> Result<Self, InvalidField> {
        match code {
            0b0 => Ok(ResetDelay::Ms11),
            0b1 => Ok(ResetDelay::Ms90),
            _ => Err(InvalidField),
        }
    }

    /// The one-bit code that stands for this delay.
    #[verifier::when_used_as_spec(code_spec)]
    pub fn code(self) -> (code: u8)
        ensures
            code == self.code_spec(),
    {
        match self {
            ResetDelay::Ms11 => 0b0,
            ResetDelay::Ms90 => 0b1,
        }
    }

    /// The delay that `code` stands for, or the failure where it stands for none.
    pub fn from_code(code: u8) -> (value: Result<Self, InvalidField>)
        ensures
            value == Self::from_code_spec(code),
    {
        match code {
            0b0 => Ok(ResetDelay::Ms11),
            0b1 => Ok(ResetDelay::Ms90),
            _ => Err(InvalidField),
        }
    }

    /// Every delay has a code below 2, and that code stands for it.
    pub proof fn lemma_code(value: Self)
        ensures
            value.code() < 2,
            Self::from_code_spec(value.code()) == Ok::<Self, InvalidField>(value),
    {
    }

    /// The codes below 2 are the ones that stand for a delay, each for the
    /// delay that has it as its code; every other code is rejected.
    pub proof fn lemma_from_code(code: u8)
        ensures
            Self::from_code_spec(code) is Ok <==> code < 2,
            Self::from_code_spec(code) matches Ok(value) ==> value.code() == code,
    {
    }
}

/// What the operational amplifier measures.
#[derive(Clone, Copy, Debug, PartialEq, Eq, Structural)]
pub enum OpampMuxMeasurement {
    /// The battery voltage
    BatteryVoltage,
    /// The temperature
    Temperature,
}

impl OpampMuxMeasurement {
    /// The one-bit code that stands for this choice.
    pub open spec fn code_spec(self) -> u8 {
        match self {
            OpampMuxMeasurement::BatteryVoltage => 0b0,
            OpampMuxMeasurement::Temperature => 0b1,
        }
    }

    /// The choice that `code` stands for. A code above 0b1 stands for none.
    pub open spec fn from_code_spec(code: u8) -> Result<Self, InvalidField> {
        match code {
            0b0 => Ok(OpampMuxMeasurement::BatteryVoltage),
            0b1 => Ok(OpampMuxMeasurement::Temperature),
            _ => Err(InvalidField),
        }
    }

    /// The one-bit code that stands for this choice.
    #[verifier::when_used_as_spec(code_spec)]
    pub fn code(self) -> (code: u8)
        ensures
            code == self.code_spec(),
    {
        match self {
            OpampMuxMeasurement::BatteryVoltage => 0b0,
            OpampMuxMeasurement::Temperature => 0b1,
        }
    }

    /// The choice that `code` stands for, or the failure where it stands for none.
    pub fn from_code(code: u8) -> (value: Result<Self, InvalidField>)
        ensures
            value == Self::from_code_spec(code),
    {
        match code {
            0b0 => Ok(OpampMuxMeasurement::BatteryVoltage),
            0b1 => Ok(OpampMuxMeasurement::Temperature),
            _ => Err(InvalidField),
        }
    }

    /// Every choice has a code below 2, and that code stands for it.
    pub proof fn lemma_code(value: Self)
        ensures
            value.code() < 2,
            Self::from_code_spec(value.code()) == Ok::<Self, InvalidField>(value),
    {
    }

    /// The codes below 2 are the ones that stand for a choice, each for the
    /// choice that has it as its code; every other code is rejected.
    pub proof fn lemma_from_code(code: u8)
        ensures
            Self::from_code_spec(code) is Ok <==> code < 2,
            Self::from_code_spec(code) matches Ok(value) ==> value.code() == code,
    {
    }
}

/// `CONTROL1`, control register 1. The host can write it.
///
/// | bits | field |
/// |------|-------|
/// | 0 | `reset_delay` |
/// | 1 to 3 | reserved |
/// | 4 | `push_button_pressed` |
/// | 5 | `dcdc_ldo_enabled`, read only |
/// | 6 to 7 | reserved |
///
/// Reserved bits pass through: `decode` keeps them as they were read, no setter
/// touches them, and `encode` hands them back unchanged. `new` clears them.
#[derive(Clone, Copy, Debug, PartialEq, Eq, Structural)]
pub struct Control1 {
    bits: u8,
}

impl View for Control1 {
    type V = u8;

    /// The byte of the register.
    closed spec fn view(&self) -> u8 {
        self.bits
    }
}

impl Control1 {
    /// The value with every bit clear.
    pub fn new() -> (value: Self)
        ensures
            value@ == 0,
    {
        Control1 { bits: 0 }
    }

    /// `RESET_DELAY`: the delay of the reset output.
    pub fn reset_delay(&self) -> (value: ResetDelay)
        ensures
            value.code() == field(self@, 0, 1),
    {
        let code = get_field(self.bits, 0, 1);
        ResetDelay::from_code(code).unwrap()
    }

    /// Sets `RESET_DELAY` and leaves every other bit as it is.
    pub fn set_reset_delay(&mut self, value: ResetDelay)
        ensures
            final(self)@ == with_field(old(self)@, 0, 1, value.code()),
            field(final(self)@, 0, 1) == value.code(),
            unchanged_outside(old(self)@, final(self)@, 0, 1),
    {
        self.bits = set_field(self.bits, 0, 1, value.code());
    }

    /// This value with `RESET_DELAY` set to `value`.
    pub fn with_reset_delay(self, value: ResetDelay) -> (updated: Self)
        ensures
            updated@ == with_field(self@, 0, 1, value.code()),
            field(updated@, 0, 1) == value.code(),
            unchanged_outside(self@, updated@, 0, 1),
    {
        Control1 { bits: set_field(self.bits, 0, 1, value.code()) }
    }

    /// `PB_STAT`: the state of the push button.
    pub fn push_button_pressed(&self) -> (value: bool)
        ensures
            value == bit(self@, 4),
    {
        get_bit(self.bits, 4)
    }

    /// Sets `PB_STAT` and leaves every other bit as it is.
    pub fn set_push_button_pressed(&mut self, value: bool)
        ensures
            final(self)@ == with_bit(old(self)@, 4, value),
            bit(final(self)@, 4) == value,
            unchanged_outside(old(self)@, final(self)@, 4, 1),
    {
        self.bits = set_bit(self.bits, 4, value);
    }

    /// This value with `PB_STAT` set to `value`.
    pub fn with_push_button_pressed(self, value: bool) -> (updated: Self)
        ensures
            updated@ == with_bit(self@, 4, value),
            bit(updated@, 4) == value,
            unchanged_outside(self@, updated@, 4, 1),
    {
        Control1 { bits: set_bit(self.bits, 4, value) }
    }

    /// `HOLD`: whether the DCDC converter and the LDO regulator are enabled.
    pub fn dcdc_ldo_enabled(&self) -> (value: bool)
        ensures
            value == bit(self@, 5),
    {
        get_bit(self.bits, 5)
    }

    /// Whether every field of `byte` holds a code that the field's enumeration
    /// lists.
    pub open spec fn legal(byte: u8) -> bool {
        ResetDelay::from_code_spec(field(byte, 0, 1)) is Ok
    }

    /// Each enumeration lists every code of its width, so every byte is legal.
    pub proof fn lemma_legal(byte: u8)
        ensures
            Self::legal(byte),
    {
        lemma_field_bound(byte, 0, 1);
        ResetDelay::lemma_from_code(field(byte, 0, 1));
    }

    /// A byte decodes if and only if it is legal, and then to the value that
    /// holds it; a byte that is not legal is refused. Every byte is legal, so
    /// every byte decodes.
    pub proof fn lemma_decode(byte: u8)
        ensures
            Self::decode_spec(byte) is Ok <==> Self::legal(byte),
            Self::decode_spec(byte) matches Ok(value) && value@ == byte,
    {
        Self::lemma_legal(byte);
    }

    /// The fields and the reserved bits are all of the byte: two values that
    /// agree on each of them are equal.
    pub proof fn lemma_fields_determine_value(a: Self, b: Self)
        requires
            field(a@, 0, 1) == field(b@, 0, 1),
            field(a@, 1, 3) == field(b@, 1, 3),
            bit(a@, 4) == bit(b@, 4),
            bit(a@, 5) == bit(b@, 5),
            field(a@, 6, 2) == field(b@, 6, 2),
        ensures
            a == b,
    {
        let x = a@;
        let y = b@;
        assert(x == y) by (bit_vector)
            requires
                field(x, 0, 1) == field(y, 0, 1),
                field(x, 1, 3) == field(y, 1, 3),
                bit(x, 4) == bit(y, 4),
                bit(x, 5) == bit(y, 5),
                field(x, 6, 2) == field(y, 6, 2),
        ;
    }
}

impl Register for Control1 {
    open spec fn address_spec() -> RegisterAddress {
        RegisterAddress::Control1
    }

    closed spec fn decode_spec(byte: u8) -> Result<Self, InvalidField> {
        if Self::legal(byte) {
            Ok(Control1 { bits: byte })
        } else {
            Err(InvalidField)
        }
    }

    open spec fn encode_spec(self) -> u8 {
        self@
    }

    fn address() -> (address: RegisterAddress)
        ensures
            address == RegisterAddress::Control1,
    {
        RegisterAddress::Control1
    }

    /// Every byte is legal, so every byte decodes.
    fn decode(byte: u8) -> (value: Result<Self, InvalidField>)
        ensures
            value matches Ok(register) && register@ == byte,
    {
        proof {
            Self::lemma_legal(byte);
        }
        Ok(Control1 { bits: byte })
    }

    fn encode(self) -> (byte: u8)
        ensures
            byte == self@,
    {
        self.bits
    }

    proof fn lemma_decode_encode(value: Self) {
        Self::lemma_legal(value@);
    }
}

impl WritableRegister for Control1 {
    proof fn lemma_writable() {
    }

    proof fn lemma_encode_decode(byte: u8) {
    }
}

} // verus!
