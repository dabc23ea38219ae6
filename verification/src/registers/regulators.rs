//! The registers of the DCDC converter and the LDO regulator.

use vstd::prelude::*;
use crate::bits::{
    bit, field, get_bit, get_field, lemma_field_bound, set_bit, set_field, unchanged_outside,
    with_bit, with_field,
};
use crate::error::InvalidField;
use crate::registers::{Register, RegisterAddress, WritableRegister};

verus! {

/// Output voltage of a regulator.
#[derive(Clone, Copy, Debug, PartialEq, Eq, Structural)]
pub enum OutputVoltage {
    /// 0.800 V
    V0_800,
    /// 0.825 V
    V0_825,
    /// 0.850 V
    V0_850,
    /// 0.875 V
    V0_875,
    /// 0.900 V
    V0_900,
    /// 0.925 V
    V0_925,
    /// 0.950 V
    V0_950,
    /// 0.975 V
    V0_975,
    /// 1.000 V
    V1_000,
    /// 1.025 V
    V1_025,
    /// 1.050 V
    V1_050,
    /// 1.075 V
    V1_075,
    /// 1.100 V
    V1_100,
    /// 1.125 V
    V1_125,
    /// 1.150 V
    V1_150,
    /// 1.175 V
    V1_175,
    /// 1.200 V
    V1_200,
    /// 1.225 V
    V1_225,
    /// 1.250 V
    V1_250,
    /// 1.275 V
    V1_275,
    /// 1.300 V
    V1_300,
    /// 1.325 V
    V1_325,
    /// 1.350 V
    V1_350,
    /// 1.375 V
    V1_375,
    /// 1.400 V
    V1_400,
    /// 1.425 V
    V1_425,
    /// 1.450 V
    V1_450,
    /// 1.475 V
    V1_475,
    /// 1.500 V
    V1_500,
    /// 1.525 V
    V1_525,
    /// 1.550 V
    V1_550,
    /// 1.575 V
    V1_575,
    /// 1.600 V
    V1_600,
    /// 1.650 V
    V1_650,
    /// 1.700 V
    V1_700,
    /// 1.750 V
    V1_750,
    /// 1.800 V
    V1_800,
    /// 1.850 V
    V1_850,
    /// 1.900 V
    V1_900,
    /// 1.950 V
    V1_950,
    /// 2.000 V
    V2_000,
    /// 2.050 V
    V2_050,
    /// 2.100 V
    V2_100,
    /// 2.150 V
    V2_150,
    /// 2.200 V
    V2_200,
    /// 2.250 V
    V2_250,
    /// 2.300 V
    V2_300,
    /// 2.350 V
    V2_350,
    /// 2.400 V
    V2_400,
    /// 2.450 V
    V2_450,
    /// 2.500 V
    V2_500,
    /// 2.550 V
    V2_550,
    /// 2.600 V
    V2_600,
    /// 2.650 V
    V2_650,
    /// 2.700 V
    V2_700,
    /// 2.750 V
    V2_750,
    /// 2.800 V
    V2_800,
    /// 2.850 V
    V2_850,
    /// 2.900 V
    V2_900,
    /// 2.950 V
    V2_950,
    /// 3.000 V
    V3_000,
    /// 3.100 V
    V3_100,
    /// 3.200 V
    V3_200,
    /// 3.300 V
    V3_300,
}

impl OutputVoltage {
    /// The six-bit code that stands for this voltage.
    pub open spec fn code_spec(self) -> u8 {
        match self {
            OutputVoltage::V0_800 => 0,
            OutputVoltage::V0_825 => 1,
            OutputVoltage::V0_850 => 2,
            OutputVoltage::V0_875 => 3,
            OutputVoltage::V0_900 => 4,
            OutputVoltage::V0_925 => 5,
            OutputVoltage::V0_950 => 6,
            OutputVoltage::V0_975 => 7,
            OutputVoltage::V1_000 => 8,
            OutputVoltage::V1_025 => 9,
            OutputVoltage::V1_050 => 10,
            OutputVoltage::V1_075 => 11,
            OutputVoltage::V1_100 => 12,
            OutputVoltage::V1_125 => 13,
            OutputVoltage::V1_150 => 14,
            OutputVoltage::V1_175 => 15,
            OutputVoltage::V1_200 => 16,
            OutputVoltage::V1_225 => 17,
            OutputVoltage::V1_250 => 18,
            OutputVoltage::V1_275 => 19,
            OutputVoltage::V1_300 => 20,
            OutputVoltage::V1_325 => 21,
            OutputVoltage::V1_350 => 22,
            OutputVoltage::V1_375 => 23,
            OutputVoltage::V1_400 => 24,
            OutputVoltage::V1_425 => 25,
            OutputVoltage::V1_450 => 26,
            OutputVoltage::V1_475 => 27,
            OutputVoltage::V1_500 => 28,
            OutputVoltage::V1_525 => 29,
            OutputVoltage::V1_550 => 30,
            OutputVoltage::V1_575 => 31,
            OutputVoltage::V1_600 => 32,
            OutputVoltage::V1_650 => 33,
            OutputVoltage::V1_700 => 34,
            OutputVoltage::V1_750 => 35,
            OutputVoltage::V1_800 => 36,
            OutputVoltage::V1_850 => 37,
            OutputVoltage::V1_900 => 38,
            OutputVoltage::V1_950 => 39,
            OutputVoltage::V2_000 => 40,
            OutputVoltage::V2_050 => 41,
            OutputVoltage::V2_100 => 42,
            OutputVoltage::V2_150 => 43,
            OutputVoltage::V2_200 => 44,
            OutputVoltage::V2_250 => 45,
            OutputVoltage::V2_300 => 46,
            OutputVoltage::V2_350 => 47,
            OutputVoltage::V2_400 => 48,
            OutputVoltage::V2_450 => 49,
            OutputVoltage::V2_500 => 50,
            OutputVoltage::V2_550 => 51,
            OutputVoltage::V2_600 => 52,
            OutputVoltage::V2_650 => 53,
            OutputVoltage::V2_700 => 54,
            OutputVoltage::V2_750 => 55,
            OutputVoltage::V2_800 => 56,
            OutputVoltage::V2_850 => 57,
            OutputVoltage::V2_900 => 58,
            OutputVoltage::V2_950 => 59,
            OutputVoltage::V3_000 => 60,
            OutputVoltage::V3_100 => 61,
            OutputVoltage::V3_200 => 62,
            OutputVoltage::V3_300 => 63,
        }
    }

    /// The voltage that `code` stands for. A code above 63 stands for none.
    pub open spec fn from_code_spec(code: u8) -> Result<Self, InvalidField> {
        match code {
            0 => Ok(OutputVoltage::V0_800),
            1 => Ok(OutputVoltage::V0_825),
            2 => Ok(OutputVoltage::V0_850),
            3 => Ok(OutputVoltage::V0_875),
            4 => Ok(OutputVoltage::V0_900),
            5 => Ok(OutputVoltage::V0_925),
            6 => Ok(OutputVoltage::V0_950),
            7 => Ok(OutputVoltage::V0_975),
            8 => Ok(OutputVoltage::V1_000),
            9 => Ok(OutputVoltage::V1_025),
            10 => Ok(OutputVoltage::V1_050),
            11 => Ok(OutputVoltage::V1_075),
            12 => Ok(OutputVoltage::V1_100),
            13 => Ok(OutputVoltage::V1_125),
            14 => Ok(OutputVoltage::V1_150),
            15 => Ok(OutputVoltage::V1_175),
            16 => Ok(OutputVoltage::V1_200),
            17 => Ok(OutputVoltage::V1_225),
            18 => Ok(OutputVoltage::V1_250),
            19 => Ok(OutputVoltage::V1_275),
            20 => Ok(OutputVoltage::V1_300),
            21 => Ok(OutputVoltage::V1_325),
            22 => Ok(OutputVoltage::V1_350),
            23 => Ok(OutputVoltage::V1_375),
            24 => Ok(OutputVoltage::V1_400),
            25 => Ok(OutputVoltage::V1_425),
            26 => Ok(OutputVoltage::V1_450),
            27 => Ok(OutputVoltage::V1_475),
            28 => Ok(OutputVoltage::V1_500),
            29 => Ok(OutputVoltage::V1_525),
            30 => Ok(OutputVoltage::V1_550),
            31 => Ok(OutputVoltage::V1_575),
            32 => Ok(OutputVoltage::V1_600),
            33 => Ok(OutputVoltage::V1_650),
            34 => Ok(OutputVoltage::V1_700),
            35 => Ok(OutputVoltage::V1_750),
            36 => Ok(OutputVoltage::V1_800),
            37 => Ok(OutputVoltage::V1_850),
            38 => Ok(OutputVoltage::V1_900),
            39 => Ok(OutputVoltage::V1_950),
            40 => Ok(OutputVoltage::V2_000),
            41 => Ok(OutputVoltage::V2_050),
            42 => Ok(OutputVoltage::V2_100),
            43 => Ok(OutputVoltage::V2_150),
            44 => Ok(OutputVoltage::V2_200),
            45 => Ok(OutputVoltage::V2_250),
            46 => Ok(OutputVoltage::V2_300),
            47 => Ok(OutputVoltage::V2_350),
            48 => Ok(OutputVoltage::V2_400),
            49 => Ok(OutputVoltage::V2_450),
            50 => Ok(OutputVoltage::V2_500),
            51 => Ok(OutputVoltage::V2_550),
            52 => Ok(OutputVoltage::V2_600),
            53 => Ok(OutputVoltage::V2_650),
            54 => Ok(OutputVoltage::V2_700),
            55 => Ok(OutputVoltage::V2_750),
            56 => Ok(OutputVoltage::V2_800),
            57 => Ok(OutputVoltage::V2_850),
            58 => Ok(OutputVoltage::V2_900),
            59 => Ok(OutputVoltage::V2_950),
            60 => Ok(OutputVoltage::V3_000),
            61 => Ok(OutputVoltage::V3_100),
            62 => Ok(OutputVoltage::V3_200),
            63 => Ok(OutputVoltage::V3_300),
            _ => Err(InvalidField),
        }
    }

    /// The six-bit code that stands for this voltage.
    #[verifier::when_used_as_spec(code_spec)]
    pub fn code(self) -> (code: u8)
        ensures
            code == self.code_spec(),
    {
        match self {
            OutputVoltage::V0_800 => 0,
            OutputVoltage::V0_825 => 1,
            OutputVoltage::V0_850 => 2,
            OutputVoltage::V0_875 => 3,
            OutputVoltage::V0_900 => 4,
            OutputVoltage::V0_925 => 5,
            OutputVoltage::V0_950 => 6,
            OutputVoltage::V0_975 => 7,
            OutputVoltage::V1_000 => 8,
            OutputVoltage::V1_025 => 9,
            OutputVoltage::V1_050 => 10,
            OutputVoltage::V1_075 => 11,
            OutputVoltage::V1_100 => 12,
            OutputVoltage::V1_125 => 13,
            OutputVoltage::V1_150 => 14,
            OutputVoltage::V1_175 => 15,
            OutputVoltage::V1_200 => 16,
            OutputVoltage::V1_225 => 17,
            OutputVoltage::V1_250 => 18,
            OutputVoltage::V1_275 => 19,
            OutputVoltage::V1_300 => 20,
            OutputVoltage::V1_325 => 21,
            OutputVoltage::V1_350 => 22,
            OutputVoltage::V1_375 => 23,
            OutputVoltage::V1_400 => 24,
            OutputVoltage::V1_425 => 25,
            OutputVoltage::V1_450 => 26,
            OutputVoltage::V1_475 => 27,
            OutputVoltage::V1_500 => 28,
            OutputVoltage::V1_525 => 29,
            OutputVoltage::V1_550 => 30,
            OutputVoltage::V1_575 => 31,
            OutputVoltage::V1_600 => 32,
            OutputVoltage::V1_650 => 33,
            OutputVoltage::V1_700 => 34,
            OutputVoltage::V1_750 => 35,
            OutputVoltage::V1_800 => 36,
            OutputVoltage::V1_850 => 37,
            OutputVoltage::V1_900 => 38,
            OutputVoltage::V1_950 => 39,
            OutputVoltage::V2_000 => 40,
            OutputVoltage::V2_050 => 41,
            OutputVoltage::V2_100 => 42,
            OutputVoltage::V2_150 => 43,
            OutputVoltage::V2_200 => 44,
            OutputVoltage::V2_250 => 45,
            OutputVoltage::V2_300 => 46,
            OutputVoltage::V2_350 => 47,
            OutputVoltage::V2_400 => 48,
            OutputVoltage::V2_450 => 49,
            OutputVoltage::V2_500 => 50,
            OutputVoltage::V2_550 => 51,
            OutputVoltage::V2_600 => 52,
            OutputVoltage::V2_650 => 53,
            OutputVoltage::V2_700 => 54,
            OutputVoltage::V2_750 => 55,
            OutputVoltage::V2_800 => 56,
            OutputVoltage::V2_850 => 57,
            OutputVoltage::V2_900 => 58,
            OutputVoltage::V2_950 => 59,
            OutputVoltage::V3_000 => 60,
            OutputVoltage::V3_100 => 61,
            OutputVoltage::V3_200 => 62,
            OutputVoltage::V3_300 => 63,
        }
    }

    /// The voltage that `code` stands for, or the failure where it stands for none.
    pub fn from_code(code: u8) -> (value: Result<Self, InvalidField>)
        ensures
            value == Self::from_code_spec(code),
    {
        match code {
            0 => Ok(OutputVoltage::V0_800),
            1 => Ok(OutputVoltage::V0_825),
            2 => Ok(OutputVoltage::V0_850),
            3 => Ok(OutputVoltage::V0_875),
            4 => Ok(OutputVoltage::V0_900),
            5 => Ok(OutputVoltage::V0_925),
            6 => Ok(OutputVoltage::V0_950),
            7 => Ok(OutputVoltage::V0_975),
            8 => Ok(OutputVoltage::V1_000),
            9 => Ok(OutputVoltage::V1_025),
            10 => Ok(OutputVoltage::V1_050),
            11 => Ok(OutputVoltage::V1_075),
            12 => Ok(OutputVoltage::V1_100),
            13 => Ok(OutputVoltage::V1_125),
            14 => Ok(OutputVoltage::V1_150),
            15 => Ok(OutputVoltage::V1_175),
            16 => Ok(OutputVoltage::V1_200),
            17 => Ok(OutputVoltage::V1_225),
            18 => Ok(OutputVoltage::V1_250),
            19 => Ok(OutputVoltage::V1_275),
            20 => Ok(OutputVoltage::V1_300),
            21 => Ok(OutputVoltage::V1_325),
            22 => Ok(OutputVoltage::V1_350),
            23 => Ok(OutputVoltage::V1_375),
            24 => Ok(OutputVoltage::V1_400),
            25 => Ok(OutputVoltage::V1_425),
            26 => Ok(OutputVoltage::V1_450),
            27 => Ok(OutputVoltage::V1_475),
            28 => Ok(OutputVoltage::V1_500),
            29 => Ok(OutputVoltage::V1_525),
            30 => Ok(OutputVoltage::V1_550),
            31 => Ok(OutputVoltage::V1_575),
            32 => Ok(OutputVoltage::V1_600),
            33 => Ok(OutputVoltage::V1_650),
            34 => Ok(OutputVoltage::V1_700),
            35 => Ok(OutputVoltage::V1_750),
            36 => Ok(OutputVoltage::V1_800),
            37 => Ok(OutputVoltage::V1_850),
            38 => Ok(OutputVoltage::V1_900),
            39 => Ok(OutputVoltage::V1_950),
            40 => Ok(OutputVoltage::V2_000),
            41 => Ok(OutputVoltage::V2_050),
            42 => Ok(OutputVoltage::V2_100),
            43 => Ok(OutputVoltage::V2_150),
            44 => Ok(OutputVoltage::V2_200),
            45 => Ok(OutputVoltage::V2_250),
            46 => Ok(OutputVoltage::V2_300),
            47 => Ok(OutputVoltage::V2_350),
            48 => Ok(OutputVoltage::V2_400),
            49 => Ok(OutputVoltage::V2_450),
            50 => Ok(OutputVoltage::V2_500),
            51 => Ok(OutputVoltage::V2_550),
            52 => Ok(OutputVoltage::V2_600),
            53 => Ok(OutputVoltage::V2_650),
            54 => Ok(OutputVoltage::V2_700),
            55 => Ok(OutputVoltage::V2_750),
            56 => Ok(OutputVoltage::V2_800),
            57 => Ok(OutputVoltage::V2_850),
            58 => Ok(OutputVoltage::V2_900),
            59 => Ok(OutputVoltage::V2_950),
            60 => Ok(OutputVoltage::V3_000),
            61 => Ok(OutputVoltage::V3_100),
            62 => Ok(OutputVoltage::V3_200),
            63 => Ok(OutputVoltage::V3_300),
            _ => Err(InvalidField),
        }
    }

    /// Every voltage has a code below 64, and that code stands for it.
    pub proof fn lemma_code(value: Self)
        ensures
            value.code() < 64,
            Self::from_code_spec(value.code()) == Ok::<Self, InvalidField>(value),
    {
    }

    /// The codes below 64 are the ones that stand for a voltage, each for the
    /// voltage that has it as its code; every other code is rejected.
    pub proof fn lemma_from_code(code: u8)
        ensures
            Self::from_code_spec(code) is Ok <==> code < 64,
            Self::from_code_spec(code) matches Ok(value) ==> value.code() == code,
    {
    }
}

/// `DEFDCDC1`, setting of the DCDC converter. The host can write it.
///
/// | bits | field |
/// |------|-------|
/// | 0 to 5 | `output_voltage` |
/// | 6 | `discharged_when_disabled` |
/// | 7 | `hold` |
#[derive(Clone, Copy, Debug, PartialEq, Eq, Structural)]
pub struct DCDCSetting {
    bits: u8,
}

impl View for DCDCSetting {
    type V = u8;

    /// The byte of the register.
    closed spec fn view(&self) -> u8 {
        self.bits
    }
}

impl DCDCSetting {
    /// The value with every bit clear.
    pub fn new() -> (value: Self)
        ensures
            value@ == 0,
    {
        DCDCSetting { bits: 0 }
    }

    /// `DCDC1`: the output voltage of the converter.
    pub fn output_voltage(&self) -> (value: OutputVoltage)
        ensures
            value.code() == field(self@, 0, 6),
    {
        let code = get_field(self.bits, 0, 6);
        OutputVoltage::from_code(code).unwrap()
    }

    /// Sets `DCDC1` and leaves every other bit as it is.
    pub fn set_output_voltage(&mut self, value: OutputVoltage)
        ensures
            final(self)@ == with_field(old(self)@, 0, 6, value.code()),
            field(final(self)@, 0, 6) == value.code(),
            unchanged_outside(old(self)@, final(self)@, 0, 6),
    {
        self.bits = set_field(self.bits, 0, 6, value.code());
    }

    /// This value with `DCDC1` set to `value`.
    pub fn with_output_voltage(self, value: OutputVoltage) -> (updated: Self)
        ensures
            updated@ == with_field(self@, 0, 6, value.code()),
            field(updated@, 0, 6) == value.code(),
            unchanged_outside(self@, updated@, 0, 6),
    {
        DCDCSetting { bits: set_field(self.bits, 0, 6, value.code()) }
    }

    /// `DCDC_DISCH`: whether the output is discharged while the converter is
    /// disabled.
    pub fn discharged_when_disabled(&self) -> (value: bool)
        ensures
            value == bit(self@, 6),
    {
        get_bit(self.bits, 6)
    }

    /// Sets `DCDC_DISCH` and leaves every other bit as it is.
    pub fn set_discharged_when_disabled(&mut self, value: bool)
        ensures
            final(self)@ == with_bit(old(self)@, 6, value),
            bit(final(self)@, 6) == value,
            unchanged_outside(old(self)@, final(self)@, 6, 1),
    {
        self.bits = set_bit(self.bits, 6, value);
    }

    /// This value with `DCDC_DISCH` set to `value`.
    pub fn with_discharged_when_disabled(self, value: bool) -> (updated: Self)
        ensures
            updated@ == with_bit(self@, 6, value),
            bit(updated@, 6) == value,
            unchanged_outside(self@, updated@, 6, 1),
    {
        DCDCSetting { bits: set_bit(self.bits, 6, value) }
    }

    /// `HOLD_DCDC1`: whether the converter is held enabled.
    pub fn hold(&self) -> (value: bool)
        ensures
            value == bit(self@, 7),
    {
        get_bit(self.bits, 7)
    }

    /// Sets `HOLD_DCDC1` and leaves every other bit as it is.
    pub fn set_hold(&mut self, value: bool)
        ensures
            final(self)@ == with_bit(old(self)@, 7, value),
            bit(final(self)@, 7) == value,
            unchanged_outside(old(self)@, final(self)@, 7, 1),
    {
        self.bits = set_bit(self.bits, 7, value);
    }

    /// This value with `HOLD_DCDC1` set to `value`.
    pub fn with_hold(self, value: bool) -> (updated: Self)
        ensures
            updated@ == with_bit(self@, 7, value),
            bit(updated@, 7) == value,
            unchanged_outside(self@, updated@, 7, 1),
    {
        DCDCSetting { bits: set_bit(self.bits, 7, value) }
    }

    /// Whether every field of `byte` holds a code that the field's enumeration
    /// lists.
    pub open spec fn legal(byte: u8) -> bool {
        OutputVoltage::from_code_spec(field(byte, 0, 6)) is Ok
    }

    /// Each enumeration lists every code of its width, so every byte is legal.
    pub proof fn lemma_legal(byte: u8)
        ensures
            Self::legal(byte),
    {
        lemma_field_bound(byte, 0, 6);
        OutputVoltage::lemma_from_code(field(byte, 0, 6));
    }

    /// A byte decodes if and only if it is legal, and then to the value that
    /// holds it; a byte that is not legal is refused. Every byte is legal, so
    /// every byte decodes.
    pub proof fn lemma_decode(byte: u8)
        ensures
            Self::decode_spec(byte) is Ok <==> Self::legal(byte),
            Self::decode_spec(byte) matches Ok(value) && value@ == byte,
    {
        Self::lemma_legal(byte);
    }

    /// The fields are all of the byte: two values that agree on each of them
    /// are equal.
    pub proof fn lemma_fields_determine_value(a: Self, b: Self)
        requires
            field(a@, 0, 6) == field(b@, 0, 6),
            bit(a@, 6) == bit(b@, 6),
            bit(a@, 7) == bit(b@, 7),
        ensures
            a == b,
    {
        let x = a@;
        let y = b@;
        assert(x == y) by (bit_vector)
            requires
                field(x, 0, 6) == field(y, 0, 6),
                bit(x, 6) == bit(y, 6),
                bit(x, 7) == bit(y, 7),
        ;
    }
}

impl Register for DCDCSetting {
    open spec fn address_spec() -> RegisterAddress {
        RegisterAddress::DCDCSettingControl
    }

    closed spec fn decode_spec(byte: u8) -> Result<Self, InvalidField> {
        if Self::legal(byte) {
            Ok(DCDCSetting { bits: byte })
        } else {
            Err(InvalidField)
        }
    }

    open spec fn encode_spec(self) -> u8 {
        self@
    }

    fn address() -> (address: RegisterAddress)
        ensures
            address == RegisterAddress::DCDCSettingControl,
    {
        RegisterAddress::DCDCSettingControl
    }

    /// Every byte is legal, so every byte decodes.
    fn decode(byte: u8) -> (value: Result<Self, InvalidField>)
        ensures
            value matches Ok(register) && register@ == byte,
    {
        proof {
            Self::lemma_legal(byte);
        }
        Ok(DCDCSetting { bits: byte })
    }

    fn encode(self) -> (byte: u8)
        ensures
            byte == self@,
    {
        self.bits
    }

    proof fn lemma_decode_encode(value: Self) {
        Self::lemma_legal(value@);
    }
}

impl WritableRegister for DCDCSetting {
    proof fn lemma_writable() {
    }

    proof fn lemma_encode_decode(byte: u8) {
    }
}

/// `LDO_CTRL`, setting of the LDO regulator. The host can write it.
///
/// | bits | field |
/// |------|-------|
/// | 0 to 5 | `output_voltage` |
/// | 6 | `discharged_when_disabled` |
/// | 7 | `hold` |
#[derive(Clone, Copy, Debug, PartialEq, Eq, Structural)]
pub struct LDOControl {
    bits: u8,
}

impl View for LDOControl {
    type V = u8;

    /// The byte of the register.
    closed spec fn view(&self) -> u8 {
        self.bits
    }
}

impl LDOControl {
    /// The value with every bit clear.
    pub fn new() -> (value: Self)
        ensures
            value@ == 0,
    {
        LDOControl { bits: 0 }
    }

    /// `LDO1`: the output voltage of the regulator.
    pub fn output_voltage(&self) -> (value: OutputVoltage)
        ensures
            value.code() == field(self@, 0, 6),
    {
        let code = get_field(self.bits, 0, 6);
        OutputVoltage::from_code(code).unwrap()
    }

    /// Sets `LDO1` and leaves every other bit as it is.
    pub fn set_output_voltage(&mut self, value: OutputVoltage)
        ensures
            final(self)@ == with_field(old(self)@, 0, 6, value.code()),
            field(final(self)@, 0, 6) == value.code(),
            unchanged_outside(old(self)@, final(self)@, 0, 6),
    {
        self.bits = set_field(self.bits, 0, 6, value.code());
    }

    /// This value with `LDO1` set to `value`.
    pub fn with_output_voltage(self, value: OutputVoltage) -> (updated: Self)
        ensures
            updated@ == with_field(self@, 0, 6, value.code()),
            field(updated@, 0, 6) == value.code(),
            unchanged_outside(self@, updated@, 0, 6),
    {
        LDOControl { bits: set_field(self.bits, 0, 6, value.code()) }
    }

    /// `LDO1_DISCH`: whether the output is discharged while the regulator is
    /// disabled.
    pub fn discharged_when_disabled(&self) -> (value: bool)
        ensures
            value == bit(self@, 6),
    {
        get_bit(self.bits, 6)
    }

    /// Sets `LDO1_DISCH` and leaves every other bit as it is.
    pub fn set_discharged_when_disabled(&mut self, value: bool)
        ensures
            final(self)@ == with_bit(old(self)@, 6, value),
            bit(final(self)@, 6) == value,
            unchanged_outside(old(self)@, final(self)@, 6, 1),
    {
        self.bits = set_bit(self.bits, 6, value);
    }

    /// This value with `LDO1_DISCH` set to `value`.
    pub fn with_discharged_when_disabled(self, value: bool) -> (updated: Self)
        ensures
            updated@ == with_bit(self@, 6, value),
            bit(updated@, 6) == value,
            unchanged_outside(self@, updated@, 6, 1),
    {
        LDOControl { bits: set_bit(self.bits, 6, value) }
    }

    /// `HOLD_LDO1`: whether the regulator is held enabled.
    pub fn hold(&self) -> (value: bool)
        ensures
            value == bit(self@, 7),
    {
        get_bit(self.bits, 7)
    }

    /// Sets `HOLD_LDO1` and leaves every other bit as it is.
    pub fn set_hold(&mut self, value: bool)
        ensures
            final(self)@ == with_bit(old(self)@, 7, value),
            bit(final(self)@, 7) == value,
            unchanged_outside(old(self)@, final(self)@, 7, 1),
    {
        self.bits = set_bit(self.bits, 7, value);
    }

    /// This value with `HOLD_LDO1` set to `value`.
    pub fn with_hold(self, value: bool) -> (updated: Self)
        ensures
            updated@ == with_bit(self@, 7, value),
            bit(updated@, 7) == value,
            unchanged_outside(self@, updated@, 7, 1),
    {
        LDOControl { bits: set_bit(self.bits, 7, value) }
    }

    /// Whether every field of `byte` holds a code that the field's enumeration
    /// lists.
    pub open spec fn legal(byte: u8) -> bool {
        OutputVoltage::from_code_spec(field(byte, 0, 6)) is Ok
    }

    /// Each enumeration lists every code of its width, so every byte is legal.
    pub proof fn lemma_legal(byte: u8)
        ensures
            Self::legal(byte),
    {
        lemma_field_bound(byte, 0, 6);
        OutputVoltage::lemma_from_code(field(byte, 0, 6));
    }

    /// A byte decodes if and only if it is legal, and then to the value that
    /// holds it; a byte that is not legal is refused. Every byte is legal, so
    /// every byte decodes.
    pub proof fn lemma_decode(byte: u8)
        ensures
            Self::decode_spec(byte) is Ok <==> Self::legal(byte),
            Self::decode_spec(byte) matches Ok(value) && value@ == byte,
    {
        Self::lemma_legal(byte);
    }

    /// The fields are all of the byte: two values that agree on each of them
    /// are equal.
    pub proof fn lemma_fields_determine_value(a: Self, b: Self)
        requires
            field(a@, 0, 6) == field(b@, 0, 6),
            bit(a@, 6) == bit(b@, 6),
            bit(a@, 7) == bit(b@, 7),
        ensures
            a == b,
    {
        let x = a@;
        let y = b@;
        assert(x == y) by (bit_vector)
            requires
                field(x, 0, 6) == field(y, 0, 6),
                bit(x, 6) == bit(y, 6),
                bit(x, 7) == bit(y, 7),
        ;
    }
}

impl Register for LDOControl {
    open spec fn address_spec() -> RegisterAddress {
        RegisterAddress::LDOSettingControl
    }

    closed spec fn decode_spec(byte: u8) -> Result<Self, InvalidField> {
        if Self::legal(byte) {
            Ok(LDOControl { bits: byte })
        } else {
            Err(InvalidField)
        }
    }

    open spec fn encode_spec(self) -> u8 {
        self@
    }

    fn address() -> (address: RegisterAddress)
        ensures
            address == RegisterAddress::LDOSettingControl,
    {
        RegisterAddress::LDOSettingControl
    }

    /// Every byte is legal, so every byte decodes.
    fn decode(byte: u8) -> (value: Result<Self, InvalidField>)
        ensures
            value matches Ok(register) && register@ == byte,
    {
        proof {
            Self::lemma_legal(byte);
        }
        Ok(LDOControl { bits: byte })
    }

    fn encode(self) -> (byte: u8)
        ensures
            byte == self@,
    {
        self.bits
    }

    proof fn lemma_decode_encode(value: Self) {
        Self::lemma_legal(value@);
    }
}

impl WritableRegister for LDOControl {
    proof fn lemma_writable() {
    }

    proof fn lemma_encode_decode(byte: u8) {
    }
}

} // verus!
