//! The registers of the four GPIO pins.

use vstd::prelude::*;
use crate::bits::{field, get_field, lemma_field_bound, set_field, unchanged_outside, with_field};
use crate::error::InvalidField;
use crate::registers::{Register, RegisterAddress, WritableRegister};

verus! {

/// State of a GPIO output.
#[derive(Clone, Copy, Debug, PartialEq, Eq, Structural)]
pub enum GPIOPull {
    /// Pulled low, or LED driver on
    PullLowLedDriver,
    /// High impedance
    HighImpedence,
}

impl GPIOPull {
    /// The one-bit code that stands for this state.
    pub open spec fn code_spec(self) -> u8 {
        match self {
            GPIOPull::PullLowLedDriver => 0b0,
            GPIOPull::HighImpedence => 0b1,
        }
    }

    /// The state that `code` stands for. A code above 0b1 stands for none.
    pub open spec fn from_code_spec(code: u8) -> Result<Self, InvalidField> {
        match code {
            0b0 => Ok(GPIOPull::PullLowLedDriver),
            0b1 => Ok(GPIOPull::HighImpedence),
            _ => Err(InvalidField),
        }
    }

    /// The one-bit code that stands for this state.
    #[verifier::when_used_as_spec(code_spec)]
    pub fn code(self) -> (code: u8)
        ensures
            code == self.code_spec(),
    {
        match self {
            GPIOPull::PullLowLedDriver => 0b0,
            GPIOPull::HighImpedence => 0b1,
        }
    }

    /// The state that `code` stands for, or the failure where it stands for none.
    pub fn from_code(code: u8) -> (value: Result<Self, InvalidField>)
        ensures
            value == Self::from_code_spec(code),
    {
        match code {
            0b0 => Ok(GPIOPull::PullLowLedDriver),
            0b1 => Ok(GPIOPull::HighImpedence),
            _ => Err(InvalidField),
        }
    }

    /// Every state has a code below 2, and that code stands for it.
    pub proof fn lemma_code(value: Self)
        ensures
            value.code() < 2,
            Self::from_code_spec(value.code()) == Ok::<Self, InvalidField>(value),
    {
    }

    /// The codes below 2 are the ones that stand for a state, each for the
    /// state that has it as its code; every other code is rejected.
    pub proof fn lemma_from_code(code: u8)
        ensures
            Self::from_code_spec(code) is Ok <==> code < 2,
            Self::from_code_spec(code) matches Ok(value) ==> value.code() == code,
    {
    }
}

/// `GPIOSSC`, state of the GPIO outputs. The host can write it.
///
/// | bits | field |
/// |------|-------|
/// | 0 | `gpio0` |
/// | 1 | `gpio1`, read only |
/// | 2 | `gpio2`, read only |
/// | 3 | `gpio3`, read only |
/// | 4 to 7 | reserved |
///
/// Reserved bits pass through: `decode` keeps them as they were read, no setter
/// touches them, and `encode` hands them back unchanged. `new` clears them.
#[derive(Clone, Copy, Debug, PartialEq, Eq, Structural)]
pub struct GPIOSSC {
    bits: u8,
}

impl View for GPIOSSC {
    type V = u8;

    /// The byte of the register.
    closed spec fn view(&self) -> u8 {
        self.bits
    }
}

impl GPIOSSC {
    /// The value with every bit clear.
    pub fn new() -> (value: Self)
        ensures
            value@ == 0,
    {
        GPIOSSC { bits: 0 }
    }

    /// `GPIO0`: the state of GPIO0.
    pub fn gpio0(&self) -> (value: GPIOPull)
        ensures
            value.code() == field(self@, 0, 1),
    {
        let code = get_field(self.bits, 0, 1);
        GPIOPull::from_code(code).unwrap()
    }

    /// Sets `GPIO0` and leaves every other bit as it is.
    pub fn set_gpio0(&mut self, value: GPIOPull)
        ensures
            final(self)@ == with_field(old(self)@, 0, 1, value.code()),
            field(final(self)@, 0, 1) == value.code(),
            unchanged_outside(old(self)@, final(self)@, 0, 1),
    {
        self.bits = set_field(self.bits, 0, 1, value.code());
    }

    /// This value with `GPIO0` set to `value`.
    pub fn with_gpio0(self, value: GPIOPull) -> (updated: Self)
        ensures
            updated@ == with_field(self@, 0, 1, value.code()),
            field(updated@, 0, 1) == value.code(),
            unchanged_outside(self@, updated@, 0, 1),
    {
        GPIOSSC { bits: set_field(self.bits, 0, 1, value.code()) }
    }

    /// `GPIO1`: the state of GPIO1.
    pub fn gpio1(&self) -> (value: GPIOPull)
        ensures
            value.code() == field(self@, 1, 1),
    {
        let code = get_field(self.bits, 1, 1);
        GPIOPull::from_code(code).unwrap()
    }

    /// `GPIO2`: the state of GPIO2.
    pub fn gpio2(&self) -> (value: GPIOPull)
        ensures
            value.code() == field(self@, 2, 1),
    {
        let code = get_field(self.bits, 2, 1);
        GPIOPull::from_code(code).unwrap()
    }

    /// `GPIO3`: the state of GPIO3.
    pub fn gpio3(&self) -> (value: GPIOPull)
        ensures
            value.code() == field(self@, 3, 1),
    {
        let code = get_field(self.bits, 3, 1);
        GPIOPull::from_code(code).unwrap()
    }

    /// Whether every field of `byte` holds a code that the field's enumeration
    /// lists.
    pub open spec fn legal(byte: u8) -> bool {
        &&& GPIOPull::from_code_spec(field(byte, 0, 1)) is Ok
        &&& GPIOPull::from_code_spec(field(byte, 1, 1)) is Ok
        &&& GPIOPull::from_code_spec(field(byte, 2, 1)) is Ok
        &&& GPIOPull::from_code_spec(field(byte, 3, 1)) is Ok
    }

    /// Each enumeration lists every code of its width, so every byte is legal.
    pub proof fn lemma_legal(byte: u8)
        ensures
            Self::legal(byte),
    {
        lemma_field_bound(byte, 0, 1);
        GPIOPull::lemma_from_code(field(byte, 0, 1));
        lemma_field_bound(byte, 1, 1);
        GPIOPull::lemma_from_code(field(byte, 1, 1));
        lemma_field_bound(byte, 2, 1);
        GPIOPull::lemma_from_code(field(byte, 2, 1));
        lemma_field_bound(byte, 3, 1);
        GPIOPull::lemma_from_code(field(byte, 3, 1));
    }

    /// A byte decodes if and only if it is legal, and then to the value that
    /// holds it; a byte that is not legal is refused. Every byte is legal, so
    /// every byte decodes.
    pub proof fn lemma_decode(byte: u8)
        ensures
            Self::decode_spec(byte) is Ok <==> Self::legal(byte),
            Self::decode_spec(byte) matches Ok(value) && value@ == byte,
    {
        Self::lemma_legal(byte);
    }

    /// The fields and the reserved bits are all of the byte: two values that
    /// agree on each of them are equal.
    pub proof fn lemma_fields_determine_value(a: Self, b: Self)
        requires
            field(a@, 0, 1) == field(b@, 0, 1),
            field(a@, 1, 1) == field(b@, 1, 1),
            field(a@, 2, 1) == field(b@, 2, 1),
            field(a@, 3, 1) == field(b@, 3, 1),
            field(a@, 4, 4) == field(b@, 4, 4),
        ensures
            a == b,
    {
        let x = a@;
        let y = b@;
        assert(x == y) by (bit_vector)
            requires
                field(x, 0, 1) == field(y, 0, 1),
                field(x, 1, 1) == field(y, 1, 1),
                field(x, 2, 1) == field(y, 2, 1),
                field(x, 3, 1) == field(y, 3, 1),
                field(x, 4, 4) == field(y, 4, 4),
        ;
    }
}

impl Register for GPIOSSC {
    open spec fn address_spec() -> RegisterAddress {
        RegisterAddress::GPIOSCC
    }

    closed spec fn decode_spec(byte: u8) -> Result<Self, InvalidField> {
        if Self::legal(byte) {
            Ok(GPIOSSC { bits: byte })
        } else {
            Err(InvalidField)
        }
    }

    open spec fn encode_spec(self) -> u8 {
        self@
    }

    fn address() -> (address: RegisterAddress)
        ensures
            address == RegisterAddress::GPIOSCC,
    {
        RegisterAddress::GPIOSCC
    }

    /// Every byte is legal, so every byte decodes.
    fn decode(byte: u8) -> (value: Result<Self, InvalidField>)
        ensures
            value matches Ok(register) && register@ == byte,
    {
        proof {
            Self::lemma_legal(byte);
        }
        Ok(GPIOSSC { bits: byte })
    }

    fn encode(self) -> (byte: u8)
        ensures
            byte == self@,
    {
        self.bits
    }

    proof fn lemma_decode_encode(value: Self) {
        Self::lemma_legal(value@);
    }
}

impl WritableRegister for GPIOSSC {
    proof fn lemma_writable() {
    }

    proof fn lemma_encode_decode(byte: u8) {
    }
}

/// Direction of a GPIO pin.
#[derive(Clone, Copy, Debug, PartialEq, Eq, Structural)]
pub enum GPIOMode {
    /// The pin is an output
    Ouput,
    /// The pin is an input
    Input,
}

impl GPIOMode {
    /// The one-bit code that stands for this direction.
    pub open spec fn code_spec(self) -> u8 {
        match self {
            GPIOMode::Ouput => 0b0,
            GPIOMode::Input => 0b1,
        }
    }

    /// The direction that `code` stands for. A code above 0b1 stands for none.
    pub open spec fn from_code_spec(code: u8) -> Result<Self, InvalidField> {
        match code {
            0b0 => Ok(GPIOMode::Ouput),
            0b1 => Ok(GPIOMode::Input),
            _ => Err(InvalidField),
        }
    }

    /// The one-bit code that stands for this direction.
    #[verifier::when_used_as_spec(code_spec)]
    pub fn code(self) -> (code: u8)
        ensures
            code == self.code_spec(),
    {
        match self {
            GPIOMode::Ouput => 0b0,
            GPIOMode::Input => 0b1,
        }
    }

    /// The direction that `code` stands for, or the failure where it stands for none.
    pub fn from_code(code: u8) -> (value: Result<Self, InvalidField>)
        ensures
            value == Self::from_code_spec(code),
    {
        match code {
            0b0 => Ok(GPIOMode::Ouput),
            0b1 => Ok(GPIOMode::Input),
            _ => Err(InvalidField),
        }
    }

    /// Every direction has a code below 2, and that code stands for it.
    pub proof fn lemma_code(value: Self)
        ensures
            value.code() < 2,
            Self::from_code_spec(value.code()) == Ok::<Self, InvalidField>(value),
    {
    }

    /// The codes below 2 are the ones that stand for a direction, each for the
    /// direction that has it as its code; every other code is rejected.
    pub proof fn lemma_from_code(code: u8)
        ensures
            Self::from_code_spec(code) is Ok <==> code < 2,
            Self::from_code_spec(code) matches Ok(value) ==> value.code() == code,
    {
    }
}

/// How a GPIO pin drives its load.
#[derive(Clone, Copy, Debug, PartialEq, Eq, Structural)]
pub enum GPIODrive {
    /// Standard GPIO
    StandardGPIO,
    /// LED driver with a 5 mA current sink
    LedDriver5mA,
}

impl GPIODrive {
    /// The one-bit code that stands for this drive.
    pub open spec fn code_spec(self) -> u8 {
        match self {
            GPIODrive::StandardGPIO => 0b0,
            GPIODrive::LedDriver5mA => 0b1,
        }
    }

    /// The drive that `code` stands for. A code above 0b1 stands for none.
    pub open spec fn from_code_spec(code: u8) -> Result<Self, InvalidField> {
        match code {
            0b0 => Ok(GPIODrive::StandardGPIO),
            0b1 => Ok(GPIODrive::LedDriver5mA),
            _ => Err(InvalidField),
        }
    }

    /// The one-bit code that stands for this drive.
    #[verifier::when_used_as_spec(code_spec)]
    pub fn code(self) -> (code: u8)
        ensures
            code == self.code_spec(),
    {
        match self {
            GPIODrive::StandardGPIO => 0b0,
            GPIODrive::LedDriver5mA => 0b1,
        }
    }

    /// The drive that `code` stands for, or the failure where it stands for none.
    pub fn from_code(code: u8) -> (value: Result<Self, InvalidField>)
        ensures
            value == Self::from_code_spec(code),
    {
        match code {
            0b0 => Ok(GPIODrive::StandardGPIO),
            0b1 => Ok(GPIODrive::LedDriver5mA),
            _ => Err(InvalidField),
        }
    }

    /// Every drive has a code below 2, and that code stands for it.
    pub proof fn lemma_code(value: Self)
        ensures
            value.code() < 2,
            Self::from_code_spec(value.code()) == Ok::<Self, InvalidField>(value),
    {
    }

    /// The codes below 2 are the ones that stand for a drive, each for the
    /// drive that has it as its code; every other code is rejected.
    pub proof fn lemma_from_code(code: u8)
        ensures
            Self::from_code_spec(code) is Ok <==> code < 2,
            Self::from_code_spec(code) matches Ok(value) ==> value.code() == code,
    {
    }
}

/// `GPIODIR`, direction and drive of the GPIO pins. The host can write it.
///
/// | bits | field |
/// |------|-------|
/// | 0 | `gpio0` |
/// | 1 | `gpio1` |
/// | 2 | `gpio2` |
/// | 3 | `gpio3` |
/// | 4 to 5 | reserved |
/// | 6 | `gpio2_led` |
/// | 7 | `gpio3_led` |
///
/// Reserved bits pass through: `decode` keeps them as they were read, no setter
/// touches them, and `encode` hands them back unchanged. `new` clears them.
#[derive(Clone, Copy, Debug, PartialEq, Eq, Structural)]
pub struct GPIOConfigControl {
    bits: u8,
}

impl View for GPIOConfigControl {
    type V = u8;

    /// The byte of the register.
    closed spec fn view(&self) -> u8 {
        self.bits
    }
}

impl GPIOConfigControl {
    /// The value with every bit clear.
    pub fn new() -> (value: Self)
        ensures
            value@ == 0,
    {
        GPIOConfigControl { bits: 0 }
    }

    /// `GPIO0_DIR`: the direction of GPIO0.
    pub fn gpio0(&self) -> (value: GPIOMode)
        ensures
            value.code() == field(self@, 0, 1),
    {
        let code = get_field(self.bits, 0, 1);
        GPIOMode::from_code(code).unwrap()
    }

    /// Sets `GPIO0_DIR` and leaves every other bit as it is.
    pub fn set_gpio0(&mut self, value: GPIOMode)
        ensures
            final(self)@ == with_field(old(self)@, 0, 1, value.code()),
            field(final(self)@, 0, 1) == value.code(),
            unchanged_outside(old(self)@, final(self)@, 0, 1),
    {
        self.bits = set_field(self.bits, 0, 1, value.code());
    }

    /// This value with `GPIO0_DIR` set to `value`.
    pub fn with_gpio0(self, value: GPIOMode) -> (updated: Self)
        ensures
            updated@ == with_field(self@, 0, 1, value.code()),
            field(updated@, 0, 1) == value.code(),
            unchanged_outside(self@, updated@, 0, 1),
    {
        GPIOConfigControl { bits: set_field(self.bits, 0, 1, value.code()) }
    }

    /// `GPIO1_DIR`: the direction of GPIO1.
    pub fn gpio1(&self) -> (value: GPIOMode)
        ensures
            value.code() == field(self@, 1, 1),
    {
        let code = get_field(self.bits, 1, 1);
        GPIOMode::from_code(code).unwrap()
    }

    /// Sets `GPIO1_DIR` and leaves every other bit as it is.
    pub fn set_gpio1(&mut self, value: GPIOMode)
        ensures
            final(self)@ == with_field(old(self)@, 1, 1, value.code()),
            field(final(self)@, 1, 1) == value.code(),
            unchanged_outside(old(self)@, final(self)@, 1, 1),
    {
        self.bits = set_field(self.bits, 1, 1, value.code());
    }

    /// This value with `GPIO1_DIR` set to `value`.
    pub fn with_gpio1(self, value: GPIOMode) -> (updated: Self)
        ensures
            updated@ == with_field(self@, 1, 1, value.code()),
            field(updated@, 1, 1) == value.code(),
            unchanged_outside(self@, updated@, 1, 1),
    {
        GPIOConfigControl { bits: set_field(self.bits, 1, 1, value.code()) }
    }

    /// `GPIO2_DIR`: the direction of GPIO2.
    pub fn gpio2(&self) -> (value: GPIOMode)
        ensures
            value.code() == field(self@, 2, 1),
    {
        let code = get_field(self.bits, 2, 1);
        GPIOMode::from_code(code).unwrap()
    }

    /// Sets `GPIO2_DIR` and leaves every other bit as it is.
    pub fn set_gpio2(&mut self, value: GPIOMode)
        ensures
            final(self)@ == with_field(old(self)@, 2, 1, value.code()),
            field(final(self)@, 2, 1) == value.code(),
            unchanged_outside(old(self)@, final(self)@, 2, 1),
    {
        self.bits = set_field(self.bits, 2, 1, value.code());
    }

    /// This value with `GPIO2_DIR` set to `value`.
    pub fn with_gpio2(self, value: GPIOMode) -> (updated: Self)
        ensures
            updated@ == with_field(self@, 2, 1, value.code()),
            field(updated@, 2, 1) == value.code(),
            unchanged_outside(self@, updated@, 2, 1),
    {
        GPIOConfigControl { bits: set_field(self.bits, 2, 1, value.code()) }
    }

    /// `GPIO3_DIR`: the direction of GPIO3.
    pub fn gpio3(&self) -> (value: GPIOMode)
        ensures
            value.code() == field(self@, 3, 1),
    {
        let code = get_field(self.bits, 3, 1);
        GPIOMode::from_code(code).unwrap()
    }

    /// Sets `GPIO3_DIR` and leaves every other bit as it is.
    pub fn set_gpio3(&mut self, value: GPIOMode)
        ensures
            final(self)@ == with_field(old(self)@, 3, 1, value.code()),
            field(final(self)@, 3, 1) == value.code(),
            unchanged_outside(old(self)@, final(self)@, 3, 1),
    {
        self.bits = set_field(self.bits, 3, 1, value.code());
    }

    /// This value with `GPIO3_DIR` set to `value`.
    pub fn with_gpio3(self, value: GPIOMode) -> (updated: Self)
        ensures
            updated@ == with_field(self@, 3, 1, value.code()),
            field(updated@, 3, 1) == value.code(),
            unchanged_outside(self@, updated@, 3, 1),
    {
        GPIOConfigControl { bits: set_field(self.bits, 3, 1, value.code()) }
    }

    /// `GPIO2_LED`: how GPIO2 drives its load.
    pub fn gpio2_led(&self) -> (value: GPIODrive)
        ensures
            value.code() == field(self@, 6, 1),
    {
        let code = get_field(self.bits, 6, 1);
        GPIODrive::from_code(code).unwrap()
    }

    /// Sets `GPIO2_LED` and leaves every other bit as it is.
    pub fn set_gpio2_led(&mut self, value: GPIODrive)
        ensures
            final(self)@ == with_field(old(self)@, 6, 1, value.code()),
            field(final(self)@, 6, 1) == value.code(),
            unchanged_outside(old(self)@, final(self)@, 6, 1),
    {
        self.bits = set_field(self.bits, 6, 1, value.code());
    }

    /// This value with `GPIO2_LED` set to `value`.
    pub fn with_gpio2_led(self, value: GPIODrive) -> (updated: Self)
        ensures
            updated@ == with_field(self@, 6, 1, value.code()),
            field(updated@, 6, 1) == value.code(),
            unchanged_outside(self@, updated@, 6, 1),
    {
        GPIOConfigControl { bits: set_field(self.bits, 6, 1, value.code()) }
    }

    /// `GPIO3_LED`: how GPIO3 drives its load.
    pub fn gpio3_led(&self) -> (value: GPIODrive)
        ensures
            value.code() == field(self@, 7, 1),
    {
        let code = get_field(self.bits, 7, 1);
        GPIODrive::from_code(code).unwrap()
    }

    /// Sets `GPIO3_LED` and leaves every other bit as it is.
    pub fn set_gpio3_led(&mut self, value: GPIODrive)
        ensures
            final(self)@ == with_field(old(self)@, 7, 1, value.code()),
            field(final(self)@, 7, 1) == value.code(),
            unchanged_outside(old(self)@, final(self)@, 7, 1),
    {
        self.bits = set_field(self.bits, 7, 1, value.code());
    }

    /// This value with `GPIO3_LED` set to `value`.
    pub fn with_gpio3_led(self, value: GPIODrive) -> (updated: Self)
        ensures
            updated@ == with_field(self@, 7, 1, value.code()),
            field(updated@, 7, 1) == value.code(),
            unchanged_outside(self@, updated@, 7, 1),
    {
        GPIOConfigControl { bits: set_field(self.bits, 7, 1, value.code()) }
    }

    /// Whether every field of `byte` holds a code that the field's enumeration
    /// lists.
    pub open spec fn legal(byte: u8) -> bool {
        &&& GPIOMode::from_code_spec(field(byte, 0, 1)) is Ok
        &&& GPIOMode::from_code_spec(field(byte, 1, 1)) is Ok
        &&& GPIOMode::from_code_spec(field(byte, 2, 1)) is Ok
        &&& GPIOMode::from_code_spec(field(byte, 3, 1)) is Ok
        &&& GPIODrive::from_code_spec(field(byte, 6, 1)) is Ok
        &&& GPIODrive::from_code_spec(field(byte, 7, 1)) is Ok
    }

    /// Each enumeration lists every code of its width, so every byte is legal.
    pub proof fn lemma_legal(byte: u8)
        ensures
            Self::legal(byte),
    {
        lemma_field_bound(byte, 0, 1);
        GPIOMode::lemma_from_code(field(byte, 0, 1));
        lemma_field_bound(byte, 1, 1);
        GPIOMode::lemma_from_code(field(byte, 1, 1));
        lemma_field_bound(byte, 2, 1);
        GPIOMode::lemma_from_code(field(byte, 2, 1));
        lemma_field_bound(byte, 3, 1);
        GPIOMode::lemma_from_code(field(byte, 3, 1));
        lemma_field_bound(byte, 6, 1);
        GPIODrive::lemma_from_code(field(byte, 6, 1));
        lemma_field_bound(byte, 7, 1);
        GPIODrive::lemma_from_code(field(byte, 7, 1));
    }

    /// A byte decodes if and only if it is legal, and then to the value that
    /// holds it; a byte that is not legal is refused. Every byte is legal, so
    /// every byte decodes.
    pub proof fn lemma_decode(byte: u8)
        ensures
            Self::decode_spec(byte) is Ok <==> Self::legal(byte),
            Self::decode_spec(byte) matches Ok(value) && value@ == byte,
    {
        Self::lemma_legal(byte);
    }

    /// The fields and the reserved bits are all of the byte: two values that
    /// agree on each of them are equal.
    pub proof fn lemma_fields_determine_value(a: Self, b: Self)
        requires
            field(a@, 0, 1) == field(b@, 0, 1),
            field(a@, 1, 1) == field(b@, 1, 1),
            field(a@, 2, 1) == field(b@, 2, 1),
            field(a@, 3, 1) == field(b@, 3, 1),
            field(a@, 4, 2) == field(b@, 4, 2),
            field(a@, 6, 1) == field(b@, 6, 1),
            field(a@, 7, 1) == field(b@, 7, 1),
        ensures
            a == b,
    {
        let x = a@;
        let y = b@;
        assert(x == y) by (bit_vector)
            requires
                field(x, 0, 1) == field(y, 0, 1),
                field(x, 1, 1) == field(y, 1, 1),
                field(x, 2, 1) == field(y, 2, 1),
                field(x, 3, 1) == field(y, 3, 1),
                field(x, 4, 2) == field(y, 4, 2),
                field(x, 6, 1) == field(y, 6, 1),
                field(x, 7, 1) == field(y, 7, 1),
        ;
    }
}

impl Register for GPIOConfigControl {
    open spec fn address_spec() -> RegisterAddress {
        RegisterAddress::GPIOConfigControl
    }

    closed spec fn decode_spec(byte: u8) -> Result<Self, InvalidField> {
        if Self::legal(byte) {
            Ok(GPIOConfigControl { bits: byte })
        } else {
            Err(InvalidField)
        }
    }

    open spec fn encode_spec(self) -> u8 {
        self@
    }

    fn address() -> (address: RegisterAddress)
        ensures
            address == RegisterAddress::GPIOConfigControl,
    {
        RegisterAddress::GPIOConfigControl
    }

    /// Every byte is legal, so every byte decodes.
    fn decode(byte: u8) -> (value: Result<Self, InvalidField>)
        ensures
            value matches Ok(register) && register@ == byte,
    {
        proof {
            Self::lemma_legal(byte);
        }
        Ok(GPIOConfigControl { bits: byte })
    }

    fn encode(self) -> (byte: u8)
        ensures
            byte == self@,
    {
        self.bits
    }

    proof fn lemma_decode_encode(value: Self) {
        Self::lemma_legal(value@);
    }
}

impl WritableRegister for GPIOConfigControl {
    proof fn lemma_writable() {
    }

    proof fn lemma_encode_decode(byte: u8) {
    }
}

} // verus!
