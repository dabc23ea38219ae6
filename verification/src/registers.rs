//! The register catalog: every address of the device, and for each register
//! the type that names the fields of its byte.

use vstd::prelude::*;
use crate::error::InvalidField;

pub mod charger_config;
pub mod charger_status;
pub mod control;
pub mod gpio;
pub mod interrupt;
pub mod regulators;
pub mod tps657201;

pub use self::charger_config::{
    AcInputCurrent, BatteryTemperatureShift, BatteryVoltageTreshold, ChargeCurrentFactor,
    ChargeVoltage, ChargerConfig0, ChargerConfig1, ChargerConfig2, ChargerConfig3, NTC,
    PowerBatThreshold, PreChargeCurrentFactor, PreChargeTimer, SafetyChargeTimer,
    SysOutputVoltage, TerminationCurrentScalingFactor,
};
pub use self::charger_status::{ChargerState, ChargerStatus};
pub use self::control::{Control0, Control1, OpampMuxMeasurement, ResetDelay};
pub use self::gpio::{GPIOConfigControl, GPIODrive, GPIOMode, GPIOPull, GPIOSSC};
pub use self::interrupt::{
    Interrupt1, Interrupt2, InterruptMask1, InterruptMask2, IterruptMask0, Iterrupt0,
};
pub use self::regulators::{DCDCSetting, LDOControl, OutputVoltage};

verus! {

/// The addresses of the device's registers.
#[derive(Clone, Copy, Debug, PartialEq, Eq, Structural)]
pub enum RegisterAddress {
    /// CHGSTATUS
    BatteryChargerStatus,
    /// CHGCONFIG0
    ChargerConfigControl0,
    /// CHGCONFIG1
    BatteryChargerConfigControl1,
    /// CHGCONFIG2
    BatteryChargerConfigControl2,
    /// CHGCONFIG3
    BatteryChargerConfigControl3,
    /// CHGSTATE
    BatteryChargeState,
    /// DEFDCDC1
    DCDCSettingControl,
    /// LDOCTRL
    LDOSettingControl,
    /// CONTROL0
    Control0,
    /// CONTROL1
    Control1,
    /// GPIOSSC
    GPIOSCC,
    /// GPIODIR
    GPIOConfigControl,
    /// IRMASK0
    InterruptMask0,
    /// IRMASK1
    InterruptMask1,
    /// IRMASK2
    InterruptMask2,
    /// IR0
    InterruptReporting0,
    /// IR1
    InterruptReporting1,
    /// IR2
    InterruptReporting2,
}

impl RegisterAddress {
    /// The byte that selects this register on the bus.
    pub open spec fn byte_spec(self) -> u8 {
        match self {
            RegisterAddress::BatteryChargerStatus => 0x01,
            RegisterAddress::ChargerConfigControl0 => 0x02,
            RegisterAddress::BatteryChargerConfigControl1 => 0x03,
            RegisterAddress::BatteryChargerConfigControl2 => 0x04,
            RegisterAddress::BatteryChargerConfigControl3 => 0x05,
            RegisterAddress::BatteryChargeState => 0x06,
            RegisterAddress::DCDCSettingControl => 0x07,
            RegisterAddress::LDOSettingControl => 0x08,
            RegisterAddress::Control0 => 0x09,
            RegisterAddress::Control1 => 0x0A,
            RegisterAddress::GPIOSCC => 0x0B,
            RegisterAddress::GPIOConfigControl => 0x0C,
            RegisterAddress::InterruptMask0 => 0xD0,
            RegisterAddress::InterruptMask1 => 0xE0,
            RegisterAddress::InterruptMask2 => 0xF0,
            RegisterAddress::InterruptReporting0 => 0x10,
            RegisterAddress::InterruptReporting1 => 0x11,
            RegisterAddress::InterruptReporting2 => 0x12,
        }
    }

    /// The byte that selects this register on the bus.
    #[verifier::when_used_as_spec(byte_spec)]
    pub fn byte(self) -> (byte: u8)
        ensures
            byte == self.byte_spec(),
    {
        match self {
            RegisterAddress::BatteryChargerStatus => 0x01,
            RegisterAddress::ChargerConfigControl0 => 0x02,
            RegisterAddress::BatteryChargerConfigControl1 => 0x03,
            RegisterAddress::BatteryChargerConfigControl2 => 0x04,
            RegisterAddress::BatteryChargerConfigControl3 => 0x05,
            RegisterAddress::BatteryChargeState => 0x06,
            RegisterAddress::DCDCSettingControl => 0x07,
            RegisterAddress::LDOSettingControl => 0x08,
            RegisterAddress::Control0 => 0x09,
            RegisterAddress::Control1 => 0x0A,
            RegisterAddress::GPIOSCC => 0x0B,
            RegisterAddress::GPIOConfigControl => 0x0C,
            RegisterAddress::InterruptMask0 => 0xD0,
            RegisterAddress::InterruptMask1 => 0xE0,
            RegisterAddress::InterruptMask2 => 0xF0,
            RegisterAddress::InterruptReporting0 => 0x10,
            RegisterAddress::InterruptReporting1 => 0x11,
            RegisterAddress::InterruptReporting2 => 0x12,
        }
    }

    /// Whether the host may write the register. The status, state and
    /// interrupt-report registers are driven by the hardware and are read
    /// only; the configuration, control and mask registers are writable.
    pub open spec fn writable_spec(self) -> bool {
        match self {
            RegisterAddress::BatteryChargerStatus => false,
            RegisterAddress::BatteryChargeState => false,
            RegisterAddress::InterruptReporting0 => false,
            RegisterAddress::InterruptReporting1 => false,
            RegisterAddress::InterruptReporting2 => false,
            _ => true,
        }
    }

    /// Whether the host may write the register.
    #[verifier::when_used_as_spec(writable_spec)]
    pub fn writable(self) -> (writable: bool)
        ensures
            writable == self.writable_spec(),
    {
        match self {
            RegisterAddress::BatteryChargerStatus => false,
            RegisterAddress::BatteryChargeState => false,
            RegisterAddress::InterruptReporting0 => false,
            RegisterAddress::InterruptReporting1 => false,
            RegisterAddress::InterruptReporting2 => false,
            _ => true,
        }
    }

    /// No two registers share an address.
    pub proof fn lemma_byte_injective(a: RegisterAddress, b: RegisterAddress)
        requires
            a.byte() == b.byte(),
        ensures
            a == b,
    {
    }
}

/// A value that stands for the whole byte of one register.
///
/// The type alone says which register it is: `address` takes no value. A byte
/// read from the device becomes a value through `decode`, and a value becomes
/// the byte to send through `encode`.
pub trait Register: Sized {
    /// The register that values of this type belong to.
    spec fn address_spec() -> RegisterAddress;

    /// The value that `byte` stands for, or the failure where one of its bit
    /// groups holds a code that the field does not list.
    spec fn decode_spec(byte: u8) -> Result<Self, InvalidField>;

    /// The byte that stands for this value.
    spec fn encode_spec(self) -> u8;

    /// The register that values of this type belong to.
    fn address() -> (address: RegisterAddress)
        ensures
            address == Self::address_spec(),
    ;

    /// Decodes a byte read from the register.
    fn decode(byte: u8) -> (value: Result<Self, InvalidField>)
        ensures
            value == Self::decode_spec(byte),
    ;

    /// Encodes the value as the byte to write to the register.
    fn encode(self) -> (byte: u8)
        ensures
            byte == self.encode_spec(),
    ;

    /// Decoding the byte that a value encodes to gives the value back.
    proof fn lemma_decode_encode(value: Self)
        ensures
            Self::decode_spec(value.encode_spec()) == Ok::<Self, InvalidField>(value),
    ;
}

/// A register that the device lets the host write.
///
/// Status, state and interrupt-report registers are driven by the hardware
/// and are not writable.
///
/// A writable register is edited in place: read, changed, written back. So
/// its type keeps every bit of the byte it was decoded from, the reserved
/// ones included, and encodes to that byte again unless a field was set.
pub trait WritableRegister: Register {
    /// The type belongs to a register that the host may write.
    proof fn lemma_writable()
        ensures
            Self::address_spec().writable(),
    ;

    /// Encoding the value that a byte decodes to gives the byte back.
    proof fn lemma_encode_decode(byte: u8)
        ensures
            Self::decode_spec(byte) matches Ok(value) ==> value.encode_spec() == byte,
    ;
}

} // verus!
