//! The two-phase bus protocol, without the bus.
//!
//! Every access to a register is one transaction of two bus calls: the first
//! sends the register's address, the second carries the data. This module
//! decides which call comes next and what a reply means; it never touches the
//! bus. The owner of the bus makes each call that an [`Operation`] asks for
//! and hands the reply to [`Operation::advance`], until that reports the end.
//!
//! A bus call works on a buffer of one byte: a write sends the buffer, a read
//! fills it. The reply to a call is the transport's error, or the buffer as
//! the call left it.

use vstd::prelude::*;
use crate::error::Error;
use crate::registers::RegisterAddress;

verus! {

/// The seven-bit bus address of the device, used for every call.
pub const TPS_ADDRESS: u8 = 0b100_1000;

/// One call on the bus.
#[derive(Clone, Copy, Debug, PartialEq, Eq, Structural)]
pub enum BusRequest {
    /// Send `byte` to the device at bus address `address`.
    Write { address: u8, byte: u8 },
    /// Receive one byte from the device at bus address `address`.
    Read { address: u8 },
}

/// One access to a register.
#[derive(Clone, Copy, Debug, PartialEq, Eq, Structural)]
pub enum Transaction {
    /// Fetch the byte that `register` holds.
    Read { register: RegisterAddress },
    /// Store `value` in `register`.
    Write { register: RegisterAddress, value: u8 },
}

/// The two bus calls of a transaction.
#[derive(Clone, Copy, Debug, PartialEq, Eq, Structural)]
pub enum Phase {
    /// The register's address is sent.
    AddressSelect,
    /// The register's byte is received or sent.
    Data,
}

/// A transaction under way: the bus call of `phase` is the one to make next.
#[derive(Clone, Copy, Debug, PartialEq, Eq, Structural)]
pub struct Exchange {
    pub transaction: Transaction,
    pub phase: Phase,
}

/// What a reply leads to.
#[derive(Debug)]
pub enum Progress<O, T, E> {
    /// The operation goes on: make the call that it asks for now.
    Next(O),
    /// The operation is over, with its result or with the error that ended
    /// it.
    Done(Result<T, Error<E>>),
}

/// What a bus call that succeeded leads to.
pub enum Outcome<O, T> {
    /// The operation goes on.
    Next(O),
    /// The operation is over and yields its result.
    Finished(T),
    /// The operation is over: the byte received does not decode.
    Unexpected,
}

/// An operation on the device that is run one bus call at a time.
///
/// The owner of the bus makes the call that `request` names and hands the
/// reply to `advance`. That gives the operation's next state, to go on with
/// in the same way, or its end.
pub trait Operation: Sized {
    /// What the operation yields when it succeeds.
    type Output;

    /// The bus call to make next.
    spec fn request_spec(&self) -> BusRequest;

    /// Where the operation stands once the call it asked for has succeeded
    /// and left `buffer` in the one-byte buffer.
    spec fn proceed_spec(self, buffer: u8) -> Outcome<Self, Self::Output>;

    /// The bus call to make next.
    fn request(&self) -> (request: BusRequest)
        ensures
            request == self.request_spec(),
    ;

    /// Takes the reply to the call that the operation asked for.
    ///
    /// A failed call ends the operation at once with the transport's error,
    /// whatever the operation and whatever its phase. A call that succeeded
    /// leads where `proceed_spec` says.
    fn advance<E>(self, reply: Result<u8, E>) -> (progress: Progress<Self, Self::Output, E>)
        ensures
            progress == (match reply {
                Err(error) => Progress::Done(Err(Error::I2c(error))),
                Ok(buffer) => match self.proceed_spec(buffer) {
                    Outcome::Next(next) => Progress::Next(next),
                    Outcome::Finished(value) => Progress::Done(Ok(value)),
                    Outcome::Unexpected => Progress::Done(Err(Error::UnexpectedValue)),
                },
            }),
    ;
}

/// Where an operation stands once the call it asked for was answered by
/// `reply`: what `advance` returns.
pub open spec fn advance_spec<O: Operation, E>(operation: O, reply: Result<u8, E>) -> Progress<
    O,
    O::Output,
    E,
> {
    match reply {
        Err(error) => Progress::Done(Err(Error::I2c(error))),
        Ok(buffer) => match operation.proceed_spec(buffer) {
            Outcome::Next(next) => Progress::Next(next),
            Outcome::Finished(value) => Progress::Done(Ok(value)),
            Outcome::Unexpected => Progress::Done(Err(Error::UnexpectedValue)),
        },
    }
}

impl Transaction {
    /// The register that the transaction accesses.
    pub open spec fn register_spec(self) -> RegisterAddress {
        match self {
            Transaction::Read { register } => register,
            Transaction::Write { register, .. } => register,
        }
    }

    /// The register that the transaction accesses.
    #[verifier::when_used_as_spec(register_spec)]
    pub fn register(self) -> (register: RegisterAddress)
        ensures
            register == self.register_spec(),
    {
        match self {
            Transaction::Read { register } => register,
            Transaction::Write { register, .. } => register,
        }
    }
}

impl Exchange {
    /// The exchange at the start of `transaction`.
    pub open spec fn begin_spec(transaction: Transaction) -> Exchange {
        Exchange { transaction, phase: Phase::AddressSelect }
    }

    /// Starts `transaction`.
    #[verifier::when_used_as_spec(begin_spec)]
    pub fn begin(transaction: Transaction) -> (exchange: Exchange)
        ensures
            exchange == Self::begin_spec(transaction),
    {
        Exchange { transaction, phase: Phase::AddressSelect }
    }
}

impl Operation for Exchange {
    /// The byte of the register: the one fetched by a read, the one stored by
    /// a write.
    type Output = u8;

    /// The address phase sends the register's address. The data phase of a
    /// read receives one byte, that of a write sends the value.
    open spec fn request_spec(&self) -> BusRequest {
        match self.phase {
            Phase::AddressSelect => BusRequest::Write {
                address: TPS_ADDRESS,
                byte: self.transaction.register().byte(),
            },
            Phase::Data => match self.transaction {
                Transaction::Read { .. } => BusRequest::Read { address: TPS_ADDRESS },
                Transaction::Write { value, .. } => BusRequest::Write {
                    address: TPS_ADDRESS,
                    byte: value,
                },
            },
        }
    }

    /// A successful address phase leads to the data phase, and a successful
    /// data phase ends the transaction.
    open spec fn proceed_spec(self, buffer: u8) -> Outcome<Exchange, u8> {
        match self.phase {
            Phase::AddressSelect => Outcome::Next(
                Exchange { transaction: self.transaction, phase: Phase::Data },
            ),
            Phase::Data => match self.transaction {
                Transaction::Read { .. } => Outcome::Finished(buffer),
                Transaction::Write { value, .. } => Outcome::Finished(value),
            },
        }
    }

    fn request(&self) -> (request: BusRequest)
        ensures
            request == self.request_spec(),
    {
        match self.phase {
            Phase::AddressSelect => BusRequest::Write {
                address: TPS_ADDRESS,
                byte: self.transaction.register().byte(),
            },
            Phase::Data => match self.transaction {
                Transaction::Read { .. } => BusRequest::Read { address: TPS_ADDRESS },
                Transaction::Write { value, .. } => BusRequest::Write {
                    address: TPS_ADDRESS,
                    byte: value,
                },
            },
        }
    }

    /// A failed call ends the operation with the transport's error; a call
    /// that succeeded leads where `proceed_spec` says.
    fn advance<E>(self, reply: Result<u8, E>) -> (progress: Progress<Exchange, u8, E>) {
        match reply {
            Err(error) => Progress::Done(Err(Error::I2c(error))),
            Ok(buffer) => match self.phase {
                Phase::AddressSelect => Progress::Next(
                    Exchange { transaction: self.transaction, phase: Phase::Data },
                ),
                Phase::Data => match self.transaction {
                    Transaction::Read { .. } => Progress::Done(Ok(buffer)),
                    Transaction::Write { value, .. } => Progress::Done(Ok(value)),
                },
            },
        }
    }
}

/// An operation whose bus call fails ends there with the transport's error:
/// after a failed address phase no data phase is asked for.
pub proof fn lemma_failure_ends_operation<O: Operation, E>(operation: O, error: E)
    ensures
        advance_spec(operation, Err::<u8, E>(error)) == Progress::<O, O::Output, E>::Done(
            Err(Error::I2c(error)),
        ),
{
}

/// A read whose two calls succeed sends the register's address, then receives
/// one byte, and ends with the byte received.
pub proof fn lemma_read_takes_two_calls<E>(register: RegisterAddress, sent: u8, received: u8)
    ensures
        ({
            let select = Exchange::begin(Transaction::Read { register });
            let data = Exchange { transaction: Transaction::Read { register }, phase: Phase::Data };
            &&& select.request_spec() == (BusRequest::Write {
                address: TPS_ADDRESS,
                byte: register.byte(),
            })
            &&& advance_spec(select, Ok::<u8, E>(sent)) == Progress::<Exchange, u8, E>::Next(data)
            &&& data.request_spec() == (BusRequest::Read { address: TPS_ADDRESS })
            &&& advance_spec(data, Ok::<u8, E>(received)) == Progress::<Exchange, u8, E>::Done(
                Ok(received),
            )
        }),
{
}

/// A write whose two calls succeed sends the register's address, then the
/// value, and ends with the value stored.
pub proof fn lemma_write_takes_two_calls<E>(
    register: RegisterAddress,
    value: u8,
    first: u8,
    second: u8,
)
    ensures
        ({
            let select = Exchange::begin(Transaction::Write { register, value });
            let data = Exchange {
                transaction: Transaction::Write { register, value },
                phase: Phase::Data,
            };
            &&& select.request_spec() == (BusRequest::Write {
                address: TPS_ADDRESS,
                byte: register.byte(),
            })
            &&& advance_spec(select, Ok::<u8, E>(first)) == Progress::<Exchange, u8, E>::Next(data)
            &&& data.request_spec() == (BusRequest::Write { address: TPS_ADDRESS, byte: value })
            &&& advance_spec(data, Ok::<u8, E>(second)) == Progress::<Exchange, u8, E>::Done(
                Ok(value),
            )
        }),
{
}

} // verus!
