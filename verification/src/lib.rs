//! Typed register access for the TPS6572x family of battery chargers and
//! power-management units.
//!
//! The device holds one byte behind each of its register addresses and is
//! reached over a bus in two calls per access: the first sends the address,
//! the second carries the byte. This library is the part of a driver that can
//! be reasoned about without a bus:
//!
//! - [`registers`] names every register address and gives each register a
//!   type of its own. The type binds the address, says whether the host may
//!   write the register, and reads and sets the fields of the byte.
//! - [`bits`] reads and replaces one field of a byte.
//! - [`transaction`] is the two-phase bus protocol as a state machine: it
//!   asks for one bus call at a time and is told the reply.
//! - [`driver`] plans the raw operations and the typed ones (read, write,
//!   edit), each of them such a state machine.
//! - [`error`] holds the two kinds of failure: the transport's, and a byte
//!   that does not decode.
//!
//! The owner of the bus runs an operation like this:
//!
//! ```text
//! let mut operation = driver::read_register::<ChargerConfig0>();
//! let result = loop {
//!     let reply = /* make the call that operation.request() asks for */;
//!     match operation.advance(reply) {
//!         Progress::Next(next) => operation = next,
//!         Progress::Done(result) => break result,
//!     }
//! };
//! ```

pub mod bits;
pub mod driver;
pub mod error;
pub mod registers;
pub mod transaction;
