//! Protocol core of a driver for the DW3000 ultra-wideband transceiver.
//!
//! The crate holds everything the driver decides: the wire format of register
//! transactions and fast commands, the decoding of the status word into one
//! prioritised outcome, the delay-register codec, the assembly of received
//! frames, and the typestate machine that allows each operation only in the
//! chip mode that supports it.
//!
//! The crate never touches the bus itself. Every operation is a function of the
//! bus replies gathered so far: it either names the next bus transaction to
//! perform or gives its result. A caller runs the transactions, by polling or
//! by suspending a task, and calls again with the reply appended.

pub mod bus;
pub mod command;
pub mod error;
pub mod frame;
pub mod header;
pub mod hl;
pub mod register;
pub mod status;
pub mod time;

pub use bus::{Reply, Transaction};
pub use command::FastCommand;
pub use error::{Error, Poll};
pub use frame::Message;
pub use header::{decode_header, encode_header};
pub use hl::{
    Config, DoubleBufferReceiving, Ready, ReceiveTime, Receiving, SendTime, Sending, Step,
    Transition, DW3000,
};
pub use time::Instant;
