//! Fast commands: one-byte bus writes that trigger an immediate chip action
//! without addressing a register.
//!
//! A fast command is told apart from an addressed register transaction by its
//! length alone: a transaction of one byte is always a fast command, and
//! nothing is read back.

use vstd::prelude::*;

verus! {

/// The fast commands that the driver issues.
#[allow(non_camel_case_types)]
#[derive(Clone, Copy, Debug, PartialEq, Eq)]
pub enum FastCommand {
    /// Turn transmitter and receiver off and force the chip to idle.
    CMD_TXRXOFF,
    /// Transmit at once.
    CMD_TX,
    /// Enable the receiver at once.
    CMD_RX,
    /// Transmit at the time held in the delay register.
    CMD_DTX,
    /// Enable the receiver at the time held in the delay register.
    CMD_DRX,
}

impl FastCommand {
    /// The five-bit code of the command.
    pub open spec fn code(self) -> u8 {
        match self {
            FastCommand::CMD_TXRXOFF => 0x00,
            FastCommand::CMD_TX => 0x01,
            FastCommand::CMD_RX => 0x02,
            FastCommand::CMD_DTX => 0x03,
            FastCommand::CMD_DRX => 0x04,
        }
    }

    /// The byte that goes over the bus: bit 7 and bit 0 set, the code in bits
    /// 5 to 1.
    pub open spec fn byte(self) -> u8 {
        (0x81 + 2 * self.code()) as u8
    }

    /// Encodes the command as its bus byte.
    pub fn encode(self) -> (byte: u8)
        ensures
            byte == self.byte(),
            byte & 0xc1 == 0x81,
            (byte >> 1) & 0x1f == self.code(),
    {
        let code: u8 = match self {
            FastCommand::CMD_TXRXOFF => 0x00,
            FastCommand::CMD_TX => 0x01,
            FastCommand::CMD_RX => 0x02,
            FastCommand::CMD_DTX => 0x03,
            FastCommand::CMD_DRX => 0x04,
        };
        let byte: u8 = 0x81 | (code << 1);
        assert(byte == 0x81 + 2 * code && byte & 0xc1 == 0x81 && (byte >> 1) & 0x1f == code)
            by (bit_vector)
            requires
                code <= 4,
                byte == 0x81 | (code << 1),
        ;
        byte
    }
}

} // verus!
