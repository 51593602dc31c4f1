//! The registers that the driver touches, and the little-endian encoding of
//! their values.

use vstd::prelude::*;
use crate::header::{MAX_ID, MAX_SUB_ID};

verus! {

/// A register of the chip, addressed by a register id and a sub-id.
#[allow(non_camel_case_types)]
#[derive(Clone, Copy, Debug, PartialEq, Eq)]
pub enum Register {
    /// System configuration.
    SYS_CFG,
    /// Frame filter configuration.
    FF_CFG,
    /// Transmit frame control.
    TX_FCTRL,
    /// Delayed send or receive time.
    DX_TIME,
    /// System event status.
    SYS_STATUS,
    /// Receive frame information.
    RX_FINFO,
    /// Receive time stamp.
    RX_TIME,
    /// System state.
    SYS_STATE,
    /// Receive data buffer.
    RX_BUFFER_0,
    /// Transmit data buffer.
    TX_BUFFER,
}

/// Frame filtering enable, in `SYS_CFG`.
pub const FFEN: u64 = 0x1;

/// Frame filter: allow beacon, data, acknowledgement and MAC command frames,
/// in `FF_CFG`.
pub const FF_ALLOW: u64 = 0xf;

/// Transmit frame length, in `TX_FCTRL`.
pub const TXFLEN: u64 = 0x3ff;

/// Received frame length, in `RX_FINFO`.
pub const RXFLEN: u64 = 0x3ff;

/// Every bit of the 32-bit `DX_TIME` value.
pub const DX_TIME_VALUE: u64 = 0xffff_ffff;

/// The adjusted receive time stamp, in `RX_TIME`.
pub const RX_STAMP: u64 = 0xff_ffff_ffff;

/// Length in bytes of a frame check sequence, which the chip appends to every
/// frame that it sends.
pub const FCS_LEN: usize = 2;

/// Size in bytes of the receive and of the transmit data buffer.
pub const BUFFER_LEN: usize = 1024;

impl Register {
    /// The register id.
    pub open spec fn id(self) -> u8 {
        match self {
            Register::SYS_STATE => 0x0f,
            Register::RX_BUFFER_0 => 0x12,
            Register::TX_BUFFER => 0x14,
            _ => 0x00,
        }
    }

    /// The sub-id: the offset of the register within its register file.
    pub open spec fn sub_id(self) -> u8 {
        match self {
            Register::SYS_CFG => 0x10,
            Register::FF_CFG => 0x14,
            Register::TX_FCTRL => 0x24,
            Register::DX_TIME => 0x2c,
            Register::SYS_STATUS => 0x44,
            Register::RX_FINFO => 0x4c,
            Register::RX_TIME => 0x64,
            Register::SYS_STATE => 0x30,
            Register::RX_BUFFER_0 => 0x00,
            Register::TX_BUFFER => 0x00,
        }
    }

    /// The length of the register in bytes.
    pub open spec fn len(self) -> nat {
        match self {
            Register::SYS_CFG => 4,
            Register::FF_CFG => 2,
            Register::TX_FCTRL => 6,
            Register::DX_TIME => 4,
            Register::SYS_STATUS => 6,
            Register::RX_FINFO => 4,
            Register::RX_TIME => 16,
            Register::SYS_STATE => 4,
            Register::RX_BUFFER_0 => 1024,
            Register::TX_BUFFER => 1024,
        }
    }

    /// Register id and sub-id; both fit in a transaction header.
    pub fn address(self) -> (address: (u8, u8))
        ensures
            address == (self.id(), self.sub_id()),
            address.0 <= MAX_ID,
            address.1 <= MAX_SUB_ID,
    {
        match self {
            Register::SYS_CFG => (0x00, 0x10),
            Register::FF_CFG => (0x00, 0x14),
            Register::TX_FCTRL => (0x00, 0x24),
            Register::DX_TIME => (0x00, 0x2c),
            Register::SYS_STATUS => (0x00, 0x44),
            Register::RX_FINFO => (0x00, 0x4c),
            Register::RX_TIME => (0x00, 0x64),
            Register::SYS_STATE => (0x0f, 0x30),
            Register::RX_BUFFER_0 => (0x12, 0x00),
            Register::TX_BUFFER => (0x14, 0x00),
        }
    }

    /// The length of the register in bytes.
    pub fn length(self) -> (len: usize)
        ensures
            len == self.len(),
    {
        match self {
            Register::SYS_CFG => 4,
            Register::FF_CFG => 2,
            Register::TX_FCTRL => 6,
            Register::DX_TIME => 4,
            Register::SYS_STATUS => 6,
            Register::RX_FINFO => 4,
            Register::RX_TIME => 16,
            Register::SYS_STATE => 4,
            Register::RX_BUFFER_0 => 1024,
            Register::TX_BUFFER => 1024,
        }
    }
}

/// The byte at position `i`, or zero where the sequence has no such position:
/// bytes that were not delivered read as zero.
pub open spec fn byte_at(bytes: Seq<u8>, i: int) -> u8 {
    if 0 <= i < bytes.len() {
        bytes[i]
    } else {
        0
    }
}

/// The value that the first eight bytes of a register hold, least significant
/// byte first.
pub open spec fn le_word(bytes: Seq<u8>) -> u64 {
    (byte_at(bytes, 0) as u64) | (byte_at(bytes, 1) as u64) << 8 | (byte_at(bytes, 2) as u64) << 16
        | (byte_at(bytes, 3) as u64) << 24 | (byte_at(bytes, 4) as u64) << 32 | (byte_at(bytes, 5) as u64)
        << 40 | (byte_at(bytes, 6) as u64) << 48 | (byte_at(bytes, 7) as u64) << 56
}

/// Byte `i` of a value, least significant byte first; zero from the ninth on.
pub open spec fn le_byte(word: u64, i: int) -> u8 {
    if 0 <= i < 8 {
        ((word >> ((8 * i) as u64)) & 0xff) as u8
    } else {
        0
    }
}

/// The first `len` bytes of a value, least significant byte first.
pub open spec fn le_bytes(word: u64, len: nat) -> Seq<u8> {
    Seq::new(len, |i: int| le_byte(word, i))
}

/// The first `len` bytes of a register, with zero for every byte that was not
/// delivered.
pub open spec fn prefix(bytes: Seq<u8>, len: nat) -> Seq<u8> {
    Seq::new(len, |i: int| byte_at(bytes, i))
}

/// Reads the byte at `i`, or zero past the end.
pub fn byte_or_zero(bytes: &[u8], i: usize) -> (byte: u8)
    ensures
        byte == byte_at(bytes@, i as int),
{
    if i < bytes.len() {
        bytes[i]
    } else {
        0
    }
}

/// Decodes the value of a register from its bytes.
pub fn word_from_le(bytes: &[u8]) -> (word: u64)
    ensures
        word == le_word(bytes@),
{
    let b0: u64 = byte_or_zero(bytes, 0) as u64;
    let b1: u64 = byte_or_zero(bytes, 1) as u64;
    let b2: u64 = byte_or_zero(bytes, 2) as u64;
    let b3: u64 = byte_or_zero(bytes, 3) as u64;
    let b4: u64 = byte_or_zero(bytes, 4) as u64;
    let b5: u64 = byte_or_zero(bytes, 5) as u64;
    let b6: u64 = byte_or_zero(bytes, 6) as u64;
    let b7: u64 = byte_or_zero(bytes, 7) as u64;
    b0 | b1 << 8 | b2 << 16 | b3 << 24 | b4 << 32 | b5 << 40 | b6 << 48 | b7 << 56
}

/// Appends the first `len` bytes of a value to `out`, least significant byte
/// first.
pub fn push_le(out: &mut Vec<u8>, word: u64, len: usize)
    ensures
        final(out)@ == old(out)@ + le_bytes(word, len as nat),
{
    let mut i: usize = 0;
    while i < len
        invariant
            i <= len,
            out@ == old(out)@ + le_bytes(word, i as nat),
        decreases len - i,
    {
        let byte: u8 = if i < 8 {
            let shift: u64 = 8 * (i as u64);
            assert((word >> shift) & 0xff <= 0xff) by (bit_vector);
            ((word >> shift) & 0xff) as u8
        } else {
            0
        };
        out.push(byte);
        i += 1;
        assert(out@ =~= old(out)@ + le_bytes(word, i as nat));
    }
    assert(out@ =~= old(out)@ + le_bytes(word, len as nat));
}

/// Copies the first `len` bytes of a register, with zero for every byte that
/// was not delivered.
pub fn take_prefix(bytes: &[u8], len: usize) -> (out: Vec<u8>)
    ensures
        out@ == prefix(bytes@, len as nat),
{
    let mut out: Vec<u8> = Vec::new();
    let mut i: usize = 0;
    while i < len
        invariant
            i <= len,
            out@ == prefix(bytes@, i as nat),
        decreases len - i,
    {
        out.push(byte_or_zero(bytes, i));
        i += 1;
        assert(out@ =~= prefix(bytes@, i as nat));
    }
    assert(out@ =~= prefix(bytes@, len as nat));
    out
}

/// A value that fits in `len` bytes is read back as it was written.
pub proof fn lemma_word_round_trip(word: u64, len: nat)
    requires
        len >= 8 || word >> ((8 * len) as u64) == 0,
    ensures
        le_word(le_bytes(word, len)) == word,
{
    let bytes = le_bytes(word, len);
    let b0 = byte_at(bytes, 0) as u64;
    let b1 = byte_at(bytes, 1) as u64;
    let b2 = byte_at(bytes, 2) as u64;
    let b3 = byte_at(bytes, 3) as u64;
    let b4 = byte_at(bytes, 4) as u64;
    let b5 = byte_at(bytes, 5) as u64;
    let b6 = byte_at(bytes, 6) as u64;
    let b7 = byte_at(bytes, 7) as u64;
    let n: u64 = if len >= 8 { 8 } else { len as u64 };
    assert(forall|w: u64, s: u64| #[trigger] ((w >> s) & 0xff) <= 0xff) by (bit_vector);
    assert(b0 == if 0 < n { (word >> 0) & 0xff } else { 0 });
    assert(b1 == if 1 < n { (word >> 8) & 0xff } else { 0 });
    assert(b2 == if 2 < n { (word >> 16) & 0xff } else { 0 });
    assert(b3 == if 3 < n { (word >> 24) & 0xff } else { 0 });
    assert(b4 == if 4 < n { (word >> 32) & 0xff } else { 0 });
    assert(b5 == if 5 < n { (word >> 40) & 0xff } else { 0 });
    assert(b6 == if 6 < n { (word >> 48) & 0xff } else { 0 });
    assert(b7 == if 7 < n { (word >> 56) & 0xff } else { 0 });
    assert(b0 | b1 << 8 | b2 << 16 | b3 << 24 | b4 << 32 | b5 << 40 | b6 << 48 | b7 << 56 == word)
        by (bit_vector)
        requires
            b0 == if 0 < n { (word >> 0) & 0xff } else { 0 },
            b1 == if 1 < n { (word >> 8) & 0xff } else { 0 },
            b2 == if 2 < n { (word >> 16) & 0xff } else { 0 },
            b3 == if 3 < n { (word >> 24) & 0xff } else { 0 },
            b4 == if 4 < n { (word >> 32) & 0xff } else { 0 },
            b5 == if 5 < n { (word >> 40) & 0xff } else { 0 },
            b6 == if 6 < n { (word >> 48) & 0xff } else { 0 },
            b7 == if 7 < n { (word >> 56) & 0xff } else { 0 },
            n >= 8 || word >> (8 * n) == 0,
    ;
}

} // verus!
