//! The two-byte header that starts every addressed register transaction.
//!
//! Byte 0 carries the write flag in bit 7, the register id in bits 6 to 1 and
//! the top bit of the sub-id in bit 0. Byte 1 carries the low six bits of the
//! sub-id in bits 7 to 2; its two low bits are reserved and sent as zero.

use vstd::prelude::*;

verus! {

/// Largest register id that the header can carry.
pub const MAX_ID: u8 = 0x3f;

/// Largest sub-id that the header can carry.
pub const MAX_SUB_ID: u8 = 0x7f;

/// First header byte for a register address and a direction.
pub open spec fn header_byte0(id: u8, sub_id: u8, write: bool) -> u8 {
    (if write { 0x80u8 } else { 0u8 }) | (id << 1) | ((sub_id >> 6) & 1)
}

/// Second header byte for a sub-id.
pub open spec fn header_byte1(sub_id: u8) -> u8 {
    (sub_id & 0x3f) << 2
}

/// The header as a byte sequence.
pub open spec fn header_bytes(id: u8, sub_id: u8, write: bool) -> Seq<u8> {
    seq![header_byte0(id, sub_id, write), header_byte1(sub_id)]
}

/// Register id carried by a first header byte.
pub open spec fn header_id(byte0: u8) -> u8 {
    (byte0 >> 1) & 0x3f
}

/// Sub-id carried by the two header bytes.
pub open spec fn header_sub_id(byte0: u8, byte1: u8) -> u8 {
    ((byte0 & 1) << 6) | (byte1 >> 2)
}

/// Direction carried by a first header byte: `true` for a write.
pub open spec fn header_write(byte0: u8) -> bool {
    byte0 & 0x80 != 0
}

/// What a byte sequence decodes to: nothing when it is shorter than a header,
/// else the id, sub-id and direction of its first two bytes.
pub open spec fn decoded_header(bytes: Seq<u8>) -> Option<(u8, u8, bool)> {
    if bytes.len() < 2 {
        None
    } else {
        Some((header_id(bytes[0]), header_sub_id(bytes[0], bytes[1]), header_write(bytes[0])))
    }
}

/// Builds the header of a transaction on register `id`, `sub_id`.
pub fn encode_header(id: u8, sub_id: u8, write: bool) -> (header: [u8; 2])
    requires
        id <= MAX_ID,
        sub_id <= MAX_SUB_ID,
    ensures
        header@ == header_bytes(id, sub_id, write),
{
    let flag: u8 = if write { 0x80 } else { 0 };
    let byte0: u8 = flag | (id << 1) | ((sub_id >> 6) & 1);
    let byte1: u8 = (sub_id & 0x3f) << 2;
    let header: [u8; 2] = [byte0, byte1];
    assert(header@ =~= header_bytes(id, sub_id, write));
    header
}

/// Reads id, sub-id and direction back from the start of a transaction.
pub fn decode_header(bytes: &[u8]) -> (decoded: Option<(u8, u8, bool)>)
    ensures
        decoded == decoded_header(bytes@),
{
    if bytes.len() < 2 {
        return None;
    }
    let byte0: u8 = bytes[0];
    let byte1: u8 = bytes[1];
    let id: u8 = (byte0 >> 1) & 0x3f;
    let sub_id: u8 = ((byte0 & 1) << 6) | (byte1 >> 2);
    let write: bool = byte0 & 0x80 != 0;
    Some((id, sub_id, write))
}

/// Decoding an encoded header gives back the id, the sub-id and the direction
/// that were encoded, for every id of six bits and every sub-id of seven.
pub proof fn lemma_header_round_trip(id: u8, sub_id: u8, write: bool)
    requires
        id <= MAX_ID,
        sub_id <= MAX_SUB_ID,
    ensures
        decoded_header(header_bytes(id, sub_id, write)) == Some((id, sub_id, write)),
{
    let byte0 = header_byte0(id, sub_id, write);
    let byte1 = header_byte1(sub_id);
    let flag: u8 = if write { 0x80u8 } else { 0u8 };
    assert(((flag | (id << 1) | ((sub_id >> 6) & 1)) >> 1) & 0x3f == id) by (bit_vector)
        requires
            id <= 0x3f,
            flag == 0x80 || flag == 0,
    ;
    assert((((flag | (id << 1) | ((sub_id >> 6) & 1)) & 1) << 6) | (((sub_id & 0x3f) << 2) >> 2)
        == sub_id) by (bit_vector)
        requires
            sub_id <= 0x7f,
            flag == 0x80 || flag == 0,
    ;
    assert(((flag | (id << 1) | ((sub_id >> 6) & 1)) & 0x80 != 0) == (flag == 0x80))
        by (bit_vector)
        requires
            id <= 0x3f,
            flag == 0x80 || flag == 0,
    ;
}

/// Encoding what a header decodes to gives the header back, the reserved bits
/// as zero.
pub proof fn lemma_header_decodes_one_way(byte0: u8, byte1: u8)
    ensures
        header_byte0(header_id(byte0), header_sub_id(byte0, byte1), header_write(byte0)) == byte0,
        header_byte1(header_sub_id(byte0, byte1)) == byte1 & 0xfc,
{
    let flag: u8 = if byte0 & 0x80 != 0 { 0x80u8 } else { 0u8 };
    assert(flag | (((byte0 >> 1) & 0x3f) << 1) | (((((byte0 & 1) << 6) | (byte1 >> 2)) >> 6) & 1)
        == byte0) by (bit_vector)
        requires
            flag == if byte0 & 0x80 != 0 { 0x80u8 } else { 0u8 },
    ;
    assert(((((byte0 & 1) << 6) | (byte1 >> 2)) & 0x3f) << 2 == byte1 & 0xfc) by (bit_vector);
}

/// Every header decodes to an id of six bits and a sub-id of seven.
pub proof fn lemma_decoded_header_in_range(bytes: Seq<u8>)
    requires
        bytes.len() >= 2,
    ensures
        decoded_header(bytes)->Some_0.0 <= MAX_ID,
        decoded_header(bytes)->Some_0.1 <= MAX_SUB_ID,
{
    let byte0 = bytes[0];
    let byte1 = bytes[1];
    assert((byte0 >> 1) & 0x3f <= 0x3f) by (bit_vector);
    assert(((byte0 & 1) << 6) | (byte1 >> 2) <= 0x7f) by (bit_vector);
}

} // verus!
