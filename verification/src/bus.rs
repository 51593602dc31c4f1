//! Bus transactions, their replies, and the replay of a script of register
//! accesses against the replies gathered so far.
//!
//! A script is a fixed list of slots, one bus transaction each. Given the
//! replies to the first `k` transactions, [`advance`] names transaction `k`,
//! or says that the script is complete, or gives the first bus error. The
//! caller performs the transaction, appends its reply and asks again.

use vstd::prelude::*;
use crate::command::FastCommand;
use crate::header::{decoded_header, encode_header, header_bytes, lemma_header_round_trip};
use crate::register::{le_bytes, le_word, push_le, word_from_le, Register};

verus! {

/// One exchange with the chip: the bytes to send, then the number of bytes to
/// read back.
#[derive(Debug, PartialEq, Eq)]
pub struct Transaction {
    /// The bytes to send: a register header and what is written after it, or
    /// the single byte of a fast command.
    pub write: Vec<u8>,
    /// The number of bytes to read once the bytes have been sent.
    pub read_len: usize,
}

/// A transaction as a mathematical value.
pub struct Exchange {
    /// The bytes to send.
    pub write: Seq<u8>,
    /// The number of bytes to read back.
    pub read_len: nat,
}

impl View for Transaction {
    type V = Exchange;

    open spec fn view(&self) -> Exchange {
        Exchange { write: self.write@, read_len: self.read_len as nat }
    }
}

/// What the bus gave for one transaction: the bytes read back (none for a
/// write), or the error of the transport.
pub type Reply<E> = Result<Vec<u8>, E>;

/// One step of a script.
#[derive(Clone, Copy, Debug, PartialEq, Eq)]
pub enum Slot {
    /// Read the register.
    Read(Register),
    /// Write back the value that the preceding transaction read, with the bits
    /// of the first mask cleared and then the bits of the second mask set.
    Update(Register, u64, u64),
    /// Write the value to the register.
    Write(Register, u64),
    /// Write the payload of the operation to the register.
    Load(Register),
    /// Issue the fast command.
    Command(FastCommand),
}

/// The bytes that a reply holds: none for a failed transaction.
pub open spec fn reply_bytes<E>(reply: Reply<E>) -> Seq<u8> {
    match reply {
        Ok(bytes) => bytes@,
        Err(_) => Seq::empty(),
    }
}

/// The value that a reply holds: the little-endian value of its bytes.
pub open spec fn reply_word<E>(reply: Reply<E>) -> u64 {
    le_word(reply_bytes(reply))
}

/// The value that the latest reply holds; zero before the first reply.
pub open spec fn latest_word<E>(replies: Seq<Reply<E>>) -> u64 {
    if replies.len() == 0 {
        0
    } else {
        reply_word(replies.last())
    }
}

/// The value that an update writes back.
pub open spec fn updated(previous: u64, clear: u64, set: u64) -> u64 {
    (previous & !clear) | set
}

/// The transaction that a slot stands for, given the value read by the
/// transaction before it and the payload of the operation.
pub open spec fn slot_exchange(slot: Slot, previous: u64, payload: Seq<u8>) -> Exchange {
    match slot {
        Slot::Read(register) => Exchange {
            write: header_bytes(register.id(), register.sub_id(), false),
            read_len: register.len(),
        },
        Slot::Update(register, clear, set) => Exchange {
            write: header_bytes(register.id(), register.sub_id(), true) + le_bytes(
                updated(previous, clear, set),
                register.len(),
            ),
            read_len: 0,
        },
        Slot::Write(register, value) => Exchange {
            write: header_bytes(register.id(), register.sub_id(), true) + le_bytes(
                value,
                register.len(),
            ),
            read_len: 0,
        },
        Slot::Load(register) => Exchange {
            write: header_bytes(register.id(), register.sub_id(), true) + payload,
            read_len: 0,
        },
        Slot::Command(command) => Exchange { write: seq![command.byte()], read_len: 0 },
    }
}

/// The error of the first failed transaction among the replies from position
/// `from` on.
pub open spec fn first_error_from<E>(replies: Seq<Reply<E>>, from: int) -> Option<E>
    decreases replies.len() - from,
{
    if from < 0 || from >= replies.len() {
        None
    } else {
        match replies[from] {
            Err(error) => Some(error),
            Ok(_) => first_error_from(replies, from + 1),
        }
    }
}

/// The error of the first failed transaction, if any failed.
pub open spec fn first_error<E>(replies: Seq<Reply<E>>) -> Option<E> {
    first_error_from(replies, 0)
}

/// Where a script stands, as a mathematical value.
pub enum Next<E> {
    /// The transaction to perform next.
    Perform(Exchange),
    /// Every transaction of the script has been answered.
    Complete,
    /// A transaction failed.
    Broken(E),
}

/// Where a script stands after the given replies. The first failed transaction
/// ends the script with its error. Otherwise the transaction to perform is the
/// one of the first slot without a reply, and the script is complete once
/// every slot has one.
pub open spec fn replay<E>(script: Seq<Slot>, payload: Seq<u8>, replies: Seq<Reply<E>>) -> Next<E> {
    match first_error(replies) {
        Some(error) => Next::Broken(error),
        None => if replies.len() >= script.len() {
            Next::Complete
        } else {
            Next::Perform(
                slot_exchange(script[replies.len() as int], latest_word(replies), payload),
            )
        },
    }
}

/// Where a script stands.
#[derive(Debug, PartialEq, Eq)]
pub enum Progress<E> {
    /// Perform this transaction and ask again with its reply appended.
    Perform(Transaction),
    /// Every transaction of the script has been answered.
    Complete,
    /// A transaction failed with this error.
    Broken(E),
}

impl<E> View for Progress<E> {
    type V = Next<E>;

    open spec fn view(&self) -> Next<E> {
        match self {
            Progress::Perform(transaction) => Next::Perform(transaction@),
            Progress::Complete => Next::Complete,
            Progress::Broken(error) => Next::Broken(*error),
        }
    }
}

/// Appends every byte of `bytes` to `out`.
pub fn push_all(out: &mut Vec<u8>, bytes: &[u8])
    ensures
        final(out)@ == old(out)@ + bytes@,
{
    let mut i: usize = 0;
    while i < bytes.len()
        invariant
            i <= bytes@.len(),
            out@ == old(out)@ + bytes@.subrange(0, i as int),
        decreases bytes@.len() - i,
    {
        out.push(bytes[i]);
        i += 1;
        assert(out@ =~= old(out)@ + bytes@.subrange(0, i as int));
    }
    assert(out@ =~= old(out)@ + bytes@);
}

/// Starts a transaction on a register with its header.
fn start(register: Register, write: bool) -> (out: Vec<u8>)
    ensures
        out@ == header_bytes(register.id(), register.sub_id(), write),
{
    let (id, sub_id) = register.address();
    let header: [u8; 2] = encode_header(id, sub_id, write);
    let mut out: Vec<u8> = Vec::new();
    out.push(header[0]);
    out.push(header[1]);
    assert(out@ =~= header@);
    out
}

/// Builds the transaction that a slot stands for.
pub fn transaction(slot: Slot, previous: u64, payload: &[u8]) -> (transaction: Transaction)
    ensures
        transaction@ == slot_exchange(slot, previous, payload@),
{
    match slot {
        Slot::Read(register) => Transaction {
            write: start(register, false),
            read_len: register.length(),
        },
        Slot::Update(register, clear, set) => {
            let mut write: Vec<u8> = start(register, true);
            push_le(&mut write, (previous & !clear) | set, register.length());
            Transaction { write, read_len: 0 }
        },
        Slot::Write(register, value) => {
            let mut write: Vec<u8> = start(register, true);
            push_le(&mut write, value, register.length());
            Transaction { write, read_len: 0 }
        },
        Slot::Load(register) => {
            let mut write: Vec<u8> = start(register, true);
            push_all(&mut write, payload);
            Transaction { write, read_len: 0 }
        },
        Slot::Command(command) => {
            let mut write: Vec<u8> = Vec::new();
            write.push(command.encode());
            assert(write@ =~= seq![command.byte()]);
            Transaction { write, read_len: 0 }
        },
    }
}

/// Finds the error of the first failed transaction.
pub fn find_error<E: Copy>(replies: &[Reply<E>]) -> (error: Option<E>)
    ensures
        error == first_error(replies@),
{
    let mut i: usize = 0;
    while i < replies.len()
        invariant
            i <= replies@.len(),
            first_error(replies@) == first_error_from(replies@, i as int),
        decreases replies@.len() - i,
    {
        match &replies[i] {
            Err(error) => {
                return Some(*error);
            },
            Ok(_) => {},
        }
        i += 1;
    }
    None
}

/// The bytes that a reply holds.
pub fn bytes_of<E>(reply: &Reply<E>) -> (bytes: &[u8])
    ensures
        bytes@ == reply_bytes(*reply),
{
    match reply {
        Ok(bytes) => bytes.as_slice(),
        Err(_) => &[],
    }
}

/// The value that a reply holds.
pub fn word_of<E>(reply: &Reply<E>) -> (word: u64)
    ensures
        word == reply_word(*reply),
{
    word_from_le(bytes_of(reply))
}

/// The value that the latest reply holds.
pub fn latest<E>(replies: &[Reply<E>]) -> (word: u64)
    ensures
        word == latest_word(replies@),
{
    if replies.len() == 0 {
        0
    } else {
        word_of(&replies[replies.len() - 1])
    }
}

/// Says where a script stands after the given replies.
pub fn advance<E: Copy>(script: &[Slot], payload: &[u8], replies: &[Reply<E>]) -> (progress:
    Progress<E>)
    ensures
        progress@ == replay(script@, payload@, replies@),
{
    match find_error(replies) {
        Some(error) => Progress::Broken(error),
        None => {
            if replies.len() >= script.len() {
                Progress::Complete
            } else {
                Progress::Perform(transaction(script[replies.len()], latest(replies), payload))
            }
        },
    }
}

/// Replies that all succeeded hold no error.
pub proof fn lemma_no_error<E>(replies: Seq<Reply<E>>, from: int)
    requires
        0 <= from,
        forall|i: int| from <= i < replies.len() ==> replies[i] is Ok,
    ensures
        first_error_from(replies, from) is None,
    decreases replies.len() - from,
{
    if from < replies.len() {
        lemma_no_error(replies, from + 1);
    }
}

/// A script performs no transaction beyond its slots: with a reply to every
/// slot it never asks for another.
pub proof fn lemma_replay_ends<E>(script: Seq<Slot>, payload: Seq<u8>, replies: Seq<Reply<E>>)
    requires
        replies.len() >= script.len(),
    ensures
        !(replay(script, payload, replies) is Perform),
{
}

/// A fast command is one byte, and nothing is read back. Every other
/// transaction starts with a header that decodes to the address of its
/// register and to its direction, so it is at least two bytes long. A read
/// sends the header alone, and only a read reads anything back.
pub proof fn lemma_exchange_shape(slot: Slot, previous: u64, payload: Seq<u8>)
    ensures
        match slot {
            Slot::Command(command) => {
                &&& slot_exchange(slot, previous, payload).write.len() == 1
                &&& slot_exchange(slot, previous, payload).read_len == 0
            },
            Slot::Read(register) => {
                &&& slot_exchange(slot, previous, payload).write.len() == 2
                &&& slot_exchange(slot, previous, payload).read_len == register.len()
                &&& decoded_header(slot_exchange(slot, previous, payload).write) == Some(
                    (register.id(), register.sub_id(), false),
                )
            },
            Slot::Update(register, _, _) | Slot::Write(register, _) | Slot::Load(register) => {
                &&& slot_exchange(slot, previous, payload).write.len() >= 2
                &&& slot_exchange(slot, previous, payload).read_len == 0
                &&& decoded_header(slot_exchange(slot, previous, payload).write) == Some(
                    (register.id(), register.sub_id(), true),
                )
            },
        },
{
    match slot {
        Slot::Command(_) => {},
        Slot::Read(register) => {
            lemma_header_round_trip(register.id(), register.sub_id(), false);
        },
        Slot::Update(register, _, _) | Slot::Write(register, _) | Slot::Load(register) => {
            lemma_header_round_trip(register.id(), register.sub_id(), true);
            let header = header_bytes(register.id(), register.sub_id(), true);
            let write = slot_exchange(slot, previous, payload).write;
            assert(write[0] == header[0] && write[1] == header[1]);
        },
    }
}

} // verus!
