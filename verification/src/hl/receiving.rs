//! Receiving: starting the receiver, polling for a frame, and finishing.

use vstd::prelude::*;
use crate::bus::{
    advance, bytes_of, lemma_no_error, replay, reply_bytes, reply_word, slot_exchange,
    transaction, word_of, Exchange, Next, Progress, Reply, Slot, Transaction,
};
use crate::command::FastCommand;
use crate::error::{Error, Poll};
use crate::frame::{frame_accepted, ieee802154_frame_accepted, store, Message};
use crate::hl::{
    ends_with_its_only_command, filter_script, filter_slots, finish, finish_plan, push_start, run,
    start_plan, start_script, Config, Ready, ReceiveSession, ReceiveTime, Session, Step, StepView,
    Transition, DW3000,
};
use crate::register::{le_word, prefix, take_prefix, Register, RXFLEN, RX_STAMP};
use crate::status::{rx_outcome, rx_status, RX_EVENTS};
use crate::time::Instant;

verus! {

/// The slots of a receive: frame filtering first, then the start of the
/// receiver.
pub open spec fn receive_script(recv_time: ReceiveTime, config: Config) -> Seq<Slot> {
    filter_script(config) + start_script(
        recv_time.delay(),
        FastCommand::CMD_RX,
        FastCommand::CMD_DRX,
    )
}

/// The slots of a poll that finds a good frame: the status, the receive time
/// stamp, the write that clears the receive events, the frame information and
/// the receive buffer.
pub open spec fn rx_script() -> Seq<Slot> {
    seq![
        Slot::Read(Register::SYS_STATUS),
        Slot::Read(Register::RX_TIME),
        Slot::Write(Register::SYS_STATUS, RX_EVENTS),
        Slot::Read(Register::RX_FINFO),
        Slot::Read(Register::RX_BUFFER_0),
    ]
}

/// The receiver state that a reply to a read of the system state holds.
pub open spec fn rx_state_of<E>(reply: Reply<E>) -> u8 {
    ((reply_word(reply) >> 8) & 0x3f) as u8
}

/// What asking for the receiver state gives.
pub open spec fn rx_state_plan<E>(replies: Seq<Reply<E>>) -> StepView<Result<u8, Error<E>>> {
    match replay(seq![Slot::Read(Register::SYS_STATE)], Seq::empty(), replies) {
        Next::Perform(exchange) => StepView::Bus(exchange),
        Next::Complete => StepView::Done(Ok(rx_state_of(replies[0]))),
        Next::Broken(error) => StepView::Done(Err(Error::Spi(error))),
    }
}

/// What a poll of the receiver comes to.
pub enum RxPlan<E> {
    /// The transaction to perform next.
    Bus(Exchange),
    /// No frame yet, and no error.
    Pending,
    /// The receive failed, or the poll did.
    Failed(Error<E>),
    /// A good frame, with the counter value of its time stamp.
    Frame { rx_time: u64, bytes: Seq<u8> },
}

/// What a poll comes to once the status shows a good frame. The frame is as
/// long as the frame information says, and its bytes are the first of the
/// receive buffer. A buffer that cannot hold it fails the poll.
pub open spec fn rx_frame_plan<E>(replies: Seq<Reply<E>>, capacity: nat) -> RxPlan<E> {
    match replay(rx_script(), Seq::empty(), replies) {
        Next::Perform(exchange) => RxPlan::Bus(exchange),
        Next::Broken(error) => RxPlan::Failed(Error::Spi(error)),
        Next::Complete => {
            let len = (reply_word(replies[3]) & RXFLEN) as nat;
            if capacity < len {
                RxPlan::Failed(Error::BufferTooSmall { required_len: len as usize })
            } else {
                RxPlan::Frame {
                    rx_time: reply_word(replies[1]) & RX_STAMP,
                    bytes: prefix(reply_bytes(replies[4]), len),
                }
            }
        },
    }
}

/// What a poll of the receiver comes to, given the replies so far and the
/// length of the caller's buffer. The poll first reads the status. Without a
/// good frame the status alone decides; with one the frame is fetched.
pub open spec fn rx_plan<E>(replies: Seq<Reply<E>>, capacity: nat) -> RxPlan<E> {
    if replies.len() == 0 {
        RxPlan::Bus(slot_exchange(Slot::Read(Register::SYS_STATUS), 0, Seq::empty()))
    } else {
        match replies[0] {
            Err(error) => RxPlan::Failed(Error::Spi(error)),
            Ok(status) => match rx_outcome::<E>(le_word(status@)) {
                Poll::Pending => RxPlan::Pending,
                Poll::Failed(error) => RxPlan::Failed(error),
                Poll::Ready(_) => rx_frame_plan(replies, capacity),
            },
        }
    }
}

/// What a poll of the receiver comes to, with the frame held in a vector of
/// its own.
#[derive(Debug, PartialEq, Eq)]
pub enum RxPoll<E> {
    /// Perform this transaction and poll again with its reply appended.
    Bus(Transaction),
    /// No frame yet, and no error.
    Pending,
    /// The receive failed, or the poll did.
    Failed(Error<E>),
    /// A good frame, with its receive time.
    Frame { rx_time: Instant, bytes: Vec<u8> },
}

impl<E> View for RxPoll<E> {
    type V = RxPlan<E>;

    open spec fn view(&self) -> RxPlan<E> {
        match self {
            RxPoll::Bus(transaction) => RxPlan::Bus(transaction@),
            RxPoll::Pending => RxPlan::Pending,
            RxPoll::Failed(error) => RxPlan::Failed(*error),
            RxPoll::Frame { rx_time, bytes } => RxPlan::Frame {
                rx_time: rx_time.value(),
                bytes: bytes@,
            },
        }
    }
}

/// Fetches the frame once the status shows a good one.
fn rx_frame<E: Copy>(replies: &[Reply<E>], capacity: usize) -> (poll: RxPoll<E>)
    ensures
        poll@ == rx_frame_plan(replies@, capacity as nat),
{
    let script: Vec<Slot> = vec![
        Slot::Read(Register::SYS_STATUS),
        Slot::Read(Register::RX_TIME),
        Slot::Write(Register::SYS_STATUS, RX_EVENTS),
        Slot::Read(Register::RX_FINFO),
        Slot::Read(Register::RX_BUFFER_0),
    ];
    let payload: Vec<u8> = Vec::new();
    match advance(script.as_slice(), payload.as_slice(), replies) {
        Progress::Perform(transaction) => RxPoll::Bus(transaction),
        Progress::Broken(error) => RxPoll::Failed(Error::Spi(error)),
        Progress::Complete => {
            let info: u64 = word_of(&replies[3]);
            let stamp: u64 = word_of(&replies[1]);
            assert(info & 0x3ff <= 0x3ff && stamp & 0xff_ffff_ffff <= 0xff_ffff_ffff)
                by (bit_vector);
            let len: usize = (info & RXFLEN) as usize;
            if capacity < len {
                RxPoll::Failed(Error::BufferTooSmall { required_len: len })
            } else {
                let rx_time: Instant = Instant::new(stamp & RX_STAMP).unwrap();
                RxPoll::Frame { rx_time, bytes: take_prefix(bytes_of(&replies[4]), len) }
            }
        },
    }
}

/// Polls the receiver, given the replies so far and the length of the
/// caller's buffer.
pub fn rx_poll<E: Copy>(replies: &[Reply<E>], capacity: usize) -> (poll: RxPoll<E>)
    ensures
        poll@ == rx_plan(replies@, capacity as nat),
{
    if replies.len() == 0 {
        let payload: Vec<u8> = Vec::new();
        return RxPoll::Bus(transaction(Slot::Read(Register::SYS_STATUS), 0, payload.as_slice()));
    }
    match &replies[0] {
        Err(error) => RxPoll::Failed(Error::Spi(*error)),
        Ok(status) => match rx_status::<E>(word_of(&replies[0])) {
            Poll::Pending => RxPoll::Pending,
            Poll::Failed(error) => RxPoll::Failed(error),
            Poll::Ready(_) => rx_frame(replies, capacity),
        },
    }
}

/// Starting the receiver issues exactly one fast command, after all
/// configuration: the immediate one without a delay, the delayed one with.
pub proof fn lemma_receive_ends_with_its_only_command(recv_time: ReceiveTime, config: Config)
    ensures
        ends_with_its_only_command(
            receive_script(recv_time, config),
            if recv_time is Now {
                FastCommand::CMD_RX
            } else {
                FastCommand::CMD_DRX
            },
        ),
{
}

/// A poll of the receiver asks for at most five transactions, and for only
/// the status read unless the status shows a good frame.
pub proof fn lemma_rx_poll_is_bounded<E>(replies: Seq<Reply<E>>, capacity: nat)
    ensures
        replies.len() >= 5 ==> !(rx_plan(replies, capacity) is Bus),
        replies.len() >= 1 && rx_outcome::<E>(reply_word(replies[0])) != Poll::<(), E>::Ready(())
            ==> !(rx_plan(replies, capacity) is Bus),
{
}

/// A frame longer than the caller's buffer fails the poll with the length
/// that the buffer needs: once every transaction of the poll is answered and
/// the status shows a good frame, a frame length above the capacity gives
/// that error and nothing else.
pub proof fn lemma_small_buffer_fails<E>(replies: Seq<Reply<E>>, capacity: nat)
    requires
        replies.len() >= rx_script().len(),
        forall|i: int| 0 <= i < replies.len() ==> replies[i] is Ok,
        rx_outcome::<E>(reply_word(replies[0])) == Poll::<(), E>::Ready(()),
        capacity < (reply_word(replies[3]) & RXFLEN),
    ensures
        rx_plan(replies, capacity) == RxPlan::<E>::Failed(
            Error::BufferTooSmall { required_len: (reply_word(replies[3]) & RXFLEN) as usize },
        ),
{
    lemma_no_error(replies, 0);
}

impl<SPI, RECEIVING: ReceiveSession> DW3000<SPI, RECEIVING> {
    /// Returns the RX state of the DW3000.
    pub fn rx_state<E: Copy>(&self, replies: &[Reply<E>]) -> (step: Step<Result<u8, Error<E>>>)
        ensures
            step@ == rx_state_plan(replies@),
    {
        let script: Vec<Slot> = vec![Slot::Read(Register::SYS_STATE)];
        let payload: Vec<u8> = Vec::new();
        match advance(script.as_slice(), payload.as_slice(), replies) {
            Progress::Perform(transaction) => Step::Bus(transaction),
            Progress::Broken(error) => Step::Done(Err(Error::Spi(error))),
            Progress::Complete => {
                let word: u64 = word_of(&replies[0]);
                assert((word >> 8) & 0x3f <= 0x3f) by (bit_vector);
                Step::Done(Ok(((word >> 8) & 0x3f) as u8))
            },
        }
    }

    /// Starts the receiver: configures frame filtering, programs the delay
    /// register for a delayed start, and issues the fast command that enables
    /// the receiver. A start time that the delay register cannot hold is
    /// refused before any transaction.
    pub fn start_receiving<E: Copy>(
        &self,
        recv_time: ReceiveTime,
        config: Config,
        replies: &[Reply<E>],
    ) -> (step: Step<Result<(), Error<E>>>)
        ensures
            step@ == start_plan(
                recv_time.delay(),
                receive_script(recv_time, config),
                Seq::empty(),
                replies@,
            ),
    {
        let delay: Option<Instant> = match recv_time {
            ReceiveTime::Now => None,
            ReceiveTime::Delayed(time) => Some(time),
        };
        let mut script: Vec<Slot> = filter_slots(config);
        if !push_start(&mut script, delay, FastCommand::CMD_RX, FastCommand::CMD_DRX) {
            return Step::Done(Err(Error::InvalidTimestampRounding));
        }
        let payload: Vec<u8> = Vec::new();
        run(script.as_slice(), payload.as_slice(), replies)
    }

    /// Polls for a received frame and copies it to `buffer`.
    ///
    /// Without a good frame the status decides: the first error flag in the
    /// order of precedence fails the poll, and with none set the receive is
    /// still pending. With a good frame the time stamp is read, the receive
    /// events are cleared, and the frame is copied to the start of `buffer`;
    /// the result is its length and its receive time, and the session is marked
    /// finished. A buffer shorter than the frame fails the poll and is left as
    /// it was. Nothing changes unless a frame is delivered.
    pub fn r_wait_buf<E: Copy>(&mut self, replies: &[Reply<E>], buffer: &mut [u8]) -> (step: Step<
        Poll<(usize, Instant), E>,
    >)
        ensures
            match rx_plan(replies@, old(buffer)@.len()) {
                RxPlan::Bus(exchange) => {
                    &&& step matches Step::Bus(transaction) && transaction@ == exchange
                    &&& *final(self) == *old(self)
                    &&& final(buffer)@ == old(buffer)@
                },
                RxPlan::Pending => {
                    &&& step == Step::Done(Poll::<(usize, Instant), E>::Pending)
                    &&& *final(self) == *old(self)
                    &&& final(buffer)@ == old(buffer)@
                },
                RxPlan::Failed(error) => {
                    &&& step == Step::Done(Poll::<(usize, Instant), E>::Failed(error))
                    &&& *final(self) == *old(self)
                    &&& final(buffer)@ == old(buffer)@
                },
                RxPlan::Frame { rx_time, bytes } => {
                    &&& step matches Step::Done(Poll::Ready(done)) && done.0 == bytes.len()
                        && done.1.value() == rx_time
                    &&& final(buffer)@ == bytes + old(buffer)@.skip(bytes.len() as int)
                    &&& final(self).session().finished()
                    &&& final(self).bus() == old(self).bus()
                    &&& final(self).sequence() == old(self).sequence()
                },
            },
    {
        match rx_poll(replies, buffer.len()) {
            RxPoll::Bus(transaction) => Step::Bus(transaction),
            RxPoll::Pending => Step::Done(Poll::Pending),
            RxPoll::Failed(error) => Step::Done(Poll::Failed(error)),
            RxPoll::Frame { rx_time, bytes } => {
                store(buffer, bytes.as_slice());
                self.state.mark_finished();
                Step::Done(Poll::Ready((bytes.len(), rx_time)))
            },
        }
    }

    /// Polls for a received frame, copies it to `buffer` and gives it as a
    /// message: the MAC frame in the buffer, with its receive time.
    ///
    /// The poll runs as [`DW3000::r_wait_buf`] does. The frame that is
    /// delivered must be one that the MAC frame codec accepts.
    pub fn r_wait<'b, E: Copy>(&mut self, replies: &[Reply<E>], buffer: &'b mut [u8]) -> (step:
        Step<Poll<Message<'b>, E>>)
        requires
            rx_plan(replies@, old(buffer)@.len()) matches RxPlan::Frame { bytes, .. }
                ==> ieee802154_frame_accepted(bytes),
        ensures
            match rx_plan(replies@, old(buffer)@.len()) {
                RxPlan::Bus(exchange) => {
                    &&& step matches Step::Bus(transaction) && transaction@ == exchange
                    &&& *final(self) == *old(self)
                    &&& final(buffer)@ == old(buffer)@
                },
                RxPlan::Pending => {
                    &&& step matches Step::Done(Poll::Pending)
                    &&& *final(self) == *old(self)
                    &&& final(buffer)@ == old(buffer)@
                },
                RxPlan::Failed(error) => {
                    &&& step matches Step::Done(Poll::Failed(failure)) && failure == error
                    &&& *final(self) == *old(self)
                    &&& final(buffer)@ == old(buffer)@
                },
                RxPlan::Frame { rx_time, bytes } => {
                    &&& step matches Step::Done(Poll::Ready(message)) && message.frame@ == bytes
                        && message.rx_time.value() == rx_time && ieee802154_frame_accepted(
                        message.frame@,
                    )
                    &&& final(buffer)@ == bytes + old(buffer)@.skip(bytes.len() as int)
                    &&& final(self).session().finished()
                    &&& final(self).bus() == old(self).bus()
                    &&& final(self).sequence() == old(self).sequence()
                },
            },
    {
        match rx_poll(replies, buffer.len()) {
            RxPoll::Bus(transaction) => Step::Bus(transaction),
            RxPoll::Pending => Step::Done(Poll::Pending),
            RxPoll::Failed(error) => Step::Done(Poll::Failed(error)),
            RxPoll::Frame { rx_time, bytes } => {
                store(buffer, bytes.as_slice());
                self.state.mark_finished();
                let filled: &'b [u8] = buffer;
                let frame: &'b [u8] = vstd::slice::slice_subrange(filled, 0, bytes.len());
                assert(frame@ =~= bytes@);
                Step::Done(Poll::Ready(Message { rx_time, frame }))
            },
        }
    }

    /// Polls as [`DW3000::r_wait`] does, and first asks the MAC frame codec
    /// whether it accepts the frame that would be delivered. A frame that it
    /// does not accept gives `None`, and nothing changes.
    pub fn r_wait_checked<'b, E: Copy>(
        &mut self,
        replies: &[Reply<E>],
        buffer: &'b mut [u8],
    ) -> (checked: Option<Step<Poll<Message<'b>, E>>>)
        ensures
            match rx_plan(replies@, old(buffer)@.len()) {
                RxPlan::Bus(exchange) => {
                    &&& checked matches Some(Step::Bus(transaction)) && transaction@ == exchange
                    &&& *final(self) == *old(self)
                    &&& final(buffer)@ == old(buffer)@
                },
                RxPlan::Pending => {
                    &&& checked matches Some(Step::Done(Poll::Pending))
                    &&& *final(self) == *old(self)
                    &&& final(buffer)@ == old(buffer)@
                },
                RxPlan::Failed(error) => {
                    &&& checked matches Some(Step::Done(Poll::Failed(failure))) && failure == error
                    &&& *final(self) == *old(self)
                    &&& final(buffer)@ == old(buffer)@
                },
                RxPlan::Frame { rx_time, bytes } => if ieee802154_frame_accepted(bytes) {
                    &&& checked matches Some(Step::Done(Poll::Ready(message))) && message.frame@
                        == bytes && message.rx_time.value() == rx_time
                    &&& final(buffer)@ == bytes + old(buffer)@.skip(bytes.len() as int)
                    &&& final(self).session().finished()
                    &&& final(self).bus() == old(self).bus()
                    &&& final(self).sequence() == old(self).sequence()
                } else {
                    &&& checked is None
                    &&& *final(self) == *old(self)
                    &&& final(buffer)@ == old(buffer)@
                },
            },
    {
        let accepted: bool = match rx_poll(replies, buffer.len()) {
            RxPoll::Frame { rx_time, bytes } => frame_accepted(bytes.as_slice()),
            _ => true,
        };
        if accepted {
            Some(self.r_wait(replies, buffer))
        } else {
            None
        }
    }

    /// Finishes receiving and returns to the `Ready` state.
    ///
    /// If a poll has delivered a frame, this performs no bus transaction. If
    /// the receive is still going on, it is aborted by forcing the chip to
    /// idle. Should that fail, the handle comes back unchanged with the error.
    pub fn finish_receiving<E: Copy>(self, replies: &[Reply<E>]) -> (transition: Transition<
        DW3000<SPI, Ready>,
        Self,
        E,
    >)
        ensures
            match finish_plan::<E>(self.session().finished(), replies@) {
                StepView::Bus(exchange) => transition matches Transition::Bus(same, transaction)
                    && same == self && transaction@ == exchange,
                StepView::Done(Ok(_)) => transition matches Transition::Done(ready) && ready.bus()
                    == self.bus() && ready.sequence() == self.sequence(),
                StepView::Done(Err(error)) => transition matches Transition::Failed(same, failure)
                    && same == self && failure == error,
            },
            self.session().finished() ==> transition is Done,
    {
        match finish(self.state.is_finished(), replies) {
            Step::Bus(transaction) => Transition::Bus(self, transaction),
            Step::Done(Ok(_)) => Transition::Done(self.retag(Ready)),
            Step::Done(Err(error)) => Transition::Failed(self, error),
        }
    }
}

} // verus!
