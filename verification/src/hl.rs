//! The device handle and its typestate machine.
//!
//! A handle carries a tag for the mode the chip is in: [`Ready`], [`Sending`],
//! [`Receiving`] or [`DoubleBufferReceiving`]. Each tag offers only the
//! operations that the chip supports in that mode, and a transition consumes
//! the handle and gives the handle of the new mode, so an operation can never
//! be issued in a mode that does not allow it.
//!
//! Every operation takes the replies to the bus transactions it has asked for
//! so far and either asks for the next one or gives its result.

use vstd::prelude::*;
use crate::bus::{advance, replay, Exchange, Next, Progress, Reply, Slot, Transaction};
use crate::command::FastCommand;
use crate::error::Error;
use crate::register::{Register, DX_TIME_VALUE, FFEN, FF_ALLOW};
use crate::time::Instant;

pub mod ready;
pub mod receiving;
pub mod sending;

verus! {

/// The part of the transceiver configuration that sending and receiving read.
#[derive(Clone, Copy, Debug, PartialEq, Eq)]
pub struct Config {
    /// Whether the chip filters received frames by their MAC header.
    pub frame_filtering: bool,
}

/// When a frame is to be sent.
#[derive(Clone, Copy, Debug, PartialEq, Eq)]
pub enum SendTime {
    /// As fast as possible.
    Now,
    /// At the given instant, which the delay register must be able to hold.
    Delayed(Instant),
}

/// When the receiver is to be enabled.
#[derive(Clone, Copy, Debug, PartialEq, Eq)]
pub enum ReceiveTime {
    /// As fast as possible.
    Now,
    /// At the given instant, which the delay register must be able to hold.
    Delayed(Instant),
}

impl SendTime {
    /// The instant to wait for, if any.
    pub open spec fn delay(self) -> Option<Instant> {
        match self {
            SendTime::Now => None,
            SendTime::Delayed(time) => Some(time),
        }
    }
}

impl ReceiveTime {
    /// The instant to wait for, if any.
    pub open spec fn delay(self) -> Option<Instant> {
        match self {
            ReceiveTime::Now => None,
            ReceiveTime::Delayed(time) => Some(time),
        }
    }
}

/// The chip is idle and configured: the initial mode, and the mode after every
/// completed or aborted operation.
#[derive(Debug, PartialEq, Eq)]
pub struct Ready;

/// The chip is sending a frame.
#[derive(Debug, PartialEq, Eq)]
pub struct Sending {
    finished: bool,
}

/// The chip is receiving.
#[derive(Debug, PartialEq, Eq)]
pub struct Receiving {
    finished: bool,
}

/// The chip is receiving in double-buffered mode.
#[derive(Debug, PartialEq, Eq)]
pub struct DoubleBufferReceiving {
    finished: bool,
}

/// A mode in which an operation runs on the chip. The session remembers
/// whether a poll has seen the operation complete, so that finishing it does
/// not disturb the chip a second time.
pub trait Session: Sized {
    /// Whether a poll has seen the operation complete.
    spec fn finished(&self) -> bool;

    /// Whether a poll has seen the operation complete.
    fn is_finished(&self) -> (finished: bool)
        ensures
            finished == self.finished(),
    ;

    /// Records that a poll has seen the operation complete.
    fn mark_finished(&mut self)
        ensures
            final(self).finished(),
    ;
}

/// A mode in which the chip receives.
pub trait ReceiveSession: Session {

}

impl Session for Sending {
    closed spec fn finished(&self) -> bool {
        self.finished
    }

    fn is_finished(&self) -> (finished: bool) {
        self.finished
    }

    fn mark_finished(&mut self) {
        self.finished = true;
    }
}

impl Session for Receiving {
    closed spec fn finished(&self) -> bool {
        self.finished
    }

    fn is_finished(&self) -> (finished: bool) {
        self.finished
    }

    fn mark_finished(&mut self) {
        self.finished = true;
    }
}

impl Session for DoubleBufferReceiving {
    closed spec fn finished(&self) -> bool {
        self.finished
    }

    fn is_finished(&self) -> (finished: bool) {
        self.finished
    }

    fn mark_finished(&mut self) {
        self.finished = true;
    }
}

impl Sending {
    /// The state of a send that has just been started.
    pub(crate) fn started() -> (state: Sending)
        ensures
            !state.finished(),
    {
        Sending { finished: false }
    }
}

impl Receiving {
    /// The state of a receive that has just been started.
    pub(crate) fn started() -> (state: Receiving)
        ensures
            !state.finished(),
    {
        Receiving { finished: false }
    }
}

impl DoubleBufferReceiving {
    /// The state of a double-buffered receive that has just been started.
    pub(crate) fn started() -> (state: DoubleBufferReceiving)
        ensures
            !state.finished(),
    {
        DoubleBufferReceiving { finished: false }
    }
}

impl ReceiveSession for Receiving {

}

impl ReceiveSession for DoubleBufferReceiving {

}

/// The handle of one chip: the bus the chip sits on, a sequence counter, and
/// the state of the mode the chip is in.
#[derive(Debug, PartialEq, Eq)]
pub struct DW3000<SPI, STATE> {
    ll: SPI,
    seq: u8,
    state: STATE,
}

/// What an operation asks for or gives, given the replies so far.
#[derive(Debug, PartialEq, Eq)]
pub enum Step<T> {
    /// Perform this transaction and call again with its reply appended.
    Bus(Transaction),
    /// The operation is over, with this result.
    Done(T),
}

/// A step as a mathematical value.
pub enum StepView<T> {
    /// The transaction to perform.
    Bus(Exchange),
    /// The result.
    Done(T),
}

impl<T> View for Step<T> {
    type V = StepView<T>;

    open spec fn view(&self) -> StepView<T> {
        match self {
            Step::Bus(transaction) => StepView::Bus(transaction@),
            Step::Done(result) => StepView::Done(*result),
        }
    }
}

/// What a transition asks for or gives, given the replies so far. The handle
/// is never lost: it comes back unchanged with a request or a failure, and in
/// its new mode with success.
#[derive(Debug, PartialEq, Eq)]
pub enum Transition<NEXT, SAME, E> {
    /// Perform this transaction and call again on the handle with the reply
    /// appended.
    Bus(SAME, Transaction),
    /// The transition is made.
    Done(NEXT),
    /// The transition failed; the handle is as it was.
    Failed(SAME, Error<E>),
}

impl<SPI, STATE> DW3000<SPI, STATE> {
    /// The bus that the handle owns.
    pub closed spec fn bus(&self) -> SPI {
        self.ll
    }

    /// The sequence counter.
    pub closed spec fn sequence(&self) -> u8 {
        self.seq
    }

    /// The state of the mode the chip is in.
    pub closed spec fn session(&self) -> STATE {
        self.state
    }

    /// The bus, for the caller to perform a transaction on.
    pub fn ll(&mut self) -> (ll: &mut SPI)
        ensures
            *ll == old(self).bus(),
            final(self).bus() == *final(ll),
            final(self).sequence() == old(self).sequence(),
            final(self).session() == old(self).session(),
    {
        &mut self.ll
    }

    /// The sequence counter.
    pub fn seq(&self) -> (seq: u8)
        ensures
            seq == self.sequence(),
    {
        self.seq
    }

    /// The state of the mode the chip is in.
    pub fn state(&self) -> (state: &STATE)
        ensures
            *state == self.session(),
    {
        &self.state
    }

    /// The handle of the same chip in another mode.
    pub(crate) fn retag<NEXT>(self, state: NEXT) -> (handle: DW3000<SPI, NEXT>)
        ensures
            handle.bus() == self.bus(),
            handle.sequence() == self.sequence(),
            handle.session() == state,
    {
        DW3000 { ll: self.ll, seq: self.seq, state }
    }

    /// Two handles with the same bus, counter and state are the same handle.
    pub proof fn lemma_parts_decide(self, other: Self)
        requires
            self.bus() == other.bus(),
            self.sequence() == other.sequence(),
            self.session() == other.session(),
        ensures
            self == other,
    {
    }
}

/// The slots that configure frame filtering: switch it on and allow beacon,
/// data, acknowledgement and MAC command frames, or switch it off.
pub open spec fn filter_script(config: Config) -> Seq<Slot> {
    if config.frame_filtering {
        seq![
            Slot::Read(Register::SYS_CFG),
            Slot::Update(Register::SYS_CFG, 0, FFEN),
            Slot::Read(Register::FF_CFG),
            Slot::Update(Register::FF_CFG, 0, FF_ALLOW),
        ]
    } else {
        seq![Slot::Read(Register::SYS_CFG), Slot::Update(Register::SYS_CFG, FFEN, 0)]
    }
}

/// The slots that start an operation: at once with one fast command, or with
/// the delay register programmed and then the delayed fast command.
pub open spec fn start_script(delay: Option<Instant>, now: FastCommand, delayed: FastCommand) -> Seq<
    Slot,
> {
    match delay {
        None => seq![Slot::Command(now)],
        Some(time) => seq![
            Slot::Read(Register::DX_TIME),
            Slot::Update(Register::DX_TIME, DX_TIME_VALUE, time.delay_word() as u64),
            Slot::Command(delayed),
        ],
    }
}

/// Whether a script issues exactly one fast command, the given one, and issues
/// it last, after every register access.
pub open spec fn ends_with_its_only_command(script: Seq<Slot>, command: FastCommand) -> bool {
    &&& script.len() > 0
    &&& script.last() == Slot::Command(command)
    &&& forall|i: int| 0 <= i < script.len() - 1 ==> !(#[trigger] script[i] is Command)
}

/// Whether a start time is refused: a delay that the delay register cannot
/// hold without rounding.
pub open spec fn delay_refused(delay: Option<Instant>) -> bool {
    delay matches Some(time) && !time.delay_aligned()
}

/// What running a script gives: the next transaction, success once every
/// slot is answered, or the first bus error.
pub open spec fn script_plan<E>(script: Seq<Slot>, payload: Seq<u8>, replies: Seq<Reply<E>>)
    -> StepView<Result<(), Error<E>>> {
    match replay(script, payload, replies) {
        Next::Perform(exchange) => StepView::Bus(exchange),
        Next::Complete => StepView::Done(Ok(())),
        Next::Broken(error) => StepView::Done(Err(Error::Spi(error))),
    }
}

/// What starting an operation gives: a refused start time fails before any
/// transaction; otherwise the script runs.
pub open spec fn start_plan<E>(
    delay: Option<Instant>,
    script: Seq<Slot>,
    payload: Seq<u8>,
    replies: Seq<Reply<E>>,
) -> StepView<Result<(), Error<E>>> {
    if delay_refused(delay) {
        StepView::Done(Err(Error::InvalidTimestampRounding))
    } else {
        script_plan(script, payload, replies)
    }
}

/// What finishing a session gives. A session that is finished needs nothing
/// from the bus. Any other is aborted by forcing the chip to idle with one
/// fast command.
pub open spec fn finish_plan<E>(finished: bool, replies: Seq<Reply<E>>) -> StepView<
    Result<(), Error<E>>,
> {
    if finished {
        StepView::Done(Ok(()))
    } else {
        script_plan(seq![Slot::Command(FastCommand::CMD_TXRXOFF)], Seq::empty(), replies)
    }
}

/// Runs a script against the replies so far.
pub(crate) fn run<E: Copy>(script: &[Slot], payload: &[u8], replies: &[Reply<E>]) -> (step: Step<
    Result<(), Error<E>>,
>)
    ensures
        step@ == script_plan(script@, payload@, replies@),
{
    match advance(script, payload, replies) {
        Progress::Perform(transaction) => Step::Bus(transaction),
        Progress::Complete => Step::Done(Ok(())),
        Progress::Broken(error) => Step::Done(Err(Error::Spi(error))),
    }
}

/// Builds the slots that configure frame filtering.
pub(crate) fn filter_slots(config: Config) -> (script: Vec<Slot>)
    ensures
        script@ == filter_script(config),
{
    if config.frame_filtering {
        vec![
            Slot::Read(Register::SYS_CFG),
            Slot::Update(Register::SYS_CFG, 0, FFEN),
            Slot::Read(Register::FF_CFG),
            Slot::Update(Register::FF_CFG, 0, FF_ALLOW),
        ]
    } else {
        vec![Slot::Read(Register::SYS_CFG), Slot::Update(Register::SYS_CFG, FFEN, 0)]
    }
}

/// Appends the slots that start an operation, or refuses the start time.
pub(crate) fn push_start(
    script: &mut Vec<Slot>,
    delay: Option<Instant>,
    now: FastCommand,
    delayed: FastCommand,
) -> (accepted: bool)
    ensures
        accepted == !delay_refused(delay),
        accepted ==> final(script)@ == old(script)@ + start_script(delay, now, delayed),
        !accepted ==> final(script)@ == old(script)@,
{
    match delay {
        None => {
            script.push(Slot::Command(now));
            assert(script@ =~= old(script)@ + start_script(delay, now, delayed));
            true
        },
        Some(time) => match time.delay_register_value() {
            None => false,
            Some(word) => {
                script.push(Slot::Read(Register::DX_TIME));
                script.push(Slot::Update(Register::DX_TIME, DX_TIME_VALUE, word as u64));
                script.push(Slot::Command(delayed));
                assert(script@ =~= old(script)@ + start_script(delay, now, delayed));
                true
            },
        },
    }
}

/// Finishes a session: nothing to do when it is finished, else force the chip
/// to idle.
pub(crate) fn finish<E: Copy>(finished: bool, replies: &[Reply<E>]) -> (step: Step<
    Result<(), Error<E>>,
>)
    ensures
        step@ == finish_plan(finished, replies@),
{
    if finished {
        Step::Done(Ok(()))
    } else {
        let script: Vec<Slot> = vec![Slot::Command(FastCommand::CMD_TXRXOFF)];
        let payload: Vec<u8> = Vec::new();
        run(script.as_slice(), payload.as_slice(), replies)
    }
}

/// Finishing a finished session performs no bus transaction, whatever the
/// replies are.
pub proof fn lemma_finish_is_idempotent<E>(replies: Seq<Reply<E>>)
    ensures
        finish_plan(true, replies) == StepView::<Result<(), Error<E>>>::Done(Ok(())),
{
}

/// A refused start time fails before any bus transaction, whatever the script
/// and the replies are.
pub proof fn lemma_refused_before_any_transaction<E>(
    delay: Option<Instant>,
    script: Seq<Slot>,
    payload: Seq<u8>,
    replies: Seq<Reply<E>>,
)
    requires
        delay_refused(delay),
    ensures
        start_plan(delay, script, payload, replies) == StepView::<Result<(), Error<E>>>::Done(
            Err(Error::InvalidTimestampRounding),
        ),
{
}

} // verus!
