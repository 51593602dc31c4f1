//! The idle chip: where sending and receiving start.

use vstd::prelude::*;
use crate::bus::{Reply, Slot};
use crate::command::FastCommand;
use crate::error::Error;
use crate::hl::receiving::receive_script;
use crate::hl::{
    ends_with_its_only_command, filter_script, filter_slots, push_start, run, start_plan,
    start_script, Config,
    DoubleBufferReceiving, Ready, ReceiveSession, ReceiveTime, Receiving, SendTime, Sending,
    Session, Step, StepView, Transition, DW3000,
};
use crate::register::{Register, FCS_LEN, TXFLEN};
use crate::time::Instant;

verus! {

/// Longest payload that can be sent: what the transmit frame length field can
/// express, less the frame check sequence that the chip appends.
pub const MAX_PAYLOAD: usize = 1021;

/// The slots of a send: frame filtering, the payload into the transmit
/// buffer, the frame length with the frame check sequence counted in, then
/// the start of the transmitter.
pub open spec fn send_script(len: nat, send_time: SendTime, config: Config) -> Seq<Slot> {
    filter_script(config) + seq![
        Slot::Load(Register::TX_BUFFER),
        Slot::Read(Register::TX_FCTRL),
        Slot::Update(Register::TX_FCTRL, TXFLEN, (len + FCS_LEN) as u64),
    ] + start_script(send_time.delay(), FastCommand::CMD_TX, FastCommand::CMD_DTX)
}

/// Sending issues exactly one fast command, after all configuration: the
/// immediate one without a delay, the delayed one with. Every other write is
/// a register write.
pub proof fn lemma_send_ends_with_its_only_command(len: nat, send_time: SendTime, config: Config)
    ensures
        ends_with_its_only_command(
            send_script(len, send_time, config),
            if send_time is Now {
                FastCommand::CMD_TX
            } else {
                FastCommand::CMD_DTX
            },
        ),
{
}

impl<SPI> DW3000<SPI, Ready> {
    /// The handle of a configured, idle chip on the given bus.
    pub fn new(ll: SPI) -> (handle: Self)
        ensures
            handle.bus() == ll,
            handle.sequence() == 0,
    {
        DW3000 { ll, seq: 0, state: Ready }
    }

    /// Sends a frame.
    ///
    /// Configures frame filtering, loads the payload and its length, programs
    /// the delay register for a delayed send, and issues the fast command that
    /// starts the transmitter. A send time that the delay register cannot hold
    /// is refused before any transaction. The handle comes back in the
    /// `Sending` state once every transaction is answered.
    pub fn send<E: Copy>(
        self,
        data: &[u8],
        send_time: SendTime,
        config: Config,
        replies: &[Reply<E>],
    ) -> (transition: Transition<DW3000<SPI, Sending>, Self, E>)
        requires
            data@.len() <= MAX_PAYLOAD,
        ensures
            match start_plan::<E>(
                send_time.delay(),
                send_script(data@.len(), send_time, config),
                data@,
                replies@,
            ) {
                StepView::Bus(exchange) => transition matches Transition::Bus(same, transaction)
                    && same == self && transaction@ == exchange,
                StepView::Done(Ok(_)) => transition matches Transition::Done(sending)
                    && sending.bus() == self.bus() && sending.sequence() == self.sequence()
                    && !sending.session().finished(),
                StepView::Done(Err(error)) => transition matches Transition::Failed(same, failure)
                    && same == self && failure == error,
            },
    {
        let delay: Option<Instant> = match send_time {
            SendTime::Now => None,
            SendTime::Delayed(time) => Some(time),
        };
        let mut script: Vec<Slot> = filter_slots(config);
        script.push(Slot::Load(Register::TX_BUFFER));
        script.push(Slot::Read(Register::TX_FCTRL));
        script.push(Slot::Update(Register::TX_FCTRL, TXFLEN, (data.len() + FCS_LEN) as u64));
        if !push_start(&mut script, delay, FastCommand::CMD_TX, FastCommand::CMD_DTX) {
            return Transition::Failed(self, Error::InvalidTimestampRounding);
        }
        assert(script@ =~= send_script(data@.len(), send_time, config));
        match run(script.as_slice(), data, replies) {
            Step::Bus(transaction) => Transition::Bus(self, transaction),
            Step::Done(Ok(_)) => Transition::Done(self.retag(Sending::started())),
            Step::Done(Err(error)) => Transition::Failed(self, error),
        }
    }

    /// Starts receiving at once.
    ///
    /// Configures frame filtering and issues the fast command that enables the
    /// receiver. The handle comes back in the `Receiving` state once every
    /// transaction is answered.
    pub fn receive<E: Copy>(self, config: Config, replies: &[Reply<E>]) -> (transition: Transition<
        DW3000<SPI, Receiving>,
        Self,
        E,
    >)
        ensures
            match start_plan::<E>(
                None,
                receive_script(ReceiveTime::Now, config),
                Seq::empty(),
                replies@,
            ) {
                StepView::Bus(exchange) => transition matches Transition::Bus(same, transaction)
                    && same == self && transaction@ == exchange,
                StepView::Done(Ok(_)) => transition matches Transition::Done(receiving)
                    && receiving.bus() == self.bus() && receiving.sequence() == self.sequence()
                    && !receiving.session().finished(),
                StepView::Done(Err(error)) => transition matches Transition::Failed(same, failure)
                    && same == self && failure == error,
            },
    {
        self.begin(Receiving::started(), ReceiveTime::Now, config, replies)
    }

    /// Starts receiving at the given time.
    ///
    /// Configures frame filtering, programs the delay register for a delayed
    /// start, and issues the fast command that enables the receiver. A start
    /// time that the delay register cannot hold is refused before any
    /// transaction.
    pub fn receive_delayed<E: Copy>(
        self,
        recv_time: ReceiveTime,
        config: Config,
        replies: &[Reply<E>],
    ) -> (transition: Transition<DW3000<SPI, Receiving>, Self, E>)
        ensures
            match start_plan::<E>(
                recv_time.delay(),
                receive_script(recv_time, config),
                Seq::empty(),
                replies@,
            ) {
                StepView::Bus(exchange) => transition matches Transition::Bus(same, transaction)
                    && same == self && transaction@ == exchange,
                StepView::Done(Ok(_)) => transition matches Transition::Done(receiving)
                    && receiving.bus() == self.bus() && receiving.sequence() == self.sequence()
                    && !receiving.session().finished(),
                StepView::Done(Err(error)) => transition matches Transition::Failed(same, failure)
                    && same == self && failure == error,
            },
    {
        self.begin(Receiving::started(), recv_time, config, replies)
    }

    /// Starts receiving at once, as [`DW3000::receive`] does, with the handle
    /// coming back in the `DoubleBufferReceiving` state.
    pub fn receive_double_buffered<E: Copy>(self, config: Config, replies: &[Reply<E>]) -> (transition:
        Transition<DW3000<SPI, DoubleBufferReceiving>, Self, E>)
        ensures
            match start_plan::<E>(
                None,
                receive_script(ReceiveTime::Now, config),
                Seq::empty(),
                replies@,
            ) {
                StepView::Bus(exchange) => transition matches Transition::Bus(same, transaction)
                    && same == self && transaction@ == exchange,
                StepView::Done(Ok(_)) => transition matches Transition::Done(receiving)
                    && receiving.bus() == self.bus() && receiving.sequence() == self.sequence()
                    && !receiving.session().finished(),
                StepView::Done(Err(error)) => transition matches Transition::Failed(same, failure)
                    && same == self && failure == error,
            },
    {
        self.begin(DoubleBufferReceiving::started(), ReceiveTime::Now, config, replies)
    }

    /// Starts the receiver for a fresh session of the given kind. The handle
    /// moves to the session only when the receiver has been started.
    fn begin<RECEIVING: ReceiveSession, E: Copy>(
        self,
        state: RECEIVING,
        recv_time: ReceiveTime,
        config: Config,
        replies: &[Reply<E>],
    ) -> (transition: Transition<DW3000<SPI, RECEIVING>, Self, E>)
        ensures
            match start_plan::<E>(
                recv_time.delay(),
                receive_script(recv_time, config),
                Seq::empty(),
                replies@,
            ) {
                StepView::Bus(exchange) => transition matches Transition::Bus(same, transaction)
                    && same == self && transaction@ == exchange,
                StepView::Done(Ok(_)) => transition matches Transition::Done(receiving)
                    && receiving.bus() == self.bus() && receiving.sequence() == self.sequence()
                    && receiving.session() == state,
                StepView::Done(Err(error)) => transition matches Transition::Failed(same, failure)
                    && same == self && failure == error,
            },
    {
        let ghost before = self;
        let receiving: DW3000<SPI, RECEIVING> = self.retag(state);
        match receiving.start_receiving(recv_time, config, replies) {
            Step::Bus(transaction) => {
                let same: DW3000<SPI, Ready> = receiving.retag(Ready);
                proof {
                    same.lemma_parts_decide(before);
                }
                Transition::Bus(same, transaction)
            },
            Step::Done(Ok(_)) => Transition::Done(receiving),
            Step::Done(Err(error)) => {
                let same: DW3000<SPI, Ready> = receiving.retag(Ready);
                proof {
                    same.lemma_parts_decide(before);
                }
                Transition::Failed(same, error)
            },
        }
    }
}

} // verus!
