//! Sending: polling for the end of a transmission, and finishing.

use vstd::prelude::*;
use crate::bus::{
    advance, replay, reply_word, slot_exchange, transaction, word_of, Next, Progress, Reply, Slot,
};
use crate::error::{Error, Poll};
use crate::hl::{finish, finish_plan, Ready, Sending, Session, Step, StepView, Transition, DW3000};
use crate::register::{le_word, Register};
use crate::status::{tx_done, tx_status, TX_EVENTS};

verus! {

/// The slots of a poll that finds the frame sent: the status, and the write
/// that clears the transmit events.
pub open spec fn tx_script() -> Seq<Slot> {
    seq![Slot::Read(Register::SYS_STATUS), Slot::Write(Register::SYS_STATUS, TX_EVENTS)]
}

/// What a poll of the transmitter comes to, given the replies so far. The
/// poll first reads the status. Until the status shows the frame sent, the
/// send is pending; then the transmit events are cleared and the send is
/// complete.
pub open spec fn tx_plan<E>(replies: Seq<Reply<E>>) -> StepView<Poll<(), E>> {
    if replies.len() == 0 {
        StepView::Bus(slot_exchange(Slot::Read(Register::SYS_STATUS), 0, Seq::empty()))
    } else {
        match replies[0] {
            Err(error) => StepView::Done(Poll::Failed(Error::Spi(error))),
            Ok(status) => if !tx_done(le_word(status@)) {
                StepView::Done(Poll::Pending)
            } else {
                match replay(tx_script(), Seq::empty(), replies) {
                    Next::Perform(exchange) => StepView::Bus(exchange),
                    Next::Broken(error) => StepView::Done(Poll::Failed(Error::Spi(error))),
                    Next::Complete => StepView::Done(Poll::Ready(())),
                }
            },
        }
    }
}

/// A poll of the transmitter asks for at most two transactions, and for only
/// the status read until the status shows the frame sent.
pub proof fn lemma_tx_poll_is_bounded<E>(replies: Seq<Reply<E>>)
    ensures
        replies.len() >= 2 ==> !(tx_plan(replies) is Bus),
        replies.len() >= 1 && !tx_done(reply_word(replies[0])) ==> !(tx_plan(replies) is Bus),
{
}

/// Polls the transmitter, given the replies so far.
pub fn tx_poll<E: Copy>(replies: &[Reply<E>]) -> (step: Step<Poll<(), E>>)
    ensures
        step@ == tx_plan(replies@),
{
    let payload: Vec<u8> = Vec::new();
    if replies.len() == 0 {
        return Step::Bus(transaction(Slot::Read(Register::SYS_STATUS), 0, payload.as_slice()));
    }
    match &replies[0] {
        Err(error) => Step::Done(Poll::Failed(Error::Spi(*error))),
        Ok(status) => {
            if !tx_status(word_of(&replies[0])) {
                Step::Done(Poll::Pending)
            } else {
                let script: Vec<Slot> = vec![
                    Slot::Read(Register::SYS_STATUS),
                    Slot::Write(Register::SYS_STATUS, TX_EVENTS),
                ];
                match advance(script.as_slice(), payload.as_slice(), replies) {
                    Progress::Perform(transaction) => Step::Bus(transaction),
                    Progress::Broken(error) => Step::Done(Poll::Failed(Error::Spi(error))),
                    Progress::Complete => Step::Done(Poll::Ready(())),
                }
            }
        },
    }
}

impl<SPI> DW3000<SPI, Sending> {
    /// Polls for the end of the transmission.
    ///
    /// The send is pending until the status shows the frame sent. Then the
    /// transmit events are cleared, the poll is complete and the session is
    /// marked finished. Nothing changes before that.
    pub fn s_wait<E: Copy>(&mut self, replies: &[Reply<E>]) -> (step: Step<Poll<(), E>>)
        ensures
            step@ == tx_plan(replies@),
            final(self).bus() == old(self).bus(),
            final(self).sequence() == old(self).sequence(),
            if step@ == StepView::Done(Poll::<(), E>::Ready(())) {
                final(self).session().finished()
            } else {
                *final(self) == *old(self)
            },
    {
        let step: Step<Poll<(), E>> = tx_poll(replies);
        match &step {
            Step::Done(Poll::Ready(_)) => {
                self.state.mark_finished();
            },
            _ => {},
        }
        step
    }

    /// Finishes sending and returns to the `Ready` state.
    ///
    /// If a poll has seen the frame sent, this performs no bus transaction. If
    /// the send is still going on, it is aborted by forcing the chip to idle.
    /// Should that fail, the handle comes back unchanged with the error.
    pub fn finish_sending<E: Copy>(self, replies: &[Reply<E>]) -> (transition: Transition<
        DW3000<SPI, Ready>,
        Self,
        E,
    >)
        ensures
            match finish_plan::<E>(self.session().finished(), replies@) {
                StepView::Bus(exchange) => transition matches Transition::Bus(same, transaction)
                    && same == self && transaction@ == exchange,
                StepView::Done(Ok(_)) => transition matches Transition::Done(ready) && ready.bus()
                    == self.bus() && ready.sequence() == self.sequence(),
                StepView::Done(Err(error)) => transition matches Transition::Failed(same, failure)
                    && same == self && failure == error,
            },
            self.session().finished() ==> transition is Done,
    {
        match finish(self.state.is_finished(), replies) {
            Step::Bus(transaction) => Transition::Bus(self, transaction),
            Step::Done(Ok(_)) => Transition::Done(self.retag(Ready)),
            Step::Done(Err(error)) => Transition::Failed(self, error),
        }
    }
}

} // verus!
