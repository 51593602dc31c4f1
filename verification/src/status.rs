//! The system event status word and its reduction to one outcome.

use vstd::prelude::*;
use crate::error::{Error, Poll};

verus! {

/// Transmit frame sent.
pub const TXFRS: u64 = 0x80;

/// Receiver preamble detected.
pub const RXPRD: u64 = 0x100;

/// Receiver start-of-frame delimiter detected.
pub const RXSFDD: u64 = 0x200;

/// Leading edge detection processing done.
pub const CIADONE: u64 = 0x400;

/// Receiver PHY header detected.
pub const RXPHD: u64 = 0x800;

/// Receiver PHY header error.
pub const RXPHE: u64 = 0x1000;

/// Receiver data frame ready.
pub const RXFR: u64 = 0x2000;

/// Receiver frame check sequence good.
pub const RXFCG: u64 = 0x4000;

/// Receiver frame check sequence error.
pub const RXFCE: u64 = 0x8000;

/// Receiver Reed-Solomon frame sync loss.
pub const RXFSL: u64 = 0x1_0000;

/// Receiver frame wait timeout.
pub const RXFTO: u64 = 0x2_0000;

/// Leading edge detection processing error.
pub const CIAERR: u64 = 0x4_0000;

/// Receiver overrun.
pub const RXOVRR: u64 = 0x10_0000;

/// Preamble detection timeout.
pub const RXPTO: u64 = 0x20_0000;

/// Receiver start-of-frame delimiter timeout.
pub const RXSTO: u64 = 0x400_0000;

/// Automatic frame filtering rejection.
pub const ARFE: u64 = 0x2000_0000;

/// Receiver preamble rejection.
pub const RXPREJ: u64 = 0x1_0000_0000;

/// The two flags that sound like errors and are not treated as such: they
/// occur spuriously on frames that are otherwise good.
pub const SPURIOUS: u64 = CIAERR | RXPREJ;

/// The receive events that are written back, and so cleared, once a good
/// frame has been seen.
pub const RX_EVENTS: u64 = RXPRD | RXSFDD | CIADONE | RXPHD | RXPHE | RXFR | RXFCG | RXFCE | RXFSL
    | RXFTO | CIAERR | RXOVRR | RXPTO | RXSTO | RXPREJ;

/// The transmit events that are written back once a frame has been sent.
pub const TX_EVENTS: u64 = 0xf0;

/// Whether any bit of `mask` is set in `word`.
pub open spec fn flag(word: u64, mask: u64) -> bool {
    word & mask != 0
}

/// The receive error that a status word shows: the first flag set, in the
/// order of precedence; `None` when no error flag is set.
pub open spec fn rx_error<E>(word: u64) -> Option<Error<E>> {
    if flag(word, RXFCE) {
        Some(Error::Fcs)
    } else if flag(word, RXPHE) {
        Some(Error::Phy)
    } else if flag(word, RXFSL) {
        Some(Error::ReedSolomon)
    } else if flag(word, RXSTO) {
        Some(Error::SfdTimeout)
    } else if flag(word, ARFE) {
        Some(Error::FrameFilteringRejection)
    } else if flag(word, RXFTO) {
        Some(Error::FrameWaitTimeout)
    } else if flag(word, RXOVRR) {
        Some(Error::Overrun)
    } else if flag(word, RXPTO) {
        Some(Error::PreambleDetectionTimeout)
    } else {
        None
    }
}

/// The outcome of a receive that a status word shows. A good frame wins over
/// everything; without one the first error flag decides; without either the
/// receive is still in progress.
pub open spec fn rx_outcome<E>(word: u64) -> Poll<(), E> {
    if flag(word, RXFCG) {
        Poll::Ready(())
    } else {
        match rx_error::<E>(word) {
            Some(error) => Poll::Failed(error),
            None => Poll::Pending,
        }
    }
}

/// Whether a status word shows that the frame has been sent.
pub open spec fn tx_done(word: u64) -> bool {
    flag(word, TXFRS)
}

/// Reduces a status word to the outcome of a receive. The result depends on
/// the word alone.
pub fn rx_status<E>(word: u64) -> (outcome: Poll<(), E>)
    ensures
        outcome == rx_outcome::<E>(word),
{
    if word & RXFCG != 0 {
        Poll::Ready(())
    } else if word & RXFCE != 0 {
        Poll::Failed(Error::Fcs)
    } else if word & RXPHE != 0 {
        Poll::Failed(Error::Phy)
    } else if word & RXFSL != 0 {
        Poll::Failed(Error::ReedSolomon)
    } else if word & RXSTO != 0 {
        Poll::Failed(Error::SfdTimeout)
    } else if word & ARFE != 0 {
        Poll::Failed(Error::FrameFilteringRejection)
    } else if word & RXFTO != 0 {
        Poll::Failed(Error::FrameWaitTimeout)
    } else if word & RXOVRR != 0 {
        Poll::Failed(Error::Overrun)
    } else if word & RXPTO != 0 {
        Poll::Failed(Error::PreambleDetectionTimeout)
    } else {
        Poll::Pending
    }
}

/// Tells from a status word whether the frame has been sent.
pub fn tx_status(word: u64) -> (done: bool)
    ensures
        done == tx_done(word),
{
    word & TXFRS != 0
}

/// A frame check sequence error outranks a start-of-frame delimiter timeout:
/// with both flags set and no good frame, the outcome is the former.
pub proof fn lemma_fcs_outranks_sfd_timeout<E>(word: u64)
    requires
        !flag(word, RXFCG),
        flag(word, RXFCE),
        flag(word, RXSTO),
    ensures
        rx_outcome::<E>(word) == Poll::<(), E>::Failed(Error::Fcs),
{
}

/// A good frame is a success whatever else the status word shows.
pub proof fn lemma_good_frame_wins<E>(word: u64)
    requires
        flag(word, RXFCG),
    ensures
        rx_outcome::<E>(word) == Poll::<(), E>::Ready(()),
{
}

/// The leading edge detection error and the preamble rejection never change
/// the outcome: setting or clearing them in any status word leaves it as it
/// was.
pub proof fn lemma_spurious_flags_ignored<E>(word: u64, spurious: u64)
    requires
        spurious & !SPURIOUS == 0,
    ensures
        rx_outcome::<E>(word | spurious) == rx_outcome::<E>(word),
        rx_outcome::<E>(word & !spurious) == rx_outcome::<E>(word),
{
    assert(SPURIOUS == 0x1_0004_0000 && RXFCG & 0x1_0004_0000 == 0 && RXFCE & 0x1_0004_0000 == 0
        && RXPHE & 0x1_0004_0000 == 0 && RXFSL & 0x1_0004_0000 == 0 && RXSTO & 0x1_0004_0000 == 0
        && ARFE & 0x1_0004_0000 == 0 && RXFTO & 0x1_0004_0000 == 0 && RXOVRR & 0x1_0004_0000 == 0
        && RXPTO & 0x1_0004_0000 == 0) by (bit_vector);
    assert(forall|mask: u64|
        mask & 0x1_0004_0000 == 0 ==> (#[trigger] flag(word | spurious, mask) == flag(word, mask)))
        by {
        assert forall|mask: u64| mask & 0x1_0004_0000 == 0 implies (#[trigger] flag(
            word | spurious,
            mask,
        ) == flag(word, mask)) by {
            assert(((word | spurious) & mask != 0) == (word & mask != 0)) by (bit_vector)
                requires
                    spurious & !0x1_0004_0000u64 == 0,
                    mask & 0x1_0004_0000 == 0,
            ;
        }
    }
    assert(forall|mask: u64|
        mask & 0x1_0004_0000 == 0 ==> (#[trigger] flag(word & !spurious, mask) == flag(word, mask)))
        by {
        assert forall|mask: u64| mask & 0x1_0004_0000 == 0 implies (#[trigger] flag(
            word & !spurious,
            mask,
        ) == flag(word, mask)) by {
            assert(((word & !spurious) & mask != 0) == (word & mask != 0)) by (bit_vector)
                requires
                    spurious & !0x1_0004_0000u64 == 0,
                    mask & 0x1_0004_0000 == 0,
            ;
        }
    }
}

} // verus!
