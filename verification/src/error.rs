//! The failures that the driver reports.

use vstd::prelude::*;

verus! {

/// Why an operation failed. `E` is the error type of the bus transport; the
/// driver passes such errors through unchanged.
#[derive(Debug, PartialEq, Eq)]
pub enum Error<E> {
    /// The bus transport failed.
    Spi(E),
    /// The frame check sequence of a received frame was wrong.
    Fcs,
    /// The PHY header of a received frame was in error.
    Phy,
    /// The Reed-Solomon decoder lost frame synchronisation.
    ReedSolomon,
    /// No start-of-frame delimiter arrived in time.
    SfdTimeout,
    /// Frame filtering rejected the frame.
    FrameFilteringRejection,
    /// No frame arrived within the frame wait time.
    FrameWaitTimeout,
    /// The receiver overran its buffer.
    Overrun,
    /// No preamble was detected in time.
    PreambleDetectionTimeout,
    /// The caller's buffer cannot hold the received frame.
    BufferTooSmall {
        /// The length that the buffer needs.
        required_len: usize,
    },
    /// A delayed operation was asked for at an instant that the delay register
    /// cannot hold without rounding.
    InvalidTimestampRounding,
}

/// What a poll of a running operation found.
#[derive(Debug, PartialEq, Eq)]
pub enum Poll<T, E> {
    /// The operation is still in progress: poll again later.
    Pending,
    /// The operation is complete.
    Ready(T),
    /// The operation failed.
    Failed(Error<E>),
}

} // verus!
