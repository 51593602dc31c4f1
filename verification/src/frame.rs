//! Received frames: the copy into the caller's buffer and the MAC frame view.

use vstd::prelude::*;
use crate::time::Instant;

verus! {

/// Whether `smoltcp::wire::Ieee802154Frame::new_checked` accepts the bytes as
/// an IEEE 802.15.4 MAC frame.
pub uninterp spec fn ieee802154_frame_accepted(bytes: Seq<u8>) -> bool;

/// Asks `smoltcp::wire::Ieee802154Frame::new_checked` whether it accepts the
/// bytes as an IEEE 802.15.4 MAC frame. The answer depends on the bytes alone;
/// nothing else is claimed of it.
#[verifier::external_body]
pub(crate) fn frame_accepted(bytes: &[u8]) -> (accepted: bool)
    ensures
        accepted == ieee802154_frame_accepted(bytes@),
{
    smoltcp::wire::Ieee802154Frame::new_checked(bytes).is_ok()
}

/// An incoming message.
#[derive(Debug, PartialEq, Eq)]
pub struct Message<'l> {
    /// The time the message was received, in chip time.
    pub rx_time: Instant,
    /// The bytes of the MAC frame, in the caller's buffer.
    pub frame: &'l [u8],
}

/// Copies a frame to the start of the caller's buffer. The rest of the buffer
/// keeps what it held.
pub(crate) fn store(buffer: &mut [u8], frame: &[u8])
    requires
        frame@.len() <= old(buffer)@.len(),
    ensures
        final(buffer)@ == frame@ + old(buffer)@.skip(frame@.len() as int),
{
    let mut i: usize = 0;
    while i < frame.len()
        invariant
            i <= frame@.len(),
            frame@.len() <= buffer@.len(),
            buffer@.len() == old(buffer)@.len(),
            forall|j: int| 0 <= j < i ==> buffer@[j] == frame@[j],
            forall|j: int| i <= j < buffer@.len() ==> buffer@[j] == old(buffer)@[j],
        decreases frame@.len() - i,
    {
        buffer[i] = frame[i];
        i += 1;
    }
    assert(buffer@ =~= frame@ + old(buffer)@.skip(frame@.len() as int));
}

} // verus!
