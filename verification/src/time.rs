//! Chip time: the 40-bit timestamp counter and the delay register.

use vstd::prelude::*;

verus! {

/// Largest value of the 40-bit system time counter.
pub const TIME_MAX: u64 = 0xff_ffff_ffff;

/// An instant in chip time: a value of the 40-bit system time counter.
#[derive(Clone, Copy, Debug, PartialEq, Eq)]
pub struct Instant {
    ticks: u64,
}

impl Instant {
    #[verifier::type_invariant]
    spec fn in_range(self) -> bool {
        self.ticks <= TIME_MAX
    }

    /// The counter value of the instant.
    pub closed spec fn spec_value(&self) -> u64 {
        self.ticks
    }

    /// An instant from a counter value; `None` when the value needs more than
    /// 40 bits.
    pub fn new(value: u64) -> (instant: Option<Instant>)
        ensures
            instant.is_some() == (value <= TIME_MAX),
            instant.is_some() ==> instant.unwrap().value() == value,
    {
        if value <= TIME_MAX {
            Some(Instant { ticks: value })
        } else {
            None
        }
    }

    /// The counter value of the instant; it fits in 40 bits.
    #[verifier::when_used_as_spec(spec_value)]
    pub fn value(&self) -> (value: u64)
        ensures
            value == self.value(),
            value <= TIME_MAX,
    {
        proof {
            use_type_invariant(self);
        }
        self.ticks
    }

    /// Two instants with the same counter value are the same instant.
    pub proof fn lemma_value_decides(self, other: Instant)
        requires
            self.value() == other.value(),
        ensures
            self == other,
    {
    }

    /// Whether the delay register can hold the instant without loss: the
    /// register takes the top 32 bits of the counter and ignores its own low
    /// bit, so the low nine bits of the counter value must be zero.
    pub open spec fn delay_aligned(self) -> bool {
        self.value() % 512 == 0
    }

    /// The delay register value that stands for the instant.
    pub open spec fn delay_word(self) -> u32 {
        (self.value() / 256) as u32
    }

    /// The delay register value for the instant, or `None` when the instant is
    /// not aligned to the register's resolution. Nothing is ever rounded.
    pub fn delay_register_value(&self) -> (word: Option<u32>)
        ensures
            word == (if self.delay_aligned() {
                Some(self.delay_word())
            } else {
                None
            }),
    {
        let value: u64 = self.value();
        if value % 512 != 0 {
            return None;
        }
        assert(value >> 8 == value / 256 && value >> 8 <= 0xffff_ffff) by (bit_vector)
            requires
                value <= 0xff_ffff_ffff,
        ;
        Some((value >> 8) as u32)
    }

    /// An aligned instant of at most 40 bits is held without loss: the
    /// register value times 256 is the counter value again, and the bit that
    /// the chip ignores is zero.
    pub proof fn lemma_delay_lossless(self)
        requires
            self.value() <= TIME_MAX,
            self.delay_aligned(),
        ensures
            self.delay_word() * 256 == self.value(),
            self.delay_word() % 2 == 0,
    {
    }
}

} // verus!
