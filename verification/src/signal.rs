//! The sampled signals of one draw, and the words the mixer makes of them.
use crate::hasher::Word;
use vstd::prelude::*;

verus! {

/// One reading of the system metrics that every generator mixes.
#[derive(Clone, Copy, Debug, PartialEq, Eq)]
pub struct SystemSample {
    /// Battery voltage in millivolts.
    pub millivolts: u32,
    /// Battery current in milliamperes.
    pub milliamps: u32,
    /// The monotonic clock, in microseconds, at the time of the draw.
    pub clock_micros: u64,
    /// Microseconds since the device was powered on.
    pub power_on_micros: u64,
}

/// One reading of everything a port-sampling generator mixes.
#[derive(Clone, Debug, PartialEq, Eq)]
pub struct AdiSample {
    /// The raw value of each configured port, in the order of configuration.
    pub readings: Vec<i32>,
    /// The system metrics read alongside.
    pub system: SystemSample,
}

/// Microseconds from `created` to `now` on the monotonic clock; zero where
/// `now` does not lie after `created`.
pub open spec fn elapsed_between(created: u64, now: u64) -> u128 {
    if created < now {
        (now - created) as u128
    } else {
        0
    }
}

/// The words mixed for the system metrics, in mixing order: voltage,
/// current, time elapsed since `created`, power-on counter.
pub open spec fn system_words(created: u64, sample: SystemSample) -> Seq<Word> {
    seq![
        Word::U32(sample.millivolts),
        Word::U32(sample.milliamps),
        Word::U128(elapsed_between(created, sample.clock_micros)),
        Word::U64(sample.power_on_micros),
    ]
}

/// The words mixed for port readings: one signed word per reading, in order.
pub open spec fn reading_words(readings: Seq<i32>) -> Seq<Word> {
    Seq::new(readings.len(), |i: int| Word::I32(readings[i]))
}

/// The words mixed by a port-sampling draw: the readings first, then the
/// system metrics.
pub open spec fn adi_words(created: u64, readings: Seq<i32>, system: SystemSample) -> Seq<Word> {
    reading_words(readings) + system_words(created, system)
}

/// Computes the time elapsed from `created` to `now`, in microseconds.
pub fn elapsed_micros(created: u64, now: u64) -> (elapsed: u128)
    ensures
        elapsed == elapsed_between(created, now),
{
    if created < now {
        (now - created) as u128
    } else {
        0
    }
}

} // verus!
