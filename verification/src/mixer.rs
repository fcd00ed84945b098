//! Folding sampled signals into one digest.
//!
//! Every digest comes from an accumulator made for that digest alone, fed in
//! a fixed order: port readings first where there are any, then voltage,
//! current, elapsed time and the power-on counter.
use crate::hasher::{
    absorb_i32, absorb_u128, absorb_u32, absorb_u64, absorbed, digest_of, finish, fresh_hasher, Word,
};
use crate::signal::{adi_words, elapsed_micros, reading_words, system_words, SystemSample};
use ahash::AHasher;
use vstd::prelude::*;

verus! {

/// Feeds the system metrics to an accumulator, in mixing order.
fn absorb_system(hasher: &mut AHasher, created: u64, sample: &SystemSample)
    ensures
        absorbed(*final(hasher)) == absorbed(*old(hasher)) + system_words(created, *sample),
{
    absorb_u32(hasher, sample.millivolts);
    absorb_u32(hasher, sample.milliamps);
    absorb_u128(hasher, elapsed_micros(created, sample.clock_micros));
    absorb_u64(hasher, sample.power_on_micros);
}

/// Feeds port readings to an accumulator, first to last.
fn absorb_readings(hasher: &mut AHasher, readings: &[i32])
    ensures
        absorbed(*final(hasher)) == absorbed(*old(hasher)) + reading_words(readings@),
{
    let mut i: usize = 0;
    while i < readings.len()
        invariant
            i <= readings@.len(),
            absorbed(*hasher) == absorbed(*old(hasher)) + reading_words(readings@.take(i as int)),
        decreases readings@.len() - i,
    {
        absorb_i32(hasher, readings[i]);
        assert(reading_words(readings@.take(i + 1)) == reading_words(readings@.take(i as int)).push(
            Word::I32(readings@[i as int]),
        ));
        i = i + 1;
    }
    assert(readings@.take(i as int) == readings@);
}

/// Digest of the system metrics alone.
pub fn mix_system(created: u64, sample: &SystemSample) -> (digest: u64)
    ensures
        digest == digest_of(system_words(created, *sample)),
{
    let mut hasher = fresh_hasher();
    absorb_system(&mut hasher, created, sample);
    finish(&hasher)
}

/// Digest of port readings followed by the system metrics.
pub fn mix_adi(created: u64, readings: &[i32], system: &SystemSample) -> (digest: u64)
    ensures
        digest == digest_of(adi_words(created, readings@, *system)),
{
    let mut hasher = fresh_hasher();
    absorb_readings(&mut hasher, readings);
    absorb_system(&mut hasher, created, system);
    finish(&hasher)
}

} // verus!
