//! The generator that mixes system metrics only.
use crate::hasher::digest_of;
use crate::mixer::mix_system;
use crate::output::{chunk_count_of, filled, low_word, truncate_digest, write_chunk};
use crate::signal::{system_words, SystemSample};
use vstd::prelude::*;

verus! {

/// A generator that draws its entropy from battery telemetry and clocks.
///
/// It mixes fewer signals than [`crate::adi::AdiRng`], but needs no free port.
/// The only thing it keeps is the time of its creation; a draw changes nothing.
#[derive(Debug, Clone, Copy, Eq, PartialEq)]
pub struct SystemRng {
    time_of_creation: u64,
}

impl SystemRng {
    /// The monotonic clock reading, in microseconds, at which the generator was made.
    pub closed spec fn created_at(&self) -> u64 {
        self.time_of_creation
    }

    /// The digest this generator draws from one sample.
    pub open spec fn digest(&self, sample: SystemSample) -> u64 {
        digest_of(system_words(self.created_at(), sample))
    }

    /// The digests drawn from a run of samples, one each.
    pub open spec fn digests(&self, samples: Seq<SystemSample>) -> Seq<u64> {
        Seq::new(samples.len(), |i: int| self.digest(samples[i]))
    }

    /// Makes a generator at the given reading of the monotonic clock.
    pub fn new(now_micros: u64) -> (rng: SystemRng)
        ensures
            rng.created_at() == now_micros,
    {
        SystemRng { time_of_creation: now_micros }
    }

    /// Mixes one sample into a digest, with an accumulator of its own.
    pub fn hash_value(&self, sample: &SystemSample) -> (digest: u64)
        ensures
            digest == self.digest(*sample),
    {
        mix_system(self.time_of_creation, sample)
    }

    /// Draws 32 bits: the low half of the digest of `sample`.
    pub fn next_u32(&mut self, sample: &SystemSample) -> (word: u32)
        ensures
            word == low_word(old(self).digest(*sample)),
            *final(self) == *old(self),
    {
        truncate_digest(self.hash_value(sample))
    }

    /// Draws 64 bits: the digest of `sample`.
    pub fn next_u64(&mut self, sample: &SystemSample) -> (word: u64)
        ensures
            word == old(self).digest(*sample),
            *final(self) == *old(self),
    {
        self.hash_value(sample)
    }

    /// Fills `dest` in chunks of four bytes, the last one possibly shorter.
    ///
    /// Chunk `i` receives the leading little-endian bytes of the digest of
    /// `samples[i]`, so every chunk is a draw of its own.
    pub fn fill_bytes(&mut self, samples: &[SystemSample], dest: &mut [u8])
        requires
            samples@.len() == chunk_count_of(old(dest)@.len()),
        ensures
            final(dest)@ == filled(old(self).digests(samples@), old(dest)@.len()),
            *final(self) == *old(self),
    {
        let count: usize = samples.len();
        let mut chunk: usize = 0;
        while chunk < count
            invariant
                chunk <= count,
                count == samples@.len(),
                count == chunk_count_of(old(dest)@.len()),
                dest@.len() == old(dest)@.len(),
                *self == *old(self),
                forall|i: int|
                    0 <= i < dest@.len() && i < 4 * chunk ==> #[trigger] dest@[i] == filled(
                        self.digests(samples@),
                        dest@.len(),
                    )[i],
            decreases count - chunk,
        {
            let digest: u64 = self.hash_value(&samples[chunk]);
            write_chunk(dest, chunk, digest);
            chunk = chunk + 1;
        }
        assert(dest@ =~= filled(self.digests(samples@), dest@.len()));
    }

    /// Fills `dest` exactly as [`SystemRng::fill_bytes`] does. The signature
    /// allows for failure, but no draw can fail: the result is always `Ok`.
    pub fn try_fill_bytes(&mut self, samples: &[SystemSample], dest: &mut [u8]) -> (result: Result<
        (),
        rand::Error,
    >)
        requires
            samples@.len() == chunk_count_of(old(dest)@.len()),
        ensures
            result is Ok,
            final(dest)@ == filled(old(self).digests(samples@), old(dest)@.len()),
            *final(self) == *old(self),
    {
        self.fill_bytes(samples, dest);
        Ok(())
    }
}

} // verus!
