//! The generator that also mixes the raw values of floating three-wire ports.
use crate::hasher::digest_of;
use crate::mixer::mix_adi;
use crate::output::{chunk_count_of, filled, low_word, truncate_digest, write_chunk};
use crate::port::{bus_address_of, AdiPort, BusAddress};
use crate::signal::{adi_words, AdiSample};
use vstd::prelude::*;

verus! {

/// A generator that mixes the raw values of unconnected three-wire ports
/// into every draw, besides the system metrics.
///
/// The ports must be connected to nothing: a driven port reads the same value
/// again and again and makes the draws predictable. The generator borrows the
/// list of ports; it neither owns nor reads them.
#[derive(Debug, Eq, PartialEq)]
pub struct AdiRng<'a> {
    ports: &'a [AdiPort],
    time_of_creation: u64,
}

impl<'a> AdiRng<'a> {
    /// The configured ports, in the order of configuration.
    pub closed spec fn ports(&self) -> Seq<AdiPort> {
        self.ports@
    }

    /// The monotonic clock reading, in microseconds, at which the generator was made.
    pub closed spec fn created_at(&self) -> u64 {
        self.time_of_creation
    }

    /// Whether a sample holds exactly one reading per configured port.
    pub open spec fn accepts(&self, sample: AdiSample) -> bool {
        sample.readings@.len() == self.ports().len()
    }

    /// The digest this generator draws from one sample.
    pub open spec fn digest(&self, sample: AdiSample) -> u64 {
        digest_of(adi_words(self.created_at(), sample.readings@, sample.system))
    }

    /// The digests drawn from a run of samples, one each.
    pub open spec fn digests(&self, samples: Seq<AdiSample>) -> Seq<u64> {
        Seq::new(samples.len(), |i: int| self.digest(samples[i]))
    }

    /// Makes a generator over the given ports at the given reading of the
    /// monotonic clock. More ports give each draw more to mix.
    pub fn new(ports: &'a [AdiPort], now_micros: u64) -> (rng: AdiRng<'a>)
        ensures
            rng.ports() == ports@,
            rng.created_at() == now_micros,
    {
        AdiRng { ports, time_of_creation: now_micros }
    }

    /// Where to read the raw values for one sample: the bus address of each
    /// configured port, in the order of configuration.
    pub fn bus_addresses(&self) -> (addresses: Vec<BusAddress>)
        ensures
            addresses@.len() == self.ports().len(),
            forall|i: int|
                0 <= i < self.ports().len() ==> #[trigger] addresses@[i] == bus_address_of(
                    self.ports()[i],
                ),
    {
        let mut addresses: Vec<BusAddress> = Vec::new();
        let mut i: usize = 0;
        while i < self.ports.len()
            invariant
                i <= self.ports@.len(),
                addresses@.len() == i,
                forall|j: int|
                    0 <= j < i ==> #[trigger] addresses@[j] == bus_address_of(self.ports@[j]),
            decreases self.ports@.len() - i,
        {
            addresses.push(self.ports[i].bus_address());
            i = i + 1;
        }
        addresses
    }

    /// Mixes one sample into a digest, with an accumulator of its own: the
    /// port readings in the order of configuration, then the system metrics.
    pub fn hash_value(&self, sample: &AdiSample) -> (digest: u64)
        requires
            self.accepts(*sample),
        ensures
            digest == self.digest(*sample),
    {
        mix_adi(self.time_of_creation, sample.readings.as_slice(), &sample.system)
    }

    /// Draws 32 bits: the low half of the digest of `sample`.
    pub fn next_u32(&mut self, sample: &AdiSample) -> (word: u32)
        requires
            old(self).accepts(*sample),
        ensures
            word == low_word(old(self).digest(*sample)),
            *final(self) == *old(self),
    {
        truncate_digest(self.hash_value(sample))
    }

    /// Draws 64 bits: the digest of `sample`.
    pub fn next_u64(&mut self, sample: &AdiSample) -> (word: u64)
        requires
            old(self).accepts(*sample),
        ensures
            word == old(self).digest(*sample),
            *final(self) == *old(self),
    {
        self.hash_value(sample)
    }

    /// Fills `dest` in chunks of four bytes, the last one possibly shorter.
    ///
    /// Chunk `i` receives the leading little-endian bytes of the digest of
    /// `samples[i]`, so every chunk is a draw of its own.
    pub fn fill_bytes(&mut self, samples: &[AdiSample], dest: &mut [u8])
        requires
            samples@.len() == chunk_count_of(old(dest)@.len()),
            forall|i: int| 0 <= i < samples@.len() ==> old(self).accepts(#[trigger] samples@[i]),
        ensures
            final(dest)@ == filled(old(self).digests(samples@), old(dest)@.len()),
            *final(self) == *old(self),
    {
        let count: usize = samples.len();
        let mut chunk: usize = 0;
        while chunk < count
            invariant
                chunk <= count,
                count == samples@.len(),
                count == chunk_count_of(old(dest)@.len()),
                dest@.len() == old(dest)@.len(),
                *self == *old(self),
                forall|i: int| 0 <= i < samples@.len() ==> self.accepts(#[trigger] samples@[i]),
                forall|i: int|
                    0 <= i < dest@.len() && i < 4 * chunk ==> #[trigger] dest@[i] == filled(
                        self.digests(samples@),
                        dest@.len(),
                    )[i],
            decreases count - chunk,
        {
            let digest: u64 = self.hash_value(&samples[chunk]);
            write_chunk(dest, chunk, digest);
            chunk = chunk + 1;
        }
        assert(dest@ =~= filled(self.digests(samples@), dest@.len()));
    }

    /// Fills `dest` exactly as [`AdiRng::fill_bytes`] does. The signature
    /// allows for failure, but no draw can fail: the result is always `Ok`.
    pub fn try_fill_bytes(&mut self, samples: &[AdiSample], dest: &mut [u8]) -> (result: Result<
        (),
        rand::Error,
    >)
        requires
            samples@.len() == chunk_count_of(old(dest)@.len()),
            forall|i: int| 0 <= i < samples@.len() ==> old(self).accepts(#[trigger] samples@[i]),
        ensures
            result is Ok,
            final(dest)@ == filled(old(self).digests(samples@), old(dest)@.len()),
            *final(self) == *old(self),
    {
        self.fill_bytes(samples, dest);
        Ok(())
    }
}

} // verus!
