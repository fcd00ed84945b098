//! What holds of every draw, proved from the definitions the contracts use.
use crate::adi::AdiRng;
use crate::hasher::Word;
use crate::output::{chunk_count_of, chunk_width, filled, le_bytes, low_word};
use crate::port::{bus_address_of, AdiPort, DEFAULT_EXPANDER_INDEX};
use crate::signal::{adi_words, elapsed_between, reading_words, system_words, AdiSample, SystemSample};
use crate::system::SystemRng;
use vstd::prelude::*;

verus! {

/// A 32-bit draw of a system-metrics generator is the low 32 bits of the
/// 64-bit draw it makes from the same sample.
pub proof fn law_system_u32_is_low_half_of_u64(
    rng: SystemRng,
    sample: SystemSample,
    word32: u32,
    word64: u64,
)
    requires
        word32 == low_word(rng.digest(sample)),
        word64 == rng.digest(sample),
    ensures
        word32 as int == word64 as int % 0x1_0000_0000,
        word32 == word64 & 0xffff_ffff,
{
    assert(word64 & 0xffff_ffff == word64 % 0x1_0000_0000) by (bit_vector);
}

/// A 32-bit draw of a port-sampling generator is the low 32 bits of the
/// 64-bit draw it makes from the same sample.
pub proof fn law_adi_u32_is_low_half_of_u64(
    rng: AdiRng,
    sample: AdiSample,
    word32: u32,
    word64: u64,
)
    requires
        word32 == low_word(rng.digest(sample)),
        word64 == rng.digest(sample),
    ensures
        word32 as int == word64 as int % 0x1_0000_0000,
        word32 == word64 & 0xffff_ffff,
{
    assert(word64 & 0xffff_ffff == word64 % 0x1_0000_0000) by (bit_vector);
}

/// A filled buffer is a run of independent chunk writes: chunk `chunk` holds
/// the leading bytes of the little-endian representation of its own digest.
/// Every chunk but the last is four bytes wide; the last holds what is left
/// of the buffer, which is `len mod 4` bytes where `len` is no multiple of four.
pub proof fn law_fill_is_chunkwise(digests: Seq<u64>, len: nat, chunk: nat)
    requires
        chunk < chunk_count_of(len),
    ensures
        1 <= chunk_width(len, chunk) <= 4,
        4 * chunk + chunk_width(len, chunk) <= len,
        filled(digests, len).subrange(
            (4 * chunk) as int,
            (4 * chunk + chunk_width(len, chunk)) as int,
        ) == le_bytes(digests[chunk as int]).take(chunk_width(len, chunk) as int),
        chunk + 1 < chunk_count_of(len) || len % 4 == 0 ==> chunk_width(len, chunk) == 4,
        chunk + 1 == chunk_count_of(len) && len % 4 != 0 ==> chunk_width(len, chunk) == len % 4,
{
    let width = chunk_width(len, chunk);
    let part = filled(digests, len).subrange((4 * chunk) as int, (4 * chunk + width) as int);
    let lead = le_bytes(digests[chunk as int]).take(width as int);
    assert forall|k: int| 0 <= k < width implies part[k] == lead[k] by {
        assert((4 * chunk + k) / 4 == chunk);
        assert((4 * chunk + k) % 4 == k);
    }
    assert(part =~= lead);
}

/// The time elapsed since construction is part of what a system-metrics
/// draw mixes: two samples that differ in it give the accumulator different
/// input, whatever the other signals are.
///
/// This speaks of the mixed input. A 64-bit digest cannot tell all inputs
/// apart, so nothing is claimed here about the digests.
pub proof fn law_system_mixes_elapsed_time(created: u64, first: SystemSample, second: SystemSample)
    requires
        elapsed_between(created, first.clock_micros) != elapsed_between(
            created,
            second.clock_micros,
        ),
    ensures
        system_words(created, first) != system_words(created, second),
{
    assert(system_words(created, first)[2] == Word::U128(
        elapsed_between(created, first.clock_micros),
    ));
    assert(system_words(created, second)[2] == Word::U128(
        elapsed_between(created, second.clock_micros),
    ));
}

/// The time elapsed since construction is part of what a port-sampling draw
/// mixes: two samples that differ in it give the accumulator different input.
///
/// This speaks of the mixed input, not of the digests.
pub proof fn law_adi_mixes_elapsed_time(
    created: u64,
    first_readings: Seq<i32>,
    first: SystemSample,
    second_readings: Seq<i32>,
    second: SystemSample,
)
    requires
        elapsed_between(created, first.clock_micros) != elapsed_between(
            created,
            second.clock_micros,
        ),
    ensures
        adi_words(created, first_readings, first) != adi_words(created, second_readings, second),
{
    let a = adi_words(created, first_readings, first);
    let b = adi_words(created, second_readings, second);
    if first_readings.len() == second_readings.len() {
        let at = (first_readings.len() + 2) as int;
        assert(a[at] == system_words(created, first)[2]);
        assert(b[at] == system_words(created, second)[2]);
    } else {
        assert(a.len() != b.len());
    }
}

/// Only the elapsed time is mixed, never the clock itself: two generators
/// made at different times draw from the same input when the same time has
/// passed for each and the other signals agree.
pub proof fn law_only_elapsed_time_is_mixed(
    first_created: u64,
    first: SystemSample,
    second_created: u64,
    second: SystemSample,
)
    requires
        first.millivolts == second.millivolts,
        first.milliamps == second.milliamps,
        first.power_on_micros == second.power_on_micros,
        elapsed_between(first_created, first.clock_micros) == elapsed_between(
            second_created,
            second.clock_micros,
        ),
    ensures
        system_words(first_created, first) == system_words(second_created, second),
{
}

/// The order of the port readings is part of what a port-sampling draw
/// mixes: whenever two draws read different sequences of values, as they do
/// when the ports are configured in another order and the reordered values
/// are not all the same, the accumulator is given different input.
///
/// This speaks of the mixed input, not of the digests.
pub proof fn law_adi_mixes_reading_order(
    first_created: u64,
    first_readings: Seq<i32>,
    first: SystemSample,
    second_created: u64,
    second_readings: Seq<i32>,
    second: SystemSample,
)
    requires
        first_readings != second_readings,
    ensures
        adi_words(first_created, first_readings, first) != adi_words(
            second_created,
            second_readings,
            second,
        ),
{
    let a = adi_words(first_created, first_readings, first);
    let b = adi_words(second_created, second_readings, second);
    if first_readings.len() == second_readings.len() {
        if a == b {
            assert forall|i: int| 0 <= i < first_readings.len() implies first_readings[i]
                == second_readings[i] by {
                assert(a[i] == Word::I32(first_readings[i]));
                assert(b[i] == Word::I32(second_readings[i]));
            }
            assert(first_readings =~= second_readings);
        }
    } else {
        assert(a.len() != b.len());
    }
}

/// A port-sampling draw over no ports mixes exactly what a system-metrics
/// draw mixes.
pub proof fn law_adi_without_ports_mixes_system_metrics(created: u64, system: SystemSample)
    ensures
        adi_words(created, Seq::<i32>::empty(), system) == system_words(created, system),
{
    assert(reading_words(Seq::<i32>::empty()) =~= Seq::<Word>::empty());
    assert(adi_words(created, Seq::<i32>::empty(), system) =~= system_words(created, system));
}

/// A port that names no expander is addressed at the default index, 21.
pub proof fn law_default_expander_index(port: AdiPort)
    requires
        port.expander_number is None,
    ensures
        bus_address_of(port).expander_index == DEFAULT_EXPANDER_INDEX,
        bus_address_of(port).expander_index == 21,
{
}

} // verus!
