use ahash::AHasher;
use std::hash::Hasher;
use veranda::{SystemRng, SystemSample};

fn expected_digest(millivolts: u32, milliamps: u32, elapsed: u128, power_on: u64) -> u64 {
    let mut hasher = AHasher::default();
    hasher.write_u32(millivolts);
    hasher.write_u32(milliamps);
    hasher.write_u128(elapsed);
    hasher.write_u64(power_on);
    hasher.finish()
}

fn sample_at(clock_micros: u64) -> SystemSample {
    SystemSample { millivolts: 12_815, milliamps: 1_430, clock_micros, power_on_micros: 98_765_432 }
}

#[test]
fn next_u64_is_the_digest_of_the_signals_in_mixing_order() {
    let mut rng = SystemRng::new(1_000);
    let first = rng.next_u64(&sample_at(1_250));
    assert_eq!(first, expected_digest(12_815, 1_430, 250, 98_765_432));

    let second = rng.next_u64(&sample_at(1_251));
    assert_eq!(second, expected_digest(12_815, 1_430, 251, 98_765_432));
    assert_ne!(first, second);
}

#[test]
fn next_u64_is_not_the_digest_of_another_order() {
    let mut rng = SystemRng::new(0);
    let sample = SystemSample { millivolts: 1, milliamps: 2, clock_micros: 3, power_on_micros: 4 };
    let mut swapped = AHasher::default();
    swapped.write_u32(2);
    swapped.write_u32(1);
    swapped.write_u128(3);
    swapped.write_u64(4);
    assert_eq!(rng.next_u64(&sample), expected_digest(1, 2, 3, 4));
    assert_ne!(rng.next_u64(&sample), swapped.finish());
}

#[test]
fn every_signal_reaches_the_digest() {
    let rng = SystemRng::new(10);
    let base = SystemSample { millivolts: 5, milliamps: 6, clock_micros: 17, power_on_micros: 8 };
    let digest = rng.hash_value(&base);
    assert_eq!(digest, expected_digest(5, 6, 7, 8));
    assert_ne!(digest, rng.hash_value(&SystemSample { millivolts: 0, ..base }));
    assert_ne!(digest, rng.hash_value(&SystemSample { milliamps: 0, ..base }));
    assert_ne!(digest, rng.hash_value(&SystemSample { clock_micros: 10, ..base }));
    assert_ne!(digest, rng.hash_value(&SystemSample { power_on_micros: 0, ..base }));
}

#[test]
fn next_u32_is_the_low_half_of_next_u64() {
    let mut rng = SystemRng::new(77);
    for clock in [77u64, 78, 1_000, 123_456_789, u64::MAX] {
        let sample = sample_at(clock);
        let wide = rng.next_u64(&sample);
        let narrow = rng.next_u32(&sample);
        assert_eq!(narrow, (wide & 0xffff_ffff) as u32);
        assert_eq!(u64::from(narrow), wide % 0x1_0000_0000);
    }
}

#[test]
fn draws_from_equal_samples_are_equal() {
    let mut rng = SystemRng::new(5);
    let sample = sample_at(9);
    assert_eq!(rng.next_u64(&sample), rng.next_u64(&sample));
    assert_eq!(rng.next_u32(&sample), rng.next_u32(&sample));
}

#[test]
fn a_draw_leaves_the_generator_as_it_was() {
    let mut rng = SystemRng::new(42);
    let before = rng;
    let _ = rng.next_u64(&sample_at(50));
    let _ = rng.next_u32(&sample_at(60));
    let mut buffer = [0u8; 6];
    rng.fill_bytes(&[sample_at(70), sample_at(80)], &mut buffer);
    assert_eq!(rng, before);
    assert_eq!(rng, SystemRng::new(42));
}

#[test]
fn elapsed_time_changes_the_digest() {
    let mut rng = SystemRng::new(1_000_000);
    let earlier = rng.next_u64(&sample_at(1_000_500));
    let later = rng.next_u64(&sample_at(1_000_501));
    assert_ne!(earlier, later);
}

#[test]
fn only_the_elapsed_time_is_mixed() {
    let mut early = SystemRng::new(100);
    let mut late = SystemRng::new(5_000);
    assert_eq!(early.next_u64(&sample_at(130)), late.next_u64(&sample_at(5_030)));
    assert_ne!(early.next_u64(&sample_at(130)), late.next_u64(&sample_at(130)));
}

#[test]
fn a_clock_behind_the_creation_time_counts_as_no_time_elapsed() {
    let mut rng = SystemRng::new(2_000);
    assert_eq!(rng.next_u64(&sample_at(1_999)), expected_digest(12_815, 1_430, 0, 98_765_432));
    assert_eq!(rng.next_u64(&sample_at(2_000)), expected_digest(12_815, 1_430, 0, 98_765_432));
    assert_eq!(rng.next_u64(&sample_at(2_001)), expected_digest(12_815, 1_430, 1, 98_765_432));
}

#[test]
fn the_longest_elapsed_time_is_mixed_in_full() {
    let mut rng = SystemRng::new(0);
    let sample = SystemSample {
        millivolts: u32::MAX,
        milliamps: u32::MAX,
        clock_micros: u64::MAX,
        power_on_micros: u64::MAX,
    };
    assert_eq!(
        rng.next_u64(&sample),
        expected_digest(u32::MAX, u32::MAX, u128::from(u64::MAX), u64::MAX)
    );
}

#[test]
fn fill_bytes_writes_one_digest_per_four_bytes() {
    let mut rng = SystemRng::new(10);
    let samples = [sample_at(11), sample_at(12), sample_at(13)];
    let mut buffer = [0xAAu8; 12];
    rng.fill_bytes(&samples, &mut buffer);
    for (index, sample) in samples.iter().enumerate() {
        let digest = rng.next_u64(sample);
        assert_eq!(&buffer[4 * index..4 * index + 4], &digest.to_le_bytes()[..4]);
        assert_eq!(&buffer[4 * index..4 * index + 4], &rng.next_u32(sample).to_le_bytes()[..]);
    }
}

#[test]
fn fill_bytes_ends_with_a_short_chunk() {
    let mut rng = SystemRng::new(10);
    let samples = [sample_at(20), sample_at(30)];
    for len in 5..8usize {
        let mut buffer = vec![0x55u8; len];
        rng.fill_bytes(&samples, &mut buffer);
        let first = rng.next_u64(&samples[0]).to_le_bytes();
        let last = rng.next_u64(&samples[1]).to_le_bytes();
        assert_eq!(&buffer[..4], &first[..4]);
        assert_eq!(&buffer[4..], &last[..len - 4]);
    }
}

#[test]
fn fill_bytes_handles_buffers_shorter_than_one_chunk() {
    let mut rng = SystemRng::new(3);
    let sample = sample_at(4);
    let bytes = rng.next_u64(&sample).to_le_bytes();
    for len in 1..4usize {
        let mut buffer = vec![0u8; len];
        rng.fill_bytes(&[sample], &mut buffer);
        assert_eq!(&buffer[..], &bytes[..len]);
    }
}

#[test]
fn fill_bytes_leaves_an_empty_buffer_alone() {
    let mut rng = SystemRng::new(3);
    let mut buffer: [u8; 0] = [];
    rng.fill_bytes(&[], &mut buffer);
    assert_eq!(buffer.len(), 0);
}

#[test]
fn fill_bytes_draws_each_chunk_afresh() {
    let mut rng = SystemRng::new(0);
    let mut buffer = [0u8; 8];
    rng.fill_bytes(&[sample_at(1), sample_at(2)], &mut buffer);
    assert_ne!(&buffer[..4], &buffer[4..]);

    let digest = rng.next_u64(&sample_at(1)).to_le_bytes();
    assert_ne!(&buffer[4..], &digest[4..]);
}

#[test]
fn try_fill_bytes_succeeds_and_fills_like_fill_bytes() {
    let mut rng = SystemRng::new(9);
    let samples = [sample_at(100), sample_at(200), sample_at(300)];
    let mut plain = [0u8; 10];
    let mut fallible = [0u8; 10];
    rng.fill_bytes(&samples, &mut plain);
    let result = rng.try_fill_bytes(&samples, &mut fallible);
    assert!(result.is_ok());
    assert_eq!(plain, fallible);
}
