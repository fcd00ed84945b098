//! Turning 64-bit digests into the values a consumer asks for.
//!
//! A 32-bit draw keeps the low half of one digest. A byte buffer is cut into
//! four-byte chunks, and every chunk receives the leading little-endian bytes
//! of a digest of its own.
use vstd::prelude::*;

verus! {

/// Number of bytes that one digest contributes to a filled buffer.
pub const CHUNK_BYTES: usize = 4;

/// `rand::Error`, the error of the fallible fill. No draw ever makes one.
#[verifier::external_type_specification]
#[verifier::external_body]
pub struct ExRandError(rand::Error);

/// The low 32 bits of a digest.
pub open spec fn low_word(digest: u64) -> u32 {
    (digest % 0x1_0000_0000) as u32
}

/// `256` raised to the power `k`, the weight of byte `k` in a little-endian number.
pub open spec fn byte_weight(k: int) -> int
    decreases k,
{
    if k <= 0 {
        1
    } else {
        256 * byte_weight(k - 1)
    }
}

/// Byte `k` of the little-endian representation of a digest.
pub open spec fn le_byte(digest: u64, k: int) -> u8 {
    ((digest as int / byte_weight(k)) % 256) as u8
}

/// The little-endian representation of a digest: eight bytes, lowest first.
pub open spec fn le_bytes(digest: u64) -> Seq<u8> {
    Seq::new(8, |k: int| le_byte(digest, k))
}

/// How many bytes chunk number `chunk` of a buffer of `len` bytes holds:
/// four, or what is left of the buffer where that is less.
pub open spec fn chunk_width(len: nat, chunk: nat) -> nat {
    if 4 * chunk + 4 <= len {
        4
    } else if 4 * chunk <= len {
        (len - 4 * chunk) as nat
    } else {
        0
    }
}

/// How many chunks a buffer of `len` bytes is cut into; the last may be short.
pub open spec fn chunk_count_of(len: nat) -> nat {
    (len + 3) / 4
}

/// The contents of a buffer of `len` bytes after it was filled from `digests`,
/// one digest per chunk: byte `i` is byte `i mod 4` of digest `i div 4`.
pub open spec fn filled(digests: Seq<u64>, len: nat) -> Seq<u8> {
    Seq::new(len, |i: int| le_byte(digests[i / 4], i % 4))
}

/// Keeps the low 32 bits of a digest.
pub fn truncate_digest(digest: u64) -> (word: u32)
    ensures
        word == low_word(digest),
{
    assert(digest as u32 == (digest % 0x1_0000_0000) as u32) by (bit_vector);
    #[verifier::truncate]
    let word: u32 = digest as u32;
    word
}

/// Number of digests needed to fill a buffer of `len` bytes.
pub fn chunk_count(len: usize) -> (count: usize)
    ensures
        count == chunk_count_of(len as nat),
{
    if len % CHUNK_BYTES == 0 {
        len / CHUNK_BYTES
    } else {
        len / CHUNK_BYTES + 1
    }
}

/// The four leading little-endian bytes of a digest, as the shifts compute them.
proof fn lemma_leading_bytes(digest: u64)
    ensures
        (digest & 0xff) as u8 == le_byte(digest, 0),
        ((digest >> 8) & 0xff) as u8 == le_byte(digest, 1),
        ((digest >> 16) & 0xff) as u8 == le_byte(digest, 2),
        ((digest >> 24) & 0xff) as u8 == le_byte(digest, 3),
{
    reveal_with_fuel(byte_weight, 5);
    assert(digest & 0xff == digest % 256) by (bit_vector);
    assert((digest >> 8) & 0xff == (digest / 256) % 256) by (bit_vector);
    assert((digest >> 16) & 0xff == (digest / 65536) % 256) by (bit_vector);
    assert((digest >> 24) & 0xff == (digest / 16777216) % 256) by (bit_vector);
}

/// Byte `k` of a digest, for one of the four leading positions.
fn leading_byte(digest: u64, k: usize) -> (byte: u8)
    requires
        k < CHUNK_BYTES,
    ensures
        byte == le_byte(digest, k as int),
{
    proof {
        lemma_leading_bytes(digest);
    }
    let shifted: u64 = if k == 0 {
        digest
    } else if k == 1 {
        digest >> 8
    } else if k == 2 {
        digest >> 16
    } else {
        digest >> 24
    };
    let masked: u64 = shifted & 0xff;
    assert(masked < 256) by (bit_vector)
        requires
            masked == shifted & 0xff,
    ;
    masked as u8
}

/// Writes chunk number `chunk` of `dest` from one digest.
///
/// The chunk covers bytes `4 * chunk` up to `4 * chunk + 4`, cut off at the
/// end of the buffer. Those bytes receive the leading little-endian bytes of
/// `digest`; every other byte of `dest` keeps its value.
pub fn write_chunk(dest: &mut [u8], chunk: usize, digest: u64)
    requires
        chunk < chunk_count_of(old(dest)@.len()),
    ensures
        final(dest)@.len() == old(dest)@.len(),
        forall|i: int|
            0 <= i < old(dest)@.len() ==> #[trigger] final(dest)@[i] == if 4 * chunk <= i < 4
                * chunk + 4 {
                le_byte(digest, i - 4 * chunk)
            } else {
                old(dest)@[i]
            },
{
    let len: usize = dest.len();
    let start: usize = chunk * CHUNK_BYTES;
    let room: usize = len - start;
    let width: usize = if room < CHUNK_BYTES {
        room
    } else {
        CHUNK_BYTES
    };
    let mut k: usize = 0;
    while k < width
        invariant
            k <= width <= CHUNK_BYTES,
            start == 4 * chunk,
            start + width <= len,
            len == old(dest)@.len(),
            dest@.len() == len,
            width == CHUNK_BYTES || start + width == len,
            forall|i: int|
                0 <= i < len ==> #[trigger] dest@[i] == if start <= i < start + k {
                    le_byte(digest, i - start)
                } else {
                    old(dest)@[i]
                },
        decreases width - k,
    {
        let byte: u8 = leading_byte(digest, k);
        dest[start + k] = byte;
        k = k + 1;
    }
}

} // verus!
