//! The keyed hash accumulator that compresses sampled signals.
//!
//! The accumulator is `ahash::AHasher` built with its fixed keys. Verus cannot
//! look inside it, so this module describes it by the sequence of words it has
//! absorbed since it was made, and by the digest that such a sequence yields.
//! Everything stated here about the accumulator is taken on trust from the
//! `ahash` crate; the order in which the library feeds it is verified elsewhere.
use ahash::AHasher;
use core::hash::Hasher;
use vstd::prelude::*;

verus! {

/// One integer handed to the accumulator, tagged with the width it was written at.
#[derive(Clone, Copy, Debug, PartialEq, Eq, Structural)]
pub enum Word {
    /// A signed 32-bit word.
    I32(i32),
    /// An unsigned 32-bit word.
    U32(u32),
    /// An unsigned 64-bit word.
    U64(u64),
    /// An unsigned 128-bit word.
    U128(u128),
}

/// `ahash::AHasher`, carried through verified code as an opaque value.
#[verifier::external_type_specification]
#[verifier::external_body]
pub struct ExAHasher(AHasher);

/// The words an accumulator has absorbed since it was made, oldest first.
pub uninterp spec fn absorbed(hasher: AHasher) -> Seq<Word>;

/// The 64-bit digest that a fixed-key accumulator yields after absorbing `words`.
///
/// The value is whatever the linked build of `ahash` computes; nothing is
/// claimed about it beyond its being determined by the absorbed words.
pub uninterp spec fn digest_of(words: Seq<Word>) -> u64;

/// Makes a fresh accumulator through `<AHasher as Default>::default`.
///
/// Trusted: with the crate's random-key features switched off, `default`
/// builds every accumulator from the same hard-coded keys, so a fresh one is
/// described by having absorbed nothing.
#[verifier::external_body]
pub(crate) fn fresh_hasher() -> (hasher: AHasher)
    ensures
        absorbed(hasher) == Seq::<Word>::empty(),
{
    AHasher::default()
}

/// Feeds a signed 32-bit word through `Hasher::write_i32`.
///
/// Trusted: the call appends exactly this word to what was absorbed.
#[verifier::external_body]
pub(crate) fn absorb_i32(hasher: &mut AHasher, value: i32)
    ensures
        absorbed(*final(hasher)) == absorbed(*old(hasher)).push(Word::I32(value)),
{
    hasher.write_i32(value);
}

/// Feeds an unsigned 32-bit word through `Hasher::write_u32`.
///
/// Trusted: the call appends exactly this word to what was absorbed.
#[verifier::external_body]
pub(crate) fn absorb_u32(hasher: &mut AHasher, value: u32)
    ensures
        absorbed(*final(hasher)) == absorbed(*old(hasher)).push(Word::U32(value)),
{
    hasher.write_u32(value);
}

/// Feeds an unsigned 64-bit word through `Hasher::write_u64`.
///
/// Trusted: the call appends exactly this word to what was absorbed.
#[verifier::external_body]
pub(crate) fn absorb_u64(hasher: &mut AHasher, value: u64)
    ensures
        absorbed(*final(hasher)) == absorbed(*old(hasher)).push(Word::U64(value)),
{
    hasher.write_u64(value);
}

/// Feeds an unsigned 128-bit word through `Hasher::write_u128`.
///
/// Trusted: the call appends exactly this word to what was absorbed.
#[verifier::external_body]
pub(crate) fn absorb_u128(hasher: &mut AHasher, value: u128)
    ensures
        absorbed(*final(hasher)) == absorbed(*old(hasher)).push(Word::U128(value)),
{
    hasher.write_u128(value);
}

/// Reads the digest through `Hasher::finish`.
///
/// Trusted: `finish` does not change the accumulator and returns a value
/// that depends only on the fixed keys and on the words absorbed so far.
#[verifier::external_body]
pub(crate) fn finish(hasher: &AHasher) -> (digest: u64)
    ensures
        digest == digest_of(absorbed(*hasher)),
{
    hasher.finish()
}

} // verus!
