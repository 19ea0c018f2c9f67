//! The sources of randomness. [`fill_random`], [`fresh_seed`] and
//! [`seed_from`] are proved here; every other item states what the library
//! takes for granted of a generator that others wrote. None of them panics.

use vstd::prelude::*;
use rand::RngCore;
use crate::util::is_alnum_char;

verus! {

/// The generator of `fastrand`. Its state is hidden.
#[verifier::external_type_specification]
#[verifier::external_body]
pub struct ExRng(fastrand::Rng);

/// `fastrand::Rng::new` hands out a generator forked from the one of the
/// current thread. Nothing is claimed of its state.
pub assume_specification[ fastrand::Rng::new ]() -> (rng: fastrand::Rng);

/// `fastrand::Rng::seed` replaces the state of the generator. Nothing is
/// claimed of the state.
pub assume_specification[ fastrand::Rng::seed ](rng: &mut fastrand::Rng, seed: u64);

/// `fastrand::Rng::alphanumeric` picks one of the ASCII digits and letters.
/// Which one is not claimed.
pub assume_specification[ fastrand::Rng::alphanumeric ](rng: &mut fastrand::Rng) -> (c: char)
    ensures
        is_alnum_char(c),
;

/// Overwrites every byte of `dest` with a random one from the operating
/// system, and tells whether the system gave the bytes.
///
/// Wraps `try_fill_bytes` of `rand::rngs::OsRng`, which hands the slice to the
/// system and answers with an error where the system gives no bytes. The
/// slice is written in place, so its length stays. Which bytes are written,
/// and what the slice holds after a failure, is not claimed.
#[verifier::external_body]
fn try_fill_bytes(dest: &mut Vec<u8>) -> (filled: bool)
    ensures
        final(dest)@.len() == old(dest)@.len(),
{
    rand::rngs::OsRng.try_fill_bytes(&mut dest[..]).is_ok()
}

/// Overwrites every byte of `bytes` with a random one from the operating
/// system, and tells whether that worked. Of no bytes nothing is asked, and
/// that works.
pub fn fill_random(bytes: &mut Vec<u8>) -> (filled: bool)
    ensures
        final(bytes)@.len() == old(bytes)@.len(),
        old(bytes)@.len() == 0 ==> filled && final(bytes)@ == old(bytes)@,
{
    if bytes.len() == 0 {
        return true;
    }
    try_fill_bytes(bytes)
}

/// A seed that [`seed_from`] makes of eight bytes from the operating system,
/// if the system gives them.
pub fn fresh_seed() -> (seed: Option<u64>) {
    let mut bytes: Vec<u8> = Vec::new();
    let mut i: usize = 0;
    while i < 8
        invariant
            i <= 8,
            bytes@.len() == i,
        decreases 8 - i,
    {
        bytes.push(0);
        i += 1;
    }
    if fill_random(&mut bytes) {
        Some(seed_from(bytes.as_slice()))
    } else {
        None
    }
}

/// The number that bytes stand for as a seed: each byte in turn becomes the
/// lowest byte of the number and moves the bytes before it up by one place.
/// Of more than eight bytes, the last eight count.
pub open spec fn seed_of(bytes: Seq<u8>) -> u64
    decreases bytes.len(),
{
    if bytes.len() == 0 {
        0
    } else {
        ((seed_of(bytes.drop_last()) % 0x0100_0000_0000_0000) * 256 + bytes.last()) as u64
    }
}

/// Makes a seed of bytes.
pub fn seed_from(bytes: &[u8]) -> (seed: u64)
    ensures
        seed == seed_of(bytes@),
{
    let mut seed: u64 = 0;
    let mut i: usize = 0;
    while i < bytes.len()
        invariant
            i <= bytes.len(),
            seed == seed_of(bytes@.subrange(0, i as int)),
        decreases bytes.len() - i,
    {
        assert(bytes@.subrange(0, i + 1).drop_last() == bytes@.subrange(0, i as int));
        seed = (seed % 0x0100_0000_0000_0000) * 256 + bytes[i] as u64;
        i += 1;
    }
    assert(bytes@.subrange(0, bytes.len() as int) == bytes@);
    seed
}

} // verus!
