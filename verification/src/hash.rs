//! A minimal hash accumulator for keys that are already unique integers.
//!
//! The store's keys are per-type identifiers that are unique by
//! construction, so no bit mixing is needed: the hasher simply folds every
//! write into a 64-bit accumulator with wrapping addition and reports the
//! accumulated value unchanged.  A single 64-bit write therefore comes back
//! out exactly as it went in.
use vstd::prelude::*;

verus! {

/// The accumulation step: one value folded into the accumulator with
/// wrapping 64-bit addition.
pub open spec fn accum_step(acc: u64, v: u64) -> u64 {
    vstd::wrapping::u64_specs::wrapping_add(acc, v)
}

/// A whole byte sequence folded into the accumulator, one byte at a time,
/// left to right.
pub open spec fn accum_bytes(acc: u64, s: Seq<u8>) -> u64
    decreases s.len(),
{
    if s.len() == 0 {
        acc
    } else {
        accum_step(accum_bytes(acc, s.drop_last()), s.last() as u64)
    }
}

/// Hash accumulator that does no mixing: it wraps every write into a
/// running 64-bit sum and returns that sum as the hash.
pub struct UniqueHasher {
    result: u64,
}

impl View for UniqueHasher {
    type V = u64;

    closed spec fn view(&self) -> u64 {
        self.result
    }
}

impl UniqueHasher {
    /// Creates a hasher with an empty (zero) accumulator.
    pub fn new() -> (r: Self)
        ensures
            r@ == 0,
    {
        Self { result: 0 }
    }

    /// Folds one 64-bit value into the accumulator.
    pub fn add(&mut self, val: u64)
        ensures
            final(self)@ == accum_step(old(self)@, val),
    {
        self.result = self.result.wrapping_add(val);
    }

    /// Reports the accumulated value unchanged: no mixing, no seeding.
    pub fn finish(&self) -> (r: u64)
        ensures
            r == self@,
    {
        self.result
    }

    /// Folds every byte of `bytes` into the accumulator, left to right.
    pub fn write(&mut self, bytes: &[u8])
        ensures
            final(self)@ == accum_bytes(old(self)@, bytes@),
    {
        let n = bytes.len();
        let mut i: usize = 0;
        while i < n
            invariant
                n == bytes@.len(),
                i <= n,
                self@ == accum_bytes(old(self)@, bytes@.take(i as int)),
            decreases n - i,
        {
            self.add(bytes[i] as u64);
            proof {
                assert(bytes@.take(i + 1).drop_last() =~= bytes@.take(i as int));
                assert(bytes@.take(i + 1).last() == bytes@[i as int]);
            }
            i = i + 1;
        }
        proof {
            assert(bytes@.take(n as int) =~= bytes@);
        }
    }

    /// Folds one byte into the accumulator.
    pub fn write_u8(&mut self, i: u8)
        ensures
            final(self)@ == accum_step(old(self)@, i as u64),
    {
        self.add(i as u64);
    }

    /// Folds one 16-bit value into the accumulator.
    pub fn write_u16(&mut self, i: u16)
        ensures
            final(self)@ == accum_step(old(self)@, i as u64),
    {
        self.add(i as u64);
    }

    /// Folds one 32-bit value into the accumulator.
    pub fn write_u32(&mut self, i: u32)
        ensures
            final(self)@ == accum_step(old(self)@, i as u64),
    {
        self.add(i as u64);
    }

    /// Folds one 64-bit value into the accumulator.
    pub fn write_u64(&mut self, i: u64)
        ensures
            final(self)@ == accum_step(old(self)@, i),
    {
        self.add(i);
    }

    /// Folds one pointer-sized value into the accumulator.
    pub fn write_usize(&mut self, i: usize)
        ensures
            final(self)@ == accum_step(old(self)@, i as u64),
    {
        self.add(i as u64);
    }
}

/// Builder that hands out fresh `UniqueHasher`s with a zero accumulator.
pub struct UniqueHasherBuilder;

impl UniqueHasherBuilder {
    /// Builds a hasher with an empty accumulator.
    pub fn build_hasher(&self) -> (r: UniqueHasher)
        ensures
            r@ == 0,
    {
        UniqueHasher::new()
    }
}

/// Identity law of the hasher: a single value folded into an empty (zero)
/// accumulator comes back out unchanged, so for any 64-bit input `v`, a
/// fresh hasher given one `write_u64(v)` reports `finish() == v`.
pub proof fn lemma_hasher_identity(v: u64)
    ensures
        accum_step(0, v) == v,
{
}

} // verus!
