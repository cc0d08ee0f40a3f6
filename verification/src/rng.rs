use vstd::prelude::*;

verus! {

/// One transition of the xorshift64 generator.
pub open spec fn rng_next_spec(s: u64) -> u64 {
    let a = s ^ (s << 13u64);
    let b = a ^ (a >> 7u64);
    b ^ (b << 17u64)
}

/// The fraction in `[0, 1000)` (milli-units) carried by a raw generator word:
/// the low 24 bits, rescaled from `[0, 2^24)` to `[0, 1000)`.
pub open spec fn frac_of(x: u64) -> int {
    ((x & 0xFF_FFFF) as int) * 1000 / 0x100_0000
}

/// A draw from `[lo, hi]` in milli-units: `lo` plus the fraction `f` of the span.
pub open spec fn range_spec(lo: int, hi: int, f: int) -> int {
    lo + f * (hi - lo) / 1000
}

/// The fraction drawn from any generator word lies in `[0, 1000)`.
pub proof fn lemma_frac_of_bounds(x: u64)
    ensures
        0 <= frac_of(x) < 1000,
{
    assert(x & 0xFF_FFFFu64 <= 0xFF_FFFF) by (bit_vector);
    let masked = (x & 0xFF_FFFF) as int;
    vstd::arithmetic::div_mod::lemma_div_pos_is_pos(masked * 1000, 0x100_0000);
    vstd::arithmetic::div_mod::lemma_multiply_divide_lt(masked * 1000, 0x100_0000, 1000);
}

/// Seeded xorshift64 pseudo-random generator. The particle system owns one,
/// never a process-wide generator, so runs are deterministic for a given seed.
#[derive(Clone, Copy, Debug, PartialEq, Eq, Structural)]
pub struct Rng {
    pub state: u64,
}

impl Rng {
    /// A zero seed would make xorshift64 return zero forever, so it is
    /// replaced by a fixed non-zero constant.
    pub fn new(seed: u64) -> (r: Rng)
        ensures
            r.state == if seed == 0 {
                0xDEAD_BEEF_CAFE_BABEu64
            } else {
                seed
            },
    {
        Rng { state: if seed == 0 { 0xDEAD_BEEF_CAFE_BABE } else { seed } }
    }

    pub fn next_u64(&mut self) -> (r: u64)
        ensures
            r == rng_next_spec(old(self).state),
            final(self).state == r,
    {
        let mut x = self.state;
        x = x ^ (x << 13u64);
        x = x ^ (x >> 7u64);
        x = x ^ (x << 17u64);
        self.state = x;
        x
    }

    /// Draw a fraction in `[0, 1000)`.
    pub fn next_frac(&mut self) -> (r: u64)
        ensures
            final(self).state == rng_next_spec(old(self).state),
            r == frac_of(rng_next_spec(old(self).state)),
            r < 1000,
    {
        let x = self.next_u64();
        let masked = x & 0xFF_FFFF;
        proof {
            assert(x & 0xFF_FFFFu64 <= 0xFF_FFFF) by (bit_vector);
        }
        let scaled = masked * 1000;
        scaled / 0x100_0000
    }

    /// Draw a value in `[lo, hi]`, `lo` plus a random fraction of the span.
    pub fn range_milli(&mut self, lo: i64, hi: i64) -> (r: i64)
        requires
            lo <= hi,
            hi - lo <= 0x8000_0000_0000i64,
        ensures
            final(self).state == rng_next_spec(old(self).state),
            r == range_spec(lo as int, hi as int, frac_of(rng_next_spec(old(self).state))),
            lo <= r <= hi,
            lo < hi ==> r < hi,
    {
        let f = self.next_frac();
        let span = (hi - lo) as u64;
        assert(f * span <= 1000 * span) by (nonlinear_arith)
            requires f < 1000, 0 <= span;
        let off = (f * span) / 1000;
        assert(off <= span) by {
            assert(f * span <= 1000 * span) by (nonlinear_arith)
                requires f < 1000, 0 <= span;
        }
        assert(span >= 1 ==> off < span) by {
            assert(f * span <= 999 * span) by (nonlinear_arith)
                requires f <= 999, 0 <= span;
        }
        lo + (off as i64)
    }
}

} // verus!
