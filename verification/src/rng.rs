//! Deterministic xorshift64 generator for the handful of rolls a spawner
//! needs. The seed (a clock reading) is supplied by the caller.
use vstd::prelude::*;

verus! {

/// One xorshift64 step (shifts 13, 7, 17).
pub open spec fn xorshift_spec(x: u64) -> u64 {
    let a = x ^ (x << 13u64);
    let b = a ^ (a >> 7u64);
    b ^ (b << 17u64)
}

/// The 24-bit roll drawn from a generator output: the numerator of a
/// uniform value in [0, 1) over 2^24.
pub open spec fn unit_spec(x: u64) -> u32 {
    (x >> 40u64) as u32
}

/// `lo` plus the share `unit / 2^24` of the span from `lo` to `hi`,
/// rounded toward `lo`.
pub open spec fn range_spec(lo: i64, hi: i64, unit: u32) -> int {
    if lo <= hi {
        lo + (unit * (hi - lo)) / 0x100_0000int
    } else {
        lo - (unit * (lo - hi)) / 0x100_0000int
    }
}

/// A 24-bit threshold for a probability: a roll is a success when it is
/// below the threshold.
pub open spec fn chance_spec(unit: u32, threshold: u32) -> bool {
    unit < threshold
}

/// Deterministic xorshift64 generator.
#[derive(Debug)]
pub struct GameRng(u64);

impl View for GameRng {
    type V = u64;

    closed spec fn view(&self) -> u64 {
        self.0
    }
}

/// Each xorshift step maps a non-zero state to a non-zero state.
proof fn lemma_xorshift_nonzero(x: u64)
    requires
        x != 0,
    ensures
        xorshift_spec(x) != 0,
{
    let a = x ^ (x << 13u64);
    let b = a ^ (a >> 7u64);
    assert(x != 0 ==> x ^ (x << 13u64) != 0) by (bit_vector);
    assert(a != 0 ==> a ^ (a >> 7u64) != 0) by (bit_vector);
    assert(b != 0 ==> b ^ (b << 17u64) != 0) by (bit_vector);
}

impl GameRng {
    /// A generator seeded with `seed` (forced odd, so never zero).
    pub fn from_seed(seed: u64) -> (r: GameRng)
        ensures
            r@ == seed | 1u64,
            r@ != 0,
    {
        assert((seed | 1u64) != 0) by (bit_vector);
        GameRng(seed | 1)
    }

    /// The current state.
    pub fn state(&self) -> (r: u64)
        ensures
            r == self@,
    {
        self.0
    }

    /// Advance one xorshift step and return the new state.
    pub fn next(&mut self) -> (r: u64)
        ensures
            r == xorshift_spec(old(self)@),
            final(self)@ == r,
            old(self)@ != 0 ==> r != 0,
    {
        let mut x = self.0;
        x = x ^ (x << 13);
        x = x ^ (x >> 7);
        x = x ^ (x << 17);
        proof {
            if old(self)@ != 0 {
                lemma_xorshift_nonzero(old(self)@);
            }
        }
        self.0 = x;
        x
    }

    /// A uniform 24-bit roll: the numerator of a value in [0, 1) over 2^24.
    pub fn unit(&mut self) -> (r: u32)
        ensures
            r == unit_spec(xorshift_spec(old(self)@)),
            r < 0x100_0000,
            final(self)@ == xorshift_spec(old(self)@),
    {
        let x = self.next();
        assert((x >> 40u64) < 0x100_0000u64) by (bit_vector);
        (x >> 40) as u32
    }

    /// A value from `lo` toward `hi`: `lo + (hi - lo) * unit / 2^24`,
    /// rounded toward `lo`. Within `[lo, hi)` when `lo < hi`.
    pub fn range(&mut self, lo: i64, hi: i64) -> (r: i64)
        ensures
            r == range_spec(lo, hi, unit_spec(xorshift_spec(old(self)@))),
            lo < hi ==> lo <= r < hi,
            hi <= lo ==> hi <= r <= lo,
            final(self)@ == xorshift_spec(old(self)@),
    {
        let u = self.unit();
        if lo <= hi {
            let span: i128 = hi as i128 - lo as i128;
            assert(0 <= u * span / 0x100_0000int <= span) by (nonlinear_arith)
                requires
                    0 <= u < 0x100_0000,
                    0 <= span,
            ;
            assert(lo < hi ==> u * span / 0x100_0000int < span) by (nonlinear_arith)
                requires
                    0 <= u < 0x100_0000,
                    span == hi - lo,
            ;
            let off: i128 = (u as i128) * span / 0x100_0000i128;
            (lo as i128 + off) as i64
        } else {
            let span: i128 = lo as i128 - hi as i128;
            assert(0 <= u * span / 0x100_0000int <= span) by (nonlinear_arith)
                requires
                    0 <= u < 0x100_0000,
                    0 <= span,
            ;
            let off: i128 = (u as i128) * span / 0x100_0000i128;
            (lo as i128 - off) as i64
        }
    }

    /// A lane index in {-1, 0, 1}.
    pub fn lane(&mut self) -> (r: i8)
        ensures
            r == (xorshift_spec(old(self)@) % 3) as int - 1,
            -1 <= r <= 1,
            final(self)@ == xorshift_spec(old(self)@),
    {
        let x = self.next();
        ((x % 3) as i8) - 1
    }

    /// A roll that succeeds with probability `threshold / 2^24`.
    pub fn chance(&mut self, threshold: u32) -> (r: bool)
        ensures
            r == chance_spec(unit_spec(xorshift_spec(old(self)@)), threshold),
            final(self)@ == xorshift_spec(old(self)@),
    {
        let u = self.unit();
        u < threshold
    }
}

/// The generator never gets stuck: a non-zero state stays non-zero
/// forever, and seeding always gives a non-zero state.
pub proof fn lemma_generator_never_sticks(x: u64, seed: u64)
    ensures
        x != 0 ==> xorshift_spec(x) != 0,
        (seed | 1u64) != 0,
{
    if x != 0 {
        lemma_xorshift_nonzero(x);
    }
    assert((seed | 1u64) != 0) by (bit_vector);
}

/// A draw between two bounds starts at the lower one for the lowest roll,
/// grows with the roll, and stays below the upper one: within `[lo, hi)`
/// and never more than one 2^24th of the span short of `hi` at the highest
/// roll.
pub proof fn lemma_range_spans_the_interval(lo: i64, hi: i64, u1: u32, u2: u32)
    requires
        lo < hi,
        u1 <= u2 < 0x100_0000,
    ensures
        range_spec(lo, hi, 0) == lo,
        range_spec(lo, hi, u1) <= range_spec(lo, hi, u2),
        lo <= range_spec(lo, hi, u1) < hi,
        hi - range_spec(lo, hi, 0xff_ffff) <= (hi - lo) / 0x100_0000int + 1,
{
    let span = hi - lo;
    assert(0 <= u1 * span / 0x100_0000int <= u2 * span / 0x100_0000int) by (nonlinear_arith)
        requires
            0 <= u1 <= u2,
            span > 0,
    ;
    assert(u1 * span / 0x100_0000int < span) by (nonlinear_arith)
        requires
            0 <= u1 < 0x100_0000,
            span > 0,
    ;
    assert(span - 0xff_ffff * span / 0x100_0000int <= span / 0x100_0000int + 1) by (nonlinear_arith)
        requires
            span > 0,
    ;
}

} // verus!
