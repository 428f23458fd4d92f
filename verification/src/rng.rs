//! Deterministic per-tile randomness.
//!
//! A generator is a pure function of its 64-bit state (a xorshift step), so
//! the same per-tile seed always reproduces the identical draw sequence on
//! every platform: decoration geometry is bit-for-bit reproducible.  A fresh
//! generator is constructed per tile; none is ever shared across tiles.

use crate::fx::Fx;
use vstd::prelude::*;

verus! {

/// One xorshift step of the 64-bit state.
pub open spec fn spec_rng_next(s: u64) -> u64 {
    let a = s ^ (s << 13);
    let b = a ^ (a >> 7);
    b ^ (b << 17)
}

/// The state a seed starts from; the all-zero state (the one fixed point of
/// the step) is replaced by a golden-ratio constant.
pub open spec fn spec_seed_state(seed: u64) -> u64 {
    if seed == 0 {
        0x9E3779B97F4A7C15
    } else {
        seed
    }
}

/// First set bit of a draw at position `i` or above; 64 when none is set.
pub open spec fn spec_tz_from(x: u64, i: int) -> int
    decreases 64 - i,
{
    if i < 0 || i >= 64 {
        64
    } else if (x >> (i as u64)) & 1 == 1 {
        i
    } else {
        spec_tz_from(x, i + 1)
    }
}

/// Trailing zero bits of a draw; a geometric variable with success chance
/// one half.
pub open spec fn spec_trailing_zeros(x: u64) -> int {
    spec_tz_from(x, 0)
}

/// A uniform fixed-point draw in `[lo, hi)`: the drawn raw value and the
/// state after the draw.
pub open spec fn spec_fx_draw(s: u64, lo: int, hi: int) -> (int, u64) {
    (lo + spec_rng_next(s) % ((hi - lo) as u64), spec_rng_next(s))
}

/// A bounded mode-weighted draw in `[lo, hi]`: the average of two uniform
/// draws and twice the mode, and the state after both draws.
pub open spec fn spec_shaped(s: u64, lo: int, mode: int, hi: int) -> (int, u64) {
    let d = (hi - lo) as u64;
    (
        (2 * lo + spec_rng_next(s) % d + spec_rng_next(spec_rng_next(s)) % d + 2 * mode) / 4,
        spec_rng_next(spec_rng_next(s)),
    )
}

#[derive(Clone, Copy, PartialEq, Eq, Structural, Debug)]
pub struct TileRng {
    pub state: u64,
}

impl TileRng {
    pub fn seed_from_u64(seed: u64) -> (r: TileRng)
        ensures
            r.state == spec_seed_state(seed),
    {
        if seed == 0 {
            TileRng { state: 0x9E3779B97F4A7C15 }
        } else {
            TileRng { state: seed }
        }
    }

    /// The next raw draw; the state advances by one step and the draw is the
    /// new state.
    pub fn next_u64(&mut self) -> (r: u64)
        ensures
            final(self).state == spec_rng_next(old(self).state),
            r == spec_rng_next(old(self).state),
    {
        let s = self.state;
        let a = s ^ (s << 13u64);
        let b = a ^ (a >> 7u64);
        let c = b ^ (b << 17u64);
        self.state = c;
        c
    }

    /// A draw below `n`.
    pub fn next_below(&mut self, n: u64) -> (r: u64)
        requires
            n > 0,
        ensures
            final(self).state == spec_rng_next(old(self).state),
            r == spec_rng_next(old(self).state) % n,
            r < n,
    {
        let v = self.next_u64();
        v % n
    }

    /// A fixed-point draw in the half-open range `[lo, hi)`.
    pub fn next_fx(&mut self, lo: Fx, hi: Fx) -> (r: Fx)
        requires
            lo.raw < hi.raw,
            -0x1_0000_0000 <= lo.raw,
            hi.raw <= 0x1_0000_0000,
        ensures
            final(self).state == spec_fx_draw(old(self).state, lo.raw as int, hi.raw as int).1,
            r.raw == spec_fx_draw(old(self).state, lo.raw as int, hi.raw as int).0,
            lo.raw <= r.raw < hi.raw,
    {
        let d: u64 = (hi.raw - lo.raw) as u64;
        let v = self.next_below(d);
        Fx { raw: lo.raw + (v as i64) }
    }

    /// A bounded mode-weighted draw in `[lo, hi]`: the average of two
    /// uniform draws and twice the most-likely value, so results bunch near
    /// the mode while staying inside the bounds.
    pub fn sample_shaped(&mut self, lo: Fx, mode: Fx, hi: Fx) -> (r: Fx)
        requires
            0 <= lo.raw < hi.raw,
            lo.raw <= mode.raw <= hi.raw,
            hi.raw <= 0x1_0000_0000,
        ensures
            final(self).state == spec_shaped(old(self).state, lo.raw as int, mode.raw as int, hi.raw as int).1,
            r.raw == spec_shaped(old(self).state, lo.raw as int, mode.raw as int, hi.raw as int).0,
            lo.raw <= r.raw <= hi.raw,
    {
        let u1 = self.next_fx(lo, hi);
        let u2 = self.next_fx(lo, hi);
        let sum: i64 = u1.raw + u2.raw + 2 * mode.raw;
        let r = Fx { raw: sum / 4 };
        proof {
            assert(r.raw == spec_shaped(old(self).state, lo.raw as int, mode.raw as int, hi.raw as int).0);
            assert(lo.raw <= r.raw <= hi.raw) by {
                assert(4 * lo.raw <= sum <= 4 * hi.raw);
            }
        }
        r
    }

    /// A geometric draw: the trailing zero bits of the next raw draw.
    pub fn geometric(&mut self) -> (r: u64)
        ensures
            final(self).state == spec_rng_next(old(self).state),
            r == spec_trailing_zeros(spec_rng_next(old(self).state)),
            r <= 64,
    {
        let v = self.next_u64();
        let mut i: u64 = 0;
        while i < 64
            invariant
                i <= 64,
                self.state == spec_rng_next(old(self).state),
                v == spec_rng_next(old(self).state),
                spec_tz_from(v, 0) == spec_tz_from(v, i as int),
            decreases 64 - i,
        {
            if (v >> i) & 1 == 1 {
                return i;
            }
            i = i + 1;
        }
        64
    }
}

} // verus!
