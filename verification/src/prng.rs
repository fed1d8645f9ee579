use vstd::prelude::*;

verus! {

/// The multiplier of the generator.
pub const PCG_MULTIPLIER: u64 = 6364136223846793005;

/// The increment of the generator.
pub const PCG_INCREMENT: u64 = 1442695040888963407;

/// The state that follows `x`: the generator multiplies its state by the sum of its
/// multiplier and increment, modulo 2^64.
pub open spec fn pcg_next_state(x: u64) -> u64 {
    ((x as nat * (PCG_MULTIPLIER as nat + PCG_INCREMENT as nat)) % 0x1_0000_0000_0000_0000nat) as u64
}

/// `v` rotated right by `r` bits, for `r < 32`.
pub open spec fn spec_rotr32(v: u32, r: u32) -> u32 {
    (v >> r) | (v << ((32 - r) % 32) as u32)
}

/// The value that the generator gives out in state `x`.
pub open spec fn pcg_output(x: u64) -> u32 {
    let y = x ^ (x >> 18u64);
    spec_rotr32((y >> 27u64) as u32, (x >> 59u64) as u32)
}

/// The state in which a generator seeded with `seed` starts giving out values.
pub open spec fn pcg_seeded_state(seed: u64) -> u64 {
    let sum = seed as nat + PCG_INCREMENT as nat;
    pcg_next_state(
        if sum > u64::MAX {
            (sum - 0x1_0000_0000_0000_0000nat) as u64
        } else {
            sum as u64
        },
    )
}

/// A small permuted congruential pseudo-random generator of 32-bit values.
pub struct Pcg32(u64);

impl Pcg32 {
    /// The generator's state.
    pub closed spec fn state(self) -> u64 {
        self.0
    }

    /// A generator seeded with `seed`; one value is drawn and dropped, so that a seed with
    /// many leading zeroes does not give a predictable first value.
    pub fn new(seed: u64) -> (r: Self)
        ensures
            r.state() == pcg_seeded_state(seed),
    {
        let init_state = seed.wrapping_add(PCG_INCREMENT);
        let mut result = Pcg32(init_state);
        let _ = result.get();
        result
    }

    /// Draws the next value.
    pub fn get(&mut self) -> (r: u32)
        ensures
            r == pcg_output(old(self).state()),
            final(self).state() == pcg_next_state(old(self).state()),
    {
        let x = self.0;
        assert(x >> 59u64 < 32u64) by (bit_vector);
        let count = (x >> 59u64) as i8;
        self.0 = x.wrapping_mul(PCG_MULTIPLIER.wrapping_add(PCG_INCREMENT));
        let y = x ^ (x >> 18u64);
        Self::rotr32((y >> 27u64) as u32, count)
    }

    fn rotr32(x: u32, r: i8) -> (v: u32)
        requires
            0 <= r < 32,
        ensures
            v == spec_rotr32(x, r as u32),
    {
        let s = r as u32;
        (x >> s) | (x << ((32 - s) % 32))
    }
}

} // verus!
