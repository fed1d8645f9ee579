use vstd::prelude::*;

use crate::prng::{Pcg32, pcg_next_state, pcg_output, pcg_seeded_state};

verus! {

/// The music shuffle's generator, seeded with the time in milliseconds.
pub fn init(seed_millis: u64) -> (r: Pcg32)
    ensures
        r.state() == pcg_seeded_state(seed_millis),
{
    Pcg32::new(seed_millis)
}

/// A random track number below `out_of`: the generator's next value modulo `out_of`.
pub fn our_random(prng: &mut Pcg32, out_of: u32) -> (r: u32)
    requires
        out_of != 0,
    ensures
        r == pcg_output(old(prng).state()) % out_of,
        final(prng).state() == pcg_next_state(old(prng).state()),
        r < out_of,
{
    let value = prng.get();
    value % out_of
}

} // verus!
