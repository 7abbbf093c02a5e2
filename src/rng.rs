use oorandom::Rand32;
use vstd::prelude::*;

use crate::position::Position;

verus! {

/// The pseudo-random generator of oorandom, carried through as an opaque value.
#[verifier::external_type_specification]
#[verifier::external_body]
pub struct ExRand32(Rand32);

/// Relies on oorandom::Rand32::new: builds a generator from a seed, never fails.
pub assume_specification[ Rand32::new ](seed: u64) -> Rand32;

/// Relies on oorandom::Rand32::rand_range: for `start < end` it returns a value
/// in `[start, end)`; here `start` is 0.
#[verifier::external_body]
fn rand_below(rng: &mut Rand32, n: u32) -> (r: u32)
    requires
        0 < n,
    ensures
        r < n,
{
    rng.rand_range(0..n)
}

impl Position {
    /// A position drawn from `rng`, with `0 <= x < max_x` and `0 <= y < max_y`.
    pub fn random(rng: &mut Rand32, max_x: i16, max_y: i16) -> (r: Self)
        requires
            0 < max_x,
            0 < max_y,
        ensures
            0 <= r.x < max_x,
            0 <= r.y < max_y,
    {
        let x = rand_below(rng, max_x as u32);
        let y = rand_below(rng, max_y as u32);
        Position::new(x as i16, y as i16)
    }
}

} // verus!
