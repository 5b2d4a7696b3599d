//! The pseudo-random number source: a small deterministic generator owned by
//! the game state, consulted for enemy AI directions and spawn rolls.
//!
//! Nothing is promised of the values it yields; every caller states what holds
//! of its own result whatever number came back.

use vstd::prelude::*;
use rand::RngCore;
use rand::SeedableRng;

verus! {

#[verifier::external_type_specification]
#[verifier::external_body]
pub struct ExSmallRng(rand::rngs::SmallRng);

/// Relies on `rand::rngs::SmallRng::seed_from_u64` (via `rand::SeedableRng`):
/// builds a generator from a 64-bit seed.  Nothing is stated of the stream it
/// will produce.
#[verifier::external_body]
pub(crate) fn rng_from_seed(seed: u64) -> rand::rngs::SmallRng {
    rand::rngs::SmallRng::seed_from_u64(seed)
}

/// Relies on `rand::RngCore::next_u32`: yields the generator's next 32-bit
/// value.  Nothing is stated of the value.
#[verifier::external_body]
pub(crate) fn rng_next(rng: &mut rand::rngs::SmallRng) -> u32 {
    rng.next_u32()
}

} // verus!
