//! The shared deterministic random source: a fixed-seed generator held behind
//! trusted wrappers around the `rand` crate.

use vstd::prelude::*;
use rand::Rng;
use rand::SeedableRng;

verus! {

/// The fixed seed the shared generator starts from; it is restored on every
/// board reset, which makes the random sequence reproducible.
pub const BOARD_SEED: u64 = 2024;

#[verifier::external_type_specification]
#[verifier::external_body]
pub struct ExStdRng(rand::rngs::StdRng);

/// Relies on rand's `SeedableRng::seed_from_u64`: builds a generator from a
/// `u64` seed. Nothing is claimed of the state it produces.
#[verifier::external_body]
fn seeded_rng(seed: u64) -> rand::rngs::StdRng {
    rand::rngs::StdRng::seed_from_u64(seed)
}

/// A generator in the state the shared random source has at process start
/// and again after every board reset.
pub fn fresh_board_rng() -> rand::rngs::StdRng {
    seeded_rng(BOARD_SEED)
}

/// Relies on rand's `Rng::gen::<bool>`: draws one random boolean and advances
/// the generator. Nothing is claimed of which value comes back.
#[verifier::external_body]
pub(crate) fn coin_flip(rng: &mut rand::rngs::StdRng) -> bool {
    rng.gen()
}

} // verus!
