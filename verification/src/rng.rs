//! The seeded random source that the game draws from.
//!
//! The generator itself lives in `bevy_turborand`; this module only declares
//! its two handle types and the two calls the game makes on them.

use bevy_turborand::{DelegatedRng, GlobalRng, RngComponent};
use vstd::prelude::*;

verus! {

/// `bevy_turborand::GlobalRng`, the generator shared by the whole game.
/// Nothing inside it is visible here.
#[verifier::external_type_specification]
#[verifier::external_body]
pub struct ExGlobalRng(bevy_turborand::GlobalRng);

/// `bevy_turborand::RngComponent`, a generator owned by one entity.
/// Nothing inside it is visible here.
#[verifier::external_type_specification]
#[verifier::external_body]
pub struct ExRngComponent(bevy_turborand::RngComponent);

/// Draws one integer from `lo..=hi` with `DelegatedRng::i32` on the global
/// generator.
///
/// Trusted: the value lies within the bounds. The generator panics on an
/// empty range, so `lo <= hi` is required. Which value comes out depends on
/// the generator's hidden state, of which nothing is claimed.
#[verifier::external_body]
pub(crate) fn draw_i32(global_rng: &mut GlobalRng, lo: i32, hi: i32) -> (value: i32)
    requires
        lo <= hi,
    ensures
        lo <= value <= hi,
{
    global_rng.i32(lo..=hi)
}

/// Splits a generator of its own off the global one with
/// `RngComponent::from`, which seeds the new generator with the next output
/// of the global one.
///
/// Trusted: nothing is claimed of either generator afterwards.
#[verifier::external_body]
pub(crate) fn fork_rng(global_rng: &mut GlobalRng) -> RngComponent {
    RngComponent::from(global_rng)
}

} // verus!
