//! The generators: a mainworld, and the star system around it.
use crate::dice::laws::lemma_roll_bounds;
use crate::dice::{after_dice, roll_of, Dice, Rollable};
use crate::generators::worldgen::{at_least_zero, generate_mainworld, mainworld_from, non_negative};
use crate::world::{System, WorldView};
use vstd::prelude::*;

pub mod laws;
pub mod tech;
pub mod worldgen;

verus! {

/// The variance of the habitable zone that a system's mainworld is generated with.
pub const DEFAULT_HZ_VARIANCE: i32 = 0;

/// The habitable zone that a system's mainworld is generated with.
pub const DEFAULT_HABITABLE_ZONE: i32 = 0;

/// The number of asteroid belts: the roll made for them, and none where it is negative.
pub open spec fn belts_of(roll: int) -> int {
    at_least_zero(roll)
}

/// The number of gas giants: half the roll made for them less 2, rounded to the nearest
/// whole number, a half upwards, and none where that is negative.
pub open spec fn gas_giants_of(roll: int) -> int {
    if roll <= 4 {
        0
    } else {
        (roll - 3) / 2
    }
}

/// Counts the asteroid belts from the roll made for them.
pub fn belt_count(roll: i32) -> (belts: i32)
    ensures
        belts == belts_of(roll as int),
{
    non_negative(roll)
}

/// Counts the gas giants from the roll made for them.
pub fn gas_giant_count(roll: i32) -> (gas_giants: i32)
    ensures
        gas_giants == gas_giants_of(roll as int),
        roll <= 4 ==> gas_giants == 0,
        roll >= 4 ==> 2 * gas_giants - 1 <= roll - 4 <= 2 * gas_giants,
{
    if roll <= 4 {
        0
    } else {
        (roll - 3) / 2
    }
}

/// What is generated around the stars from `source`: the mainworld, the number of
/// asteroid belts, the number of gas giants, and the source as generating them leaves it.
/// The mainworld is drawn first, then one die for the belts, then two for the gas giants.
pub open spec fn system_from<R: Dice>(source: R) -> (WorldView, int, int, R) {
    let (mainworld, source) = mainworld_from(
        source,
        DEFAULT_HZ_VARIANCE as int,
        DEFAULT_HABITABLE_ZONE as int,
    );
    let belts = belts_of(roll_of(source, 1, 6, -3));
    let source = after_dice(source, 1, 6);
    let gas_giants = gas_giants_of(roll_of(source, 2, 6, 0));
    let source = after_dice(source, 2, 6);
    (mainworld, belts, gas_giants, source)
}

/// Generates the system around `stars` from the dice of `rng`.
///
/// The stars come from their own generator, which draws from the same dice before this
/// function does.
pub fn generate_system<R: Rollable, S>(rng: &mut R, stars: Vec<S>) -> (system: System<S>)
    ensures
        system.stars == stars,
        system.mainworld@ == system_from(*old(rng)).0,
        system.belts == system_from(*old(rng)).1,
        system.gas_giants == system_from(*old(rng)).2,
        *final(rng) == system_from(*old(rng)).3,
        system.mainworld@.well_formed(),
        0 <= system.belts <= 3,
        0 <= system.gas_giants <= 4,
{
    let mainworld = generate_mainworld(rng, DEFAULT_HZ_VARIANCE, DEFAULT_HABITABLE_ZONE);

    proof {
        lemma_roll_bounds(*rng, 1, 6, -3);
    }
    let belts = belt_count(rng.roll(1, 6, -3));
    proof {
        lemma_roll_bounds(*rng, 2, 6, 0);
    }
    let gas_giants = gas_giant_count(rng.roll(2, 6, 0));

    System { stars, mainworld, belts, gas_giants }
}

} // verus!
