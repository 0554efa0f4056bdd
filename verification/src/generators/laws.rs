//! What holds of every world and of every system that is generated.
use crate::dice::laws::{
    lemma_roll_after_draws, lemma_roll_bounds, lemma_same_dice_flux, lemma_same_dice_roll,
};
use crate::dice::{after_dice, after_draws, after_flux, dice_of, roll_of, same_dice, Dice};
use crate::generators::tech::tech_mod_of;
use crate::generators::worldgen::{
    drawn_atmosphere, drawn_government, drawn_hydrographics, drawn_law, drawn_orbit,
    drawn_population, drawn_population_digit, drawn_size, hydrographics_base, mainworld_from,
    starport_of,
};
use crate::generators::{system_from, DEFAULT_HABITABLE_ZONE, DEFAULT_HZ_VARIANCE};
use crate::world::Base;
use vstd::prelude::*;

verus! {

/// Sources that show the same dice give the same size.
proof fn lemma_same_dice_size<A: Dice, B: Dice>(a: A, b: B)
    requires
        same_dice(a, b),
    ensures
        drawn_size(a).0 == drawn_size(b).0,
        same_dice(drawn_size(a).1, drawn_size(b).1),
{
    lemma_same_dice_roll(a, b, 2, 6, -2);
    lemma_same_dice_roll(after_dice(a, 2, 6), after_dice(b, 2, 6), 1, 6, 9);
}

/// Sources that show the same dice give the same orbit.
proof fn lemma_same_dice_orbit<A: Dice, B: Dice>(
    a: A,
    b: B,
    size: int,
    hz_variance: int,
    habitable_zone: int,
)
    requires
        same_dice(a, b),
    ensures
        drawn_orbit(a, size, hz_variance, habitable_zone).0 == drawn_orbit(
            b,
            size,
            hz_variance,
            habitable_zone,
        ).0,
        same_dice(
            drawn_orbit(a, size, hz_variance, habitable_zone).1,
            drawn_orbit(b, size, hz_variance, habitable_zone).1,
        ),
{
    lemma_same_dice_roll(a, b, 2, 6, -1 + habitable_zone);
}

/// Sources that show the same dice give the same atmosphere and hydrographics.
proof fn lemma_same_dice_surface<A: Dice, B: Dice>(a: A, b: B, size: int)
    requires
        same_dice(a, b),
    ensures
        drawn_atmosphere(a, size).0 == drawn_atmosphere(b, size).0,
        same_dice(drawn_atmosphere(a, size).1, drawn_atmosphere(b, size).1),
        drawn_hydrographics(drawn_atmosphere(a, size).1, size, drawn_atmosphere(a, size).0).0
            == drawn_hydrographics(
            drawn_atmosphere(b, size).1,
            size,
            drawn_atmosphere(b, size).0,
        ).0,
        same_dice(
            drawn_hydrographics(drawn_atmosphere(a, size).1, size, drawn_atmosphere(a, size).0).1,
            drawn_hydrographics(drawn_atmosphere(b, size).1, size, drawn_atmosphere(b, size).0).1,
        ),
{
    lemma_same_dice_flux(a, b, size);
    let atmosphere = drawn_atmosphere(a, size).0;
    lemma_same_dice_flux(
        drawn_atmosphere(a, size).1,
        drawn_atmosphere(b, size).1,
        hydrographics_base(atmosphere),
    );
}

/// Sources that show the same dice give the same population and population digit.
proof fn lemma_same_dice_population<A: Dice, B: Dice>(a: A, b: B)
    requires
        same_dice(a, b),
    ensures
        drawn_population(a).0 == drawn_population(b).0,
        same_dice(drawn_population(a).1, drawn_population(b).1),
        drawn_population_digit(drawn_population(a).1, drawn_population(a).0).0
            == drawn_population_digit(drawn_population(b).1, drawn_population(b).0).0,
        same_dice(
            drawn_population_digit(drawn_population(a).1, drawn_population(a).0).1,
            drawn_population_digit(drawn_population(b).1, drawn_population(b).0).1,
        ),
{
    lemma_same_dice_roll(a, b, 2, 6, -2);
    lemma_same_dice_roll(after_dice(a, 2, 6), after_dice(b, 2, 6), 2, 6, 3);
    lemma_same_dice_roll(drawn_population(a).1, drawn_population(b).1, 1, 9, 0);
}

/// Sources that show the same dice give the same government and law level.
proof fn lemma_same_dice_rule<A: Dice, B: Dice>(a: A, b: B, population: int)
    requires
        same_dice(a, b),
    ensures
        drawn_government(a, population).0 == drawn_government(b, population).0,
        same_dice(drawn_government(a, population).1, drawn_government(b, population).1),
        drawn_law(drawn_government(a, population).1, population, drawn_government(a, population).0).0
            == drawn_law(
            drawn_government(b, population).1,
            population,
            drawn_government(b, population).0,
        ).0,
        same_dice(
            drawn_law(
                drawn_government(a, population).1,
                population,
                drawn_government(a, population).0,
            ).1,
            drawn_law(
                drawn_government(b, population).1,
                population,
                drawn_government(b, population).0,
            ).1,
        ),
{
    lemma_same_dice_flux(a, b, population);
    lemma_same_dice_flux(
        drawn_government(a, population).1,
        drawn_government(b, population).1,
        drawn_government(a, population).0,
    );
}

/// The world depends on the source through the dice alone: two sources that show the
/// same dice, be they of one type or of two, generate the same world from the same
/// zone, and show the same dice afterwards.
pub proof fn lemma_same_dice_same_world<A: Dice, B: Dice>(
    a: A,
    b: B,
    hz_variance: int,
    habitable_zone: int,
)
    requires
        same_dice(a, b),
    ensures
        mainworld_from(a, hz_variance, habitable_zone).0 == mainworld_from(
            b,
            hz_variance,
            habitable_zone,
        ).0,
        same_dice(
            mainworld_from(a, hz_variance, habitable_zone).1,
            mainworld_from(b, hz_variance, habitable_zone).1,
        ),
{
    lemma_same_dice_flux(a, b, 0);
    let (a, b) = (after_flux(a), after_flux(b));
    lemma_same_dice_flux(a, b, 0);
    let (a, b) = (after_flux(a), after_flux(b));
    lemma_same_dice_roll(a, b, 2, 6, -2);
    let port = starport_of(roll_of(a, 2, 6, -2));
    let (a, b) = (after_dice(a, 2, 6), after_dice(b, 2, 6));
    lemma_same_dice_roll(a, b, 2, 6, 0);
    let (a, b) = (after_dice(a, 2, 6), after_dice(b, 2, 6));
    lemma_same_dice_roll(a, b, 2, 6, 0);
    let (a, b) = (after_dice(a, 2, 6), after_dice(b, 2, 6));
    lemma_same_dice_size(a, b);
    let size = drawn_size(a).0;
    let (a, b) = (drawn_size(a).1, drawn_size(b).1);
    lemma_same_dice_orbit(a, b, size, hz_variance, habitable_zone);
    let (a, b) = (
        drawn_orbit(a, size, hz_variance, habitable_zone).1,
        drawn_orbit(b, size, hz_variance, habitable_zone).1,
    );
    lemma_same_dice_surface(a, b, size);
    let atmosphere = drawn_atmosphere(a, size).0;
    let (a, b) = (drawn_atmosphere(a, size).1, drawn_atmosphere(b, size).1);
    let hydrographics = drawn_hydrographics(a, size, atmosphere).0;
    let (a, b) = (
        drawn_hydrographics(a, size, atmosphere).1,
        drawn_hydrographics(b, size, atmosphere).1,
    );
    lemma_same_dice_population(a, b);
    let population = drawn_population(a).0;
    let (a, b) = (drawn_population(a).1, drawn_population(b).1);
    let (a, b) = (
        drawn_population_digit(a, population).1,
        drawn_population_digit(b, population).1,
    );
    lemma_same_dice_rule(a, b, population);
    let government = drawn_government(a, population).0;
    let (a, b) = (drawn_government(a, population).1, drawn_government(b, population).1);
    let (a, b) = (drawn_law(a, population, government).1, drawn_law(b, population, government).1);
    lemma_same_dice_roll(
        a,
        b,
        1,
        6,
        tech_mod_of(port, size, atmosphere, hydrographics, population, government),
    );
}

/// Every world that is generated is well formed, whatever the source and the zone.
pub proof fn lemma_generated_world_is_well_formed<R: Dice>(
    source: R,
    hz_variance: int,
    habitable_zone: int,
)
    ensures
        mainworld_from(source, hz_variance, habitable_zone).0.well_formed(),
        mainworld_from(source, hz_variance, habitable_zone).0.hz_variance == hz_variance,
{
    let world = mainworld_from(source, hz_variance, habitable_zone).0;
    let source = after_flux(after_flux(source));
    lemma_roll_bounds(source, 2, 6, -2);
    let source = after_dice(after_dice(after_dice(source, 2, 6), 2, 6), 2, 6);
    lemma_roll_bounds(source, 2, 6, -2);
    lemma_roll_bounds(after_dice(source, 2, 6), 1, 6, 9);
    let size = drawn_size(source).0;
    let source = drawn_size(source).1;
    let source = drawn_orbit(source, size, hz_variance, habitable_zone).1;
    let atmosphere = drawn_atmosphere(source, size).0;
    let source = drawn_atmosphere(source, size).1;
    let source = drawn_hydrographics(source, size, atmosphere).1;
    lemma_roll_bounds(source, 2, 6, -2);
    lemma_roll_bounds(after_dice(source, 2, 6), 2, 6, 3);
    let population = drawn_population(source).0;
    let source = drawn_population(source).1;
    lemma_roll_bounds(source, 1, 9, 0);
    assert(world.bases.contains(Base::Naval) ==> world.bases[0] == Base::Naval);
    assert(world.bases.contains(Base::Scout) ==> world.bases[0] == Base::Scout || world.bases[1]
        == Base::Scout);
}

/// Generating a world draws between 17 and 27 dice and nothing else from the source:
/// the result names them by their numbers of sides, in the order in which they are
/// drawn.
pub proof fn lemma_mainworld_draws_boundedly<R: Dice>(
    source: R,
    hz_variance: int,
    habitable_zone: int,
) -> (dice: Seq<int>)
    ensures
        17 <= dice.len() <= 27,
        forall|i: int| 0 <= i < dice.len() ==> dice[i] == 6 || dice[i] == 9,
        mainworld_from(source, hz_variance, habitable_zone).1 == after_draws(source, dice),
{
    let two = dice_of(2, 6);
    let mut dice = Seq::<int>::empty();

    // Orbit roll, type roll, starport, naval base, scout base.
    lemma_roll_after_draws(source, dice, 2, 6);
    dice = dice + two;
    lemma_roll_after_draws(source, dice, 2, 6);
    dice = dice + two;
    lemma_roll_after_draws(source, dice, 2, 6);
    dice = dice + two;
    lemma_roll_after_draws(source, dice, 2, 6);
    dice = dice + two;
    lemma_roll_after_draws(source, dice, 2, 6);
    dice = dice + two;

    // Size.
    let first = roll_of(after_draws(source, dice), 2, 6, -2);
    let size = drawn_size(after_draws(source, dice)).0;
    lemma_roll_after_draws(source, dice, 2, 6);
    dice = dice + two;
    if first == 10 {
        lemma_roll_after_draws(source, dice, 1, 6);
        dice = dice + dice_of(1, 6);
    }
    // The orbit of an asteroid belt, or else the atmosphere.
    lemma_roll_after_draws(source, dice, 2, 6);
    dice = dice + two;

    // Hydrographics.
    if !(size == 0 || size == 1) {
        lemma_roll_after_draws(source, dice, 2, 6);
        dice = dice + two;
    }
    // Population.
    let first = roll_of(after_draws(source, dice), 2, 6, -2);
    let population = drawn_population(after_draws(source, dice)).0;
    lemma_roll_after_draws(source, dice, 2, 6);
    dice = dice + two;
    if first == 10 {
        lemma_roll_after_draws(source, dice, 2, 6);
        dice = dice + two;
    }
    // Population digit, government, law.
    if population != 0 {
        lemma_roll_after_draws(source, dice, 1, 9);
        dice = dice + dice_of(1, 9);
        lemma_roll_after_draws(source, dice, 2, 6);
        dice = dice + two;
        lemma_roll_after_draws(source, dice, 2, 6);
        dice = dice + two;
    }
    // Tech level.
    lemma_roll_after_draws(source, dice, 1, 6);
    dice = dice + dice_of(1, 6);
    dice
}

/// What is generated around the stars depends on the source through the dice alone:
/// two sources that show the same dice, be they of one type or of two, generate the
/// same mainworld, belts and gas giants, and show the same dice afterwards.
pub proof fn lemma_same_dice_same_system<A: Dice, B: Dice>(a: A, b: B)
    requires
        same_dice(a, b),
    ensures
        system_from(a).0 == system_from(b).0,
        system_from(a).1 == system_from(b).1,
        system_from(a).2 == system_from(b).2,
        same_dice(system_from(a).3, system_from(b).3),
{
    let hz_variance = DEFAULT_HZ_VARIANCE as int;
    let habitable_zone = DEFAULT_HABITABLE_ZONE as int;
    lemma_same_dice_same_world(a, b, hz_variance, habitable_zone);
    let a = mainworld_from(a, hz_variance, habitable_zone).1;
    let b = mainworld_from(b, hz_variance, habitable_zone).1;
    lemma_same_dice_roll(a, b, 1, 6, -3);
    lemma_same_dice_roll(after_dice(a, 1, 6), after_dice(b, 1, 6), 2, 6, 0);
}

/// Generating what surrounds the stars draws between 20 and 30 dice and nothing else
/// from the source: the result names them by their numbers of sides, in the order in
/// which they are drawn.
pub proof fn lemma_system_draws_boundedly<R: Dice>(source: R) -> (dice: Seq<int>)
    ensures
        20 <= dice.len() <= 30,
        forall|i: int| 0 <= i < dice.len() ==> dice[i] == 6 || dice[i] == 9,
        system_from(source).3 == after_draws(source, dice),
{
    let for_world = lemma_mainworld_draws_boundedly(
        source,
        DEFAULT_HZ_VARIANCE as int,
        DEFAULT_HABITABLE_ZONE as int,
    );
    lemma_roll_after_draws(source, for_world, 1, 6);
    let with_belts = for_world + dice_of(1, 6);
    lemma_roll_after_draws(source, with_belts, 2, 6);
    with_belts + dice_of(2, 6)
}

} // verus!
