//! The mainworld generator: the rules that turn dice into a world, and the order in
//! which the dice are drawn.
use crate::dice::laws::lemma_roll_bounds;
use crate::dice::{after_dice, after_flux, flux_of, roll_of, Dice, Rollable};
use crate::generators::tech::{tech_mod, tech_mod_of};
use crate::world::{
    is_port, is_port_code, port_code, travel_zone_of, Base, MainWorldType, TravelZone, World,
    WorldView,
};
use vstd::prelude::*;
use vstd::string::*;

verus! {

/// The starport classes by the roll that selects them.
pub const STARPORT_DISTRIBUTION: [&'static str; 11] = [
    "A",
    "A",
    "A",
    "B",
    "B",
    "C",
    "C",
    "D",
    "E",
    "E",
    "X",
];

/// `value`, or the nearer of the two bounds where it lies outside them.
pub open spec fn clamped(value: int, low: int, high: int) -> int {
    if value < low {
        low
    } else if value > high {
        high
    } else {
        value
    }
}

/// Brings `value` into the range from `low` to `high`.
pub fn clamp(value: i32, low: i32, high: i32) -> (within: i32)
    requires
        low <= high,
    ensures
        within == clamped(value as int, low as int, high as int),
{
    if value < low {
        low
    } else if value > high {
        high
    } else {
        value
    }
}

/// The close orbit that an orbit roll selects: six more than the roll, kept within 1 to 11.
pub open spec fn close_orbit_of(orbit_roll: int) -> int {
    clamped(orbit_roll + 6, 1, 11)
}

/// The kind of mainworld that a flux selects, with the orbit that the orbit roll gives
/// a satellite: the close orbit, or for a far satellite the close orbit plus 13.
pub open spec fn mainworld_type_of(flux: int, orbit_roll: int) -> MainWorldType {
    if flux == -5 || flux == -4 {
        MainWorldType::FarSatellite((close_orbit_of(orbit_roll) + 13) as u8)
    } else if flux == -3 {
        MainWorldType::CloseSatellite(close_orbit_of(orbit_roll) as u8)
    } else {
        MainWorldType::Planet
    }
}

/// Selects the kind of mainworld by `flux`, and the orbit of a satellite by `orbit_roll`.
pub fn mainworld_type(flux: i32, orbit_roll: i32) -> (kind: MainWorldType)
    ensures
        kind == mainworld_type_of(flux as int, orbit_roll as int),
{
    let close_orbit: u8 = (clamp(orbit_roll, -5, 5) + 6) as u8;
    let far_orbit: u8 = close_orbit + 13;
    match flux {
        -5 | -4 => MainWorldType::FarSatellite(far_orbit),
        -3 => MainWorldType::CloseSatellite(close_orbit),
        _ => MainWorldType::Planet,
    }
}

/// The letters of the starport classes by the roll that selects them.
pub open spec fn starport_letters() -> Seq<char> {
    seq!['A', 'A', 'A', 'B', 'B', 'C', 'C', 'D', 'E', 'E', 'X']
}

/// The code of the starport that `roll` selects.
pub open spec fn starport_of(roll: int) -> Seq<char> {
    port_code(starport_letters()[roll])
}

/// Looks up the starport that `roll` selects.
pub fn roll_starport(roll: i32) -> (port: String)
    requires
        0 <= roll <= 10,
    ensures
        port@ == starport_of(roll as int),
{
    proof {
        reveal_strlit("A");
        reveal_strlit("B");
        reveal_strlit("C");
        reveal_strlit("D");
        reveal_strlit("E");
        reveal_strlit("X");
    }
    let port = String::from_str(STARPORT_DISTRIBUTION[roll as usize]);
    assert(port@ =~= starport_of(roll as int));
    port
}

/// Whether a world with this starport hosts a naval base on this roll.
pub open spec fn naval_base_at(port: Seq<char>, roll: int) -> bool {
    if is_port_code(port, 'A') {
        roll <= 6
    } else if is_port_code(port, 'B') {
        roll <= 5
    } else {
        false
    }
}

/// Whether a world with this starport hosts a scout base on this roll.
pub open spec fn scout_base_at(port: Seq<char>, roll: int) -> bool {
    if is_port_code(port, 'A') {
        roll <= 4
    } else if is_port_code(port, 'B') {
        roll <= 5
    } else if is_port_code(port, 'C') {
        roll <= 6
    } else if is_port_code(port, 'D') {
        roll <= 7
    } else {
        false
    }
}

/// The bases of a world, the naval base first.
pub open spec fn bases_of(naval: bool, scout: bool) -> Seq<Base> {
    if naval && scout {
        seq![Base::Naval, Base::Scout]
    } else if naval {
        seq![Base::Naval]
    } else if scout {
        seq![Base::Scout]
    } else {
        Seq::empty()
    }
}

/// Decides on a naval base from the starport and the roll made for it.
pub fn naval_base(port: &str, roll: i32) -> (present: bool)
    ensures
        present == naval_base_at(port@, roll as int),
{
    if is_port(port, 'A') {
        roll <= 6
    } else if is_port(port, 'B') {
        roll <= 5
    } else {
        false
    }
}

/// Decides on a scout base from the starport and the roll made for it.
pub fn scout_base(port: &str, roll: i32) -> (present: bool)
    ensures
        present == scout_base_at(port@, roll as int),
{
    if is_port(port, 'A') {
        roll <= 4
    } else if is_port(port, 'B') {
        roll <= 5
    } else if is_port(port, 'C') {
        roll <= 6
    } else if is_port(port, 'D') {
        roll <= 7
    } else {
        false
    }
}

/// Classifies a world by its starport and by the sum of its government and law level.
pub fn travel_zone(port: &str, government: i32, law: i32) -> (zone: TravelZone)
    ensures
        zone == travel_zone_of(port@, government as int, law as int),
        is_port_code(port@, 'X') ==> zone == TravelZone::Red,
        !is_port_code(port@, 'X') && (government + law == 20 || government + law == 21) ==> zone
            == TravelZone::Amber,
{
    let strictness: i64 = government as i64 + law as i64;
    if is_port(port, 'X') || (22 <= strictness && strictness <= 32) {
        TravelZone::Red
    } else if strictness == 20 || strictness == 21 {
        TravelZone::Amber
    } else {
        TravelZone::Green
    }
}

/// `value`, or zero where it is negative.
pub open spec fn at_least_zero(value: int) -> int {
    if value < 0 {
        0
    } else {
        value
    }
}

/// Raises a negative `value` to zero.
pub fn non_negative(value: i32) -> (raised: i32)
    ensures
        raised == at_least_zero(value as int),
{
    if value < 0 {
        0
    } else {
        value
    }
}

/// The size: two dice less 2, and where that comes to 10, one die plus 9 in its place.
pub open spec fn drawn_size<R: Dice>(source: R) -> (int, R) {
    let first = roll_of(source, 2, 6, -2);
    let next = after_dice(source, 2, 6);
    if first == 10 {
        (roll_of(next, 1, 6, 9), after_dice(next, 1, 6))
    } else {
        (first, next)
    }
}

/// The orbit. An asteroid belt is placed by two dice around the habitable zone, whatever
/// the variance; any other world lies in the habitable zone shifted by the variance.
/// No orbit is negative.
pub open spec fn drawn_orbit<R: Dice>(
    source: R,
    size: int,
    hz_variance: int,
    habitable_zone: int,
) -> (int, R) {
    if size == 0 {
        (at_least_zero(roll_of(source, 2, 6, -1 + habitable_zone)), after_dice(source, 2, 6))
    } else {
        (at_least_zero(habitable_zone + hz_variance), source)
    }
}

/// The atmosphere: none for an asteroid belt, else a flux around the size, kept within
/// 0 to 15.
pub open spec fn drawn_atmosphere<R: Dice>(source: R, size: int) -> (int, R) {
    if size == 0 {
        (0, source)
    } else {
        (clamped(flux_of(source, size), 0, 15), after_flux(source))
    }
}

/// The value around which the hydrographics vary: the atmosphere, less 4 where the
/// atmosphere is at most 2 or at least 10.
pub open spec fn hydrographics_base(atmosphere: int) -> int {
    if 0 <= atmosphere <= 2 || 10 <= atmosphere <= 15 {
        atmosphere - 4
    } else {
        atmosphere
    }
}

/// The hydrographics: none for a world of size 0 or 1, else a flux around
/// [`hydrographics_base`], kept within 0 to 10.
pub open spec fn drawn_hydrographics<R: Dice>(source: R, size: int, atmosphere: int) -> (int, R) {
    if size == 0 || size == 1 {
        (0, source)
    } else {
        (clamped(flux_of(source, hydrographics_base(atmosphere)), 0, 10), after_flux(source))
    }
}

/// The population: two dice less 2, and where that comes to 10, two dice plus 3 in its
/// place.
pub open spec fn drawn_population<R: Dice>(source: R) -> (int, R) {
    let first = roll_of(source, 2, 6, -2);
    let next = after_dice(source, 2, 6);
    if first == 10 {
        (roll_of(next, 2, 6, 3), after_dice(next, 2, 6))
    } else {
        (first, next)
    }
}

/// The population digit: 0 for an empty world, else one nine-sided die.
pub open spec fn drawn_population_digit<R: Dice>(source: R, population: int) -> (int, R) {
    if population == 0 {
        (0, source)
    } else {
        (roll_of(source, 1, 9, 0), after_dice(source, 1, 9))
    }
}

/// The government: 0 for an empty world, else a flux around the population, kept within
/// 0 to 15.
pub open spec fn drawn_government<R: Dice>(source: R, population: int) -> (int, R) {
    if population == 0 {
        (0, source)
    } else {
        (clamped(flux_of(source, population), 0, 15), after_flux(source))
    }
}

/// The law level: 0 for an empty world, else a flux around the government, kept within
/// 0 to 18.
pub open spec fn drawn_law<R: Dice>(source: R, population: int, government: int) -> (int, R) {
    if population == 0 {
        (0, source)
    } else {
        (clamped(flux_of(source, government), 0, 18), after_flux(source))
    }
}

/// The tech level: one die plus the tech modifier, kept within 0 to 33.
pub open spec fn drawn_tech<R: Dice>(source: R, modifier: int) -> (int, R) {
    (clamped(roll_of(source, 1, 6, modifier), 0, 33), after_dice(source, 1, 6))
}

/// The mainworld that is generated from `source`, and the source as generating it
/// leaves it. The dice are drawn in the order in which they are named here.
pub open spec fn mainworld_from<R: Dice>(source: R, hz_variance: int, habitable_zone: int) -> (
    WorldView,
    R,
) {
    let orbit_roll = flux_of(source, 0);
    let source = after_flux(source);
    let type_roll = flux_of(source, 0);
    let source = after_flux(source);
    let port = starport_of(roll_of(source, 2, 6, -2));
    let source = after_dice(source, 2, 6);
    let naval = naval_base_at(port, roll_of(source, 2, 6, 0));
    let source = after_dice(source, 2, 6);
    let scout = scout_base_at(port, roll_of(source, 2, 6, 0));
    let source = after_dice(source, 2, 6);
    let (size, source) = drawn_size(source);
    let (orbit, source) = drawn_orbit(source, size, hz_variance, habitable_zone);
    let (atmosphere, source) = drawn_atmosphere(source, size);
    let (hydrographics, source) = drawn_hydrographics(source, size, atmosphere);
    let (population, source) = drawn_population(source);
    let (population_digit, source) = drawn_population_digit(source, population);
    let (government, source) = drawn_government(source, population);
    let (law, source) = drawn_law(source, population, government);
    let (tech, source) = drawn_tech(
        source,
        tech_mod_of(port, size, atmosphere, hydrographics, population, government),
    );
    (
        WorldView {
            mainworld_type: mainworld_type_of(type_roll, orbit_roll),
            hz_variance,
            orbit,
            port,
            bases: bases_of(naval, scout),
            size,
            atmosphere,
            hydrographics,
            population,
            population_digit,
            government,
            law,
            tech,
            travel_zone: travel_zone_of(port, government, law),
        },
        source,
    )
}

/// The habitable zone and its variance can be added, and two dice placed around the
/// habitable zone fit the orbit's type.
pub open spec fn zone_fits(hz_variance: i32, habitable_zone: i32) -> bool {
    &&& i32::MIN < habitable_zone <= i32::MAX - 11
    &&& i32::MIN <= habitable_zone + hz_variance <= i32::MAX
}

/// Tells whether a mainworld can be generated for this zone: whether [`zone_fits`].
pub fn zone_in_range(hz_variance: i32, habitable_zone: i32) -> (fits: bool)
    ensures
        fits == zone_fits(hz_variance, habitable_zone),
{
    let shifted: i64 = habitable_zone as i64 + hz_variance as i64;
    i32::MIN < habitable_zone && habitable_zone <= i32::MAX - 11 && i32::MIN as i64 <= shifted
        && shifted <= i32::MAX as i64
}

/// Generates a mainworld from the dice of `rng`, for a star whose habitable zone is the
/// orbit `habitable_zone`, off which the world lies by `hz_variance`.
pub fn generate_mainworld<R: Rollable>(rng: &mut R, hz_variance: i32, habitable_zone: i32) -> (world:
    World)
    requires
        zone_fits(hz_variance, habitable_zone),
    ensures
        world@ == mainworld_from(*old(rng), hz_variance as int, habitable_zone as int).0,
        *final(rng) == mainworld_from(*old(rng), hz_variance as int, habitable_zone as int).1,
        world@.well_formed(),
        world.hz_variance == hz_variance,
        world.size != 0 ==> world.orbit == at_least_zero(habitable_zone + hz_variance),
        world.size == 0 ==> world.atmosphere == 0 && world.hydrographics == 0,
        world.population == 0 ==> world.population_digit == 0 && world.government == 0
            && world.law == 0,
        0 <= world.atmosphere <= 15,
        0 <= world.hydrographics <= 10,
        0 <= world.government <= 15,
        0 <= world.law <= 18,
        0 <= world.tech <= 33,
        world.travel_zone == travel_zone_of(
            world.port@,
            world.government as int,
            world.law as int,
        ),
        is_port_code(world.port@, 'X') ==> world.travel_zone == TravelZone::Red,
        !is_port_code(world.port@, 'X') && (world.government + world.law == 20 || world.government
            + world.law == 21) ==> world.travel_zone == TravelZone::Amber,
{
    let orbit_roll = rng.flux(0);
    let mainworld_type_roll = rng.flux(0);
    let mainworld_type = mainworld_type(mainworld_type_roll, orbit_roll);

    proof {
        lemma_roll_bounds(*rng, 2, 6, -2);
    }
    let port = roll_starport(rng.roll(2, 6, -2));

    let naval_roll = rng.roll(2, 6, 0);
    let naval_base = naval_base(port.as_str(), naval_roll);
    let scout_roll = rng.roll(2, 6, 0);
    let scout_base = scout_base(port.as_str(), scout_roll);

    let bases = match (naval_base, scout_base) {
        (true, true) => vec![Base::Naval, Base::Scout],
        (true, false) => vec![Base::Naval],
        (false, true) => vec![Base::Scout],
        (false, false) => Vec::new(),
    };
    assert(bases@ =~= bases_of(naval_base, scout_base));

    proof {
        lemma_roll_bounds(*rng, 2, 6, -2);
    }
    let size = match rng.roll(2, 6, -2) {
        10 => {
            proof {
                lemma_roll_bounds(*rng, 1, 6, 9);
            }
            rng.roll(1, 6, 9)
        },
        roll => roll,
    };

    // Asteroid belts are placed around the habitable zone, whatever the variance.
    let orbit = if size == 0 {
        proof {
            lemma_roll_bounds(*rng, 2, 6, -1 + habitable_zone);
        }
        non_negative(rng.roll(2, 6, -1 + habitable_zone))
    } else {
        non_negative(habitable_zone + hz_variance)
    };

    let atmosphere = match size {
        0 => 0,
        _ => clamp(rng.flux(size), 0, 15),
    };

    let hydrographics = match (size, atmosphere) {
        (0 | 1, _) => 0,
        (_, 0..=2 | 10..=15) => clamp(rng.flux(atmosphere - 4), 0, 10),
        (_, _) => clamp(rng.flux(atmosphere), 0, 10),
    };

    proof {
        lemma_roll_bounds(*rng, 2, 6, -2);
    }
    let population = match rng.roll(2, 6, -2) {
        10 => {
            proof {
                lemma_roll_bounds(*rng, 2, 6, 3);
            }
            rng.roll(2, 6, 3)
        },
        roll => roll,
    };

    let population_digit = match population {
        0 => 0,
        _ => {
            proof {
                lemma_roll_bounds(*rng, 1, 9, 0);
            }
            rng.roll(1, 9, 0)
        },
    };

    let government = match population {
        0 => 0,
        _ => clamp(rng.flux(population), 0, 15),
    };
    let law = match population {
        0 => 0,
        _ => clamp(rng.flux(government), 0, 18),
    };

    let tech = clamp(
        rng.roll(
            1,
            6,
            tech_mod(port.as_str(), size, atmosphere, hydrographics, population, government),
        ),
        0,
        33,
    );

    let travel_zone = travel_zone(port.as_str(), government, law);

    World {
        mainworld_type,
        hz_variance,
        orbit,
        port,
        bases,
        size,
        atmosphere,
        hydrographics,
        population,
        population_digit,
        government,
        law,
        tech,
        travel_zone,
    }
}

} // verus!
