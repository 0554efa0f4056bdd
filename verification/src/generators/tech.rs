//! The tech-level modifier: six tables, one for each attribute it depends on.
use crate::world::{is_port, is_port_code};
use vstd::prelude::*;

verus! {

/// The modifier for the starport: 6 for class A, 4 for B, 2 for C, 1 for F, -4 where
/// there is none, and 0 for any other code.
pub open spec fn port_tech_of(port: Seq<char>) -> int {
    if is_port_code(port, 'A') {
        6
    } else if is_port_code(port, 'B') {
        4
    } else if is_port_code(port, 'C') {
        2
    } else if is_port_code(port, 'F') {
        1
    } else if is_port_code(port, 'X') {
        -4
    } else {
        0
    }
}

/// The modifier for the size: 2 up to size 1, 1 from there up to size 4.
pub open spec fn size_tech_of(size: int) -> int {
    if 0 <= size <= 1 {
        2
    } else if 2 <= size <= 4 {
        1
    } else {
        0
    }
}

/// The modifier for the atmosphere: 1 up to 3 and from 10 to 15.
pub open spec fn atmosphere_tech_of(atmosphere: int) -> int {
    if 0 <= atmosphere <= 3 || 10 <= atmosphere <= 15 {
        1
    } else {
        0
    }
}

/// The modifier for the hydrographics: 1 at 9, 2 at 10.
pub open spec fn hydrographics_tech_of(hydrographics: int) -> int {
    if hydrographics == 9 {
        1
    } else if hydrographics == 10 {
        2
    } else {
        0
    }
}

/// The modifier for the population: 1 from 1 to 5, 2 at 9, 4 from 10 to 15.
pub open spec fn population_tech_of(population: int) -> int {
    if 1 <= population <= 5 {
        1
    } else if population == 9 {
        2
    } else if 10 <= population <= 15 {
        4
    } else {
        0
    }
}

/// The modifier for the government: 1 at 0 and at 5, -2 at 13.
pub open spec fn government_tech_of(government: int) -> int {
    if government == 0 || government == 5 {
        1
    } else if government == 13 {
        -2
    } else {
        0
    }
}

/// The tech-level modifier of a world: the sum of the six tables.
pub open spec fn tech_mod_of(
    port: Seq<char>,
    size: int,
    atmosphere: int,
    hydrographics: int,
    population: int,
    government: int,
) -> int {
    port_tech_of(port) + size_tech_of(size) + atmosphere_tech_of(atmosphere)
        + hydrographics_tech_of(hydrographics) + population_tech_of(population)
        + government_tech_of(government)
}

/// Looks up the modifier for the starport.
pub fn port_tech(port: &str) -> (modifier: i32)
    ensures
        modifier == port_tech_of(port@),
{
    if is_port(port, 'A') {
        6
    } else if is_port(port, 'B') {
        4
    } else if is_port(port, 'C') {
        2
    } else if is_port(port, 'F') {
        1
    } else if is_port(port, 'X') {
        -4
    } else {
        0
    }
}

/// Looks up the modifier for the size.
pub fn size_tech(size: i32) -> (modifier: i32)
    ensures
        modifier == size_tech_of(size as int),
{
    match size {
        0..=1 => 2,
        2..=4 => 1,
        _ => 0,
    }
}

/// Looks up the modifier for the atmosphere.
pub fn atmmosphere_tech(atmosphere: i32) -> (modifier: i32)
    ensures
        modifier == atmosphere_tech_of(atmosphere as int),
{
    match atmosphere {
        0..=3 | 10..=15 => 1,
        _ => 0,
    }
}

/// Looks up the modifier for the hydrographics.
pub fn hydrographics_tech(hydrographics: i32) -> (modifier: i32)
    ensures
        modifier == hydrographics_tech_of(hydrographics as int),
{
    match hydrographics {
        9 => 1,
        10 => 2,
        _ => 0,
    }
}

/// Looks up the modifier for the population.
pub fn population_tech(population: i32) -> (modifier: i32)
    ensures
        modifier == population_tech_of(population as int),
{
    match population {
        1..=5 => 1,
        9 => 2,
        10..=15 => 4,
        _ => 0,
    }
}

/// Looks up the modifier for the government.
pub fn government_tech(government: i32) -> (modifier: i32)
    ensures
        modifier == government_tech_of(government as int),
{
    match government {
        0 | 5 => 1,
        13 => -2,
        _ => 0,
    }
}

/// Computes the tech-level modifier of a world.
pub fn tech_mod(
    port: &str,
    size: i32,
    atmosphere: i32,
    hydrographics: i32,
    population: i32,
    government: i32,
) -> (modifier: i32)
    ensures
        modifier == tech_mod_of(
            port@,
            size as int,
            atmosphere as int,
            hydrographics as int,
            population as int,
            government as int,
        ),
        -6 <= modifier <= 16,
{
    port_tech(port) + size_tech(size) + atmmosphere_tech(atmosphere) + hydrographics_tech(
        hydrographics,
    ) + population_tech(population) + government_tech(government)
}

} // verus!
