use sysgen::dice::scripted::ScriptedDice;
use sysgen::generators::worldgen::generate_mainworld;
use sysgen::generators::{
    belt_count, gas_giant_count, generate_system, DEFAULT_HABITABLE_ZONE, DEFAULT_HZ_VARIANCE,
};
use sysgen::world::{Base, MainWorldType, System, TravelZone, World};

#[test]
fn belts_are_the_roll_or_none() {
    assert_eq!(belt_count(-2), 0);
    assert_eq!(belt_count(-1), 0);
    assert_eq!(belt_count(0), 0);
    assert_eq!(belt_count(1), 1);
    assert_eq!(belt_count(2), 2);
    assert_eq!(belt_count(3), 3);
    assert_eq!(belt_count(i32::MIN), 0);
    assert_eq!(belt_count(i32::MAX), i32::MAX);
}

#[test]
fn gas_giants_by_roll() {
    let expected = [0, 0, 0, 1, 1, 2, 2, 3, 3, 4, 4];
    for (at, gas_giants) in expected.iter().enumerate() {
        assert_eq!(gas_giant_count(at as i32 + 2), *gas_giants);
    }
    assert_eq!(gas_giant_count(0), 0);
    assert_eq!(gas_giant_count(-7), 0);
    assert_eq!(gas_giant_count(i32::MIN), 0);
    assert_eq!(gas_giant_count(i32::MAX), 1073741822);
}

#[test]
fn gas_giants_are_half_the_roll_less_two_rounded() {
    for roll in -20..=200 {
        let rounded = ((roll as f32 / 2.0) - 2.0).round().max(0.0) as i32;
        assert_eq!(gas_giant_count(roll), rounded);
    }
}

fn all_ones_world() -> World {
    World {
        mainworld_type: MainWorldType::Planet,
        hz_variance: 0,
        orbit: 1,
        port: String::from("A"),
        bases: vec![Base::Naval, Base::Scout],
        size: 0,
        atmosphere: 0,
        hydrographics: 0,
        population: 0,
        population_digit: 0,
        government: 0,
        law: 0,
        tech: 11,
        travel_zone: TravelZone::Green,
    }
}

fn system_script(belts: u32, gas_giants: [u32; 2]) -> Vec<u32> {
    let mut script = vec![1; 17];
    script.push(belts);
    script.extend(gas_giants);
    script
}

#[test]
fn a_low_die_gives_no_belts() {
    for die in [1, 2, 3] {
        let mut dice = ScriptedDice::new(system_script(die, [3, 4]));
        let system = generate_system(&mut dice, vec!['G']);
        assert_eq!(system.belts, 0);
        assert_eq!(dice.drawn, 20);
    }
}

#[test]
fn a_six_gives_three_belts() {
    let mut dice = ScriptedDice::new(system_script(6, [3, 4]));
    let system = generate_system(&mut dice, vec!['G']);
    assert_eq!(system.belts, 3);
    let mut dice = ScriptedDice::new(system_script(5, [3, 4]));
    assert_eq!(generate_system(&mut dice, vec!['G']).belts, 2);
    let mut dice = ScriptedDice::new(system_script(4, [3, 4]));
    assert_eq!(generate_system(&mut dice, vec!['G']).belts, 1);
}

#[test]
fn gas_giants_follow_the_two_dice() {
    for first in 1..=6u32 {
        for second in 1..=6u32 {
            let mut dice = ScriptedDice::new(system_script(1, [first, second]));
            let system = generate_system(&mut dice, Vec::<u8>::new());
            let roll = (first + second) as i32;
            assert_eq!(system.gas_giants, gas_giant_count(roll));
            assert_eq!(system.gas_giants, if roll <= 4 { 0 } else { (roll - 3) / 2 });
        }
    }
}

#[test]
fn a_scripted_system() {
    let mut dice = ScriptedDice::new(system_script(5, [6, 3]));
    let system = generate_system(&mut dice, vec!["K5 V", "M2 V"]);
    assert_eq!(
        system,
        System { stars: vec!["K5 V", "M2 V"], mainworld: all_ones_world(), belts: 2, gas_giants: 3 }
    );
    assert_eq!(dice.drawn, 20);
}

#[test]
fn the_mainworld_of_a_system_is_generated_with_the_default_zone() {
    let script = vec![
        4, 2, 1, 4, 1, 2, 3, 3, 2, 3, 4, 4, 5, 3, 2, 5, 5, 4, 9, 1, 6, 6, 1, 3, 5, 6, 5,
    ];
    let mut alone = ScriptedDice::new(script.clone());
    let world = generate_mainworld(&mut alone, DEFAULT_HZ_VARIANCE, DEFAULT_HABITABLE_ZONE);
    assert_eq!(alone.drawn, 24);
    assert_eq!(world.orbit, 0);
    assert_eq!(world.mainworld_type, MainWorldType::CloseSatellite(8));

    let mut dice = ScriptedDice::new(script);
    let system = generate_system(&mut dice, Vec::<u8>::new());
    assert_eq!(system.mainworld, world);
    assert_eq!(system.belts, 2);
    assert_eq!(system.gas_giants, 4);
    assert_eq!(dice.drawn, 27);
}

#[test]
fn a_system_draws_three_dice_after_its_mainworld() {
    let mut state: u64 = 7;
    for _ in 0..500 {
        let script: Vec<u32> = (0..32)
            .map(|_| {
                state = state.wrapping_mul(6364136223846793005).wrapping_add(1442695040888963407);
                ((state >> 33) % 6) as u32 + 1
            })
            .collect();
        let mut alone = ScriptedDice::new(script.clone());
        let world = generate_mainworld(&mut alone, DEFAULT_HZ_VARIANCE, DEFAULT_HABITABLE_ZONE);
        let mut dice = ScriptedDice::new(script.clone());
        let system = generate_system(&mut dice, Vec::<u8>::new());
        assert_eq!(system.mainworld, world);
        assert_eq!(dice.drawn, alone.drawn + 3);
        assert!((20..=30).contains(&dice.drawn));
        assert_eq!(system.belts, (script[alone.drawn] as i32 - 3).max(0));
        let roll = (script[alone.drawn + 1] + script[alone.drawn + 2]) as i32;
        assert_eq!(system.gas_giants, gas_giant_count(roll));
        assert!((0..=3).contains(&system.belts));
        assert!((0..=4).contains(&system.gas_giants));
    }
}

#[test]
fn the_stars_are_handed_through() {
    let stars = vec![(1u8, 'a'), (2, 'b'), (3, 'c')];
    let mut dice = ScriptedDice::new(Vec::new());
    let system = generate_system(&mut dice, stars.clone());
    assert_eq!(system.stars, stars);
    assert_eq!(system.mainworld, all_ones_world());
    assert_eq!(system.belts, 0);
    assert_eq!(system.gas_giants, 0);
}

#[test]
fn the_same_script_gives_the_same_system() {
    let mut first = ScriptedDice::new(system_script(6, [6, 6]));
    let mut second = ScriptedDice::new(system_script(6, [6, 6]));
    let one = generate_system(&mut first, vec![7u8]);
    let other = generate_system(&mut second, vec![7u8]);
    assert_eq!(one, other);
    assert_eq!(one.gas_giants, 4);
    assert_eq!(first, second);
}
