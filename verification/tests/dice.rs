use sysgen::dice::scripted::ScriptedDice;
use sysgen::dice::Rollable;

#[test]
fn roll_sums_the_dice_and_adds_the_modifier() {
    let mut dice = ScriptedDice::new(vec![3, 5, 2]);
    assert_eq!(dice.roll(2, 6, -2), 6);
    assert_eq!(dice.drawn, 2);
    assert_eq!(dice.roll(1, 6, 9), 11);
    assert_eq!(dice.drawn, 3);
}

#[test]
fn roll_of_no_dice_is_the_modifier() {
    let mut dice = ScriptedDice::new(vec![3, 5, 2]);
    assert_eq!(dice.roll(0, 6, 7), 7);
    assert_eq!(dice.drawn, 0);
    assert_eq!(dice.faces, vec![3, 5, 2]);
}

#[test]
fn flux_is_the_first_die_less_the_second() {
    let mut dice = ScriptedDice::new(vec![1, 4, 6, 1]);
    assert_eq!(dice.flux(0), -3);
    assert_eq!(dice.drawn, 2);
    assert_eq!(dice.flux(10), 15);
    assert_eq!(dice.drawn, 4);
}

#[test]
fn flux_ranges_from_five_below_to_five_above() {
    let mut low = ScriptedDice::new(vec![1, 6]);
    assert_eq!(low.flux(3), -2);
    let mut high = ScriptedDice::new(vec![6, 1]);
    assert_eq!(high.flux(3), 8);
}

#[test]
fn flux_equals_two_single_rolls() {
    let mut by_flux = ScriptedDice::new(vec![2, 5]);
    let mut by_rolls = ScriptedDice::new(vec![2, 5]);
    let variance = by_flux.flux(4);
    let first = by_rolls.roll(1, 6, 0);
    let second = by_rolls.roll(1, 6, 0);
    assert_eq!(variance, first - second + 4);
    assert_eq!(by_flux, by_rolls);
}

#[test]
fn a_face_off_the_die_counts_as_the_nearest() {
    let mut dice = ScriptedDice::new(vec![0, 9, 9, 6]);
    assert_eq!(dice.draw(6), 1);
    assert_eq!(dice.draw(6), 6);
    assert_eq!(dice.draw(9), 9);
    assert_eq!(dice.draw(4), 4);
}

#[test]
fn a_finished_script_shows_ones() {
    let mut dice = ScriptedDice::new(vec![4]);
    assert_eq!(dice.roll(3, 6, 0), 6);
    assert_eq!(dice.drawn, 1);
    assert_eq!(dice.flux(0), 0);
    assert_eq!(dice.drawn, 1);
    let mut empty = ScriptedDice::new(Vec::new());
    assert_eq!(empty.roll(2, 6, -2), 0);
    assert_eq!(empty.drawn, 0);
}

#[test]
fn roll_stays_within_its_bounds() {
    for first in 0..=8u32 {
        for second in 0..=8u32 {
            let mut dice = ScriptedDice::new(vec![first, second]);
            let total = dice.roll(2, 6, -2);
            assert!((0..=10).contains(&total));
        }
    }
}

#[test]
fn roll_up_to_the_largest_total() {
    let mut dice = ScriptedDice::new(vec![6, 6]);
    assert_eq!(dice.roll(2, 6, i32::MAX - 12), i32::MAX);
    let mut low = ScriptedDice::new(vec![1]);
    assert_eq!(low.roll(1, 6, i32::MIN), i32::MIN + 1);
}
