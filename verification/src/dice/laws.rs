//! What holds of every source of dice.
use crate::dice::{
    after_dice, after_draws, after_flux, dice_of, dice_sum, flux_of, roll_of, same_dice, Dice,
};
use vstd::prelude::*;

verus! {

/// The sum of `count` dice lies between `count` and `count * sides`.
pub proof fn lemma_dice_sum_bounds<R: Dice>(source: R, count: nat, sides: int)
    requires
        sides >= 1,
    ensures
        count <= dice_sum(source, count, sides) <= count * sides,
    decreases count,
{
    if count > 0 {
        let before = (count - 1) as nat;
        lemma_dice_sum_bounds(source, before, sides);
        after_dice(source, before, sides).die_shows_a_face(sides);
        assert(before * sides + sides == count * sides) by (nonlinear_arith)
            requires
                before + 1 == count,
        ;
    }
}

/// A roll lies between `count + modifier` and `count * sides + modifier`.
pub proof fn lemma_roll_bounds<R: Dice>(source: R, count: nat, sides: int, modifier: int)
    requires
        sides >= 1,
    ensures
        count + modifier <= roll_of(source, count, sides, modifier) <= count * sides + modifier,
{
    lemma_dice_sum_bounds(source, count, sides);
}

/// A roll of one die is that die plus the modifier, and a roll of two is their sum
/// plus the modifier.
pub proof fn lemma_roll_of_one_or_two<R: Dice>(source: R, sides: int, modifier: int)
    ensures
        roll_of(source, 1, sides, modifier) == source.die(sides) + modifier,
        after_dice(source, 1, sides) == source.after_die(sides),
        roll_of(source, 2, sides, modifier) == source.die(sides) + source.after_die(sides).die(
            sides,
        ) + modifier,
        after_dice(source, 2, sides) == source.after_die(sides).after_die(sides),
{
    reveal_with_fuel(after_dice, 3);
    reveal_with_fuel(dice_sum, 3);
}

/// A flux lies within five of its modifier.
pub proof fn lemma_flux_bounds<R: Dice>(source: R, modifier: int)
    ensures
        modifier - 5 <= flux_of(source, modifier) <= modifier + 5,
{
    source.die_shows_a_face(6);
    source.after_die(6).die_shows_a_face(6);
}

/// A flux is one roll of a six-sided die minus the next such roll, plus the modifier,
/// and it advances the source as those two rolls do.
pub proof fn lemma_flux_is_two_rolls<R: Dice>(source: R, modifier: int)
    ensures
        flux_of(source, modifier) == roll_of(source, 1, 6, 0) - roll_of(
            after_dice(source, 1, 6),
            1,
            6,
            0,
        ) + modifier,
        after_flux(source) == after_dice(after_dice(source, 1, 6), 1, 6),
        after_flux(source) == after_dice(source, 2, 6),
{
    lemma_roll_of_one_or_two(source, 6, 0);
    lemma_roll_of_one_or_two(source.after_die(6), 6, 0);
}

/// Drawing one sequence of dice and then another is drawing the two on end.
pub proof fn lemma_after_draws_append<R: Dice>(source: R, first: Seq<int>, then: Seq<int>)
    ensures
        after_draws(after_draws(source, first), then) == after_draws(source, first + then),
    decreases then.len(),
{
    if then.len() == 0 {
        assert(first + then =~= first);
    } else {
        lemma_after_draws_append(source, first, then.drop_last());
        assert((first + then).drop_last() =~= first + then.drop_last());
    }
}

/// Drawing `count` dice with `sides` faces is drawing the sequence of that length that
/// holds `sides` throughout.
pub proof fn lemma_after_dice_is_after_draws<R: Dice>(source: R, count: nat, sides: int)
    ensures
        after_dice(source, count, sides) == after_draws(source, dice_of(count, sides)),
    decreases count,
{
    if count > 0 {
        let before = (count - 1) as nat;
        lemma_after_dice_is_after_draws(source, before, sides);
        assert(dice_of(count, sides).drop_last() =~= dice_of(before, sides));
    }
}

/// A roll after a sequence of draws leaves the source where the sequence with the
/// rolled dice on its end leaves it, and a flux does as a roll of two six-sided dice.
pub proof fn lemma_roll_after_draws<R: Dice>(source: R, dice: Seq<int>, count: nat, sides: int)
    ensures
        after_dice(after_draws(source, dice), count, sides) == after_draws(
            source,
            dice + dice_of(count, sides),
        ),
        after_flux(after_draws(source, dice)) == after_draws(source, dice + dice_of(2, 6)),
{
    let now = after_draws(source, dice);
    lemma_after_dice_is_after_draws(now, count, sides);
    lemma_after_draws_append(source, dice, dice_of(count, sides));
    lemma_flux_is_two_rolls(now, 0);
    lemma_after_dice_is_after_draws(now, 2, 6);
    lemma_after_draws_append(source, dice, dice_of(2, 6));
}

/// Drawing a die and then a sequence of dice is drawing the sequence that begins with
/// that die.
pub proof fn lemma_after_draws_prepend<R: Dice>(source: R, first: int, rest: Seq<int>)
    ensures
        after_draws(source.after_die(first), rest) == after_draws(source, seq![first] + rest),
    decreases rest.len(),
{
    let all = seq![first] + rest;
    if rest.len() == 0 {
        assert(all.drop_last() =~= Seq::<int>::empty());
        assert(after_draws(source, all.drop_last()) == source);
    } else {
        lemma_after_draws_prepend(source, first, rest.drop_last());
        assert(all.drop_last() =~= seq![first] + rest.drop_last());
    }
}

/// Sources that show the same dice show the same next die, and still show the same
/// dice once it is drawn.
pub proof fn lemma_same_dice_step<A: Dice, B: Dice>(a: A, b: B, sides: int)
    requires
        same_dice(a, b),
    ensures
        a.die(sides) == b.die(sides),
        same_dice(a.after_die(sides), b.after_die(sides)),
{
    let none = Seq::<int>::empty();
    assert(after_draws(a, none).die(sides) == after_draws(b, none).die(sides));
    assert forall|drawn: Seq<int>, next: int|
        after_draws(a.after_die(sides), drawn).die(next) == after_draws(
            b.after_die(sides),
            drawn,
        ).die(next) by {
        lemma_after_draws_prepend(a, sides, drawn);
        lemma_after_draws_prepend(b, sides, drawn);
        let all = seq![sides] + drawn;
        assert(after_draws(a, all).die(next) == after_draws(b, all).die(next));
    }
}

/// Sources that show the same dice give the same sum of dice, and still show the same
/// dice once these are drawn.
pub proof fn lemma_same_dice_sum<A: Dice, B: Dice>(a: A, b: B, count: nat, sides: int)
    requires
        same_dice(a, b),
    ensures
        dice_sum(a, count, sides) == dice_sum(b, count, sides),
        same_dice(after_dice(a, count, sides), after_dice(b, count, sides)),
    decreases count,
{
    if count > 0 {
        let before = (count - 1) as nat;
        lemma_same_dice_sum(a, b, before, sides);
        lemma_same_dice_step(after_dice(a, before, sides), after_dice(b, before, sides), sides);
    }
}

/// Sources that show the same dice give the same roll, and still show the same dice
/// after it.
pub proof fn lemma_same_dice_roll<A: Dice, B: Dice>(
    a: A,
    b: B,
    count: nat,
    sides: int,
    modifier: int,
)
    requires
        same_dice(a, b),
    ensures
        roll_of(a, count, sides, modifier) == roll_of(b, count, sides, modifier),
        same_dice(after_dice(a, count, sides), after_dice(b, count, sides)),
{
    lemma_same_dice_sum(a, b, count, sides);
}

/// Sources that show the same dice give the same flux, and still show the same dice
/// after it.
pub proof fn lemma_same_dice_flux<A: Dice, B: Dice>(a: A, b: B, modifier: int)
    requires
        same_dice(a, b),
    ensures
        flux_of(a, modifier) == flux_of(b, modifier),
        same_dice(after_flux(a), after_flux(b)),
{
    lemma_same_dice_step(a, b, 6);
    lemma_same_dice_step(a.after_die(6), b.after_die(6), 6);
}

} // verus!
