//! The randomness source: dice that are rolled one at a time.
//!
//! A source is modelled as a state machine. In any state it is settled which face the
//! next die will show ([`Dice::die`]) and which state follows once that die has been
//! drawn ([`Dice::after_die`]). The two operations that the generators consume,
//! [`Rollable::roll`] and [`Rollable::flux`], are specified over that model, so that
//! whatever is generated from a source is a function of the faces it shows.
use vstd::prelude::*;

pub mod laws;
pub mod scripted;

verus! {

/// The mathematical model of a source of dice.
pub trait Dice: Sized {
    /// The face that the next die shows if it has `sides` faces.
    spec fn die(&self, sides: int) -> int;

    /// The source after one die with `sides` faces has been drawn from it.
    spec fn after_die(&self, sides: int) -> Self;

    /// A die shows one of its faces, numbered from 1 to `sides`.
    proof fn die_shows_a_face(&self, sides: int)
        requires
            sides >= 1,
        ensures
            1 <= self.die(sides) <= sides,
    ;
}

/// The two operations through which the generators draw from a source.
///
/// Each die that an operation draws advances the source by exactly one step, in the
/// order in which the dice are drawn.
pub trait Rollable: Dice {
    /// Draws `count` dice with `sides` faces each and returns their sum plus `modifier`.
    fn roll(&mut self, count: u32, sides: u32, modifier: i32) -> (total: i32)
        requires
            roll_fits(count, sides, modifier),
        ensures
            total == roll_of(*old(self), count as nat, sides as int, modifier as int),
            *final(self) == after_dice(*old(self), count as nat, sides as int),
    ;

    /// Draws two six-sided dice and returns the first minus the second, plus `modifier`.
    fn flux(&mut self, modifier: i32) -> (variance: i32)
        requires
            flux_fits(modifier),
        ensures
            variance == flux_of(*old(self), modifier as int),
            *final(self) == after_flux(*old(self)),
    ;
}

/// The source after `count` dice with `sides` faces have been drawn from it.
pub open spec fn after_dice<R: Dice>(source: R, count: nat, sides: int) -> R
    decreases count,
{
    if count == 0 {
        source
    } else {
        after_dice(source, (count - 1) as nat, sides).after_die(sides)
    }
}

/// The sum of the next `count` dice with `sides` faces.
pub open spec fn dice_sum<R: Dice>(source: R, count: nat, sides: int) -> int
    decreases count,
{
    if count == 0 {
        0
    } else {
        dice_sum(source, (count - 1) as nat, sides) + after_dice(
            source,
            (count - 1) as nat,
            sides,
        ).die(sides)
    }
}

/// What `roll(count, sides, modifier)` returns when called on `source`.
pub open spec fn roll_of<R: Dice>(source: R, count: nat, sides: int, modifier: int) -> int {
    dice_sum(source, count, sides) + modifier
}

/// What `flux(modifier)` returns when called on `source`.
pub open spec fn flux_of<R: Dice>(source: R, modifier: int) -> int {
    source.die(6) - source.after_die(6).die(6) + modifier
}

/// The source after one flux has been drawn from it.
pub open spec fn after_flux<R: Dice>(source: R) -> R {
    source.after_die(6).after_die(6)
}

/// The dice have faces, and the highest possible total fits the result type.
pub open spec fn roll_fits(count: u32, sides: u32, modifier: i32) -> bool {
    sides >= 1 && count * sides + modifier <= i32::MAX
}

/// Both ends of the range of a flux fit the result type.
pub open spec fn flux_fits(modifier: i32) -> bool {
    i32::MIN + 5 <= modifier <= i32::MAX - 5
}

/// The source after dice with these numbers of sides have been drawn from it, one after
/// the other.
pub open spec fn after_draws<R: Dice>(source: R, sides: Seq<int>) -> R
    decreases sides.len(),
{
    if sides.len() == 0 {
        source
    } else {
        after_draws(source, sides.drop_last()).after_die(sides.last())
    }
}

/// `count` dice with `sides` faces each, by their numbers of sides.
pub open spec fn dice_of(count: nat, sides: int) -> Seq<int> {
    Seq::new(count, |i: int| sides)
}

/// Whether two sources show the same face on every die, whatever dice are drawn from
/// both. The sources need not be of one type.
pub open spec fn same_dice<A: Dice, B: Dice>(a: A, b: B) -> bool {
    forall|drawn: Seq<int>, sides: int|
        #![trigger after_draws(a, drawn).die(sides)]
        #![trigger after_draws(b, drawn).die(sides)]
        after_draws(a, drawn).die(sides) == after_draws(b, drawn).die(sides)
}

} // verus!
