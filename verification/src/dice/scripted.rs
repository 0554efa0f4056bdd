//! Dice that replay a script.
use crate::dice::laws::lemma_dice_sum_bounds;
use crate::dice::{after_dice, after_draws, dice_sum, roll_fits, same_dice, Dice, Rollable};
use vstd::prelude::*;

verus! {

/// Dice that show the faces of a script, one after the other.
///
/// A scripted face that the die drawn does not have counts as its nearest face. Once the
/// script is used up, every die shows 1.
#[derive(Clone, Debug, PartialEq, Eq)]
pub struct ScriptedDice {
    /// The faces to show, in the order in which the dice are drawn.
    pub faces: Vec<u32>,
    /// How many faces of the script have been shown.
    pub drawn: usize,
}

/// The face of a die with `sides` faces that is nearest to `raw`.
pub open spec fn nearest_face(raw: u32, sides: int) -> int {
    if raw < 1 {
        1
    } else if raw > sides {
        sides
    } else {
        raw as int
    }
}

impl Dice for ScriptedDice {
    open spec fn die(&self, sides: int) -> int {
        if self.drawn < self.faces.len() {
            nearest_face(self.faces[self.drawn as int], sides)
        } else {
            1
        }
    }

    open spec fn after_die(&self, sides: int) -> Self {
        if self.drawn < self.faces.len() {
            ScriptedDice { faces: self.faces, drawn: (self.drawn + 1) as usize }
        } else {
            *self
        }
    }

    proof fn die_shows_a_face(&self, sides: int) {
    }
}

impl ScriptedDice {
    /// Dice that show `faces` from the first on.
    pub fn new(faces: Vec<u32>) -> (dice: ScriptedDice)
        ensures
            dice.faces == faces,
            dice.drawn == 0,
    {
        ScriptedDice { faces, drawn: 0 }
    }

    /// Draws one die with `sides` faces.
    pub fn draw(&mut self, sides: u32) -> (face: u32)
        requires
            sides >= 1,
        ensures
            face == old(self).die(sides as int),
            *final(self) == old(self).after_die(sides as int),
    {
        if self.drawn < self.faces.len() {
            let raw: u32 = self.faces[self.drawn];
            self.drawn = self.drawn + 1;
            if raw < 1 {
                1
            } else if raw > sides {
                sides
            } else {
                raw
            }
        } else {
            1
        }
    }
}

/// Drawing dice from a script leaves its faces as they are and moves on by one face for
/// each die, up to the end of the script.
pub proof fn lemma_script_after_draws(dice: ScriptedDice, sides: Seq<int>)
    ensures
        after_draws(dice, sides).faces == dice.faces,
        after_draws(dice, sides).drawn == if dice.drawn >= dice.faces.len() {
            dice.drawn as int
        } else if dice.drawn + sides.len() <= dice.faces.len() {
            dice.drawn + sides.len()
        } else {
            dice.faces.len() as int
        },
    decreases sides.len(),
{
    if sides.len() > 0 {
        lemma_script_after_draws(dice, sides.drop_last());
    }
}

/// Scripts that hold the same faces and stand at the same place show the same dice.
pub proof fn lemma_same_script_same_dice(a: ScriptedDice, b: ScriptedDice)
    requires
        a.faces@ == b.faces@,
        a.drawn == b.drawn,
    ensures
        same_dice(a, b),
{
    assert forall|drawn: Seq<int>, sides: int|
        after_draws(a, drawn).die(sides) == after_draws(b, drawn).die(sides) by {
        lemma_script_after_draws(a, drawn);
        lemma_script_after_draws(b, drawn);
    }
}

impl Rollable for ScriptedDice {
    fn roll(&mut self, count: u32, sides: u32, modifier: i32) -> (total: i32) {
        let ghost start = *self;
        let mut sum: i64 = 0;
        let mut thrown: u32 = 0;
        while thrown < count
            invariant
                thrown <= count,
                roll_fits(count, sides, modifier),
                sum == dice_sum(start, thrown as nat, sides as int),
                *self == after_dice(start, thrown as nat, sides as int),
            decreases count - thrown,
        {
            proof {
                lemma_dice_sum_bounds(start, (thrown + 1) as nat, sides as int);
                assert((thrown + 1) * sides <= count * sides) by (nonlinear_arith)
                    requires
                        thrown + 1 <= count,
                        sides >= 0,
                ;
            }
            let face: u32 = self.draw(sides);
            sum = sum + face as i64;
            thrown = thrown + 1;
        }
        proof {
            lemma_dice_sum_bounds(start, count as nat, sides as int);
        }
        (sum + modifier as i64) as i32
    }

    fn flux(&mut self, modifier: i32) -> (variance: i32) {
        proof {
            self.die_shows_a_face(6);
            self.after_die(6).die_shows_a_face(6);
        }
        let first: u32 = self.draw(6);
        let second: u32 = self.draw(6);
        first as i32 - second as i32 + modifier
    }
}

} // verus!
