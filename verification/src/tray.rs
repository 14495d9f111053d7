//! The dice that are on the table, all of them, in the order in which they
//! were created.
//!
//! A throw is the only thing that creates or destroys dice: it removes
//! every die there is and puts five new ones in their place. Between
//! throws, ticks resolve dice one by one as they come to rest. A die is
//! known by its handle, its place in the throw that made it, which stays
//! good until the next throw.

use crate::die::{observed, Die};
use crate::display::{lemma_summary_of_five, summary, summary_text, token, SEPARATOR};
use crate::face::Face;
use crate::orientation::Orientation;
use crate::settle::at_rest;
use crate::throw::{draw_batch, is_throw_batch, Spawn, DICE_PER_THROW};
use crate::vector::Vec3;
use vstd::prelude::*;

verus! {

/// What the physics engine reports of one die on one tick.
#[derive(Clone, Copy, Debug)]
pub struct Reading {
    /// The handle of the die.
    pub handle: usize,
    /// Its rotation.
    pub rotation: Orientation,
    /// Its linear velocity.
    pub velocity: Vec3,
}

/// The dice on the table.
pub struct Tray {
    dice: Vec<Die>,
}

impl View for Tray {
    type V = Seq<Option<Face>>;

    /// The values of the dice, in the order of their handles.
    closed spec fn view(&self) -> Seq<Option<Face>> {
        Seq::new(self.dice@.len(), |i: int| self.dice@[i]@)
    }
}

/// The values of the dice right after a throw: five dice, all in flight.
pub open spec fn just_thrown() -> Seq<Option<Face>> {
    Seq::new(DICE_PER_THROW as nat, |i: int| None::<Face>)
}

/// The values after one reading was taken in: the die that the reading
/// names has lived one tick, and the others are as they were. A reading
/// that names no die on the table changes nothing.
pub open spec fn after_reading(values: Seq<Option<Face>>, reading: Reading) -> Seq<Option<Face>> {
    if reading.handle < values.len() {
        values.update(
            reading.handle as int,
            observed(values[reading.handle as int], reading.rotation@, reading.velocity),
        )
    } else {
        values
    }
}

/// The values after a run of readings was taken in, one after the other.
pub open spec fn after_readings(
    values: Seq<Option<Face>>,
    readings: Seq<Reading>,
) -> Seq<Option<Face>>
    decreases readings.len(),
{
    if readings.len() == 0 {
        values
    } else {
        after_reading(after_readings(values, readings.drop_last()), readings.last())
    }
}

impl Tray {
    /// A table with no dice on it.
    pub fn new() -> (tray: Tray)
        ensures
            tray@.len() == 0,
    {
        Tray { dice: Vec::new() }
    }

    /// How many dice are on the table.
    pub fn len(&self) -> (n: usize)
        ensures
            n == self@.len(),
    {
        self.dice.len()
    }

    /// The value of the die with the given handle: `None` where no die has
    /// that handle, `Some(None)` for a die in flight, and the face inside
    /// for a resolved one.
    pub fn value(&self, handle: usize) -> (value: Option<Option<Face>>)
        ensures
            handle < self@.len() ==> value == Some(self@[handle as int]),
            handle >= self@.len() ==> value is None,
    {
        if handle < self.dice.len() {
            Some(self.dice[handle].value())
        } else {
            None
        }
    }

    /// The values of all dice, in the order of their handles.
    pub fn values(&self) -> (values: Vec<Option<Face>>)
        ensures
            values@ == self@,
    {
        let mut values: Vec<Option<Face>> = Vec::new();
        let mut i: usize = 0;
        while i < self.dice.len()
            invariant
                i <= self.dice@.len(),
                values@.len() == i,
                forall|j: int| 0 <= j < i ==> values@[j] == self.dice@[j]@,
            decreases self.dice@.len() - i,
        {
            values.push(self.dice[i].value());
            i += 1;
        }
        assert(values@ =~= self@);
        values
    }

    /// Puts the dice of a throw on the table: every die that was there is
    /// removed, whatever its state and however many there were, and one die
    /// in flight is created for each request of `batch`, in order.
    fn replace_with(&mut self, batch: &Vec<Spawn>)
        ensures
            final(self)@.len() == batch@.len(),
            forall|i: int| 0 <= i < batch@.len() ==> final(self)@[i] is None,
    {
        let mut dice: Vec<Die> = Vec::new();
        let mut i: usize = 0;
        while i < batch.len()
            invariant
                i <= batch@.len(),
                dice@.len() == i,
                forall|j: int| 0 <= j < i ==> dice@[j]@ is None,
            decreases batch@.len() - i,
        {
            dice.push(Die::new());
            i += 1;
        }
        self.dice = dice;
    }

    /// A throw. Every die on the table is removed and five new dice take
    /// their place, all in flight. The batch that is returned tells the
    /// physics engine where each new die starts and which impulses it is
    /// given; request `i` belongs to the die with handle `i`.
    pub fn throw_dice(&mut self) -> (batch: Vec<Spawn>)
        ensures
            final(self)@ == just_thrown(),
            is_throw_batch(batch@),
    {
        let batch = draw_batch();
        self.replace_with(&batch);
        assert(self@ =~= just_thrown());
        batch
    }

    /// What the roll control does on one tick. `released` says whether the
    /// control was let go on this tick; a control that is held down, or left
    /// alone, is not. Only a release throws the dice.
    pub fn on_roll_input(&mut self, released: bool) -> (batch: Option<Vec<Spawn>>)
        ensures
            released ==> final(self)@ == just_thrown(),
            released ==> (batch matches Some(spawns) && is_throw_batch(spawns@)),
            !released ==> final(self)@ == old(self)@ && batch is None,
    {
        if released {
            Some(self.throw_dice())
        } else {
            None
        }
    }

    /// Takes in one reading: the die that it names lives one tick. Returns
    /// whether that tick resolved the die.
    pub fn observe(&mut self, reading: &Reading) -> (resolved_now: bool)
        ensures
            final(self)@ == after_reading(old(self)@, *reading),
            resolved_now == (reading.handle < old(self)@.len() && old(self)@[reading.handle as int]
                is None && at_rest(reading.velocity)),
    {
        if reading.handle < self.dice.len() {
            let mut die: Die = self.dice[reading.handle];
            let resolved_now = die.observe(&reading.rotation, &reading.velocity);
            self.dice.set(reading.handle, die);
            assert(self@ =~= after_reading(old(self)@, *reading));
            resolved_now
        } else {
            false
        }
    }

    /// One tick of the table: takes in the readings of the tick, one after
    /// the other.
    pub fn find_rolled_values(&mut self, readings: &Vec<Reading>)
        ensures
            final(self)@ == after_readings(old(self)@, readings@),
    {
        let mut i: usize = 0;
        while i < readings.len()
            invariant
                i <= readings@.len(),
                self@ == after_readings(old(self)@, readings@.take(i as int)),
            decreases readings@.len() - i,
        {
            self.observe(&readings[i]);
            proof {
                assert(readings@.take(i + 1).drop_last() =~= readings@.take(i as int));
                assert(readings@.take(i + 1).last() == readings@[i as int]);
            }
            i += 1;
        }
        assert(readings@.take(readings@.len() as int) =~= readings@);
    }

    /// The line of text that shows the dice on the table.
    pub fn summary(&self) -> (text: String)
        ensures
            text@ == summary_text(self@),
    {
        let values = self.values();
        summary(&values)
    }
}

/// Readings neither create nor destroy dice, and a die that is resolved
/// keeps its value through every reading that is taken in, whatever the
/// reading says of it.
pub proof fn lemma_readings_keep_resolved(values: Seq<Option<Face>>, readings: Seq<Reading>)
    ensures
        after_readings(values, readings).len() == values.len(),
        forall|i: int|
            0 <= i < values.len() && values[i] is Some ==> #[trigger] after_readings(
                values,
                readings,
            )[i] == values[i],
    decreases readings.len(),
{
    if readings.len() > 0 {
        lemma_readings_keep_resolved(values, readings.drop_last());
    }
}

/// A reading that finds a die at rest leaves it resolved, at the latest
/// from then on: after the whole run of readings the die has a value.
pub proof fn lemma_reading_at_rest_resolves(
    values: Seq<Option<Face>>,
    readings: Seq<Reading>,
    k: int,
)
    requires
        0 <= k < readings.len(),
        readings[k].handle < values.len(),
        at_rest(readings[k].velocity),
    ensures
        after_readings(values, readings)[readings[k].handle as int] is Some,
    decreases readings.len(),
{
    let earlier = readings.drop_last();
    lemma_readings_keep_resolved(values, earlier);
    if k < readings.len() - 1 {
        lemma_reading_at_rest_resolves(values, earlier, k);
    }
}

/// Whether some reading of the run finds the die with the given handle at
/// rest.
pub open spec fn seen_at_rest(readings: Seq<Reading>, handle: int) -> bool {
    exists|k: int|
        0 <= k < readings.len() && (#[trigger] readings[k]).handle == handle && at_rest(
            readings[k].velocity,
        )
}

/// From a throw to the text. Whatever readings follow a throw, the table
/// holds five dice, and its text is nine characters: the tokens of the five
/// dice in the order in which they were created, each the placeholder or a
/// numeral from 1 to 6, with single spaces between them. If each of the
/// five dice was found at rest by some reading, every token is a numeral.
pub proof fn lemma_throw_to_text(readings: Seq<Reading>)
    ensures
        ({
            let values = after_readings(just_thrown(), readings);
            let text = summary_text(values);
            &&& values.len() == DICE_PER_THROW
            &&& text.len() == 2 * DICE_PER_THROW - 1
            &&& forall|i: int| 0 <= i < DICE_PER_THROW ==> #[trigger] text[2 * i] == token(values[i])
            &&& forall|i: int| 0 <= i < DICE_PER_THROW - 1 ==> #[trigger] text[2 * i + 1] == SEPARATOR
            &&& (forall|handle: int|
                0 <= handle < DICE_PER_THROW ==> #[trigger] seen_at_rest(readings, handle))
                ==> forall|i: int| 0 <= i < DICE_PER_THROW ==> #[trigger] values[i] is Some
        }),
{
    let values = after_readings(just_thrown(), readings);
    lemma_readings_keep_resolved(just_thrown(), readings);
    lemma_summary_of_five(values);
    if forall|handle: int|
        0 <= handle < DICE_PER_THROW ==> #[trigger] seen_at_rest(readings, handle) {
        assert forall|i: int| 0 <= i < DICE_PER_THROW implies #[trigger] values[i] is Some by {
            assert(seen_at_rest(readings, i));
            let k = choose|k: int|
                0 <= k < readings.len() && (#[trigger] readings[k]).handle == i && at_rest(
                    readings[k].velocity,
                );
            lemma_reading_at_rest_resolves(just_thrown(), readings, k);
        }
    }
}

} // verus!
