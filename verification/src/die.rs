//! One die and its life: thrown and in flight, then resolved for good.
//!
//! A die is in flight from the moment it is thrown. On the first tick on
//! which it is found at rest, the face that is uppermost is stored as its
//! value. From then on the value stays, whatever the die is seen to do,
//! until the die is destroyed by the next throw.

use crate::face::Face;
use crate::orientation::{uppermost, Orientation, Quat};
use crate::settle::{at_rest, is_at_rest};
use crate::vector::Vec3;
use vstd::prelude::*;

verus! {

/// A die on the table. Its value is `None` while it is in flight and the
/// face it shows once it has been resolved.
#[derive(Clone, Copy, Debug)]
pub struct Die {
    value: Option<Face>,
}

impl View for Die {
    type V = Option<Face>;

    closed spec fn view(&self) -> Option<Face> {
        self.value
    }
}

/// The value of a die after one tick on which it was seen with the given
/// rotation and velocity: a resolved die keeps its value, a die in flight
/// is resolved to its uppermost face if it is at rest, and stays in flight
/// if it is not.
pub open spec fn observed(value: Option<Face>, rotation: Quat, velocity: Vec3) -> Option<Face> {
    match value {
        Some(face) => Some(face),
        None => if at_rest(velocity) {
            Some(uppermost(rotation))
        } else {
            None
        },
    }
}

/// The value of a die after a run of ticks, on each of which it was seen
/// with one rotation and one velocity.
pub open spec fn observed_through(
    value: Option<Face>,
    sightings: Seq<(Quat, Vec3)>,
) -> Option<Face>
    decreases sightings.len(),
{
    if sightings.len() == 0 {
        value
    } else {
        let (rotation, velocity) = sightings.last();
        observed(observed_through(value, sightings.drop_last()), rotation, velocity)
    }
}

impl Die {
    /// A die that has just been thrown.
    pub fn new() -> (die: Die)
        ensures
            die@ is None,
    {
        Die { value: None }
    }

    /// The resolved value, or `None` while the die is in flight.
    pub fn value(&self) -> (value: Option<Face>)
        ensures
            value == self@,
    {
        self.value
    }

    /// Whether the die has been resolved.
    pub fn is_resolved(&self) -> (resolved: bool)
        ensures
            resolved == self@.is_some(),
    {
        self.value.is_some()
    }

    /// One tick of the die's life: the die is seen with `rotation` and
    /// `velocity`. Returns whether this tick resolved it.
    ///
    /// The uppermost face is looked for only on the tick that takes the die
    /// from in flight to resolved. A die that is resolved already is left
    /// as it is, even if it is at rest in another orientation.
    pub fn observe(&mut self, rotation: &Orientation, velocity: &Vec3) -> (resolved_now: bool)
        ensures
            final(self)@ == observed(old(self)@, rotation@, *velocity),
            resolved_now == (old(self)@ is None && at_rest(*velocity)),
    {
        if self.value.is_none() && is_at_rest(velocity) {
            self.value = Some(rotation.uppermost_face());
            true
        } else {
            false
        }
    }
}

impl Default for Die {
    /// A die that has just been thrown.
    fn default() -> (die: Die)
        ensures
            die@ is None,
    {
        Die { value: None }
    }
}

/// Once a die is resolved, no later tick changes its value: neither one
/// sighting nor any run of them, whatever rotations and velocities are
/// seen.
pub proof fn lemma_resolved_value_stays(face: Face, sightings: Seq<(Quat, Vec3)>)
    ensures
        observed_through(Some(face), sightings) == Some(face),
        forall|rotation: Quat, velocity: Vec3|
            #[trigger] observed(Some(face), rotation, velocity) == Some(face),
    decreases sightings.len(),
{
    if sightings.len() > 0 {
        lemma_resolved_value_stays(face, sightings.drop_last());
    }
}

} // verus!
