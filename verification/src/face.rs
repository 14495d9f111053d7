//! The six faces of a die and the table of their outward normals.

use vstd::prelude::*;

verus! {

/// How many faces a die has.
pub const FACES: usize = 6;

/// A direction in the die's own, unrotated frame, with whole-number
/// components. The `y` axis points up.
#[derive(Clone, Copy, Debug, PartialEq, Eq, Structural)]
pub struct Normal {
    pub x: i8,
    pub y: i8,
    pub z: i8,
}

/// A direction with unbounded components: the mathematical value of a
/// [`Normal`].
pub struct Direction {
    pub x: int,
    pub y: int,
    pub z: int,
}

impl View for Normal {
    type V = Direction;

    open spec fn view(&self) -> Direction {
        Direction { x: self.x as int, y: self.y as int, z: self.z as int }
    }
}

/// One face of a six-sided die, named by the numeral printed on it.
#[derive(Clone, Copy, Debug, PartialEq, Eq, Structural)]
pub enum Face {
    One,
    Two,
    Three,
    Four,
    Five,
    Six,
}

impl Face {
    /// The place of the face in the table of normals, counted from zero.
    pub open spec fn spec_index(self) -> usize {
        match self {
            Face::One => 0,
            Face::Two => 1,
            Face::Three => 2,
            Face::Four => 3,
            Face::Five => 4,
            Face::Six => 5,
        }
    }

    /// The numeral on the face: its place in the table, counted from one.
    pub open spec fn spec_number(self) -> u8 {
        (self.spec_index() + 1) as u8
    }

    /// The face at place `i` of the table. Places outside `0..6` are given
    /// the last face, so that the function is total.
    pub open spec fn at(i: int) -> Face {
        if i == 0 {
            Face::One
        } else if i == 1 {
            Face::Two
        } else if i == 2 {
            Face::Three
        } else if i == 3 {
            Face::Four
        } else if i == 4 {
            Face::Five
        } else {
            Face::Six
        }
    }

    /// The outward normal of the face in the die's own frame: the fixed
    /// table that ties the numerals to the geometry of the die.
    pub open spec fn spec_normal(self) -> Normal {
        match self {
            Face::One => Normal { x: 1, y: 0, z: 0 },
            Face::Two => Normal { x: 0, y: -1i8, z: 0 },
            Face::Three => Normal { x: 0, y: 0, z: 1 },
            Face::Four => Normal { x: 0, y: 0, z: -1i8 },
            Face::Five => Normal { x: 0, y: 1, z: 0 },
            Face::Six => Normal { x: -1i8, y: 0, z: 0 },
        }
    }

    /// The place of the face in the table of normals, counted from zero.
    #[verifier::when_used_as_spec(spec_index)]
    pub fn index(self) -> (i: usize)
        ensures
            i == self.spec_index(),
            i < FACES,
    {
        match self {
            Face::One => 0,
            Face::Two => 1,
            Face::Three => 2,
            Face::Four => 3,
            Face::Five => 4,
            Face::Six => 5,
        }
    }

    /// The numeral on the face, from 1 to 6.
    #[verifier::when_used_as_spec(spec_number)]
    pub fn number(self) -> (n: u8)
        ensures
            n == self.spec_number(),
            1 <= n <= 6,
    {
        match self {
            Face::One => 1,
            Face::Two => 2,
            Face::Three => 3,
            Face::Four => 4,
            Face::Five => 5,
            Face::Six => 6,
        }
    }

    /// The face at place `i` of the table, if there is one.
    pub fn from_index(i: usize) -> (face: Option<Face>)
        ensures
            i < FACES <==> face is Some,
            i < FACES ==> face == Some(Face::at(i as int)),
            face matches Some(f) ==> f.spec_index() == i,
    {
        if i == 0 {
            Some(Face::One)
        } else if i == 1 {
            Some(Face::Two)
        } else if i == 2 {
            Some(Face::Three)
        } else if i == 3 {
            Some(Face::Four)
        } else if i == 4 {
            Some(Face::Five)
        } else if i == 5 {
            Some(Face::Six)
        } else {
            None
        }
    }

    /// The face that shows the numeral `n`, if there is one.
    pub fn from_number(n: u8) -> (face: Option<Face>)
        ensures
            1 <= n <= 6 <==> face is Some,
            1 <= n <= 6 ==> face == Some(Face::at(n - 1)),
            face matches Some(f) ==> f.spec_number() == n,
    {
        if n == 0 {
            None
        } else {
            Face::from_index((n - 1) as usize)
        }
    }

    /// The outward normal of the face in the die's own frame.
    #[verifier::when_used_as_spec(spec_normal)]
    pub fn normal(self) -> (n: Normal)
        ensures
            n == self.spec_normal(),
    {
        match self {
            Face::One => Normal { x: 1, y: 0, z: 0 },
            Face::Two => Normal { x: 0, y: -1, z: 0 },
            Face::Three => Normal { x: 0, y: 0, z: 1 },
            Face::Four => Normal { x: 0, y: 0, z: -1 },
            Face::Five => Normal { x: 0, y: 1, z: 0 },
            Face::Six => Normal { x: -1, y: 0, z: 0 },
        }
    }
}

} // verus!
