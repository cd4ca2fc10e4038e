//! The facing of the planar aircraft: a machine of two states.
use vstd::prelude::*;

verus! {

/// Which way the aircraft faces along the horizontal axis.
#[derive(Clone, Copy, Debug, PartialEq, Eq, Structural)]
pub enum Direction {
    LeftFacing,
    RightFacing,
}

impl Direction {
    /// The sign that scales horizontal motion: minus one facing left, plus
    /// one facing right.
    pub open spec fn sign(self) -> int {
        match self {
            Direction::LeftFacing => -1,
            Direction::RightFacing => 1,
        }
    }

    /// The other facing.
    pub open spec fn opposite(self) -> Direction {
        match self {
            Direction::LeftFacing => Direction::RightFacing,
            Direction::RightFacing => Direction::LeftFacing,
        }
    }

    /// The facing after one key was looked at: a held key that points away
    /// from the facing flips it, anything else leaves it.
    pub open spec fn after_key(self, toward: Direction, held: bool) -> Direction {
        if held && self != toward {
            toward
        } else {
            self
        }
    }

    /// Whether looking at one key flips the facing.
    pub open spec fn flips_on(self, toward: Direction, held: bool) -> bool {
        held && self != toward
    }

    /// Looks at one key. Returns the facing afterwards and whether it flipped.
    pub fn turn_toward(self, toward: Direction, held: bool) -> (r: (Direction, bool))
        ensures
            r.0 == self.after_key(toward, held),
            r.1 == self.flips_on(toward, held),
            r.1 <==> r.0 != self,
    {
        if held && self != toward {
            (toward, true)
        } else {
            (self, false)
        }
    }
}

} // verus!
