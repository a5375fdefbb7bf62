//! Headings and fixed-point grid vectors.
//!
//! A heading is a pair of independent axis components; diagonal travel never
//! arises in steady state, but the pair form lets the controller compare and
//! combine the axes separately.

use vstd::prelude::*;

verus! {

/// Vertical axis component of a heading.  `Up` decreases the row
/// coordinate, `Down` increases it.
#[derive(Clone, Copy, PartialEq, Eq, Structural, Debug)]
pub enum Vertical {
    Up,
    Down,
    Zero,
}

/// Horizontal axis component of a heading.  `Left` decreases the column
/// coordinate, `Right` increases it.
#[derive(Clone, Copy, PartialEq, Eq, Structural, Debug)]
pub enum Horizontal {
    Left,
    Right,
    Zero,
}

/// A heading: one component per axis, each mappable to -1, 0 or +1.
#[derive(Clone, Copy, PartialEq, Eq, Structural, Debug)]
pub struct Direction {
    pub vertical: Vertical,
    pub horizontal: Horizontal,
}

/// A fixed-point grid vector: `x` columns and `y` rows, both scaled by
/// [`crate::num::MILLI`] units per cell.
#[derive(Clone, Copy, PartialEq, Eq, Structural, Debug)]
pub struct GridVec {
    pub x: i64,
    pub y: i64,
}

/// Signed unit of a vertical component: -1 for `Up`, +1 for `Down`.
pub open spec fn spec_vertical_unit(v: Vertical) -> int {
    match v {
        Vertical::Up => -1,
        Vertical::Down => 1,
        Vertical::Zero => 0,
    }
}

/// Signed unit of a horizontal component: -1 for `Left`, +1 for `Right`.
pub open spec fn spec_horizontal_unit(h: Horizontal) -> int {
    match h {
        Horizontal::Left => -1,
        Horizontal::Right => 1,
        Horizontal::Zero => 0,
    }
}

/// Axis-wise reverse of a heading.
pub open spec fn spec_opposite(d: Direction) -> Direction {
    Direction {
        vertical: match d.vertical {
            Vertical::Up => Vertical::Down,
            Vertical::Down => Vertical::Up,
            Vertical::Zero => Vertical::Zero,
        },
        horizontal: match d.horizontal {
            Horizontal::Left => Horizontal::Right,
            Horizontal::Right => Horizontal::Left,
            Horizontal::Zero => Horizontal::Zero,
        },
    }
}

impl Vertical {
    /// Signed unit of this component.
    pub fn unit(self) -> (r: i64)
        ensures
            r == spec_vertical_unit(self),
    {
        match self {
            Vertical::Up => -1,
            Vertical::Down => 1,
            Vertical::Zero => 0,
        }
    }
}

impl Horizontal {
    /// Signed unit of this component.
    pub fn unit(self) -> (r: i64)
        ensures
            r == spec_horizontal_unit(self),
    {
        match self {
            Horizontal::Left => -1,
            Horizontal::Right => 1,
            Horizontal::Zero => 0,
        }
    }
}

impl Direction {
    /// The heading with both components neutral.
    pub fn none() -> (r: Direction)
        ensures
            r == (Direction { vertical: Vertical::Zero, horizontal: Horizontal::Zero }),
    {
        Direction { vertical: Vertical::Zero, horizontal: Horizontal::Zero }
    }

    /// Axis-wise reverse of this heading.
    pub fn opposite(self) -> (r: Direction)
        ensures
            r == spec_opposite(self),
    {
        Direction {
            vertical: match self.vertical {
                Vertical::Up => Vertical::Down,
                Vertical::Down => Vertical::Up,
                Vertical::Zero => Vertical::Zero,
            },
            horizontal: match self.horizontal {
                Horizontal::Left => Horizontal::Right,
                Horizontal::Right => Horizontal::Left,
                Horizontal::Zero => Horizontal::Zero,
            },
        }
    }
}

/// Resolved pressed-direction input for one tick.  Opposite keys on one
/// axis cancel to the neutral component.
pub open spec fn spec_resolve_input(up: bool, down: bool, left: bool, right: bool) -> Direction {
    Direction {
        vertical: if up && !down {
            Vertical::Up
        } else if down && !up {
            Vertical::Down
        } else {
            Vertical::Zero
        },
        horizontal: if right && !left {
            Horizontal::Right
        } else if left && !right {
            Horizontal::Left
        } else {
            Horizontal::Zero
        },
    }
}

/// Turns the four raw key signals into a pressed heading, cancelling
/// opposite keys pressed together on the same axis.
pub fn resolve_input(up: bool, down: bool, left: bool, right: bool) -> (r: Direction)
    ensures
        r == spec_resolve_input(up, down, left, right),
{
    let mut pressed = Direction::none();
    if up {
        pressed.vertical = Vertical::Up;
    }
    if down {
        pressed.vertical = match pressed.vertical {
            Vertical::Up => Vertical::Zero,
            _ => Vertical::Down,
        };
    }
    if right {
        pressed.horizontal = Horizontal::Right;
    }
    if left {
        pressed.horizontal = match pressed.horizontal {
            Horizontal::Right => Horizontal::Zero,
            _ => Horizontal::Left,
        };
    }
    pressed
}

} // verus!
