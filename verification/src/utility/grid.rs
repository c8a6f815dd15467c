//! Two-dimensional integer coordinates.

use vstd::prelude::*;

verus! {

/// A point on an integer lattice. `x` grows to the right, `y` grows downward.
/// Whether it is piece-local or field-absolute depends on who holds it.
#[derive(Debug, Clone, Copy, PartialEq, Eq, Structural)]
pub struct Grid {
    pub x: i32,
    pub y: i32,
}

impl Grid {
    /// Builds the point `(x, y)`.
    pub fn new(x: i32, y: i32) -> (g: Self)
        ensures
            g.x == x,
            g.y == y,
    {
        Grid { x, y }
    }

    /// Overwrites both coordinates with those of `other`.
    pub fn copy_data(&mut self, other: &Grid)
        ensures
            *final(self) == *other,
    {
        self.x = other.x;
        self.y = other.y;
    }
}

impl core::ops::Add<&Grid> for Grid {
    type Output = Grid;

    /// Adds coordinate by coordinate.
    fn add(self, other: &Grid) -> (sum: Grid) {
        Grid { x: self.x + other.x, y: self.y + other.y }
    }
}

impl vstd::std_specs::ops::AddSpecImpl<&Grid> for Grid {
    open spec fn obeys_add_spec() -> bool {
        true
    }

    open spec fn add_req(self, other: &Grid) -> bool {
        i32::MIN <= self.x + other.x <= i32::MAX && i32::MIN <= self.y + other.y <= i32::MAX
    }

    open spec fn add_spec(self, other: &Grid) -> Grid {
        Grid { x: (self.x + other.x) as i32, y: (self.y + other.y) as i32 }
    }
}

impl core::ops::Sub<&Grid> for Grid {
    type Output = Grid;

    /// Subtracts coordinate by coordinate.
    fn sub(self, other: &Grid) -> (difference: Grid) {
        Grid { x: self.x - other.x, y: self.y - other.y }
    }
}

impl vstd::std_specs::ops::SubSpecImpl<&Grid> for Grid {
    open spec fn obeys_sub_spec() -> bool {
        true
    }

    open spec fn sub_req(self, other: &Grid) -> bool {
        i32::MIN <= self.x - other.x <= i32::MAX && i32::MIN <= self.y - other.y <= i32::MAX
    }

    open spec fn sub_spec(self, other: &Grid) -> Grid {
        Grid { x: (self.x - other.x) as i32, y: (self.y - other.y) as i32 }
    }
}

} // verus!
