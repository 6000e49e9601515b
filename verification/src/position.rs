//! Grid coordinates and their addition.

use vstd::prelude::*;
use vstd::std_specs::ops::AddSpec;

verus! {

/// A location on the playing grid, counted in cells (not pixels).
#[derive(Debug, Copy, Clone)]
pub struct Position {
    pub x: i32,
    pub y: i32,
}

impl Position {
    /// The position in column `x` and row `y`.
    pub fn new(x: i32, y: i32) -> (p: Position)
        ensures
            p.x == x,
            p.y == y,
    {
        Position { x, y }
    }

    /// The component-wise sum, or `None` where a coordinate of it does not fit.
    pub fn checked_add(self, rhs: Position) -> (sum: Option<Position>)
        ensures
            sum is Some <==> self.add_req(rhs),
            sum matches Some(p) ==> p == self.add_spec(rhs),
    {
        match (self.x.checked_add(rhs.x), self.y.checked_add(rhs.y)) {
            (Some(x), Some(y)) => Some(Position { x, y }),
            _ => None,
        }
    }
}

impl vstd::std_specs::ops::AddSpecImpl for Position {
    open spec fn obeys_add_spec() -> bool {
        true
    }

    /// Both coordinate sums fit the coordinate type.
    open spec fn add_req(self, rhs: Position) -> bool {
        &&& i32::MIN <= self.x + rhs.x <= i32::MAX
        &&& i32::MIN <= self.y + rhs.y <= i32::MAX
    }

    /// The component-wise sum.
    open spec fn add_spec(self, rhs: Position) -> Position {
        Position { x: (self.x + rhs.x) as i32, y: (self.y + rhs.y) as i32 }
    }
}

impl core::ops::Add for Position {
    type Output = Position;

    /// The component-wise sum. Both coordinate sums must fit (`add_req`).
    fn add(self, rhs: Position) -> (sum: Position)
        ensures
            sum.x == self.x + rhs.x,
            sum.y == self.y + rhs.y,
    {
        Position::new(self.x + rhs.x, self.y + rhs.y)
    }
}

/// Adding two positions gives the same result in either order, and is
/// defined in one order exactly when it is defined in the other.
pub proof fn lemma_add_commutative(a: Position, b: Position)
    ensures
        a.add_req(b) == b.add_req(a),
        a.add_spec(b) == b.add_spec(a),
{
}

/// Where both groupings of a sum of three positions are defined, they agree.
pub proof fn lemma_add_associative(a: Position, b: Position, c: Position)
    requires
        a.add_req(b),
        a.add_spec(b).add_req(c),
        b.add_req(c),
    ensures
        a.add_req(b.add_spec(c)),
        a.add_spec(b).add_spec(c) == a.add_spec(b.add_spec(c)),
{
}

} // verus!
