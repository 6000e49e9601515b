//! The kinds of piece and the cells each one covers.

use vstd::prelude::*;
use vstd::std_specs::ops::AddSpec;
use crate::position::Position;

verus! {

/// The kinds of piece. Only `Rect`, the two-by-two square, has a cell layout.
#[derive(Debug, Copy, Clone)]
pub enum Shape {
    Rect,
    L,
    I,
    T,
    S,
}

impl Shape {
    /// Whether a cell layout is defined for this shape.
    pub open spec fn is_supported(self) -> bool {
        self is Rect
    }

    /// The cells of the shape relative to its anchor, in the order in which
    /// they are created. Empty for a shape without a layout.
    pub open spec fn spec_offsets(self) -> Seq<Position> {
        if self is Rect {
            seq![
                Position { x: 0, y: 0 },
                Position { x: 1, y: 0 },
                Position { x: 0, y: 1 },
                Position { x: 1, y: 1 },
            ]
        } else {
            Seq::empty()
        }
    }

    /// The cells that a piece of this shape covers when anchored at `anchor`.
    pub open spec fn cells_at(self, anchor: Position) -> Seq<Position> {
        Seq::new(self.spec_offsets().len(), |i: int| anchor.add_spec(self.spec_offsets()[i]))
    }

    /// Whether every cell of a piece anchored at `anchor` has coordinates
    /// that the coordinate type can hold.
    pub open spec fn fits_at(self, anchor: Position) -> bool {
        forall|i: int|
            0 <= i < self.spec_offsets().len() ==> anchor.add_req(#[trigger] self.spec_offsets()[i])
    }

    /// The relative cells of the shape, or `None` where it has no layout.
    pub fn offsets(self) -> (offsets: Option<Vec<Position>>)
        ensures
            offsets is Some <==> self.is_supported(),
            offsets matches Some(v) ==> v@ == self.spec_offsets(),
    {
        match self {
            Shape::Rect => {
                let v = vec![
                    Position::new(0, 0),
                    Position::new(1, 0),
                    Position::new(0, 1),
                    Position::new(1, 1),
                ];
                assert(v@ =~= self.spec_offsets());
                Some(v)
            },
            _ => None,
        }
    }

    /// Whether a piece of this shape can be anchored at `anchor`: the shape
    /// has a layout and all its cells have representable coordinates.
    pub fn can_place(self, anchor: Position) -> (ok: bool)
        ensures
            ok == (self.is_supported() && self.fits_at(anchor)),
    {
        match self.offsets() {
            None => false,
            Some(offsets) => {
                let mut i: usize = 0;
                while i < offsets.len()
                    invariant
                        i <= offsets.len(),
                        offsets@ == self.spec_offsets(),
                        forall|j: int| 0 <= j < i ==> anchor.add_req(#[trigger] self.spec_offsets()[j]),
                    decreases offsets.len() - i,
                {
                    if anchor.checked_add(offsets[i]).is_none() {
                        return false;
                    }
                    i += 1;
                }
                true
            },
        }
    }
}

/// A square piece fits exactly where its anchor lies short of the last
/// column and of the last row that the coordinate type can hold.
pub proof fn lemma_rect_fits(anchor: Position)
    ensures
        Shape::Rect.fits_at(anchor) <==> anchor.x < i32::MAX && anchor.y < i32::MAX,
{
    let offsets = Shape::Rect.spec_offsets();
    assert(offsets[3] == Position { x: 1, y: 1 });
}

/// Where a square piece fits, it covers the anchor, the next cell in the
/// anchor's row, the cell of the next row in the anchor's column, and the next
/// cell in that row, in this order.
pub proof fn lemma_rect_cells(anchor: Position)
    requires
        anchor.x < i32::MAX,
        anchor.y < i32::MAX,
    ensures
        Shape::Rect.fits_at(anchor),
        Shape::Rect.cells_at(anchor) == seq![
            anchor,
            Position { x: (anchor.x + 1) as i32, y: anchor.y },
            Position { x: anchor.x, y: (anchor.y + 1) as i32 },
            Position { x: (anchor.x + 1) as i32, y: (anchor.y + 1) as i32 },
        ],
{
    assert(Shape::Rect.cells_at(anchor) =~= seq![
        anchor,
        Position { x: (anchor.x + 1) as i32, y: anchor.y },
        Position { x: anchor.x, y: (anchor.y + 1) as i32 },
        Position { x: (anchor.x + 1) as i32, y: (anchor.y + 1) as i32 },
    ]);
}

} // verus!
