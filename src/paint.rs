//! The ordered record of painted cells.
use vstd::prelude::*;

verus! {

/// A logical cell of the grid, as column and row. Nothing keeps it inside
/// the grid: cells left of or above the canvas have negative indices.
#[derive(Clone, Copy, Debug, PartialEq, Eq, Structural)]
pub struct GridCoordinate {
    pub col: i64,
    pub row: i64,
}

/// Painted cells in paint order, most recent last. Repeats are kept.
pub struct PaintState {
    cells: Vec<GridCoordinate>,
}

impl View for PaintState {
    type V = Seq<GridCoordinate>;

    closed spec fn view(&self) -> Seq<GridCoordinate> {
        self.cells@
    }
}

/// The record after painting each of `coords`, in order, onto `start`.
pub open spec fn placed(start: Seq<GridCoordinate>, coords: Seq<GridCoordinate>) -> Seq<
    GridCoordinate,
>
    decreases coords.len(),
{
    if coords.len() == 0 {
        start
    } else {
        placed(start.push(coords[0]), coords.drop_first())
    }
}

/// Painting a sequence of cells appends exactly that sequence.
pub proof fn lemma_placed_appends(start: Seq<GridCoordinate>, coords: Seq<GridCoordinate>)
    ensures
        placed(start, coords) == start + coords,
    decreases coords.len(),
{
    if coords.len() > 0 {
        lemma_placed_appends(start.push(coords[0]), coords.drop_first());
        assert(start.push(coords[0]) + coords.drop_first() =~= start + coords);
    } else {
        assert(start + coords =~= start);
    }
}

/// Painting N cells onto an empty record yields exactly those N cells, in
/// the order in which they were painted, repeats included.
pub proof fn lemma_places_kept_in_order(coords: Seq<GridCoordinate>)
    ensures
        placed(Seq::empty(), coords) == coords,
        placed(Seq::empty(), coords).len() == coords.len(),
{
    lemma_placed_appends(Seq::empty(), coords);
    assert(Seq::<GridCoordinate>::empty() + coords =~= coords);
}

impl PaintState {
    /// An empty record.
    pub fn new() -> (r: PaintState)
        ensures
            r@ == Seq::<GridCoordinate>::empty(),
    {
        PaintState { cells: Vec::new() }
    }

    /// Appends `coord`, whatever it is and whether or not it was painted
    /// before.
    pub fn place(&mut self, coord: GridCoordinate)
        ensures
            final(self)@ == old(self)@.push(coord),
    {
        self.cells.push(coord);
    }

    /// The painted cells, in paint order.
    pub fn all(&self) -> (r: &[GridCoordinate])
        ensures
            r@ == self@,
    {
        self.cells.as_slice()
    }

    /// Number of painted cells.
    pub fn len(&self) -> (r: usize)
        ensures
            r == self@.len(),
    {
        self.cells.len()
    }
}

} // verus!
