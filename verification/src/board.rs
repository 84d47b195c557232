//! Canonical board model: cell occupancy for a 3x3 grid.

use vstd::prelude::*;

use crate::CELL_COUNT;
use crate::symbol::Symbol;

verus! {

/// A cell's location on the grid, as an index in `0..CELL_COUNT`
/// (row-major). The index is carried as given; the turn authority is the
/// place where out-of-range indices are rejected.
#[derive(Clone, Copy, Debug, PartialEq, Eq, Structural)]
pub struct CellIndex(pub usize);

impl CellIndex {
    pub fn new(index: usize) -> (r: Self)
        ensures
            r.0 == index,
    {
        CellIndex(index)
    }

    pub fn index(&self) -> (r: usize)
        ensures
            r == self.0,
    {
        self.0
    }
}

/// The set of all cells of the current session, as a mapping from cell
/// index to occupant. Owned exclusively by the session; rebuilt fresh on
/// session (re)start.
pub struct Board {
    cells: Vec<Option<Symbol>>,
}

impl View for Board {
    type V = Seq<Option<Symbol>>;

    closed spec fn view(&self) -> Seq<Option<Symbol>> {
        self.cells@
    }
}

/// A board is full when every cell holds a symbol.
pub open spec fn board_full(b: Seq<Option<Symbol>>) -> bool {
    forall|i: int| 0 <= i < b.len() ==> b[i] is Some
}

impl Board {
    /// Well-formed boards have exactly one slot per cell.
    pub open spec fn wf(&self) -> bool {
        self@.len() == CELL_COUNT
    }

    /// A fresh board with every cell empty.
    pub fn new() -> (b: Board)
        ensures
            b.wf(),
            forall|i: int| 0 <= i < b@.len() ==> b@[i] is None,
    {
        let mut cells: Vec<Option<Symbol>> = Vec::new();
        let mut k: usize = 0;
        while k < CELL_COUNT
            invariant
                k <= CELL_COUNT,
                cells@.len() == k,
                forall|i: int| 0 <= i < k ==> cells@[i] is None,
            decreases CELL_COUNT - k,
        {
            cells.push(None);
            k = k + 1;
        }
        Board { cells }
    }

    /// The occupant of the cell at `index`, or `None` for an empty cell.
    pub fn cell(&self, index: usize) -> (r: Option<Symbol>)
        requires
            self.wf(),
            index < CELL_COUNT,
        ensures
            r == self@[index as int],
    {
        self.cells[index]
    }

    /// Binds the empty cell at `index` to `symbol`. Occupied cells are
    /// never rewritten: callers must have checked the cell is empty.
    pub fn place(&mut self, index: usize, symbol: Symbol)
        requires
            old(self).wf(),
            index < CELL_COUNT,
            old(self)@[index as int] is None,
        ensures
            final(self).wf(),
            final(self)@ == old(self)@.update(index as int, Some(symbol)),
    {
        self.cells.set(index, Some(symbol));
    }

    /// Whether every cell is occupied.
    pub fn is_full(&self) -> (r: bool)
        requires
            self.wf(),
        ensures
            r == board_full(self@),
    {
        let mut k: usize = 0;
        while k < CELL_COUNT
            invariant
                self.wf(),
                k <= CELL_COUNT,
                forall|i: int| 0 <= i < k ==> self@[i] is Some,
            decreases CELL_COUNT - k,
        {
            if self.cells[k].is_none() {
                return false;
            }
            k = k + 1;
        }
        true
    }
}

} // verus!
