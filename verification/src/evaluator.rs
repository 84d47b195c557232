//! Win evaluator: scans the board for a terminal condition.
//!
//! The straight-line index triples (rows, columns, two diagonals) are
//! enumerated in a fixed order and the first completed line decides the
//! winner; win detection takes precedence over the full-board draw check,
//! so a winning final move on a full board is a win, not a draw.

use vstd::prelude::*;

use crate::board::{Board, board_full};
use crate::symbol::Symbol;

verus! {

/// Number of straight lines of three cells on the board: three rows,
/// three columns and the two diagonals.
pub const LINE_COUNT: usize = 8;

/// What the evaluator says of a board: the game continues, a symbol has
/// completed a line, or the board is full with no completed line.
#[derive(Clone, Copy, Debug, PartialEq, Eq, Structural)]
pub enum Verdict {
    InProgress,
    Win(Symbol),
    Draw,
}

/// The `k`-th straight-line triple of cell indices, in the fixed
/// evaluation order: rows top to bottom, then columns left to right,
/// then the two diagonals.
pub open spec fn win_line(k: int) -> (int, int, int) {
    if k == 0 {
        (0, 1, 2)
    } else if k == 1 {
        (3, 4, 5)
    } else if k == 2 {
        (6, 7, 8)
    } else if k == 3 {
        (0, 3, 6)
    } else if k == 4 {
        (1, 4, 7)
    } else if k == 5 {
        (2, 5, 8)
    } else if k == 6 {
        (0, 4, 8)
    } else {
        (2, 4, 6)
    }
}

/// The symbol that completes the `k`-th line on board `b`, if any: all
/// three of the line's cells are occupied and hold the same symbol.
pub open spec fn line_winner(b: Seq<Option<Symbol>>, k: int) -> Option<Symbol> {
    let (x, y, z) = win_line(k);
    if b[x] is Some && b[y] == b[x] && b[z] == b[x] {
        b[x]
    } else {
        None
    }
}

/// The winner given by the first completed line at position `k` or later,
/// in the fixed evaluation order.
pub open spec fn first_win_from(b: Seq<Option<Symbol>>, k: int) -> Option<Symbol>
    decreases LINE_COUNT - k,
{
    if k < 0 || k >= LINE_COUNT {
        None
    } else if line_winner(b, k) is Some {
        line_winner(b, k)
    } else {
        first_win_from(b, k + 1)
    }
}

/// The winning symbol of board `b`: the one completing the first
/// completed line in the fixed evaluation order, if any line is complete.
pub open spec fn board_winner(b: Seq<Option<Symbol>>) -> Option<Symbol> {
    first_win_from(b, 0)
}

/// What evaluation returns on board `b`: the first completed line's symbol
/// as a win; otherwise a draw exactly when the board is full; otherwise
/// the game continues.
pub open spec fn spec_evaluate(b: Seq<Option<Symbol>>) -> Verdict {
    match board_winner(b) {
        Some(s) => Verdict::Win(s),
        None => if board_full(b) {
            Verdict::Draw
        } else {
            Verdict::InProgress
        },
    }
}

/// The cells of the `k`-th line, as executable values.
fn line_cells(k: usize) -> (r: (usize, usize, usize))
    requires
        k < LINE_COUNT,
    ensures
        (r.0 as int, r.1 as int, r.2 as int) == win_line(k as int),
        r.0 < 9 && r.1 < 9 && r.2 < 9,
{
    if k == 0 {
        (0, 1, 2)
    } else if k == 1 {
        (3, 4, 5)
    } else if k == 2 {
        (6, 7, 8)
    } else if k == 3 {
        (0, 3, 6)
    } else if k == 4 {
        (1, 4, 7)
    } else if k == 5 {
        (2, 5, 8)
    } else if k == 6 {
        (0, 4, 8)
    } else {
        (2, 4, 6)
    }
}

/// Scans the fixed set of lines in order and returns the verdict for
/// `board`. Pure: the result depends on the board contents alone.
pub fn evaluate(board: &Board) -> (v: Verdict)
    requires
        board.wf(),
    ensures
        v == spec_evaluate(board@),
{
    let mut k: usize = 0;
    while k < LINE_COUNT
        invariant
            board.wf(),
            k <= LINE_COUNT,
            board_winner(board@) == first_win_from(board@, k as int),
        decreases LINE_COUNT - k,
    {
        let (x, y, z) = line_cells(k);
        let cx = board.cell(x);
        if let Some(s) = cx {
            let cy = board.cell(y);
            let cz = board.cell(z);
            if cy == Some(s) && cz == Some(s) {
                return Verdict::Win(s);
            }
        }
        assert(line_winner(board@, k as int) is None);
        k = k + 1;
    }
    if board.is_full() {
        Verdict::Draw
    } else {
        Verdict::InProgress
    }
}

/// The evaluator is a function of the board alone: two evaluations of the
/// same board yield the same verdict.
pub proof fn lemma_evaluate_idempotent(b: Seq<Option<Symbol>>, v1: Verdict, v2: Verdict)
    requires
        v1 == spec_evaluate(b),
        v2 == spec_evaluate(b),
    ensures
        v1 == v2,
{
}

/// On a board with no completed line and at least one empty cell, the
/// evaluator reports that the game continues.
pub proof fn lemma_evaluate_open_board(b: Seq<Option<Symbol>>)
    requires
        forall|k: int| 0 <= k < LINE_COUNT ==> line_winner(b, k) is None,
        !board_full(b),
    ensures
        spec_evaluate(b) == Verdict::InProgress,
{
    lemma_no_line_no_winner(b, 0);
}

/// A win verdict always names the symbol of some completed line.
pub proof fn lemma_win_has_line(b: Seq<Option<Symbol>>, s: Symbol)
    requires
        spec_evaluate(b) == Verdict::Win(s),
    ensures
        exists|k: int| 0 <= k < LINE_COUNT && line_winner(b, k) == Some(s),
{
    lemma_first_win_has_line(b, 0, s);
}

proof fn lemma_no_line_no_winner(b: Seq<Option<Symbol>>, k: int)
    requires
        forall|j: int| 0 <= j < LINE_COUNT ==> line_winner(b, j) is None,
        0 <= k,
    ensures
        first_win_from(b, k) is None,
    decreases LINE_COUNT - k,
{
    if k < LINE_COUNT {
        lemma_no_line_no_winner(b, k + 1);
    }
}

proof fn lemma_first_win_has_line(b: Seq<Option<Symbol>>, k: int, s: Symbol)
    requires
        0 <= k,
        first_win_from(b, k) == Some(s),
    ensures
        exists|j: int| k <= j < LINE_COUNT && line_winner(b, j) == Some(s),
    decreases LINE_COUNT - k,
{
    if k < LINE_COUNT {
        if line_winner(b, k) is Some {
            assert(line_winner(b, k) == Some(s));
        } else {
            lemma_first_win_has_line(b, k + 1, s);
        }
    }
}

} // verus!
