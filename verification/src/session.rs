//! The session context: everything owned by one game, rebuilt fresh on
//! every session (re)start and dropped on teardown.

use vstd::prelude::*;

use crate::board::Board;
use crate::protocol::Fact;
use crate::resources::{CurrentTurn, Winner};
use crate::symbol::Symbol;

verus! {

/// Session-scoped state: the canonical board, whose turn it is, the
/// recorded winner, and the journal of replicated facts in the exact
/// order the authority applied them.
pub struct Session {
    pub board: Board,
    pub turn: CurrentTurn,
    pub winner: Winner,
    pub log: Vec<Fact>,
}

impl Session {
    pub open spec fn wf(self) -> bool {
        self.board.wf()
    }

    /// A fresh session: empty board, the first mover's turn, no winner,
    /// nothing replicated yet.
    pub fn new() -> (r: Session)
        ensures
            r.wf(),
            fresh_session(r),
    {
        Session {
            board: Board::new(),
            turn: CurrentTurn::new(Symbol::Cross),
            winner: Winner::new(None),
            log: Vec::new(),
        }
    }
}

/// What holds of a session the moment it starts: every cell empty, the
/// turn re-initialized to the first mover, the winner cleared, and an
/// empty replication journal.
pub open spec fn fresh_session(s: Session) -> bool {
    &&& s.board.wf()
    &&& (forall|i: int| 0 <= i < s.board@.len() ==> s.board@[i] is None)
    &&& s.turn.0 == Symbol::Cross
    &&& s.winner.0 is None
    &&& s.log@ == Seq::<Fact>::empty()
}

} // verus!
