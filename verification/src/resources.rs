//! Session-scoped resources: whose turn it is, and the recorded winner.

use vstd::prelude::*;

use crate::symbol::Symbol;

verus! {

/// The symbol whose holder is currently permitted to act. Starts at the
/// first mover each session and alternates strictly on every accepted pick.
#[derive(Clone, Copy, Debug, PartialEq, Eq, Structural)]
pub struct CurrentTurn(pub Symbol);

impl CurrentTurn {
    pub fn new(symbol: Symbol) -> (r: Self)
        ensures
            r.0 == symbol,
    {
        CurrentTurn(symbol)
    }

    pub fn symbol(&self) -> (r: Symbol)
        ensures
            r == self.0,
    {
        self.0
    }

    /// Advances the turn to the other symbol.
    pub fn next(&mut self)
        ensures
            final(self).0 == old(self).0.spec_next(),
    {
        self.0 = self.0.next();
    }

    /// Returns the turn to the first mover.
    pub fn reset(&mut self)
        ensures
            final(self).0 == Symbol::Cross,
    {
        self.0 = Symbol::Cross;
    }
}

impl Default for CurrentTurn {
    /// The first mover's turn.
    fn default() -> (r: Self)
        ensures
            r.0 == Symbol::Cross,
    {
        CurrentTurn(Symbol::Cross)
    }
}

/// The identity of the winning player, set exactly once per session when a
/// terminal win is detected and cleared on session (re)start. `None` with a
/// full board means a draw; `None` otherwise means the game continues.
#[derive(Clone, Copy, Debug, PartialEq, Eq, Structural)]
pub struct Winner(pub Option<u64>);

impl Winner {
    pub fn new(client_id: Option<u64>) -> (r: Self)
        ensures
            r.0 == client_id,
    {
        Winner(client_id)
    }

    pub fn client_id(&self) -> (r: Option<u64>)
        ensures
            r == self.0,
    {
        self.0
    }

    pub fn clear(&mut self)
        ensures
            final(self).0 is None,
    {
        self.0 = None;
    }
}

impl Default for Winner {
    /// No winner recorded.
    fn default() -> (r: Self)
        ensures
            r.0 is None,
    {
        Winner(None)
    }
}

} // verus!
