//! The two markers the players play as.

use vstd::prelude::*;

verus! {

/// The symbol of a player or of a filled cell: exactly two variants,
/// the first mover's marker and the second mover's marker.
#[derive(Clone, Copy, Debug, PartialEq, Eq, Structural)]
pub enum Symbol {
    Cross,
    Nought,
}

impl Symbol {
    /// The opposite symbol.
    pub open spec fn spec_next(self) -> Symbol {
        match self {
            Symbol::Cross => Symbol::Nought,
            Symbol::Nought => Symbol::Cross,
        }
    }

    /// Returns the opposite symbol: the one that moves after `self`.
    pub fn next(self) -> (r: Symbol)
        ensures
            r == self.spec_next(),
    {
        match self {
            Symbol::Cross => Symbol::Nought,
            Symbol::Nought => Symbol::Cross,
        }
    }

    /// The glyph drawn for this symbol on a board cell.
    pub fn glyph(self) -> (r: &'static str)
        ensures
            self is Cross ==> r@ == "❌"@,
            self is Nought ==> r@ == "⭕"@,
    {
        match self {
            Symbol::Cross => "❌",
            Symbol::Nought => "⭕",
        }
    }

    /// A lower-case English name for this symbol.
    pub fn label(self) -> (r: &'static str)
        ensures
            self is Cross ==> r@ == "cross"@,
            self is Nought ==> r@ == "nought"@,
    {
        match self {
            Symbol::Cross => "cross",
            Symbol::Nought => "nought",
        }
    }
}

impl Default for Symbol {
    /// The first mover's symbol.
    fn default() -> (r: Self)
        ensures
            r == Symbol::Cross,
    {
        Symbol::Cross
    }
}

/// Alternation is strict: the opposite of a symbol is never the symbol
/// itself, and the opposite of the opposite is the symbol again.
pub proof fn lemma_next_alternates(s: Symbol)
    ensures
        s.spec_next() != s,
        s.spec_next().spec_next() == s,
{
}

} // verus!
