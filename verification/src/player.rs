//! Player identities and their symbols.

use vstd::prelude::*;

use crate::resources::CurrentTurn;
use crate::symbol::Symbol;

verus! {

/// The reserved connection identifier under which the host acts as a
/// local player.
pub const SERVER_ID: u64 = 0;

/// An identity (a connection identifier) paired with the one symbol it
/// plays for the session's duration.
#[derive(Clone, Copy, Debug, PartialEq, Eq, Structural)]
pub struct Player {
    pub id: u64,
    pub symbol: Symbol,
}

impl Player {
    pub fn new(client_id: u64, symbol: Symbol) -> (r: Self)
        ensures
            r.id == client_id,
            r.symbol == symbol,
    {
        Player { id: client_id, symbol }
    }

    /// Same as [`Self::new`], but for the host's own seat ([`SERVER_ID`]).
    pub fn server(symbol: Symbol) -> (r: Self)
        ensures
            r.id == SERVER_ID,
            r.symbol == symbol,
    {
        Player { id: SERVER_ID, symbol }
    }

    pub fn client_id(&self) -> (r: u64)
        ensures
            r == self.id,
    {
        self.id
    }
}

/// Whether some player in `players` has identity `id` and holds `symbol`.
pub open spec fn holds_symbol(players: Seq<Player>, id: u64, symbol: Symbol) -> bool {
    exists|i: int| 0 <= i < players.len() && players[i].id == id && players[i].symbol == symbol
}

/// The identity of the first player in `players` holding `symbol`, if any.
pub open spec fn holder_of(players: Seq<Player>, symbol: Symbol) -> Option<u64>
    decreases players.len(),
{
    if players.len() == 0 {
        None
    } else if players[0].symbol == symbol {
        Some(players[0].id)
    } else {
        holder_of(players.drop_first(), symbol)
    }
}

/// At most one player holds each symbol. With two symbols this bounds an
/// active roster at two players.
pub open spec fn distinct_symbols(players: Seq<Player>) -> bool {
    forall|i: int, j: int|
        0 <= i < j < players.len() ==> players[i].symbol != players[j].symbol
}

/// Returns `true` if the actor identified by `local_id` may pick a cell
/// now: some player with that identity holds the symbol whose turn it is.
pub fn local_player_turn(players: &Vec<Player>, local_id: u64, current_turn: &CurrentTurn) -> (r:
    bool)
    ensures
        r == holds_symbol(players@, local_id, current_turn.0),
{
    roster_holds(players, local_id, current_turn.symbol())
}

/// Whether some player in `players` has identity `id` and holds `symbol`.
pub fn roster_holds(players: &Vec<Player>, id: u64, symbol: Symbol) -> (r: bool)
    ensures
        r == holds_symbol(players@, id, symbol),
{
    let mut k: usize = 0;
    while k < players.len()
        invariant
            k <= players@.len(),
            forall|i: int|
                0 <= i < k ==> !(players@[i].id == id && players@[i].symbol == symbol),
        decreases players@.len() - k,
    {
        if players[k].id == id && players[k].symbol == symbol {
            return true;
        }
        k = k + 1;
    }
    false
}

/// Whether some player in `players` holds `symbol`.
pub open spec fn symbol_held(players: Seq<Player>, symbol: Symbol) -> bool {
    exists|i: int| 0 <= i < players.len() && players[i].symbol == symbol
}

/// Whether any player in `players` already holds `symbol`.
pub fn roster_holds_symbol(players: &Vec<Player>, symbol: Symbol) -> (r: bool)
    ensures
        r == symbol_held(players@, symbol),
{
    let mut k: usize = 0;
    while k < players.len()
        invariant
            k <= players@.len(),
            forall|i: int| 0 <= i < k ==> players@[i].symbol != symbol,
        decreases players@.len() - k,
    {
        if players[k].symbol == symbol {
            return true;
        }
        k = k + 1;
    }
    false
}

/// The first player holding a symbol indeed holds it: a found holder
/// witnesses `holds_symbol`.
pub proof fn lemma_holder_holds(players: Seq<Player>, symbol: Symbol)
    requires
        holder_of(players, symbol) is Some,
    ensures
        holds_symbol(players, holder_of(players, symbol)->Some_0, symbol),
    decreases players.len(),
{
    if players.len() > 0 && players[0].symbol != symbol {
        lemma_holder_holds(players.drop_first(), symbol);
        let id = holder_of(players, symbol)->Some_0;
        let i = choose|i: int|
            0 <= i < players.drop_first().len() && players.drop_first()[i].id == id
                && players.drop_first()[i].symbol == symbol;
        assert(players[i + 1].id == id && players[i + 1].symbol == symbol);
    }
}

/// Finds the first player holding `symbol`, as `holder_of` names it.
pub fn find_holder(players: &Vec<Player>, symbol: Symbol) -> (r: Option<u64>)
    ensures
        r == holder_of(players@, symbol),
{
    let mut k: usize = 0;
    proof {
        assert(players@.skip(0) =~= players@);
    }
    while k < players.len()
        invariant
            k <= players@.len(),
            holder_of(players@, symbol) == holder_of(players@.skip(k as int), symbol),
            forall|i: int| 0 <= i < k ==> players@[i].symbol != symbol,
        decreases players@.len() - k,
    {
        proof {
            assert(players@.skip(k as int).len() > 0);
            assert(players@.skip(k as int)[0] == players@[k as int]);
            assert(players@.skip(k as int).drop_first() =~= players@.skip(k as int + 1));
        }
        if players[k].symbol == symbol {
            return Some(players[k].id);
        }
        k = k + 1;
    }
    proof {
        assert(players@.skip(k as int).len() == 0);
    }
    None
}

} // verus!
