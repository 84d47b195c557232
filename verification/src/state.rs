//! Session lifecycle: the top-level state machine that gates which parts
//! of the core run, and the turn authority that validates and applies
//! picks while it is in the playing phase.
//!
//! One single-threaded tick drives every transition: the surrounding
//! application performs socket work and hands the resulting plain events
//! (a connection established, a peer lost, a received pick) to these
//! methods, which are the sole mutators of the session state.

use vstd::prelude::*;

use crate::CELL_COUNT;
use crate::discovery::{DiscoveryClientState, DiscoveryServerState};
use crate::evaluator::{Verdict, evaluate, spec_evaluate};
use crate::player::{
    Player, SERVER_ID, distinct_symbols, find_holder, holder_of, holds_symbol, roster_holds,
    roster_holds_symbol, symbol_held,
};
use crate::protocol::Fact;
use crate::resources::{CurrentTurn, Winner};
use crate::session::{Session, fresh_session};
use crate::symbol::Symbol;

verus! {

/// The lifecycle phase. Exactly one phase is active at a time; phases gate
/// which systems run (the turn authority runs only while playing, the
/// discovery responder only while hosting a lobby, the requester only
/// while choosing a host to connect to).
#[derive(Clone, Copy, Debug, Hash, PartialEq, Eq, Structural)]
pub enum GameState {
    MainMenu,
    Connect,
    HostingLobby,
    WaitingConnection,
    Hotseat,
    Playing,
    GameOver,
    Draw,
    Disconnected,
}

impl Default for GameState {
    fn default() -> (r: Self)
        ensures
            r == GameState::MainMenu,
    {
        GameState::MainMenu
    }
}

/// The turn authority's answer to a pick request. Rejections are silent
/// to the network: the reason is logged locally and never surfaced to the
/// sender.
#[derive(Clone, Copy, Debug, PartialEq, Eq, Structural)]
pub enum PickOutcome {
    /// The pick passed every check and mutated the board.
    Accepted,
    /// The cell index lies outside the board.
    RejectedMalformed,
    /// The requester does not hold the symbol whose turn it is.
    RejectedWrongTurn,
    /// The target cell already holds a symbol.
    RejectedOccupied,
    /// The request arrived outside the playing phase and was discarded.
    Dropped,
}

/// The whole engine: current phase, the session state while one exists,
/// the player roster, and the two discovery state machines.
pub struct GameFlow {
    pub phase: GameState,
    pub session: Option<Session>,
    pub players: Vec<Player>,
    pub responder: DiscoveryServerState,
    pub requester: DiscoveryClientState,
}

impl GameFlow {
    /// The engine's invariant: a session exists exactly in the phases
    /// that show a board; the discovery responder runs exactly while
    /// hosting a lobby and the requester exactly while choosing a host;
    /// at most one player holds each symbol; and a lobby has exactly its
    /// host seated.
    pub open spec fn wf(self) -> bool {
        &&& (self.session is Some <==> (self.phase is Playing || self.phase is GameOver
            || self.phase is Draw || self.phase is Disconnected))
        &&& (self.session matches Some(s) ==> s.wf())
        &&& (self.responder is Running <==> self.phase is HostingLobby)
        &&& (self.requester is Running <==> self.phase is Connect)
        &&& distinct_symbols(self.players@)
        &&& (self.phase is HostingLobby ==> self.players@.len() == 1 && self.players@[0].id
            == SERVER_ID)
    }

    /// The symbol that would move now: the current turn of the running
    /// session.
    pub open spec fn mover(self) -> Symbol
        recommends
            self.session is Some,
    {
        self.session->Some_0.turn.0
    }

    /// What the turn authority answers to `requester` picking `index`:
    /// requests outside the playing phase are dropped; then the index
    /// must lie on the board, the requester must hold the symbol whose
    /// turn it is, and the target cell must be empty, checked in that
    /// order.
    pub open spec fn pick_outcome(self, requester: u64, index: usize) -> PickOutcome {
        if !(self.phase is Playing) {
            PickOutcome::Dropped
        } else if index >= CELL_COUNT {
            PickOutcome::RejectedMalformed
        } else if !holds_symbol(self.players@, requester, self.mover()) {
            PickOutcome::RejectedWrongTurn
        } else if self.session->Some_0.board@[index as int] is Some {
            PickOutcome::RejectedOccupied
        } else {
            PickOutcome::Accepted
        }
    }

    /// Whether the turn authority accepts `requester` picking `index`.
    pub open spec fn accepts(self, requester: u64, index: usize) -> bool {
        self.pick_outcome(requester, index) is Accepted
    }

    /// A fresh engine: at the main menu, with no session, no players, and
    /// both discovery state machines stopped.
    pub fn new() -> (r: GameFlow)
        ensures
            r.wf(),
            r.phase == GameState::MainMenu,
            r.session is None,
            r.players@ == Seq::<Player>::empty(),
            r.responder == DiscoveryServerState::Stopped,
            r.requester == DiscoveryClientState::Stopped,
    {
        GameFlow {
            phase: GameState::MainMenu,
            session: None,
            players: Vec::new(),
            responder: DiscoveryServerState::Stopped,
            requester: DiscoveryClientState::Stopped,
        }
    }

    /// Two local players share this machine: seats both symbols under the
    /// host's own identity and enters the hotseat phase.
    pub fn select_hotseat(&mut self)
        requires
            old(self).wf(),
            old(self).phase is MainMenu,
        ensures
            final(self).wf(),
            final(self).phase is Hotseat,
            final(self).players@ == seq![
                Player { id: SERVER_ID, symbol: Symbol::Cross },
                Player { id: SERVER_ID, symbol: Symbol::Nought },
            ],
            final(self).session is None,
            final(self).responder == old(self).responder,
            final(self).requester == old(self).requester,
    {
        self.players = Vec::new();
        self.players.push(Player::server(Symbol::Cross));
        self.players.push(Player::server(Symbol::Nought));
        self.phase = GameState::Hotseat;
        proof {
            assert(self.players@ =~= seq![
                Player { id: SERVER_ID, symbol: Symbol::Cross },
                Player { id: SERVER_ID, symbol: Symbol::Nought },
            ]);
        }
    }

    /// Enters the playing phase from the hotseat: builds the fresh
    /// session (empty board, first mover's turn, no winner).
    pub fn start_playing(&mut self)
        requires
            old(self).wf(),
            old(self).phase is Hotseat,
        ensures
            final(self).wf(),
            final(self).phase is Playing,
            final(self).session matches Some(s) && fresh_session(s),
            final(self).players@ == old(self).players@,
            final(self).responder == old(self).responder,
            final(self).requester == old(self).requester,
    {
        self.session = Some(Session::new());
        self.phase = GameState::Playing;
    }

    /// Becomes the authoritative host: seats the host under the first
    /// mover's symbol, enters the hosting lobby and starts the discovery
    /// responder. The transport must now listen on the application port.
    pub fn select_host(&mut self)
        requires
            old(self).wf(),
            old(self).phase is MainMenu,
        ensures
            final(self).wf(),
            final(self).phase is HostingLobby,
            final(self).players@ == seq![Player { id: SERVER_ID, symbol: Symbol::Cross }],
            final(self).session is None,
            final(self).responder == DiscoveryServerState::Running,
            final(self).requester == old(self).requester,
    {
        self.players = Vec::new();
        self.players.push(Player::server(Symbol::Cross));
        self.responder = DiscoveryServerState::Running;
        self.phase = GameState::HostingLobby;
        proof {
            assert(self.players@ =~= seq![Player { id: SERVER_ID, symbol: Symbol::Cross }]);
        }
    }

    /// A transport setup fault (the application port cannot be bound)
    /// aborts entry into hosting: back to the main menu, with the lobby's
    /// resources (seat, responder) released.
    pub fn hosting_failed(&mut self)
        requires
            old(self).wf(),
            old(self).phase is HostingLobby,
        ensures
            final(self).wf(),
            final(self).phase is MainMenu,
            final(self).players@ == Seq::<Player>::empty(),
            final(self).session is None,
            final(self).responder == DiscoveryServerState::Stopped,
            final(self).requester == old(self).requester,
    {
        self.players = Vec::new();
        self.responder = DiscoveryServerState::Stopped;
        self.phase = GameState::MainMenu;
    }

    /// The one remote client's connection is established: seats it under
    /// the opposite symbol of the host's, stops the discovery responder
    /// and starts playing with a fresh session whose journal already
    /// carries the player-joined facts, in seating order.
    pub fn client_connected(&mut self, client_id: u64)
        requires
            old(self).wf(),
            old(self).phase is HostingLobby,
        ensures
            final(self).wf(),
            final(self).phase is Playing,
            final(self).players@ == old(self).players@.push(
                Player {
                    id: client_id,
                    symbol: old(self).players@[0].symbol.spec_next(),
                },
            ),
            final(self).session matches Some(s) && {
                &&& s.board.wf()
                &&& (forall|i: int| 0 <= i < s.board@.len() ==> s.board@[i] is None)
                &&& s.turn.0 == Symbol::Cross
                &&& s.winner.0 is None
                &&& s.log@ == seq![
                    Fact::PlayerJoined {
                        client_id: old(self).players@[0].id,
                        symbol: old(self).players@[0].symbol,
                    },
                    Fact::PlayerJoined {
                        client_id,
                        symbol: old(self).players@[0].symbol.spec_next(),
                    },
                ]
            },
            final(self).responder == DiscoveryServerState::Stopped,
            final(self).requester == old(self).requester,
    {
        let host = self.players[0];
        let joined = Player::new(client_id, host.symbol.next());
        self.players.push(joined);
        let mut session = Session::new();
        session.log.push(Fact::PlayerJoined { client_id: host.id, symbol: host.symbol });
        session.log.push(Fact::PlayerJoined { client_id, symbol: joined.symbol });
        proof {
            assert(session.log@ =~= seq![
                Fact::PlayerJoined { client_id: old(self).players@[0].id, symbol: old(self).players@[0].symbol },
                Fact::PlayerJoined { client_id, symbol: old(self).players@[0].symbol.spec_next() },
            ]);
        }
        self.session = Some(session);
        self.responder = DiscoveryServerState::Stopped;
        self.phase = GameState::Playing;
    }

    /// Becomes a client: enters the connect phase and starts the
    /// discovery requester so nearby hosts can be enumerated.
    pub fn select_join(&mut self)
        requires
            old(self).wf(),
            old(self).phase is MainMenu,
        ensures
            final(self).wf(),
            final(self).phase is Connect,
            final(self).players@ == old(self).players@,
            final(self).session is None,
            final(self).responder == old(self).responder,
            final(self).requester == DiscoveryClientState::Running,
    {
        self.requester = DiscoveryClientState::Running;
        self.phase = GameState::Connect;
    }

    /// A target address was submitted: stops the discovery requester and
    /// waits for the transport handshake.
    pub fn submit_address(&mut self)
        requires
            old(self).wf(),
            old(self).phase is Connect,
        ensures
            final(self).wf(),
            final(self).phase is WaitingConnection,
            final(self).players@ == old(self).players@,
            final(self).session is None,
            final(self).responder == old(self).responder,
            final(self).requester == DiscoveryClientState::Stopped,
    {
        self.requester = DiscoveryClientState::Stopped;
        self.phase = GameState::WaitingConnection;
    }

    /// A transport setup fault while connecting returns to the safe prior
    /// phase: choosing a host, with the requester running again.
    pub fn connect_failed(&mut self)
        requires
            old(self).wf(),
            old(self).phase is WaitingConnection,
        ensures
            final(self).wf(),
            final(self).phase is Connect,
            final(self).players@ == old(self).players@,
            final(self).session is None,
            final(self).responder == old(self).responder,
            final(self).requester == DiscoveryClientState::Running,
    {
        self.requester = DiscoveryClientState::Running;
        self.phase = GameState::Connect;
    }

    /// The transport handshake completed: starts playing as a client.
    /// The roster starts empty and fills from replicated player facts;
    /// the board mirror only ever changes in response to replicated
    /// facts.
    pub fn handshake_complete(&mut self)
        requires
            old(self).wf(),
            old(self).phase is WaitingConnection,
        ensures
            final(self).wf(),
            final(self).phase is Playing,
            final(self).players@ == Seq::<Player>::empty(),
            final(self).session matches Some(s) && fresh_session(s),
            final(self).responder == old(self).responder,
            final(self).requester == old(self).requester,
    {
        self.players = Vec::new();
        self.session = Some(Session::new());
        self.phase = GameState::Playing;
    }

    /// The remote peer was lost while playing: a first-class fact, not an
    /// error. The roster is cleared and the engine enters the
    /// disconnected phase; the board stays visible until the explicit
    /// return to the menu.
    pub fn peer_disconnected(&mut self)
        requires
            old(self).wf(),
            old(self).phase is Playing,
        ensures
            final(self).wf(),
            final(self).phase is Disconnected,
            final(self).players@ == Seq::<Player>::empty(),
            final(self).session == old(self).session,
            final(self).responder == old(self).responder,
            final(self).requester == old(self).requester,
    {
        self.players = Vec::new();
        self.phase = GameState::Disconnected;
    }

    /// The explicit local return-to-menu action, available from every
    /// phase but the menu itself: tears down all session-scoped state
    /// (board, turn, winner, roster) and stops both discovery state
    /// machines before re-entering the main menu.
    pub fn return_to_menu(&mut self)
        requires
            old(self).wf(),
            !(old(self).phase is MainMenu),
        ensures
            final(self).wf(),
            final(self).phase is MainMenu,
            final(self).players@ == Seq::<Player>::empty(),
            final(self).session is None,
            final(self).responder == DiscoveryServerState::Stopped,
            final(self).requester == DiscoveryClientState::Stopped,
    {
        self.session = None;
        self.players = Vec::new();
        self.responder = DiscoveryServerState::Stopped;
        self.requester = DiscoveryClientState::Stopped;
        self.phase = GameState::MainMenu;
    }

    /// The turn authority. Validates `requester` picking `index` against
    /// the current phase, turn and board — always on this, the
    /// authoritative side, whatever the sender believed — and on
    /// acceptance binds the cell to the mover's symbol, advances the
    /// turn, appends the fact to the replication journal, and runs the
    /// win evaluator: a completed line ends the session in game-over with
    /// the winner recorded; a full board without one ends it in a draw.
    /// Every rejection leaves the engine exactly unchanged.
    pub fn submit_pick(&mut self, requester: u64, index: usize) -> (outcome: PickOutcome)
        requires
            old(self).wf(),
        ensures
            final(self).wf(),
            outcome == old(self).pick_outcome(requester, index),
            !(outcome is Accepted) ==> *final(self) == *old(self),
            outcome is Accepted ==> ({
                let before = old(self).session->Some_0;
                let mover = before.turn.0;
                let after_board = before.board@.update(index as int, Some(mover));
                let after = final(self).session->Some_0;
                &&& final(self).session is Some
                &&& after.board@ == after_board
                &&& after.turn.0 == mover.spec_next()
                &&& after.log@ == before.log@.push(
                    Fact::CellOccupied { index: index as u64, symbol: mover },
                )
                &&& final(self).players@ == old(self).players@
                &&& final(self).responder == old(self).responder
                &&& final(self).requester == old(self).requester
                &&& (spec_evaluate(after_board) matches Verdict::Win(w) ==> final(self).phase
                    is GameOver && after.winner.0 == holder_of(old(self).players@, w))
                &&& (spec_evaluate(after_board) is Draw ==> final(self).phase is Draw
                    && after.winner == before.winner)
                &&& (spec_evaluate(after_board) is InProgress ==> final(self).phase is Playing
                    && after.winner == before.winner)
            }),
    {
        if !matches!(self.phase, GameState::Playing) {
            return PickOutcome::Dropped;
        }
        if index >= CELL_COUNT {
            return PickOutcome::RejectedMalformed;
        }
        let mover = match &self.session {
            Some(s) => s.turn.symbol(),
            None => unreached(),
        };
        if !roster_holds(&self.players, requester, mover) {
            return PickOutcome::RejectedWrongTurn;
        }
        let occupied = match &self.session {
            Some(s) => s.board.cell(index).is_some(),
            None => unreached(),
        };
        if occupied {
            return PickOutcome::RejectedOccupied;
        }
        let verdict = match &mut self.session {
            Some(s) => {
                s.board.place(index, mover);
                s.log.push(Fact::CellOccupied { index: index as u64, symbol: mover });
                s.turn.next();
                evaluate(&s.board)
            },
            None => unreached(),
        };
        match verdict {
            Verdict::Win(w) => {
                let holder = find_holder(&self.players, w);
                match &mut self.session {
                    Some(s) => {
                        s.winner = Winner::new(holder);
                    },
                    None => unreached(),
                }
                self.phase = GameState::GameOver;
            },
            Verdict::Draw => {
                self.phase = GameState::Draw;
            },
            Verdict::InProgress => {},
        }
        PickOutcome::Accepted
    }

    /// Applies one replicated fact to this read-only mirror, verbatim:
    /// clients never re-derive the host's decisions. A cell fact binds
    /// the named cell, re-synchronizes the turn to the symbol after the
    /// mover's, and runs the same evaluator the host ran; a player fact
    /// seats the named player. Facts outside the playing phase, for a
    /// cell off the board or already occupied, or for a symbol already
    /// held — none of which an honest host emits — are ignored, and
    /// ignoring is reported by the returned flag.
    pub fn apply_fact(&mut self, fact: Fact) -> (applied: bool)
        requires
            old(self).wf(),
        ensures
            final(self).wf(),
            applied == old(self).fact_applies(fact),
            !applied ==> *final(self) == *old(self),
            applied ==> final(self).responder == old(self).responder && final(self).requester
                == old(self).requester,
            applied ==> (fact matches Fact::PlayerJoined { client_id, symbol } ==> {
                &&& final(self).players@ == old(self).players@.push(
                    Player { id: client_id, symbol },
                )
                &&& final(self).phase == old(self).phase
                &&& final(self).session->Some_0.board@ == old(self).session->Some_0.board@
                &&& final(self).session->Some_0.turn == old(self).session->Some_0.turn
                &&& final(self).session->Some_0.winner == old(self).session->Some_0.winner
                &&& final(self).session->Some_0.log@ == old(self).session->Some_0.log@.push(fact)
            }),
            applied ==> (fact matches Fact::CellOccupied { index, symbol } ==> ({
                let before = old(self).session->Some_0;
                let after_board = before.board@.update(index as int, Some(symbol));
                let after = final(self).session->Some_0;
                &&& final(self).players@ == old(self).players@
                &&& after.board@ == after_board
                &&& after.turn.0 == symbol.spec_next()
                &&& after.log@ == before.log@.push(fact)
                &&& (spec_evaluate(after_board) matches Verdict::Win(w) ==> final(self).phase
                    is GameOver && after.winner.0 == holder_of(old(self).players@, w))
                &&& (spec_evaluate(after_board) is Draw ==> final(self).phase is Draw
                    && after.winner == before.winner)
                &&& (spec_evaluate(after_board) is InProgress ==> final(self).phase is Playing
                    && after.winner == before.winner)
            })),
    {
        if !matches!(self.phase, GameState::Playing) {
            return false;
        }
        match fact {
            Fact::PlayerJoined { client_id, symbol } => {
                if roster_holds_symbol(&self.players, symbol) {
                    return false;
                }
                self.players.push(Player::new(client_id, symbol));
                match &mut self.session {
                    Some(s) => {
                        s.log.push(fact);
                    },
                    None => unreached(),
                }
                true
            },
            Fact::CellOccupied { index, symbol } => {
                if index >= CELL_COUNT as u64 {
                    return false;
                }
                let cell = index as usize;
                let occupied = match &self.session {
                    Some(s) => s.board.cell(cell).is_some(),
                    None => unreached(),
                };
                if occupied {
                    return false;
                }
                let verdict = match &mut self.session {
                    Some(s) => {
                        s.board.place(cell, symbol);
                        s.log.push(fact);
                        s.turn = CurrentTurn::new(symbol.next());
                        evaluate(&s.board)
                    },
                    None => unreached(),
                };
                match verdict {
                    Verdict::Win(w) => {
                        let holder = find_holder(&self.players, w);
                        match &mut self.session {
                            Some(s) => {
                                s.winner = Winner::new(holder);
                            },
                            None => unreached(),
                        }
                        self.phase = GameState::GameOver;
                    },
                    Verdict::Draw => {
                        self.phase = GameState::Draw;
                    },
                    Verdict::InProgress => {},
                }
                true
            },
        }
    }

    /// The symbol currently permitted to act, while a session runs.
    pub fn turn_symbol(&self) -> (r: Option<Symbol>)
        ensures
            self.session is Some ==> r == Some(self.mover()),
            self.session is None ==> r is None,
    {
        match &self.session {
            Some(s) => Some(s.turn.symbol()),
            None => None,
        }
    }

    /// The recorded winner's identity, while a session runs.
    pub fn winner(&self) -> (r: Option<u64>)
        ensures
            self.session is Some ==> r == self.session->Some_0.winner.0,
            self.session is None ==> r is None,
    {
        match &self.session {
            Some(s) => s.winner.client_id(),
            None => None,
        }
    }

    /// A read-only look at one board cell, while a session runs.
    pub fn board_cell(&self, index: usize) -> (r: Option<Symbol>)
        requires
            self.wf(),
            index < CELL_COUNT,
        ensures
            self.session is Some ==> r == self.session->Some_0.board@[index as int],
            self.session is None ==> r is None,
    {
        match &self.session {
            Some(s) => s.board.cell(index),
            None => None,
        }
    }

    /// How many facts the replication journal holds.
    pub fn fact_count(&self) -> (r: usize)
        ensures
            self.session is Some ==> r == self.session->Some_0.log@.len(),
            self.session is None ==> r == 0,
    {
        match &self.session {
            Some(s) => s.log.len(),
            None => 0,
        }
    }

    /// The `i`-th fact of the replication journal, in the exact order the
    /// authority applied the mutations. The journal only ever grows, so a
    /// client that applies facts from its cursor onward observes them in
    /// that order.
    pub fn fact_at(&self, i: usize) -> (r: Fact)
        requires
            self.session is Some,
            i < self.session->Some_0.log@.len(),
        ensures
            r == self.session->Some_0.log@[i as int],
    {
        match &self.session {
            Some(s) => s.log[i],
            None => unreached(),
        }
    }

    /// Whether a replicated fact is applicable to this mirror now: the
    /// mirror is playing, a named cell lies on the board and is empty,
    /// a named symbol is not yet held.
    pub open spec fn fact_applies(self, fact: Fact) -> bool {
        &&& self.phase is Playing
        &&& (fact matches Fact::CellOccupied { index, .. } ==> index < CELL_COUNT
            && self.session->Some_0.board@[index as int] is None)
        &&& (fact matches Fact::PlayerJoined { symbol, .. } ==> !symbol_held(
            self.players@,
            symbol,
        ))
    }
}

/// The game-over message shown to the actor identified by `local_id`:
/// victory when the recorded winner is that identity, defeat when it is
/// another, and a draw when no winner was recorded.
pub fn game_over_message(winner: Option<u64>, local_id: u64) -> (r: &'static str)
    ensures
        (winner matches Some(w) && w == local_id) ==> r@ == "You won!"@,
        (winner matches Some(w) && w != local_id) ==> r@ == "You lost!"@,
        winner is None ==> r@ == "It's a draw!"@,
{
    match winner {
        Some(w) => {
            if w == local_id {
                "You won!"
            } else {
                "You lost!"
            }
        },
        None => "It's a draw!",
    }
}

/// One accepted mutation writes exactly one cell — the mover's symbol at
/// the picked index — and never touches another: no accepted mutation
/// writes two different symbols, and a cell's occupant, once set, is
/// invariant for the rest of the session.
pub proof fn lemma_pick_writes_single_cell(m: GameFlow, requester: u64, index: usize)
    requires
        m.wf(),
        m.accepts(requester, index),
    ensures
        ({
            let before = m.session->Some_0.board@;
            let after = before.update(index as int, Some(m.mover()));
            &&& after[index as int] == Some(m.mover())
            &&& (forall|j: int| 0 <= j < before.len() && j != index ==> after[j] == before[j])
            &&& (forall|j: int|
                0 <= j < before.len() && before[j] is Some ==> after[j] == before[j])
        }),
{
}

/// Turn alternates strictly: after the authority accepts a pick, the turn
/// stands at the opposite of the symbol that just moved (never the same
/// symbol), and whatever pick it accepts next is made by a holder of that
/// opposite symbol.
pub proof fn lemma_turn_alternates(before: GameFlow, after: GameFlow, requester: u64, index: usize)
    requires
        before.wf(),
        before.accepts(requester, index),
        after.session is Some,
        after.mover() == before.mover().spec_next(),
    ensures
        after.mover() != before.mover(),
        forall|r2: u64, i2: usize|
            after.accepts(r2, i2) ==> holds_symbol(
                after.players@,
                r2,
                before.mover().spec_next(),
            ),
{
}

} // verus!
