use tic_tac_toe::board::CellIndex;
use tic_tac_toe::discovery::{DiscoveryClientState, DiscoveryServerState};
use tic_tac_toe::player::SERVER_ID;
use tic_tac_toe::protocol::Fact;
use tic_tac_toe::resources::{CurrentTurn, Winner};
use tic_tac_toe::state::{GameFlow, GameState, PickOutcome, game_over_message};
use tic_tac_toe::symbol::Symbol;

#[test]
fn engine_starts_at_the_main_menu() {
    let flow = GameFlow::new();
    assert_eq!(flow.phase, GameState::MainMenu);
    assert!(flow.session.is_none());
    assert!(flow.players.is_empty());
    assert_eq!(flow.responder, DiscoveryServerState::Stopped);
    assert_eq!(flow.requester, DiscoveryClientState::Stopped);
}

#[test]
fn hotseat_path_seats_both_symbols_locally() {
    let mut flow = GameFlow::new();
    flow.select_hotseat();
    assert_eq!(flow.phase, GameState::Hotseat);
    assert_eq!(flow.players.len(), 2);
    assert_eq!(flow.players[0].id, SERVER_ID);
    assert_eq!(flow.players[0].symbol, Symbol::Cross);
    assert_eq!(flow.players[1].id, SERVER_ID);
    assert_eq!(flow.players[1].symbol, Symbol::Nought);
    flow.start_playing();
    assert_eq!(flow.phase, GameState::Playing);
    assert_eq!(flow.turn_symbol(), Some(Symbol::Cross));
    assert_eq!(flow.winner(), None);
    assert_eq!(flow.fact_count(), 0);
}

#[test]
fn hosting_path_runs_responder_until_the_client_connects() {
    let mut flow = GameFlow::new();
    flow.select_host();
    assert_eq!(flow.phase, GameState::HostingLobby);
    assert_eq!(flow.responder, DiscoveryServerState::Running);
    assert_eq!(flow.players.len(), 1);
    assert_eq!(flow.players[0].id, SERVER_ID);
    flow.client_connected(42);
    assert_eq!(flow.phase, GameState::Playing);
    assert_eq!(flow.responder, DiscoveryServerState::Stopped);
    assert_eq!(flow.players.len(), 2);
    assert_eq!(flow.players[1].id, 42);
    assert_eq!(flow.players[1].symbol, Symbol::Nought);
    // The journal already replicates both seats, in seating order.
    assert_eq!(flow.fact_count(), 2);
    assert_eq!(
        flow.fact_at(0),
        Fact::PlayerJoined { client_id: SERVER_ID, symbol: Symbol::Cross }
    );
    assert_eq!(
        flow.fact_at(1),
        Fact::PlayerJoined { client_id: 42, symbol: Symbol::Nought }
    );
}

#[test]
fn hosting_fault_returns_to_the_menu() {
    let mut flow = GameFlow::new();
    flow.select_host();
    flow.hosting_failed();
    assert_eq!(flow.phase, GameState::MainMenu);
    assert_eq!(flow.responder, DiscoveryServerState::Stopped);
    assert!(flow.players.is_empty());
}

#[test]
fn joining_path_gates_the_requester_on_the_connect_phase() {
    let mut flow = GameFlow::new();
    flow.select_join();
    assert_eq!(flow.phase, GameState::Connect);
    assert_eq!(flow.requester, DiscoveryClientState::Running);
    flow.submit_address();
    assert_eq!(flow.phase, GameState::WaitingConnection);
    assert_eq!(flow.requester, DiscoveryClientState::Stopped);
    flow.connect_failed();
    assert_eq!(flow.phase, GameState::Connect);
    assert_eq!(flow.requester, DiscoveryClientState::Running);
    flow.submit_address();
    flow.handshake_complete();
    assert_eq!(flow.phase, GameState::Playing);
    assert!(flow.players.is_empty());
    assert_eq!(flow.turn_symbol(), Some(Symbol::Cross));
}

fn connected_client() -> GameFlow {
    let mut flow = GameFlow::new();
    flow.select_join();
    flow.submit_address();
    flow.handshake_complete();
    flow
}

#[test]
fn client_mirror_applies_replicated_facts_verbatim() {
    let mut flow = connected_client();
    assert!(flow.apply_fact(Fact::PlayerJoined { client_id: SERVER_ID, symbol: Symbol::Cross }));
    assert!(flow.apply_fact(Fact::PlayerJoined { client_id: 7, symbol: Symbol::Nought }));
    assert_eq!(flow.players.len(), 2);
    assert!(flow.apply_fact(Fact::CellOccupied { index: 4, symbol: Symbol::Cross }));
    assert_eq!(flow.board_cell(4), Some(Symbol::Cross));
    assert_eq!(flow.turn_symbol(), Some(Symbol::Nought));
    assert_eq!(flow.phase, GameState::Playing);
}

#[test]
fn client_mirror_ignores_inapplicable_facts() {
    let mut flow = connected_client();
    assert!(flow.apply_fact(Fact::PlayerJoined { client_id: SERVER_ID, symbol: Symbol::Cross }));
    // A second holder of the same symbol is never seated.
    assert!(!flow.apply_fact(Fact::PlayerJoined { client_id: 8, symbol: Symbol::Cross }));
    assert_eq!(flow.players.len(), 1);
    // A cell off the board is ignored.
    assert!(!flow.apply_fact(Fact::CellOccupied { index: 9, symbol: Symbol::Cross }));
    // An occupied cell is never rewritten.
    assert!(flow.apply_fact(Fact::CellOccupied { index: 0, symbol: Symbol::Cross }));
    assert!(!flow.apply_fact(Fact::CellOccupied { index: 0, symbol: Symbol::Nought }));
    assert_eq!(flow.board_cell(0), Some(Symbol::Cross));
    // Outside the playing phase everything is ignored.
    flow.return_to_menu();
    assert!(!flow.apply_fact(Fact::CellOccupied { index: 1, symbol: Symbol::Nought }));
}

#[test]
fn client_mirror_reaches_game_over_from_facts() {
    let mut flow = connected_client();
    assert!(flow.apply_fact(Fact::PlayerJoined { client_id: SERVER_ID, symbol: Symbol::Cross }));
    assert!(flow.apply_fact(Fact::PlayerJoined { client_id: 7, symbol: Symbol::Nought }));
    for (index, symbol) in [
        (0, Symbol::Cross),
        (3, Symbol::Nought),
        (1, Symbol::Cross),
        (4, Symbol::Nought),
        (2, Symbol::Cross),
    ] {
        assert!(flow.apply_fact(Fact::CellOccupied { index, symbol }));
    }
    assert_eq!(flow.phase, GameState::GameOver);
    // The winner is the local mirror's holder of the winning symbol.
    assert_eq!(flow.winner(), Some(SERVER_ID));
}

#[test]
fn peer_loss_forces_the_disconnected_phase() {
    let mut flow = GameFlow::new();
    flow.select_host();
    flow.client_connected(42);
    flow.submit_pick(SERVER_ID, 0);
    flow.peer_disconnected();
    assert_eq!(flow.phase, GameState::Disconnected);
    assert!(flow.players.is_empty());
    // The board stays visible until the explicit return to the menu.
    assert_eq!(flow.board_cell(0), Some(Symbol::Cross));
    assert_eq!(flow.submit_pick(SERVER_ID, 1), PickOutcome::Dropped);
}

#[test]
fn return_to_menu_tears_down_all_session_state() {
    let mut flow = GameFlow::new();
    flow.select_host();
    flow.client_connected(42);
    flow.submit_pick(SERVER_ID, 0);
    flow.return_to_menu();
    assert_eq!(flow.phase, GameState::MainMenu);
    assert!(flow.session.is_none());
    assert!(flow.players.is_empty());
    assert_eq!(flow.responder, DiscoveryServerState::Stopped);
    assert_eq!(flow.requester, DiscoveryClientState::Stopped);
    // Re-entering a session starts from scratch: no state leaks across
    // sessions.
    flow.select_hotseat();
    flow.start_playing();
    assert_eq!(flow.turn_symbol(), Some(Symbol::Cross));
    assert_eq!(flow.winner(), None);
    assert_eq!(flow.board_cell(0), None);
    assert_eq!(flow.fact_count(), 0);
}

#[test]
fn host_validates_its_own_picks_through_the_same_path() {
    // The host run as a local player re-derives its request through the
    // identical acceptance path: its own wrong-turn picks are rejected
    // exactly like a client's.
    let mut flow = GameFlow::new();
    flow.select_host();
    flow.client_connected(42);
    assert_eq!(flow.submit_pick(SERVER_ID, 0), PickOutcome::Accepted);
    assert_eq!(flow.submit_pick(SERVER_ID, 1), PickOutcome::RejectedWrongTurn);
    assert_eq!(flow.submit_pick(42, 1), PickOutcome::Accepted);
}

#[test]
fn game_over_message_addresses_the_local_actor() {
    assert_eq!(game_over_message(Some(SERVER_ID), SERVER_ID), "You won!");
    assert_eq!(game_over_message(Some(42), SERVER_ID), "You lost!");
    assert_eq!(game_over_message(None, SERVER_ID), "It's a draw!");
}

#[test]
fn symbol_helpers_match_the_fixed_mapping() {
    assert_eq!(Symbol::Cross.next(), Symbol::Nought);
    assert_eq!(Symbol::Nought.next(), Symbol::Cross);
    assert_eq!(Symbol::Cross.glyph(), "❌");
    assert_eq!(Symbol::Nought.glyph(), "⭕");
    assert_eq!(Symbol::Cross.label(), "cross");
    assert_eq!(Symbol::Nought.label(), "nought");
    assert_eq!(Symbol::default(), Symbol::Cross);
}

#[test]
fn resource_helpers_behave_as_named() {
    let cell = CellIndex::new(5);
    assert_eq!(cell.index(), 5);
    let mut turn = CurrentTurn::default();
    assert_eq!(turn.symbol(), Symbol::Cross);
    turn.next();
    assert_eq!(turn.symbol(), Symbol::Nought);
    turn.reset();
    assert_eq!(turn.symbol(), Symbol::Cross);
    let mut winner = Winner::new(Some(3));
    assert_eq!(winner.client_id(), Some(3));
    winner.clear();
    assert_eq!(winner.client_id(), None);
    assert_eq!(Winner::default().client_id(), None);
}
