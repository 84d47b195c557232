use tic_tac_toe::evaluator::{Verdict, evaluate};
use tic_tac_toe::player::{Player, SERVER_ID, local_player_turn};
use tic_tac_toe::protocol::Fact;
use tic_tac_toe::resources::CurrentTurn;
use tic_tac_toe::state::{GameFlow, GameState, PickOutcome};
use tic_tac_toe::symbol::Symbol;

fn hotseat_flow() -> GameFlow {
    let mut flow = GameFlow::new();
    flow.select_hotseat();
    flow.start_playing();
    flow
}

fn board_snapshot(flow: &GameFlow) -> Vec<Option<Symbol>> {
    (0..9).map(|i| flow.board_cell(i)).collect()
}

#[test]
fn scenario_a_three_picks_in_progress() {
    let mut flow = hotseat_flow();
    assert_eq!(flow.submit_pick(SERVER_ID, 0), PickOutcome::Accepted);
    assert_eq!(flow.submit_pick(SERVER_ID, 4), PickOutcome::Accepted);
    assert_eq!(flow.submit_pick(SERVER_ID, 1), PickOutcome::Accepted);
    assert_eq!(flow.board_cell(0), Some(Symbol::Cross));
    assert_eq!(flow.board_cell(1), Some(Symbol::Cross));
    assert_eq!(flow.board_cell(4), Some(Symbol::Nought));
    for i in [2, 3, 5, 6, 7, 8] {
        assert_eq!(flow.board_cell(i), None);
    }
    assert_eq!(flow.turn_symbol(), Some(Symbol::Nought));
    assert_eq!(flow.phase, GameState::Playing);
    let session = flow.session.as_ref().unwrap();
    assert_eq!(evaluate(&session.board), Verdict::InProgress);
}

#[test]
fn scenario_b_cross_wins_top_row() {
    let mut flow = hotseat_flow();
    for index in [0, 3, 1, 4] {
        assert_eq!(flow.submit_pick(SERVER_ID, index), PickOutcome::Accepted);
    }
    assert_eq!(flow.phase, GameState::Playing);
    assert_eq!(flow.winner(), None);
    assert_eq!(flow.submit_pick(SERVER_ID, 2), PickOutcome::Accepted);
    assert_eq!(flow.phase, GameState::GameOver);
    assert_eq!(flow.winner(), Some(SERVER_ID));
    let session = flow.session.as_ref().unwrap();
    assert_eq!(evaluate(&session.board), Verdict::Win(Symbol::Cross));
}

#[test]
fn scenario_c_full_board_draw() {
    let mut flow = hotseat_flow();
    // Cross takes {0, 2, 3, 7, 8}, Nought takes {1, 4, 5, 6}: no line.
    for index in [0, 1, 2, 4, 3, 5, 7, 6] {
        assert_eq!(flow.submit_pick(SERVER_ID, index), PickOutcome::Accepted);
        assert_eq!(flow.phase, GameState::Playing);
    }
    assert_eq!(flow.submit_pick(SERVER_ID, 8), PickOutcome::Accepted);
    assert_eq!(flow.phase, GameState::Draw);
    assert_eq!(flow.winner(), None);
    let session = flow.session.as_ref().unwrap();
    assert_eq!(evaluate(&session.board), Verdict::Draw);
}

#[test]
fn scenario_e_occupied_cell_rejected_without_replication() {
    let mut flow = hotseat_flow();
    assert_eq!(flow.submit_pick(SERVER_ID, 0), PickOutcome::Accepted);
    let board_before = board_snapshot(&flow);
    let facts_before = flow.fact_count();
    let turn_before = flow.turn_symbol();
    assert_eq!(flow.submit_pick(SERVER_ID, 0), PickOutcome::RejectedOccupied);
    assert_eq!(board_snapshot(&flow), board_before);
    assert_eq!(flow.fact_count(), facts_before);
    assert_eq!(flow.turn_symbol(), turn_before);
    assert_eq!(flow.phase, GameState::Playing);
}

#[test]
fn out_of_range_pick_rejected_unchanged() {
    let mut flow = hotseat_flow();
    let board_before = board_snapshot(&flow);
    // The bound is strict: the first index past the last cell is already
    // malformed.
    assert_eq!(flow.submit_pick(SERVER_ID, 9), PickOutcome::RejectedMalformed);
    assert_eq!(flow.submit_pick(SERVER_ID, 100), PickOutcome::RejectedMalformed);
    assert_eq!(board_snapshot(&flow), board_before);
    assert_eq!(flow.turn_symbol(), Some(Symbol::Cross));
    assert_eq!(flow.fact_count(), 0);
}

#[test]
fn wrong_turn_pick_rejected_unchanged() {
    let mut flow = GameFlow::new();
    flow.select_host();
    flow.client_connected(7);
    assert_eq!(flow.phase, GameState::Playing);
    let facts_before = flow.fact_count();
    // The client holds Nought; Cross moves first.
    assert_eq!(flow.submit_pick(7, 0), PickOutcome::RejectedWrongTurn);
    // An unrelated identity holds nothing at all.
    assert_eq!(flow.submit_pick(99, 0), PickOutcome::RejectedWrongTurn);
    assert_eq!(flow.board_cell(0), None);
    assert_eq!(flow.turn_symbol(), Some(Symbol::Cross));
    assert_eq!(flow.fact_count(), facts_before);
}

#[test]
fn pick_outside_playing_phase_dropped() {
    let mut flow = GameFlow::new();
    assert_eq!(flow.submit_pick(SERVER_ID, 0), PickOutcome::Dropped);
    let mut flow = hotseat_flow();
    for index in [0, 3, 1, 4, 2] {
        flow.submit_pick(SERVER_ID, index);
    }
    assert_eq!(flow.phase, GameState::GameOver);
    let board_before = board_snapshot(&flow);
    assert_eq!(flow.submit_pick(SERVER_ID, 5), PickOutcome::Dropped);
    assert_eq!(board_snapshot(&flow), board_before);
    assert_eq!(flow.phase, GameState::GameOver);
}

#[test]
fn turn_alternates_across_accepted_picks() {
    let mut flow = hotseat_flow();
    let mut expected = Symbol::Cross;
    for index in [4, 0, 1, 7, 6] {
        assert_eq!(flow.turn_symbol(), Some(expected));
        assert_eq!(flow.submit_pick(SERVER_ID, index), PickOutcome::Accepted);
        expected = expected.next();
        assert_eq!(flow.turn_symbol(), Some(expected));
    }
}

#[test]
fn occupied_cells_never_change() {
    let mut flow = hotseat_flow();
    let picks = [4, 0, 1, 7, 5];
    let mut owners: Vec<(usize, Symbol)> = Vec::new();
    for index in picks {
        let mover = flow.turn_symbol().unwrap();
        assert_eq!(flow.submit_pick(SERVER_ID, index), PickOutcome::Accepted);
        owners.push((index, mover));
        for (cell, owner) in &owners {
            assert_eq!(flow.board_cell(*cell), Some(*owner));
        }
    }
}

#[test]
fn evaluator_is_idempotent() {
    let mut flow = hotseat_flow();
    for index in [0, 4, 1] {
        flow.submit_pick(SERVER_ID, index);
    }
    let session = flow.session.as_ref().unwrap();
    let first = evaluate(&session.board);
    let second = evaluate(&session.board);
    assert_eq!(first, second);
    assert_eq!(first, Verdict::InProgress);
}

#[test]
fn winning_move_on_full_board_is_a_win_not_a_draw() {
    // Cross fills {0, 1, 5, 6, 2}; the last cell completes the top row
    // {0, 1, 2} on a full board.
    let mut flow = hotseat_flow();
    for index in [0, 3, 1, 4, 5, 7, 6, 8] {
        assert_eq!(flow.submit_pick(SERVER_ID, index), PickOutcome::Accepted);
        assert_eq!(flow.phase, GameState::Playing);
    }
    assert_eq!(flow.submit_pick(SERVER_ID, 2), PickOutcome::Accepted);
    assert_eq!(flow.phase, GameState::GameOver);
    assert_eq!(flow.winner(), Some(SERVER_ID));
}

#[test]
fn local_player_turn_checks_identity_and_symbol() {
    let players = vec![
        Player::new(SERVER_ID, Symbol::Cross),
        Player::new(9, Symbol::Nought),
    ];
    let cross_turn = CurrentTurn::new(Symbol::Cross);
    let nought_turn = CurrentTurn::new(Symbol::Nought);
    assert!(local_player_turn(&players, SERVER_ID, &cross_turn));
    assert!(!local_player_turn(&players, SERVER_ID, &nought_turn));
    assert!(local_player_turn(&players, 9, &nought_turn));
    assert!(!local_player_turn(&players, 9, &cross_turn));
    assert!(!local_player_turn(&players, 42, &cross_turn));
}

#[test]
fn replication_log_orders_facts_as_accepted() {
    let mut flow = hotseat_flow();
    flow.submit_pick(SERVER_ID, 4);
    flow.submit_pick(SERVER_ID, 0);
    assert_eq!(flow.fact_count(), 2);
    assert_eq!(
        flow.fact_at(0),
        Fact::CellOccupied { index: 4, symbol: Symbol::Cross }
    );
    assert_eq!(
        flow.fact_at(1),
        Fact::CellOccupied { index: 0, symbol: Symbol::Nought }
    );
}
