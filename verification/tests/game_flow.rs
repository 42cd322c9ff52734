use battleship::contract::BattleshipContract;
use battleship::game::{GameStatus, TOTAL_SHIP_CELLS};

const PLAYER1: u64 = 101;
const PLAYER2: u64 = 202;

fn setup_started() -> BattleshipContract {
    let mut c = BattleshipContract::new();
    let game_id = c.create_game(PLAYER1);
    c.join_game(game_id, PLAYER2).unwrap();
    c.commit_board(game_id, PLAYER1, [1u8; 32]).unwrap();
    c.commit_board(game_id, PLAYER2, [2u8; 32]).unwrap();
    c
}

#[test]
fn test_create_and_join_game() {
    let mut c = BattleshipContract::new();

    let player1 = PLAYER1;
    let player2 = PLAYER2;

    // Create game
    let game_id = c.create_game(player1);
    assert_eq!(game_id, 1);

    // Join game
    c.join_game(game_id, player2).unwrap();

    // Check state
    let game = c.get_game(game_id).unwrap();
    assert_eq!(game.status, GameStatus::Placing);
    assert_eq!(game.player1, player1);
    assert_eq!(game.player2, Some(player2));
}

#[test]
fn test_commit_boards_starts_game() {
    let mut c = BattleshipContract::new();

    let game_id = c.create_game(PLAYER1);
    c.join_game(game_id, PLAYER2).unwrap();

    // Commit boards
    let hash1 = [1u8; 32];
    let hash2 = [2u8; 32];

    c.commit_board(game_id, PLAYER1, hash1).unwrap();
    c.commit_board(game_id, PLAYER2, hash2).unwrap();

    let game = c.get_game(game_id).unwrap();
    assert_eq!(game.status, GameStatus::Active);
    assert_eq!(game.current_turn, 1);
}

#[test]
fn test_full_game_flow() {
    let mut c = BattleshipContract::new();

    let game_id = c.create_game(PLAYER1);
    c.join_game(game_id, PLAYER2).unwrap();

    c.commit_board(game_id, PLAYER1, [1u8; 32]).unwrap();
    c.commit_board(game_id, PLAYER2, [2u8; 32]).unwrap();

    let proof_hash = [3u8; 32];

    // Player 1 attacks - hit
    let result = c.attack(game_id, PLAYER1, 0, 0, true, proof_hash).unwrap();
    assert_eq!(result, true);

    // Check turn switched
    let game = c.get_game(game_id).unwrap();
    assert_eq!(game.current_turn, 2);
    assert_eq!(game.p1_hits, 1);

    // Player 2 attacks - miss
    let result = c.attack(game_id, PLAYER2, 5, 5, false, proof_hash).unwrap();
    assert_eq!(result, false);

    let game = c.get_game(game_id).unwrap();
    assert_eq!(game.current_turn, 1);
    assert_eq!(game.p2_hits, 0);
}

#[test]
fn test_win_condition() {
    let mut c = BattleshipContract::new();

    let game_id = c.create_game(PLAYER1);
    c.join_game(game_id, PLAYER2).unwrap();

    c.commit_board(game_id, PLAYER1, [1u8; 32]).unwrap();
    c.commit_board(game_id, PLAYER2, [2u8; 32]).unwrap();

    let proof_hash = [3u8; 32];

    // Simulate player 1 getting 17 hits (all ship cells)
    for i in 0..17u32 {
        let x = i % 10;
        let y = i / 10;
        // P1 attacks and hits
        c.attack(game_id, PLAYER1, x, y, true, proof_hash).unwrap();

        let game = c.get_game(game_id).unwrap();
        if game.status == GameStatus::Complete {
            break;
        }
        // P2 attacks and misses
        c.attack(game_id, PLAYER2, x, y, false, proof_hash).unwrap();
    }

    let game = c.get_game(game_id).unwrap();
    assert_eq!(game.status, GameStatus::Complete);
    assert_eq!(game.winner, Some(1));
    assert_eq!(game.p1_hits, 17);
}

#[test]
fn game_ids_strictly_increase_from_one() {
    let mut c = BattleshipContract::new();
    assert_eq!(c.game_count(), 0);
    let a = c.create_game(PLAYER1);
    let b = c.create_game(PLAYER2);
    let d = c.create_game(7);
    assert_eq!(a, 1);
    assert_eq!(b, 2);
    assert_eq!(d, 3);
    assert_eq!(c.game_count(), 3);
    assert_eq!(c.get_game(2).unwrap().player1, PLAYER2);
}

#[test]
fn turn_alternates_while_active() {
    let mut c = setup_started();
    let mut expected_turn = 1u32;
    for i in 0..6u32 {
        let g = c.get_game(1).unwrap();
        assert_eq!(g.status, GameStatus::Active);
        assert_eq!(g.current_turn, expected_turn);
        let attacker = if expected_turn == 1 { PLAYER1 } else { PLAYER2 };
        c.attack(1, attacker, i % 10, i / 10, false, [3u8; 32]).unwrap();
        expected_turn = if expected_turn == 1 { 2 } else { 1 };
    }
    assert_eq!(c.get_game(1).unwrap().move_count, 6);
}

#[test]
fn winning_attack_does_not_flip_turn() {
    let mut c = setup_started();
    for i in 0..(TOTAL_SHIP_CELLS - 1) {
        c.attack(1, PLAYER1, i % 10, i / 10, true, [3u8; 32]).unwrap();
        c.attack(1, PLAYER2, i % 10, i / 10, false, [4u8; 32]).unwrap();
    }
    let g = c.get_game(1).unwrap();
    assert_eq!(g.p1_hits, 16);
    assert_eq!(g.current_turn, 1);
    // The 17th hit completes the game; the turn stays with the winner's slot.
    c.attack(1, PLAYER1, 7, 7, true, [3u8; 32]).unwrap();
    let g = c.get_game(1).unwrap();
    assert_eq!(g.status, GameStatus::Complete);
    assert_eq!(g.winner, Some(1));
    assert_eq!(g.p1_hits, TOTAL_SHIP_CELLS);
    assert_eq!(g.p2_hits, 0);
    assert_eq!(g.current_turn, 1);
}

#[test]
fn move_ledger_keeps_every_claim_in_order() {
    let mut c = setup_started();
    c.attack(1, PLAYER1, 0, 9, true, [5u8; 32]).unwrap();
    c.attack(1, PLAYER2, 3, 4, false, [6u8; 32]).unwrap();
    let moves = c.get_moves(1).unwrap();
    assert_eq!(moves.len(), 2);
    assert_eq!(moves[0].attacker, PLAYER1);
    assert_eq!(moves[0].x, 0);
    assert_eq!(moves[0].y, 9);
    assert_eq!(moves[0].hit, true);
    assert_eq!(moves[0].proof_hash, [5u8; 32]);
    assert_eq!(moves[1].attacker, PLAYER2);
    assert_eq!(moves[1].x, 3);
    assert_eq!(moves[1].y, 4);
    assert_eq!(moves[1].hit, false);
    assert_eq!(moves[1].proof_hash, [6u8; 32]);
}

#[test]
fn fresh_game_record_defaults() {
    let mut c = BattleshipContract::new();
    c.create_game(PLAYER1);
    let g = c.get_game(1).unwrap();
    assert_eq!(g.game_id, 1);
    assert_eq!(g.player1, PLAYER1);
    assert_eq!(g.player2, None);
    assert_eq!(g.p1_board_hash, None);
    assert_eq!(g.p2_board_hash, None);
    assert_eq!(g.status, GameStatus::Waiting);
    assert_eq!(g.current_turn, 1);
    assert_eq!(g.p1_hits, 0);
    assert_eq!(g.p2_hits, 0);
    assert_eq!(g.winner, None);
    assert_eq!(g.move_count, 0);
    assert_eq!(c.get_moves(1).unwrap().len(), 0);
}

#[test]
fn committed_hashes_are_stored() {
    let mut c = BattleshipContract::new();
    c.create_game(PLAYER1);
    c.join_game(1, PLAYER2).unwrap();
    c.commit_board(1, PLAYER2, [9u8; 32]).unwrap();
    let g = c.get_game(1).unwrap();
    assert_eq!(g.p1_board_hash, None);
    assert_eq!(g.p2_board_hash, Some([9u8; 32]));
    assert_eq!(g.status, GameStatus::Placing);
    c.commit_board(1, PLAYER1, [8u8; 32]).unwrap();
    let g = c.get_game(1).unwrap();
    assert_eq!(g.p1_board_hash, Some([8u8; 32]));
    assert_eq!(g.status, GameStatus::Active);
}
