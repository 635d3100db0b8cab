use chess_api::legal_moves::{
    bishop_moves, helper_bishop_moves, helper_rook_moves, king_moves, knight_moves, pawn_moves,
    queen_moves, rook_moves,
};
use chess_api::perform_moves::{checked_squares, is_check, is_legal};
use chess_api::state::{Color, GameState};

const FILE_A: u64 = 0x0101_0101_0101_0101;
const FILE_H: u64 = 0x8080_8080_8080_8080;

#[test]
fn test_pawn_moves() {
    let state = GameState::new();

    let mut result = pawn_moves(1 << 8, &state, Color::White);
    assert_eq!(result, 1 << 16 | 1 << 24);

    result = pawn_moves(1 << 55, &state, Color::Black);
    assert_eq!(result, 1 << 47 | 1 << 39);
}

#[test]
fn test_king_moves() {
    let state = GameState::new();
    let side = state.side_to_move;

    king_moves(1 << 30, &state, side, true);
}

#[test]
fn test_knight_moves() {
    let state = GameState::new();
    let side = state.side_to_move;

    let result = knight_moves(1 << 0, &state, side); // a1
    assert_eq!(result, 1 << 17);
    let result = knight_moves(1 << 7, &state, side); // h1
    assert_eq!(result, 1 << 22);
}

#[test]
fn test_rook_moves() {
    let state = GameState::new();
    let side = state.side_to_move;
    rook_moves(1 << 16, &state, side);
}

#[test]
fn test_bishop_moves() {
    let state = GameState::new();
    let side = state.side_to_move;
    bishop_moves(1 << 0, &state, side);
    bishop_moves(1 << 8, &state, side);
    bishop_moves(1 << 63, &state, side);
}

#[test]
fn test_queen_moves() {
    let state = GameState::new();

    queen_moves(1 << 16, &state, state.side_to_move);
}

#[test]
fn test_is_legal() {
    let state = GameState::new();

    let mut result = is_legal(12, 28, &state); // legal
    assert_eq!(result, true);
    result = is_legal(50, 40, &state); // not legal
    assert_eq!(result, false);
}

#[test]
fn test_is_check() {
    let state = GameState::new();

    assert_eq!(is_check(&state, state.side_to_move), false);
}

// From the initial position neither side attacks its own king.
#[test]
fn test_no_self_attack_initial() {
    let state = GameState::new();
    let white = checked_squares(&state, Color::White);
    let black = checked_squares(&state, Color::Black);
    assert_eq!(white & state.board.white_king, 0);
    assert_eq!(white & state.board.white_occupied, 0);
    assert_eq!(black & state.board.black_king, 0);
    assert_eq!(black & state.board.black_occupied, 0);
}

// A rook on square 16 (a3) in the initial position: up the a-file to a7
// (capturing there) and right along the third rank; its only h-file
// target is h3, on its own rank — no wraparound onto another rank.
#[test]
fn test_rook_moves_exact() {
    let state = GameState::new();
    let result = helper_rook_moves(16, &state, Color::White);
    let up: u64 = 1 << 24 | 1 << 32 | 1 << 40 | 1 << 48;
    let right: u64 = 0x0000_0000_00FE_0000;
    assert_eq!(result, up | right);
    assert_eq!(result & FILE_H, 1 << 23);
}

// Rooks and bishops on edge squares never wrap to the opposite edge:
// for every a-file square the only h-file rook target lies on the same
// rank, and a bishop from either edge stays off the opposite edge
// entirely while the long diagonal is blocked.
#[test]
fn test_edge_squares_no_wraparound() {
    let state = GameState::new();
    for rank in 0..8i8 {
        let a_sq: i8 = rank * 8;
        let h_sq: i8 = rank * 8 + 7;
        for side in [Color::White, Color::Black] {
            let rook_a = helper_rook_moves(a_sq, &state, side);
            let rook_h = helper_rook_moves(h_sq, &state, side);
            // any h-file (resp. a-file) target sits on the mover's rank
            assert_eq!(rook_a & FILE_H & !(0xFFu64 << (rank * 8)), 0);
            assert_eq!(rook_h & FILE_A & !(0xFFu64 << (rank * 8)), 0);
            let bishop_a = helper_bishop_moves(a_sq, &state, side);
            let bishop_h = helper_bishop_moves(h_sq, &state, side);
            // the blocked initial position keeps bishops off the far file
            assert_eq!(bishop_a & FILE_H, 0);
            assert_eq!(bishop_h & FILE_A, 0);
        }
    }
}

// Scenario: from the initial position the pawn on a2 may go to a3 or
// a4, and the pawn on h7 (Black to move) to h6 or h5 — checked through
// the legality filter as well.
#[test]
fn test_pawn_legal_targets() {
    let mut state = GameState::new();
    for target in 0..64i8 {
        let legal = is_legal(8, target, &state);
        assert_eq!(legal, target == 16 || target == 24);
    }
    state.side_to_move = Color::Black;
    for target in 0..64i8 {
        let legal = is_legal(55, target, &state);
        assert_eq!(legal, target == 47 || target == 39);
    }
}
