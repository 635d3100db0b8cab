use chess_api::perform_moves::{
    capture, castle, empty_square, fill_square, is_check, is_checkmate_stalemate, is_legal,
    make_move, undo_move, MoveOutcome,
};
use chess_api::state::{Color, GameState, History, MAX_GAME_MOVES};

#[test]
fn test_make_move() {
    let mut state = GameState::new();
    let mut history = History::new();

    make_move(12, 28, &mut state, &mut history, true, 'Q'); // e2-e4
    make_move(52, 36, &mut state, &mut history, true, 'Q'); // e7-e5
    make_move(5, 26, &mut state, &mut history, true, 'Q'); // Bf1-c4
    make_move(51, 43, &mut state, &mut history, true, 'Q'); // d7-d6
    make_move(26, 53, &mut state, &mut history, true, 'Q'); // Bc4xf7+

    assert_eq!(is_check(&state, Color::White), true);
    assert_eq!(is_check(&state, Color::Black), false);

    // ignores the check, so the move is refused
    let result = make_move(55, 47, &mut state, &mut history, true, 'Q');
    assert_eq!(result, MoveOutcome::Rejected);
}

#[test]
fn test_is_checkmate_stalemate() {
    let mut state = GameState::new();
    let mut history = History::new();

    make_move(12, 28, &mut state, &mut history, true, 'Q'); // e2-e4
    assert_eq!(state.side_to_move, Color::Black);

    make_move(52, 36, &mut state, &mut history, true, 'Q'); // e7-e5
    assert_eq!(state.side_to_move, Color::White);

    make_move(5, 26, &mut state, &mut history, true, 'Q'); // Bf1-c4
    assert_eq!(state.side_to_move, Color::Black);

    make_move(51, 43, &mut state, &mut history, true, 'Q'); // d7-d6
    assert_eq!(state.side_to_move, Color::White);

    make_move(3, 21, &mut state, &mut history, true, 'Q'); // Qd1-f3
    assert_eq!(state.side_to_move, Color::Black);

    make_move(57, 42, &mut state, &mut history, true, 'Q'); // Nb8-c6
    assert_eq!(state.side_to_move, Color::White);

    make_move(21, 53, &mut state, &mut history, true, 'Q'); // Qf3xf7#
    assert_eq!(state.side_to_move, Color::Black);

    state.side_to_move = Color::Black;
    assert_eq!(is_checkmate_stalemate(&mut state), true);
}

// Scholar's mate is flagged as checkmate for Black by the executor
// itself.
#[test]
fn test_scholars_mate_outcome() {
    let mut state = GameState::new();
    let mut history = History::new();

    assert_eq!(make_move(12, 28, &mut state, &mut history, true, 'Q'), MoveOutcome::Accepted);
    assert_eq!(make_move(52, 36, &mut state, &mut history, true, 'Q'), MoveOutcome::Accepted);
    assert_eq!(make_move(5, 26, &mut state, &mut history, true, 'Q'), MoveOutcome::Accepted);
    assert_eq!(make_move(51, 43, &mut state, &mut history, true, 'Q'), MoveOutcome::Accepted);
    assert_eq!(make_move(3, 21, &mut state, &mut history, true, 'Q'), MoveOutcome::Accepted);
    assert_eq!(make_move(57, 42, &mut state, &mut history, true, 'Q'), MoveOutcome::Accepted);
    let result = make_move(21, 53, &mut state, &mut history, true, 'Q');
    assert_eq!(result, MoveOutcome::Checkmate);
    assert_eq!(is_check(&state, Color::White), true);
}

#[test]
fn test_en_passant() {
    let mut state = GameState::new();
    let mut history = History::new();

    let move_made = make_move(12, 28, &mut state, &mut history, true, 'Q'); // e2-e4
    assert_eq!(move_made, MoveOutcome::Accepted);
    let move_made = make_move(57, 42, &mut state, &mut history, true, 'Q'); // Nb8-c6
    assert_eq!(move_made, MoveOutcome::Accepted);
    let move_made = make_move(28, 36, &mut state, &mut history, true, 'Q'); // e4-e5
    assert_eq!(move_made, MoveOutcome::Accepted);
    let move_made = make_move(51, 35, &mut state, &mut history, true, 'Q'); // d7-d5
    assert_eq!(move_made, MoveOutcome::Accepted);
    let move_made = make_move(36, 43, &mut state, &mut history, true, 'Q'); // e5xd6
    assert_eq!(move_made, MoveOutcome::Accepted);
}

// The en-passant capture removes the black pawn from d5, where it
// stood, not from d6, where the white pawn lands.
#[test]
fn test_en_passant_removes_passed_pawn() {
    let mut state = GameState::new();
    let mut history = History::new();

    make_move(12, 28, &mut state, &mut history, true, 'Q'); // e2-e4
    make_move(57, 42, &mut state, &mut history, true, 'Q'); // Nb8-c6
    make_move(28, 36, &mut state, &mut history, true, 'Q'); // e4-e5
    make_move(51, 35, &mut state, &mut history, true, 'Q'); // d7-d5
    assert_eq!(state.en_passant_mask, 1u64 << 43);
    assert_ne!(state.board.black_pawns & (1u64 << 35), 0);
    make_move(36, 43, &mut state, &mut history, true, 'Q'); // e5xd6
    assert_eq!(state.board.black_pawns & (1u64 << 35), 0);
    assert_eq!(state.board.black_occupied & (1u64 << 35), 0);
    assert_ne!(state.board.white_pawns & (1u64 << 43), 0);
}

#[test]
fn test_castling() {
    let mut state = GameState::new();
    let mut history = History::new();

    // white and black king-side
    let move_made = make_move(12, 28, &mut state, &mut history, true, 'Q'); // e2-e4
    assert_eq!(move_made, MoveOutcome::Accepted);
    let move_made = make_move(52, 36, &mut state, &mut history, true, 'Q'); // e7-e5
    assert_eq!(move_made, MoveOutcome::Accepted);
    let move_made = make_move(6, 21, &mut state, &mut history, true, 'Q'); // Ng1-f3
    assert_eq!(move_made, MoveOutcome::Accepted);
    let move_made = make_move(57, 42, &mut state, &mut history, true, 'Q'); // Nb8-c6
    assert_eq!(move_made, MoveOutcome::Accepted);
    let move_made = make_move(5, 26, &mut state, &mut history, true, 'Q'); // Bf1-c4
    assert_eq!(move_made, MoveOutcome::Accepted);
    let move_made = make_move(62, 45, &mut state, &mut history, true, 'Q'); // Ng8-f6
    assert_eq!(move_made, MoveOutcome::Accepted);
    let move_made = make_move(4, 6, &mut state, &mut history, true, 'Q'); // white O-O
    assert_eq!(move_made, MoveOutcome::Accepted);
    let move_made = make_move(61, 52, &mut state, &mut history, true, 'Q'); // Bf8-e7
    assert_eq!(move_made, MoveOutcome::Accepted);
    let move_made = make_move(11, 19, &mut state, &mut history, true, 'Q'); // d2-d3
    assert_eq!(move_made, MoveOutcome::Accepted);
    let move_made = make_move(60, 62, &mut state, &mut history, true, 'Q'); // black O-O
    assert_eq!(move_made, MoveOutcome::Accepted);

    state.reset();

    // white and black queen-side
    let move_made = make_move(11, 27, &mut state, &mut history, true, 'Q'); // d2-d4
    assert_eq!(move_made, MoveOutcome::Accepted);
    let move_made = make_move(51, 35, &mut state, &mut history, true, 'Q'); // d7-d5
    assert_eq!(move_made, MoveOutcome::Accepted);
    let move_made = make_move(2, 29, &mut state, &mut history, true, 'Q'); // Bc1-f4
    assert_eq!(move_made, MoveOutcome::Accepted);
    let move_made = make_move(57, 42, &mut state, &mut history, true, 'Q'); // Nb8-c6
    assert_eq!(move_made, MoveOutcome::Accepted);
    let move_made = make_move(1, 18, &mut state, &mut history, true, 'Q'); // Nb1-c3
    assert_eq!(move_made, MoveOutcome::Accepted);
    let move_made = make_move(58, 44, &mut state, &mut history, true, 'Q'); // Bc8-e6
    assert_eq!(move_made, MoveOutcome::Accepted);
    let move_made = make_move(3, 11, &mut state, &mut history, true, 'Q'); // Qd1-d2
    assert_eq!(move_made, MoveOutcome::Accepted);
    let move_made = make_move(59, 51, &mut state, &mut history, true, 'Q'); // Qd8-d7
    assert_eq!(move_made, MoveOutcome::Accepted);
    let move_made = make_move(4, 2, &mut state, &mut history, true, 'Q'); // white O-O-O
    assert_eq!(move_made, MoveOutcome::Accepted);
    let move_made = make_move(60, 58, &mut state, &mut history, true, 'Q'); // black O-O-O
    assert_eq!(move_made, MoveOutcome::Accepted);
}

// Castling relocates the rook to its post-castle square, and is refused
// while pieces stand between king and rook or after the king has moved.
#[test]
fn test_castling_rook_and_refusals() {
    let mut state = GameState::new();
    let mut history = History::new();

    // transit squares occupied: refused from the start
    assert_eq!(is_legal(4, 6, &state), false);
    assert_eq!(make_move(4, 6, &mut state, &mut history, true, 'Q'), MoveOutcome::Rejected);

    make_move(12, 28, &mut state, &mut history, true, 'Q'); // e2-e4
    make_move(52, 36, &mut state, &mut history, true, 'Q'); // e7-e5
    make_move(6, 21, &mut state, &mut history, true, 'Q'); // Ng1-f3
    make_move(57, 42, &mut state, &mut history, true, 'Q'); // Nb8-c6
    make_move(5, 26, &mut state, &mut history, true, 'Q'); // Bf1-c4
    make_move(62, 45, &mut state, &mut history, true, 'Q'); // Ng8-f6

    // the path is clear now; castling relocates rook h1 to f1
    assert_eq!(make_move(4, 6, &mut state, &mut history, true, 'Q'), MoveOutcome::Accepted);
    assert_ne!(state.board.white_rooks & (1u64 << 5), 0);
    assert_eq!(state.board.white_rooks & (1u64 << 7), 0);
    assert_ne!(state.board.white_king & (1u64 << 6), 0);
    assert_eq!(state.white_can_castle_kingside, false);
    assert_eq!(state.white_can_castle_queenside, false);

    // Black's kingside path is clear too, but once the king has moved
    // and returned, the right is gone for good.
    make_move(61, 52, &mut state, &mut history, true, 'Q'); // Bf8-e7
    make_move(11, 19, &mut state, &mut history, true, 'Q'); // d2-d3
    make_move(60, 61, &mut state, &mut history, true, 'Q'); // Ke8-f8
    make_move(19, 27, &mut state, &mut history, true, 'Q'); // d3-d4
    make_move(61, 60, &mut state, &mut history, true, 'Q'); // Kf8-e8
    make_move(27, 36, &mut state, &mut history, true, 'Q'); // d4xe5
    assert_eq!(state.black_can_castle_kingside, false);
    assert_eq!(make_move(60, 62, &mut state, &mut history, true, 'Q'), MoveOutcome::Rejected);
}

// Castling is refused while a transit square is attacked.
#[test]
fn test_castling_attacked_transit() {
    let mut state = GameState::new();
    // Strip the board down: white king e1 and rook h1 with the right
    // intact, black rook on f8 attacking f1.
    state.board.white_pawns = 0;
    state.board.white_knights = 0;
    state.board.white_bishops = 0;
    state.board.white_queens = 0;
    state.board.white_rooks = 1 << 7;
    state.board.white_occupied = (1 << 4) | (1 << 7);
    state.board.black_pawns = 0;
    state.board.black_knights = 0;
    state.board.black_bishops = 0;
    state.board.black_queens = 0;
    state.board.black_rooks = 1 << 61;
    state.board.black_occupied = (1 << 60) | (1 << 61);
    state.white_can_castle_queenside = false;
    // f1 is attacked by the rook on f8: castling kingside is refused
    assert_eq!(is_legal(4, 6, &state), false);
    // after the rook steps aside, the path is safe again
    state.board.black_rooks = 1 << 56;
    state.board.black_occupied = (1 << 60) | (1 << 56);
    assert_eq!(is_legal(4, 6, &state), true);
}

#[test]
fn test_promotion() {
    let mut state = GameState::new();
    let board = &mut state.board;
    let mut history = History::new();

    // an endgame-like position: White keeps only the king
    board.white_bishops = 0;
    board.white_pawns = 0;
    board.white_rooks = 0;
    board.white_knights = 0;
    board.white_occupied = 0;
    board.white_queens = 0;
    board.white_occupied |= 1 << 4;

    board.black_pawns &= !(1 << 48); // remove pawn from a7
    board.black_pawns |= 1 << 8; // add pawn to a2
    board.black_occupied |= 1 << 8;

    state.side_to_move = Color::Black;

    // black promotes the pawn on a1
    let move_made = make_move(8, 0, &mut state, &mut history, true, 'Q');
    assert_eq!(move_made, MoveOutcome::Accepted);
    assert_ne!(state.board.black_queens & 1, 0);
    assert_eq!(state.board.black_pawns & 1, 0);
}

// An invalid promotion choice changes nothing and is reported, so the
// caller can ask again.
#[test]
fn test_promotion_invalid_choice() {
    let mut state = GameState::new();
    let board = &mut state.board;
    let mut history = History::new();

    board.white_bishops = 0;
    board.white_pawns = 0;
    board.white_rooks = 0;
    board.white_knights = 0;
    board.white_occupied = 0;
    board.white_queens = 0;
    board.white_occupied |= 1 << 4;
    board.black_pawns &= !(1 << 48);
    board.black_pawns |= 1 << 8;
    board.black_occupied |= 1 << 8;
    state.side_to_move = Color::Black;

    let before = state;
    let move_made = make_move(8, 0, &mut state, &mut history, true, 'x');
    assert_eq!(move_made, MoveOutcome::InvalidPromotion);
    assert_eq!(state, before);
    assert_eq!(history.len(), 0);

    // a rook is a valid choice, upper or lower case
    let move_made = make_move(8, 0, &mut state, &mut history, true, 'r');
    assert_eq!(move_made, MoveOutcome::Accepted);
    assert_ne!(state.board.black_rooks & 1, 0);
}

// A full history refuses further moves distinctly from a rejected move.
#[test]
fn test_history_capacity() {
    let mut state = GameState::new();
    let mut history = History::new();
    let filler = GameState::new();
    for _ in 0..MAX_GAME_MOVES {
        history.push(filler);
    }
    assert_eq!(history.len(), MAX_GAME_MOVES);
    let result = make_move(12, 28, &mut state, &mut history, true, 'Q');
    assert_eq!(result, MoveOutcome::HistoryFull);
    assert_eq!(state, GameState::new());
    // an illegal move is still just rejected
    let result = make_move(50, 40, &mut state, &mut history, true, 'Q');
    assert_eq!(result, MoveOutcome::Rejected);
}

// Round trip: applying a legal move the way the terminal scan does and
// undoing it restores the exact pre-move state.
#[test]
fn test_apply_undo_round_trip() {
    let mut state = GameState::new();
    let mut history = History::new();
    make_move(12, 28, &mut state, &mut history, true, 'Q'); // e2-e4
    make_move(51, 35, &mut state, &mut history, true, 'Q'); // d7-d5

    let before = state;
    let side = state.side_to_move;
    let opposite = side.opposite();
    // White captures the d5 pawn with the e4 pawn: 28 -> 35
    assert_eq!(is_legal(28, 35, &state), true);
    let piece_captured = capture(1u64 << 35, &mut state.board);
    assert_eq!(piece_captured, Some(1));
    fill_square(1u64 << 28, 1u64 << 35, &mut state.board);
    empty_square(1u64 << 28, &mut state.board);
    castle(28, 35, &mut state);
    undo_move(28, 35, &mut state, opposite, piece_captured);
    assert_eq!(state, before);
}

// The board invariant holds along a played game: each occupancy mask is
// the union of its color's piece masks, and the twelve piece masks are
// pairwise disjoint.
#[test]
fn test_masks_stay_consistent() {
    let mut state = GameState::new();
    let mut history = History::new();
    let moves: [(i8, i8); 8] = [
        (12, 28),
        (52, 36),
        (6, 21),
        (57, 42),
        (5, 26),
        (62, 45),
        (4, 6),
        (51, 43),
    ];
    for (c, t) in moves {
        assert_eq!(make_move(c, t, &mut state, &mut history, true, 'Q'), MoveOutcome::Accepted);
        let b = state.board;
        let whites = [
            b.white_pawns, b.white_rooks, b.white_knights, b.white_bishops, b.white_queens,
            b.white_king,
        ];
        let blacks = [
            b.black_pawns, b.black_rooks, b.black_knights, b.black_bishops, b.black_queens,
            b.black_king,
        ];
        let mut wu: u64 = 0;
        for m in whites {
            wu |= m;
        }
        let mut bu: u64 = 0;
        for m in blacks {
            bu |= m;
        }
        assert_eq!(b.white_occupied, wu);
        assert_eq!(b.black_occupied, bu);
        assert_eq!(b.white_occupied & b.black_occupied, 0);
        let all = [
            b.white_pawns, b.white_rooks, b.white_knights, b.white_bishops, b.white_queens,
            b.white_king, b.black_pawns, b.black_rooks, b.black_knights, b.black_bishops,
            b.black_queens, b.black_king,
        ];
        for i in 0..12 {
            for j in 0..12 {
                if i != j {
                    assert_eq!(all[i] & all[j], 0);
                }
            }
        }
    }
}
