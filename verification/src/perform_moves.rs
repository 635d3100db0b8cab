//! The legality filter, the move executor, and terminal-state detection.

use vstd::prelude::*;

use crate::bitboards::{
    board_ok, lemma_board_after_move, lemma_board_clear_one, lemma_board_promote,
    lemma_board_rook_shift, lemma_square_single_occupancy, occupied, Board,
};
use crate::bits::{
    lemma_bit_and, lemma_bit_eval_clear, lemma_bit_eval_move, lemma_bit_eval_set, lemma_bit_not,
    lemma_bit_or, lemma_captured_chain,
    lemma_castle_rook_roundtrip, lemma_clear_absent, lemma_disjoint_bit, lemma_disjoint_comm,
    lemma_ep_shift, lemma_mask_bit, lemma_masked_bit, lemma_move_roundtrip, lemma_or_disjoint,
    lemma_pawn_two_step_black, lemma_pawn_two_step_white, lemma_restore_set, lemma_shl_injective,
    lemma_split_or_right, lemma_zero_and, nth_bit,
};
use crate::legal_moves::{
    bishop_moves, king_moves, knight_moves, lemma_bishop_no_own, lemma_king_no_own,
    lemma_knight_no_own, lemma_pawn_no_own, lemma_queen_no_own, lemma_rook_no_own, pawn_moves,
    queen_moves, rook_moves, spec_bishop_moves, spec_king_moves, spec_knight_moves,
    spec_pawn_moves, spec_queen_moves, spec_rook_moves, SECOND_RANK, SEVENTH_RANK,
};
use crate::state::{
    castling_rights_ok, ep_ok, initial_state, lemma_initial_state_ok, opposite_color,
    own_occupied, state_ok, Color, GameState, History, MAX_GAME_MOVES,
};

verus! {

pub const FIRST_RANK: u64 = 0x0000_0000_0000_00FF;
pub const EIGHTH_RANK: u64 = 0xFF00_0000_0000_0000;

pub open spec fn spec_checked_squares(s: GameState, side_checking: Color) -> u64
    decreases 1int,
{
    match side_checking {
        Color::White => spec_pawn_moves(s.board.white_pawns, s, side_checking) | spec_knight_moves(
            s.board.white_knights,
            s,
            side_checking,
        ) | spec_bishop_moves(s.board.white_bishops, s, side_checking) | spec_rook_moves(
            s.board.white_rooks,
            s,
            side_checking,
        ) | spec_queen_moves(s.board.white_queens, s, side_checking) | spec_king_moves(
            s.board.white_king,
            s,
            side_checking,
            false,
        ),
        Color::Black => spec_pawn_moves(s.board.black_pawns, s, side_checking) | spec_knight_moves(
            s.board.black_knights,
            s,
            side_checking,
        ) | spec_bishop_moves(s.board.black_bishops, s, side_checking) | spec_rook_moves(
            s.board.black_rooks,
            s,
            side_checking,
        ) | spec_queen_moves(s.board.black_queens, s, side_checking) | spec_king_moves(
            s.board.black_king,
            s,
            side_checking,
            false,
        ),
    }
}

/// Every square attacked by a piece of `side_checking`: the union of the
/// pseudo-legal targets of all six piece types, without castling.
pub fn checked_squares(state: &GameState, side_checking: Color) -> (r: u64)
    ensures
        r == spec_checked_squares(*state, side_checking),
    decreases 1int,
{
    let board = &state.board;
    match side_checking {
        Color::White => pawn_moves(board.white_pawns, state, side_checking) | knight_moves(
            board.white_knights,
            state,
            side_checking,
        ) | bishop_moves(board.white_bishops, state, side_checking) | rook_moves(
            board.white_rooks,
            state,
            side_checking,
        ) | queen_moves(board.white_queens, state, side_checking) | king_moves(
            board.white_king,
            state,
            side_checking,
            false,
        ),
        Color::Black => pawn_moves(board.black_pawns, state, side_checking) | knight_moves(
            board.black_knights,
            state,
            side_checking,
        ) | bishop_moves(board.black_bishops, state, side_checking) | rook_moves(
            board.black_rooks,
            state,
            side_checking,
        ) | queen_moves(board.black_queens, state, side_checking) | king_moves(
            board.black_king,
            state,
            side_checking,
            false,
        ),
    }
}

pub open spec fn spec_is_check(s: GameState, side_checking: Color) -> bool {
    match side_checking {
        Color::White => spec_checked_squares(s, side_checking) & s.board.black_king != 0,
        Color::Black => spec_checked_squares(s, side_checking) & s.board.white_king != 0,
    }
}

/// True when a piece of `side_checking` attacks the opposing king.
pub fn is_check(state: &GameState, side_checking: Color) -> (r: bool)
    ensures
        r == spec_is_check(*state, side_checking),
{
    let board = &state.board;
    match side_checking {
        Color::White => checked_squares(state, side_checking) & board.black_king != 0,
        Color::Black => checked_squares(state, side_checking) & board.white_king != 0,
    }
}

pub open spec fn spec_capture_white(tm: u64, b: Board) -> (Board, Option<i8>) {
    if tm & b.white_occupied != 0 {
        let b1 = Board { white_occupied: b.white_occupied & !tm, ..b };
        if b.white_pawns & tm != 0 {
            (Board { white_pawns: b.white_pawns & !tm, ..b1 }, Some(1i8))
        } else if b.white_knights & tm != 0 {
            (Board { white_knights: b.white_knights & !tm, ..b1 }, Some(2i8))
        } else if b.white_bishops & tm != 0 {
            (Board { white_bishops: b.white_bishops & !tm, ..b1 }, Some(3i8))
        } else if b.white_rooks & tm != 0 {
            (Board { white_rooks: b.white_rooks & !tm, ..b1 }, Some(4i8))
        } else if b.white_queens & tm != 0 {
            (Board { white_queens: b.white_queens & !tm, ..b1 }, Some(5i8))
        } else if b.white_king & tm != 0 {
            (Board { white_king: b.white_king & !tm, ..b1 }, Some(6i8))
        } else {
            (b1, None)
        }
    } else {
        (b, None)
    }
}

/// What removing the piece on the squares of `tm` does to the board, and
/// which piece code it returns: 1 pawn, 2 knight, 3 bishop, 4 rook,
/// 5 queen, 6 king.
pub open spec fn spec_capture(tm: u64, b: Board) -> (Board, Option<i8>) {
    if tm & b.black_occupied != 0 {
        let b1 = Board { black_occupied: b.black_occupied & !tm, ..b };
        if b.black_pawns & tm != 0 {
            (Board { black_pawns: b.black_pawns & !tm, ..b1 }, Some(1i8))
        } else if b.black_knights & tm != 0 {
            (Board { black_knights: b.black_knights & !tm, ..b1 }, Some(2i8))
        } else if b.black_bishops & tm != 0 {
            (Board { black_bishops: b.black_bishops & !tm, ..b1 }, Some(3i8))
        } else if b.black_rooks & tm != 0 {
            (Board { black_rooks: b.black_rooks & !tm, ..b1 }, Some(4i8))
        } else if b.black_queens & tm != 0 {
            (Board { black_queens: b.black_queens & !tm, ..b1 }, Some(5i8))
        } else if b.black_king & tm != 0 {
            (Board { black_king: b.black_king & !tm, ..b1 }, Some(6i8))
        } else {
            spec_capture_white(tm, b1)
        }
    } else {
        spec_capture_white(tm, b)
    }
}

/// Remove the piece standing on `target_mask`, if any, from its piece
/// mask and its color's occupancy mask, and report its type code
/// (1 pawn, 2 knight, 3 bishop, 4 rook, 5 queen, 6 king), for undo.
pub fn capture(target_mask: u64, board: &mut Board) -> (r: Option<i8>)
    ensures
        *final(board) == spec_capture(target_mask, *old(board)).0,
        r == spec_capture(target_mask, *old(board)).1,
{
    if target_mask & board.black_occupied != 0 {
        board.black_occupied = board.black_occupied & !target_mask;
        if board.black_pawns & target_mask != 0 {
            board.black_pawns = board.black_pawns & !target_mask;
            return Some(1);
        }
        if board.black_knights & target_mask != 0 {
            board.black_knights = board.black_knights & !target_mask;
            return Some(2);
        }
        if board.black_bishops & target_mask != 0 {
            board.black_bishops = board.black_bishops & !target_mask;
            return Some(3);
        }
        if board.black_rooks & target_mask != 0 {
            board.black_rooks = board.black_rooks & !target_mask;
            return Some(4);
        }
        if board.black_queens & target_mask != 0 {
            board.black_queens = board.black_queens & !target_mask;
            return Some(5);
        }
        if board.black_king & target_mask != 0 {
            board.black_king = board.black_king & !target_mask;
            return Some(6);
        }
    }
    if target_mask & board.white_occupied != 0 {
        board.white_occupied = board.white_occupied & !target_mask;
        if board.white_pawns & target_mask != 0 {
            board.white_pawns = board.white_pawns & !target_mask;
            return Some(1);
        }
        if board.white_knights & target_mask != 0 {
            board.white_knights = board.white_knights & !target_mask;
            return Some(2);
        }
        if board.white_bishops & target_mask != 0 {
            board.white_bishops = board.white_bishops & !target_mask;
            return Some(3);
        }
        if board.white_rooks & target_mask != 0 {
            board.white_rooks = board.white_rooks & !target_mask;
            return Some(4);
        }
        if board.white_queens & target_mask != 0 {
            board.white_queens = board.white_queens & !target_mask;
            return Some(5);
        }
        if board.white_king & target_mask != 0 {
            board.white_king = board.white_king & !target_mask;
            return Some(6);
        }
    }
    None
}

/// What setting the squares of `tm` in every piece mask that holds a
/// square of `cm` does to the board.
pub open spec fn spec_fill_square(cm: u64, tm: u64, b: Board) -> Board {
    let b = if cm & b.white_pawns != 0 {
        Board { white_occupied: b.white_occupied | tm, white_pawns: b.white_pawns | tm, ..b }
    } else {
        b
    };
    let b = if cm & b.white_king != 0 {
        Board { white_occupied: b.white_occupied | tm, white_king: b.white_king | tm, ..b }
    } else {
        b
    };
    let b = if cm & b.white_queens != 0 {
        Board { white_occupied: b.white_occupied | tm, white_queens: b.white_queens | tm, ..b }
    } else {
        b
    };
    let b = if cm & b.white_knights != 0 {
        Board { white_occupied: b.white_occupied | tm, white_knights: b.white_knights | tm, ..b }
    } else {
        b
    };
    let b = if cm & b.white_rooks != 0 {
        Board { white_occupied: b.white_occupied | tm, white_rooks: b.white_rooks | tm, ..b }
    } else {
        b
    };
    let b = if cm & b.white_bishops != 0 {
        Board { white_occupied: b.white_occupied | tm, white_bishops: b.white_bishops | tm, ..b }
    } else {
        b
    };
    let b = if cm & b.black_pawns != 0 {
        Board { black_occupied: b.black_occupied | tm, black_pawns: b.black_pawns | tm, ..b }
    } else {
        b
    };
    let b = if cm & b.black_king != 0 {
        Board { black_occupied: b.black_occupied | tm, black_king: b.black_king | tm, ..b }
    } else {
        b
    };
    let b = if cm & b.black_queens != 0 {
        Board { black_occupied: b.black_occupied | tm, black_queens: b.black_queens | tm, ..b }
    } else {
        b
    };
    let b = if cm & b.black_knights != 0 {
        Board { black_occupied: b.black_occupied | tm, black_knights: b.black_knights | tm, ..b }
    } else {
        b
    };
    let b = if cm & b.black_rooks != 0 {
        Board { black_occupied: b.black_occupied | tm, black_rooks: b.black_rooks | tm, ..b }
    } else {
        b
    };
    let b = if cm & b.black_bishops != 0 {
        Board { black_occupied: b.black_occupied | tm, black_bishops: b.black_bishops | tm, ..b }
    } else {
        b
    };
    b
}

/// Set the squares of `target_mask` in every piece mask (and matching
/// occupancy mask) that holds a square of `cur_mask`: the relocation
/// step of a move, paired with `empty_square` on the source.
pub fn fill_square(cur_mask: u64, target_mask: u64, board: &mut Board)
    ensures
        *final(board) == spec_fill_square(cur_mask, target_mask, *old(board)),
{
    if cur_mask & board.white_pawns != 0 {
        board.white_occupied = board.white_occupied | target_mask;
        board.white_pawns = board.white_pawns | target_mask;
    }
    if cur_mask & board.white_king != 0 {
        board.white_occupied = board.white_occupied | target_mask;
        board.white_king = board.white_king | target_mask;
    }
    if cur_mask & board.white_queens != 0 {
        board.white_occupied = board.white_occupied | target_mask;
        board.white_queens = board.white_queens | target_mask;
    }
    if cur_mask & board.white_knights != 0 {
        board.white_occupied = board.white_occupied | target_mask;
        board.white_knights = board.white_knights | target_mask;
    }
    if cur_mask & board.white_rooks != 0 {
        board.white_occupied = board.white_occupied | target_mask;
        board.white_rooks = board.white_rooks | target_mask;
    }
    if cur_mask & board.white_bishops != 0 {
        board.white_occupied = board.white_occupied | target_mask;
        board.white_bishops = board.white_bishops | target_mask;
    }
    if cur_mask & board.black_pawns != 0 {
        board.black_occupied = board.black_occupied | target_mask;
        board.black_pawns = board.black_pawns | target_mask;
    }
    if cur_mask & board.black_king != 0 {
        board.black_occupied = board.black_occupied | target_mask;
        board.black_king = board.black_king | target_mask;
    }
    if cur_mask & board.black_queens != 0 {
        board.black_occupied = board.black_occupied | target_mask;
        board.black_queens = board.black_queens | target_mask;
    }
    if cur_mask & board.black_knights != 0 {
        board.black_occupied = board.black_occupied | target_mask;
        board.black_knights = board.black_knights | target_mask;
    }
    if cur_mask & board.black_rooks != 0 {
        board.black_occupied = board.black_occupied | target_mask;
        board.black_rooks = board.black_rooks | target_mask;
    }
    if cur_mask & board.black_bishops != 0 {
        board.black_occupied = board.black_occupied | target_mask;
        board.black_bishops = board.black_bishops | target_mask;
    }
}

/// What clearing the squares of `cm` from every mask does to the board.
pub open spec fn spec_empty_square(cm: u64, b: Board) -> Board {
    Board {
        white_pawns: b.white_pawns & !cm,
        white_rooks: b.white_rooks & !cm,
        white_knights: b.white_knights & !cm,
        white_bishops: b.white_bishops & !cm,
        white_queens: b.white_queens & !cm,
        white_king: b.white_king & !cm,
        black_pawns: b.black_pawns & !cm,
        black_rooks: b.black_rooks & !cm,
        black_knights: b.black_knights & !cm,
        black_bishops: b.black_bishops & !cm,
        black_queens: b.black_queens & !cm,
        black_king: b.black_king & !cm,
        white_occupied: b.white_occupied & !cm,
        black_occupied: b.black_occupied & !cm,
    }
}

/// Clear the squares of `cur_mask` from every piece and occupancy mask:
/// the source-square half of a relocation.
pub fn empty_square(cur_mask: u64, board: &mut Board)
    ensures
        *final(board) == spec_empty_square(cur_mask, *old(board)),
{
    board.white_occupied = board.white_occupied & !cur_mask;
    board.white_pawns = board.white_pawns & !cur_mask;
    board.white_king = board.white_king & !cur_mask;
    board.white_queens = board.white_queens & !cur_mask;
    board.white_knights = board.white_knights & !cur_mask;
    board.white_rooks = board.white_rooks & !cur_mask;
    board.white_bishops = board.white_bishops & !cur_mask;

    board.black_occupied = board.black_occupied & !cur_mask;
    board.black_pawns = board.black_pawns & !cur_mask;
    board.black_king = board.black_king & !cur_mask;
    board.black_queens = board.black_queens & !cur_mask;
    board.black_knights = board.black_knights & !cur_mask;
    board.black_rooks = board.black_rooks & !cur_mask;
    board.black_bishops = board.black_bishops & !cur_mask;
}

/// What resolving an en-passant capture on `tm` does: when `tm` is the
/// en-passant target, the opponent pawn one rank behind (White moving)
/// or ahead (Black moving) of the target is removed.
pub open spec fn spec_en_passant(tm: u64, s: GameState) -> GameState {
    if tm == s.en_passant_mask {
        match s.side_to_move {
            Color::White => GameState {
                board: Board {
                    black_pawns: s.board.black_pawns & !(tm >> 8),
                    black_occupied: s.board.black_occupied & !(tm >> 8),
                    ..s.board
                },
                ..s
            },
            Color::Black => GameState {
                board: Board {
                    white_pawns: s.board.white_pawns & !(tm << 8),
                    white_occupied: s.board.white_occupied & !(tm << 8),
                    ..s.board
                },
                ..s
            },
        }
    } else {
        s
    }
}

/// If the move that just landed on `target_mask` was an en-passant
/// capture, remove the captured opponent pawn from the square the
/// capturing pawn passed behind.
pub fn en_passant(target_mask: u64, state: &mut GameState)
    ensures
        *final(state) == spec_en_passant(target_mask, *old(state)),
{
    if target_mask == state.en_passant_mask {
        match state.side_to_move {
            Color::White => {
                state.board.black_pawns = state.board.black_pawns & !(target_mask >> 8);
                state.board.black_occupied = state.board.black_occupied & !(target_mask >> 8);
            },
            Color::Black => {
                state.board.white_pawns = state.board.white_pawns & !(target_mask << 8);
                state.board.white_occupied = state.board.white_occupied & !(target_mask << 8);
            },
        }
    }
}

/// What the en-passant mask becomes after a move from `c` to `t`: the
/// passed-over square after a pawn's two-square advance from its
/// starting rank, and zero after every other move.
pub open spec fn spec_update_en_passant(c: int, t: int, s: GameState) -> GameState {
    let cm = 1u64 << (c as u64);
    let tm = 1u64 << (t as u64);
    if tm & s.board.white_pawns != 0 && cm & SECOND_RANK != 0 && t - c == 16 {
        GameState { en_passant_mask: 1u64 << ((c + 8) as u64), ..s }
    } else if tm & s.board.black_pawns != 0 && cm & SEVENTH_RANK != 0 && c - t == 16 {
        GameState { en_passant_mask: 1u64 << ((c - 8) as u64), ..s }
    } else {
        GameState { en_passant_mask: 0, ..s }
    }
}

proof fn lemma_rank_bounds(c: u64)
    by (bit_vector)
    requires
        c < 64,
    ensures
        ((1u64 << c) & 0x0000_0000_0000_FF00u64 != 0) == (8 <= c < 16),
        ((1u64 << c) & 0x00FF_0000_0000_0000u64 != 0) == (48 <= c < 56),
        ((1u64 << c) & 0x0000_0000_0000_00FFu64 != 0) == (c < 8),
        ((1u64 << c) & 0xFF00_0000_0000_0000u64 != 0) == (56 <= c),
{
}

/// Record the passed-over square as the new en-passant target after a
/// pawn's two-square advance; clear the target after every other move.
pub fn update_en_passant_square(cur_square: i8, target_square: i8, state: &mut GameState)
    requires
        0 <= cur_square < 64,
        0 <= target_square < 64,
    ensures
        *final(state) == spec_update_en_passant(
            cur_square as int,
            target_square as int,
            *old(state),
        ),
{
    let cur_mask: u64 = 1u64 << (cur_square as u64);
    let target_mask: u64 = 1u64 << (target_square as u64);
    proof {
        lemma_rank_bounds(cur_square as u64);
    }
    if target_mask & state.board.white_pawns != 0 && cur_mask & SECOND_RANK != 0 && target_square
        - cur_square == 16 {
        state.en_passant_mask = 1u64 << ((cur_square + 8) as u64);
    } else if target_mask & state.board.black_pawns != 0 && cur_mask & SEVENTH_RANK != 0
        && cur_square - target_square == 16 {
        state.en_passant_mask = 1u64 << ((cur_square - 8) as u64);
    } else {
        state.en_passant_mask = 0;
    }
}

/// What the castling rook relocation does: when the king has just moved
/// two files from its home square, the matching rook moves from its
/// corner to the square beside the king, in both its piece mask and its
/// color's occupancy mask.
pub open spec fn spec_castle(c: int, t: int, s: GameState) -> GameState {
    let tm = 1u64 << (t as u64);
    if tm & s.board.white_king != 0 {
        if c == 4 && t == 6 {
            GameState {
                board: Board {
                    white_rooks: (s.board.white_rooks | 0x20) & !0x80u64,
                    white_occupied: (s.board.white_occupied | 0x20) & !0x80u64,
                    ..s.board
                },
                ..s
            }
        } else if c == 4 && t == 2 {
            GameState {
                board: Board {
                    white_rooks: (s.board.white_rooks | 0x08) & !0x01u64,
                    white_occupied: (s.board.white_occupied | 0x08) & !0x01u64,
                    ..s.board
                },
                ..s
            }
        } else {
            s
        }
    } else if tm & s.board.black_king != 0 {
        if c == 60 && t == 62 {
            GameState {
                board: Board {
                    black_rooks: (s.board.black_rooks | 0x2000_0000_0000_0000)
                        & !0x8000_0000_0000_0000u64,
                    black_occupied: (s.board.black_occupied | 0x2000_0000_0000_0000)
                        & !0x8000_0000_0000_0000u64,
                    ..s.board
                },
                ..s
            }
        } else if c == 60 && t == 58 {
            GameState {
                board: Board {
                    black_rooks: (s.board.black_rooks | 0x0800_0000_0000_0000)
                        & !0x0100_0000_0000_0000u64,
                    black_occupied: (s.board.black_occupied | 0x0800_0000_0000_0000)
                        & !0x0100_0000_0000_0000u64,
                    ..s.board
                },
                ..s
            }
        } else {
            s
        }
    } else {
        s
    }
}

/// After a king's two-file castling move, bring the matching rook from
/// its corner to its post-castle square.
pub fn castle(cur_square: i8, target_square: i8, state: &mut GameState)
    requires
        0 <= target_square < 64,
    ensures
        *final(state) == spec_castle(cur_square as int, target_square as int, *old(state)),
{
    let target_mask: u64 = 1u64 << (target_square as u64);
    if target_mask & state.board.white_king != 0 {
        if cur_square == 4 && target_square == 6 {
            state.board.white_rooks = (state.board.white_rooks | 0x20) & !0x80u64;
            state.board.white_occupied = (state.board.white_occupied | 0x20) & !0x80u64;
        } else if cur_square == 4 && target_square == 2 {
            state.board.white_rooks = (state.board.white_rooks | 0x08) & !0x01u64;
            state.board.white_occupied = (state.board.white_occupied | 0x08) & !0x01u64;
        }
    } else if target_mask & state.board.black_king != 0 {
        if cur_square == 60 && target_square == 62 {
            state.board.black_rooks = (state.board.black_rooks | 0x2000_0000_0000_0000)
                & !0x8000_0000_0000_0000u64;
            state.board.black_occupied = (state.board.black_occupied | 0x2000_0000_0000_0000)
                & !0x8000_0000_0000_0000u64;
        } else if cur_square == 60 && target_square == 58 {
            state.board.black_rooks = (state.board.black_rooks | 0x0800_0000_0000_0000)
                & !0x0100_0000_0000_0000u64;
            state.board.black_occupied = (state.board.black_occupied | 0x0800_0000_0000_0000)
                & !0x0100_0000_0000_0000u64;
        }
    }
}

/// What moving a piece away from `c` does to the castling rights: a king
/// or rook square that is vacated — or captured on — revokes the
/// matching rights for good.
pub open spec fn spec_update_castling_rights(c: int, s: GameState) -> GameState {
    if c == 0 {
        GameState { white_can_castle_queenside: false, ..s }
    } else if c == 4 {
        GameState { white_can_castle_kingside: false, white_can_castle_queenside: false, ..s }
    } else if c == 7 {
        GameState { white_can_castle_kingside: false, ..s }
    } else if c == 56 {
        GameState { black_can_castle_queenside: false, ..s }
    } else if c == 60 {
        GameState { black_can_castle_kingside: false, black_can_castle_queenside: false, ..s }
    } else if c == 63 {
        GameState { black_can_castle_kingside: false, ..s }
    } else {
        s
    }
}

/// Revoke castling rights when `cur_square` is an original king or rook
/// square. Callers apply this to both ends of a move, so a rook captured
/// on its corner also loses its right.
pub fn update_castling_rights(cur_square: i8, state: &mut GameState)
    ensures
        *final(state) == spec_update_castling_rights(cur_square as int, *old(state)),
{
    if cur_square == 0 {
        state.white_can_castle_queenside = false;
    } else if cur_square == 4 {
        state.white_can_castle_kingside = false;
        state.white_can_castle_queenside = false;
    } else if cur_square == 7 {
        state.white_can_castle_kingside = false;
    } else if cur_square == 56 {
        state.black_can_castle_queenside = false;
    } else if cur_square == 60 {
        state.black_can_castle_kingside = false;
        state.black_can_castle_queenside = false;
    } else if cur_square == 63 {
        state.black_can_castle_kingside = false;
    }
}

/// The characters accepted as a promotion choice.
pub open spec fn valid_promotion_choice(choice: char) -> bool {
    ||| choice == 'Q'
    ||| choice == 'R'
    ||| choice == 'B'
    ||| choice == 'N'
    ||| choice == 'q'
    ||| choice == 'r'
    ||| choice == 'b'
    ||| choice == 'n'
}

/// What promotion does on square `t`: when a pawn of the side to move
/// stands there on the opponent's back rank, it becomes the chosen
/// piece; with no such pawn the state is unchanged, and an invalid
/// choice changes nothing and is reported.
pub open spec fn spec_promotion(t: int, s: GameState, choice: char) -> (GameState, bool) {
    let tm = 1u64 << (t as u64);
    let promoted = match s.side_to_move {
        Color::White => tm & s.board.white_pawns & EIGHTH_RANK,
        Color::Black => tm & s.board.black_pawns & FIRST_RANK,
    };
    if promoted == 0 {
        (s, true)
    } else if !valid_promotion_choice(choice) {
        (s, false)
    } else {
        let b = match s.side_to_move {
            Color::White => Board { white_pawns: s.board.white_pawns & !tm, ..s.board },
            Color::Black => Board { black_pawns: s.board.black_pawns & !tm, ..s.board },
        };
        let b = if choice == 'Q' || choice == 'q' {
            match s.side_to_move {
                Color::White => Board { white_queens: b.white_queens | tm, ..b },
                Color::Black => Board { black_queens: b.black_queens | tm, ..b },
            }
        } else if choice == 'R' || choice == 'r' {
            match s.side_to_move {
                Color::White => Board { white_rooks: b.white_rooks | tm, ..b },
                Color::Black => Board { black_rooks: b.black_rooks | tm, ..b },
            }
        } else if choice == 'B' || choice == 'b' {
            match s.side_to_move {
                Color::White => Board { white_bishops: b.white_bishops | tm, ..b },
                Color::Black => Board { black_bishops: b.black_bishops | tm, ..b },
            }
        } else {
            match s.side_to_move {
                Color::White => Board { white_knights: b.white_knights | tm, ..b },
                Color::Black => Board { black_knights: b.black_knights | tm, ..b },
            }
        };
        (GameState { board: b, ..s }, true)
    }
}

/// Replace a pawn of the side to move that stands on `target_square` on
/// the opponent's back rank with the piece named by `choice` (Q, R, B or
/// N, either case). Returns false — and changes nothing — when a pawn
/// awaits promotion but the choice is not one of those characters, so
/// the caller can ask again.
pub fn promotion(target_square: i8, state: &mut GameState, choice: char) -> (r: bool)
    requires
        0 <= target_square < 64,
    ensures
        *final(state) == spec_promotion(target_square as int, *old(state), choice).0,
        r == spec_promotion(target_square as int, *old(state), choice).1,
{
    let target_mask: u64 = 1u64 << (target_square as u64);
    let promoted: u64 = match state.side_to_move {
        Color::White => target_mask & state.board.white_pawns & EIGHTH_RANK,
        Color::Black => target_mask & state.board.black_pawns & FIRST_RANK,
    };
    if promoted == 0 {
        return true;
    }
    let valid: bool = choice == 'Q' || choice == 'R' || choice == 'B' || choice == 'N' || choice
        == 'q' || choice == 'r' || choice == 'b' || choice == 'n';
    if !valid {
        return false;
    }
    match state.side_to_move {
        Color::White => {
            state.board.white_pawns = state.board.white_pawns & !target_mask;
        },
        Color::Black => {
            state.board.black_pawns = state.board.black_pawns & !target_mask;
        },
    }
    if choice == 'Q' || choice == 'q' {
        match state.side_to_move {
            Color::White => {
                state.board.white_queens = state.board.white_queens | target_mask;
            },
            Color::Black => {
                state.board.black_queens = state.board.black_queens | target_mask;
            },
        }
    } else if choice == 'R' || choice == 'r' {
        match state.side_to_move {
            Color::White => {
                state.board.white_rooks = state.board.white_rooks | target_mask;
            },
            Color::Black => {
                state.board.black_rooks = state.board.black_rooks | target_mask;
            },
        }
    } else if choice == 'B' || choice == 'b' {
        match state.side_to_move {
            Color::White => {
                state.board.white_bishops = state.board.white_bishops | target_mask;
            },
            Color::Black => {
                state.board.black_bishops = state.board.black_bishops | target_mask;
            },
        }
    } else {
        match state.side_to_move {
            Color::White => {
                state.board.white_knights = state.board.white_knights | target_mask;
            },
            Color::Black => {
                state.board.black_knights = state.board.black_knights | target_mask;
            },
        }
    }
    true
}

/// Whether the piece standing on `c` — it must belong to the side to
/// move — can reach `t` by its movement rules alone.
pub open spec fn spec_piece_movement(c: int, t: int, s: GameState) -> bool {
    let cm = 1u64 << (c as u64);
    let tm = 1u64 << (t as u64);
    match s.side_to_move {
        Color::White => if cm & s.board.white_pawns != 0 {
            spec_pawn_moves(cm, s, Color::White) & tm != 0
        } else if cm & s.board.white_bishops != 0 {
            spec_bishop_moves(cm, s, Color::White) & tm != 0
        } else if cm & s.board.white_knights != 0 {
            spec_knight_moves(cm, s, Color::White) & tm != 0
        } else if cm & s.board.white_rooks != 0 {
            spec_rook_moves(cm, s, Color::White) & tm != 0
        } else if cm & s.board.white_queens != 0 {
            spec_queen_moves(cm, s, Color::White) & tm != 0
        } else if cm & s.board.white_king != 0 {
            spec_king_moves(cm, s, Color::White, true) & tm != 0
        } else {
            false
        },
        Color::Black => if cm & s.board.black_pawns != 0 {
            spec_pawn_moves(cm, s, Color::Black) & tm != 0
        } else if cm & s.board.black_bishops != 0 {
            spec_bishop_moves(cm, s, Color::Black) & tm != 0
        } else if cm & s.board.black_knights != 0 {
            spec_knight_moves(cm, s, Color::Black) & tm != 0
        } else if cm & s.board.black_rooks != 0 {
            spec_rook_moves(cm, s, Color::Black) & tm != 0
        } else if cm & s.board.black_queens != 0 {
            spec_queen_moves(cm, s, Color::Black) & tm != 0
        } else if cm & s.board.black_king != 0 {
            spec_king_moves(cm, s, Color::Black, true) & tm != 0
        } else {
            false
        },
    }
}

/// The scratch position used for the king-safety test: the move applied
/// to a copy of the state — capture, relocation, en-passant removal and
/// the castling rook shift — without touching rights or the en-passant
/// target, which attack computation never reads.
pub open spec fn spec_simulate(c: int, t: int, s: GameState) -> GameState {
    let cm = 1u64 << (c as u64);
    let tm = 1u64 << (t as u64);
    let b1 = spec_capture(tm, s.board).0;
    let b2 = spec_fill_square(cm, tm, b1);
    let b3 = spec_empty_square(cm, b2);
    let s3 = GameState { board: b3, ..s };
    let s4 = spec_en_passant(tm, s3);
    spec_castle(c, t, s4)
}

/// A move is legal when both squares are on the board, the mover's own
/// piece on the source can reach the target by its movement rules, and
/// the resulting position does not leave the mover's king attacked.
pub open spec fn spec_is_legal(c: int, t: int, s: GameState) -> bool {
    &&& 0 <= c < 64
    &&& 0 <= t < 64
    &&& spec_piece_movement(c, t, s)
    &&& !spec_is_check(spec_simulate(c, t, s), opposite_color(s.side_to_move))
}

/// Decide whether moving from `cur_square` to `target_square` is legal
/// for the side to move: out-of-range squares are rejected, the mover
/// must own the piece on the source, the target must be among its
/// pseudo-legal targets (castling included for the king), and the move
/// is simulated on a scratch copy to rule out leaving the mover's own
/// king in check.
pub fn is_legal(cur_square: i8, target_square: i8, state: &GameState) -> (r: bool)
    ensures
        r == spec_is_legal(cur_square as int, target_square as int, *state),
{
    if cur_square < 0 || cur_square > 63 || target_square < 0 || target_square > 63 {
        return false;
    }
    let cm: u64 = 1u64 << (cur_square as u64);
    let tm: u64 = 1u64 << (target_square as u64);
    let side = state.side_to_move;
    let board = &state.board;
    let movement: bool = match side {
        Color::White => {
            if cm & board.white_pawns != 0 {
                pawn_moves(cm, state, side) & tm != 0
            } else if cm & board.white_bishops != 0 {
                bishop_moves(cm, state, side) & tm != 0
            } else if cm & board.white_knights != 0 {
                knight_moves(cm, state, side) & tm != 0
            } else if cm & board.white_rooks != 0 {
                rook_moves(cm, state, side) & tm != 0
            } else if cm & board.white_queens != 0 {
                queen_moves(cm, state, side) & tm != 0
            } else if cm & board.white_king != 0 {
                king_moves(cm, state, side, true) & tm != 0
            } else {
                false
            }
        },
        Color::Black => {
            if cm & board.black_pawns != 0 {
                pawn_moves(cm, state, side) & tm != 0
            } else if cm & board.black_bishops != 0 {
                bishop_moves(cm, state, side) & tm != 0
            } else if cm & board.black_knights != 0 {
                knight_moves(cm, state, side) & tm != 0
            } else if cm & board.black_rooks != 0 {
                rook_moves(cm, state, side) & tm != 0
            } else if cm & board.black_queens != 0 {
                queen_moves(cm, state, side) & tm != 0
            } else if cm & board.black_king != 0 {
                king_moves(cm, state, side, true) & tm != 0
            } else {
                false
            }
        },
    };
    if !movement {
        return false;
    }
    let mut sim: GameState = *state;
    capture(tm, &mut sim.board);
    fill_square(cm, tm, &mut sim.board);
    empty_square(cm, &mut sim.board);
    en_passant(tm, &mut sim);
    castle(cur_square, target_square, &mut sim);
    let opp = side.opposite();
    !is_check(&sim, opp)
}

/// What putting a captured piece back on the squares of `nm` does:
/// `side` is the color the piece was captured from, `cap` the type code
/// that `capture` reported.
pub open spec fn spec_restore_captured(nm: u64, side: Color, cap: Option<i8>, b: Board) -> Board {
    match cap {
        Option::None => b,
        Option::Some(code) => if code == 1 {
            match side {
                Color::White => Board {
                    white_pawns: b.white_pawns | nm,
                    white_occupied: b.white_occupied | nm,
                    ..b
                },
                Color::Black => Board {
                    black_pawns: b.black_pawns | nm,
                    black_occupied: b.black_occupied | nm,
                    ..b
                },
            }
        } else if code == 2 {
            match side {
                Color::White => Board {
                    white_knights: b.white_knights | nm,
                    white_occupied: b.white_occupied | nm,
                    ..b
                },
                Color::Black => Board {
                    black_knights: b.black_knights | nm,
                    black_occupied: b.black_occupied | nm,
                    ..b
                },
            }
        } else if code == 3 {
            match side {
                Color::White => Board {
                    white_bishops: b.white_bishops | nm,
                    white_occupied: b.white_occupied | nm,
                    ..b
                },
                Color::Black => Board {
                    black_bishops: b.black_bishops | nm,
                    black_occupied: b.black_occupied | nm,
                    ..b
                },
            }
        } else if code == 4 {
            match side {
                Color::White => Board {
                    white_rooks: b.white_rooks | nm,
                    white_occupied: b.white_occupied | nm,
                    ..b
                },
                Color::Black => Board {
                    black_rooks: b.black_rooks | nm,
                    black_occupied: b.black_occupied | nm,
                    ..b
                },
            }
        } else if code == 5 {
            match side {
                Color::White => Board {
                    white_queens: b.white_queens | nm,
                    white_occupied: b.white_occupied | nm,
                    ..b
                },
                Color::Black => Board {
                    black_queens: b.black_queens | nm,
                    black_occupied: b.black_occupied | nm,
                    ..b
                },
            }
        } else if code == 6 {
            match side {
                Color::White => Board {
                    white_king: b.white_king | nm,
                    white_occupied: b.white_occupied | nm,
                    ..b
                },
                Color::Black => Board {
                    black_king: b.black_king | nm,
                    black_occupied: b.black_occupied | nm,
                    ..b
                },
            }
        } else {
            b
        },
    }
}

/// Put a piece captured on the squares of `new_mask` back on the board:
/// `side` is the color it was captured from and `piece_captured` the
/// type code that `capture` reported when the move was applied.
pub fn restore_captured_piece(
    new_mask: u64,
    state: &mut GameState,
    side: Color,
    piece_captured: Option<i8>,
)
    ensures
        *final(state) == (GameState {
            board: spec_restore_captured(new_mask, side, piece_captured, old(state).board),
            ..*old(state)
        }),
{
    let board = &mut state.board;
    match piece_captured {
        Option::None => {},
        Option::Some(code) => {
            if code == 1 {
                match side {
                    Color::White => {
                        board.white_pawns = board.white_pawns | new_mask;
                        board.white_occupied = board.white_occupied | new_mask;
                    },
                    Color::Black => {
                        board.black_pawns = board.black_pawns | new_mask;
                        board.black_occupied = board.black_occupied | new_mask;
                    },
                }
            } else if code == 2 {
                match side {
                    Color::White => {
                        board.white_knights = board.white_knights | new_mask;
                        board.white_occupied = board.white_occupied | new_mask;
                    },
                    Color::Black => {
                        board.black_knights = board.black_knights | new_mask;
                        board.black_occupied = board.black_occupied | new_mask;
                    },
                }
            } else if code == 3 {
                match side {
                    Color::White => {
                        board.white_bishops = board.white_bishops | new_mask;
                        board.white_occupied = board.white_occupied | new_mask;
                    },
                    Color::Black => {
                        board.black_bishops = board.black_bishops | new_mask;
                        board.black_occupied = board.black_occupied | new_mask;
                    },
                }
            } else if code == 4 {
                match side {
                    Color::White => {
                        board.white_rooks = board.white_rooks | new_mask;
                        board.white_occupied = board.white_occupied | new_mask;
                    },
                    Color::Black => {
                        board.black_rooks = board.black_rooks | new_mask;
                        board.black_occupied = board.black_occupied | new_mask;
                    },
                }
            } else if code == 5 {
                match side {
                    Color::White => {
                        board.white_queens = board.white_queens | new_mask;
                        board.white_occupied = board.white_occupied | new_mask;
                    },
                    Color::Black => {
                        board.black_queens = board.black_queens | new_mask;
                        board.black_occupied = board.black_occupied | new_mask;
                    },
                }
            } else if code == 6 {
                match side {
                    Color::White => {
                        board.white_king = board.white_king | new_mask;
                        board.white_occupied = board.white_occupied | new_mask;
                    },
                    Color::Black => {
                        board.black_king = board.black_king | new_mask;
                        board.black_occupied = board.black_occupied | new_mask;
                    },
                }
            }
        },
    }
}

/// What reversing the castling rook shift does: when the king now on `t`
/// arrived there by a two-file castling move from `c`, the rook goes
/// back from its post-castle square to its corner.
pub open spec fn spec_undo_castle(c: int, t: int, s: GameState) -> GameState {
    let nm = 1u64 << (t as u64);
    if nm & s.board.white_king != 0 {
        if c == 4 && t == 6 {
            GameState {
                board: Board {
                    white_rooks: (s.board.white_rooks & !0x20u64) | 0x80,
                    white_occupied: (s.board.white_occupied & !0x20u64) | 0x80,
                    ..s.board
                },
                ..s
            }
        } else if c == 4 && t == 2 {
            GameState {
                board: Board {
                    white_rooks: (s.board.white_rooks & !0x08u64) | 0x01,
                    white_occupied: (s.board.white_occupied & !0x08u64) | 0x01,
                    ..s.board
                },
                ..s
            }
        } else {
            s
        }
    } else if nm & s.board.black_king != 0 {
        if c == 60 && t == 62 {
            GameState {
                board: Board {
                    black_rooks: (s.board.black_rooks & !0x2000_0000_0000_0000u64)
                        | 0x8000_0000_0000_0000,
                    black_occupied: (s.board.black_occupied & !0x2000_0000_0000_0000u64)
                        | 0x8000_0000_0000_0000,
                    ..s.board
                },
                ..s
            }
        } else if c == 60 && t == 58 {
            GameState {
                board: Board {
                    black_rooks: (s.board.black_rooks & !0x0800_0000_0000_0000u64)
                        | 0x0100_0000_0000_0000,
                    black_occupied: (s.board.black_occupied & !0x0800_0000_0000_0000u64)
                        | 0x0100_0000_0000_0000,
                    ..s.board
                },
                ..s
            }
        } else {
            s
        }
    } else {
        s
    }
}

/// Reverse the castling rook shift of a king move from
/// `original_square` to `new_square`, if that move was a castle.
pub fn undo_castle(original_square: i8, new_square: i8, state: &mut GameState)
    requires
        0 <= new_square < 64,
    ensures
        *final(state) == spec_undo_castle(original_square as int, new_square as int, *old(state)),
{
    let new_mask: u64 = 1u64 << (new_square as u64);
    if new_mask & state.board.white_king != 0 {
        if original_square == 4 && new_square == 6 {
            state.board.white_rooks = (state.board.white_rooks & !0x20u64) | 0x80;
            state.board.white_occupied = (state.board.white_occupied & !0x20u64) | 0x80;
        } else if original_square == 4 && new_square == 2 {
            state.board.white_rooks = (state.board.white_rooks & !0x08u64) | 0x01;
            state.board.white_occupied = (state.board.white_occupied & !0x08u64) | 0x01;
        }
    } else if new_mask & state.board.black_king != 0 {
        if original_square == 60 && new_square == 62 {
            state.board.black_rooks = (state.board.black_rooks & !0x2000_0000_0000_0000u64)
                | 0x8000_0000_0000_0000;
            state.board.black_occupied = (state.board.black_occupied & !0x2000_0000_0000_0000u64)
                | 0x8000_0000_0000_0000;
        } else if original_square == 60 && new_square == 58 {
            state.board.black_rooks = (state.board.black_rooks & !0x0800_0000_0000_0000u64)
                | 0x0100_0000_0000_0000;
            state.board.black_occupied = (state.board.black_occupied & !0x0800_0000_0000_0000u64)
                | 0x0100_0000_0000_0000;
        }
    }
}

/// The exact inverse of the terminal-scan application of a move: undo
/// the castling rook shift, move the piece back, and restore the
/// captured piece.
pub open spec fn spec_undo_move(c: int, t: int, s: GameState, side: Color, cap: Option<i8>) -> GameState {
    let om = 1u64 << (c as u64);
    let nm = 1u64 << (t as u64);
    let s1 = spec_undo_castle(c, t, s);
    let b2 = spec_fill_square(nm, om, s1.board);
    let b3 = spec_empty_square(nm, b2);
    let b4 = spec_restore_captured(nm, side, cap, b3);
    GameState { board: b4, ..s1 }
}

/// Undo a move applied during the terminal scan: reverse the castling
/// rook shift, move the piece from `new_square` back to
/// `original_square`, and put back the piece captured from `side`.
pub fn undo_move(
    original_square: i8,
    new_square: i8,
    state: &mut GameState,
    side: Color,
    piece_captured: Option<i8>,
)
    requires
        0 <= original_square < 64,
        0 <= new_square < 64,
    ensures
        *final(state) == spec_undo_move(
            original_square as int,
            new_square as int,
            *old(state),
            side,
            piece_captured,
        ),
{
    let original_mask: u64 = 1u64 << (original_square as u64);
    let new_mask: u64 = 1u64 << (new_square as u64);
    undo_castle(original_square, new_square, state);
    fill_square(new_mask, original_mask, &mut state.board);
    empty_square(new_mask, &mut state.board);
    restore_captured_piece(new_mask, state, side, piece_captured);
}

/// The en-passant target of a well-formed state is an empty square.
pub proof fn lemma_ep_unoccupied(s: GameState)
    requires
        ep_ok(s),
    ensures
        s.en_passant_mask & occupied(s.board) == 0,
{
    if s.en_passant_mask == 0 {
        lemma_zero_and(occupied(s.board));
    } else {
        let sq = choose|sq: u64|
            {
                &&& sq < 64
                &&& s.en_passant_mask == #[trigger] (1u64 << sq)
                &&& !nth_bit(occupied(s.board), sq)
                &&& match s.side_to_move {
                    Color::White => 40 <= sq < 48 && nth_bit(
                        s.board.black_pawns,
                        (sq - 8) as u64,
                    ),
                    Color::Black => 16 <= sq < 24 && nth_bit(
                        s.board.white_pawns,
                        (sq + 8) as u64,
                    ),
                }
            };
        lemma_mask_bit(occupied(s.board), sq);
        lemma_disjoint_comm(occupied(s.board), s.en_passant_mask);
    }
}

/// Law: a side never attacks its own occupied squares — in particular it
/// never attacks its own king, from the initial position or any other
/// well-formed state.
pub proof fn lemma_no_self_attack(s: GameState, side: Color)
    requires
        board_ok(s.board),
        ep_ok(s),
    ensures
        spec_checked_squares(s, side) & own_occupied(s.board, side) == 0,
        side == Color::White ==> spec_checked_squares(s, side) & s.board.white_king == 0,
        side == Color::Black ==> spec_checked_squares(s, side) & s.board.black_king == 0,
{
    let b = s.board;
    let own = own_occupied(b, side);
    lemma_ep_unoccupied(s);
    lemma_split_or_right(s.en_passant_mask, b.white_occupied, b.black_occupied);
    match side {
        Color::White => {
            lemma_pawn_no_own(b.white_pawns, s, side);
            lemma_knight_no_own(b.white_knights, s, side);
            lemma_bishop_no_own(b.white_bishops, s, side);
            lemma_rook_no_own(b.white_rooks, s, side);
            lemma_queen_no_own(b.white_queens, s, side);
            lemma_king_no_own(b.white_king, s, side, false);
            let g1 = spec_pawn_moves(b.white_pawns, s, side);
            let g2 = spec_knight_moves(b.white_knights, s, side);
            let g3 = spec_bishop_moves(b.white_bishops, s, side);
            let g4 = spec_rook_moves(b.white_rooks, s, side);
            let g5 = spec_queen_moves(b.white_queens, s, side);
            let g6 = spec_king_moves(b.white_king, s, side, false);
            lemma_or_disjoint(g1, g2, own);
            lemma_or_disjoint(g1 | g2, g3, own);
            lemma_or_disjoint(g1 | g2 | g3, g4, own);
            lemma_or_disjoint(g1 | g2 | g3 | g4, g5, own);
            lemma_or_disjoint(g1 | g2 | g3 | g4 | g5, g6, own);
            let all = spec_checked_squares(s, side);
            lemma_split_or_right(
                all,
                b.white_pawns | b.white_rooks | b.white_knights | b.white_bishops
                    | b.white_queens,
                b.white_king,
            );
        },
        Color::Black => {
            lemma_pawn_no_own(b.black_pawns, s, side);
            lemma_knight_no_own(b.black_knights, s, side);
            lemma_bishop_no_own(b.black_bishops, s, side);
            lemma_rook_no_own(b.black_rooks, s, side);
            lemma_queen_no_own(b.black_queens, s, side);
            lemma_king_no_own(b.black_king, s, side, false);
            let g1 = spec_pawn_moves(b.black_pawns, s, side);
            let g2 = spec_knight_moves(b.black_knights, s, side);
            let g3 = spec_bishop_moves(b.black_bishops, s, side);
            let g4 = spec_rook_moves(b.black_rooks, s, side);
            let g5 = spec_queen_moves(b.black_queens, s, side);
            let g6 = spec_king_moves(b.black_king, s, side, false);
            lemma_or_disjoint(g1, g2, own);
            lemma_or_disjoint(g1 | g2, g3, own);
            lemma_or_disjoint(g1 | g2 | g3, g4, own);
            lemma_or_disjoint(g1 | g2 | g3 | g4, g5, own);
            lemma_or_disjoint(g1 | g2 | g3 | g4 | g5, g6, own);
            let all = spec_checked_squares(s, side);
            lemma_split_or_right(
                all,
                b.black_pawns | b.black_rooks | b.black_knights | b.black_bishops
                    | b.black_queens,
                b.black_king,
            );
        },
    }
}

/// One-bit masks of the squares involved in castling.
proof fn lemma_castle_consts()
    by (bit_vector)
    ensures
        1u64 << 0u64 == 0x01u64,
        1u64 << 1u64 == 0x02u64,
        1u64 << 2u64 == 0x04u64,
        1u64 << 3u64 == 0x08u64,
        1u64 << 4u64 == 0x10u64,
        1u64 << 5u64 == 0x20u64,
        1u64 << 6u64 == 0x40u64,
        1u64 << 7u64 == 0x80u64,
        1u64 << 56u64 == 0x0100_0000_0000_0000u64,
        1u64 << 57u64 == 0x0200_0000_0000_0000u64,
        1u64 << 58u64 == 0x0400_0000_0000_0000u64,
        1u64 << 59u64 == 0x0800_0000_0000_0000u64,
        1u64 << 60u64 == 0x1000_0000_0000_0000u64,
        1u64 << 61u64 == 0x2000_0000_0000_0000u64,
        1u64 << 62u64 == 0x4000_0000_0000_0000u64,
        1u64 << 63u64 == 0x8000_0000_0000_0000u64,
        0x40u64 & 0x04u64 == 0,
        0x4000_0000_0000_0000u64 & 0x0400_0000_0000_0000u64 == 0,
        0x10u64 & 0x10u64 == 0x10u64,
        0x1000_0000_0000_0000u64 & 0x1000_0000_0000_0000u64 == 0x1000_0000_0000_0000u64,
        0x60u64 == 0x40u64 | 0x20u64,
        0x0Eu64 == (0x08u64 | 0x04u64) | 0x02u64,
        0x6000_0000_0000_0000u64 == 0x4000_0000_0000_0000u64 | 0x2000_0000_0000_0000u64,
        0x0E00_0000_0000_0000u64 == (0x0800_0000_0000_0000u64 | 0x0400_0000_0000_0000u64)
            | 0x0200_0000_0000_0000u64,
{
}

/// A castling destination bit among the king's targets must come from
/// the castling mask of that wing, since the step targets avoid both
/// destinations.
proof fn lemma_castle_pick(steps: u64, ks: u64, qs: u64, kv: u64, qv: u64, tgt: u64)
    by (bit_vector)
    requires
        steps & (kv | qv) == 0,
        ks == kv || ks == 0,
        qs == qv || qs == 0,
        kv & qv == 0,
        kv != 0,
        qv != 0,
        tgt == kv || tgt == qv,
    ensures
        (steps | (ks | qs)) & tgt != 0 ==> ((tgt == kv ==> ks == kv) && (tgt == qv ==> qs == qv)),
{
}

/// Facts every legal move guarantees: both squares are on the board and
/// distinct, the source holds a mover's piece, the target holds none of
/// the mover's pieces, and a castling king move carries its guard facts
/// (right intact, path empty, rook on its corner).
pub proof fn lemma_legal_move_facts(c: int, t: int, s: GameState)
    requires
        state_ok(s),
        spec_is_legal(c, t, s),
    ensures
        0 <= c < 64,
        0 <= t < 64,
        c != t,
        nth_bit(own_occupied(s.board, s.side_to_move), c as u64),
        !nth_bit(own_occupied(s.board, s.side_to_move), t as u64),
        s.side_to_move == Color::White && nth_bit(s.board.white_king, c as u64) && c == 4 && t
            == 6 ==> s.white_can_castle_kingside && (s.board.white_occupied
            | s.board.black_occupied) & 0x60 == 0 && nth_bit(s.board.white_rooks, 7),
        s.side_to_move == Color::White && nth_bit(s.board.white_king, c as u64) && c == 4 && t
            == 2 ==> s.white_can_castle_queenside && (s.board.white_occupied
            | s.board.black_occupied) & 0x0E == 0 && nth_bit(s.board.white_rooks, 0),
        s.side_to_move == Color::Black && nth_bit(s.board.black_king, c as u64) && c == 60 && t
            == 62 ==> s.black_can_castle_kingside && (s.board.white_occupied
            | s.board.black_occupied) & 0x6000_0000_0000_0000 == 0 && nth_bit(
            s.board.black_rooks,
            63,
        ),
        s.side_to_move == Color::Black && nth_bit(s.board.black_king, c as u64) && c == 60 && t
            == 58 ==> s.black_can_castle_queenside && (s.board.white_occupied
            | s.board.black_occupied) & 0x0E00_0000_0000_0000 == 0 && nth_bit(
            s.board.black_rooks,
            56,
        ),
{
    let b = s.board;
    let side = s.side_to_move;
    let cu = c as u64;
    let tu = t as u64;
    let cm = 1u64 << cu;
    let tm = 1u64 << tu;
    let own = own_occupied(b, side);
    let wo = b.white_occupied;
    let bo = b.black_occupied;
    lemma_square_single_occupancy(b, cu);
    lemma_square_single_occupancy(b, tu);
    lemma_ep_unoccupied(s);
    lemma_split_or_right(s.en_passant_mask, wo, bo);
    match side {
        Color::White => {
            lemma_mask_bit(b.white_pawns, cu);
            lemma_mask_bit(b.white_bishops, cu);
            lemma_mask_bit(b.white_knights, cu);
            lemma_mask_bit(b.white_rooks, cu);
            lemma_mask_bit(b.white_queens, cu);
            lemma_mask_bit(b.white_king, cu);
            if cm & b.white_pawns != 0 {
                lemma_pawn_no_own(cm, s, side);
                lemma_mask_bit(spec_pawn_moves(cm, s, side), tu);
                lemma_disjoint_bit(spec_pawn_moves(cm, s, side), own, tu);
            } else if cm & b.white_bishops != 0 {
                lemma_bishop_no_own(cm, s, side);
                lemma_mask_bit(spec_bishop_moves(cm, s, side), tu);
                lemma_disjoint_bit(spec_bishop_moves(cm, s, side), own, tu);
            } else if cm & b.white_knights != 0 {
                lemma_knight_no_own(cm, s, side);
                lemma_mask_bit(spec_knight_moves(cm, s, side), tu);
                lemma_disjoint_bit(spec_knight_moves(cm, s, side), own, tu);
            } else if cm & b.white_rooks != 0 {
                lemma_rook_no_own(cm, s, side);
                lemma_mask_bit(spec_rook_moves(cm, s, side), tu);
                lemma_disjoint_bit(spec_rook_moves(cm, s, side), own, tu);
            } else if cm & b.white_queens != 0 {
                lemma_queen_no_own(cm, s, side);
                lemma_mask_bit(spec_queen_moves(cm, s, side), tu);
                lemma_disjoint_bit(spec_queen_moves(cm, s, side), own, tu);
            } else {
                lemma_king_no_own(cm, s, side, true);
                lemma_mask_bit(spec_king_moves(cm, s, side, true), tu);
                lemma_disjoint_bit(spec_king_moves(cm, s, side, true), own, tu);
                if c == 4 && (t == 6 || t == 2) {
                    lemma_castle_consts();
                    let steps = crate::legal_moves::spec_king_steps(cm, s, side);
                    assert((((0x10u64 & !0x0101_0101_0101_0101u64) << 7) & !own | ((0x10u64 << 8)
                        & !own) | (((0x10u64 & !0x8080_8080_8080_8080u64) << 9) & !own) | (((
                    0x10u64 & !0x0101_0101_0101_0101u64) >> 1) & !own) | (((0x10u64
                        & !0x8080_8080_8080_8080u64) << 1) & !own) | (((0x10u64
                        & !0x0101_0101_0101_0101u64) >> 9) & !own) | ((0x10u64 >> 8) & !own) | (((
                    0x10u64 & !0x8080_8080_8080_8080u64) >> 7) & !own)) & (0x40u64 | 0x04u64)
                        == 0) by (bit_vector);
                    let ks = if s.white_can_castle_kingside && (wo | bo) & 0x60 == 0 {
                        if spec_checked_squares(s, Color::Black) & 0x70 == 0 {
                            0x40u64
                        } else {
                            0u64
                        }
                    } else {
                        0u64
                    };
                    let qs = if s.white_can_castle_queenside && (wo | bo) & 0x0E == 0 {
                        if spec_checked_squares(s, Color::Black) & 0x1C == 0 {
                            0x04u64
                        } else {
                            0u64
                        }
                    } else {
                        0u64
                    };
                    assert(crate::legal_moves::spec_castling(4, s, side) == (ks | qs));
                    lemma_castle_pick(steps, ks, qs, 0x40u64, 0x04u64, tm);
                }
            }
        },
        Color::Black => {
            lemma_mask_bit(b.black_pawns, cu);
            lemma_mask_bit(b.black_bishops, cu);
            lemma_mask_bit(b.black_knights, cu);
            lemma_mask_bit(b.black_rooks, cu);
            lemma_mask_bit(b.black_queens, cu);
            lemma_mask_bit(b.black_king, cu);
            if cm & b.black_pawns != 0 {
                lemma_pawn_no_own(cm, s, side);
                lemma_mask_bit(spec_pawn_moves(cm, s, side), tu);
                lemma_disjoint_bit(spec_pawn_moves(cm, s, side), own, tu);
            } else if cm & b.black_bishops != 0 {
                lemma_bishop_no_own(cm, s, side);
                lemma_mask_bit(spec_bishop_moves(cm, s, side), tu);
                lemma_disjoint_bit(spec_bishop_moves(cm, s, side), own, tu);
            } else if cm & b.black_knights != 0 {
                lemma_knight_no_own(cm, s, side);
                lemma_mask_bit(spec_knight_moves(cm, s, side), tu);
                lemma_disjoint_bit(spec_knight_moves(cm, s, side), own, tu);
            } else if cm & b.black_rooks != 0 {
                lemma_rook_no_own(cm, s, side);
                lemma_mask_bit(spec_rook_moves(cm, s, side), tu);
                lemma_disjoint_bit(spec_rook_moves(cm, s, side), own, tu);
            } else if cm & b.black_queens != 0 {
                lemma_queen_no_own(cm, s, side);
                lemma_mask_bit(spec_queen_moves(cm, s, side), tu);
                lemma_disjoint_bit(spec_queen_moves(cm, s, side), own, tu);
            } else {
                lemma_king_no_own(cm, s, side, true);
                lemma_mask_bit(spec_king_moves(cm, s, side, true), tu);
                lemma_disjoint_bit(spec_king_moves(cm, s, side, true), own, tu);
                if c == 60 && (t == 62 || t == 58) {
                    lemma_castle_consts();
                    let steps = crate::legal_moves::spec_king_steps(cm, s, side);
                    assert((((0x1000_0000_0000_0000u64 & !0x0101_0101_0101_0101u64) << 7) & !own
                        | ((0x1000_0000_0000_0000u64 << 8) & !own) | (((0x1000_0000_0000_0000u64
                        & !0x8080_8080_8080_8080u64) << 9) & !own) | (((0x1000_0000_0000_0000u64
                        & !0x0101_0101_0101_0101u64) >> 1) & !own) | (((0x1000_0000_0000_0000u64
                        & !0x8080_8080_8080_8080u64) << 1) & !own) | (((0x1000_0000_0000_0000u64
                        & !0x0101_0101_0101_0101u64) >> 9) & !own) | ((0x1000_0000_0000_0000u64
                        >> 8) & !own) | (((0x1000_0000_0000_0000u64 & !0x8080_8080_8080_8080u64)
                        >> 7) & !own)) & (0x4000_0000_0000_0000u64 | 0x0400_0000_0000_0000u64)
                        == 0) by (bit_vector);
                    let ks = if s.black_can_castle_kingside && (wo | bo) & 0x6000_0000_0000_0000
                        == 0 {
                        if spec_checked_squares(s, Color::White) & 0x7000_0000_0000_0000 == 0 {
                            0x4000_0000_0000_0000u64
                        } else {
                            0u64
                        }
                    } else {
                        0u64
                    };
                    let qs = if s.black_can_castle_queenside && (wo | bo) & 0x0E00_0000_0000_0000
                        == 0 {
                        if spec_checked_squares(s, Color::White) & 0x1C00_0000_0000_0000 == 0 {
                            0x0400_0000_0000_0000u64
                        } else {
                            0u64
                        }
                    } else {
                        0u64
                    };
                    assert(crate::legal_moves::spec_castling(60, s, side) == (ks | qs));
                    lemma_castle_pick(
                        steps,
                        ks,
                        qs,
                        0x4000_0000_0000_0000u64,
                        0x0400_0000_0000_0000u64,
                        tm,
                    );
                }
            }
        },
    }
}

/// The destructive application of a move used by the terminal-state
/// scan: capture, relocation, and the castling rook shift — castling
/// rights and the en-passant target are left alone, since the scan
/// restores the state before anything reads them.
pub open spec fn spec_scan_apply(c: int, t: int, s: GameState) -> (GameState, Option<i8>) {
    let cm = 1u64 << (c as u64);
    let tm = 1u64 << (t as u64);
    let b1 = spec_capture(tm, s.board).0;
    let cap = spec_capture(tm, s.board).1;
    let b2 = spec_fill_square(cm, tm, b1);
    let b3 = spec_empty_square(cm, b2);
    (spec_castle(c, t, GameState { board: b3, ..s }), cap)
}

#[verifier::rlimit(100)]
proof fn lemma_white_scan_roundtrip(c: int, t: int, s: GameState)
    requires
        state_ok(s),
        spec_is_legal(c, t, s),
        s.side_to_move == Color::White,
    ensures
        spec_undo_move(
            c,
            t,
            spec_scan_apply(c, t, s).0,
            Color::Black,
            spec_scan_apply(c, t, s).1,
        ) == s,
{
    let b0 = s.board;
    let cu: u64 = c as u64;
    let tu: u64 = t as u64;
    let cm = 1u64 << cu;
    let tm = 1u64 << tu;
    lemma_legal_move_facts(c, t, s);
    lemma_square_single_occupancy(b0, cu);
    lemma_square_single_occupancy(b0, tu);
    let wp = b0.white_pawns;
    let wr = b0.white_rooks;
    let wn = b0.white_knights;
    let wb = b0.white_bishops;
    let wq = b0.white_queens;
    let wk = b0.white_king;
    let bp = b0.black_pawns;
    let br = b0.black_rooks;
    let bn = b0.black_knights;
    let bb = b0.black_bishops;
    let bq = b0.black_queens;
    let bk = b0.black_king;
    let wo = b0.white_occupied;
    let bo = b0.black_occupied;
    lemma_mask_bit(wp, cu);
    lemma_mask_bit(wr, cu);
    lemma_mask_bit(wn, cu);
    lemma_mask_bit(wb, cu);
    lemma_mask_bit(wq, cu);
    lemma_mask_bit(wk, cu);
    lemma_mask_bit(bp, cu);
    lemma_mask_bit(br, cu);
    lemma_mask_bit(bn, cu);
    lemma_mask_bit(bb, cu);
    lemma_mask_bit(bq, cu);
    lemma_mask_bit(bk, cu);
    lemma_mask_bit(wo, cu);
    lemma_mask_bit(bo, cu);
    lemma_mask_bit(wp, tu);
    lemma_mask_bit(wr, tu);
    lemma_mask_bit(wn, tu);
    lemma_mask_bit(wb, tu);
    lemma_mask_bit(wq, tu);
    lemma_mask_bit(wk, tu);
    lemma_mask_bit(bp, tu);
    lemma_mask_bit(br, tu);
    lemma_mask_bit(bn, tu);
    lemma_mask_bit(bb, tu);
    lemma_mask_bit(bq, tu);
    lemma_mask_bit(bk, tu);
    lemma_mask_bit(wo, tu);
    lemma_mask_bit(bo, tu);
    lemma_disjoint_bit(wo, bo, cu);
    lemma_disjoint_bit(wo, bo, tu);
    // Stage 1: capture clears the target bit from Black's masks.
    if nth_bit(bp, tu) {
        lemma_restore_set(bp, tu);
        lemma_captured_chain(bp, cu, tu);
    } else {
        lemma_clear_absent(bp, tu);
    }
    if nth_bit(br, tu) {
        lemma_restore_set(br, tu);
        lemma_captured_chain(br, cu, tu);
    } else {
        lemma_clear_absent(br, tu);
    }
    if nth_bit(bn, tu) {
        lemma_restore_set(bn, tu);
        lemma_captured_chain(bn, cu, tu);
    } else {
        lemma_clear_absent(bn, tu);
    }
    if nth_bit(bb, tu) {
        lemma_restore_set(bb, tu);
        lemma_captured_chain(bb, cu, tu);
    } else {
        lemma_clear_absent(bb, tu);
    }
    if nth_bit(bq, tu) {
        lemma_restore_set(bq, tu);
        lemma_captured_chain(bq, cu, tu);
    } else {
        lemma_clear_absent(bq, tu);
    }
    if nth_bit(bk, tu) {
        lemma_restore_set(bk, tu);
        lemma_captured_chain(bk, cu, tu);
    } else {
        lemma_clear_absent(bk, tu);
    }
    if nth_bit(bo, tu) {
        lemma_restore_set(bo, tu);
        lemma_captured_chain(bo, cu, tu);
    } else {
        lemma_clear_absent(bo, tu);
    }
    let b1 = spec_capture(tm, b0).0;
    let cap = spec_capture(tm, b0).1;
    assert(b1.white_pawns == wp && b1.white_rooks == wr && b1.white_knights == wn
        && b1.white_bishops == wb && b1.white_queens == wq && b1.white_king == wk
        && b1.white_occupied == wo);
    assert(b1.black_pawns == bp & !tm && b1.black_rooks == br & !tm && b1.black_knights == bn
        & !tm && b1.black_bishops == bb & !tm && b1.black_queens == bq & !tm && b1.black_king
        == bk & !tm && b1.black_occupied == bo & !tm);
    // Stage 2: relocation fills the target bit in the mover's mask.
    lemma_bit_eval_clear(bp, tu, cu);
    lemma_bit_eval_clear(br, tu, cu);
    lemma_bit_eval_clear(bn, tu, cu);
    lemma_bit_eval_clear(bb, tu, cu);
    lemma_bit_eval_clear(bq, tu, cu);
    lemma_bit_eval_clear(bk, tu, cu);
    lemma_bit_eval_clear(bo, tu, cu);
    lemma_bit_eval_clear(bp, tu, tu);
    lemma_bit_eval_clear(br, tu, tu);
    lemma_bit_eval_clear(bn, tu, tu);
    lemma_bit_eval_clear(bb, tu, tu);
    lemma_bit_eval_clear(bq, tu, tu);
    lemma_bit_eval_clear(bk, tu, tu);
    lemma_bit_eval_clear(bo, tu, tu);
    lemma_mask_bit(bp & !tm, cu);
    lemma_mask_bit(br & !tm, cu);
    lemma_mask_bit(bn & !tm, cu);
    lemma_mask_bit(bb & !tm, cu);
    lemma_mask_bit(bq & !tm, cu);
    lemma_mask_bit(bk & !tm, cu);
    lemma_mask_bit(bo & !tm, cu);
    lemma_mask_bit(bp & !tm, tu);
    lemma_mask_bit(br & !tm, tu);
    lemma_mask_bit(bn & !tm, tu);
    lemma_mask_bit(bb & !tm, tu);
    lemma_mask_bit(bq & !tm, tu);
    lemma_mask_bit(bk & !tm, tu);
    lemma_mask_bit(bo & !tm, tu);
    let b2 = spec_fill_square(cm, tm, b1);
    assert(b2.black_pawns == b1.black_pawns && b2.black_rooks == b1.black_rooks
        && b2.black_knights == b1.black_knights && b2.black_bishops == b1.black_bishops
        && b2.black_queens == b1.black_queens && b2.black_king == b1.black_king
        && b2.black_occupied == b1.black_occupied);
    assert(b2.white_pawns == (if nth_bit(wp, cu) {
        wp | tm
    } else {
        wp
    }));
    assert(b2.white_rooks == (if nth_bit(wr, cu) {
        wr | tm
    } else {
        wr
    }));
    assert(b2.white_knights == (if nth_bit(wn, cu) {
        wn | tm
    } else {
        wn
    }));
    assert(b2.white_bishops == (if nth_bit(wb, cu) {
        wb | tm
    } else {
        wb
    }));
    assert(b2.white_queens == (if nth_bit(wq, cu) {
        wq | tm
    } else {
        wq
    }));
    assert(b2.white_king == (if nth_bit(wk, cu) {
        wk | tm
    } else {
        wk
    }));
    assert(b2.white_occupied == wo | tm);
    // Stage 3: the source square is emptied.
    if nth_bit(wp, cu) {
        lemma_bit_eval_move(wp, cu, tu, tu);
        lemma_move_roundtrip(wp, cu, tu);
    } else {
        lemma_clear_absent(wp, cu);
    }
    if nth_bit(wr, cu) {
        lemma_bit_eval_move(wr, cu, tu, tu);
        lemma_move_roundtrip(wr, cu, tu);
    } else {
        lemma_clear_absent(wr, cu);
    }
    if nth_bit(wn, cu) {
        lemma_bit_eval_move(wn, cu, tu, tu);
        lemma_move_roundtrip(wn, cu, tu);
    } else {
        lemma_clear_absent(wn, cu);
    }
    if nth_bit(wb, cu) {
        lemma_bit_eval_move(wb, cu, tu, tu);
        lemma_move_roundtrip(wb, cu, tu);
    } else {
        lemma_clear_absent(wb, cu);
    }
    if nth_bit(wq, cu) {
        lemma_bit_eval_move(wq, cu, tu, tu);
        lemma_move_roundtrip(wq, cu, tu);
    } else {
        lemma_clear_absent(wq, cu);
    }
    if nth_bit(wk, cu) {
        lemma_bit_eval_move(wk, cu, tu, tu);
        lemma_move_roundtrip(wk, cu, tu);
    } else {
        lemma_clear_absent(wk, cu);
    }
    lemma_bit_eval_move(wo, cu, tu, tu);
    lemma_move_roundtrip(wo, cu, tu);
    lemma_clear_absent(bp & !tm, cu);
    lemma_clear_absent(br & !tm, cu);
    lemma_clear_absent(bn & !tm, cu);
    lemma_clear_absent(bb & !tm, cu);
    lemma_clear_absent(bq & !tm, cu);
    lemma_clear_absent(bk & !tm, cu);
    lemma_clear_absent(bo & !tm, cu);
    lemma_clear_absent(bp & !tm, tu);
    lemma_clear_absent(br & !tm, tu);
    lemma_clear_absent(bn & !tm, tu);
    lemma_clear_absent(bb & !tm, tu);
    lemma_clear_absent(bq & !tm, tu);
    lemma_clear_absent(bk & !tm, tu);
    lemma_clear_absent(bo & !tm, tu);
    let b3 = spec_empty_square(cm, b2);
    assert(b3.white_pawns == (if nth_bit(wp, cu) {
        (wp | tm) & !cm
    } else {
        wp
    }));
    assert(b3.white_rooks == (if nth_bit(wr, cu) {
        (wr | tm) & !cm
    } else {
        wr
    }));
    assert(b3.white_knights == (if nth_bit(wn, cu) {
        (wn | tm) & !cm
    } else {
        wn
    }));
    assert(b3.white_bishops == (if nth_bit(wb, cu) {
        (wb | tm) & !cm
    } else {
        wb
    }));
    assert(b3.white_queens == (if nth_bit(wq, cu) {
        (wq | tm) & !cm
    } else {
        wq
    }));
    assert(b3.white_king == (if nth_bit(wk, cu) {
        (wk | tm) & !cm
    } else {
        wk
    }));
    assert(b3.white_occupied == (wo | tm) & !cm);
    assert(b3.black_pawns == bp & !tm && b3.black_rooks == br & !tm && b3.black_knights == bn
        & !tm && b3.black_bishops == bb & !tm && b3.black_queens == bq & !tm && b3.black_king
        == bk & !tm && b3.black_occupied == bo & !tm);
    // Stage 4 and its inverse: the castling rook shift.
    let s3 = GameState { board: b3, ..s };
    let s4 = spec_castle(c, t, s3);
    lemma_mask_bit(b3.white_king, tu);
    lemma_mask_bit(b3.black_king, tu);
    if nth_bit(wk, cu) && c == 4 && (t == 6 || t == 2) {
        lemma_castle_consts();
        if t == 6 {
            lemma_disjoint_comm(wo | bo, 0x60u64);
            lemma_split_or_right(0x60u64, wo, bo);
            lemma_disjoint_comm(0x60u64, wo);
            lemma_split_or_right(wo, 0x40u64, 0x20u64);
            lemma_square_single_occupancy(b0, 5);
            lemma_square_single_occupancy(b0, 7);
            lemma_mask_bit(wo, 5);
            lemma_mask_bit(wo, 7);
            lemma_mask_bit(wp, 5);
            lemma_mask_bit(wr, 5);
            lemma_disjoint_comm(wo, 0x20u64);
            assert(!nth_bit(wo, 5));
            assert(!nth_bit(wr, 5));
            assert(nth_bit(wr, 7));
            assert(nth_bit(wo, 7));
            lemma_castle_rook_roundtrip(wr, 5, 7);
            lemma_bit_eval_move(wo, cu, tu, 5);
            lemma_bit_eval_move(wo, cu, tu, 7);
            lemma_castle_rook_roundtrip((wo | tm) & !cm, 5, 7);
            lemma_mask_bit(s4.board.white_king, tu);
            assert(spec_undo_castle(c, t, s4).board == b3);
        } else {
            lemma_disjoint_comm(wo | bo, 0x0Eu64);
            lemma_split_or_right(0x0Eu64, wo, bo);
            lemma_disjoint_comm(0x0Eu64, wo);
            lemma_split_or_right(wo, 0x08u64 | 0x04u64, 0x02u64);
            lemma_split_or_right(wo, 0x08u64, 0x04u64);
            lemma_square_single_occupancy(b0, 3);
            lemma_square_single_occupancy(b0, 0);
            lemma_mask_bit(wo, 3);
            lemma_mask_bit(wo, 0);
            lemma_disjoint_comm(wo, 0x08u64);
            assert(!nth_bit(wo, 3));
            assert(!nth_bit(wr, 3));
            assert(nth_bit(wr, 0));
            assert(nth_bit(wo, 0));
            lemma_castle_rook_roundtrip(wr, 3, 0);
            lemma_bit_eval_move(wo, cu, tu, 3);
            lemma_bit_eval_move(wo, cu, tu, 0);
            lemma_castle_rook_roundtrip((wo | tm) & !cm, 3, 0);
            lemma_mask_bit(s4.board.white_king, tu);
            assert(spec_undo_castle(c, t, s4).board == b3);
        }
    } else {
        assert(s4 == s3);
        assert(spec_undo_castle(c, t, s4).board == b3);
    }
    let b5 = spec_undo_castle(c, t, s4).board;
    // Stages 5-7: move the piece back and restore the captured piece.
    lemma_mask_bit(b5.white_pawns, tu);
    lemma_mask_bit(b5.white_rooks, tu);
    lemma_mask_bit(b5.white_knights, tu);
    lemma_mask_bit(b5.white_bishops, tu);
    lemma_mask_bit(b5.white_queens, tu);
    lemma_mask_bit(b5.white_king, tu);
    lemma_mask_bit(b5.black_pawns, tu);
    lemma_mask_bit(b5.black_rooks, tu);
    lemma_mask_bit(b5.black_knights, tu);
    lemma_mask_bit(b5.black_bishops, tu);
    lemma_mask_bit(b5.black_queens, tu);
    lemma_mask_bit(b5.black_king, tu);
    let b6 = spec_fill_square(tm, cm, b5);
    assert(b6.white_pawns == (if nth_bit(wp, cu) {
        ((wp | tm) & !cm) | cm
    } else {
        wp
    }));
    assert(b6.white_rooks == (if nth_bit(wr, cu) {
        ((wr | tm) & !cm) | cm
    } else {
        wr
    }));
    assert(b6.white_knights == (if nth_bit(wn, cu) {
        ((wn | tm) & !cm) | cm
    } else {
        wn
    }));
    assert(b6.white_bishops == (if nth_bit(wb, cu) {
        ((wb | tm) & !cm) | cm
    } else {
        wb
    }));
    assert(b6.white_queens == (if nth_bit(wq, cu) {
        ((wq | tm) & !cm) | cm
    } else {
        wq
    }));
    assert(b6.white_king == (if nth_bit(wk, cu) {
        ((wk | tm) & !cm) | cm
    } else {
        wk
    }));
    assert(b6.white_occupied == ((wo | tm) & !cm) | cm);
    assert(b6.black_pawns == bp & !tm && b6.black_rooks == br & !tm && b6.black_knights == bn
        & !tm && b6.black_bishops == bb & !tm && b6.black_queens == bq & !tm && b6.black_king
        == bk & !tm && b6.black_occupied == bo & !tm);
    if !nth_bit(wp, cu) {
        lemma_clear_absent(wp, tu);
    }
    if !nth_bit(wr, cu) {
        lemma_clear_absent(wr, tu);
    }
    if !nth_bit(wn, cu) {
        lemma_clear_absent(wn, tu);
    }
    if !nth_bit(wb, cu) {
        lemma_clear_absent(wb, tu);
    }
    if !nth_bit(wq, cu) {
        lemma_clear_absent(wq, tu);
    }
    if !nth_bit(wk, cu) {
        lemma_clear_absent(wk, tu);
    }
    let b7 = spec_empty_square(tm, b6);
    assert(b7.white_pawns == wp && b7.white_rooks == wr && b7.white_knights == wn
        && b7.white_bishops == wb && b7.white_queens == wq && b7.white_king == wk
        && b7.white_occupied == wo);
    assert(b7.black_pawns == bp & !tm && b7.black_rooks == br & !tm && b7.black_knights == bn
        & !tm && b7.black_bishops == bb & !tm && b7.black_queens == bq & !tm && b7.black_king
        == bk & !tm && b7.black_occupied == bo & !tm);
    let b8 = spec_restore_captured(tm, Color::Black, cap, b7);
    assert(b8 == b0);
    assert(spec_undo_move(c, t, s4, Color::Black, cap) == s);
}

#[verifier::rlimit(100)]
proof fn lemma_black_scan_roundtrip(c: int, t: int, s: GameState)
    requires
        state_ok(s),
        spec_is_legal(c, t, s),
        s.side_to_move == Color::Black,
    ensures
        spec_undo_move(
            c,
            t,
            spec_scan_apply(c, t, s).0,
            Color::White,
            spec_scan_apply(c, t, s).1,
        ) == s,
{
    let b0 = s.board;
    let cu: u64 = c as u64;
    let tu: u64 = t as u64;
    let cm = 1u64 << cu;
    let tm = 1u64 << tu;
    lemma_legal_move_facts(c, t, s);
    lemma_square_single_occupancy(b0, cu);
    lemma_square_single_occupancy(b0, tu);
    let wp = b0.white_pawns;
    let wr = b0.white_rooks;
    let wn = b0.white_knights;
    let wb = b0.white_bishops;
    let wq = b0.white_queens;
    let wk = b0.white_king;
    let bp = b0.black_pawns;
    let br = b0.black_rooks;
    let bn = b0.black_knights;
    let bb = b0.black_bishops;
    let bq = b0.black_queens;
    let bk = b0.black_king;
    let wo = b0.white_occupied;
    let bo = b0.black_occupied;
    lemma_mask_bit(wp, cu);
    lemma_mask_bit(wr, cu);
    lemma_mask_bit(wn, cu);
    lemma_mask_bit(wb, cu);
    lemma_mask_bit(wq, cu);
    lemma_mask_bit(wk, cu);
    lemma_mask_bit(bp, cu);
    lemma_mask_bit(br, cu);
    lemma_mask_bit(bn, cu);
    lemma_mask_bit(bb, cu);
    lemma_mask_bit(bq, cu);
    lemma_mask_bit(bk, cu);
    lemma_mask_bit(wo, cu);
    lemma_mask_bit(bo, cu);
    lemma_mask_bit(wp, tu);
    lemma_mask_bit(wr, tu);
    lemma_mask_bit(wn, tu);
    lemma_mask_bit(wb, tu);
    lemma_mask_bit(wq, tu);
    lemma_mask_bit(wk, tu);
    lemma_mask_bit(bp, tu);
    lemma_mask_bit(br, tu);
    lemma_mask_bit(bn, tu);
    lemma_mask_bit(bb, tu);
    lemma_mask_bit(bq, tu);
    lemma_mask_bit(bk, tu);
    lemma_mask_bit(wo, tu);
    lemma_mask_bit(bo, tu);
    lemma_disjoint_comm(wo, bo);
    lemma_disjoint_bit(bo, wo, cu);
    lemma_disjoint_bit(bo, wo, tu);
    // Stage 1: capture clears the target bit from White's masks.
    if nth_bit(wp, tu) {
        lemma_restore_set(wp, tu);
        lemma_captured_chain(wp, cu, tu);
    } else {
        lemma_clear_absent(wp, tu);
    }
    if nth_bit(wr, tu) {
        lemma_restore_set(wr, tu);
        lemma_captured_chain(wr, cu, tu);
    } else {
        lemma_clear_absent(wr, tu);
    }
    if nth_bit(wn, tu) {
        lemma_restore_set(wn, tu);
        lemma_captured_chain(wn, cu, tu);
    } else {
        lemma_clear_absent(wn, tu);
    }
    if nth_bit(wb, tu) {
        lemma_restore_set(wb, tu);
        lemma_captured_chain(wb, cu, tu);
    } else {
        lemma_clear_absent(wb, tu);
    }
    if nth_bit(wq, tu) {
        lemma_restore_set(wq, tu);
        lemma_captured_chain(wq, cu, tu);
    } else {
        lemma_clear_absent(wq, tu);
    }
    if nth_bit(wk, tu) {
        lemma_restore_set(wk, tu);
        lemma_captured_chain(wk, cu, tu);
    } else {
        lemma_clear_absent(wk, tu);
    }
    if nth_bit(wo, tu) {
        lemma_restore_set(wo, tu);
        lemma_captured_chain(wo, cu, tu);
    } else {
        lemma_clear_absent(wo, tu);
    }
    let b1 = spec_capture(tm, b0).0;
    let cap = spec_capture(tm, b0).1;
    assert(b1.black_pawns == bp && b1.black_rooks == br && b1.black_knights == bn
        && b1.black_bishops == bb && b1.black_queens == bq && b1.black_king == bk
        && b1.black_occupied == bo);
    assert(b1.white_pawns == wp & !tm && b1.white_rooks == wr & !tm && b1.white_knights == wn
        & !tm && b1.white_bishops == wb & !tm && b1.white_queens == wq & !tm && b1.white_king
        == wk & !tm && b1.white_occupied == wo & !tm);
    // Stage 2: relocation fills the target bit in the mover's mask.
    lemma_bit_eval_clear(wp, tu, cu);
    lemma_bit_eval_clear(wr, tu, cu);
    lemma_bit_eval_clear(wn, tu, cu);
    lemma_bit_eval_clear(wb, tu, cu);
    lemma_bit_eval_clear(wq, tu, cu);
    lemma_bit_eval_clear(wk, tu, cu);
    lemma_bit_eval_clear(wo, tu, cu);
    lemma_bit_eval_clear(wp, tu, tu);
    lemma_bit_eval_clear(wr, tu, tu);
    lemma_bit_eval_clear(wn, tu, tu);
    lemma_bit_eval_clear(wb, tu, tu);
    lemma_bit_eval_clear(wq, tu, tu);
    lemma_bit_eval_clear(wk, tu, tu);
    lemma_bit_eval_clear(wo, tu, tu);
    lemma_mask_bit(wp & !tm, cu);
    lemma_mask_bit(wr & !tm, cu);
    lemma_mask_bit(wn & !tm, cu);
    lemma_mask_bit(wb & !tm, cu);
    lemma_mask_bit(wq & !tm, cu);
    lemma_mask_bit(wk & !tm, cu);
    lemma_mask_bit(wo & !tm, cu);
    lemma_mask_bit(wp & !tm, tu);
    lemma_mask_bit(wr & !tm, tu);
    lemma_mask_bit(wn & !tm, tu);
    lemma_mask_bit(wb & !tm, tu);
    lemma_mask_bit(wq & !tm, tu);
    lemma_mask_bit(wk & !tm, tu);
    lemma_mask_bit(wo & !tm, tu);
    let b2 = spec_fill_square(cm, tm, b1);
    assert(b2.white_pawns == b1.white_pawns && b2.white_rooks == b1.white_rooks
        && b2.white_knights == b1.white_knights && b2.white_bishops == b1.white_bishops
        && b2.white_queens == b1.white_queens && b2.white_king == b1.white_king
        && b2.white_occupied == b1.white_occupied);
    assert(b2.black_pawns == (if nth_bit(bp, cu) {
        bp | tm
    } else {
        bp
    }));
    assert(b2.black_rooks == (if nth_bit(br, cu) {
        br | tm
    } else {
        br
    }));
    assert(b2.black_knights == (if nth_bit(bn, cu) {
        bn | tm
    } else {
        bn
    }));
    assert(b2.black_bishops == (if nth_bit(bb, cu) {
        bb | tm
    } else {
        bb
    }));
    assert(b2.black_queens == (if nth_bit(bq, cu) {
        bq | tm
    } else {
        bq
    }));
    assert(b2.black_king == (if nth_bit(bk, cu) {
        bk | tm
    } else {
        bk
    }));
    assert(b2.black_occupied == bo | tm);
    // Stage 3: the source square is emptied.
    if nth_bit(bp, cu) {
        lemma_bit_eval_move(bp, cu, tu, tu);
        lemma_move_roundtrip(bp, cu, tu);
    } else {
        lemma_clear_absent(bp, cu);
    }
    if nth_bit(br, cu) {
        lemma_bit_eval_move(br, cu, tu, tu);
        lemma_move_roundtrip(br, cu, tu);
    } else {
        lemma_clear_absent(br, cu);
    }
    if nth_bit(bn, cu) {
        lemma_bit_eval_move(bn, cu, tu, tu);
        lemma_move_roundtrip(bn, cu, tu);
    } else {
        lemma_clear_absent(bn, cu);
    }
    if nth_bit(bb, cu) {
        lemma_bit_eval_move(bb, cu, tu, tu);
        lemma_move_roundtrip(bb, cu, tu);
    } else {
        lemma_clear_absent(bb, cu);
    }
    if nth_bit(bq, cu) {
        lemma_bit_eval_move(bq, cu, tu, tu);
        lemma_move_roundtrip(bq, cu, tu);
    } else {
        lemma_clear_absent(bq, cu);
    }
    if nth_bit(bk, cu) {
        lemma_bit_eval_move(bk, cu, tu, tu);
        lemma_move_roundtrip(bk, cu, tu);
    } else {
        lemma_clear_absent(bk, cu);
    }
    lemma_bit_eval_move(bo, cu, tu, tu);
    lemma_move_roundtrip(bo, cu, tu);
    lemma_clear_absent(wp & !tm, cu);
    lemma_clear_absent(wr & !tm, cu);
    lemma_clear_absent(wn & !tm, cu);
    lemma_clear_absent(wb & !tm, cu);
    lemma_clear_absent(wq & !tm, cu);
    lemma_clear_absent(wk & !tm, cu);
    lemma_clear_absent(wo & !tm, cu);
    lemma_clear_absent(wp & !tm, tu);
    lemma_clear_absent(wr & !tm, tu);
    lemma_clear_absent(wn & !tm, tu);
    lemma_clear_absent(wb & !tm, tu);
    lemma_clear_absent(wq & !tm, tu);
    lemma_clear_absent(wk & !tm, tu);
    lemma_clear_absent(wo & !tm, tu);
    let b3 = spec_empty_square(cm, b2);
    assert(b3.black_pawns == (if nth_bit(bp, cu) {
        (bp | tm) & !cm
    } else {
        bp
    }));
    assert(b3.black_rooks == (if nth_bit(br, cu) {
        (br | tm) & !cm
    } else {
        br
    }));
    assert(b3.black_knights == (if nth_bit(bn, cu) {
        (bn | tm) & !cm
    } else {
        bn
    }));
    assert(b3.black_bishops == (if nth_bit(bb, cu) {
        (bb | tm) & !cm
    } else {
        bb
    }));
    assert(b3.black_queens == (if nth_bit(bq, cu) {
        (bq | tm) & !cm
    } else {
        bq
    }));
    assert(b3.black_king == (if nth_bit(bk, cu) {
        (bk | tm) & !cm
    } else {
        bk
    }));
    assert(b3.black_occupied == (bo | tm) & !cm);
    assert(b3.white_pawns == wp & !tm && b3.white_rooks == wr & !tm && b3.white_knights == wn
        & !tm && b3.white_bishops == wb & !tm && b3.white_queens == wq & !tm && b3.white_king
        == wk & !tm && b3.white_occupied == wo & !tm);
    // Stage 4 and its inverse: the castling rook shift.
    let s3 = GameState { board: b3, ..s };
    let s4 = spec_castle(c, t, s3);
    lemma_mask_bit(b3.white_king, tu);
    lemma_mask_bit(b3.black_king, tu);
    if nth_bit(bk, cu) && c == 60 && (t == 62 || t == 58) {
        lemma_castle_consts();
        if t == 62 {
            lemma_disjoint_comm(wo | bo, 0x6000_0000_0000_0000u64);
            lemma_split_or_right(0x6000_0000_0000_0000u64, wo, bo);
            lemma_disjoint_comm(0x6000_0000_0000_0000u64, bo);
            lemma_split_or_right(bo, 0x4000_0000_0000_0000u64, 0x2000_0000_0000_0000u64);
            lemma_square_single_occupancy(b0, 61);
            lemma_square_single_occupancy(b0, 63);
            lemma_mask_bit(bo, 61);
            lemma_mask_bit(bo, 63);
            lemma_disjoint_comm(bo, 0x2000_0000_0000_0000u64);
            assert(!nth_bit(bo, 61));
            assert(!nth_bit(br, 61));
            assert(nth_bit(br, 63));
            assert(nth_bit(bo, 63));
            lemma_castle_rook_roundtrip(br, 61, 63);
            lemma_bit_eval_move(bo, cu, tu, 61);
            lemma_bit_eval_move(bo, cu, tu, 63);
            lemma_castle_rook_roundtrip((bo | tm) & !cm, 61, 63);
            lemma_mask_bit(s4.board.black_king, tu);
            assert(spec_undo_castle(c, t, s4).board == b3);
        } else {
            lemma_disjoint_comm(wo | bo, 0x0E00_0000_0000_0000u64);
            lemma_split_or_right(0x0E00_0000_0000_0000u64, wo, bo);
            lemma_disjoint_comm(0x0E00_0000_0000_0000u64, bo);
            lemma_split_or_right(
                bo,
                0x0800_0000_0000_0000u64 | 0x0400_0000_0000_0000u64,
                0x0200_0000_0000_0000u64,
            );
            lemma_split_or_right(bo, 0x0800_0000_0000_0000u64, 0x0400_0000_0000_0000u64);
            lemma_square_single_occupancy(b0, 59);
            lemma_square_single_occupancy(b0, 56);
            lemma_mask_bit(bo, 59);
            lemma_mask_bit(bo, 56);
            lemma_disjoint_comm(bo, 0x0800_0000_0000_0000u64);
            assert(!nth_bit(bo, 59));
            assert(!nth_bit(br, 59));
            assert(nth_bit(br, 56));
            assert(nth_bit(bo, 56));
            lemma_castle_rook_roundtrip(br, 59, 56);
            lemma_bit_eval_move(bo, cu, tu, 59);
            lemma_bit_eval_move(bo, cu, tu, 56);
            lemma_castle_rook_roundtrip((bo | tm) & !cm, 59, 56);
            lemma_mask_bit(s4.board.black_king, tu);
            assert(spec_undo_castle(c, t, s4).board == b3);
        }
    } else {
        assert(s4 == s3);
        assert(spec_undo_castle(c, t, s4).board == b3);
    }
    let b5 = spec_undo_castle(c, t, s4).board;
    // Stages 5-7: move the piece back and restore the captured piece.
    lemma_mask_bit(b5.white_pawns, tu);
    lemma_mask_bit(b5.white_rooks, tu);
    lemma_mask_bit(b5.white_knights, tu);
    lemma_mask_bit(b5.white_bishops, tu);
    lemma_mask_bit(b5.white_queens, tu);
    lemma_mask_bit(b5.white_king, tu);
    lemma_mask_bit(b5.black_pawns, tu);
    lemma_mask_bit(b5.black_rooks, tu);
    lemma_mask_bit(b5.black_knights, tu);
    lemma_mask_bit(b5.black_bishops, tu);
    lemma_mask_bit(b5.black_queens, tu);
    lemma_mask_bit(b5.black_king, tu);
    let b6 = spec_fill_square(tm, cm, b5);
    assert(b6.black_pawns == (if nth_bit(bp, cu) {
        ((bp | tm) & !cm) | cm
    } else {
        bp
    }));
    assert(b6.black_rooks == (if nth_bit(br, cu) {
        ((br | tm) & !cm) | cm
    } else {
        br
    }));
    assert(b6.black_knights == (if nth_bit(bn, cu) {
        ((bn | tm) & !cm) | cm
    } else {
        bn
    }));
    assert(b6.black_bishops == (if nth_bit(bb, cu) {
        ((bb | tm) & !cm) | cm
    } else {
        bb
    }));
    assert(b6.black_queens == (if nth_bit(bq, cu) {
        ((bq | tm) & !cm) | cm
    } else {
        bq
    }));
    assert(b6.black_king == (if nth_bit(bk, cu) {
        ((bk | tm) & !cm) | cm
    } else {
        bk
    }));
    assert(b6.black_occupied == ((bo | tm) & !cm) | cm);
    assert(b6.white_pawns == wp & !tm && b6.white_rooks == wr & !tm && b6.white_knights == wn
        & !tm && b6.white_bishops == wb & !tm && b6.white_queens == wq & !tm && b6.white_king
        == wk & !tm && b6.white_occupied == wo & !tm);
    if !nth_bit(bp, cu) {
        lemma_clear_absent(bp, tu);
    }
    if !nth_bit(br, cu) {
        lemma_clear_absent(br, tu);
    }
    if !nth_bit(bn, cu) {
        lemma_clear_absent(bn, tu);
    }
    if !nth_bit(bb, cu) {
        lemma_clear_absent(bb, tu);
    }
    if !nth_bit(bq, cu) {
        lemma_clear_absent(bq, tu);
    }
    if !nth_bit(bk, cu) {
        lemma_clear_absent(bk, tu);
    }
    let b7 = spec_empty_square(tm, b6);
    assert(b7.black_pawns == bp && b7.black_rooks == br && b7.black_knights == bn
        && b7.black_bishops == bb && b7.black_queens == bq && b7.black_king == bk
        && b7.black_occupied == bo);
    assert(b7.white_pawns == wp & !tm && b7.white_rooks == wr & !tm && b7.white_knights == wn
        & !tm && b7.white_bishops == wb & !tm && b7.white_queens == wq & !tm && b7.white_king
        == wk & !tm && b7.white_occupied == wo & !tm);
    let b8 = spec_restore_captured(tm, Color::White, cap, b7);
    assert(b8 == b0);
    assert(spec_undo_move(c, t, s4, Color::White, cap) == s);
}

/// Law (round trip): applying a legal move the way the terminal-state
/// scan does and then undoing it with the recorded capture restores the
/// exact pre-move state — board, en-passant mask and castling rights.
#[verifier::rlimit(100)]
pub proof fn lemma_scan_roundtrip(c: int, t: int, s: GameState)
    requires
        state_ok(s),
        spec_is_legal(c, t, s),
    ensures
        spec_undo_move(
            c,
            t,
            spec_scan_apply(c, t, s).0,
            opposite_color(s.side_to_move),
            spec_scan_apply(c, t, s).1,
        ) == s,
{
    match s.side_to_move {
        Color::White => {
            lemma_white_scan_roundtrip(c, t, s);
        },
        Color::Black => {
            lemma_black_scan_roundtrip(c, t, s);
        },
    }
}

/// No legal move of the side to move escapes check: every legal
/// (source, target) pair, applied the way the terminal scan applies it,
/// leaves the mover's king attacked.
pub open spec fn spec_no_escape(s: GameState) -> bool {
    forall|c: int, t: int|
        0 <= c < 64 && 0 <= t < 64 && #[trigger] spec_is_legal(c, t, s) ==> spec_is_check(
            spec_scan_apply(c, t, s).0,
            opposite_color(s.side_to_move),
        )
}

/// Decide whether the side to move has any legal move that leaves its
/// king safe. Every (source, target) pair is tried destructively —
/// capture, relocation, castling rook shift — checked, and undone
/// exactly, so the state comes back unchanged. True means checkmate or
/// stalemate; the caller tells them apart with `is_check`.
pub fn is_checkmate_stalemate(state: &mut GameState) -> (r: bool)
    requires
        state_ok(*old(state)),
    ensures
        *final(state) == *old(state),
        r == spec_no_escape(*old(state)),
{
    let side = state.side_to_move;
    let opposite_side = side.opposite();
    let mut cur_square: i8 = 0;
    while cur_square < 64
        invariant
            0 <= cur_square <= 64,
            *state == *old(state),
            state_ok(*old(state)),
            side == old(state).side_to_move,
            opposite_side == opposite_color(side),
            forall|ci: int, ti: int|
                0 <= ci < cur_square && 0 <= ti < 64 && #[trigger] spec_is_legal(
                    ci,
                    ti,
                    *old(state),
                ) ==> spec_is_check(
                    spec_scan_apply(ci, ti, *old(state)).0,
                    opposite_color(old(state).side_to_move),
                ),
        decreases 64 - cur_square,
    {
        let mut target_square: i8 = 0;
        while target_square < 64
            invariant
                0 <= cur_square < 64,
                0 <= target_square <= 64,
                *state == *old(state),
                state_ok(*old(state)),
                side == old(state).side_to_move,
                opposite_side == opposite_color(side),
                forall|ci: int, ti: int|
                    0 <= ci < cur_square && 0 <= ti < 64 && #[trigger] spec_is_legal(
                        ci,
                        ti,
                        *old(state),
                    ) ==> spec_is_check(
                        spec_scan_apply(ci, ti, *old(state)).0,
                        opposite_color(old(state).side_to_move),
                    ),
                forall|ti: int|
                    0 <= ti < target_square && #[trigger] spec_is_legal(
                        cur_square as int,
                        ti,
                        *old(state),
                    ) ==> spec_is_check(
                        spec_scan_apply(cur_square as int, ti, *old(state)).0,
                        opposite_color(old(state).side_to_move),
                    ),
            decreases 64 - target_square,
        {
            if is_legal(cur_square, target_square, state) {
                let cur_mask: u64 = 1u64 << (cur_square as u64);
                let target_mask: u64 = 1u64 << (target_square as u64);
                let piece_captured = capture(target_mask, &mut state.board);
                fill_square(cur_mask, target_mask, &mut state.board);
                empty_square(cur_mask, &mut state.board);
                castle(cur_square, target_square, state);
                let in_check = is_check(state, opposite_side);
                undo_move(cur_square, target_square, state, opposite_side, piece_captured);
                proof {
                    lemma_scan_roundtrip(cur_square as int, target_square as int, *old(state));
                }
                if !in_check {
                    return false;
                }
            }
            target_square = target_square + 1;
        }
        cur_square = cur_square + 1;
    }
    true
}

/// The state after every rule effect of a move except promotion and the
/// turn toggle: capture, relocation, en-passant resolution, en-passant
/// target update, castling rook shift, and the castling-rights update
/// for both squares — in that order.
pub open spec fn spec_apply_rules(c: int, t: int, s: GameState) -> GameState {
    let cm = 1u64 << (c as u64);
    let tm = 1u64 << (t as u64);
    let b1 = spec_capture(tm, s.board).0;
    let b2 = spec_fill_square(cm, tm, b1);
    let b3 = spec_empty_square(cm, b2);
    let s3 = GameState { board: b3, ..s };
    let s4 = spec_en_passant(tm, s3);
    let s5 = spec_update_en_passant(c, t, s4);
    let s6 = spec_castle(c, t, s5);
    let s7 = spec_update_castling_rights(c, s6);
    spec_update_castling_rights(t, s7)
}

/// Whether the promotion step of the move accepts `choice`: true when no
/// promotion is due, or when a pawn awaits one and `choice` names a
/// piece.
pub open spec fn spec_move_promotion_ok(c: int, t: int, choice: char, s: GameState) -> bool {
    spec_promotion(t, spec_apply_rules(c, t, s), choice).1
}

/// The full effect of an accepted move on the game state: the rule
/// effects of `spec_apply_rules`, then promotion and the turn toggle.
pub open spec fn spec_apply_move(c: int, t: int, choice: char, s: GameState) -> GameState {
    let s9 = spec_promotion(t, spec_apply_rules(c, t, s), choice).0;
    GameState { side_to_move: opposite_color(s.side_to_move), ..s9 }
}

/// The board after capture, relocation and emptying of the source.
pub open spec fn spec_relocate(c: int, t: int, s: GameState) -> Board {
    let cm = 1u64 << (c as u64);
    let tm = 1u64 << (t as u64);
    spec_empty_square(cm, spec_fill_square(cm, tm, spec_capture(tm, s.board).0))
}

/// Field-by-field description of the relocated board for a legal White
/// move, together with its well-formedness.
#[verifier::rlimit(100)]
proof fn lemma_white_relocate_values(c: int, t: int, s: GameState)
    requires
        state_ok(s),
        spec_is_legal(c, t, s),
        s.side_to_move == Color::White,
    ensures
        ({
            let cm = 1u64 << (c as u64);
            let tm = 1u64 << (t as u64);
            let b0 = s.board;
            let b3 = spec_relocate(c, t, s);
            &&& b3.white_pawns == (if nth_bit(b0.white_pawns, c as u64) {
                (b0.white_pawns | tm) & !cm
            } else {
                b0.white_pawns
            })
            &&& b3.white_rooks == (if nth_bit(b0.white_rooks, c as u64) {
                (b0.white_rooks | tm) & !cm
            } else {
                b0.white_rooks
            })
            &&& b3.white_knights == (if nth_bit(b0.white_knights, c as u64) {
                (b0.white_knights | tm) & !cm
            } else {
                b0.white_knights
            })
            &&& b3.white_bishops == (if nth_bit(b0.white_bishops, c as u64) {
                (b0.white_bishops | tm) & !cm
            } else {
                b0.white_bishops
            })
            &&& b3.white_queens == (if nth_bit(b0.white_queens, c as u64) {
                (b0.white_queens | tm) & !cm
            } else {
                b0.white_queens
            })
            &&& b3.white_king == (if nth_bit(b0.white_king, c as u64) {
                (b0.white_king | tm) & !cm
            } else {
                b0.white_king
            })
            &&& b3.white_occupied == (b0.white_occupied | tm) & !cm
            &&& b3.black_pawns == b0.black_pawns & !tm
            &&& b3.black_rooks == b0.black_rooks & !tm
            &&& b3.black_knights == b0.black_knights & !tm
            &&& b3.black_bishops == b0.black_bishops & !tm
            &&& b3.black_queens == b0.black_queens & !tm
            &&& b3.black_king == b0.black_king & !tm
            &&& b3.black_occupied == b0.black_occupied & !tm
            &&& board_ok(b3)
        }),
{
    let b0 = s.board;
    let cu: u64 = c as u64;
    let tu: u64 = t as u64;
    let cm = 1u64 << cu;
    let tm = 1u64 << tu;
    lemma_legal_move_facts(c, t, s);
    lemma_square_single_occupancy(b0, cu);
    lemma_square_single_occupancy(b0, tu);
    let wp = b0.white_pawns;
    let wr = b0.white_rooks;
    let wn = b0.white_knights;
    let wb = b0.white_bishops;
    let wq = b0.white_queens;
    let wk = b0.white_king;
    let bp = b0.black_pawns;
    let br = b0.black_rooks;
    let bn = b0.black_knights;
    let bb = b0.black_bishops;
    let bq = b0.black_queens;
    let bk = b0.black_king;
    let wo = b0.white_occupied;
    let bo = b0.black_occupied;
    lemma_mask_bit(wp, cu);
    lemma_mask_bit(wr, cu);
    lemma_mask_bit(wn, cu);
    lemma_mask_bit(wb, cu);
    lemma_mask_bit(wq, cu);
    lemma_mask_bit(wk, cu);
    lemma_mask_bit(bp, cu);
    lemma_mask_bit(br, cu);
    lemma_mask_bit(bn, cu);
    lemma_mask_bit(bb, cu);
    lemma_mask_bit(bq, cu);
    lemma_mask_bit(bk, cu);
    lemma_mask_bit(wo, cu);
    lemma_mask_bit(bo, cu);
    lemma_mask_bit(wp, tu);
    lemma_mask_bit(wr, tu);
    lemma_mask_bit(wn, tu);
    lemma_mask_bit(wb, tu);
    lemma_mask_bit(wq, tu);
    lemma_mask_bit(wk, tu);
    lemma_mask_bit(bp, tu);
    lemma_mask_bit(br, tu);
    lemma_mask_bit(bn, tu);
    lemma_mask_bit(bb, tu);
    lemma_mask_bit(bq, tu);
    lemma_mask_bit(bk, tu);
    lemma_mask_bit(wo, tu);
    lemma_mask_bit(bo, tu);
    lemma_disjoint_bit(wo, bo, cu);
    lemma_disjoint_bit(wo, bo, tu);
    // Stage values through capture, relocation and emptying, as in the
    // round-trip proof.
    if nth_bit(bp, tu) {
        lemma_captured_chain(bp, cu, tu);
    } else {
        lemma_clear_absent(bp, tu);
    }
    if nth_bit(br, tu) {
        lemma_captured_chain(br, cu, tu);
    } else {
        lemma_clear_absent(br, tu);
    }
    if nth_bit(bn, tu) {
        lemma_captured_chain(bn, cu, tu);
    } else {
        lemma_clear_absent(bn, tu);
    }
    if nth_bit(bb, tu) {
        lemma_captured_chain(bb, cu, tu);
    } else {
        lemma_clear_absent(bb, tu);
    }
    if nth_bit(bq, tu) {
        lemma_captured_chain(bq, cu, tu);
    } else {
        lemma_clear_absent(bq, tu);
    }
    if nth_bit(bk, tu) {
        lemma_captured_chain(bk, cu, tu);
    } else {
        lemma_clear_absent(bk, tu);
    }
    if nth_bit(bo, tu) {
        lemma_captured_chain(bo, cu, tu);
    } else {
        lemma_clear_absent(bo, tu);
    }
    let b1 = spec_capture(tm, b0).0;
    assert(b1.white_pawns == wp && b1.white_rooks == wr && b1.white_knights == wn
        && b1.white_bishops == wb && b1.white_queens == wq && b1.white_king == wk
        && b1.white_occupied == wo);
    assert(b1.black_pawns == bp & !tm && b1.black_rooks == br & !tm && b1.black_knights == bn
        & !tm && b1.black_bishops == bb & !tm && b1.black_queens == bq & !tm && b1.black_king
        == bk & !tm && b1.black_occupied == bo & !tm);
    lemma_bit_eval_clear(bp, tu, cu);
    lemma_bit_eval_clear(br, tu, cu);
    lemma_bit_eval_clear(bn, tu, cu);
    lemma_bit_eval_clear(bb, tu, cu);
    lemma_bit_eval_clear(bq, tu, cu);
    lemma_bit_eval_clear(bk, tu, cu);
    lemma_bit_eval_clear(bo, tu, cu);
    lemma_mask_bit(bp & !tm, cu);
    lemma_mask_bit(br & !tm, cu);
    lemma_mask_bit(bn & !tm, cu);
    lemma_mask_bit(bb & !tm, cu);
    lemma_mask_bit(bq & !tm, cu);
    lemma_mask_bit(bk & !tm, cu);
    lemma_mask_bit(bo & !tm, cu);
    let b2 = spec_fill_square(cm, tm, b1);
    assert(b2.black_pawns == b1.black_pawns && b2.black_rooks == b1.black_rooks
        && b2.black_knights == b1.black_knights && b2.black_bishops == b1.black_bishops
        && b2.black_queens == b1.black_queens && b2.black_king == b1.black_king
        && b2.black_occupied == b1.black_occupied);
    assert(b2.white_occupied == wo | tm);
    if nth_bit(wp, cu) {
        lemma_bit_eval_move(wp, cu, tu, tu);
    } else {
        lemma_clear_absent(wp, cu);
    }
    if nth_bit(wr, cu) {
        lemma_bit_eval_move(wr, cu, tu, tu);
    } else {
        lemma_clear_absent(wr, cu);
    }
    if nth_bit(wn, cu) {
        lemma_bit_eval_move(wn, cu, tu, tu);
    } else {
        lemma_clear_absent(wn, cu);
    }
    if nth_bit(wb, cu) {
        lemma_bit_eval_move(wb, cu, tu, tu);
    } else {
        lemma_clear_absent(wb, cu);
    }
    if nth_bit(wq, cu) {
        lemma_bit_eval_move(wq, cu, tu, tu);
    } else {
        lemma_clear_absent(wq, cu);
    }
    if nth_bit(wk, cu) {
        lemma_bit_eval_move(wk, cu, tu, tu);
    } else {
        lemma_clear_absent(wk, cu);
    }
    lemma_clear_absent(bp & !tm, cu);
    lemma_clear_absent(br & !tm, cu);
    lemma_clear_absent(bn & !tm, cu);
    lemma_clear_absent(bb & !tm, cu);
    lemma_clear_absent(bq & !tm, cu);
    lemma_clear_absent(bk & !tm, cu);
    lemma_clear_absent(bo & !tm, cu);
    let b3 = spec_empty_square(cm, b2);
    assert(b3.white_pawns == (if nth_bit(wp, cu) {
        (wp | tm) & !cm
    } else {
        wp
    }));
    assert(b3.white_rooks == (if nth_bit(wr, cu) {
        (wr | tm) & !cm
    } else {
        wr
    }));
    assert(b3.white_knights == (if nth_bit(wn, cu) {
        (wn | tm) & !cm
    } else {
        wn
    }));
    assert(b3.white_bishops == (if nth_bit(wb, cu) {
        (wb | tm) & !cm
    } else {
        wb
    }));
    assert(b3.white_queens == (if nth_bit(wq, cu) {
        (wq | tm) & !cm
    } else {
        wq
    }));
    assert(b3.white_king == (if nth_bit(wk, cu) {
        (wk | tm) & !cm
    } else {
        wk
    }));
    assert(b3.white_occupied == (wo | tm) & !cm);
    assert(b3.black_pawns == bp & !tm && b3.black_rooks == br & !tm && b3.black_knights == bn
        & !tm && b3.black_bishops == bb & !tm && b3.black_queens == bq & !tm && b3.black_king
        == bk & !tm && b3.black_occupied == bo & !tm);
    lemma_board_after_move(wp, wr, wn, wb, wq, wk, bp, br, bn, bb, bq, bk, wo, bo, cu, tu);
    assert(board_ok(b3));
    assert(b3 == spec_relocate(c, t, s));
}

/// A legal White move, fully applied, leaves the state well formed.
#[verifier::rlimit(100)]
proof fn lemma_white_apply_ok(c: int, t: int, choice: char, s: GameState)
    requires
        state_ok(s),
        spec_is_legal(c, t, s),
        s.side_to_move == Color::White,
    ensures
        state_ok(spec_apply_move(c, t, choice, s)),
{
    let b0 = s.board;
    let cu: u64 = c as u64;
    let tu: u64 = t as u64;
    let cm = 1u64 << cu;
    let tm = 1u64 << tu;
    lemma_legal_move_facts(c, t, s);
    lemma_white_relocate_values(c, t, s);
    lemma_square_single_occupancy(b0, cu);
    lemma_square_single_occupancy(b0, tu);
    let wp = b0.white_pawns;
    let wr = b0.white_rooks;
    let wn = b0.white_knights;
    let wb = b0.white_bishops;
    let wq = b0.white_queens;
    let wk = b0.white_king;
    let bp = b0.black_pawns;
    let br = b0.black_rooks;
    let bn = b0.black_knights;
    let bb = b0.black_bishops;
    let bq = b0.black_queens;
    let bk = b0.black_king;
    let wo = b0.white_occupied;
    let bo = b0.black_occupied;
    lemma_mask_bit(wp, cu);
    lemma_mask_bit(wr, cu);
    lemma_mask_bit(wn, cu);
    lemma_mask_bit(wb, cu);
    lemma_mask_bit(wq, cu);
    lemma_mask_bit(wk, cu);
    lemma_mask_bit(wo, cu);
    lemma_mask_bit(bo, cu);
    lemma_mask_bit(wp, tu);
    lemma_mask_bit(wk, tu);
    lemma_mask_bit(wo, tu);
    lemma_mask_bit(bo, tu);
    lemma_disjoint_bit(wo, bo, cu);
    lemma_disjoint_bit(wo, bo, tu);
    let b3 = spec_relocate(c, t, s);
    assert(board_ok(b3));
    // En-passant resolution.
    let s3 = GameState { board: b3, ..s };
    let s4 = spec_en_passant(tm, s3);
    lemma_shl_injective(tu, tu);
    if tm == s.en_passant_mask {
        let sq = choose|sq: u64|
            {
                &&& sq < 64
                &&& s.en_passant_mask == #[trigger] (1u64 << sq)
                &&& !nth_bit(occupied(s.board), sq)
                &&& match s.side_to_move {
                    Color::White => 40 <= sq < 48 && nth_bit(
                        s.board.black_pawns,
                        (sq - 8) as u64,
                    ),
                    Color::Black => 16 <= sq < 24 && nth_bit(
                        s.board.white_pawns,
                        (sq + 8) as u64,
                    ),
                }
            };
        lemma_shl_injective(tu, sq);
        let e: u64 = (t - 8) as u64;
        lemma_ep_shift(tu, e);
        lemma_bit_eval_clear(bp, tu, e);
        lemma_board_clear_one(
            bp & !tm, br & !tm, bn & !tm, bb & !tm, bq & !tm, bk & !tm, bo & !tm,
            (wo | tm) & !cm, e,
        );
        assert(s4.board.black_pawns == (bp & !tm) & !(1u64 << e));
        assert(s4.board.black_occupied == (bo & !tm) & !(1u64 << e));
        assert(board_ok(s4.board));
    } else {
        assert(s4.board == b3);
    }
    assert(board_ok(s4.board));
    assert(s4.board.white_pawns == b3.white_pawns && s4.board.white_rooks == b3.white_rooks
        && s4.board.white_knights == b3.white_knights && s4.board.white_bishops
        == b3.white_bishops && s4.board.white_queens == b3.white_queens && s4.board.white_king
        == b3.white_king && s4.board.white_occupied == b3.white_occupied);
    // En-passant target update changes no board mask.
    let s5 = spec_update_en_passant(c, t, s4);
    assert(s5.board == s4.board);
    // Castling rook shift.
    let s6 = spec_castle(c, t, s5);
    lemma_mask_bit(s5.board.white_king, tu);
    lemma_mask_bit(s5.board.black_king, tu);
    lemma_bit_eval_clear(bk, tu, tu);
    if nth_bit(wk, cu) && c == 4 && (t == 6 || t == 2) {
        lemma_castle_consts();
        if t == 6 {
            lemma_disjoint_comm(wo | bo, 0x60u64);
            lemma_split_or_right(0x60u64, wo, bo);
            lemma_disjoint_comm(0x60u64, wo);
            lemma_disjoint_comm(0x60u64, bo);
            lemma_split_or_right(wo, 0x40u64, 0x20u64);
            lemma_split_or_right(bo, 0x40u64, 0x20u64);
            lemma_mask_bit(wo, 5);
            lemma_mask_bit(bo, 5);
            lemma_disjoint_comm(wo, 0x20u64);
            lemma_disjoint_comm(bo, 0x20u64);
            lemma_square_single_occupancy(b0, 7);
            lemma_bit_eval_move(wo, cu, tu, 5);
            lemma_bit_eval_clear(bo, tu, 5);
            assert(!nth_bit(s5.board.white_occupied, 5));
            assert(!nth_bit(s5.board.black_occupied, 5)) by {
                if tm == s.en_passant_mask {
                    lemma_bit_eval_clear(bo & !tm, (t - 8) as u64, 5);
                }
            }
            assert(nth_bit(b3.white_rooks, 7)) by {
                assert(b3.white_rooks == wr);
            }
            lemma_board_rook_shift(
                s5.board.white_pawns, s5.board.white_rooks, s5.board.white_knights,
                s5.board.white_bishops, s5.board.white_queens, s5.board.white_king,
                s5.board.white_occupied, s5.board.black_occupied, 5, 7,
            );
            assert(board_ok(s6.board));
        } else {
            lemma_disjoint_comm(wo | bo, 0x0Eu64);
            lemma_split_or_right(0x0Eu64, wo, bo);
            lemma_disjoint_comm(0x0Eu64, wo);
            lemma_disjoint_comm(0x0Eu64, bo);
            lemma_split_or_right(wo, 0x08u64 | 0x04u64, 0x02u64);
            lemma_split_or_right(wo, 0x08u64, 0x04u64);
            lemma_split_or_right(bo, 0x08u64 | 0x04u64, 0x02u64);
            lemma_split_or_right(bo, 0x08u64, 0x04u64);
            lemma_mask_bit(wo, 3);
            lemma_mask_bit(bo, 3);
            lemma_disjoint_comm(wo, 0x08u64);
            lemma_disjoint_comm(bo, 0x08u64);
            lemma_square_single_occupancy(b0, 0);
            lemma_bit_eval_move(wo, cu, tu, 3);
            lemma_bit_eval_clear(bo, tu, 3);
            assert(!nth_bit(s5.board.white_occupied, 3));
            assert(!nth_bit(s5.board.black_occupied, 3)) by {
                if tm == s.en_passant_mask {
                    lemma_bit_eval_clear(bo & !tm, (t - 8) as u64, 3);
                }
            }
            assert(nth_bit(b3.white_rooks, 0)) by {
                assert(b3.white_rooks == wr);
            }
            lemma_board_rook_shift(
                s5.board.white_pawns, s5.board.white_rooks, s5.board.white_knights,
                s5.board.white_bishops, s5.board.white_queens, s5.board.white_king,
                s5.board.white_occupied, s5.board.black_occupied, 3, 0,
            );
            assert(board_ok(s6.board));
        }
    } else {
        assert(s6 == s5);
    }
    assert(board_ok(s6.board));
    // Rights updates change no board mask.
    let s7 = spec_update_castling_rights(c, s6);
    let s8 = spec_update_castling_rights(t, s7);
    assert(s8.board == s6.board);
    // Promotion swaps the pawn for the chosen piece.
    let s9 = spec_promotion(t, s8, choice).0;
    let promoted = tm & s8.board.white_pawns & EIGHTH_RANK;
    lemma_masked_bit(s8.board.white_pawns, EIGHTH_RANK, tu);
    if promoted != 0 && valid_promotion_choice(choice) {
        lemma_board_promote(
            s8.board.white_pawns, s8.board.white_rooks, s8.board.white_knights,
            s8.board.white_bishops, s8.board.white_queens, s8.board.white_king,
            s8.board.white_occupied, tu,
            choice == 'R' || choice == 'r',
            choice == 'N' || choice == 'n',
            choice == 'B' || choice == 'b',
            choice == 'Q' || choice == 'q',
        );
        assert(board_ok(s9.board));
    } else {
        assert(s9.board == s8.board);
    }
    assert(board_ok(s9.board));
    let s10 = spec_apply_move(c, t, choice, s);
    assert(s10.board == s9.board);
    assert(board_ok(s10.board));
    // The new en-passant target is sound for Black, the side now to move.
    lemma_rank_bounds(cu);
    lemma_rank_bounds(tu);
    lemma_mask_bit(0xFF00_0000_0000_0000u64, tu);
    assert(ep_ok(s10)) by {
        let m8: u64 = (c + 8) as u64;
        lemma_mask_bit(s4.board.white_pawns, tu);
        lemma_mask_bit(s4.board.black_pawns, tu);
        lemma_bit_eval_clear(bp, tu, tu);
        if tm == s.en_passant_mask {
            lemma_bit_and(bp & !tm, !(tm >> 8), tu);
            lemma_bit_not(tm >> 8, tu);
        }
        if tm & s4.board.white_pawns != 0 && cm & SECOND_RANK != 0 && t - c == 16 {
            assert(nth_bit(b3.white_pawns, tu));
            assert(nth_bit(wp, cu));
            assert(spec_pawn_moves(cm, s, Color::White) & tm != 0);
            lemma_mask_bit(spec_pawn_moves(cm, s, Color::White), tu);
            lemma_pawn_two_step_white(cu, tu, m8, !(wo | bo), bo | s.en_passant_mask);
            lemma_bit_not(wo | bo, m8);
            lemma_bit_or(wo, bo, m8);
            lemma_bit_eval_move(wo, cu, tu, m8);
            lemma_bit_eval_clear(bo, tu, m8);
            if tm == s.en_passant_mask {
                lemma_bit_and(bo & !tm, !(tm >> 8), m8);
                lemma_bit_not(tm >> 8, m8);
            }
            assert(s9.board.white_pawns == b3.white_pawns);
            assert(!nth_bit(s9.board.white_occupied, m8));
            assert(!nth_bit(s9.board.black_occupied, m8));
            lemma_bit_or(s9.board.white_occupied, s9.board.black_occupied, m8);
            assert(s10.en_passant_mask == 1u64 << m8);
            assert((m8 + 8) as u64 == tu);
            assert(16 <= m8 < 24);
            assert(nth_bit(s10.board.white_pawns, (m8 + 8) as u64));
            assert(!nth_bit(occupied(s10.board), m8));
        } else if tm & s4.board.black_pawns != 0 && cm & SEVENTH_RANK != 0 && c - t == 16 {
            assert(false);
        } else {
            assert(s10.en_passant_mask == 0);
        }
    }
    // Surviving castling rights still see their king and rook at home.
    assert(castling_rights_ok(s10)) by {
        if s10.white_can_castle_kingside {
            assert(c != 4 && t != 4 && c != 7 && t != 7 && s.white_can_castle_kingside);
            lemma_bit_eval_move(wk, cu, tu, 4);
            lemma_bit_eval_move(wr, cu, tu, 7);
            lemma_bit_eval_set(s8.board.white_rooks, tu, 7);
            assert(nth_bit(s10.board.white_king, 4));
            assert(nth_bit(s10.board.white_rooks, 7));
        }
        if s10.white_can_castle_queenside {
            assert(c != 4 && t != 4 && c != 0 && t != 0 && s.white_can_castle_queenside);
            lemma_bit_eval_move(wk, cu, tu, 4);
            lemma_bit_eval_move(wr, cu, tu, 0);
            lemma_bit_eval_set(s8.board.white_rooks, tu, 0);
            assert(nth_bit(s10.board.white_king, 4));
            assert(nth_bit(s10.board.white_rooks, 0));
        }
        if s10.black_can_castle_kingside {
            assert(c != 60 && t != 60 && c != 63 && t != 63 && s.black_can_castle_kingside);
            lemma_bit_eval_clear(bk, tu, 60);
            lemma_bit_eval_clear(br, tu, 63);
            assert(nth_bit(s10.board.black_king, 60));
            assert(nth_bit(s10.board.black_rooks, 63));
        }
        if s10.black_can_castle_queenside {
            assert(c != 60 && t != 60 && c != 56 && t != 56 && s.black_can_castle_queenside);
            lemma_bit_eval_clear(bk, tu, 60);
            lemma_bit_eval_clear(br, tu, 56);
            assert(nth_bit(s10.board.black_king, 60));
            assert(nth_bit(s10.board.black_rooks, 56));
        }
    }
}

/// Field-by-field description of the relocated board for a legal Black
/// move, together with its well-formedness.
#[verifier::rlimit(100)]
proof fn lemma_black_relocate_values(c: int, t: int, s: GameState)
    requires
        state_ok(s),
        spec_is_legal(c, t, s),
        s.side_to_move == Color::Black,
    ensures
        ({
            let cm = 1u64 << (c as u64);
            let tm = 1u64 << (t as u64);
            let b0 = s.board;
            let b3 = spec_relocate(c, t, s);
            &&& b3.black_pawns == (if nth_bit(b0.black_pawns, c as u64) {
                (b0.black_pawns | tm) & !cm
            } else {
                b0.black_pawns
            })
            &&& b3.black_rooks == (if nth_bit(b0.black_rooks, c as u64) {
                (b0.black_rooks | tm) & !cm
            } else {
                b0.black_rooks
            })
            &&& b3.black_knights == (if nth_bit(b0.black_knights, c as u64) {
                (b0.black_knights | tm) & !cm
            } else {
                b0.black_knights
            })
            &&& b3.black_bishops == (if nth_bit(b0.black_bishops, c as u64) {
                (b0.black_bishops | tm) & !cm
            } else {
                b0.black_bishops
            })
            &&& b3.black_queens == (if nth_bit(b0.black_queens, c as u64) {
                (b0.black_queens | tm) & !cm
            } else {
                b0.black_queens
            })
            &&& b3.black_king == (if nth_bit(b0.black_king, c as u64) {
                (b0.black_king | tm) & !cm
            } else {
                b0.black_king
            })
            &&& b3.black_occupied == (b0.black_occupied | tm) & !cm
            &&& b3.white_pawns == b0.white_pawns & !tm
            &&& b3.white_rooks == b0.white_rooks & !tm
            &&& b3.white_knights == b0.white_knights & !tm
            &&& b3.white_bishops == b0.white_bishops & !tm
            &&& b3.white_queens == b0.white_queens & !tm
            &&& b3.white_king == b0.white_king & !tm
            &&& b3.white_occupied == b0.white_occupied & !tm
            &&& board_ok(b3)
        }),
{
    let b0 = s.board;
    let cu: u64 = c as u64;
    let tu: u64 = t as u64;
    let cm = 1u64 << cu;
    let tm = 1u64 << tu;
    lemma_legal_move_facts(c, t, s);
    lemma_square_single_occupancy(b0, cu);
    lemma_square_single_occupancy(b0, tu);
    let wp = b0.white_pawns;
    let wr = b0.white_rooks;
    let wn = b0.white_knights;
    let wb = b0.white_bishops;
    let wq = b0.white_queens;
    let wk = b0.white_king;
    let bp = b0.black_pawns;
    let br = b0.black_rooks;
    let bn = b0.black_knights;
    let bb = b0.black_bishops;
    let bq = b0.black_queens;
    let bk = b0.black_king;
    let wo = b0.white_occupied;
    let bo = b0.black_occupied;
    lemma_mask_bit(wp, cu);
    lemma_mask_bit(wr, cu);
    lemma_mask_bit(wn, cu);
    lemma_mask_bit(wb, cu);
    lemma_mask_bit(wq, cu);
    lemma_mask_bit(wk, cu);
    lemma_mask_bit(bp, cu);
    lemma_mask_bit(br, cu);
    lemma_mask_bit(bn, cu);
    lemma_mask_bit(bb, cu);
    lemma_mask_bit(bq, cu);
    lemma_mask_bit(bk, cu);
    lemma_mask_bit(wo, cu);
    lemma_mask_bit(bo, cu);
    lemma_mask_bit(wp, tu);
    lemma_mask_bit(wr, tu);
    lemma_mask_bit(wn, tu);
    lemma_mask_bit(wb, tu);
    lemma_mask_bit(wq, tu);
    lemma_mask_bit(wk, tu);
    lemma_mask_bit(bp, tu);
    lemma_mask_bit(br, tu);
    lemma_mask_bit(bn, tu);
    lemma_mask_bit(bb, tu);
    lemma_mask_bit(bq, tu);
    lemma_mask_bit(bk, tu);
    lemma_mask_bit(wo, tu);
    lemma_mask_bit(bo, tu);
    lemma_disjoint_comm(wo, bo);
    lemma_disjoint_bit(bo, wo, cu);
    lemma_disjoint_bit(bo, wo, tu);
    if nth_bit(wp, tu) {
        lemma_captured_chain(wp, cu, tu);
    } else {
        lemma_clear_absent(wp, tu);
    }
    if nth_bit(wr, tu) {
        lemma_captured_chain(wr, cu, tu);
    } else {
        lemma_clear_absent(wr, tu);
    }
    if nth_bit(wn, tu) {
        lemma_captured_chain(wn, cu, tu);
    } else {
        lemma_clear_absent(wn, tu);
    }
    if nth_bit(wb, tu) {
        lemma_captured_chain(wb, cu, tu);
    } else {
        lemma_clear_absent(wb, tu);
    }
    if nth_bit(wq, tu) {
        lemma_captured_chain(wq, cu, tu);
    } else {
        lemma_clear_absent(wq, tu);
    }
    if nth_bit(wk, tu) {
        lemma_captured_chain(wk, cu, tu);
    } else {
        lemma_clear_absent(wk, tu);
    }
    if nth_bit(wo, tu) {
        lemma_captured_chain(wo, cu, tu);
    } else {
        lemma_clear_absent(wo, tu);
    }
    let b1 = spec_capture(tm, b0).0;
    assert(b1.black_pawns == bp && b1.black_rooks == br && b1.black_knights == bn
        && b1.black_bishops == bb && b1.black_queens == bq && b1.black_king == bk
        && b1.black_occupied == bo);
    assert(b1.white_pawns == wp & !tm && b1.white_rooks == wr & !tm && b1.white_knights == wn
        & !tm && b1.white_bishops == wb & !tm && b1.white_queens == wq & !tm && b1.white_king
        == wk & !tm && b1.white_occupied == wo & !tm);
    lemma_bit_eval_clear(wp, tu, cu);
    lemma_bit_eval_clear(wr, tu, cu);
    lemma_bit_eval_clear(wn, tu, cu);
    lemma_bit_eval_clear(wb, tu, cu);
    lemma_bit_eval_clear(wq, tu, cu);
    lemma_bit_eval_clear(wk, tu, cu);
    lemma_bit_eval_clear(wo, tu, cu);
    lemma_mask_bit(wp & !tm, cu);
    lemma_mask_bit(wr & !tm, cu);
    lemma_mask_bit(wn & !tm, cu);
    lemma_mask_bit(wb & !tm, cu);
    lemma_mask_bit(wq & !tm, cu);
    lemma_mask_bit(wk & !tm, cu);
    lemma_mask_bit(wo & !tm, cu);
    let b2 = spec_fill_square(cm, tm, b1);
    assert(b2.white_pawns == b1.white_pawns && b2.white_rooks == b1.white_rooks
        && b2.white_knights == b1.white_knights && b2.white_bishops == b1.white_bishops
        && b2.white_queens == b1.white_queens && b2.white_king == b1.white_king
        && b2.white_occupied == b1.white_occupied);
    assert(b2.black_occupied == bo | tm);
    if nth_bit(bp, cu) {
        lemma_bit_eval_move(bp, cu, tu, tu);
    } else {
        lemma_clear_absent(bp, cu);
    }
    if nth_bit(br, cu) {
        lemma_bit_eval_move(br, cu, tu, tu);
    } else {
        lemma_clear_absent(br, cu);
    }
    if nth_bit(bn, cu) {
        lemma_bit_eval_move(bn, cu, tu, tu);
    } else {
        lemma_clear_absent(bn, cu);
    }
    if nth_bit(bb, cu) {
        lemma_bit_eval_move(bb, cu, tu, tu);
    } else {
        lemma_clear_absent(bb, cu);
    }
    if nth_bit(bq, cu) {
        lemma_bit_eval_move(bq, cu, tu, tu);
    } else {
        lemma_clear_absent(bq, cu);
    }
    if nth_bit(bk, cu) {
        lemma_bit_eval_move(bk, cu, tu, tu);
    } else {
        lemma_clear_absent(bk, cu);
    }
    lemma_clear_absent(wp & !tm, cu);
    lemma_clear_absent(wr & !tm, cu);
    lemma_clear_absent(wn & !tm, cu);
    lemma_clear_absent(wb & !tm, cu);
    lemma_clear_absent(wq & !tm, cu);
    lemma_clear_absent(wk & !tm, cu);
    lemma_clear_absent(wo & !tm, cu);
    let b3 = spec_empty_square(cm, b2);
    assert(b3.black_pawns == (if nth_bit(bp, cu) {
        (bp | tm) & !cm
    } else {
        bp
    }));
    assert(b3.black_rooks == (if nth_bit(br, cu) {
        (br | tm) & !cm
    } else {
        br
    }));
    assert(b3.black_knights == (if nth_bit(bn, cu) {
        (bn | tm) & !cm
    } else {
        bn
    }));
    assert(b3.black_bishops == (if nth_bit(bb, cu) {
        (bb | tm) & !cm
    } else {
        bb
    }));
    assert(b3.black_queens == (if nth_bit(bq, cu) {
        (bq | tm) & !cm
    } else {
        bq
    }));
    assert(b3.black_king == (if nth_bit(bk, cu) {
        (bk | tm) & !cm
    } else {
        bk
    }));
    assert(b3.black_occupied == (bo | tm) & !cm);
    assert(b3.white_pawns == wp & !tm && b3.white_rooks == wr & !tm && b3.white_knights == wn
        & !tm && b3.white_bishops == wb & !tm && b3.white_queens == wq & !tm && b3.white_king
        == wk & !tm && b3.white_occupied == wo & !tm);
    lemma_board_after_move(bp, br, bn, bb, bq, bk, wp, wr, wn, wb, wq, wk, bo, wo, cu, tu);
    assert(board_ok(b3));
    assert(b3 == spec_relocate(c, t, s));
}

/// A legal Black move, fully applied, leaves the state well formed.
#[verifier::rlimit(100)]
proof fn lemma_black_apply_ok(c: int, t: int, choice: char, s: GameState)
    requires
        state_ok(s),
        spec_is_legal(c, t, s),
        s.side_to_move == Color::Black,
    ensures
        state_ok(spec_apply_move(c, t, choice, s)),
{
    let b0 = s.board;
    let cu: u64 = c as u64;
    let tu: u64 = t as u64;
    let cm = 1u64 << cu;
    let tm = 1u64 << tu;
    lemma_legal_move_facts(c, t, s);
    lemma_black_relocate_values(c, t, s);
    lemma_square_single_occupancy(b0, cu);
    lemma_square_single_occupancy(b0, tu);
    let wp = b0.white_pawns;
    let wr = b0.white_rooks;
    let wn = b0.white_knights;
    let wb = b0.white_bishops;
    let wq = b0.white_queens;
    let wk = b0.white_king;
    let bp = b0.black_pawns;
    let br = b0.black_rooks;
    let bn = b0.black_knights;
    let bb = b0.black_bishops;
    let bq = b0.black_queens;
    let bk = b0.black_king;
    let wo = b0.white_occupied;
    let bo = b0.black_occupied;
    lemma_mask_bit(bp, cu);
    lemma_mask_bit(br, cu);
    lemma_mask_bit(bn, cu);
    lemma_mask_bit(bb, cu);
    lemma_mask_bit(bq, cu);
    lemma_mask_bit(bk, cu);
    lemma_mask_bit(bo, cu);
    lemma_mask_bit(wo, cu);
    lemma_mask_bit(bp, tu);
    lemma_mask_bit(bk, tu);
    lemma_mask_bit(bo, tu);
    lemma_mask_bit(wo, tu);
    lemma_disjoint_comm(wo, bo);
    lemma_disjoint_bit(bo, wo, cu);
    lemma_disjoint_bit(bo, wo, tu);
    let b3 = spec_relocate(c, t, s);
    assert(board_ok(b3));
    // En-passant resolution.
    let s3 = GameState { board: b3, ..s };
    let s4 = spec_en_passant(tm, s3);
    lemma_shl_injective(tu, tu);
    if tm == s.en_passant_mask {
        let sq = choose|sq: u64|
            {
                &&& sq < 64
                &&& s.en_passant_mask == #[trigger] (1u64 << sq)
                &&& !nth_bit(occupied(s.board), sq)
                &&& match s.side_to_move {
                    Color::White => 40 <= sq < 48 && nth_bit(
                        s.board.black_pawns,
                        (sq - 8) as u64,
                    ),
                    Color::Black => 16 <= sq < 24 && nth_bit(
                        s.board.white_pawns,
                        (sq + 8) as u64,
                    ),
                }
            };
        lemma_shl_injective(tu, sq);
        let e: u64 = (t + 8) as u64;
        lemma_ep_shift(e, tu);
        lemma_bit_eval_clear(wp, tu, e);
        lemma_disjoint_comm(b3.white_occupied, b3.black_occupied);
        lemma_board_clear_one(
            wp & !tm, wr & !tm, wn & !tm, wb & !tm, wq & !tm, wk & !tm, wo & !tm,
            (bo | tm) & !cm, e,
        );
        assert(s4.board.white_pawns == (wp & !tm) & !(1u64 << e));
        assert(s4.board.white_occupied == (wo & !tm) & !(1u64 << e));
        assert(board_ok(s4.board));
    } else {
        assert(s4.board == b3);
    }
    assert(board_ok(s4.board));
    assert(s4.board.black_pawns == b3.black_pawns && s4.board.black_rooks == b3.black_rooks
        && s4.board.black_knights == b3.black_knights && s4.board.black_bishops
        == b3.black_bishops && s4.board.black_queens == b3.black_queens && s4.board.black_king
        == b3.black_king && s4.board.black_occupied == b3.black_occupied);
    // En-passant target update changes no board mask.
    let s5 = spec_update_en_passant(c, t, s4);
    assert(s5.board == s4.board);
    // Castling rook shift.
    let s6 = spec_castle(c, t, s5);
    lemma_mask_bit(s5.board.white_king, tu);
    lemma_mask_bit(s5.board.black_king, tu);
    lemma_bit_eval_clear(wk, tu, tu);
    if nth_bit(bk, cu) && c == 60 && (t == 62 || t == 58) {
        lemma_castle_consts();
        if t == 62 {
            lemma_disjoint_comm(wo | bo, 0x6000_0000_0000_0000u64);
            lemma_split_or_right(0x6000_0000_0000_0000u64, wo, bo);
            lemma_disjoint_comm(0x6000_0000_0000_0000u64, wo);
            lemma_disjoint_comm(0x6000_0000_0000_0000u64, bo);
            lemma_split_or_right(bo, 0x4000_0000_0000_0000u64, 0x2000_0000_0000_0000u64);
            lemma_split_or_right(wo, 0x4000_0000_0000_0000u64, 0x2000_0000_0000_0000u64);
            lemma_mask_bit(bo, 61);
            lemma_mask_bit(wo, 61);
            lemma_disjoint_comm(bo, 0x2000_0000_0000_0000u64);
            lemma_disjoint_comm(wo, 0x2000_0000_0000_0000u64);
            lemma_square_single_occupancy(b0, 63);
            lemma_bit_eval_move(bo, cu, tu, 61);
            lemma_bit_eval_clear(wo, tu, 61);
            assert(!nth_bit(s5.board.black_occupied, 61));
            assert(!nth_bit(s5.board.white_occupied, 61)) by {
                if tm == s.en_passant_mask {
                    lemma_bit_and(wo & !tm, !(tm << 8), 61);
                    lemma_bit_not(tm << 8, 61);
                }
            }
            assert(nth_bit(b3.black_rooks, 63)) by {
                assert(b3.black_rooks == br);
            }
            lemma_disjoint_comm(s5.board.white_occupied, s5.board.black_occupied);
            lemma_board_rook_shift(
                s5.board.black_pawns, s5.board.black_rooks, s5.board.black_knights,
                s5.board.black_bishops, s5.board.black_queens, s5.board.black_king,
                s5.board.black_occupied, s5.board.white_occupied, 61, 63,
            );
            assert(board_ok(s6.board));
        } else {
            lemma_disjoint_comm(wo | bo, 0x0E00_0000_0000_0000u64);
            lemma_split_or_right(0x0E00_0000_0000_0000u64, wo, bo);
            lemma_disjoint_comm(0x0E00_0000_0000_0000u64, wo);
            lemma_disjoint_comm(0x0E00_0000_0000_0000u64, bo);
            lemma_split_or_right(
                bo,
                0x0800_0000_0000_0000u64 | 0x0400_0000_0000_0000u64,
                0x0200_0000_0000_0000u64,
            );
            lemma_split_or_right(bo, 0x0800_0000_0000_0000u64, 0x0400_0000_0000_0000u64);
            lemma_split_or_right(
                wo,
                0x0800_0000_0000_0000u64 | 0x0400_0000_0000_0000u64,
                0x0200_0000_0000_0000u64,
            );
            lemma_split_or_right(wo, 0x0800_0000_0000_0000u64, 0x0400_0000_0000_0000u64);
            lemma_mask_bit(bo, 59);
            lemma_mask_bit(wo, 59);
            lemma_disjoint_comm(bo, 0x0800_0000_0000_0000u64);
            lemma_disjoint_comm(wo, 0x0800_0000_0000_0000u64);
            lemma_square_single_occupancy(b0, 56);
            lemma_bit_eval_move(bo, cu, tu, 59);
            lemma_bit_eval_clear(wo, tu, 59);
            assert(!nth_bit(s5.board.black_occupied, 59));
            assert(!nth_bit(s5.board.white_occupied, 59)) by {
                if tm == s.en_passant_mask {
                    lemma_bit_and(wo & !tm, !(tm << 8), 59);
                    lemma_bit_not(tm << 8, 59);
                }
            }
            assert(nth_bit(b3.black_rooks, 56)) by {
                assert(b3.black_rooks == br);
            }
            lemma_disjoint_comm(s5.board.white_occupied, s5.board.black_occupied);
            lemma_board_rook_shift(
                s5.board.black_pawns, s5.board.black_rooks, s5.board.black_knights,
                s5.board.black_bishops, s5.board.black_queens, s5.board.black_king,
                s5.board.black_occupied, s5.board.white_occupied, 59, 56,
            );
            assert(board_ok(s6.board));
        }
    } else {
        assert(s6 == s5);
    }
    assert(board_ok(s6.board));
    // Rights updates change no board mask.
    let s7 = spec_update_castling_rights(c, s6);
    let s8 = spec_update_castling_rights(t, s7);
    assert(s8.board == s6.board);
    // Promotion swaps the pawn for the chosen piece.
    let s9 = spec_promotion(t, s8, choice).0;
    let promoted = tm & s8.board.black_pawns & FIRST_RANK;
    lemma_masked_bit(s8.board.black_pawns, FIRST_RANK, tu);
    if promoted != 0 && valid_promotion_choice(choice) {
        lemma_board_promote(
            s8.board.black_pawns, s8.board.black_rooks, s8.board.black_knights,
            s8.board.black_bishops, s8.board.black_queens, s8.board.black_king,
            s8.board.black_occupied, tu,
            choice == 'R' || choice == 'r',
            choice == 'N' || choice == 'n',
            choice == 'B' || choice == 'b',
            choice == 'Q' || choice == 'q',
        );
        assert(board_ok(s9.board));
    } else {
        assert(s9.board == s8.board);
    }
    assert(board_ok(s9.board));
    let s10 = spec_apply_move(c, t, choice, s);
    assert(s10.board == s9.board);
    assert(board_ok(s10.board));
    // The new en-passant target is sound for White, the side now to move.
    lemma_rank_bounds(cu);
    lemma_rank_bounds(tu);
    lemma_mask_bit(0x0000_0000_0000_00FFu64, tu);
    assert(ep_ok(s10)) by {
        lemma_mask_bit(s4.board.white_pawns, tu);
        lemma_mask_bit(s4.board.black_pawns, tu);
        lemma_bit_eval_clear(wp, tu, tu);
        if tm == s.en_passant_mask {
            lemma_bit_and(wp & !tm, !(tm << 8), tu);
            lemma_bit_not(tm << 8, tu);
        }
        if tm & s4.board.white_pawns != 0 && cm & SECOND_RANK != 0 && t - c == 16 {
            assert(false);
        } else if tm & s4.board.black_pawns != 0 && cm & SEVENTH_RANK != 0 && c - t == 16 {
            let m8: u64 = (c - 8) as u64;
            assert(nth_bit(b3.black_pawns, tu));
            assert(nth_bit(bp, cu));
            assert(spec_pawn_moves(cm, s, Color::Black) & tm != 0);
            lemma_mask_bit(spec_pawn_moves(cm, s, Color::Black), tu);
            lemma_pawn_two_step_black(cu, tu, m8, !(wo | bo), wo | s.en_passant_mask);
            lemma_bit_not(wo | bo, m8);
            lemma_bit_or(wo, bo, m8);
            lemma_bit_eval_move(bo, cu, tu, m8);
            lemma_bit_eval_clear(wo, tu, m8);
            if tm == s.en_passant_mask {
                lemma_bit_and(wo & !tm, !(tm << 8), m8);
                lemma_bit_not(tm << 8, m8);
            }
            assert(s9.board.black_pawns == b3.black_pawns);
            assert(!nth_bit(s9.board.black_occupied, m8));
            assert(!nth_bit(s9.board.white_occupied, m8));
            lemma_bit_or(s9.board.white_occupied, s9.board.black_occupied, m8);
            assert(s10.en_passant_mask == 1u64 << m8);
            assert((m8 - 8) as u64 == tu);
            assert(40 <= m8 < 48);
            assert(nth_bit(s10.board.black_pawns, (m8 - 8) as u64));
            assert(!nth_bit(occupied(s10.board), m8));
        } else {
            assert(s10.en_passant_mask == 0);
        }
    }
    // Surviving castling rights still see their king and rook at home.
    assert(castling_rights_ok(s10)) by {
        if s10.black_can_castle_kingside {
            assert(c != 60 && t != 60 && c != 63 && t != 63 && s.black_can_castle_kingside);
            lemma_bit_eval_move(bk, cu, tu, 60);
            lemma_bit_eval_move(br, cu, tu, 63);
            lemma_bit_eval_set(s8.board.black_rooks, tu, 63);
            assert(nth_bit(s10.board.black_king, 60));
            assert(nth_bit(s10.board.black_rooks, 63));
        }
        if s10.black_can_castle_queenside {
            assert(c != 60 && t != 60 && c != 56 && t != 56 && s.black_can_castle_queenside);
            lemma_bit_eval_move(bk, cu, tu, 60);
            lemma_bit_eval_move(br, cu, tu, 56);
            lemma_bit_eval_set(s8.board.black_rooks, tu, 56);
            assert(nth_bit(s10.board.black_king, 60));
            assert(nth_bit(s10.board.black_rooks, 56));
        }
        if s10.white_can_castle_kingside {
            assert(c != 4 && t != 4 && c != 7 && t != 7 && s.white_can_castle_kingside);
            lemma_bit_eval_clear(wk, tu, 4);
            lemma_bit_eval_clear(wr, tu, 7);
            assert(nth_bit(s10.board.white_king, 4));
            assert(nth_bit(s10.board.white_rooks, 7));
        }
        if s10.white_can_castle_queenside {
            assert(c != 4 && t != 4 && c != 0 && t != 0 && s.white_can_castle_queenside);
            lemma_bit_eval_clear(wk, tu, 4);
            lemma_bit_eval_clear(wr, tu, 0);
            assert(nth_bit(s10.board.white_king, 4));
            assert(nth_bit(s10.board.white_rooks, 0));
        }
    }
}

/// Law (invariant preservation): a legal move, fully applied, carries a
/// well-formed state to a well-formed state — the twelve piece masks
/// stay pairwise disjoint, the occupancy masks stay exact unions, the
/// en-passant target stays sound, and surviving castling rights keep
/// king and rook at home.
pub proof fn lemma_apply_move_ok(c: int, t: int, choice: char, s: GameState)
    requires
        state_ok(s),
        spec_is_legal(c, t, s),
    ensures
        state_ok(spec_apply_move(c, t, choice, s)),
{
    match s.side_to_move {
        Color::White => {
            lemma_white_apply_ok(c, t, choice, s);
        },
        Color::Black => {
            lemma_black_apply_ok(c, t, choice, s);
        },
    }
}

/// What became of a move request.
#[derive(Clone, Copy, PartialEq, Eq, Structural, Debug)]
pub enum MoveOutcome {
    /// The move is illegal; nothing changed.
    Rejected,
    /// A pawn reached the back rank but the choice named no piece;
    /// nothing changed — ask again with a valid choice.
    InvalidPromotion,
    /// The recorded game length is exhausted; nothing changed.
    HistoryFull,
    /// The move was applied and the game goes on.
    Accepted,
    /// The move was applied and the opponent has no reply while in
    /// check.
    Checkmate,
    /// The move was applied and the opponent has no reply while not in
    /// check.
    Stalemate,
}

/// Validate and perform one move. A legal move is applied with all its
/// rule effects; the pre-move state is pushed onto `history`; then the
/// opponent's options decide the outcome: checkmate or stalemate end the
/// game (and reset the state, unless `stop_reset` is set), anything else
/// is a plain acceptance. A promotion move must carry a valid piece
/// choice, or nothing changes and the caller may ask again.
#[verifier::rlimit(100)]
pub fn make_move(
    cur_square: i8,
    target_square: i8,
    state: &mut GameState,
    history: &mut History,
    stop_reset: bool,
    promotion_choice: char,
) -> (r: MoveOutcome)
    requires
        state_ok(*old(state)),
    ensures
        state_ok(*final(state)),
        !spec_is_legal(cur_square as int, target_square as int, *old(state)) ==> r
            == MoveOutcome::Rejected && *final(state) == *old(state) && final(history)@ == old(
            history,
        )@,
        spec_is_legal(cur_square as int, target_square as int, *old(state)) && old(
            history,
        )@.len() >= MAX_GAME_MOVES ==> r == MoveOutcome::HistoryFull && *final(state) == *old(
            state,
        ) && final(history)@ == old(history)@,
        spec_is_legal(cur_square as int, target_square as int, *old(state)) && old(
            history,
        )@.len() < MAX_GAME_MOVES ==> ({
            let c = cur_square as int;
            let t = target_square as int;
            let applied = spec_apply_move(c, t, promotion_choice, *old(state));
            &&& !spec_move_promotion_ok(c, t, promotion_choice, *old(state)) ==> r
                == MoveOutcome::InvalidPromotion && *final(state) == *old(state)
                && final(history)@ == old(history)@
            &&& spec_move_promotion_ok(c, t, promotion_choice, *old(state)) ==> {
                &&& final(history)@ == old(history)@.push(*old(state))
                &&& !spec_no_escape(applied) ==> r == MoveOutcome::Accepted && *final(state)
                    == applied
                &&& spec_no_escape(applied) ==> {
                    &&& *final(state) == (if stop_reset {
                        applied
                    } else {
                        initial_state()
                    })
                    &&& spec_is_check(applied, opposite_color(applied.side_to_move)) ==> r
                        == MoveOutcome::Checkmate
                    &&& !spec_is_check(applied, opposite_color(applied.side_to_move)) ==> r
                        == MoveOutcome::Stalemate
                }
            }
        }),
{
    if !is_legal(cur_square, target_square, state) {
        return MoveOutcome::Rejected;
    }
    if history.len() >= MAX_GAME_MOVES {
        return MoveOutcome::HistoryFull;
    }
    let ghost s0 = *state;
    history.push(*state);
    let cur_mask: u64 = 1u64 << (cur_square as u64);
    let target_mask: u64 = 1u64 << (target_square as u64);
    capture(target_mask, &mut state.board);
    fill_square(cur_mask, target_mask, &mut state.board);
    empty_square(cur_mask, &mut state.board);
    en_passant(target_mask, state);
    update_en_passant_square(cur_square, target_square, state);
    castle(cur_square, target_square, state);
    update_castling_rights(cur_square, state);
    update_castling_rights(target_square, state);
    proof {
        assert(*state == spec_apply_rules(cur_square as int, target_square as int, s0));
    }
    let ok = promotion(target_square, state, promotion_choice);
    if !ok {
        // Roll the move back; the caller may ask again with a valid
        // choice.
        let prev = history.pop();
        match prev {
            Option::Some(p) => {
                *state = p;
            },
            Option::None => {},
        }
        proof {
            assert(final(history)@ =~= old(history)@);
        }
        return MoveOutcome::InvalidPromotion;
    }
    state.side_to_move = state.side_to_move.opposite();
    proof {
        assert(*state == spec_apply_move(
            cur_square as int,
            target_square as int,
            promotion_choice,
            s0,
        ));
        lemma_apply_move_ok(cur_square as int, target_square as int, promotion_choice, s0);
    }
    if is_checkmate_stalemate(state) {
        let mate = is_check(state, state.side_to_move.opposite());
        if !stop_reset {
            state.reset();
            proof {
                lemma_initial_state_ok();
            }
        }
        if mate {
            return MoveOutcome::Checkmate;
        } else {
            return MoveOutcome::Stalemate;
        }
    }
    MoveOutcome::Accepted
}

} // verus!
