//! Pseudo-legal move generation. For each piece type, a function takes a
//! mask of squares occupied by pieces of that type and returns every
//! square any of them could move to, ignoring whether the move would
//! leave the mover's own king in check. Board-edge handling is explicit:
//! file masks keep shifts from wrapping between the a- and h-files, and
//! sliding pieces walk their rays square by square within row and column
//! limits.

use vstd::prelude::*;

use crate::bitboards::{unoccupied, Board};
use crate::bits::{
    lemma_and_not_absorb, lemma_and_within, lemma_bit_and, lemma_bit_or, lemma_bit_single,
    lemma_disjoint_comm, lemma_or_disjoint, lemma_single_in_unoccupied, lemma_split_or_right,
    lemma_zero_and, lemma_zero_bit, nth_bit,
};
use crate::perform_moves::{checked_squares, spec_checked_squares};
use crate::state::{opponent_occupied, own_occupied, Color, GameState};

verus! {

pub const FILE_A: u64 = 0x0101_0101_0101_0101;
pub const FILE_B: u64 = 0x0202_0202_0202_0202;
pub const FILE_G: u64 = 0x4040_4040_4040_4040;
pub const FILE_H: u64 = 0x8080_8080_8080_8080;

pub const SECOND_RANK: u64 = 0x0000_0000_0000_FF00;
pub const SEVENTH_RANK: u64 = 0x00FF_0000_0000_0000;

pub open spec fn spec_knight_moves(pos: u64, s: GameState, side: Color) -> u64 {
    let raw = ((pos & !FILE_H) << 17) | ((pos & !(FILE_G | FILE_H)) << 10) | ((pos & !(FILE_G
        | FILE_H)) >> 6) | ((pos & !FILE_H) >> 15) | ((pos & !FILE_A) << 15) | ((pos & !(FILE_A
        | FILE_B)) << 6) | ((pos & !(FILE_A | FILE_B)) >> 10) | ((pos & !FILE_A) >> 17);
    raw & !own_occupied(s.board, side)
}

/// Knight targets: the eight jump directions, masked against the board
/// edge before shifting, minus squares held by the mover's own pieces.
pub fn knight_moves(pos: u64, state: &GameState, side: Color) -> (r: u64)
    ensures
        r == spec_knight_moves(pos, *state, side),
{
    let raw: u64 = ((pos & !FILE_H) << 17) | ((pos & !(FILE_G | FILE_H)) << 10) | ((pos & !(FILE_G
        | FILE_H)) >> 6) | ((pos & !FILE_H) >> 15) | ((pos & !FILE_A) << 15) | ((pos & !(FILE_A
        | FILE_B)) << 6) | ((pos & !(FILE_A | FILE_B)) >> 10) | ((pos & !FILE_A) >> 17);
    let own: u64 = match side {
        Color::White => state.board.white_occupied,
        Color::Black => state.board.black_occupied,
    };
    raw & !own
}

pub open spec fn spec_king_steps(pos: u64, s: GameState, side: Color) -> u64 {
    let own = own_occupied(s.board, side);
    (((pos & !FILE_A) << 7) & !own) | ((pos << 8) & !own) | (((pos & !FILE_H) << 9) & !own) | (((
    pos & !FILE_A) >> 1) & !own) | (((pos & !FILE_H) << 1) & !own) | (((pos & !FILE_A) >> 9)
        & !own) | ((pos >> 8) & !own) | (((pos & !FILE_H) >> 7) & !own)
}

pub open spec fn spec_king_moves(pos: u64, s: GameState, side: Color, include_castling: bool) -> u64
    decreases (if include_castling { 3int } else { 0int }),
{
    let steps = spec_king_steps(pos, s, side);
    if include_castling {
        let castle = match side {
            Color::White => if pos & 0x10 != 0 {
                spec_castling(4, s, side)
            } else {
                0u64
            },
            Color::Black => if pos & 0x1000_0000_0000_0000 != 0 {
                spec_castling(60, s, side)
            } else {
                0u64
            },
        };
        steps | castle
    } else {
        steps
    }
}

/// King targets: the eight single steps, each masked against the board
/// edge and the mover's own pieces, plus — only when the caller asks for
/// it — the castling destinations. Castling is requested only from the
/// legality filter, never from attack-square computation, which breaks
/// the recursion between castling eligibility and attacked squares.
pub fn king_moves(pos: u64, state: &GameState, side: Color, include_castling: bool) -> (r: u64)
    ensures
        r == spec_king_moves(pos, *state, side, include_castling),
    decreases (if include_castling { 3int } else { 0int }),
{
    let own: u64 = match side {
        Color::White => state.board.white_occupied,
        Color::Black => state.board.black_occupied,
    };
    let steps: u64 = (((pos & !FILE_A) << 7) & !own) | ((pos << 8) & !own) | (((pos & !FILE_H) << 9)
        & !own) | (((pos & !FILE_A) >> 1) & !own) | (((pos & !FILE_H) << 1) & !own) | (((pos
        & !FILE_A) >> 9) & !own) | ((pos >> 8) & !own) | (((pos & !FILE_H) >> 7) & !own);
    if include_castling {
        let castle: u64 = match side {
            Color::White => if pos & 0x10 != 0 {
                castling(4, state, side)
            } else {
                0
            },
            Color::Black => if pos & 0x1000_0000_0000_0000 != 0 {
                castling(60, state, side)
            } else {
                0
            },
        };
        steps | castle
    } else {
        steps
    }
}

pub open spec fn spec_castling(cur_square: int, s: GameState, side: Color) -> u64
    decreases 2int,
{
    let occ = s.board.white_occupied | s.board.black_occupied;
    match side {
        Color::White => if cur_square == 4 {
            let ks = if s.white_can_castle_kingside && occ & 0x60 == 0 {
                if spec_checked_squares(s, Color::Black) & 0x70 == 0 {
                    0x40u64
                } else {
                    0u64
                }
            } else {
                0u64
            };
            let qs = if s.white_can_castle_queenside && occ & 0x0E == 0 {
                if spec_checked_squares(s, Color::Black) & 0x1C == 0 {
                    0x04u64
                } else {
                    0u64
                }
            } else {
                0u64
            };
            ks | qs
        } else {
            0u64
        },
        Color::Black => if cur_square == 60 {
            let ks = if s.black_can_castle_kingside && occ & 0x6000_0000_0000_0000 == 0 {
                if spec_checked_squares(s, Color::White) & 0x7000_0000_0000_0000 == 0 {
                    0x4000_0000_0000_0000u64
                } else {
                    0u64
                }
            } else {
                0u64
            };
            let qs = if s.black_can_castle_queenside && occ & 0x0E00_0000_0000_0000 == 0 {
                if spec_checked_squares(s, Color::White) & 0x1C00_0000_0000_0000 == 0 {
                    0x0400_0000_0000_0000u64
                } else {
                    0u64
                }
            } else {
                0u64
            };
            ks | qs
        } else {
            0u64
        },
    }
}

/// Castling destinations for the king on `cur_square`. Each side's
/// destination is offered only while the matching right is intact, all
/// squares between king and rook are empty, and none of the squares the
/// king starts on, passes over, or lands on is attacked by the opponent.
pub fn castling(cur_square: i8, state: &GameState, side: Color) -> (r: u64)
    ensures
        r == spec_castling(cur_square as int, *state, side),
    decreases 2int,
{
    let occ: u64 = state.board.white_occupied | state.board.black_occupied;
    match side {
        Color::White => {
            if cur_square == 4 {
                let ks: u64 = if state.white_can_castle_kingside && occ & 0x60 == 0 {
                    if checked_squares(state, Color::Black) & 0x70 == 0 {
                        0x40
                    } else {
                        0
                    }
                } else {
                    0
                };
                let qs: u64 = if state.white_can_castle_queenside && occ & 0x0E == 0 {
                    if checked_squares(state, Color::Black) & 0x1C == 0 {
                        0x04
                    } else {
                        0
                    }
                } else {
                    0
                };
                ks | qs
            } else {
                0
            }
        },
        Color::Black => {
            if cur_square == 60 {
                let ks: u64 = if state.black_can_castle_kingside && occ & 0x6000_0000_0000_0000
                    == 0 {
                    if checked_squares(state, Color::White) & 0x7000_0000_0000_0000 == 0 {
                        0x4000_0000_0000_0000
                    } else {
                        0
                    }
                } else {
                    0
                };
                let qs: u64 = if state.black_can_castle_queenside && occ & 0x0E00_0000_0000_0000
                    == 0 {
                    if checked_squares(state, Color::White) & 0x1C00_0000_0000_0000 == 0 {
                        0x0400_0000_0000_0000
                    } else {
                        0
                    }
                } else {
                    0
                };
                ks | qs
            } else {
                0
            }
        },
    }
}

pub open spec fn square_row(sq: int) -> int {
    sq / 8
}

pub open spec fn square_col(sq: int) -> int {
    sq % 8
}

/// How many steps a ray from `sq` in direction (`dr`, `dc`) can take
/// before leaving the board.
pub open spec fn dir_limit(sq: int, dr: int, dc: int) -> int {
    let lr = if dr > 0 {
        7 - square_row(sq)
    } else if dr < 0 {
        square_row(sq)
    } else {
        7
    };
    let lc = if dc > 0 {
        7 - square_col(sq)
    } else if dc < 0 {
        square_col(sq)
    } else {
        7
    };
    if lr <= lc {
        lr
    } else {
        lc
    }
}

/// Targets of one sliding ray from `sq`, starting at step `n`: empty
/// squares up to the first occupied one, which is included exactly when
/// it holds an opponent piece.
pub open spec fn spec_ray(sq: int, dr: int, dc: int, n: int, b: Board, side: Color) -> u64
    decreases 8 - n,
{
    if n < 1 || n > dir_limit(sq, dr, dc) {
        0u64
    } else {
        let m = 1u64 << ((sq + n * (8 * dr + dc)) as u64);
        if m & unoccupied(b) != 0 {
            m | spec_ray(sq, dr, dc, n + 1, b, side)
        } else {
            m & opponent_occupied(b, side)
        }
    }
}

/// A ray step taken within the direction limit stays on the board, and
/// moves the row by `n * dr` and the column by `n * dc` exactly.
pub proof fn lemma_ray_target_bounds(sq: int, dr: int, dc: int, n: int)
    requires
        0 <= sq < 64,
        -1 <= dr <= 1,
        -1 <= dc <= 1,
        1 <= n,
        n <= dir_limit(sq, dr, dc),
    ensures
        0 <= sq + n * (8 * dr + dc) < 64,
        square_row(sq + n * (8 * dr + dc)) == square_row(sq) + n * dr,
        square_col(sq + n * (8 * dr + dc)) == square_col(sq) + n * dc,
{
    vstd::arithmetic::div_mod::lemma_fundamental_div_mod(sq, 8);
    lemma_ray_step(n, dr, dc);
    lemma_mul_small(n, dr);
    lemma_mul_small(n, dc);
    let r1 = square_row(sq) + n * dr;
    let c1 = square_col(sq) + n * dc;
    assert(0 <= r1 <= 7);
    assert(0 <= c1 <= 7);
    assert(sq + n * (8 * dr + dc) == 8 * r1 + c1);
    vstd::arithmetic::div_mod::lemma_fundamental_div_mod_converse(8 * r1 + c1, 8, r1, c1);
}

proof fn lemma_mul_small(n: int, d: int)
    by (nonlinear_arith)
    requires
        -1 <= d <= 1,
    ensures
        d == 1 ==> n * d == n,
        d == 0 ==> n * d == 0,
        d == -1 ==> n * d == -n,
{
}

proof fn lemma_ray_step(n: int, dr: int, dc: int)
    by (nonlinear_arith)
    ensures
        n * (8 * dr + dc) == 8 * (n * dr) + n * dc,
{
}

fn ray_from(square: i8, dr: i8, dc: i8, n: i8, b: &Board, side: Color) -> (r: u64)
    requires
        0 <= square < 64,
        -1 <= dr <= 1,
        -1 <= dc <= 1,
        1 <= n <= 8,
    ensures
        r == spec_ray(square as int, dr as int, dc as int, n as int, *b, side),
    decreases 8 - n,
{
    let row: i8 = square / 8;
    let col: i8 = square % 8;
    let lr: i8 = if dr > 0 {
        7 - row
    } else if dr < 0 {
        row
    } else {
        7
    };
    let lc: i8 = if dc > 0 {
        7 - col
    } else if dc < 0 {
        col
    } else {
        7
    };
    let limit: i8 = if lr <= lc {
        lr
    } else {
        lc
    };
    if n > limit {
        return 0;
    }
    proof {
        lemma_ray_target_bounds(square as int, dr as int, dc as int, n as int);
    }
    let target: i8 = square + n * (8 * dr + dc);
    let m: u64 = 1u64 << (target as u64);
    let unocc: u64 = !(b.white_occupied | b.black_occupied);
    if m & unocc != 0 {
        m | ray_from(square, dr, dc, n + 1, b, side)
    } else {
        let opp: u64 = match side {
            Color::White => b.black_occupied,
            Color::Black => b.white_occupied,
        };
        m & opp
    }
}

pub open spec fn spec_helper_rook_moves(sq: int, s: GameState, side: Color) -> u64 {
    spec_ray(sq, 1, 0, 1, s.board, side) | spec_ray(sq, -1, 0, 1, s.board, side) | spec_ray(
        sq,
        0,
        1,
        1,
        s.board,
        side,
    ) | spec_ray(sq, 0, -1, 1, s.board, side)
}

/// Targets of a single rook on `square`: the four straight rays.
pub fn helper_rook_moves(square: i8, state: &GameState, side: Color) -> (r: u64)
    requires
        0 <= square < 64,
    ensures
        r == spec_helper_rook_moves(square as int, *state, side),
{
    let b = &state.board;
    ray_from(square, 1, 0, 1, b, side) | ray_from(square, -1, 0, 1, b, side) | ray_from(
        square,
        0,
        1,
        1,
        b,
        side,
    ) | ray_from(square, 0, -1, 1, b, side)
}

pub open spec fn spec_helper_bishop_moves(sq: int, s: GameState, side: Color) -> u64 {
    spec_ray(sq, 1, 1, 1, s.board, side) | spec_ray(sq, 1, -1, 1, s.board, side) | spec_ray(
        sq,
        -1,
        1,
        1,
        s.board,
        side,
    ) | spec_ray(sq, -1, -1, 1, s.board, side)
}

/// Targets of a single bishop on `square`: the four diagonal rays.
pub fn helper_bishop_moves(square: i8, state: &GameState, side: Color) -> (r: u64)
    requires
        0 <= square < 64,
    ensures
        r == spec_helper_bishop_moves(square as int, *state, side),
{
    let b = &state.board;
    ray_from(square, 1, 1, 1, b, side) | ray_from(square, 1, -1, 1, b, side) | ray_from(
        square,
        -1,
        1,
        1,
        b,
        side,
    ) | ray_from(square, -1, -1, 1, b, side)
}

pub open spec fn spec_rook_moves_upto(pos: u64, s: GameState, side: Color, k: int) -> u64
    decreases k,
{
    if k <= 0 {
        0u64
    } else {
        spec_rook_moves_upto(pos, s, side, k - 1) | (if nth_bit(pos, (k - 1) as u64) {
            spec_helper_rook_moves(k - 1, s, side)
        } else {
            0u64
        })
    }
}

pub open spec fn spec_rook_moves(pos: u64, s: GameState, side: Color) -> u64 {
    spec_rook_moves_upto(pos, s, side, 64)
}

/// Rook targets: union of the straight rays of every rook in `pos`.
pub fn rook_moves(pos: u64, state: &GameState, side: Color) -> (r: u64)
    ensures
        r == spec_rook_moves(pos, *state, side),
{
    let mut targeted: u64 = 0;
    let mut i: usize = 0;
    while i < 64
        invariant
            i <= 64,
            targeted == spec_rook_moves_upto(pos, *state, side, i as int),
        decreases 64 - i,
    {
        if (pos >> (i as u64)) & 1 == 1 {
            targeted = targeted | helper_rook_moves(i as i8, state, side);
        } else {
            proof {
                crate::bits::lemma_zero_and(targeted);
            }
        }
        i = i + 1;
    }
    targeted
}

pub open spec fn spec_bishop_moves_upto(pos: u64, s: GameState, side: Color, k: int) -> u64
    decreases k,
{
    if k <= 0 {
        0u64
    } else {
        spec_bishop_moves_upto(pos, s, side, k - 1) | (if nth_bit(pos, (k - 1) as u64) {
            spec_helper_bishop_moves(k - 1, s, side)
        } else {
            0u64
        })
    }
}

pub open spec fn spec_bishop_moves(pos: u64, s: GameState, side: Color) -> u64 {
    spec_bishop_moves_upto(pos, s, side, 64)
}

/// Bishop targets: union of the diagonal rays of every bishop in `pos`.
pub fn bishop_moves(pos: u64, state: &GameState, side: Color) -> (r: u64)
    ensures
        r == spec_bishop_moves(pos, *state, side),
{
    let mut targeted: u64 = 0;
    let mut i: usize = 0;
    while i < 64
        invariant
            i <= 64,
            targeted == spec_bishop_moves_upto(pos, *state, side, i as int),
        decreases 64 - i,
    {
        if (pos >> (i as u64)) & 1 == 1 {
            targeted = targeted | helper_bishop_moves(i as i8, state, side);
        } else {
            proof {
                crate::bits::lemma_zero_and(targeted);
            }
        }
        i = i + 1;
    }
    targeted
}

pub open spec fn spec_queen_moves(pos: u64, s: GameState, side: Color) -> u64 {
    spec_rook_moves(pos, s, side) | spec_bishop_moves(pos, s, side)
}

/// Queen targets: rook rays and bishop rays combined.
pub fn queen_moves(pos: u64, state: &GameState, side: Color) -> (r: u64)
    ensures
        r == spec_queen_moves(pos, *state, side),
{
    rook_moves(pos, state, side) | bishop_moves(pos, state, side)
}

pub open spec fn spec_pawn_moves(pos: u64, s: GameState, side: Color) -> u64 {
    let un = unoccupied(s.board);
    let ep = s.en_passant_mask;
    match side {
        Color::White => {
            let one_step = (pos << 8) & un;
            let two_steps = (((SECOND_RANK << 8) & one_step) << 8) & un;
            let capture_left = (s.board.black_occupied | ep) & ((pos & !FILE_A) << 7);
            let capture_right = (s.board.black_occupied | ep) & ((pos & !FILE_H) << 9);
            one_step | two_steps | capture_left | capture_right
        },
        Color::Black => {
            let one_step = (pos >> 8) & un;
            let two_steps = (((SEVENTH_RANK >> 8) & one_step) >> 8) & un;
            let capture_left = (s.board.white_occupied | ep) & ((pos & !FILE_A) >> 9);
            let capture_right = (s.board.white_occupied | ep) & ((pos & !FILE_H) >> 7);
            one_step | two_steps | capture_left | capture_right
        },
    }
}

/// Pawn targets: one square ahead onto an empty square, two squares from
/// the starting rank when both squares ahead are empty, and diagonal
/// captures onto opponent pieces or the en-passant target.
pub fn pawn_moves(pos: u64, state: &GameState, side: Color) -> (r: u64)
    ensures
        r == spec_pawn_moves(pos, *state, side),
{
    let board = &state.board;
    let unocc: u64 = !(board.white_occupied | board.black_occupied);
    let ep: u64 = state.en_passant_mask;
    match side {
        Color::White => {
            let one_step: u64 = (pos << 8) & unocc;
            let two_steps: u64 = (((SECOND_RANK << 8) & one_step) << 8) & unocc;
            let capture_left: u64 = (board.black_occupied | ep) & ((pos & !FILE_A) << 7);
            let capture_right: u64 = (board.black_occupied | ep) & ((pos & !FILE_H) << 9);
            one_step | two_steps | capture_left | capture_right
        },
        Color::Black => {
            let one_step: u64 = (pos >> 8) & unocc;
            let two_steps: u64 = (((SEVENTH_RANK >> 8) & one_step) >> 8) & unocc;
            let capture_left: u64 = (board.white_occupied | ep) & ((pos & !FILE_A) >> 9);
            let capture_right: u64 = (board.white_occupied | ep) & ((pos & !FILE_H) >> 7);
            one_step | two_steps | capture_left | capture_right
        },
    }
}

/// Knight targets never include the mover's own squares.
pub proof fn lemma_knight_no_own(pos: u64, s: GameState, side: Color)
    ensures
        spec_knight_moves(pos, s, side) & own_occupied(s.board, side) == 0,
{
    lemma_and_not_absorb(
        ((pos & !FILE_H) << 17) | ((pos & !(FILE_G | FILE_H)) << 10) | ((pos & !(FILE_G | FILE_H))
            >> 6) | ((pos & !FILE_H) >> 15) | ((pos & !FILE_A) << 15) | ((pos & !(FILE_A | FILE_B))
            << 6) | ((pos & !(FILE_A | FILE_B)) >> 10) | ((pos & !FILE_A) >> 17),
        own_occupied(s.board, side),
    );
}

/// King step targets never include the mover's own squares.
pub proof fn lemma_king_steps_no_own(pos: u64, s: GameState, side: Color)
    ensures
        spec_king_steps(pos, s, side) & own_occupied(s.board, side) == 0,
{
    let own = own_occupied(s.board, side);
    let t1 = ((pos & !FILE_A) << 7) & !own;
    let t2 = (pos << 8) & !own;
    let t3 = ((pos & !FILE_H) << 9) & !own;
    let t4 = ((pos & !FILE_A) >> 1) & !own;
    let t5 = ((pos & !FILE_H) << 1) & !own;
    let t6 = ((pos & !FILE_A) >> 9) & !own;
    let t7 = (pos >> 8) & !own;
    let t8 = ((pos & !FILE_H) >> 7) & !own;
    lemma_and_not_absorb((pos & !FILE_A) << 7, own);
    lemma_and_not_absorb(pos << 8, own);
    lemma_and_not_absorb((pos & !FILE_H) << 9, own);
    lemma_and_not_absorb((pos & !FILE_A) >> 1, own);
    lemma_and_not_absorb((pos & !FILE_H) << 1, own);
    lemma_and_not_absorb((pos & !FILE_A) >> 9, own);
    lemma_and_not_absorb(pos >> 8, own);
    lemma_and_not_absorb((pos & !FILE_H) >> 7, own);
    lemma_or_disjoint(t1, t2, own);
    lemma_or_disjoint(t1 | t2, t3, own);
    lemma_or_disjoint(t1 | t2 | t3, t4, own);
    lemma_or_disjoint(t1 | t2 | t3 | t4, t5, own);
    lemma_or_disjoint(t1 | t2 | t3 | t4 | t5, t6, own);
    lemma_or_disjoint(t1 | t2 | t3 | t4 | t5 | t6, t7, own);
    lemma_or_disjoint(t1 | t2 | t3 | t4 | t5 | t6 | t7, t8, own);
}

/// Castling targets never include the mover's own squares: each target
/// is offered only when the squares between king and rook are empty.
pub proof fn lemma_castling_no_own(c: int, s: GameState, side: Color)
    ensures
        spec_castling(c, s, side) & own_occupied(s.board, side) == 0,
{
    let wo = s.board.white_occupied;
    let bo = s.board.black_occupied;
    match side {
        Color::White => {
            if c == 4 {
                let ks = if s.white_can_castle_kingside && (wo | bo) & 0x60 == 0 {
                    if spec_checked_squares(s, Color::Black) & 0x70 == 0 {
                        0x40u64
                    } else {
                        0u64
                    }
                } else {
                    0u64
                };
                let qs = if s.white_can_castle_queenside && (wo | bo) & 0x0E == 0 {
                    if spec_checked_squares(s, Color::Black) & 0x1C == 0 {
                        0x04u64
                    } else {
                        0u64
                    }
                } else {
                    0u64
                };
                assert((ks | qs) & wo == 0) by (bit_vector)
                    requires
                        ks == 0x40u64 || ks == 0u64,
                        qs == 0x04u64 || qs == 0u64,
                        ks == 0x40u64 ==> (wo | bo) & 0x60u64 == 0,
                        qs == 0x04u64 ==> (wo | bo) & 0x0Eu64 == 0,
                ;
            } else {
                lemma_zero_and(wo);
            }
        },
        Color::Black => {
            if c == 60 {
                let ks = if s.black_can_castle_kingside && (wo | bo) & 0x6000_0000_0000_0000 == 0 {
                    if spec_checked_squares(s, Color::White) & 0x7000_0000_0000_0000 == 0 {
                        0x4000_0000_0000_0000u64
                    } else {
                        0u64
                    }
                } else {
                    0u64
                };
                let qs = if s.black_can_castle_queenside && (wo | bo) & 0x0E00_0000_0000_0000
                    == 0 {
                    if spec_checked_squares(s, Color::White) & 0x1C00_0000_0000_0000 == 0 {
                        0x0400_0000_0000_0000u64
                    } else {
                        0u64
                    }
                } else {
                    0u64
                };
                assert((ks | qs) & bo == 0) by (bit_vector)
                    requires
                        ks == 0x4000_0000_0000_0000u64 || ks == 0u64,
                        qs == 0x0400_0000_0000_0000u64 || qs == 0u64,
                        ks == 0x4000_0000_0000_0000u64 ==> (wo | bo) & 0x6000_0000_0000_0000u64
                            == 0,
                        qs == 0x0400_0000_0000_0000u64 ==> (wo | bo) & 0x0E00_0000_0000_0000u64
                            == 0,
                ;
            } else {
                lemma_zero_and(bo);
            }
        },
    }
}

/// King targets, castling included, never include the mover's own
/// squares.
pub proof fn lemma_king_no_own(pos: u64, s: GameState, side: Color, include_castling: bool)
    ensures
        spec_king_moves(pos, s, side, include_castling) & own_occupied(s.board, side) == 0,
{
    let own = own_occupied(s.board, side);
    let steps = spec_king_steps(pos, s, side);
    lemma_king_steps_no_own(pos, s, side);
    if include_castling {
        let castle = match side {
            Color::White => if pos & 0x10 != 0 {
                spec_castling(4, s, side)
            } else {
                0u64
            },
            Color::Black => if pos & 0x1000_0000_0000_0000 != 0 {
                spec_castling(60, s, side)
            } else {
                0u64
            },
        };
        match side {
            Color::White => {
                if pos & 0x10 != 0 {
                    lemma_castling_no_own(4, s, side);
                } else {
                    lemma_zero_and(own);
                }
            },
            Color::Black => {
                if pos & 0x1000_0000_0000_0000 != 0 {
                    lemma_castling_no_own(60, s, side);
                } else {
                    lemma_zero_and(own);
                }
            },
        }
        lemma_or_disjoint(steps, castle, own);
    }
}

/// Pawn targets never include the mover's own squares: advances land on
/// empty squares, captures on opponent squares or the empty en-passant
/// target.
pub proof fn lemma_pawn_no_own(pos: u64, s: GameState, side: Color)
    requires
        s.board.white_occupied & s.board.black_occupied == 0,
        s.en_passant_mask & own_occupied(s.board, side) == 0,
    ensures
        spec_pawn_moves(pos, s, side) & own_occupied(s.board, side) == 0,
{
    let wo = s.board.white_occupied;
    let bo = s.board.black_occupied;
    let ep = s.en_passant_mask;
    match side {
        Color::White => {
            let one = (pos << 8) & unoccupied(s.board);
            let two = (((SECOND_RANK << 8) & one) << 8) & unoccupied(s.board);
            let capl = (bo | ep) & ((pos & !FILE_A) << 7);
            let capr = (bo | ep) & ((pos & !FILE_H) << 9);
            lemma_and_not_absorb(pos << 8, wo | bo);
            lemma_split_or_right(one, wo, bo);
            lemma_and_not_absorb(((SECOND_RANK << 8) & one) << 8, wo | bo);
            lemma_split_or_right(two, wo, bo);
            lemma_disjoint_comm(wo, bo);
            lemma_or_disjoint(bo, ep, wo);
            lemma_and_within((pos & !FILE_A) << 7, bo | ep, wo);
            lemma_and_within((pos & !FILE_H) << 9, bo | ep, wo);
            lemma_or_disjoint(one, two, wo);
            lemma_or_disjoint(one | two, capl, wo);
            lemma_or_disjoint(one | two | capl, capr, wo);
        },
        Color::Black => {
            let one = (pos >> 8) & unoccupied(s.board);
            let two = (((SEVENTH_RANK >> 8) & one) >> 8) & unoccupied(s.board);
            let capl = (wo | ep) & ((pos & !FILE_A) >> 9);
            let capr = (wo | ep) & ((pos & !FILE_H) >> 7);
            lemma_and_not_absorb(pos >> 8, wo | bo);
            lemma_split_or_right(one, wo, bo);
            lemma_and_not_absorb(((SEVENTH_RANK >> 8) & one) >> 8, wo | bo);
            lemma_split_or_right(two, wo, bo);
            lemma_or_disjoint(wo, ep, bo);
            lemma_and_within((pos & !FILE_A) >> 9, wo | ep, bo);
            lemma_and_within((pos & !FILE_H) >> 7, wo | ep, bo);
            lemma_or_disjoint(one, two, bo);
            lemma_or_disjoint(one | two, capl, bo);
            lemma_or_disjoint(one | two | capl, capr, bo);
        },
    }
}

/// Sliding-ray targets never include the mover's own squares: a ray
/// collects empty squares and stops at the first occupied one, included
/// only when it holds an opponent piece.
pub proof fn lemma_ray_no_own(sq: int, dr: int, dc: int, n: int, b: Board, side: Color)
    requires
        0 <= sq < 64,
        -1 <= dr <= 1,
        -1 <= dc <= 1,
        1 <= n,
        b.white_occupied & b.black_occupied == 0,
    ensures
        spec_ray(sq, dr, dc, n, b, side) & own_occupied(b, side) == 0,
    decreases 8 - n,
{
    let own = own_occupied(b, side);
    if n < 1 || n > dir_limit(sq, dr, dc) {
        lemma_zero_and(own);
    } else {
        lemma_ray_target_bounds(sq, dr, dc, n);
        let x = (sq + n * (8 * dr + dc)) as u64;
        let m = 1u64 << x;
        if m & unoccupied(b) != 0 {
            lemma_single_in_unoccupied(x, b.white_occupied, b.black_occupied);
            lemma_ray_no_own(sq, dr, dc, n + 1, b, side);
            lemma_or_disjoint(m, spec_ray(sq, dr, dc, n + 1, b, side), own);
        } else {
            lemma_disjoint_comm(b.white_occupied, b.black_occupied);
            match side {
                Color::White => {
                    lemma_and_within(m, b.black_occupied, b.white_occupied);
                },
                Color::Black => {
                    lemma_and_within(m, b.white_occupied, b.black_occupied);
                },
            }
        }
    }
}

/// Rook targets of one square never include the mover's own squares.
pub proof fn lemma_helper_rook_no_own(sq: int, s: GameState, side: Color)
    requires
        0 <= sq < 64,
        s.board.white_occupied & s.board.black_occupied == 0,
    ensures
        spec_helper_rook_moves(sq, s, side) & own_occupied(s.board, side) == 0,
{
    let own = own_occupied(s.board, side);
    lemma_ray_no_own(sq, 1, 0, 1, s.board, side);
    lemma_ray_no_own(sq, -1, 0, 1, s.board, side);
    lemma_ray_no_own(sq, 0, 1, 1, s.board, side);
    lemma_ray_no_own(sq, 0, -1, 1, s.board, side);
    let r1 = spec_ray(sq, 1, 0, 1, s.board, side);
    let r2 = spec_ray(sq, -1, 0, 1, s.board, side);
    let r3 = spec_ray(sq, 0, 1, 1, s.board, side);
    let r4 = spec_ray(sq, 0, -1, 1, s.board, side);
    lemma_or_disjoint(r1, r2, own);
    lemma_or_disjoint(r1 | r2, r3, own);
    lemma_or_disjoint(r1 | r2 | r3, r4, own);
}

/// Bishop targets of one square never include the mover's own squares.
pub proof fn lemma_helper_bishop_no_own(sq: int, s: GameState, side: Color)
    requires
        0 <= sq < 64,
        s.board.white_occupied & s.board.black_occupied == 0,
    ensures
        spec_helper_bishop_moves(sq, s, side) & own_occupied(s.board, side) == 0,
{
    let own = own_occupied(s.board, side);
    lemma_ray_no_own(sq, 1, 1, 1, s.board, side);
    lemma_ray_no_own(sq, 1, -1, 1, s.board, side);
    lemma_ray_no_own(sq, -1, 1, 1, s.board, side);
    lemma_ray_no_own(sq, -1, -1, 1, s.board, side);
    let r1 = spec_ray(sq, 1, 1, 1, s.board, side);
    let r2 = spec_ray(sq, 1, -1, 1, s.board, side);
    let r3 = spec_ray(sq, -1, 1, 1, s.board, side);
    let r4 = spec_ray(sq, -1, -1, 1, s.board, side);
    lemma_or_disjoint(r1, r2, own);
    lemma_or_disjoint(r1 | r2, r3, own);
    lemma_or_disjoint(r1 | r2 | r3, r4, own);
}

proof fn lemma_rook_upto_no_own(pos: u64, s: GameState, side: Color, k: int)
    requires
        k <= 64,
        s.board.white_occupied & s.board.black_occupied == 0,
    ensures
        spec_rook_moves_upto(pos, s, side, k) & own_occupied(s.board, side) == 0,
    decreases k,
{
    let own = own_occupied(s.board, side);
    if k <= 0 {
        lemma_zero_and(own);
    } else {
        lemma_rook_upto_no_own(pos, s, side, k - 1);
        if nth_bit(pos, (k - 1) as u64) {
            lemma_helper_rook_no_own(k - 1, s, side);
        } else {
            lemma_zero_and(own);
        }
        lemma_or_disjoint(
            spec_rook_moves_upto(pos, s, side, k - 1),
            if nth_bit(pos, (k - 1) as u64) {
                spec_helper_rook_moves(k - 1, s, side)
            } else {
                0u64
            },
            own,
        );
    }
}

proof fn lemma_bishop_upto_no_own(pos: u64, s: GameState, side: Color, k: int)
    requires
        k <= 64,
        s.board.white_occupied & s.board.black_occupied == 0,
    ensures
        spec_bishop_moves_upto(pos, s, side, k) & own_occupied(s.board, side) == 0,
    decreases k,
{
    let own = own_occupied(s.board, side);
    if k <= 0 {
        lemma_zero_and(own);
    } else {
        lemma_bishop_upto_no_own(pos, s, side, k - 1);
        if nth_bit(pos, (k - 1) as u64) {
            lemma_helper_bishop_no_own(k - 1, s, side);
        } else {
            lemma_zero_and(own);
        }
        lemma_or_disjoint(
            spec_bishop_moves_upto(pos, s, side, k - 1),
            if nth_bit(pos, (k - 1) as u64) {
                spec_helper_bishop_moves(k - 1, s, side)
            } else {
                0u64
            },
            own,
        );
    }
}

/// Rook targets never include the mover's own squares.
pub proof fn lemma_rook_no_own(pos: u64, s: GameState, side: Color)
    requires
        s.board.white_occupied & s.board.black_occupied == 0,
    ensures
        spec_rook_moves(pos, s, side) & own_occupied(s.board, side) == 0,
{
    lemma_rook_upto_no_own(pos, s, side, 64);
}

/// Bishop targets never include the mover's own squares.
pub proof fn lemma_bishop_no_own(pos: u64, s: GameState, side: Color)
    requires
        s.board.white_occupied & s.board.black_occupied == 0,
    ensures
        spec_bishop_moves(pos, s, side) & own_occupied(s.board, side) == 0,
{
    lemma_bishop_upto_no_own(pos, s, side, 64);
}

/// Square `i` lies `k` ray steps in direction (`dr`, `dc`) from `sq`.
pub open spec fn on_ray(sq: int, dr: int, dc: int, i: int, k: int) -> bool {
    square_row(i) == square_row(sq) + k * dr && square_col(i) == square_col(sq) + k * dc
}

proof fn lemma_ray_bits(sq: int, dr: int, dc: int, n: int, b: Board, side: Color, i: u64)
    requires
        0 <= sq < 64,
        -1 <= dr <= 1,
        -1 <= dc <= 1,
        1 <= n,
        i < 64,
    ensures
        nth_bit(spec_ray(sq, dr, dc, n, b, side), i) ==> exists|k: int|
            1 <= k <= 7 && #[trigger] on_ray(sq, dr, dc, i as int, k),
    decreases 8 - n,
{
    if n < 1 || n > dir_limit(sq, dr, dc) {
        lemma_zero_bit(i);
    } else {
        lemma_ray_target_bounds(sq, dr, dc, n);
        let x = (sq + n * (8 * dr + dc)) as u64;
        let m = 1u64 << x;
        lemma_bit_single(x, i);
        if m & unoccupied(b) != 0 {
            lemma_bit_or(m, spec_ray(sq, dr, dc, n + 1, b, side), i);
            lemma_ray_bits(sq, dr, dc, n + 1, b, side, i);
            if nth_bit(m, i) {
                assert(on_ray(sq, dr, dc, i as int, n));
            }
        } else {
            lemma_bit_and(m, opponent_occupied(b, side), i);
            if nth_bit(m & opponent_occupied(b, side), i) {
                assert(on_ray(sq, dr, dc, i as int, n));
            }
        }
    }
}

/// Law (ray geometry): every rook target shares its rank or its file
/// with the rook itself — shift-based ray walking never wraps around a
/// board edge onto a neighbouring rank.
pub proof fn lemma_rook_targets_on_lines(sq: int, s: GameState, side: Color, i: u64)
    requires
        0 <= sq < 64,
        i < 64,
    ensures
        nth_bit(spec_helper_rook_moves(sq, s, side), i) ==> square_row(i as int) == square_row(
            sq,
        ) || square_col(i as int) == square_col(sq),
{
    let r1 = spec_ray(sq, 1, 0, 1, s.board, side);
    let r2 = spec_ray(sq, -1, 0, 1, s.board, side);
    let r3 = spec_ray(sq, 0, 1, 1, s.board, side);
    let r4 = spec_ray(sq, 0, -1, 1, s.board, side);
    lemma_bit_or(r1, r2, i);
    lemma_bit_or(r1 | r2, r3, i);
    lemma_bit_or(r1 | r2 | r3, r4, i);
    lemma_ray_bits(sq, 1, 0, 1, s.board, side, i);
    lemma_ray_bits(sq, -1, 0, 1, s.board, side, i);
    lemma_ray_bits(sq, 0, 1, 1, s.board, side, i);
    lemma_ray_bits(sq, 0, -1, 1, s.board, side, i);
}

/// Law (ray geometry): every bishop target lies on one of the bishop's
/// two diagonals: its rank and file offsets from the bishop are equal
/// or opposite, never a wraparound artifact.
pub proof fn lemma_bishop_targets_on_diagonals(sq: int, s: GameState, side: Color, i: u64)
    requires
        0 <= sq < 64,
        i < 64,
    ensures
        nth_bit(spec_helper_bishop_moves(sq, s, side), i) ==> square_row(i as int) - square_row(
            sq,
        ) == square_col(i as int) - square_col(sq) || square_row(i as int) - square_row(sq)
            == square_col(sq) - square_col(i as int),
{
    let r1 = spec_ray(sq, 1, 1, 1, s.board, side);
    let r2 = spec_ray(sq, 1, -1, 1, s.board, side);
    let r3 = spec_ray(sq, -1, 1, 1, s.board, side);
    let r4 = spec_ray(sq, -1, -1, 1, s.board, side);
    lemma_bit_or(r1, r2, i);
    lemma_bit_or(r1 | r2, r3, i);
    lemma_bit_or(r1 | r2 | r3, r4, i);
    lemma_ray_bits(sq, 1, 1, 1, s.board, side, i);
    lemma_ray_bits(sq, 1, -1, 1, s.board, side, i);
    lemma_ray_bits(sq, -1, 1, 1, s.board, side, i);
    lemma_ray_bits(sq, -1, -1, 1, s.board, side, i);
}

/// Law (board edges): from a square on the a-file a rook reaches the
/// h-file only on its own rank and a bishop only seven ranks away, and
/// symmetrically from the h-file — for every edge square, no target
/// ever wraps to the opposite edge on a neighbouring rank.
pub proof fn lemma_edge_no_wraparound(sq: int, s: GameState, side: Color, i: u64)
    requires
        0 <= sq < 64,
        i < 64,
    ensures
        square_col(sq) == 0 && square_col(i as int) == 7 && nth_bit(
            spec_helper_rook_moves(sq, s, side),
            i,
        ) ==> square_row(i as int) == square_row(sq),
        square_col(sq) == 7 && square_col(i as int) == 0 && nth_bit(
            spec_helper_rook_moves(sq, s, side),
            i,
        ) ==> square_row(i as int) == square_row(sq),
        square_col(sq) == 0 && square_col(i as int) == 7 && nth_bit(
            spec_helper_bishop_moves(sq, s, side),
            i,
        ) ==> square_row(i as int) == square_row(sq) + 7 || square_row(i as int) == square_row(
            sq,
        ) - 7,
        square_col(sq) == 7 && square_col(i as int) == 0 && nth_bit(
            spec_helper_bishop_moves(sq, s, side),
            i,
        ) ==> square_row(i as int) == square_row(sq) + 7 || square_row(i as int) == square_row(
            sq,
        ) - 7,
{
    lemma_rook_targets_on_lines(sq, s, side, i);
    lemma_bishop_targets_on_diagonals(sq, s, side, i);
}

/// Queen targets never include the mover's own squares.
pub proof fn lemma_queen_no_own(pos: u64, s: GameState, side: Color)
    requires
        s.board.white_occupied & s.board.black_occupied == 0,
    ensures
        spec_queen_moves(pos, s, side) & own_occupied(s.board, side) == 0,
{
    lemma_rook_no_own(pos, s, side);
    lemma_bishop_no_own(pos, s, side);
    lemma_or_disjoint(
        spec_rook_moves(pos, s, side),
        spec_bishop_moves(pos, s, side),
        own_occupied(s.board, side),
    );
}

} // verus!
