//! Bitboard representation of the board: one 64-bit mask for each
//! (color, piece type) pair, plus one derived occupancy mask per color.
//! Bit `i` stands for square `i`, rank-major: bit 0 is a1, bit 7 is h1,
//! bit 8 is a2, and so on up to bit 63 for h8.

use vstd::prelude::*;

use crate::bits::nth_bit;

verus! {

// Piece placement of the standard starting position.
pub const WHITE_PAWN_INIT: u64 = 0x0000_0000_0000_FF00;
pub const WHITE_ROOK_INIT: u64 = 0x0000_0000_0000_0081;
pub const WHITE_KNIGHT_INIT: u64 = 0x0000_0000_0000_0042;
pub const WHITE_BISHOP_INIT: u64 = 0x0000_0000_0000_0024;
pub const WHITE_QUEEN_INIT: u64 = 0x0000_0000_0000_0008;
pub const WHITE_KING_INIT: u64 = 0x0000_0000_0000_0010;

pub const BLACK_PAWN_INIT: u64 = 0x00FF_0000_0000_0000;
pub const BLACK_ROOK_INIT: u64 = 0x8100_0000_0000_0000;
pub const BLACK_KNIGHT_INIT: u64 = 0x4200_0000_0000_0000;
pub const BLACK_BISHOP_INIT: u64 = 0x2400_0000_0000_0000;
pub const BLACK_QUEEN_INIT: u64 = 0x0800_0000_0000_0000;
pub const BLACK_KING_INIT: u64 = 0x1000_0000_0000_0000;

pub const WHITE_OCCUPIED_INIT: u64 = 0x0000_0000_0000_FFFF;
pub const BLACK_OCCUPIED_INIT: u64 = 0xFFFF_0000_0000_0000;

#[derive(Clone, Copy, PartialEq, Eq, Structural, Debug)]
pub struct Board {
    pub white_pawns: u64,
    pub white_rooks: u64,
    pub white_knights: u64,
    pub white_bishops: u64,
    pub white_queens: u64,
    pub white_king: u64,

    pub black_pawns: u64,
    pub black_rooks: u64,
    pub black_knights: u64,
    pub black_bishops: u64,
    pub black_queens: u64,
    pub black_king: u64,

    pub white_occupied: u64,
    pub black_occupied: u64,
}

pub open spec fn initial_board() -> Board {
    Board {
        white_pawns: WHITE_PAWN_INIT,
        white_rooks: WHITE_ROOK_INIT,
        white_knights: WHITE_KNIGHT_INIT,
        white_bishops: WHITE_BISHOP_INIT,
        white_queens: WHITE_QUEEN_INIT,
        white_king: WHITE_KING_INIT,
        black_pawns: BLACK_PAWN_INIT,
        black_rooks: BLACK_ROOK_INIT,
        black_knights: BLACK_KNIGHT_INIT,
        black_bishops: BLACK_BISHOP_INIT,
        black_queens: BLACK_QUEEN_INIT,
        black_king: BLACK_KING_INIT,
        white_occupied: WHITE_OCCUPIED_INIT,
        black_occupied: BLACK_OCCUPIED_INIT,
    }
}

/// Union of White's six piece masks.
pub open spec fn white_union(b: Board) -> u64 {
    b.white_pawns | b.white_rooks | b.white_knights | b.white_bishops | b.white_queens
        | b.white_king
}

/// Union of Black's six piece masks.
pub open spec fn black_union(b: Board) -> u64 {
    b.black_pawns | b.black_rooks | b.black_knights | b.black_bishops | b.black_queens
        | b.black_king
}

pub open spec fn white_pieces_disjoint(b: Board) -> bool {
    &&& b.white_pawns & b.white_rooks == 0
    &&& b.white_pawns & b.white_knights == 0
    &&& b.white_pawns & b.white_bishops == 0
    &&& b.white_pawns & b.white_queens == 0
    &&& b.white_pawns & b.white_king == 0
    &&& b.white_rooks & b.white_knights == 0
    &&& b.white_rooks & b.white_bishops == 0
    &&& b.white_rooks & b.white_queens == 0
    &&& b.white_rooks & b.white_king == 0
    &&& b.white_knights & b.white_bishops == 0
    &&& b.white_knights & b.white_queens == 0
    &&& b.white_knights & b.white_king == 0
    &&& b.white_bishops & b.white_queens == 0
    &&& b.white_bishops & b.white_king == 0
    &&& b.white_queens & b.white_king == 0
}

pub open spec fn black_pieces_disjoint(b: Board) -> bool {
    &&& b.black_pawns & b.black_rooks == 0
    &&& b.black_pawns & b.black_knights == 0
    &&& b.black_pawns & b.black_bishops == 0
    &&& b.black_pawns & b.black_queens == 0
    &&& b.black_pawns & b.black_king == 0
    &&& b.black_rooks & b.black_knights == 0
    &&& b.black_rooks & b.black_bishops == 0
    &&& b.black_rooks & b.black_queens == 0
    &&& b.black_rooks & b.black_king == 0
    &&& b.black_knights & b.black_bishops == 0
    &&& b.black_knights & b.black_queens == 0
    &&& b.black_knights & b.black_king == 0
    &&& b.black_bishops & b.black_queens == 0
    &&& b.black_bishops & b.black_king == 0
    &&& b.black_queens & b.black_king == 0
}

/// Well-formedness of the piece placement: each color's occupancy mask is
/// exactly the union of its six piece masks, the two occupancies are
/// disjoint, and each color's piece masks are pairwise disjoint.
pub open spec fn board_ok(b: Board) -> bool {
    &&& b.white_occupied == white_union(b)
    &&& b.black_occupied == black_union(b)
    &&& b.white_occupied & b.black_occupied == 0
    &&& white_pieces_disjoint(b)
    &&& black_pieces_disjoint(b)
}

/// All squares occupied by either side.
pub open spec fn occupied(b: Board) -> u64 {
    b.white_occupied | b.black_occupied
}

/// All empty squares.
pub open spec fn unoccupied(b: Board) -> u64 {
    !(b.white_occupied | b.black_occupied)
}

impl Board {
    pub fn new() -> (r: Board)
        ensures
            r == initial_board(),
    {
        Board {
            white_pawns: WHITE_PAWN_INIT,
            white_rooks: WHITE_ROOK_INIT,
            white_knights: WHITE_KNIGHT_INIT,
            white_bishops: WHITE_BISHOP_INIT,
            white_queens: WHITE_QUEEN_INIT,
            white_king: WHITE_KING_INIT,
            black_pawns: BLACK_PAWN_INIT,
            black_rooks: BLACK_ROOK_INIT,
            black_knights: BLACK_KNIGHT_INIT,
            black_bishops: BLACK_BISHOP_INIT,
            black_queens: BLACK_QUEEN_INIT,
            black_king: BLACK_KING_INIT,
            white_occupied: WHITE_OCCUPIED_INIT,
            black_occupied: BLACK_OCCUPIED_INIT,
        }
    }

    pub fn reset(&mut self)
        ensures
            *final(self) == initial_board(),
    {
        *self = Board::new();
    }
}

/// Number of piece masks that hold square `sq`.
pub open spec fn square_piece_count(b: Board, sq: u64) -> int {
    (if nth_bit(b.white_pawns, sq) { 1int } else { 0int })
        + (if nth_bit(b.white_rooks, sq) { 1int } else { 0int })
        + (if nth_bit(b.white_knights, sq) { 1int } else { 0int })
        + (if nth_bit(b.white_bishops, sq) { 1int } else { 0int })
        + (if nth_bit(b.white_queens, sq) { 1int } else { 0int })
        + (if nth_bit(b.white_king, sq) { 1int } else { 0int })
        + (if nth_bit(b.black_pawns, sq) { 1int } else { 0int })
        + (if nth_bit(b.black_rooks, sq) { 1int } else { 0int })
        + (if nth_bit(b.black_knights, sq) { 1int } else { 0int })
        + (if nth_bit(b.black_bishops, sq) { 1int } else { 0int })
        + (if nth_bit(b.black_queens, sq) { 1int } else { 0int })
        + (if nth_bit(b.black_king, sq) { 1int } else { 0int })
}

proof fn lemma_single_occupancy_masks(
    wp: u64, wr: u64, wn: u64, wb: u64, wq: u64, wk: u64,
    bp: u64, br: u64, bn: u64, bb: u64, bq: u64, bk: u64,
    wo: u64, bo: u64, sq: u64,
)
    by (bit_vector)
    requires
        sq < 64,
        wo == wp | wr | wn | wb | wq | wk,
        bo == bp | br | bn | bb | bq | bk,
        wo & bo == 0,
        wp & wr == 0, wp & wn == 0, wp & wb == 0, wp & wq == 0, wp & wk == 0,
        wr & wn == 0, wr & wb == 0, wr & wq == 0, wr & wk == 0,
        wn & wb == 0, wn & wq == 0, wn & wk == 0,
        wb & wq == 0, wb & wk == 0,
        wq & wk == 0,
        bp & br == 0, bp & bn == 0, bp & bb == 0, bp & bq == 0, bp & bk == 0,
        br & bn == 0, br & bb == 0, br & bq == 0, br & bk == 0,
        bn & bb == 0, bn & bq == 0, bn & bk == 0,
        bb & bq == 0, bb & bk == 0,
        bq & bk == 0,
    ensures
        (if nth_bit(wp, sq) { 1int } else { 0int })
            + (if nth_bit(wr, sq) { 1int } else { 0int })
            + (if nth_bit(wn, sq) { 1int } else { 0int })
            + (if nth_bit(wb, sq) { 1int } else { 0int })
            + (if nth_bit(wq, sq) { 1int } else { 0int })
            + (if nth_bit(wk, sq) { 1int } else { 0int })
            + (if nth_bit(bp, sq) { 1int } else { 0int })
            + (if nth_bit(br, sq) { 1int } else { 0int })
            + (if nth_bit(bn, sq) { 1int } else { 0int })
            + (if nth_bit(bb, sq) { 1int } else { 0int })
            + (if nth_bit(bq, sq) { 1int } else { 0int })
            + (if nth_bit(bk, sq) { 1int } else { 0int }) <= 1,
        nth_bit(wo, sq) == (nth_bit(wp, sq) || nth_bit(wr, sq) || nth_bit(wn, sq)
            || nth_bit(wb, sq) || nth_bit(wq, sq) || nth_bit(wk, sq)),
        nth_bit(bo, sq) == (nth_bit(bp, sq) || nth_bit(br, sq) || nth_bit(bn, sq)
            || nth_bit(bb, sq) || nth_bit(bq, sq) || nth_bit(bk, sq)),
{
}

/// Law: on a well-formed board every square is held by at most one of the
/// twelve piece masks, and a color's occupancy bit is set exactly when one
/// of that color's piece masks holds the square.
pub proof fn lemma_square_single_occupancy(b: Board, sq: u64)
    requires
        board_ok(b),
        sq < 64,
    ensures
        square_piece_count(b, sq) <= 1,
        nth_bit(b.white_occupied, sq) == (nth_bit(b.white_pawns, sq)
            || nth_bit(b.white_rooks, sq) || nth_bit(b.white_knights, sq)
            || nth_bit(b.white_bishops, sq) || nth_bit(b.white_queens, sq)
            || nth_bit(b.white_king, sq)),
        nth_bit(b.black_occupied, sq) == (nth_bit(b.black_pawns, sq)
            || nth_bit(b.black_rooks, sq) || nth_bit(b.black_knights, sq)
            || nth_bit(b.black_bishops, sq) || nth_bit(b.black_queens, sq)
            || nth_bit(b.black_king, sq)),
{
    lemma_single_occupancy_masks(
        b.white_pawns, b.white_rooks, b.white_knights, b.white_bishops, b.white_queens,
        b.white_king, b.black_pawns, b.black_rooks, b.black_knights, b.black_bishops,
        b.black_queens, b.black_king, b.white_occupied, b.black_occupied, sq,
    );
}

/// Effect of one relocation on a well-formed half-board: the six piece
/// masks `p1..p6` belong to the moving side (occupancy `oo`, union in
/// that order), `q1..q6` to the opponent (occupancy `qo`). The mask
/// holding square `c` gains `t` and loses `c`; the opponent loses `t`.
/// Everything stays disjoint and the occupancies stay exact unions.
#[verifier::rlimit(100)]
pub proof fn lemma_board_after_move(
    p1: u64, p2: u64, p3: u64, p4: u64, p5: u64, p6: u64,
    q1: u64, q2: u64, q3: u64, q4: u64, q5: u64, q6: u64,
    oo: u64, qo: u64, c: u64, t: u64,
)
    by (bit_vector)
    requires
        c < 64,
        t < 64,
        c != t,
        oo == p1 | p2 | p3 | p4 | p5 | p6,
        qo == q1 | q2 | q3 | q4 | q5 | q6,
        oo & qo == 0,
        p1 & p2 == 0, p1 & p3 == 0, p1 & p4 == 0, p1 & p5 == 0, p1 & p6 == 0,
        p2 & p3 == 0, p2 & p4 == 0, p2 & p5 == 0, p2 & p6 == 0,
        p3 & p4 == 0, p3 & p5 == 0, p3 & p6 == 0,
        p4 & p5 == 0, p4 & p6 == 0,
        p5 & p6 == 0,
        q1 & q2 == 0, q1 & q3 == 0, q1 & q4 == 0, q1 & q5 == 0, q1 & q6 == 0,
        q2 & q3 == 0, q2 & q4 == 0, q2 & q5 == 0, q2 & q6 == 0,
        q3 & q4 == 0, q3 & q5 == 0, q3 & q6 == 0,
        q4 & q5 == 0, q4 & q6 == 0,
        q5 & q6 == 0,
        nth_bit(oo, c),
        !nth_bit(oo, t),
    ensures
        (oo | (1u64 << t)) & !(1u64 << c) == (if nth_bit(p1, c) {
            (p1 | (1u64 << t)) & !(1u64 << c)
        } else {
            p1
        }) | (if nth_bit(p2, c) {
            (p2 | (1u64 << t)) & !(1u64 << c)
        } else {
            p2
        }) | (if nth_bit(p3, c) {
            (p3 | (1u64 << t)) & !(1u64 << c)
        } else {
            p3
        }) | (if nth_bit(p4, c) {
            (p4 | (1u64 << t)) & !(1u64 << c)
        } else {
            p4
        }) | (if nth_bit(p5, c) {
            (p5 | (1u64 << t)) & !(1u64 << c)
        } else {
            p5
        }) | (if nth_bit(p6, c) {
            (p6 | (1u64 << t)) & !(1u64 << c)
        } else {
            p6
        }),
        qo & !(1u64 << t) == (q1 & !(1u64 << t)) | (q2 & !(1u64 << t)) | (q3 & !(1u64 << t)) | (
        q4 & !(1u64 << t)) | (q5 & !(1u64 << t)) | (q6 & !(1u64 << t)),
        ((oo | (1u64 << t)) & !(1u64 << c)) & (qo & !(1u64 << t)) == 0,
        (qo & !(1u64 << t)) & ((oo | (1u64 << t)) & !(1u64 << c)) == 0,
        ((p1 | (1u64 << t)) & !(1u64 << c)) & p2 == 0, p1 & ((p2 | (1u64 << t)) & !(1u64 << c)) == 0,
        ((p1 | (1u64 << t)) & !(1u64 << c)) & p3 == 0, p1 & ((p3 | (1u64 << t)) & !(1u64 << c)) == 0,
        ((p1 | (1u64 << t)) & !(1u64 << c)) & p4 == 0, p1 & ((p4 | (1u64 << t)) & !(1u64 << c)) == 0,
        ((p1 | (1u64 << t)) & !(1u64 << c)) & p5 == 0, p1 & ((p5 | (1u64 << t)) & !(1u64 << c)) == 0,
        ((p1 | (1u64 << t)) & !(1u64 << c)) & p6 == 0, p1 & ((p6 | (1u64 << t)) & !(1u64 << c)) == 0,
        ((p2 | (1u64 << t)) & !(1u64 << c)) & p3 == 0, p2 & ((p3 | (1u64 << t)) & !(1u64 << c)) == 0,
        ((p2 | (1u64 << t)) & !(1u64 << c)) & p4 == 0, p2 & ((p4 | (1u64 << t)) & !(1u64 << c)) == 0,
        ((p2 | (1u64 << t)) & !(1u64 << c)) & p5 == 0, p2 & ((p5 | (1u64 << t)) & !(1u64 << c)) == 0,
        ((p2 | (1u64 << t)) & !(1u64 << c)) & p6 == 0, p2 & ((p6 | (1u64 << t)) & !(1u64 << c)) == 0,
        ((p3 | (1u64 << t)) & !(1u64 << c)) & p4 == 0, p3 & ((p4 | (1u64 << t)) & !(1u64 << c)) == 0,
        ((p3 | (1u64 << t)) & !(1u64 << c)) & p5 == 0, p3 & ((p5 | (1u64 << t)) & !(1u64 << c)) == 0,
        ((p3 | (1u64 << t)) & !(1u64 << c)) & p6 == 0, p3 & ((p6 | (1u64 << t)) & !(1u64 << c)) == 0,
        ((p4 | (1u64 << t)) & !(1u64 << c)) & p5 == 0, p4 & ((p5 | (1u64 << t)) & !(1u64 << c)) == 0,
        ((p4 | (1u64 << t)) & !(1u64 << c)) & p6 == 0, p4 & ((p6 | (1u64 << t)) & !(1u64 << c)) == 0,
        ((p5 | (1u64 << t)) & !(1u64 << c)) & p6 == 0, p5 & ((p6 | (1u64 << t)) & !(1u64 << c)) == 0,
        (q1 & !(1u64 << t)) & (q2 & !(1u64 << t)) == 0,
        (q1 & !(1u64 << t)) & (q3 & !(1u64 << t)) == 0,
        (q1 & !(1u64 << t)) & (q4 & !(1u64 << t)) == 0,
        (q1 & !(1u64 << t)) & (q5 & !(1u64 << t)) == 0,
        (q1 & !(1u64 << t)) & (q6 & !(1u64 << t)) == 0,
        (q2 & !(1u64 << t)) & (q3 & !(1u64 << t)) == 0,
        (q2 & !(1u64 << t)) & (q4 & !(1u64 << t)) == 0,
        (q2 & !(1u64 << t)) & (q5 & !(1u64 << t)) == 0,
        (q2 & !(1u64 << t)) & (q6 & !(1u64 << t)) == 0,
        (q3 & !(1u64 << t)) & (q4 & !(1u64 << t)) == 0,
        (q3 & !(1u64 << t)) & (q5 & !(1u64 << t)) == 0,
        (q3 & !(1u64 << t)) & (q6 & !(1u64 << t)) == 0,
        (q4 & !(1u64 << t)) & (q5 & !(1u64 << t)) == 0,
        (q4 & !(1u64 << t)) & (q6 & !(1u64 << t)) == 0,
        (q5 & !(1u64 << t)) & (q6 & !(1u64 << t)) == 0,
{
}

/// Removing the pawn on square `e` (held by the pawn mask `q1`) keeps a
/// half-board well formed.
pub proof fn lemma_board_clear_one(
    q1: u64, q2: u64, q3: u64, q4: u64, q5: u64, q6: u64, qo: u64, oo: u64, e: u64,
)
    by (bit_vector)
    requires
        e < 64,
        qo == q1 | q2 | q3 | q4 | q5 | q6,
        q1 & q2 == 0, q1 & q3 == 0, q1 & q4 == 0, q1 & q5 == 0, q1 & q6 == 0,
        q2 & q3 == 0, q2 & q4 == 0, q2 & q5 == 0, q2 & q6 == 0,
        q3 & q4 == 0, q3 & q5 == 0, q3 & q6 == 0,
        q4 & q5 == 0, q4 & q6 == 0,
        q5 & q6 == 0,
        oo & qo == 0,
        nth_bit(q1, e),
    ensures
        qo & !(1u64 << e) == (q1 & !(1u64 << e)) | q2 | q3 | q4 | q5 | q6,
        (q1 & !(1u64 << e)) & q2 == 0,
        (q1 & !(1u64 << e)) & q3 == 0,
        (q1 & !(1u64 << e)) & q4 == 0,
        (q1 & !(1u64 << e)) & q5 == 0,
        (q1 & !(1u64 << e)) & q6 == 0,
        oo & (qo & !(1u64 << e)) == 0,
        (qo & !(1u64 << e)) & oo == 0,
{
}

/// The castling rook shift from corner `h` to empty square `d` keeps a
/// half-board well formed; `p2` is the rook mask.
pub proof fn lemma_board_rook_shift(
    p1: u64, p2: u64, p3: u64, p4: u64, p5: u64, p6: u64, oo: u64, qo: u64, d: u64, h: u64,
)
    by (bit_vector)
    requires
        d < 64,
        h < 64,
        d != h,
        oo == p1 | p2 | p3 | p4 | p5 | p6,
        p1 & p2 == 0, p1 & p3 == 0, p1 & p4 == 0, p1 & p5 == 0, p1 & p6 == 0,
        p2 & p3 == 0, p2 & p4 == 0, p2 & p5 == 0, p2 & p6 == 0,
        p3 & p4 == 0, p3 & p5 == 0, p3 & p6 == 0,
        p4 & p5 == 0, p4 & p6 == 0,
        p5 & p6 == 0,
        oo & qo == 0,
        !nth_bit(oo, d),
        !nth_bit(qo, d),
        nth_bit(p2, h),
    ensures
        (oo | (1u64 << d)) & !(1u64 << h) == p1 | ((p2 | (1u64 << d)) & !(1u64 << h)) | p3 | p4
            | p5 | p6,
        p1 & ((p2 | (1u64 << d)) & !(1u64 << h)) == 0,
        ((p2 | (1u64 << d)) & !(1u64 << h)) & p3 == 0,
        ((p2 | (1u64 << d)) & !(1u64 << h)) & p4 == 0,
        ((p2 | (1u64 << d)) & !(1u64 << h)) & p5 == 0,
        ((p2 | (1u64 << d)) & !(1u64 << h)) & p6 == 0,
        ((oo | (1u64 << d)) & !(1u64 << h)) & qo == 0,
        qo & ((oo | (1u64 << d)) & !(1u64 << h)) == 0,
{
}

/// Promotion swaps the pawn bit on `t` for the same bit in one piece
/// mask, chosen by exactly one of the flags (`g2` rooks, `g3` knights,
/// `g4` bishops, `g5` queens); occupancy is unchanged and the half-board
/// stays well formed.
pub proof fn lemma_board_promote(
    p1: u64, p2: u64, p3: u64, p4: u64, p5: u64, p6: u64, oo: u64, t: u64,
    g2: bool, g3: bool, g4: bool, g5: bool,
)
    by (bit_vector)
    requires
        t < 64,
        oo == p1 | p2 | p3 | p4 | p5 | p6,
        p1 & p2 == 0, p1 & p3 == 0, p1 & p4 == 0, p1 & p5 == 0, p1 & p6 == 0,
        p2 & p3 == 0, p2 & p4 == 0, p2 & p5 == 0, p2 & p6 == 0,
        p3 & p4 == 0, p3 & p5 == 0, p3 & p6 == 0,
        p4 & p5 == 0, p4 & p6 == 0,
        p5 & p6 == 0,
        nth_bit(p1, t),
        g2 || g3 || g4 || g5,
        !(g2 && g3), !(g2 && g4), !(g2 && g5), !(g3 && g4), !(g3 && g5), !(g4 && g5),
    ensures
        oo == (p1 & !(1u64 << t)) | (if g2 {
            p2 | (1u64 << t)
        } else {
            p2
        }) | (if g3 {
            p3 | (1u64 << t)
        } else {
            p3
        }) | (if g4 {
            p4 | (1u64 << t)
        } else {
            p4
        }) | (if g5 {
            p5 | (1u64 << t)
        } else {
            p5
        }) | p6,
        (p1 & !(1u64 << t)) & p2 == 0,
        (p1 & !(1u64 << t)) & (p2 | (1u64 << t)) == 0,
        (p1 & !(1u64 << t)) & p3 == 0,
        (p1 & !(1u64 << t)) & (p3 | (1u64 << t)) == 0,
        (p1 & !(1u64 << t)) & p4 == 0,
        (p1 & !(1u64 << t)) & (p4 | (1u64 << t)) == 0,
        (p1 & !(1u64 << t)) & p5 == 0,
        (p1 & !(1u64 << t)) & (p5 | (1u64 << t)) == 0,
        (p1 & !(1u64 << t)) & p6 == 0,
        (p2 | (1u64 << t)) & p3 == 0,
        p2 & (p3 | (1u64 << t)) == 0,
        (p2 | (1u64 << t)) & p4 == 0,
        p2 & (p4 | (1u64 << t)) == 0,
        (p2 | (1u64 << t)) & p5 == 0,
        p2 & (p5 | (1u64 << t)) == 0,
        (p3 | (1u64 << t)) & p4 == 0,
        p3 & (p4 | (1u64 << t)) == 0,
        (p3 | (1u64 << t)) & p5 == 0,
        p3 & (p5 | (1u64 << t)) == 0,
        (p4 | (1u64 << t)) & p5 == 0,
        p4 & (p5 | (1u64 << t)) == 0,
        (p2 | (1u64 << t)) & p6 == 0,
        (p3 | (1u64 << t)) & p6 == 0,
        (p4 | (1u64 << t)) & p6 == 0,
        (p5 | (1u64 << t)) & p6 == 0,
{
}

/// The starting position is well formed.
pub proof fn lemma_initial_board_ok()
    ensures
        board_ok(initial_board()),
{
    assert(0xFFFFu64 == 0xFF00u64 | 0x81u64 | 0x42u64 | 0x24u64 | 0x08u64 | 0x10u64
        && 0xFFFF_0000_0000_0000u64 == 0x00FF_0000_0000_0000u64 | 0x8100_0000_0000_0000u64
            | 0x4200_0000_0000_0000u64 | 0x2400_0000_0000_0000u64 | 0x0800_0000_0000_0000u64
            | 0x1000_0000_0000_0000u64
        && 0xFFFFu64 & 0xFFFF_0000_0000_0000u64 == 0
        && 0xFF00u64 & 0x81u64 == 0 && 0xFF00u64 & 0x42u64 == 0 && 0xFF00u64 & 0x24u64 == 0
        && 0xFF00u64 & 0x08u64 == 0 && 0xFF00u64 & 0x10u64 == 0
        && 0x81u64 & 0x42u64 == 0 && 0x81u64 & 0x24u64 == 0 && 0x81u64 & 0x08u64 == 0
        && 0x81u64 & 0x10u64 == 0
        && 0x42u64 & 0x24u64 == 0 && 0x42u64 & 0x08u64 == 0 && 0x42u64 & 0x10u64 == 0
        && 0x24u64 & 0x08u64 == 0 && 0x24u64 & 0x10u64 == 0
        && 0x08u64 & 0x10u64 == 0
        && 0x00FF_0000_0000_0000u64 & 0x8100_0000_0000_0000u64 == 0
        && 0x00FF_0000_0000_0000u64 & 0x4200_0000_0000_0000u64 == 0
        && 0x00FF_0000_0000_0000u64 & 0x2400_0000_0000_0000u64 == 0
        && 0x00FF_0000_0000_0000u64 & 0x0800_0000_0000_0000u64 == 0
        && 0x00FF_0000_0000_0000u64 & 0x1000_0000_0000_0000u64 == 0
        && 0x8100_0000_0000_0000u64 & 0x4200_0000_0000_0000u64 == 0
        && 0x8100_0000_0000_0000u64 & 0x2400_0000_0000_0000u64 == 0
        && 0x8100_0000_0000_0000u64 & 0x0800_0000_0000_0000u64 == 0
        && 0x8100_0000_0000_0000u64 & 0x1000_0000_0000_0000u64 == 0
        && 0x4200_0000_0000_0000u64 & 0x2400_0000_0000_0000u64 == 0
        && 0x4200_0000_0000_0000u64 & 0x0800_0000_0000_0000u64 == 0
        && 0x4200_0000_0000_0000u64 & 0x1000_0000_0000_0000u64 == 0
        && 0x2400_0000_0000_0000u64 & 0x0800_0000_0000_0000u64 == 0
        && 0x2400_0000_0000_0000u64 & 0x1000_0000_0000_0000u64 == 0
        && 0x0800_0000_0000_0000u64 & 0x1000_0000_0000_0000u64 == 0) by (bit_vector);
}

} // verus!
