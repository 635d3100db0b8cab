//! The full state of one game: piece placement, castling rights, the
//! en-passant target mask, and the side to move — plus a bounded history
//! of earlier states.

use vstd::prelude::*;

use crate::bitboards::{board_ok, initial_board, occupied, Board};
use crate::bits::nth_bit;

verus! {

pub const MAX_GAME_MOVES: usize = 200;

#[derive(Clone, Copy, PartialEq, Eq, Structural, Debug)]
pub enum Color {
    White,
    Black,
}

pub open spec fn opposite_color(c: Color) -> Color {
    match c {
        Color::White => Color::Black,
        Color::Black => Color::White,
    }
}

impl Color {
    pub fn opposite(self) -> (r: Color)
        ensures
            r == opposite_color(self),
    {
        match self {
            Color::White => Color::Black,
            Color::Black => Color::White,
        }
    }
}

#[derive(Clone, Copy, PartialEq, Eq, Structural, Debug)]
pub struct GameState {
    pub board: Board,
    pub white_can_castle_kingside: bool,
    pub white_can_castle_queenside: bool,
    pub black_can_castle_kingside: bool,
    pub black_can_castle_queenside: bool,
    pub en_passant_mask: u64,
    pub side_to_move: Color,
}

pub open spec fn initial_state() -> GameState {
    GameState {
        board: initial_board(),
        white_can_castle_kingside: true,
        white_can_castle_queenside: true,
        black_can_castle_kingside: true,
        black_can_castle_queenside: true,
        en_passant_mask: 0,
        side_to_move: Color::White,
    }
}

/// Squares occupied by `side`'s own pieces.
pub open spec fn own_occupied(b: Board, side: Color) -> u64 {
    match side {
        Color::White => b.white_occupied,
        Color::Black => b.black_occupied,
    }
}

/// Squares occupied by the opponent of `side`.
pub open spec fn opponent_occupied(b: Board, side: Color) -> u64 {
    match side {
        Color::White => b.black_occupied,
        Color::Black => b.white_occupied,
    }
}

/// The en-passant mask is empty, or holds the single square that the
/// opponent's pawn passed over on its immediately preceding two-square
/// advance: an empty square on the proper rank, with that pawn still
/// standing right behind it.
pub open spec fn ep_ok(s: GameState) -> bool {
    s.en_passant_mask == 0 || exists|sq: u64|
        {
            &&& sq < 64
            &&& s.en_passant_mask == #[trigger] (1u64 << sq)
            &&& !nth_bit(occupied(s.board), sq)
            &&& match s.side_to_move {
                Color::White => 40 <= sq < 48 && nth_bit(s.board.black_pawns, (sq - 8) as u64),
                Color::Black => 16 <= sq < 24 && nth_bit(s.board.white_pawns, (sq + 8) as u64),
            }
        }
}

/// A still-valid castling right implies that the king and the matching
/// rook are still on their original squares.
pub open spec fn castling_rights_ok(s: GameState) -> bool {
    &&& s.white_can_castle_kingside ==> nth_bit(s.board.white_king, 4) && nth_bit(
        s.board.white_rooks,
        7,
    )
    &&& s.white_can_castle_queenside ==> nth_bit(s.board.white_king, 4) && nth_bit(
        s.board.white_rooks,
        0,
    )
    &&& s.black_can_castle_kingside ==> nth_bit(s.board.black_king, 60) && nth_bit(
        s.board.black_rooks,
        63,
    )
    &&& s.black_can_castle_queenside ==> nth_bit(s.board.black_king, 60) && nth_bit(
        s.board.black_rooks,
        56,
    )
}

/// Well-formedness of a whole game state.
pub open spec fn state_ok(s: GameState) -> bool {
    &&& board_ok(s.board)
    &&& ep_ok(s)
    &&& castling_rights_ok(s)
}

impl GameState {
    pub fn new() -> (r: GameState)
        ensures
            r == initial_state(),
    {
        GameState {
            board: Board::new(),
            white_can_castle_kingside: true,
            white_can_castle_queenside: true,
            black_can_castle_kingside: true,
            black_can_castle_queenside: true,
            en_passant_mask: 0,
            side_to_move: Color::White,
        }
    }

    pub fn reset(&mut self)
        ensures
            *final(self) == initial_state(),
    {
        *self = GameState::new();
    }
}

/// The starting state is well formed.
pub proof fn lemma_initial_state_ok()
    ensures
        state_ok(initial_state()),
{
    crate::bitboards::lemma_initial_board_ok();
    assert((0x10u64 >> 4u64) & 1 == 1 && (0x81u64 >> 7u64) & 1 == 1 && (0x81u64 >> 0u64) & 1 == 1
        && (0x1000_0000_0000_0000u64 >> 60u64) & 1 == 1
        && (0x8100_0000_0000_0000u64 >> 63u64) & 1 == 1
        && (0x8100_0000_0000_0000u64 >> 56u64) & 1 == 1) by (bit_vector);
}

/// A bounded stack of earlier game states, newest last.
pub struct History {
    list: Vec<GameState>,
}

impl View for History {
    type V = Seq<GameState>;

    closed spec fn view(&self) -> Seq<GameState> {
        self.list@
    }
}

impl History {
    pub fn new() -> (r: History)
        ensures
            r@ == Seq::<GameState>::empty(),
    {
        History { list: Vec::new() }
    }

    /// Record one more state. Room must be left: running out of recorded
    /// game length is a configuration error that callers surface
    /// separately, never an ordinary rejected move.
    pub fn push(&mut self, g: GameState)
        requires
            old(self)@.len() < MAX_GAME_MOVES,
        ensures
            final(self)@ == old(self)@.push(g),
    {
        self.list.push(g);
    }

    /// Remove and return the most recent state, if any.
    pub fn pop(&mut self) -> (r: Option<GameState>)
        ensures
            old(self)@.len() == 0 ==> r is None && final(self)@ == old(self)@,
            old(self)@.len() > 0 ==> r == Some(old(self)@.last()) && final(self)@ == old(
                self,
            )@.drop_last(),
    {
        self.list.pop()
    }

    pub fn get_ref(&self, index: usize) -> (r: &GameState)
        requires
            index < self@.len(),
        ensures
            *r == self@[index as int],
    {
        &self.list[index]
    }

    pub fn len(&self) -> (n: usize)
        ensures
            n == self@.len(),
    {
        self.list.len()
    }

    pub fn clear(&mut self)
        ensures
            final(self)@ == Seq::<GameState>::empty(),
    {
        self.list = Vec::new();
    }
}

} // verus!
