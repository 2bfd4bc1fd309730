//! The state of one game: the board and the bookkeeping the rules depend on.

use vstd::prelude::*;
use crate::board::{initial_board, is_initial_position, on_board};

verus! {

/// Everything a game in progress consists of.
///
/// The board, the side to move, the en-passant target and the six "has moved"
/// flags are the rules state. The selected square is a cursor kept for the user
/// interface. The promotion fields describe the sub-state a game is in between
/// a pawn reaching the far rank and the player naming the piece it becomes.
#[derive(Debug, Clone, Copy, PartialEq, Eq)]
pub struct ChessGameState {
    /// Piece codes, row-major; row 0 is black's back rank.
    pub board: [[i32; 8]; 8],
    /// Row of the selected square, or -1 when nothing is selected.
    pub selected_square_row: i32,
    /// Column of the selected square, or -1 when nothing is selected.
    pub selected_square_col: i32,
    /// White is the side to move.
    pub is_white_turn: bool,
    /// Row of the square a pawn may capture onto en passant, or -1.
    pub en_passant_target_row: i32,
    /// Column of the square a pawn may capture onto en passant, or -1.
    pub en_passant_target_col: i32,
    pub white_king_moved: bool,
    pub white_rook_kingside_moved: bool,
    pub white_rook_queenside_moved: bool,
    pub black_king_moved: bool,
    pub black_rook_kingside_moved: bool,
    pub black_rook_queenside_moved: bool,
    /// Row of the pawn awaiting promotion, meaningful while `promotion_pending`.
    pub promotion_row: i32,
    /// Column of the pawn awaiting promotion, meaningful while `promotion_pending`.
    pub promotion_col: i32,
    /// Colour of the pawn awaiting promotion, meaningful while `promotion_pending`.
    pub is_white_promoting: bool,
    /// Checkmate has been detected for the side to move.
    pub game_over: bool,
    /// A pawn stands on the far rank and the player has not yet chosen what it becomes.
    pub promotion_pending: bool,
}

/// What the rules read besides the board: the en-passant target and, for each
/// colour, whether the king and each rook has ever moved.
pub struct Rights {
    pub en_passant_row: int,
    pub en_passant_col: int,
    pub white_king_moved: bool,
    pub white_rook_kingside_moved: bool,
    pub white_rook_queenside_moved: bool,
    pub black_king_moved: bool,
    pub black_rook_kingside_moved: bool,
    pub black_rook_queenside_moved: bool,
}

impl Rights {
    /// The king of the given colour has moved.
    pub open spec fn king_moved(self, white: bool) -> bool {
        if white {
            self.white_king_moved
        } else {
            self.black_king_moved
        }
    }

    /// The rook of the given colour on the given wing has moved.
    pub open spec fn rook_moved(self, white: bool, kingside: bool) -> bool {
        if white {
            if kingside {
                self.white_rook_kingside_moved
            } else {
                self.white_rook_queenside_moved
            }
        } else {
            if kingside {
                self.black_rook_kingside_moved
            } else {
                self.black_rook_queenside_moved
            }
        }
    }

    /// Every flag that is raised in `self` is raised in `later`.
    pub open spec fn flags_kept_by(self, later: Rights) -> bool {
        &&& self.white_king_moved ==> later.white_king_moved
        &&& self.white_rook_kingside_moved ==> later.white_rook_kingside_moved
        &&& self.white_rook_queenside_moved ==> later.white_rook_queenside_moved
        &&& self.black_king_moved ==> later.black_king_moved
        &&& self.black_rook_kingside_moved ==> later.black_rook_kingside_moved
        &&& self.black_rook_queenside_moved ==> later.black_rook_queenside_moved
    }
}

impl ChessGameState {
    /// The part of the state the rules read besides the board.
    pub open spec fn rights(&self) -> Rights {
        Rights {
            en_passant_row: self.en_passant_target_row as int,
            en_passant_col: self.en_passant_target_col as int,
            white_king_moved: self.white_king_moved,
            white_rook_kingside_moved: self.white_rook_kingside_moved,
            white_rook_queenside_moved: self.white_rook_queenside_moved,
            black_king_moved: self.black_king_moved,
            black_rook_kingside_moved: self.black_rook_kingside_moved,
            black_rook_queenside_moved: self.black_rook_queenside_moved,
        }
    }

    /// A square of the board is selected.
    pub open spec fn has_selection(&self) -> bool {
        on_board(self.selected_square_row as int, self.selected_square_col as int)
    }

    /// The state every game starts from: the standard position, white to move,
    /// nothing selected, no en-passant target, nothing moved, no promotion
    /// pending and the game not over.
    pub open spec fn is_fresh(&self) -> bool {
        &&& is_initial_position(self.board)
        &&& self.selected_square_row == -1
        &&& self.selected_square_col == -1
        &&& self.is_white_turn
        &&& self.en_passant_target_row == -1
        &&& self.en_passant_target_col == -1
        &&& !self.white_king_moved
        &&& !self.white_rook_kingside_moved
        &&& !self.white_rook_queenside_moved
        &&& !self.black_king_moved
        &&& !self.black_rook_kingside_moved
        &&& !self.black_rook_queenside_moved
        &&& self.promotion_row == 0
        &&& self.promotion_col == 0
        &&& !self.is_white_promoting
        &&& !self.game_over
        &&& !self.promotion_pending
    }

    /// Starts a new game.
    pub fn new() -> (s: ChessGameState)
        ensures
            s.is_fresh(),
    {
        ChessGameState {
            board: initial_board(),
            selected_square_row: -1,
            selected_square_col: -1,
            is_white_turn: true,
            en_passant_target_row: -1,
            en_passant_target_col: -1,
            white_king_moved: false,
            white_rook_kingside_moved: false,
            white_rook_queenside_moved: false,
            black_king_moved: false,
            black_rook_kingside_moved: false,
            black_rook_queenside_moved: false,
            promotion_row: 0,
            promotion_col: 0,
            is_white_promoting: false,
            game_over: false,
            promotion_pending: false,
        }
    }

    /// Abandons the game in progress and starts a new one.
    pub fn reset(&mut self)
        ensures
            final(self).is_fresh(),
    {
        *self = ChessGameState::new();
    }
}

impl Default for ChessGameState {
    fn default() -> (s: ChessGameState)
        ensures
            s.is_fresh(),
    {
        ChessGameState::new()
    }
}

} // verus!
