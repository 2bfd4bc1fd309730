//! Playing a game: selecting squares, making moves with their side effects,
//! promoting pawns and noticing checkmate.
//!
//! Every operation either commits a complete transition or leaves the state
//! exactly as it found it.

use vstd::prelude::*;
use crate::board::{
    in_bounds, magnitude, moved, on_board, piece_kind, placed, same_side, sq, BoardError,
    PieceKind,
};
use crate::rules::{
    checkmated, in_check, is_checkmate, is_king_in_check, is_valid_move, own_piece, valid_move,
};
use crate::state::ChessGameState;

verus! {

/// What became of an attempted move or promotion.
#[derive(Debug, Clone, Copy, PartialEq, Eq, Structural)]
pub enum MoveOutcome {
    /// Nothing was played and the state is as it was.
    Rejected,
    /// The move was played and the turn passed to the other side.
    Played,
    /// A pawn stands on the far rank; the turn passes once a piece is chosen for it.
    PromotionPending,
}

/// What a click on a square did.
#[derive(Debug, Clone, Copy, PartialEq, Eq, Structural)]
pub enum ClickOutcome {
    /// The click meant nothing in the current state.
    Ignored,
    /// The clicked square became the selected square.
    Selected,
    /// The click named a destination for the selected piece.
    Moved(MoveOutcome),
}

/// Whether the game goes on.
#[derive(Debug, Clone, Copy, PartialEq, Eq, Structural)]
pub enum GameStatus {
    Playing,
    Checkmate,
    Exit,
}

/// The piece is a king and the move shifts it two columns: a castling move.
pub open spec fn is_castling(piece: int, sc: int, ec: int) -> bool {
    magnitude(piece) == 6 && magnitude(ec - sc) == 2
}

/// The piece is a pawn that changes column and lands on an empty square: a
/// capture en passant.
pub open spec fn is_en_passant(b: [[i32; 8]; 8], piece: int, sc: int, er: int, ec: int) -> bool {
    magnitude(piece) == 1 && ec != sc && sq(b, er, ec) == 0
}

/// The piece is a pawn that advances two rows.
pub open spec fn is_double_step(piece: int, sr: int, er: int) -> bool {
    magnitude(piece) == 1 && magnitude(er - sr) == 2
}

/// The piece is a pawn and the destination row is a back rank.
pub open spec fn is_promotion(piece: int, er: int) -> bool {
    magnitude(piece) == 1 && (er == 0 || er == 7)
}

/// The board once the rook that goes with a castling king has been brought
/// over: from column 7 to column 5 on the king's wing, from column 0 to
/// column 3 on the queen's. Other moves leave the board as it is.
pub open spec fn rook_brought_over(b: [[i32; 8]; 8], piece: int, sc: int, er: int, ec: int) -> [
    [i32; 8]; 8
] {
    if is_castling(piece, sc, ec) {
        if ec > sc {
            placed(placed(b, er, 5, b[er][7]), er, 7, 0)
        } else {
            placed(placed(b, er, 3, b[er][0]), er, 0, 0)
        }
    } else {
        b
    }
}

/// The board after the piece on `(sr, sc)` has moved to `(er, ec)` with the
/// side effects that belong to the move: a castling king brings its rook
/// over, a pawn capturing en passant removes the pawn beside it (source row,
/// destination column), and the piece itself leaves the source for the
/// destination.
pub open spec fn board_after(b: [[i32; 8]; 8], sr: int, sc: int, er: int, ec: int) -> [[i32; 8]; 8] {
    let piece = b[sr][sc];
    let castled = rook_brought_over(b, piece as int, sc, er, ec);
    let captured = if is_en_passant(castled, piece as int, sc, er, ec) {
        placed(castled, sr, ec, 0)
    } else {
        castled
    };
    moved(captured, piece, sr, sc, er, ec)
}

/// Brings the rook over when the piece is a king moving two columns.
fn bring_rook_over(board: &[[i32; 8]; 8], piece: i32, start_col: i32, end_row: i32, end_col: i32) -> (out:
    [[i32; 8]; 8])
    requires
        0 <= start_col < 8,
        on_board(end_row as int, end_col as int),
    ensures
        out == rook_brought_over(
            *board,
            piece as int,
            start_col as int,
            end_row as int,
            end_col as int,
        ),
{
    let row: usize = end_row as usize;
    let col_diff: i32 = end_col - start_col;
    let mut out: [[i32; 8]; 8] = *board;
    if (piece == 6 || piece == -6) && (col_diff == 2 || col_diff == -2) {
        if col_diff > 0 {
            let rook: i32 = out[row][7];
            out[row][5] = rook;
            out[row][7] = 0;
        } else {
            let rook: i32 = out[row][0];
            out[row][3] = rook;
            out[row][0] = 0;
        }
    }
    out
}

/// Moves the piece on the start square to the end square with the side
/// effects of castling and of capturing en passant.
pub fn play_on_board(
    board: &[[i32; 8]; 8],
    start_row: i32,
    start_col: i32,
    end_row: i32,
    end_col: i32,
) -> (out: [[i32; 8]; 8])
    requires
        on_board(start_row as int, start_col as int),
        on_board(end_row as int, end_col as int),
    ensures
        out == board_after(
            *board,
            start_row as int,
            start_col as int,
            end_row as int,
            end_col as int,
        ),
{
    let piece: i32 = board[start_row as usize][start_col as usize];
    let mut out: [[i32; 8]; 8] = bring_rook_over(board, piece, start_col, end_row, end_col);
    if (piece == 1 || piece == -1) && end_col != start_col && out[end_row as usize][end_col as usize]
        == 0 {
        out[start_row as usize][end_col as usize] = 0;
    }
    out[end_row as usize][end_col as usize] = piece;
    out[start_row as usize][start_col as usize] = 0;
    out
}

impl ChessGameState {
    /// The move from `(sr, sc)` to `(er, ec)` is open to the side to move: no
    /// promotion is pending, the source holds one of its pieces, and the move
    /// is legal with the mover's king kept out of check.
    pub open spec fn may_play(&self, sr: int, sc: int, er: int, ec: int) -> bool {
        &&& !self.promotion_pending
        &&& on_board(sr, sc)
        &&& on_board(er, ec)
        &&& own_piece(sq(self.board, sr, sc), self.is_white_turn)
        &&& valid_move(self.board, self.rights(), self.board[sr][sc], sr, sc, er, ec, true)
    }

    /// The state after the move's effects on the board and on the bookkeeping,
    /// before the turn passes.
    ///
    /// The en-passant target becomes the square a pawn has just stepped over,
    /// or is cleared by any other move. A king that moves raises its colour's
    /// king flag; a rook that leaves column 0 or column 7 raises its colour's
    /// flag for that wing. No flag is ever lowered.
    pub open spec fn with_move_applied(&self, sr: int, sc: int, er: int, ec: int) -> ChessGameState {
        let piece = self.board[sr][sc];
        let white = piece > 0;
        let king = magnitude(piece as int) == 6;
        let rook = magnitude(piece as int) == 4;
        let double = is_double_step(piece as int, sr, er);
        ChessGameState {
            board: board_after(self.board, sr, sc, er, ec),
            en_passant_target_row: if double {
                ((er + sr) / 2) as i32
            } else {
                (-1) as i32
            },
            en_passant_target_col: if double {
                ec as i32
            } else {
                (-1) as i32
            },
            white_king_moved: self.white_king_moved || (king && white),
            white_rook_kingside_moved: self.white_rook_kingside_moved || (rook && white && sc == 7),
            white_rook_queenside_moved: self.white_rook_queenside_moved || (rook && white && sc
                == 0),
            black_king_moved: self.black_king_moved || (king && !white),
            black_rook_kingside_moved: self.black_rook_kingside_moved || (rook && !white && sc
                == 7),
            black_rook_queenside_moved: self.black_rook_queenside_moved || (rook && !white && sc
                == 0),
            ..*self
        }
    }

    /// The state once the turn has passed: the other side is to move, and the
    /// game is over if that side is checkmated (or was over already).
    pub open spec fn with_turn_passed(&self) -> ChessGameState {
        ChessGameState {
            is_white_turn: !self.is_white_turn,
            game_over: self.game_over || checkmated(
                self.board,
                self.rights(),
                !self.is_white_turn,
            ),
            ..*self
        }
    }

    /// The state in which the pawn that has just arrived on `(er, ec)` awaits
    /// the player's choice.
    pub open spec fn with_promotion_pending(&self, er: int, ec: int) -> ChessGameState {
        ChessGameState {
            promotion_pending: true,
            promotion_row: er as i32,
            promotion_col: ec as i32,
            is_white_promoting: self.is_white_turn,
            ..*self
        }
    }

    /// What `make_move` returns and leaves behind.
    ///
    /// A move that is not open to the side to move is rejected. A pawn that
    /// reaches a back rank is moved and left awaiting promotion, the turn not
    /// yet passed. Any other move is played in full and the turn passes,
    /// unless the position it leads to has the mover's king attacked, in which
    /// case it is rejected. A rejected move changes nothing.
    pub open spec fn move_result(&self, sr: int, sc: int, er: int, ec: int) -> (
        MoveOutcome,
        ChessGameState,
    ) {
        let applied = self.with_move_applied(sr, sc, er, ec);
        if !self.may_play(sr, sc, er, ec) {
            (MoveOutcome::Rejected, *self)
        } else if is_promotion(self.board[sr][sc] as int, er) {
            (MoveOutcome::PromotionPending, applied.with_promotion_pending(er, ec))
        } else if in_check(applied.board, applied.rights(), self.is_white_turn) {
            (MoveOutcome::Rejected, *self)
        } else {
            (MoveOutcome::Played, applied.with_turn_passed())
        }
    }

    /// Nothing is selected.
    pub open spec fn with_selection_cleared(&self) -> ChessGameState {
        ChessGameState { selected_square_row: (-1) as i32, selected_square_col: (-1) as i32, ..*self }
    }

    /// `(row, col)` is selected.
    pub open spec fn with_selection(&self, row: int, col: int) -> ChessGameState {
        ChessGameState { selected_square_row: row as i32, selected_square_col: col as i32, ..*self }
    }

    /// What `handle_click` returns and leaves behind for a click on a square of
    /// the board.
    ///
    /// While a promotion is pending the board does not react. With nothing
    /// selected, a click on a piece of the side to move selects it. With a
    /// piece selected, a click on another piece of that piece's colour moves
    /// the selection there; a click anywhere else attempts the move from the
    /// selected square and clears the selection.
    pub open spec fn click_result(&self, row: int, col: int) -> (ClickOutcome, ChessGameState) {
        let target = sq(self.board, row, col);
        let src_r = self.selected_square_row as int;
        let src_c = self.selected_square_col as int;
        if self.promotion_pending {
            (ClickOutcome::Ignored, *self)
        } else if !self.has_selection() {
            if own_piece(target, self.is_white_turn) {
                (ClickOutcome::Selected, self.with_selection(row, col))
            } else {
                (ClickOutcome::Ignored, *self)
            }
        } else if same_side(target, sq(self.board, src_r, src_c)) {
            (ClickOutcome::Selected, self.with_selection(row, col))
        } else {
            let (outcome, next) = self.move_result(src_r, src_c, row, col);
            (ClickOutcome::Moved(outcome), next.with_selection_cleared())
        }
    }

    /// The code a pawn of the promoting colour turns into, or `None` when the
    /// kind is not one a pawn may become.
    pub open spec fn promoted_code(&self, kind: PieceKind) -> Option<i32> {
        let m: i32 = match kind {
            PieceKind::Queen => 5,
            PieceKind::Rook => 4,
            PieceKind::Bishop => 3,
            PieceKind::Knight => 2,
            _ => 0,
        };
        if m == 0 {
            None
        } else if self.is_white_promoting {
            Some(m)
        } else {
            Some((-m) as i32)
        }
    }

    /// What `promote` returns and leaves behind when the pending square is on
    /// the board.
    ///
    /// Without a pending promotion, or for a kind a pawn cannot become, the
    /// choice is rejected. A choice that would leave the promoting side's king
    /// attacked keeps the pawn and the promotion pending. Otherwise the pawn
    /// is replaced and the turn passes.
    pub open spec fn promotion_result(&self, kind: PieceKind) -> (MoveOutcome, ChessGameState) {
        if !self.promotion_pending {
            (MoveOutcome::Rejected, *self)
        } else {
            match self.promoted_code(kind) {
                None => (MoveOutcome::Rejected, *self),
                Some(code) => {
                    let promoted = ChessGameState {
                        board: placed(
                            self.board,
                            self.promotion_row as int,
                            self.promotion_col as int,
                            code,
                        ),
                        promotion_pending: false,
                        ..*self
                    };
                    if in_check(promoted.board, promoted.rights(), self.is_white_promoting) {
                        (MoveOutcome::PromotionPending, *self)
                    } else {
                        (MoveOutcome::Played, promoted.with_turn_passed())
                    }
                },
            }
        }
    }

    /// Applies the side effects of moving the piece on the start square to the
    /// end square: the board and the bookkeeping change, the turn does not.
    fn apply_move(&mut self, start_row: i32, start_col: i32, end_row: i32, end_col: i32)
        requires
            on_board(start_row as int, start_col as int),
            on_board(end_row as int, end_col as int),
        ensures
            *final(self) == old(self).with_move_applied(
                start_row as int,
                start_col as int,
                end_row as int,
                end_col as int,
            ),
    {
        let piece: i32 = self.board[start_row as usize][start_col as usize];
        let is_white: bool = piece > 0;
        let kind: Option<PieceKind> = piece_kind(piece);
        let is_king: bool = kind == Some(PieceKind::King);
        let is_rook: bool = kind == Some(PieceKind::Rook);
        let is_pawn: bool = kind == Some(PieceKind::Pawn);
        let row_diff: i32 = end_row - start_row;
        let double_step: bool = is_pawn && (row_diff == 2 || row_diff == -2);
        let next = ChessGameState {
            board: play_on_board(&self.board, start_row, start_col, end_row, end_col),
            selected_square_row: self.selected_square_row,
            selected_square_col: self.selected_square_col,
            is_white_turn: self.is_white_turn,
            en_passant_target_row: if double_step {
                (end_row + start_row) / 2
            } else {
                -1
            },
            en_passant_target_col: if double_step {
                end_col
            } else {
                -1
            },
            white_king_moved: self.white_king_moved || (is_king && is_white),
            white_rook_kingside_moved: self.white_rook_kingside_moved || (is_rook && is_white
                && start_col == 7),
            white_rook_queenside_moved: self.white_rook_queenside_moved || (is_rook && is_white
                && start_col == 0),
            black_king_moved: self.black_king_moved || (is_king && !is_white),
            black_rook_kingside_moved: self.black_rook_kingside_moved || (is_rook && !is_white
                && start_col == 7),
            black_rook_queenside_moved: self.black_rook_queenside_moved || (is_rook && !is_white
                && start_col == 0),
            promotion_row: self.promotion_row,
            promotion_col: self.promotion_col,
            is_white_promoting: self.is_white_promoting,
            game_over: self.game_over,
            promotion_pending: self.promotion_pending,
        };
        *self = next;
    }

    /// Hands the turn to the other side and ends the game if that side is
    /// checkmated.
    fn pass_turn(&mut self)
        ensures
            *final(self) == old(self).with_turn_passed(),
    {
        let next_is_white: bool = !self.is_white_turn;
        let mated: bool = is_checkmate(&self.board, next_is_white, self);
        self.is_white_turn = next_is_white;
        if mated {
            self.game_over = true;
        }
    }

    /// Attempts the move from the start square to the end square for the side
    /// to move.
    ///
    /// Coordinates off the board are an error. Otherwise the outcome and the
    /// state left behind are those of `move_result`; in particular a move that
    /// is played never leaves the mover's king in check.
    pub fn make_move(&mut self, start_row: i32, start_col: i32, end_row: i32, end_col: i32) -> (res:
        Result<MoveOutcome, BoardError>)
        ensures
            !(on_board(start_row as int, start_col as int) && on_board(
                end_row as int,
                end_col as int,
            )) ==> res == Err::<MoveOutcome, BoardError>(BoardError::OutOfRange) && *final(self)
                == *old(self),
            on_board(start_row as int, start_col as int) && on_board(end_row as int, end_col as int)
                ==> res == Ok::<MoveOutcome, BoardError>(
                old(self).move_result(
                    start_row as int,
                    start_col as int,
                    end_row as int,
                    end_col as int,
                ).0,
            ) && *final(self) == old(self).move_result(
                start_row as int,
                start_col as int,
                end_row as int,
                end_col as int,
            ).1,
            res == Ok::<MoveOutcome, BoardError>(MoveOutcome::Played) ==> !in_check(
                final(self).board,
                final(self).rights(),
                old(self).is_white_turn,
            ),
    {
        if !in_bounds(start_row, start_col) || !in_bounds(end_row, end_col) {
            return Err(BoardError::OutOfRange);
        }
        if self.promotion_pending {
            return Ok(MoveOutcome::Rejected);
        }
        let piece: i32 = self.board[start_row as usize][start_col as usize];
        let mover_is_white: bool = self.is_white_turn;
        if !((mover_is_white && piece > 0) || (!mover_is_white && piece < 0)) {
            return Ok(MoveOutcome::Rejected);
        }
        if !is_valid_move(&self.board, piece, start_row, start_col, end_row, end_col, self, true) {
            return Ok(MoveOutcome::Rejected);
        }
        let mut next: ChessGameState = *self;
        next.apply_move(start_row, start_col, end_row, end_col);
        if (piece == 1 || piece == -1) && (end_row == 0 || end_row == 7) {
            next.promotion_pending = true;
            next.promotion_row = end_row;
            next.promotion_col = end_col;
            next.is_white_promoting = mover_is_white;
            *self = next;
            return Ok(MoveOutcome::PromotionPending);
        }
        if is_king_in_check(&next.board, mover_is_white, &next) {
            return Ok(MoveOutcome::Rejected);
        }
        next.pass_turn();
        *self = next;
        Ok(MoveOutcome::Played)
    }

    /// Reacts to a click on the square `(row, col)`.
    ///
    /// Coordinates off the board are an error. Otherwise the outcome and the
    /// state left behind are those of `click_result`.
    pub fn handle_click(&mut self, row: i32, col: i32) -> (res: Result<ClickOutcome, BoardError>)
        ensures
            !on_board(row as int, col as int) ==> res == Err::<ClickOutcome, BoardError>(
                BoardError::OutOfRange,
            ) && *final(self) == *old(self),
            on_board(row as int, col as int) ==> res == Ok::<ClickOutcome, BoardError>(
                old(self).click_result(row as int, col as int).0,
            ) && *final(self) == old(self).click_result(row as int, col as int).1,
    {
        if !in_bounds(row, col) {
            return Err(BoardError::OutOfRange);
        }
        if self.promotion_pending {
            return Ok(ClickOutcome::Ignored);
        }
        let target: i32 = self.board[row as usize][col as usize];
        if !in_bounds(self.selected_square_row, self.selected_square_col) {
            if (self.is_white_turn && target > 0) || (!self.is_white_turn && target < 0) {
                self.selected_square_row = row;
                self.selected_square_col = col;
                return Ok(ClickOutcome::Selected);
            }
            return Ok(ClickOutcome::Ignored);
        }
        let src_row: i32 = self.selected_square_row;
        let src_col: i32 = self.selected_square_col;
        let source: i32 = self.board[src_row as usize][src_col as usize];
        if (target > 0 && source > 0) || (target < 0 && source < 0) {
            self.selected_square_row = row;
            self.selected_square_col = col;
            return Ok(ClickOutcome::Selected);
        }
        let outcome = match self.make_move(src_row, src_col, row, col) {
            Ok(outcome) => outcome,
            Err(e) => {
                return Err(e);
            },
        };
        self.selected_square_row = -1;
        self.selected_square_col = -1;
        Ok(ClickOutcome::Moved(outcome))
    }

    /// Replaces the pawn awaiting promotion by a piece of the chosen kind.
    ///
    /// With a promotion pending on a square off the board the call is an error.
    /// Otherwise the outcome and the state left behind are those of
    /// `promotion_result`; in particular an accepted promotion never leaves
    /// the promoting side's king in check.
    pub fn promote(&mut self, kind: PieceKind) -> (res: Result<MoveOutcome, BoardError>)
        ensures
            old(self).promotion_pending && old(self).promoted_code(kind) is Some && !on_board(
                old(self).promotion_row as int,
                old(self).promotion_col as int,
            ) ==> res == Err::<MoveOutcome, BoardError>(BoardError::OutOfRange) && *final(self)
                == *old(self),
            !(old(self).promotion_pending && old(self).promoted_code(kind) is Some) || on_board(
                old(self).promotion_row as int,
                old(self).promotion_col as int,
            ) ==> res == Ok::<MoveOutcome, BoardError>(old(self).promotion_result(kind).0)
                && *final(self) == old(self).promotion_result(kind).1,
            res == Ok::<MoveOutcome, BoardError>(MoveOutcome::Played) ==> !in_check(
                final(self).board,
                final(self).rights(),
                old(self).is_white_promoting,
            ),
    {
        if !self.promotion_pending {
            return Ok(MoveOutcome::Rejected);
        }
        let rank: i32 = match kind {
            PieceKind::Queen => 5,
            PieceKind::Rook => 4,
            PieceKind::Bishop => 3,
            PieceKind::Knight => 2,
            _ => {
                return Ok(MoveOutcome::Rejected);
            },
        };
        let code: i32 = if self.is_white_promoting {
            rank
        } else {
            -rank
        };
        if !in_bounds(self.promotion_row, self.promotion_col) {
            return Err(BoardError::OutOfRange);
        }
        let mut next: ChessGameState = *self;
        let mut board: [[i32; 8]; 8] = self.board;
        board[self.promotion_row as usize][self.promotion_col as usize] = code;
        next.board = board;
        next.promotion_pending = false;
        if is_king_in_check(&next.board, self.is_white_promoting, &next) {
            return Ok(MoveOutcome::PromotionPending);
        }
        next.pass_turn();
        *self = next;
        Ok(MoveOutcome::Played)
    }

    /// Looks for checkmate of the side to move. When it is found the game is
    /// marked as over and `Checkmate` is returned; otherwise the state is
    /// untouched and the game goes on.
    pub fn update_status(&mut self) -> (status: GameStatus)
        ensures
            checkmated(old(self).board, old(self).rights(), old(self).is_white_turn) ==> status
                == GameStatus::Checkmate && *final(self) == (ChessGameState {
                game_over: true,
                ..*old(self)
            }),
            !checkmated(old(self).board, old(self).rights(), old(self).is_white_turn) ==> status
                == GameStatus::Playing && *final(self) == *old(self),
    {
        if is_checkmate(&self.board, self.is_white_turn, self) {
            self.game_over = true;
            GameStatus::Checkmate
        } else {
            GameStatus::Playing
        }
    }
}

} // verus!
