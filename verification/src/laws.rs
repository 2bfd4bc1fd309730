//! Properties of the rules that hold for every board and every state.

use vstd::prelude::*;
use crate::board::{kind_of, lemma_placed_reads, moved, on_board, sq, PieceKind};
use crate::play::{is_double_step, is_promotion, rook_brought_over, MoveOutcome};
use crate::rules::{
    castle_land_col, castle_pass_col, castle_path_empty, castle_shape, castling_allowed,
    checkmated, escapes, in_check, king_at, own_piece, valid_move,
};
use crate::state::{ChessGameState, Rights};

verus! {

/// A validated move never leaves the mover's king attacked on the board on
/// which it was examined.
pub proof fn law_validated_move_keeps_king_safe(
    b: [[i32; 8]; 8],
    rights: Rights,
    piece: i32,
    sr: int,
    sc: int,
    er: int,
    ec: int,
)
    requires
        valid_move(b, rights, piece, sr, sc, er, ec, true),
    ensures
        !in_check(moved(b, piece, sr, sc, er, ec), rights, piece > 0),
        valid_move(b, rights, piece, sr, sc, er, ec, false),
{
}

/// A king never ends a turn in check: when a move is played, the king of the
/// side that moved is not attacked in the state the move leaves behind.
pub proof fn law_king_safe_after_move(s: ChessGameState, sr: int, sc: int, er: int, ec: int)
    requires
        s.move_result(sr, sc, er, ec).0 == MoveOutcome::Played,
    ensures
        !in_check(
            s.move_result(sr, sc, er, ec).1.board,
            s.move_result(sr, sc, er, ec).1.rights(),
            s.is_white_turn,
        ),
        s.move_result(sr, sc, er, ec).1.is_white_turn != s.is_white_turn,
{
}

/// When a promotion is accepted, the king of the promoting side is not
/// attacked in the state it leaves behind.
pub proof fn law_king_safe_after_promotion(s: ChessGameState, kind: PieceKind)
    requires
        s.promotion_result(kind).0 == MoveOutcome::Played,
    ensures
        !in_check(
            s.promotion_result(kind).1.board,
            s.promotion_result(kind).1.rights(),
            s.is_white_promoting,
        ),
{
}

/// Whatever a move attempt does, it lowers none of the "has moved" flags.
pub proof fn law_flags_never_lowered(s: ChessGameState, sr: int, sc: int, er: int, ec: int)
    ensures
        s.rights().flags_kept_by(s.move_result(sr, sc, er, ec).1.rights()),
{
}

/// A king's move of two columns is refused if the king has moved, if the rook
/// of that wing has moved, if a square between king and rook is occupied, or
/// if the king would be attacked on the square it crosses or on the square it
/// lands on.
pub proof fn law_castling_refused(
    b: [[i32; 8]; 8],
    rights: Rights,
    piece: i32,
    sr: int,
    sc: int,
    er: int,
    ec: int,
    validate_check: bool,
)
    requires
        kind_of(piece as int) == Some(PieceKind::King),
        castle_shape(sr, sc, er, ec),
        ({
            let white = piece > 0;
            let kingside = ec > sc;
            ||| rights.king_moved(white)
            ||| rights.rook_moved(white, kingside)
            ||| !castle_path_empty(b, white, kingside)
            ||| in_check(king_at(b, white, castle_pass_col(kingside)), rights, white)
            ||| in_check(king_at(b, white, castle_land_col(kingside)), rights, white)
        }),
    ensures
        !castling_allowed(b, rights, piece > 0, ec > sc),
        !valid_move(b, rights, piece, sr, sc, er, ec, validate_check),
{
}

/// A pawn may step diagonally onto an empty square only when that square is
/// the en-passant target.
pub proof fn law_en_passant_needs_target(
    b: [[i32; 8]; 8],
    rights: Rights,
    piece: i32,
    sr: int,
    sc: int,
    er: int,
    ec: int,
    validate_check: bool,
)
    requires
        kind_of(piece as int) == Some(PieceKind::Pawn),
        ec != sc,
        sq(b, er, ec) == 0,
        valid_move(b, rights, piece, sr, sc, er, ec, validate_check),
    ensures
        er == rights.en_passant_row,
        ec == rights.en_passant_col,
{
}

/// The en-passant target lasts one ply: a played move sets it to the square a
/// pawn has just stepped over when the move is a pawn's double step, and
/// clears it otherwise, so that no capture en passant is open after any other
/// move.
pub proof fn law_en_passant_target_after_move(s: ChessGameState, sr: int, sc: int, er: int, ec: int)
    requires
        s.move_result(sr, sc, er, ec).0 != MoveOutcome::Rejected,
    ensures
        ({
            let after = s.move_result(sr, sc, er, ec).1;
            if is_double_step(s.board[sr][sc] as int, sr, er) {
                after.en_passant_target_row == (sr + er) / 2 && after.en_passant_target_col == ec
            } else {
                after.en_passant_target_row == -1 && after.en_passant_target_col == -1
                    && forall|piece: i32, r: int, c: int, tr: int, tc: int, vc: bool|
                    kind_of(piece as int) == Some(PieceKind::Pawn) && tc != c && sq(
                        after.board,
                        tr,
                        tc,
                    ) == 0 ==> !#[trigger] valid_move(
                        after.board,
                        after.rights(),
                        piece,
                        r,
                        c,
                        tr,
                        tc,
                        vc,
                    )
            }
        }),
{
}

/// A pawn that reaches a back rank stays a pawn on its destination, with the
/// promotion pending and the turn not passed, until a piece is chosen.
pub proof fn law_promotion_waits(s: ChessGameState, sr: int, sc: int, er: int, ec: int)
    requires
        s.may_play(sr, sc, er, ec),
        is_promotion(s.board[sr][sc] as int, er),
    ensures
        ({
            let (outcome, after) = s.move_result(sr, sc, er, ec);
            &&& outcome == MoveOutcome::PromotionPending
            &&& after.promotion_pending
            &&& after.promotion_row == er
            &&& after.promotion_col == ec
            &&& after.is_white_turn == s.is_white_turn
            &&& sq(after.board, er, ec) == s.board[sr][sc]
        }),
{
    lemma_placed_reads(
        rook_brought_over(s.board, s.board[sr][sc] as int, sc, er, ec),
        sr,
        ec,
        0,
    );
}

/// A choice of piece that would leave the promoting side's king attacked
/// changes nothing: the promotion stays pending and the turn does not pass.
pub proof fn law_refused_promotion_changes_nothing(s: ChessGameState, kind: PieceKind)
    requires
        s.promotion_pending,
        s.promotion_result(kind).0 != MoveOutcome::Played,
    ensures
        s.promotion_result(kind).1 == s,
{
}

/// A side that is not in check is not checkmated, whether or not it has a
/// move: stalemate is not told apart from an ordinary position.
pub proof fn law_no_checkmate_without_check(b: [[i32; 8]; 8], rights: Rights, white: bool)
    requires
        !in_check(b, rights, white),
    ensures
        !checkmated(b, rights, white),
{
}

/// Every validated move of a piece of the given colour is an escape, so a side
/// is checkmated exactly when it is in check and none of its pieces has a
/// validated move.
pub proof fn law_checkmate_is_check_without_moves(b: [[i32; 8]; 8], rights: Rights, white: bool)
    ensures
        checkmated(b, rights, white) <==> (in_check(b, rights, white) && forall|
            sr: int,
            sc: int,
            er: int,
            ec: int,
        |
            on_board(sr, sc) && own_piece(sq(b, sr, sc), white) ==> !#[trigger] valid_move(
                b,
                rights,
                b[sr][sc],
                sr,
                sc,
                er,
                ec,
                true,
            )),
{
    assert forall|sr: int, sc: int, er: int, ec: int|
        escapes(b, rights, white, sr, sc, er, ec) == (on_board(sr, sc) && own_piece(
            sq(b, sr, sc),
            white,
        ) && valid_move(b, rights, b[sr][sc], sr, sc, er, ec, true)) by {
        if on_board(sr, sc) && own_piece(sq(b, sr, sc), white) && valid_move(
            b,
            rights,
            b[sr][sc],
            sr,
            sc,
            er,
            ec,
            true,
        ) {
            assert((b[sr][sc] > 0) == white);
        }
    }
    if in_check(b, rights, white) {
        if checkmated(b, rights, white) {
            assert forall|sr: int, sc: int, er: int, ec: int|
                on_board(sr, sc) && own_piece(sq(b, sr, sc), white) implies !#[trigger] valid_move(
                b,
                rights,
                b[sr][sc],
                sr,
                sc,
                er,
                ec,
                true,
            ) by {
                assert(!escapes(b, rights, white, sr, sc, er, ec));
            }
        }
    }
}

} // verus!
