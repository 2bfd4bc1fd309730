//! Move legality, check and checkmate.
//!
//! Legality comes in two strengths. A *raw* test (`validate_check == false`)
//! asks only whether the piece's movement pattern reaches the destination. A
//! *validated* test additionally plays the move on a scratch board and refuses
//! it when the mover's own king would then be attacked. Attack detection uses
//! the raw test only, which is what keeps the two notions from depending on
//! each other in a circle.

use vstd::prelude::*;
use crate::board::{
    home_row, in_bounds, kind_of, king_code, magnitude, moved, on_board, opposite_side,
    piece_kind, placed, same_side, sq, PieceKind,
};
use crate::state::{ChessGameState, Rights};

verus! {

/// 1 when the square is empty, 0 otherwise.
pub open spec fn vacancy(b: [[i32; 8]; 8], r: int, c: int) -> nat {
    if sq(b, r, c) == 0 {
        1
    } else {
        0
    }
}

/// The number of empty squares among the ten a castling king or rook passes
/// over (columns 1, 2, 3, 5 and 6 of both back ranks).
///
/// Examining a castling move fills one of these squares on a scratch board
/// before looking for attackers, some of which may themselves be castling
/// kings; this count bounds how deep that can nest.
pub open spec fn castle_room(b: [[i32; 8]; 8]) -> nat {
    vacancy(b, 0, 1) + vacancy(b, 0, 2) + vacancy(b, 0, 3) + vacancy(b, 0, 5) + vacancy(b, 0, 6)
        + vacancy(b, 7, 1) + vacancy(b, 7, 2) + vacancy(b, 7, 3) + vacancy(b, 7, 5) + vacancy(
        b,
        7,
        6,
    )
}

/// `i` steps in the direction of `delta`.
pub open spec fn stepped(i: int, delta: int) -> int {
    if delta > 0 {
        i
    } else if delta < 0 {
        -i
    } else {
        0
    }
}

/// The number of steps from source to destination along a rank, file or diagonal.
pub open spec fn reach(sr: int, sc: int, er: int, ec: int) -> int {
    if magnitude(er - sr) >= magnitude(ec - sc) {
        magnitude(er - sr)
    } else {
        magnitude(ec - sc)
    }
}

/// The code on the `i`-th square of the line from the source toward the destination.
pub open spec fn along(b: [[i32; 8]; 8], sr: int, sc: int, er: int, ec: int, i: int) -> int {
    sq(b, sr + stepped(i, er - sr), sc + stepped(i, ec - sc))
}

/// Every square strictly between source and destination is empty.
pub open spec fn line_clear(b: [[i32; 8]; 8], sr: int, sc: int, er: int, ec: int) -> bool {
    forall|i: int| 1 <= i < reach(sr, sc, er, ec) ==> #[trigger] along(b, sr, sc, er, ec, i) == 0
}

/// Source and destination lie on one diagonal.
pub open spec fn diagonal(sr: int, sc: int, er: int, ec: int) -> bool {
    magnitude(er - sr) == magnitude(ec - sc)
}

/// Source and destination lie on one rank or file.
pub open spec fn straight(sr: int, sc: int, er: int, ec: int) -> bool {
    er == sr || ec == sc
}

/// The row toward which a pawn of this colour advances differs from its own by
/// this much: white moves up the board, toward row 0.
pub open spec fn forward(piece: int) -> int {
    if piece > 0 {
        -1
    } else {
        1
    }
}

/// The row from which a pawn of this colour may advance two squares.
pub open spec fn pawn_home_row(piece: int) -> int {
    if piece > 0 {
        6
    } else {
        1
    }
}

/// A pawn's four ways of moving: one step forward onto an empty square; two
/// steps forward from its home row over an empty square onto an empty square;
/// one step diagonally forward onto an enemy piece; one step diagonally
/// forward onto the en-passant target.
pub open spec fn pawn_shape(
    b: [[i32; 8]; 8],
    rights: Rights,
    piece: int,
    sr: int,
    sc: int,
    er: int,
    ec: int,
) -> bool {
    let dr = er - sr;
    let dc = ec - sc;
    ||| dc == 0 && dr == forward(piece) && sq(b, er, ec) == 0
    ||| dc == 0 && dr == 2 * forward(piece) && sr == pawn_home_row(piece) && sq(
        b,
        sr + forward(piece),
        sc,
    ) == 0 && sq(b, er, ec) == 0
    ||| magnitude(dc) == 1 && dr == forward(piece) && opposite_side(sq(b, er, ec), piece)
    ||| magnitude(dc) == 1 && dr == forward(piece) && er == rights.en_passant_row && ec
        == rights.en_passant_col
}

/// A knight's L: two squares one way and one the other.
pub open spec fn knight_shape(sr: int, sc: int, er: int, ec: int) -> bool {
    let dr = magnitude(er - sr);
    let dc = magnitude(ec - sc);
    (dr == 2 && dc == 1) || (dr == 1 && dc == 2)
}

/// At most one square in any direction.
pub open spec fn king_step(sr: int, sc: int, er: int, ec: int) -> bool {
    magnitude(er - sr) <= 1 && magnitude(ec - sc) <= 1
}

/// Exactly two columns along one row: the shape of a castling king's move.
pub open spec fn castle_shape(sr: int, sc: int, er: int, ec: int) -> bool {
    magnitude(ec - sc) == 2 && er == sr
}

/// The scratch position in which castling looks for attackers: the king of the
/// given colour stands on column `col` of its home row and the king's starting
/// square is empty.
pub open spec fn king_at(b: [[i32; 8]; 8], white: bool, col: int) -> [[i32; 8]; 8] {
    placed(
        placed(b, home_row(white), col, if white {
            6i32
        } else {
            (-6) as i32
        }),
        home_row(white),
        4,
        0,
    )
}

/// Every square strictly between the king's and the rook's starting squares is
/// empty: columns 5 and 6 on the king's wing, columns 1 to 3 on the queen's.
pub open spec fn castle_path_empty(b: [[i32; 8]; 8], white: bool, kingside: bool) -> bool {
    if kingside {
        sq(b, home_row(white), 5) == 0 && sq(b, home_row(white), 6) == 0
    } else {
        sq(b, home_row(white), 1) == 0 && sq(b, home_row(white), 2) == 0 && sq(
            b,
            home_row(white),
            3,
        ) == 0
    }
}

/// The column the castling king crosses.
pub open spec fn castle_pass_col(kingside: bool) -> int {
    if kingside {
        5
    } else {
        3
    }
}

/// The column the castling king lands on.
pub open spec fn castle_land_col(kingside: bool) -> int {
    if kingside {
        6
    } else {
        2
    }
}

/// Castling on the given wing is available: neither the king nor that wing's
/// rook has moved, the squares between them are empty, and the king would be
/// attacked neither on the square it crosses nor on the square it lands on.
pub open spec fn castling_allowed(b: [[i32; 8]; 8], rights: Rights, white: bool, kingside: bool) -> bool
    decreases 0nat, castle_room(b), 0nat,
{
    &&& !rights.king_moved(white)
    &&& !rights.rook_moved(white, kingside)
    &&& castle_path_empty(b, white, kingside)
    &&& !in_check(king_at(b, white, castle_pass_col(kingside)), rights, white)
    &&& !in_check(king_at(b, white, castle_land_col(kingside)), rights, white)
}

/// The move of `piece` from `(sr, sc)` to `(er, ec)` is legal on `b`.
///
/// Both squares must be on the board and the destination must not hold a piece
/// of the mover's colour. The move must fit the piece's pattern. With
/// `validate_check` the mover's king must moreover not be attacked on the
/// scratch board `moved(b, piece, sr, sc, er, ec)`.
pub open spec fn valid_move(
    b: [[i32; 8]; 8],
    rights: Rights,
    piece: i32,
    sr: int,
    sc: int,
    er: int,
    ec: int,
    validate_check: bool,
) -> bool
    decreases
            (if validate_check {
                1nat
            } else {
                0nat
            }),
            castle_room(b),
            1nat,
{
    &&& on_board(sr, sc)
    &&& on_board(er, ec)
    &&& !same_side(sq(b, er, ec), piece as int)
    &&& match kind_of(piece as int) {
        Some(PieceKind::Pawn) => pawn_shape(b, rights, piece as int, sr, sc, er, ec),
        Some(PieceKind::Knight) => knight_shape(sr, sc, er, ec),
        Some(PieceKind::Bishop) => diagonal(sr, sc, er, ec) && line_clear(b, sr, sc, er, ec),
        Some(PieceKind::Rook) => straight(sr, sc, er, ec) && line_clear(b, sr, sc, er, ec),
        Some(PieceKind::Queen) => (diagonal(sr, sc, er, ec) || straight(sr, sc, er, ec))
            && line_clear(b, sr, sc, er, ec),
        Some(PieceKind::King) => king_step(sr, sc, er, ec) || (castle_shape(sr, sc, er, ec)
            && castling_allowed(b, rights, piece > 0, ec > sc)),
        None => false,
    }
    &&& (validate_check ==> !in_check(moved(b, piece, sr, sc, er, ec), rights, piece > 0))
}

/// `(i, j)` comes before `(r, c)` when the board is read row by row.
pub open spec fn reads_before(i: int, j: int, r: int, c: int) -> bool {
    i < r || (i == r && j < c)
}

/// `(r, c)` holds the king of the given colour, and no square read earlier does.
pub open spec fn is_king_square(b: [[i32; 8]; 8], white: bool, r: int, c: int) -> bool {
    &&& on_board(r, c)
    &&& sq(b, r, c) == king_code(white)
    &&& forall|i: int, j: int|
        on_board(i, j) && reads_before(i, j, r, c) ==> #[trigger] sq(b, i, j) != king_code(white)
}

/// The piece on `(r, c)` is an enemy of the given colour and has a raw move onto `(kr, kc)`.
pub open spec fn threatens(
    b: [[i32; 8]; 8],
    rights: Rights,
    white: bool,
    r: int,
    c: int,
    kr: int,
    kc: int,
) -> bool {
    &&& on_board(r, c)
    &&& opposite_side(sq(b, r, c), king_code(white))
    &&& valid_move(b, rights, b[r][c], r, c, kr, kc, false)
}

/// The king of the given colour is attacked: some enemy piece has a raw move
/// onto the square of the first such king in reading order. A board without
/// that king is not in check.
pub open spec fn in_check(b: [[i32; 8]; 8], rights: Rights, white: bool) -> bool
    decreases 0nat, castle_room(b), 2nat,
{
    exists|kr: int, kc: int, r: int, c: int|
        #![trigger is_king_square(b, white, kr, kc), sq(b, r, c)]
        is_king_square(b, white, kr, kc) && on_board(r, c) && opposite_side(
            sq(b, r, c),
            king_code(white),
        ) && valid_move(b, rights, b[r][c], r, c, kr, kc, false)
}

/// The code belongs to the given colour.
pub open spec fn own_piece(code: int, white: bool) -> bool {
    if white {
        code > 0
    } else {
        code < 0
    }
}

/// The piece of the given colour on `(sr, sc)` has a validated move to
/// `(er, ec)` after which, on the scratch board, its king is not attacked.
pub open spec fn escapes(
    b: [[i32; 8]; 8],
    rights: Rights,
    white: bool,
    sr: int,
    sc: int,
    er: int,
    ec: int,
) -> bool {
    &&& on_board(sr, sc)
    &&& on_board(er, ec)
    &&& own_piece(sq(b, sr, sc), white)
    &&& valid_move(b, rights, b[sr][sc], sr, sc, er, ec, true)
    &&& !in_check(moved(b, b[sr][sc], sr, sc, er, ec), rights, white)
}

/// The given colour is in check and none of its pieces has a move that escapes.
/// A side that is not in check is never checkmated, whether or not it can move.
pub open spec fn checkmated(b: [[i32; 8]; 8], rights: Rights, white: bool) -> bool {
    &&& in_check(b, rights, white)
    &&& forall|sr: int, sc: int, er: int, ec: int| !#[trigger] escapes(b, rights, white, sr, sc, er, ec)
}

/// Tests a pawn's movement pattern.
fn pawn_moves(
    board: &[[i32; 8]; 8],
    piece: i32,
    start_row: i32,
    start_col: i32,
    end_row: i32,
    end_col: i32,
    game_state: &ChessGameState,
) -> (res: bool)
    requires
        on_board(start_row as int, start_col as int),
        on_board(end_row as int, end_col as int),
        piece == 1 || piece == -1,
    ensures
        res == pawn_shape(
            *board,
            game_state.rights(),
            piece as int,
            start_row as int,
            start_col as int,
            end_row as int,
            end_col as int,
        ),
{
    let direction: i32 = if piece > 0 {
        -1
    } else {
        1
    };
    let home: i32 = if piece > 0 {
        6
    } else {
        1
    };
    let row_diff: i32 = end_row - start_row;
    let col_diff: i32 = end_col - start_col;
    let target: i32 = board[end_row as usize][end_col as usize];
    if col_diff == 0 && row_diff == direction && target == 0 {
        return true;
    }
    if col_diff == 0 && row_diff == 2 * direction && start_row == home && board[(start_row
        + direction) as usize][start_col as usize] == 0 && target == 0 {
        return true;
    }
    let sideways: bool = col_diff == 1 || col_diff == -1;
    if sideways && row_diff == direction && ((target > 0 && piece < 0) || (target < 0 && piece
        > 0)) {
        return true;
    }
    sideways && row_diff == direction && end_row == game_state.en_passant_target_row && end_col
        == game_state.en_passant_target_col
}

/// Tests a knight's movement pattern.
fn knight_moves(start_row: i32, start_col: i32, end_row: i32, end_col: i32) -> (res: bool)
    requires
        on_board(start_row as int, start_col as int),
        on_board(end_row as int, end_col as int),
    ensures
        res == knight_shape(start_row as int, start_col as int, end_row as int, end_col as int),
{
    let row_diff: i32 = end_row - start_row;
    let col_diff: i32 = end_col - start_col;
    ((row_diff == 2 || row_diff == -2) && (col_diff == 1 || col_diff == -1)) || ((row_diff == 1
        || row_diff == -1) && (col_diff == 2 || col_diff == -2))
}

/// Tells whether the two squares share a diagonal.
fn on_diagonal(start_row: i32, start_col: i32, end_row: i32, end_col: i32) -> (res: bool)
    requires
        on_board(start_row as int, start_col as int),
        on_board(end_row as int, end_col as int),
    ensures
        res == diagonal(start_row as int, start_col as int, end_row as int, end_col as int),
{
    let row_diff: i32 = end_row - start_row;
    let col_diff: i32 = end_col - start_col;
    row_diff == col_diff || row_diff == -col_diff
}

/// Walks the squares strictly between source and destination and reports
/// whether all of them are empty.
fn path_is_clear(board: &[[i32; 8]; 8], start_row: i32, start_col: i32, end_row: i32, end_col: i32) -> (res:
    bool)
    requires
        on_board(start_row as int, start_col as int),
        on_board(end_row as int, end_col as int),
        diagonal(start_row as int, start_col as int, end_row as int, end_col as int) || straight(
            start_row as int,
            start_col as int,
            end_row as int,
            end_col as int,
        ),
    ensures
        res == line_clear(
            *board,
            start_row as int,
            start_col as int,
            end_row as int,
            end_col as int,
        ),
{
    let row_diff: i32 = end_row - start_row;
    let col_diff: i32 = end_col - start_col;
    let step_row: i32 = if row_diff > 0 {
        1
    } else if row_diff < 0 {
        -1
    } else {
        0
    };
    let step_col: i32 = if col_diff > 0 {
        1
    } else if col_diff < 0 {
        -1
    } else {
        0
    };
    let rows: i32 = if row_diff < 0 {
        -row_diff
    } else {
        row_diff
    };
    let cols: i32 = if col_diff < 0 {
        -col_diff
    } else {
        col_diff
    };
    let steps: i32 = if rows >= cols {
        rows
    } else {
        cols
    };
    let mut i: i32 = 1;
    let mut row: i32 = start_row + step_row;
    let mut col: i32 = start_col + step_col;
    while i < steps
        invariant
            1 <= i,
            steps == reach(start_row as int, start_col as int, end_row as int, end_col as int),
            0 <= steps < 8,
            on_board(start_row as int, start_col as int),
            on_board(end_row as int, end_col as int),
            row_diff == end_row - start_row,
            col_diff == end_col - start_col,
            row_diff != 0 ==> magnitude(row_diff as int) == steps,
            col_diff != 0 ==> magnitude(col_diff as int) == steps,
            step_row == stepped(1, row_diff as int),
            step_col == stepped(1, col_diff as int),
            row == start_row + stepped(i as int, row_diff as int),
            col == start_col + stepped(i as int, col_diff as int),
            forall|k: int|
                1 <= k < i ==> #[trigger] along(
                    *board,
                    start_row as int,
                    start_col as int,
                    end_row as int,
                    end_col as int,
                    k,
                ) == 0,
        decreases steps - i,
    {
        if board[row as usize][col as usize] != 0 {
            assert(along(
                *board,
                start_row as int,
                start_col as int,
                end_row as int,
                end_col as int,
                i as int,
            ) != 0);
            return false;
        }
        assert(along(
            *board,
            start_row as int,
            start_col as int,
            end_row as int,
            end_col as int,
            i as int,
        ) == 0);
        i = i + 1;
        row = row + step_row;
        col = col + step_col;
    }
    true
}

/// Decides whether `piece` may move from the start square to the end square.
///
/// Squares off the board, a destination held by a piece of the mover's colour,
/// a code that names no piece and a move that does not fit the piece's pattern
/// are all answered with `false`. With `validate_check` a move that would
/// leave the mover's own king attacked is refused as well; attack detection
/// itself calls this function with `validate_check == false`.
pub fn is_valid_move(
    board: &[[i32; 8]; 8],
    piece: i32,
    start_row: i32,
    start_col: i32,
    end_row: i32,
    end_col: i32,
    game_state: &ChessGameState,
    validate_check: bool,
) -> (ok: bool)
    ensures
        ok == valid_move(
            *board,
            game_state.rights(),
            piece,
            start_row as int,
            start_col as int,
            end_row as int,
            end_col as int,
            validate_check,
        ),
    decreases
            (if validate_check {
                1nat
            } else {
                0nat
            }),
            castle_room(*board),
            1nat,
{
    if !in_bounds(end_row, end_col) || !in_bounds(start_row, start_col) {
        return false;
    }
    let target: i32 = board[end_row as usize][end_col as usize];
    if (target > 0 && piece > 0) || (target < 0 && piece < 0) {
        return false;
    }
    let fits: bool = match piece_kind(piece) {
        Some(PieceKind::Pawn) => pawn_moves(
            board,
            piece,
            start_row,
            start_col,
            end_row,
            end_col,
            game_state,
        ),
        Some(PieceKind::Knight) => knight_moves(start_row, start_col, end_row, end_col),
        Some(PieceKind::Bishop) => on_diagonal(start_row, start_col, end_row, end_col)
            && path_is_clear(board, start_row, start_col, end_row, end_col),
        Some(PieceKind::Rook) => (end_row == start_row || end_col == start_col) && path_is_clear(
            board,
            start_row,
            start_col,
            end_row,
            end_col,
        ),
        Some(PieceKind::Queen) => (on_diagonal(start_row, start_col, end_row, end_col) || end_row
            == start_row || end_col == start_col) && path_is_clear(
            board,
            start_row,
            start_col,
            end_row,
            end_col,
        ),
        Some(PieceKind::King) => {
            let row_diff: i32 = end_row - start_row;
            let col_diff: i32 = end_col - start_col;
            if -1 <= row_diff && row_diff <= 1 && -1 <= col_diff && col_diff <= 1 {
                true
            } else if (col_diff == 2 || col_diff == -2) && row_diff == 0 {
                can_castle(board, piece > 0, col_diff > 0, game_state)
            } else {
                false
            }
        },
        None => false,
    };
    if !fits {
        return false;
    }
    if validate_check && would_be_in_check(
        board,
        piece,
        start_row,
        start_col,
        end_row,
        end_col,
        piece > 0,
        game_state,
    ) {
        return false;
    }
    true
}

/// Plays the move on a scratch copy of the board (destination overwritten,
/// source emptied) and reports whether the king of the given colour is then
/// attacked.
pub fn would_be_in_check(
    board: &[[i32; 8]; 8],
    piece: i32,
    start_row: i32,
    start_col: i32,
    end_row: i32,
    end_col: i32,
    is_white: bool,
    game_state: &ChessGameState,
) -> (res: bool)
    requires
        on_board(start_row as int, start_col as int),
        on_board(end_row as int, end_col as int),
    ensures
        res == in_check(
            moved(
                *board,
                piece,
                start_row as int,
                start_col as int,
                end_row as int,
                end_col as int,
            ),
            game_state.rights(),
            is_white,
        ),
    decreases
            0nat,
            castle_room(
                moved(
                    *board,
                    piece,
                    start_row as int,
                    start_col as int,
                    end_row as int,
                    end_col as int,
                ),
            ),
            4nat,
{
    let mut temp_board: [[i32; 8]; 8] = *board;
    temp_board[end_row as usize][end_col as usize] = piece;
    temp_board[start_row as usize][start_col as usize] = 0;
    is_king_in_check(&temp_board, is_white, game_state)
}

/// Decides whether the given colour may castle on the given wing.
///
/// Refused when the king or that wing's rook has moved, when a square between
/// them is occupied, and when the king would be attacked on the square it
/// crosses or on the square it lands on.
pub fn can_castle(
    board: &[[i32; 8]; 8],
    is_white: bool,
    kingside: bool,
    game_state: &ChessGameState,
) -> (res: bool)
    ensures
        res == castling_allowed(*board, game_state.rights(), is_white, kingside),
    decreases 0nat, castle_room(*board), 0nat,
{
    let row: usize = if is_white {
        7
    } else {
        0
    };
    let king: i32 = if is_white {
        6
    } else {
        -6
    };
    if is_white {
        if game_state.white_king_moved {
            return false;
        }
        if kingside && game_state.white_rook_kingside_moved {
            return false;
        }
        if !kingside && game_state.white_rook_queenside_moved {
            return false;
        }
    } else {
        if game_state.black_king_moved {
            return false;
        }
        if kingside && game_state.black_rook_kingside_moved {
            return false;
        }
        if !kingside && game_state.black_rook_queenside_moved {
            return false;
        }
    }
    if kingside {
        if board[row][5] != 0 || board[row][6] != 0 {
            return false;
        }
    } else {
        if board[row][1] != 0 || board[row][2] != 0 || board[row][3] != 0 {
            return false;
        }
    }
    let pass_col: usize = if kingside {
        5
    } else {
        3
    };
    let land_col: usize = if kingside {
        6
    } else {
        2
    };
    let mut crossing: [[i32; 8]; 8] = *board;
    crossing[row][pass_col] = king;
    crossing[row][4] = 0;
    assert(crossing == king_at(*board, is_white, pass_col as int));
    if is_king_in_check(&crossing, is_white, game_state) {
        return false;
    }
    let mut landed: [[i32; 8]; 8] = *board;
    landed[row][land_col] = king;
    landed[row][4] = 0;
    assert(landed == king_at(*board, is_white, land_col as int));
    if is_king_in_check(&landed, is_white, game_state) {
        return false;
    }
    true
}

/// Finds the first square, reading row by row, that holds the king of the
/// given colour.
pub fn find_king(board: &[[i32; 8]; 8], is_white: bool) -> (res: Option<(i32, i32)>)
    ensures
        match res {
            Some((r, c)) => is_king_square(*board, is_white, r as int, c as int),
            None => forall|i: int, j: int|
                on_board(i, j) ==> #[trigger] sq(*board, i, j) != king_code(is_white),
        },
{
    let king_piece: i32 = if is_white {
        6
    } else {
        -6
    };
    let mut row: i32 = 0;
    while row < 8
        invariant
            0 <= row <= 8,
            king_piece == king_code(is_white),
            forall|i: int, j: int|
                0 <= i < row && 0 <= j < 8 ==> #[trigger] sq(*board, i, j) != king_code(is_white),
        decreases 8 - row,
    {
        let mut col: i32 = 0;
        while col < 8
            invariant
                0 <= row < 8,
                0 <= col <= 8,
                king_piece == king_code(is_white),
                forall|i: int, j: int|
                    0 <= i < row && 0 <= j < 8 ==> #[trigger] sq(*board, i, j) != king_code(
                        is_white,
                    ),
                forall|j: int| 0 <= j < col ==> #[trigger] sq(*board, row as int, j) != king_code(is_white),
            decreases 8 - col,
        {
            if board[row as usize][col as usize] == king_piece {
                return Some((row, col));
            }
            col = col + 1;
        }
        row = row + 1;
    }
    None
}

/// Decides whether the king of the given colour is attacked.
///
/// The king is looked for row by row; a board without it is not in check.
/// Every enemy piece is then asked for a raw move onto the king's square.
pub fn is_king_in_check(board: &[[i32; 8]; 8], is_white: bool, game_state: &ChessGameState) -> (res:
    bool)
    ensures
        res == in_check(*board, game_state.rights(), is_white),
    decreases 0nat, castle_room(*board), 2nat,
{
    let (king_row, king_col) = match find_king(board, is_white) {
        Some(found) => found,
        None => {
            return false;
        },
    };
    let ghost rights = game_state.rights();
    let mut row: i32 = 0;
    while row < 8
        invariant
            0 <= row <= 8,
            rights == game_state.rights(),
            is_king_square(*board, is_white, king_row as int, king_col as int),
            forall|i: int, j: int|
                0 <= i < row && 0 <= j < 8 ==> !#[trigger] threatens(
                    *board,
                    rights,
                    is_white,
                    i,
                    j,
                    king_row as int,
                    king_col as int,
                ),
        decreases 8 - row,
    {
        let mut col: i32 = 0;
        while col < 8
            invariant
                0 <= row < 8,
                0 <= col <= 8,
                rights == game_state.rights(),
                is_king_square(*board, is_white, king_row as int, king_col as int),
                forall|i: int, j: int|
                    0 <= i < row && 0 <= j < 8 ==> !#[trigger] threatens(
                        *board,
                        rights,
                        is_white,
                        i,
                        j,
                        king_row as int,
                        king_col as int,
                    ),
                forall|j: int|
                    0 <= j < col ==> !#[trigger] threatens(
                        *board,
                        rights,
                        is_white,
                        row as int,
                        j,
                        king_row as int,
                        king_col as int,
                    ),
            decreases 8 - col,
        {
            let piece: i32 = board[row as usize][col as usize];
            if (piece > 0 && !is_white) || (piece < 0 && is_white) {
                if is_valid_move(
                    board,
                    piece,
                    row,
                    col,
                    king_row,
                    king_col,
                    game_state,
                    false,
                ) {
                    assert(threatens(
                        *board,
                        rights,
                        is_white,
                        row as int,
                        col as int,
                        king_row as int,
                        king_col as int,
                    ));
                    return true;
                }
            }
            col = col + 1;
        }
        row = row + 1;
    }
    assert forall|kr: int, kc: int, r: int, c: int|
        #![trigger is_king_square(*board, is_white, kr, kc), sq(*board, r, c)]
        !(is_king_square(*board, is_white, kr, kc) && threatens(
            *board,
            rights,
            is_white,
            r,
            c,
            kr,
            kc,
        )) by {
        if is_king_square(*board, is_white, kr, kc) {
            lemma_king_square_unique(*board, is_white, kr, kc, king_row as int, king_col as int);
        }
    }
    false
}

/// At most one square is the first to hold the king.
pub proof fn lemma_king_square_unique(
    b: [[i32; 8]; 8],
    white: bool,
    r1: int,
    c1: int,
    r2: int,
    c2: int,
)
    requires
        is_king_square(b, white, r1, c1),
        is_king_square(b, white, r2, c2),
    ensures
        r1 == r2,
        c1 == c2,
{
    if reads_before(r1, c1, r2, c2) {
        assert(sq(b, r1, c1) != king_code(white));
    } else if reads_before(r2, c2, r1, c1) {
        assert(sq(b, r2, c2) != king_code(white));
    }
}

/// Decides whether the given colour is checkmated.
///
/// A side that is not in check is never checkmated. Otherwise every piece of
/// that colour and every destination is tried; the first validated move after
/// which the king is no longer attacked shows that it is not checkmate.
pub fn is_checkmate(board: &[[i32; 8]; 8], is_white: bool, game_state: &ChessGameState) -> (res:
    bool)
    ensures
        res == checkmated(*board, game_state.rights(), is_white),
{
    if !is_king_in_check(board, is_white, game_state) {
        return false;
    }
    let ghost rights = game_state.rights();
    let mut start_row: i32 = 0;
    while start_row < 8
        invariant
            0 <= start_row <= 8,
            rights == game_state.rights(),
            forall|sr: int, sc: int, er: int, ec: int|
                0 <= sr < start_row ==> !#[trigger] escapes(*board, rights, is_white, sr, sc, er, ec),
        decreases 8 - start_row,
    {
        let mut start_col: i32 = 0;
        while start_col < 8
            invariant
                0 <= start_row < 8,
                0 <= start_col <= 8,
                rights == game_state.rights(),
                forall|sr: int, sc: int, er: int, ec: int|
                    0 <= sr < start_row ==> !#[trigger] escapes(
                        *board,
                        rights,
                        is_white,
                        sr,
                        sc,
                        er,
                        ec,
                    ),
                forall|sc: int, er: int, ec: int|
                    0 <= sc < start_col ==> !#[trigger] escapes(
                        *board,
                        rights,
                        is_white,
                        start_row as int,
                        sc,
                        er,
                        ec,
                    ),
            decreases 8 - start_col,
        {
            let piece: i32 = board[start_row as usize][start_col as usize];
            if (is_white && piece > 0) || (!is_white && piece < 0) {
                if piece_can_escape(board, is_white, start_row, start_col, game_state) {
                    return false;
                }
            }
            start_col = start_col + 1;
        }
        start_row = start_row + 1;
    }
    true
}

/// Tries every destination for the piece on the start square and reports
/// whether one of them is a validated move that leaves its king unattacked.
fn piece_can_escape(
    board: &[[i32; 8]; 8],
    is_white: bool,
    start_row: i32,
    start_col: i32,
    game_state: &ChessGameState,
) -> (res: bool)
    requires
        on_board(start_row as int, start_col as int),
        own_piece(sq(*board, start_row as int, start_col as int), is_white),
    ensures
        res == exists|er: int, ec: int|
            escapes(
                *board,
                game_state.rights(),
                is_white,
                start_row as int,
                start_col as int,
                er,
                ec,
            ),
{
    let piece: i32 = board[start_row as usize][start_col as usize];
    let ghost rights = game_state.rights();
    let mut end_row: i32 = 0;
    while end_row < 8
        invariant
            0 <= end_row <= 8,
            rights == game_state.rights(),
            on_board(start_row as int, start_col as int),
            piece == board[start_row as int][start_col as int],
            own_piece(piece as int, is_white),
            forall|er: int, ec: int|
                0 <= er < end_row ==> !#[trigger] escapes(
                    *board,
                    rights,
                    is_white,
                    start_row as int,
                    start_col as int,
                    er,
                    ec,
                ),
        decreases 8 - end_row,
    {
        let mut end_col: i32 = 0;
        while end_col < 8
            invariant
                0 <= end_row < 8,
                0 <= end_col <= 8,
                rights == game_state.rights(),
                on_board(start_row as int, start_col as int),
                piece == board[start_row as int][start_col as int],
                own_piece(piece as int, is_white),
                forall|er: int, ec: int|
                    0 <= er < end_row ==> !#[trigger] escapes(
                        *board,
                        rights,
                        is_white,
                        start_row as int,
                        start_col as int,
                        er,
                        ec,
                    ),
                forall|ec: int|
                    0 <= ec < end_col ==> !#[trigger] escapes(
                        *board,
                        rights,
                        is_white,
                        start_row as int,
                        start_col as int,
                        end_row as int,
                        ec,
                    ),
            decreases 8 - end_col,
        {
            if is_valid_move(
                board,
                piece,
                start_row,
                start_col,
                end_row,
                end_col,
                game_state,
                true,
            ) {
                if !would_be_in_check(
                    board,
                    piece,
                    start_row,
                    start_col,
                    end_row,
                    end_col,
                    is_white,
                    game_state,
                ) {
                    assert(escapes(
                        *board,
                        rights,
                        is_white,
                        start_row as int,
                        start_col as int,
                        end_row as int,
                        end_col as int,
                    ));
                    return true;
                }
            }
            end_col = end_col + 1;
        }
        end_row = end_row + 1;
    }
    false
}


} // verus!
