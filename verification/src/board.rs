//! The 8x8 board of signed piece codes and the primitives every rule is stated over.
//!
//! A square holds `0` when empty. Otherwise the magnitude of the code names the
//! piece (1 pawn, 2 knight, 3 bishop, 4 rook, 5 queen, 6 king) and the sign its
//! colour: positive is white, negative is black. Row 0 is black's back rank and
//! row 7 is white's, so white pawns advance toward row 0.

use vstd::prelude::*;

verus! {

/// Reasons a square cannot be addressed.
#[derive(Debug, Clone, Copy, PartialEq, Eq, Structural)]
pub enum BoardError {
    /// A row or column lies outside `0..8`.
    OutOfRange,
}

/// The six kinds of chessmen.
#[derive(Debug, Clone, Copy, PartialEq, Eq, Structural)]
pub enum PieceKind {
    Pawn,
    Knight,
    Bishop,
    Rook,
    Queen,
    King,
}

/// `(r, c)` names a square of the board.
pub open spec fn on_board(r: int, c: int) -> bool {
    0 <= r < 8 && 0 <= c < 8
}

/// The code standing on `(r, c)`.
pub open spec fn sq(b: [[i32; 8]; 8], r: int, c: int) -> int
    recommends
        on_board(r, c),
{
    b[r][c] as int
}

/// The board `b` with `v` written on `(r, c)` and every other square untouched.
pub open spec fn placed(b: [[i32; 8]; 8], r: int, c: int, v: i32) -> [[i32; 8]; 8]
    recommends
        on_board(r, c),
{
    vstd::array::spec_array_update(b, r, vstd::array::spec_array_update(b[r], c, v))
}

/// The scratch position used to examine a move: `piece` is written on the
/// destination and the source is emptied. Nothing else changes, so a castling
/// rook stays put and a pawn taken en passant stays on the board.
pub open spec fn moved(b: [[i32; 8]; 8], piece: i32, sr: int, sc: int, er: int, ec: int) -> [
    [i32; 8]; 8
] {
    placed(placed(b, er, ec, piece), sr, sc, 0)
}

/// Absolute value.
pub open spec fn magnitude(x: int) -> int {
    if x < 0 {
        -x
    } else {
        x
    }
}

/// -1, 0 or 1 according to the sign of `x`.
pub open spec fn signum(x: int) -> int {
    if x > 0 {
        1
    } else if x < 0 {
        -1
    } else {
        0
    }
}

/// Both codes are pieces of one colour (their product is positive).
pub open spec fn same_side(a: int, b: int) -> bool {
    (a > 0 && b > 0) || (a < 0 && b < 0)
}

/// The codes are pieces of different colours (their product is negative).
pub open spec fn opposite_side(a: int, b: int) -> bool {
    (a > 0 && b < 0) || (a < 0 && b > 0)
}

/// The kind a code stands for; `None` for the empty square and for any code
/// whose magnitude is not 1 to 6.
pub open spec fn kind_of(piece: int) -> Option<PieceKind> {
    let m = magnitude(piece);
    if m == 1 {
        Some(PieceKind::Pawn)
    } else if m == 2 {
        Some(PieceKind::Knight)
    } else if m == 3 {
        Some(PieceKind::Bishop)
    } else if m == 4 {
        Some(PieceKind::Rook)
    } else if m == 5 {
        Some(PieceKind::Queen)
    } else if m == 6 {
        Some(PieceKind::King)
    } else {
        None
    }
}

/// The code of the king of the given colour.
pub open spec fn king_code(white: bool) -> int {
    if white {
        6
    } else {
        -6
    }
}

/// The back rank on which the given colour starts: row 7 for white, row 0 for black.
pub open spec fn home_row(white: bool) -> int {
    if white {
        7
    } else {
        0
    }
}

/// The piece standing on column `c` of a back rank at the start of a game,
/// as a magnitude: rook, knight, bishop, queen, king, bishop, knight, rook.
pub open spec fn back_rank_kind(c: int) -> int {
    if c == 0 || c == 7 {
        4
    } else if c == 1 || c == 6 {
        2
    } else if c == 2 || c == 5 {
        3
    } else if c == 3 {
        5
    } else {
        6
    }
}

/// The code on `(r, c)` in the standard starting position: black's pieces on
/// row 0 and pawns on row 1, white's pawns on row 6 and pieces on row 7.
pub open spec fn initial_code(r: int, c: int) -> int {
    if r == 0 {
        -back_rank_kind(c)
    } else if r == 1 {
        -1
    } else if r == 6 {
        1
    } else if r == 7 {
        back_rank_kind(c)
    } else {
        0
    }
}

/// `b` is the standard starting position.
pub open spec fn is_initial_position(b: [[i32; 8]; 8]) -> bool {
    forall|r: int, c: int| on_board(r, c) ==> #[trigger] sq(b, r, c) == initial_code(r, c)
}

/// Builds the standard starting position.
pub fn initial_board() -> (b: [[i32; 8]; 8])
    ensures
        is_initial_position(b),
{
    [
        [-4, -2, -3, -5, -6, -3, -2, -4],
        [-1, -1, -1, -1, -1, -1, -1, -1],
        [0, 0, 0, 0, 0, 0, 0, 0],
        [0, 0, 0, 0, 0, 0, 0, 0],
        [0, 0, 0, 0, 0, 0, 0, 0],
        [0, 0, 0, 0, 0, 0, 0, 0],
        [1, 1, 1, 1, 1, 1, 1, 1],
        [4, 2, 3, 5, 6, 3, 2, 4],
    ]
}

/// Tells whether `(row, col)` is a square of the board.
pub fn in_bounds(row: i32, col: i32) -> (ok: bool)
    ensures
        ok == on_board(row as int, col as int),
{
    0 <= row && row < 8 && 0 <= col && col < 8
}

/// Reads a square, refusing coordinates outside the board.
pub fn piece_at(board: &[[i32; 8]; 8], row: i32, col: i32) -> (res: Result<i32, BoardError>)
    ensures
        on_board(row as int, col as int) ==> res == Ok::<i32, BoardError>(
            board[row as int][col as int],
        ),
        !on_board(row as int, col as int) ==> res == Err::<i32, BoardError>(
            BoardError::OutOfRange,
        ),
{
    if in_bounds(row, col) {
        Ok(board[row as usize][col as usize])
    } else {
        Err(BoardError::OutOfRange)
    }
}

/// Writes a square, refusing coordinates outside the board; on refusal the
/// board is left as it was.
pub fn set_piece(board: &mut [[i32; 8]; 8], row: i32, col: i32, piece: i32) -> (res: Result<
    (),
    BoardError,
>)
    ensures
        on_board(row as int, col as int) ==> res is Ok && *final(board) == placed(
            *old(board),
            row as int,
            col as int,
            piece,
        ),
        !on_board(row as int, col as int) ==> res == Err::<(), BoardError>(BoardError::OutOfRange)
            && *final(board) == *old(board),
{
    if in_bounds(row, col) {
        board[row as usize][col as usize] = piece;
        Ok(())
    } else {
        Err(BoardError::OutOfRange)
    }
}

/// Classifies a code by its magnitude.
pub fn piece_kind(piece: i32) -> (k: Option<PieceKind>)
    ensures
        k == kind_of(piece as int),
{
    if piece == 1 || piece == -1 {
        Some(PieceKind::Pawn)
    } else if piece == 2 || piece == -2 {
        Some(PieceKind::Knight)
    } else if piece == 3 || piece == -3 {
        Some(PieceKind::Bishop)
    } else if piece == 4 || piece == -4 {
        Some(PieceKind::Rook)
    } else if piece == 5 || piece == -5 {
        Some(PieceKind::Queen)
    } else if piece == 6 || piece == -6 {
        Some(PieceKind::King)
    } else {
        None
    }
}

/// Reading a square of an updated board gives the new code on the written
/// square and the old code everywhere else.
pub proof fn lemma_placed_reads(b: [[i32; 8]; 8], r: int, c: int, v: i32)
    requires
        on_board(r, c),
    ensures
        forall|i: int, j: int|
            on_board(i, j) ==> #[trigger] sq(placed(b, r, c, v), i, j) == (if i == r && j == c {
                v as int
            } else {
                sq(b, i, j)
            }),
{
}

} // verus!
