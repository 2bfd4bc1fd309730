//! The saved-game record: a fixed layout of 271 bytes.
//!
//! | offset | bytes | content                                         |
//! |--------|-------|-------------------------------------------------|
//! | 0      | 256   | the 64 squares, row by row, 4 bytes each        |
//! | 256    | 1     | side to move (1 for white)                      |
//! | 257    | 4     | en-passant target row                           |
//! | 261    | 4     | en-passant target column                        |
//! | 265    | 6     | the "has moved" flags: white king, white        |
//! |        |       | king's rook, white queen's rook, then black's   |
//!
//! Integers are 32-bit two's complement, least significant byte first. The
//! selection, a pending promotion and the game-over mark are not saved.

use vstd::prelude::*;
use crate::board::{on_board, sq};
use crate::state::ChessGameState;

verus! {

/// Length of a saved-game record in bytes.
pub const SAVE_RECORD_LEN: usize = 271;

/// Reasons a saved game cannot be restored.
#[derive(Debug, Clone, Copy, PartialEq, Eq, Structural)]
pub enum SaveError {
    /// The data is shorter than a record.
    CorruptSaveData,
}

/// The value of `x` read as an unsigned 32-bit number.
pub open spec fn unsigned(x: int) -> int {
    if x < 0 {
        x + 0x1_0000_0000
    } else {
        x
    }
}

/// Byte `k` (0 is least significant) of the four that hold `x`.
pub open spec fn le_byte(x: int, k: int) -> int {
    if k == 0 {
        unsigned(x) % 256
    } else if k == 1 {
        (unsigned(x) / 0x100) % 256
    } else if k == 2 {
        (unsigned(x) / 0x1_0000) % 256
    } else {
        (unsigned(x) / 0x100_0000) % 256
    }
}

/// The signed 32-bit number held by four bytes, least significant first.
pub open spec fn from_le(b0: int, b1: int, b2: int, b3: int) -> int {
    let u = b0 + 0x100 * b1 + 0x1_0000 * b2 + 0x100_0000 * b3;
    if u >= 0x8000_0000 {
        u - 0x1_0000_0000
    } else {
        u
    }
}

/// The number stored in the four bytes of `data` that start at `at`.
pub open spec fn stored_i32(data: Seq<u8>, at: int) -> int {
    from_le(data[at] as int, data[at + 1] as int, data[at + 2] as int, data[at + 3] as int)
}

/// The byte that stands for a flag.
pub open spec fn flag_byte(flag: bool) -> int {
    if flag {
        1
    } else {
        0
    }
}

/// Byte `i` of the record of `s`.
pub open spec fn record_byte(s: ChessGameState, i: int) -> int {
    if i < 256 {
        le_byte(sq(s.board, i / 32, (i / 4) % 8), i % 4)
    } else if i == 256 {
        flag_byte(s.is_white_turn)
    } else if i < 261 {
        le_byte(s.en_passant_target_row as int, i - 257)
    } else if i < 265 {
        le_byte(s.en_passant_target_col as int, i - 261)
    } else if i == 265 {
        flag_byte(s.white_king_moved)
    } else if i == 266 {
        flag_byte(s.white_rook_kingside_moved)
    } else if i == 267 {
        flag_byte(s.white_rook_queenside_moved)
    } else if i == 268 {
        flag_byte(s.black_king_moved)
    } else if i == 269 {
        flag_byte(s.black_rook_kingside_moved)
    } else {
        flag_byte(s.black_rook_queenside_moved)
    }
}

/// `data` is the record of `s`.
pub open spec fn is_record_of(data: Seq<u8>, s: ChessGameState) -> bool {
    &&& data.len() == 271
    &&& forall|i: int| 0 <= i < 271 ==> #[trigger] data[i] as int == record_byte(s, i)
}

impl ChessGameState {
    /// `self` is what loading `data` over `before` gives: board, side to move,
    /// en-passant target and flags come from the record; nothing is selected,
    /// no promotion is pending and the game is not over; the remaining
    /// promotion fields are those of `before`.
    pub open spec fn restores(&self, before: ChessGameState, data: Seq<u8>) -> bool {
        &&& forall|r: int, c: int|
            on_board(r, c) ==> #[trigger] sq(self.board, r, c) == stored_i32(data, 4 * (8 * r + c))
        &&& self.is_white_turn == (data[256] != 0)
        &&& self.en_passant_target_row == stored_i32(data, 257)
        &&& self.en_passant_target_col == stored_i32(data, 261)
        &&& self.white_king_moved == (data[265] != 0)
        &&& self.white_rook_kingside_moved == (data[266] != 0)
        &&& self.white_rook_queenside_moved == (data[267] != 0)
        &&& self.black_king_moved == (data[268] != 0)
        &&& self.black_rook_kingside_moved == (data[269] != 0)
        &&& self.black_rook_queenside_moved == (data[270] != 0)
        &&& self.selected_square_row == -1
        &&& self.selected_square_col == -1
        &&& !self.promotion_pending
        &&& !self.game_over
        &&& self.promotion_row == before.promotion_row
        &&& self.promotion_col == before.promotion_col
        &&& self.is_white_promoting == before.is_white_promoting
    }

    /// Two states agree on everything a record holds.
    pub open spec fn same_saved_fields(&self, other: ChessGameState) -> bool {
        &&& self.board == other.board
        &&& self.is_white_turn == other.is_white_turn
        &&& self.en_passant_target_row == other.en_passant_target_row
        &&& self.en_passant_target_col == other.en_passant_target_col
        &&& self.white_king_moved == other.white_king_moved
        &&& self.white_rook_kingside_moved == other.white_rook_kingside_moved
        &&& self.white_rook_queenside_moved == other.white_rook_queenside_moved
        &&& self.black_king_moved == other.black_king_moved
        &&& self.black_rook_kingside_moved == other.black_rook_kingside_moved
        &&& self.black_rook_queenside_moved == other.black_rook_queenside_moved
    }
}

/// Reading back the four bytes written for a number gives the number.
pub proof fn lemma_le_round_trip(x: i32)
    ensures
        from_le(le_byte(x as int, 0), le_byte(x as int, 1), le_byte(x as int, 2), le_byte(x as int, 3))
            == x,
        forall|k: int| 0 <= k < 4 ==> 0 <= #[trigger] le_byte(x as int, k) < 256,
{
}

/// Appends the four bytes of `x`, least significant first.
fn push_i32(out: &mut Vec<u8>, x: i32)
    ensures
        final(out)@.len() == old(out)@.len() + 4,
        forall|i: int| 0 <= i < old(out)@.len() ==> final(out)@[i] == old(out)@[i],
        forall|k: int|
            0 <= k < 4 ==> #[trigger] final(out)@[old(out)@.len() + k] as int == le_byte(x as int, k),
{
    let u: u64 = if x < 0 {
        (x as i64 + 0x1_0000_0000) as u64
    } else {
        x as u64
    };
    out.push((u % 256) as u8);
    out.push(((u / 0x100) % 256) as u8);
    out.push(((u / 0x1_0000) % 256) as u8);
    out.push(((u / 0x100_0000) % 256) as u8);
}

/// Appends the byte of a flag.
fn push_flag(out: &mut Vec<u8>, flag: bool)
    ensures
        final(out)@.len() == old(out)@.len() + 1,
        forall|i: int| 0 <= i < old(out)@.len() ==> final(out)@[i] == old(out)@[i],
        final(out)@[old(out)@.len() as int] as int == flag_byte(flag),
{
    out.push(if flag {
        1
    } else {
        0
    });
}

/// Reads the number stored in the four bytes that start at `at`.
fn read_i32(data: &[u8], at: usize) -> (x: i32)
    requires
        at + 4 <= data@.len(),
    ensures
        x == stored_i32(data@, at as int),
{
    let u: u64 = data[at] as u64 + 0x100 * (data[at + 1] as u64) + 0x1_0000 * (data[at + 2] as u64)
        + 0x100_0000 * (data[at + 3] as u64);
    if u >= 0x8000_0000 {
        (u as i64 - 0x1_0000_0000) as i32
    } else {
        u as i32
    }
}

impl ChessGameState {
    /// Writes the record of this state.
    pub fn save(&self) -> (out: Vec<u8>)
        ensures
            is_record_of(out@, *self),
    {
        let mut out: Vec<u8> = Vec::new();
        let mut k: usize = 0;
        while k < 64
            invariant
                0 <= k <= 64,
                out@.len() == 4 * k,
                forall|i: int| 0 <= i < 4 * k ==> #[trigger] out@[i] as int == record_byte(*self, i),
            decreases 64 - k,
        {
            let code: i32 = self.board[k / 8][k % 8];
            let ghost before = out@;
            push_i32(&mut out, code);
            assert forall|i: int| 0 <= i < 4 * (k + 1) implies #[trigger] out@[i] as int
                == record_byte(*self, i) by {
                if i < 4 * k {
                    assert(out@[i] == before[i]);
                } else {
                    let j = i - 4 * k;
                    assert(out@[before.len() + j] as int == le_byte(code as int, j));
                }
            }
            k = k + 1;
        }
        push_flag(&mut out, self.is_white_turn);
        push_i32(&mut out, self.en_passant_target_row);
        push_i32(&mut out, self.en_passant_target_col);
        assert(forall|i: int| 0 <= i < 265 ==> #[trigger] out@[i] as int == record_byte(*self, i)) by {
            assert forall|i: int| 0 <= i < 265 implies #[trigger] out@[i] as int == record_byte(
                *self,
                i,
            ) by {
                if 257 <= i < 261 {
                    let j = i - 257;
                    assert(out@[257 + j] as int == le_byte(self.en_passant_target_row as int, j));
                } else if 261 <= i {
                    let j = i - 261;
                    assert(out@[261 + j] as int == le_byte(self.en_passant_target_col as int, j));
                }
            }
        }
        push_flag(&mut out, self.white_king_moved);
        push_flag(&mut out, self.white_rook_kingside_moved);
        push_flag(&mut out, self.white_rook_queenside_moved);
        push_flag(&mut out, self.black_king_moved);
        push_flag(&mut out, self.black_rook_kingside_moved);
        push_flag(&mut out, self.black_rook_queenside_moved);
        out
    }

    /// Restores a game from a record.
    ///
    /// Data shorter than a record is refused and the state is left as it was.
    /// Otherwise the first 271 bytes are read: the board, the side to move,
    /// the en-passant target and the flags are replaced, the selection is
    /// cleared, and the game is neither awaiting a promotion nor over.
    pub fn load(&mut self, data: &[u8]) -> (res: Result<(), SaveError>)
        ensures
            data@.len() < 271 ==> res == Err::<(), SaveError>(SaveError::CorruptSaveData)
                && *final(self) == *old(self),
            data@.len() >= 271 ==> res is Ok && final(self).restores(*old(self), data@),
    {
        if data.len() < SAVE_RECORD_LEN {
            return Err(SaveError::CorruptSaveData);
        }
        let mut board: [[i32; 8]; 8] = [[0; 8]; 8];
        let mut k: usize = 0;
        while k < 64
            invariant
                0 <= k <= 64,
                data@.len() >= 271,
                forall|r: int, c: int|
                    on_board(r, c) && 8 * r + c < k ==> #[trigger] sq(board, r, c) == stored_i32(
                        data@,
                        4 * (8 * r + c),
                    ),
            decreases 64 - k,
        {
            let value: i32 = read_i32(data, 4 * k);
            let ghost before = board;
            board[k / 8][k % 8] = value;
            assert forall|r: int, c: int| on_board(r, c) && 8 * r + c < k + 1 implies #[trigger] sq(
                board,
                r,
                c,
            ) == stored_i32(data@, 4 * (8 * r + c)) by {
                if 8 * r + c < k {
                    assert(sq(before, r, c) == stored_i32(data@, 4 * (8 * r + c)));
                }
            }
            k = k + 1;
        }
        self.board = board;
        self.is_white_turn = data[256] != 0;
        self.en_passant_target_row = read_i32(data, 257);
        self.en_passant_target_col = read_i32(data, 261);
        self.white_king_moved = data[265] != 0;
        self.white_rook_kingside_moved = data[266] != 0;
        self.white_rook_queenside_moved = data[267] != 0;
        self.black_king_moved = data[268] != 0;
        self.black_rook_kingside_moved = data[269] != 0;
        self.black_rook_queenside_moved = data[270] != 0;
        self.selected_square_row = -1;
        self.selected_square_col = -1;
        self.promotion_pending = false;
        self.game_over = false;
        Ok(())
    }
}

/// The four bytes a record holds for a square read back as that square's code.
pub proof fn lemma_square_round_trip(s: ChessGameState, data: Seq<u8>, r: int, c: int)
    requires
        is_record_of(data, s),
        on_board(r, c),
    ensures
        stored_i32(data, 4 * (8 * r + c)) == sq(s.board, r, c),
{
    let at = 4 * (8 * r + c);
    lemma_le_round_trip(s.board[r][c]);
    assert(at / 32 == r && (at / 4) % 8 == c && at % 4 == 0);
    assert((at + 1) / 32 == r && ((at + 1) / 4) % 8 == c && (at + 1) % 4 == 1);
    assert((at + 2) / 32 == r && ((at + 2) / 4) % 8 == c && (at + 2) % 4 == 2);
    assert((at + 3) / 32 == r && ((at + 3) / 4) % 8 == c && (at + 3) % 4 == 3);
    assert(data[at] as int == record_byte(s, at));
    assert(data[at + 1] as int == record_byte(s, at + 1));
    assert(data[at + 2] as int == record_byte(s, at + 2));
    assert(data[at + 3] as int == record_byte(s, at + 3));
}

/// The bytes a record holds for the en-passant target read back as the target.
pub proof fn lemma_target_round_trip(s: ChessGameState, data: Seq<u8>)
    requires
        is_record_of(data, s),
    ensures
        stored_i32(data, 257) == s.en_passant_target_row,
        stored_i32(data, 261) == s.en_passant_target_col,
{
    lemma_le_round_trip(s.en_passant_target_row);
    lemma_le_round_trip(s.en_passant_target_col);
    assert(data[257] as int == record_byte(s, 257));
    assert(data[258] as int == record_byte(s, 258));
    assert(data[259] as int == record_byte(s, 259));
    assert(data[260] as int == record_byte(s, 260));
    assert(data[261] as int == record_byte(s, 261));
    assert(data[262] as int == record_byte(s, 262));
    assert(data[263] as int == record_byte(s, 263));
    assert(data[264] as int == record_byte(s, 264));
}

/// The bytes a record holds for the side to move and the six flags are zero
/// exactly when the flag is down.
pub proof fn lemma_flags_round_trip(s: ChessGameState, data: Seq<u8>)
    requires
        is_record_of(data, s),
    ensures
        (data[256] != 0) == s.is_white_turn,
        (data[265] != 0) == s.white_king_moved,
        (data[266] != 0) == s.white_rook_kingside_moved,
        (data[267] != 0) == s.white_rook_queenside_moved,
        (data[268] != 0) == s.black_king_moved,
        (data[269] != 0) == s.black_rook_kingside_moved,
        (data[270] != 0) == s.black_rook_queenside_moved,
{
    assert(data[256] as int == record_byte(s, 256));
    assert(data[265] as int == record_byte(s, 265));
    assert(data[266] as int == record_byte(s, 266));
    assert(data[267] as int == record_byte(s, 267));
    assert(data[268] as int == record_byte(s, 268));
    assert(data[269] as int == record_byte(s, 269));
    assert(data[270] as int == record_byte(s, 270));
}

/// Two boards whose squares agree are the same board.
pub proof fn lemma_boards_equal(a: [[i32; 8]; 8], b: [[i32; 8]; 8])
    requires
        forall|r: int, c: int| on_board(r, c) ==> #[trigger] sq(a, r, c) == sq(b, r, c),
    ensures
        a == b,
{
    assert forall|r: int| 0 <= r < 8 implies a[r] == b[r] by {
        assert forall|c: int| 0 <= c < 8 implies a[r][c] == b[r][c] by {
            assert(sq(a, r, c) == sq(b, r, c));
        }
        assert(a[r] =~= b[r]);
    }
    assert(a =~= b);
}

/// Saving a game and loading the record reproduces the board, the side to
/// move, the en-passant target and all six flags.
pub proof fn law_save_load_round_trip(
    s: ChessGameState,
    data: Seq<u8>,
    before: ChessGameState,
    after: ChessGameState,
)
    requires
        is_record_of(data, s),
        after.restores(before, data),
    ensures
        after.same_saved_fields(s),
{
    assert forall|r: int, c: int| on_board(r, c) implies #[trigger] sq(after.board, r, c) == sq(
        s.board,
        r,
        c,
    ) by {
        lemma_square_round_trip(s, data, r, c);
    }
    lemma_boards_equal(after.board, s.board);
    lemma_target_round_trip(s, data);
    lemma_flags_round_trip(s, data);
}

} // verus!
