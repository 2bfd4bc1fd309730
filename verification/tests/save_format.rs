use retro_desk::save::{SaveError, SAVE_RECORD_LEN};
use retro_desk::state::ChessGameState;

#[test]
fn a_fresh_game_has_the_documented_defaults() {
    let s = ChessGameState::new();
    assert_eq!(s, ChessGameState::default());
    assert!(s.is_white_turn);
    assert_eq!((s.selected_square_row, s.selected_square_col), (-1, -1));
    assert_eq!((s.en_passant_target_row, s.en_passant_target_col), (-1, -1));
    assert!(!s.white_king_moved && !s.white_rook_kingside_moved && !s.white_rook_queenside_moved);
    assert!(!s.black_king_moved && !s.black_rook_kingside_moved && !s.black_rook_queenside_moved);
    assert!(!s.promotion_pending && !s.game_over && !s.is_white_promoting);
    assert_eq!((s.promotion_row, s.promotion_col), (0, 0));
    assert_eq!(s.board[0][4], -6);
    assert_eq!(s.board[7][4], 6);
}

#[test]
fn reset_returns_to_a_fresh_game() {
    let mut s = ChessGameState::new();
    s.board[4][4] = 5;
    s.is_white_turn = false;
    s.game_over = true;
    s.white_king_moved = true;
    s.selected_square_row = 3;
    s.reset();
    assert_eq!(s, ChessGameState::new());
}

#[test]
fn the_record_of_a_fresh_game_has_the_fixed_layout() {
    let s = ChessGameState::new();
    let data = s.save();
    assert_eq!(SAVE_RECORD_LEN, 271);
    assert_eq!(data.len(), 271);
    assert_eq!(&data[0..4], &[0xfc, 0xff, 0xff, 0xff]);
    assert_eq!(&data[16..20], &[0xfa, 0xff, 0xff, 0xff]);
    assert_eq!(&data[32..36], &[0xff, 0xff, 0xff, 0xff]);
    assert_eq!(&data[64..68], &[0, 0, 0, 0]);
    assert_eq!(&data[192..196], &[1, 0, 0, 0]);
    assert_eq!(&data[224 + 16..224 + 20], &[6, 0, 0, 0]);
    assert_eq!(data[256], 1);
    assert_eq!(&data[257..261], &[0xff, 0xff, 0xff, 0xff]);
    assert_eq!(&data[261..265], &[0xff, 0xff, 0xff, 0xff]);
    assert_eq!(&data[265..271], &[0, 0, 0, 0, 0, 0]);
}

#[test]
fn every_field_of_the_record_sits_at_its_offset() {
    let mut s = ChessGameState::new();
    s.board = [[0; 8]; 8];
    s.board[2][3] = 0x0102_0304;
    s.board[7][7] = i32::MIN;
    s.board[0][1] = i32::MAX;
    s.is_white_turn = false;
    s.en_passant_target_row = 5;
    s.en_passant_target_col = 258;
    s.white_king_moved = true;
    s.white_rook_queenside_moved = true;
    s.black_rook_kingside_moved = true;
    let data = s.save();
    let at = (2 * 8 + 3) * 4;
    assert_eq!(&data[at..at + 4], &[4, 3, 2, 1]);
    assert_eq!(&data[252..256], &[0, 0, 0, 0x80]);
    assert_eq!(&data[4..8], &[0xff, 0xff, 0xff, 0x7f]);
    assert_eq!(data[256], 0);
    assert_eq!(&data[257..261], &[5, 0, 0, 0]);
    assert_eq!(&data[261..265], &[2, 1, 0, 0]);
    assert_eq!(&data[265..271], &[1, 0, 1, 0, 1, 0]);
}

#[test]
fn the_record_matches_the_standard_little_endian_encoding() {
    let mut s = ChessGameState::new();
    let samples = [0, 1, -1, 6, -6, 255, 256, -256, 65_535, 65_536, -65_537, i32::MAX, i32::MIN];
    for (i, v) in samples.iter().enumerate() {
        s.board[i / 8][i % 8] = *v;
    }
    let data = s.save();
    for (i, v) in samples.iter().enumerate() {
        assert_eq!(&data[4 * i..4 * i + 4], &v.to_le_bytes());
    }
}

#[test]
fn save_then_load_reproduces_the_saved_fields() {
    let mut s = ChessGameState::new();
    s.board[6][4] = 0;
    s.board[4][4] = 1;
    s.board[3][0] = -123_456_789;
    s.board[5][7] = i32::MIN;
    s.is_white_turn = false;
    s.en_passant_target_row = 5;
    s.en_passant_target_col = 4;
    s.white_rook_kingside_moved = true;
    s.black_king_moved = true;
    s.black_rook_queenside_moved = true;
    let data = s.save();

    let mut loaded = ChessGameState::new();
    loaded.selected_square_row = 2;
    loaded.selected_square_col = 2;
    loaded.promotion_pending = true;
    loaded.promotion_row = 7;
    loaded.promotion_col = 3;
    loaded.is_white_promoting = true;
    loaded.game_over = true;
    assert_eq!(loaded.load(&data), Ok(()));
    assert_eq!(loaded.board, s.board);
    assert_eq!(loaded.is_white_turn, s.is_white_turn);
    assert_eq!(loaded.en_passant_target_row, 5);
    assert_eq!(loaded.en_passant_target_col, 4);
    assert_eq!(loaded.white_king_moved, s.white_king_moved);
    assert_eq!(loaded.white_rook_kingside_moved, s.white_rook_kingside_moved);
    assert_eq!(loaded.white_rook_queenside_moved, s.white_rook_queenside_moved);
    assert_eq!(loaded.black_king_moved, s.black_king_moved);
    assert_eq!(loaded.black_rook_kingside_moved, s.black_rook_kingside_moved);
    assert_eq!(loaded.black_rook_queenside_moved, s.black_rook_queenside_moved);
    assert_eq!((loaded.selected_square_row, loaded.selected_square_col), (-1, -1));
    assert!(!loaded.promotion_pending);
    assert!(!loaded.game_over);
    assert_eq!((loaded.promotion_row, loaded.promotion_col), (7, 3));
    assert!(loaded.is_white_promoting);
    assert_eq!(loaded.save(), data);
}

#[test]
fn short_data_is_refused_and_changes_nothing() {
    let mut s = ChessGameState::new();
    s.board[4][4] = 3;
    s.selected_square_row = 1;
    let before = s;
    assert_eq!(s.load(&[]), Err(SaveError::CorruptSaveData));
    assert_eq!(s, before);
    let mut data = ChessGameState::new().save();
    data.pop();
    assert_eq!(data.len(), 270);
    assert_eq!(s.load(&data), Err(SaveError::CorruptSaveData));
    assert_eq!(s, before);
}

#[test]
fn bytes_after_the_record_are_ignored_and_any_nonzero_flag_is_set() {
    let mut data = ChessGameState::new().save();
    data[256] = 0;
    data[265] = 7;
    data[270] = 255;
    data.extend_from_slice(&[9, 9, 9]);
    let mut s = ChessGameState::new();
    assert_eq!(s.load(&data), Ok(()));
    assert!(!s.is_white_turn);
    assert!(s.white_king_moved);
    assert!(s.black_rook_queenside_moved);
    assert!(!s.black_king_moved);
    assert_eq!(s.board, ChessGameState::new().board);
}
