use retro_desk::board::{BoardError, PieceKind};
use retro_desk::play::{play_on_board, ClickOutcome, GameStatus, MoveOutcome};
use retro_desk::rules::is_king_in_check;
use retro_desk::state::ChessGameState;

fn bare_state(board: [[i32; 8]; 8]) -> ChessGameState {
    let mut s = ChessGameState::new();
    s.board = board;
    s
}

fn kings_only() -> [[i32; 8]; 8] {
    let mut b = [[0; 8]; 8];
    b[7][4] = 6;
    b[0][4] = -6;
    b
}

#[test]
fn an_opening_move_is_played_and_the_turn_passes() {
    let mut s = ChessGameState::new();
    assert_eq!(s.make_move(6, 4, 5, 4), Ok(MoveOutcome::Played));
    assert_eq!(s.board[5][4], 1);
    assert_eq!(s.board[6][4], 0);
    assert!(!s.is_white_turn);
    assert_eq!((s.en_passant_target_row, s.en_passant_target_col), (-1, -1));
    assert!(!s.game_over);
    assert!(!is_king_in_check(&s.board, true, &s));
}

#[test]
fn only_the_side_to_move_may_move() {
    let mut s = ChessGameState::new();
    let before = s;
    assert_eq!(s.make_move(1, 4, 2, 4), Ok(MoveOutcome::Rejected));
    assert_eq!(s.make_move(4, 4, 3, 4), Ok(MoveOutcome::Rejected));
    assert_eq!(s, before);
    assert_eq!(s.make_move(6, 0, 5, 0), Ok(MoveOutcome::Played));
    assert_eq!(s.make_move(6, 1, 5, 1), Ok(MoveOutcome::Rejected));
    assert_eq!(s.make_move(1, 4, 2, 4), Ok(MoveOutcome::Played));
    assert!(s.is_white_turn);
}

#[test]
fn illegal_moves_change_nothing() {
    let mut s = ChessGameState::new();
    let before = s;
    assert_eq!(s.make_move(6, 4, 3, 4), Ok(MoveOutcome::Rejected));
    assert_eq!(s.make_move(7, 0, 5, 0), Ok(MoveOutcome::Rejected));
    assert_eq!(s.make_move(7, 4, 7, 6), Ok(MoveOutcome::Rejected));
    assert_eq!(s, before);
}

#[test]
fn coordinates_off_the_board_are_an_error() {
    let mut s = ChessGameState::new();
    let before = s;
    assert_eq!(s.make_move(6, 4, 8, 4), Err(BoardError::OutOfRange));
    assert_eq!(s.make_move(-1, 4, 5, 4), Err(BoardError::OutOfRange));
    assert_eq!(s.make_move(6, 8, 5, 4), Err(BoardError::OutOfRange));
    assert_eq!(s.handle_click(8, 0), Err(BoardError::OutOfRange));
    assert_eq!(s.handle_click(0, -1), Err(BoardError::OutOfRange));
    assert_eq!(s, before);
}

#[test]
fn a_double_step_sets_the_en_passant_target_for_one_ply() {
    let mut s = ChessGameState::new();
    assert_eq!(s.make_move(6, 4, 4, 4), Ok(MoveOutcome::Played));
    assert_eq!((s.en_passant_target_row, s.en_passant_target_col), (5, 4));
    assert_eq!(s.make_move(1, 0, 3, 0), Ok(MoveOutcome::Played));
    assert_eq!((s.en_passant_target_row, s.en_passant_target_col), (2, 0));
    assert_eq!(s.make_move(7, 6, 5, 5), Ok(MoveOutcome::Played));
    assert_eq!((s.en_passant_target_row, s.en_passant_target_col), (-1, -1));
}

#[test]
fn en_passant_removes_the_pawn_that_was_passed() {
    let mut b = kings_only();
    b[3][4] = 1;
    b[1][5] = -1;
    let mut s = bare_state(b);
    s.is_white_turn = false;
    assert_eq!(s.make_move(1, 5, 3, 5), Ok(MoveOutcome::Played));
    assert_eq!((s.en_passant_target_row, s.en_passant_target_col), (2, 5));
    assert_eq!(s.make_move(3, 4, 2, 5), Ok(MoveOutcome::Played));
    assert_eq!(s.board[2][5], 1);
    assert_eq!(s.board[3][5], 0);
    assert_eq!(s.board[3][4], 0);
    assert_eq!((s.en_passant_target_row, s.en_passant_target_col), (-1, -1));
}

#[test]
fn en_passant_is_gone_after_another_move() {
    let mut b = kings_only();
    b[3][4] = 1;
    b[1][5] = -1;
    let mut s = bare_state(b);
    s.is_white_turn = false;
    assert_eq!(s.make_move(1, 5, 3, 5), Ok(MoveOutcome::Played));
    assert_eq!(s.make_move(7, 4, 7, 3), Ok(MoveOutcome::Played));
    assert_eq!(s.make_move(0, 4, 0, 3), Ok(MoveOutcome::Played));
    let before = s;
    assert_eq!(s.make_move(3, 4, 2, 5), Ok(MoveOutcome::Rejected));
    assert_eq!(s, before);
    assert_eq!(s.board[3][5], -1);
}

#[test]
fn castling_brings_the_rook_over_and_raises_the_king_flag() {
    let mut b = kings_only();
    b[7][7] = 4;
    b[7][0] = 4;
    b[0][0] = -4;
    b[0][7] = -4;
    let mut s = bare_state(b);
    assert_eq!(s.make_move(7, 4, 7, 6), Ok(MoveOutcome::Played));
    assert_eq!(s.board[7], [4, 0, 0, 0, 0, 4, 6, 0]);
    assert!(s.white_king_moved);
    assert!(!s.white_rook_kingside_moved);
    assert_eq!(s.make_move(0, 4, 0, 2), Ok(MoveOutcome::Played));
    assert_eq!(s.board[0], [0, 0, -6, -4, 0, 0, 0, -4]);
    assert!(s.black_king_moved);
    assert_eq!(s.make_move(7, 6, 7, 7), Ok(MoveOutcome::Rejected));
    assert_eq!(s.make_move(7, 6, 6, 6), Ok(MoveOutcome::Played));
}

#[test]
fn a_rook_that_leaves_its_corner_loses_castling_on_that_wing() {
    let mut b = kings_only();
    b[7][7] = 4;
    b[7][0] = 4;
    b[0][0] = -4;
    b[0][7] = -4;
    let mut s = bare_state(b);
    assert_eq!(s.make_move(7, 7, 6, 7), Ok(MoveOutcome::Played));
    assert!(s.white_rook_kingside_moved);
    assert!(!s.white_rook_queenside_moved && !s.white_king_moved);
    assert_eq!(s.make_move(0, 0, 1, 0), Ok(MoveOutcome::Played));
    assert!(s.black_rook_queenside_moved);
    assert!(!s.black_rook_kingside_moved && !s.black_king_moved);
    assert_eq!(s.make_move(6, 7, 7, 7), Ok(MoveOutcome::Played));
    assert_eq!(s.make_move(1, 0, 0, 0), Ok(MoveOutcome::Played));
    assert_eq!(s.make_move(7, 4, 7, 6), Ok(MoveOutcome::Rejected));
    assert_eq!(s.make_move(7, 4, 7, 2), Ok(MoveOutcome::Played));
    assert_eq!(s.make_move(0, 4, 0, 2), Ok(MoveOutcome::Rejected));
    assert_eq!(s.make_move(0, 4, 0, 6), Ok(MoveOutcome::Played));
    assert!(s.white_rook_kingside_moved && s.white_king_moved);
    assert!(s.black_rook_queenside_moved && s.black_king_moved);
}

#[test]
fn a_move_that_exposes_the_king_by_capturing_en_passant_is_rejected() {
    let mut b = [[0; 8]; 8];
    b[3][0] = 6;
    b[3][4] = 1;
    b[3][5] = -1;
    b[3][7] = -4;
    b[0][4] = -6;
    let mut s = bare_state(b);
    s.en_passant_target_row = 2;
    s.en_passant_target_col = 5;
    let before = s;
    assert_eq!(s.make_move(3, 4, 2, 5), Ok(MoveOutcome::Rejected));
    assert_eq!(s, before);
}

#[test]
fn a_pawn_on_the_far_rank_waits_for_a_choice() {
    let mut b = kings_only();
    b[1][0] = 1;
    let mut s = bare_state(b);
    s.selected_square_row = 1;
    s.selected_square_col = 0;
    assert_eq!(s.make_move(1, 0, 0, 0), Ok(MoveOutcome::PromotionPending));
    assert!(s.promotion_pending);
    assert_eq!((s.promotion_row, s.promotion_col), (0, 0));
    assert!(s.is_white_promoting);
    assert_eq!(s.board[0][0], 1);
    assert_eq!(s.board[1][0], 0);
    assert!(s.is_white_turn);
    assert_eq!(s.make_move(7, 4, 7, 3), Ok(MoveOutcome::Rejected));
    assert_eq!(s.handle_click(7, 4), Ok(ClickOutcome::Ignored));
    assert!(s.promotion_pending);
    assert_eq!(s.board[0][0], 1);
}

#[test]
fn a_chosen_piece_replaces_the_pawn_and_the_turn_passes() {
    for (kind, code) in [
        (PieceKind::Queen, 5),
        (PieceKind::Rook, 4),
        (PieceKind::Bishop, 3),
        (PieceKind::Knight, 2),
    ] {
        let mut b = kings_only();
        b[1][0] = 1;
        let mut s = bare_state(b);
        assert_eq!(s.make_move(1, 0, 0, 0), Ok(MoveOutcome::PromotionPending));
        assert_eq!(s.promote(kind), Ok(MoveOutcome::Played));
        assert_eq!(s.board[0][0], code);
        assert!(!s.promotion_pending);
        assert!(!s.is_white_turn);
        assert!(!is_king_in_check(&s.board, true, &s));

        let mut b = kings_only();
        b[6][7] = -1;
        let mut s = bare_state(b);
        s.is_white_turn = false;
        assert_eq!(s.make_move(6, 7, 7, 7), Ok(MoveOutcome::PromotionPending));
        assert!(!s.is_white_promoting);
        assert_eq!(s.board[7][7], -1);
        assert_eq!(s.promote(kind), Ok(MoveOutcome::Played));
        assert_eq!(s.board[7][7], -code);
        assert!(s.is_white_turn);
    }
}

#[test]
fn pawns_and_kings_are_no_promotion_choices() {
    let mut b = kings_only();
    b[1][0] = 1;
    let mut s = bare_state(b);
    assert_eq!(s.promote(PieceKind::Queen), Ok(MoveOutcome::Rejected));
    assert_eq!(s.make_move(1, 0, 0, 0), Ok(MoveOutcome::PromotionPending));
    let before = s;
    assert_eq!(s.promote(PieceKind::Pawn), Ok(MoveOutcome::Rejected));
    assert_eq!(s.promote(PieceKind::King), Ok(MoveOutcome::Rejected));
    assert_eq!(s, before);
}

#[test]
fn a_choice_that_leaves_the_king_in_check_keeps_the_promotion_pending() {
    let mut b = [[0; 8]; 8];
    b[7][4] = 6;
    b[0][4] = -4;
    b[0][0] = 1;
    b[3][7] = -6;
    let mut s = bare_state(b);
    s.promotion_pending = true;
    s.promotion_row = 0;
    s.promotion_col = 0;
    s.is_white_promoting = true;
    let before = s;
    assert_eq!(s.promote(PieceKind::Knight), Ok(MoveOutcome::PromotionPending));
    assert_eq!(s, before);
    assert!(s.promotion_pending);
    assert!(s.is_white_turn);
    assert_eq!(s.board[0][0], 1);
    assert_eq!(s.promote(PieceKind::Queen), Ok(MoveOutcome::PromotionPending));
    assert_eq!(s, before);
}

#[test]
fn a_pending_square_off_the_board_is_an_error() {
    let mut s = bare_state(kings_only());
    s.promotion_pending = true;
    s.promotion_row = 8;
    s.promotion_col = 0;
    let before = s;
    assert_eq!(s.promote(PieceKind::Queen), Err(BoardError::OutOfRange));
    assert_eq!(s, before);
    assert_eq!(s.promote(PieceKind::Pawn), Ok(MoveOutcome::Rejected));
}

#[test]
fn clicks_select_reselect_and_move() {
    let mut s = ChessGameState::new();
    assert_eq!(s.handle_click(4, 4), Ok(ClickOutcome::Ignored));
    assert_eq!(s.handle_click(1, 4), Ok(ClickOutcome::Ignored));
    assert_eq!((s.selected_square_row, s.selected_square_col), (-1, -1));
    assert_eq!(s.handle_click(6, 4), Ok(ClickOutcome::Selected));
    assert_eq!((s.selected_square_row, s.selected_square_col), (6, 4));
    assert_eq!(s.handle_click(7, 1), Ok(ClickOutcome::Selected));
    assert_eq!((s.selected_square_row, s.selected_square_col), (7, 1));
    assert_eq!(s.handle_click(5, 2), Ok(ClickOutcome::Moved(MoveOutcome::Played)));
    assert_eq!((s.selected_square_row, s.selected_square_col), (-1, -1));
    assert_eq!(s.board[5][2], 2);
    assert!(!s.is_white_turn);
    assert_eq!(s.handle_click(1, 3), Ok(ClickOutcome::Selected));
    assert_eq!(s.handle_click(4, 3), Ok(ClickOutcome::Moved(MoveOutcome::Rejected)));
    assert_eq!((s.selected_square_row, s.selected_square_col), (-1, -1));
    assert_eq!(s.board[1][3], -1);
    assert!(!s.is_white_turn);
}

#[test]
fn a_click_that_promotes_clears_the_selection() {
    let mut b = kings_only();
    b[1][0] = 1;
    let mut s = bare_state(b);
    assert_eq!(s.handle_click(1, 0), Ok(ClickOutcome::Selected));
    assert_eq!(
        s.handle_click(0, 0),
        Ok(ClickOutcome::Moved(MoveOutcome::PromotionPending))
    );
    assert_eq!((s.selected_square_row, s.selected_square_col), (-1, -1));
    assert!(s.promotion_pending);
}

#[test]
fn checkmate_ends_the_game() {
    let mut s = ChessGameState::new();
    assert_eq!(s.make_move(6, 5, 5, 5), Ok(MoveOutcome::Played));
    assert_eq!(s.make_move(1, 4, 3, 4), Ok(MoveOutcome::Played));
    assert_eq!(s.make_move(6, 6, 4, 6), Ok(MoveOutcome::Played));
    assert!(!s.game_over);
    assert_eq!(s.update_status(), GameStatus::Playing);
    assert_eq!(s.make_move(0, 3, 4, 7), Ok(MoveOutcome::Played));
    assert!(s.game_over);
    assert!(s.is_white_turn);
    assert_eq!(s.update_status(), GameStatus::Checkmate);
    assert!(is_king_in_check(&s.board, true, &s));
    for sr in 0..8 {
        for sc in 0..8 {
            for er in 0..8 {
                for ec in 0..8 {
                    assert_eq!(s.make_move(sr, sc, er, ec), Ok(MoveOutcome::Rejected));
                }
            }
        }
    }
}

#[test]
fn status_marks_a_checkmated_position_as_over() {
    let mut b = [[0; 8]; 8];
    b[0][7] = -6;
    b[1][6] = 5;
    b[2][5] = 6;
    let mut s = bare_state(b);
    s.is_white_turn = false;
    assert!(!s.game_over);
    assert_eq!(s.update_status(), GameStatus::Checkmate);
    assert!(s.game_over);
    let mut calm = ChessGameState::new();
    let before = calm;
    assert_eq!(calm.update_status(), GameStatus::Playing);
    assert_eq!(calm, before);
}

#[test]
fn the_board_after_a_move_shows_its_side_effects() {
    let mut b = kings_only();
    b[7][7] = 4;
    let after = play_on_board(&b, 7, 4, 7, 6);
    assert_eq!(after[7], [0, 0, 0, 0, 0, 4, 6, 0]);
    let mut b = kings_only();
    b[3][4] = 1;
    b[3][3] = -1;
    let after = play_on_board(&b, 3, 4, 2, 3);
    assert_eq!(after[2][3], 1);
    assert_eq!(after[3][3], 0);
    assert_eq!(after[3][4], 0);
    let mut b = kings_only();
    b[3][4] = 1;
    b[2][3] = -2;
    b[3][3] = -1;
    let after = play_on_board(&b, 3, 4, 2, 3);
    assert_eq!(after[2][3], 1);
    assert_eq!(after[3][3], -1);
}
