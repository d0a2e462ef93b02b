use chess_multiplayer::chess_controller::{
    compose_move, incoming_move, move_accepted, move_answer, piece_images, square_text,
    ChessController, ClickAction, Color, Incoming, Square, Variety,
};

fn sq(variety: Variety, forward: i64) -> Square {
    Square { variety, forward }
}

/// Row 0 black pieces (forward 1), row 7 white pieces (forward -1), pawns on
/// rows 1 and 6, the rest empty.
fn start_board() -> Vec<Square> {
    let back = [
        Variety::Rook,
        Variety::Knight,
        Variety::Bishop,
        Variety::Queen,
        Variety::King,
        Variety::Bishop,
        Variety::Knight,
        Variety::Rook,
    ];
    let mut b = Vec::new();
    for row in 0..8 {
        for col in 0..8 {
            let s = match row {
                0 => sq(back[col], 1),
                1 => sq(Variety::Pawn, 1),
                6 => sq(Variety::Pawn, -1),
                7 => sq(back[col], -1),
                _ => sq(Variety::Empty, 1),
            };
            b.push(s);
        }
    }
    b
}

#[test]
fn square_names() {
    assert_eq!(square_text(&sq(Variety::Pawn, -1)), "white_pawn");
    assert_eq!(square_text(&sq(Variety::King, 1)), "black_king");
    assert_eq!(square_text(&sq(Variety::Empty, 1)), "black_ ");
    assert_eq!(square_text(&sq(Variety::Empty, -1)), "white_ ");
    assert_eq!(square_text(&sq(Variety::Queen, 0)), "black_queen");
}

#[test]
fn new_controller_draws_the_board() {
    let b = start_board();
    let c = ChessController::new(&b, true, Some(Color::White));
    assert!(!c.game_over);
    assert!(c.online);
    assert!(matches!(c.player_color, Some(Color::White)));
    assert!(c.selected_space.is_none() && c.highlighted_spaces.is_none());
    assert!(c.castling_possible.is_empty());
    assert_eq!(c.board_string.len(), 8);
    assert_eq!(c.board_string[0][4], "black_king");
    assert_eq!(c.board_string[7][3], "white_queen");
    assert_eq!(c.board_string[6][0], "white_pawn");
    assert_eq!(c.board_string[3][3], "black_ ");
}

#[test]
fn update_board_redraws() {
    let mut b = start_board();
    let mut c = ChessController::new(&b, false, None);
    b[4 * 8 + 4] = sq(Variety::Pawn, -1);
    b[6 * 8 + 4] = sq(Variety::Empty, 1);
    c.update_board(&b);
    assert_eq!(c.board_string[4][4], "white_pawn");
    assert_eq!(c.board_string[6][4], "black_ ");
}

#[test]
fn click_off_board_clears() {
    let b = start_board();
    let mut c = ChessController::new(&b, false, None);
    assert!(matches!(c.event(&b, Some((4, 6))), ClickAction::Chose { .. }));
    assert!(matches!(c.event(&b, None), ClickAction::Cleared));
    assert!(c.selected_space.is_none() && c.highlighted_spaces.is_none());
}

#[test]
fn select_then_move() {
    let b = start_board();
    let mut c = ChessController::new(&b, false, None);
    // the white pawn on column 4, screen row 6 (row 1 from the bottom)
    match c.event(&b, Some((4, 6))) {
        ClickAction::Chose { x, y, king } => {
            assert_eq!((x, y), (4, 1));
            assert!(!king);
        }
        _ => panic!("expected a selection"),
    }
    assert_eq!(c.selected_space, Some((4, 1)));
    // the engine answers with squares given as (column, row from the top)
    c.show_moves(&b, vec![(4, 5), (4, 4)], None, None);
    assert_eq!(c.highlighted_spaces, Some(vec![(4, 5), (4, 4)]));
    assert!(c.castling_possible.is_empty());
    // click the cell at column 4, screen row 4: square (4, 3)
    match c.event(&b, Some((4, 4))) {
        ClickAction::Play { castle, from, to, promote } => {
            assert!(castle.is_none());
            assert_eq!(from, (4, 1));
            assert_eq!(to, (4, 3));
            assert!(!promote);
        }
        _ => panic!("expected a move"),
    }
    assert!(c.selected_space.is_none() && c.highlighted_spaces.is_none());
}

#[test]
fn click_elsewhere_drops_selection() {
    let b = start_board();
    let mut c = ChessController::new(&b, false, None);
    c.event(&b, Some((4, 6)));
    c.show_moves(&b, vec![(4, 5)], None, None);
    assert!(matches!(c.event(&b, Some((0, 0))), ClickAction::Cleared));
    assert!(c.selected_space.is_none() && c.highlighted_spaces.is_none());
}

#[test]
fn pawn_reaching_last_row_promotes() {
    let mut b = vec![sq(Variety::Empty, 1); 64];
    b[1 * 8 + 2] = sq(Variety::Pawn, -1); // screen row 1, column 2: square (2, 6)
    let mut c = ChessController::new(&b, false, None);
    c.event(&b, Some((2, 1)));
    assert_eq!(c.selected_space, Some((2, 6)));
    c.show_moves(&b, vec![(2, 0)], None, None);
    match c.event(&b, Some((2, 0))) {
        ClickAction::Play { from, to, promote, .. } => {
            assert_eq!(from, (2, 6));
            assert_eq!(to, (2, 7));
            assert!(promote);
        }
        _ => panic!("expected a move"),
    }
}

#[test]
fn king_castling_offered_and_played() {
    let b = start_board();
    let mut c = ChessController::new(&b, false, None);
    match c.event(&b, Some((4, 7))) {
        ClickAction::Chose { x, y, king } => {
            assert_eq!((x, y), (4, 0));
            assert!(king);
        }
        _ => panic!("expected a selection"),
    }
    c.show_moves(&b, vec![], Some((6, 7)), Some((2, 7)));
    assert_eq!(c.highlighted_spaces, Some(vec![(6, 7), (2, 7)]));
    assert_eq!(c.castling_possible.len(), 2);
    assert_eq!(c.castling_possible[0].0, "O-O");
    assert_eq!(c.castling_possible[0].1, (6, 7));
    assert_eq!(c.castling_possible[1].0, "O-O-O");
    match c.event(&b, Some((2, 7))) {
        ClickAction::Play { castle, from, to, promote } => {
            assert_eq!(castle, Some("O-O-O".to_string()));
            assert_eq!(from, (4, 0));
            assert_eq!(to, (2, 0));
            assert!(!promote);
        }
        _ => panic!("expected a move"),
    }
    assert!(c.castling_possible.is_empty());
}

#[test]
fn castling_not_offered_to_other_pieces() {
    let b = start_board();
    let mut c = ChessController::new(&b, false, None);
    c.event(&b, Some((0, 7)));
    c.show_moves(&b, vec![(0, 5)], Some((6, 7)), Some((2, 7)));
    assert_eq!(c.highlighted_spaces, Some(vec![(0, 5)]));
    assert!(c.castling_possible.is_empty());
}

#[test]
fn entries_off_the_board_match_nothing() {
    let b = start_board();
    let mut c = ChessController::new(&b, false, None);
    c.event(&b, Some((4, 6)));
    c.show_moves(&b, vec![(4, 9), (4 + 256, 5)], None, None);
    // the second entry's column reads as byte 4
    assert!(matches!(c.event(&b, Some((4, 5))), ClickAction::Play { .. }));
    c.event(&b, Some((4, 6)));
    c.show_moves(&b, vec![(4, 9)], None, None);
    assert!(matches!(c.event(&b, Some((4, 0))), ClickAction::Cleared));
}

#[test]
fn game_over_ignores_clicks() {
    let b = start_board();
    let mut c = ChessController::new(&b, false, None);
    c.finish_move(true, &b);
    assert!(c.game_over);
    assert!(matches!(c.event(&b, Some((4, 6))), ClickAction::Ignored));
    assert!(c.selected_space.is_none());
}

#[test]
fn finish_move_redraws() {
    let mut b = start_board();
    let mut c = ChessController::new(&b, false, None);
    b[0] = sq(Variety::Empty, 1);
    c.finish_move(false, &b);
    assert!(!c.game_over);
    assert_eq!(c.board_string[0][0], "black_ ");
}

#[test]
fn show_moves_without_selection_changes_nothing() {
    let b = start_board();
    let mut c = ChessController::new(&b, false, None);
    c.show_moves(&b, vec![(1, 1)], None, None);
    assert!(c.highlighted_spaces.is_none());
}

#[test]
fn move_text() {
    assert_eq!(compose_move("e2", "e4", false), "e2 e4");
    assert_eq!(compose_move("a7", "a8", true), "a7 a8=Q");
}

#[test]
fn incoming_messages() {
    assert!(matches!(incoming_move(&[1, 3, 0, 0, 0]), Incoming::Play(ref s) if s == "0-0"));
    assert!(matches!(incoming_move(&[1, 0, 0, 0, 0]), Incoming::Play(ref s) if s == "reg"));
    assert!(matches!(incoming_move(&[1, 9, 0, 0, 0]), Incoming::Malformed));
    assert!(matches!(incoming_move(&[3, 3, 3, 3, 3]), Incoming::Refresh));
}

#[test]
fn move_answers() {
    assert_eq!(move_answer(true), [3u8; 5]);
    assert_eq!(move_answer(false), [0u8; 5]);
    assert!(move_accepted(&move_answer(true)));
    assert!(!move_accepted(&move_answer(false)));
    assert!(move_accepted(&[3, 0, 0, 0, 0]));
}

#[test]
fn images() {
    let v = piece_images();
    assert_eq!(v.len(), 12);
    assert_eq!(v[0], ("white_pawn".to_string(), "./chess_gui/Chess pieces/white_pawn.png".to_string()));
    assert_eq!(v[5].0, "white_queen");
    assert_eq!(v[6].0, "black_pawn");
    assert_eq!(v[11], ("black_queen".to_string(), "./chess_gui/Chess pieces/black_queen.png".to_string()));
}
