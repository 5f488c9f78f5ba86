use rchess::chess::{Chess, Color, Piece, PieceType};

#[test]
fn render_initial_position() {
    let game = Chess::new();
    let expected = "  A B C D E F G H\n\
                    1 ♜ ♞ ♝ ♛ ♚ ♝ ♞ ♜ 1 \n\
                    2 ♟ ♟ ♟ ♟ ♟ ♟ ♟ ♟ 2 \n\
                    3 . . . . . . . . 3 \n\
                    4 . . . . . . . . 4 \n\
                    5 . . . . . . . . 5 \n\
                    6 . . . . . . . . 6 \n\
                    7 ♙ ♙ ♙ ♙ ♙ ♙ ♙ ♙ 7 \n\
                    8 ♖ ♘ ♗ ♕ ♔ ♗ ♘ ♖ 8 \n\
                    \x20 A B C D E F G H\n";
    assert_eq!(game.render(), expected);
}

#[test]
fn render_after_a_move() {
    let mut game = Chess::new();
    assert_eq!(game.perform_move("A2A4"), Ok(()));
    let expected = "  A B C D E F G H\n\
                    1 ♜ ♞ ♝ ♛ ♚ ♝ ♞ ♜ 1 \n\
                    2 . ♟ ♟ ♟ ♟ ♟ ♟ ♟ 2 \n\
                    3 . . . . . . . . 3 \n\
                    4 ♟ . . . . . . . 4 \n\
                    5 . . . . . . . . 5 \n\
                    6 . . . . . . . . 6 \n\
                    7 ♙ ♙ ♙ ♙ ♙ ♙ ♙ ♙ 7 \n\
                    8 ♖ ♘ ♗ ♕ ♔ ♗ ♘ ♖ 8 \n\
                    \x20 A B C D E F G H\n";
    assert_eq!(game.render(), expected);
}

#[test]
fn twelve_distinct_glyphs() {
    let kinds = [
        PieceType::King,
        PieceType::Queen,
        PieceType::Rook,
        PieceType::Bishop,
        PieceType::Knight,
        PieceType::Pawn,
    ];
    let mut glyphs = Vec::new();
    for color in [Color::White, Color::Black] {
        for kind in kinds {
            glyphs.push(Piece::new(color, kind).letter());
        }
    }
    for i in 0..glyphs.len() {
        for j in 0..i {
            assert_ne!(glyphs[i], glyphs[j]);
        }
    }
}

#[test]
fn white_king_glyph() {
    assert_eq!(Piece::new(Color::White, PieceType::King).letter(), '♚');
    assert_eq!(Piece::new(Color::Black, PieceType::King).letter(), '♔');
}

#[test]
fn helper_coordinates() {
    assert_eq!(Chess::col_nr('A'), 0);
    assert_eq!(Chess::col_nr('H'), 7);
    assert_eq!(Chess::col_name(1), '1');
    assert_eq!(Chess::col_name(8), '8');
}
