use chess_client::board::{BoardView, Color, Piece, PieceType, Square};

fn lone_queen() -> BoardView {
    let mut squares = [[None; 8]; 8];
    squares[2][5] = Some(Piece { color: Color::Black, piece_type: PieceType::Queen });
    BoardView {
        squares,
        turn: Color::White,
        legal_moves: Vec::new(),
        check: false,
        checkmate: false,
        stalemate: false,
    }
}

#[test]
fn opposite_swaps_the_sides() {
    assert_eq!(Color::White.opposite(), Color::Black);
    assert_eq!(Color::Black.opposite(), Color::White);
    assert_eq!(Color::White.opposite().opposite(), Color::White);
}

#[test]
fn piece_at_reads_by_file_and_row() {
    let board = lone_queen();
    assert_eq!(
        board.piece_at(Square { file: 5, row: 2 }),
        Some(Piece { color: Color::Black, piece_type: PieceType::Queen })
    );
    assert_eq!(board.piece_at(Square { file: 2, row: 5 }), None);
    assert_eq!(board.piece_at(Square { file: 0, row: 0 }), None);
    assert_eq!(board.piece_at(Square { file: 7, row: 7 }), None);
}

#[test]
fn squares_off_the_board_hold_nothing() {
    let board = lone_queen();
    assert_eq!(board.piece_at(Square { file: 8, row: 2 }), None);
    assert_eq!(board.piece_at(Square { file: 5, row: 8 }), None);
    assert_eq!(board.piece_at(Square { file: 255, row: 255 }), None);
    // Not even by wrapping round to a square that holds a piece.
    assert_eq!(board.piece_at(Square { file: 5 + 8, row: 2 }), None);
}
