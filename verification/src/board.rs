//! A plain-value picture of the rules engine's position.
//!
//! The rules engine itself lives outside this crate. What the controller
//! reads of it (the pieces on the squares, the side to move, the legal moves
//! and the check flags) is carried here as ordinary data.

use vstd::prelude::*;

verus! {

#[derive(Clone, Copy, Debug, PartialEq, Eq, Structural)]
pub enum Color {
    White,
    Black,
}

impl Color {
    pub open spec fn spec_opposite(self) -> Color {
        match self {
            Color::White => Color::Black,
            Color::Black => Color::White,
        }
    }

    /// The other side.
    #[verifier::when_used_as_spec(spec_opposite)]
    pub fn opposite(self) -> (r: Color)
        ensures
            r == self.spec_opposite(),
    {
        match self {
            Color::White => Color::Black,
            Color::Black => Color::White,
        }
    }
}

#[derive(Clone, Copy, Debug, PartialEq, Eq, Structural)]
pub enum PieceType {
    Pawn,
    Rook,
    Knight,
    Bishop,
    Queen,
    King,
}

#[derive(Clone, Copy, Debug, PartialEq, Eq, Structural)]
pub struct Piece {
    pub color: Color,
    pub piece_type: PieceType,
}

/// A square by file (0 is the a-file) and row (0 is the top row of the
/// window).
#[derive(Clone, Copy, Debug, PartialEq, Eq, Structural)]
pub struct Square {
    pub file: u8,
    pub row: u8,
}

impl Square {
    pub open spec fn on_board(self) -> bool {
        self.file < 8 && self.row < 8
    }
}

/// The `k`-th square in the order in which the board is searched: file by
/// file, each file from row 0 on.
pub open spec fn scan_square(k: int) -> Square {
    Square { file: (k / 8) as u8, row: (k % 8) as u8 }
}

/// The place of a square in the order of the search.
pub open spec fn scan_rank(sq: Square) -> int {
    sq.file * 8 + sq.row
}

/// A move as the rules engine states it.
#[derive(Clone, Copy, Debug, PartialEq, Eq)]
pub struct Move {
    pub from: Square,
    pub to: Square,
    pub promotion: Option<PieceType>,
}

/// What the controller reads of a position.
#[derive(Debug, PartialEq, Eq)]
pub struct BoardView {
    /// The pieces, indexed by row and then by file.
    pub squares: [[Option<Piece>; 8]; 8],
    /// The side to move.
    pub turn: Color,
    /// Every legal move of the side to move, in the engine's order.
    pub legal_moves: Vec<Move>,
    pub check: bool,
    pub checkmate: bool,
    pub stalemate: bool,
}

impl BoardView {
    /// The piece on a square; squares off the board hold none.
    pub open spec fn spec_piece_at(self, sq: Square) -> Option<Piece> {
        if sq.on_board() {
            self.squares[sq.row as int][sq.file as int]
        } else {
            None
        }
    }

    /// Whether the king of `color` stands on the square.
    pub open spec fn king_on(self, color: Color, sq: Square) -> bool {
        self.spec_piece_at(sq) == Some(Piece { color, piece_type: PieceType::King })
    }

    /// The first square from the `k`-th on, in the order of the search, that
    /// holds the king of `color`.
    pub open spec fn king_from(self, color: Color, k: int) -> Option<Square>
        decreases 64 - k,
    {
        if k < 0 || k >= 64 {
            None
        } else if self.king_on(color, scan_square(k)) {
            Some(scan_square(k))
        } else {
            self.king_from(color, k + 1)
        }
    }

    /// The square of the king of `color`: the first that holds it when the
    /// board is searched file by file.
    pub open spec fn king_square(self, color: Color) -> Option<Square> {
        self.king_from(color, 0)
    }

    /// The piece on a square; squares off the board hold none.
    pub fn piece_at(&self, sq: Square) -> (r: Option<Piece>)
        ensures
            r == self.spec_piece_at(sq),
    {
        if sq.file < 8 && sq.row < 8 {
            self.squares[sq.row as usize][sq.file as usize]
        } else {
            None
        }
    }
}

/// The search from the `k`-th square on finds the king on the first square
/// that holds it, and finds nothing only if no square from there on holds it.
pub proof fn lemma_king_from(board: BoardView, color: Color, k: int)
    requires
        0 <= k <= 64,
    ensures
        match board.king_from(color, k) {
            Some(sq) => {
                &&& sq.on_board()
                &&& k <= scan_rank(sq)
                &&& board.king_on(color, sq)
                &&& forall|o: Square|
                    o.on_board() && k <= scan_rank(o) && board.king_on(color, o) ==> scan_rank(sq)
                        <= scan_rank(o)
            },
            None => forall|o: Square|
                o.on_board() && k <= scan_rank(o) ==> !board.king_on(color, o),
        },
    decreases 64 - k,
{
    if k < 64 {
        lemma_king_from(board, color, k + 1);
        let here = scan_square(k);
        assert(here.on_board() && scan_rank(here) == k);
        assert forall|o: Square| o.on_board() && scan_rank(o) == k implies o == here by {
            assert(o.file == here.file && o.row == here.row);
        }
    }
}

/// The king's square is a square of the board that holds the king, the first
/// such in the order of the search; there is none only if no square holds
/// the king.
pub proof fn lemma_king_square(board: BoardView, color: Color)
    ensures
        match board.king_square(color) {
            Some(sq) => {
                &&& sq.on_board()
                &&& board.king_on(color, sq)
                &&& forall|o: Square|
                    o.on_board() && board.king_on(color, o) ==> scan_rank(sq) <= scan_rank(o)
            },
            None => forall|o: Square| o.on_board() ==> !board.king_on(color, o),
        },
{
    lemma_king_from(board, color, 0);
}

} // verus!
