//! The interaction state machine.
//!
//! The controller owns what the user sees of a game besides the pieces: the
//! selected square and its candidate moves, the pending promotion, the end of
//! the game, the square in check, the last move and the animations under way.
//! It turns input into state changes and into commands for its driver. The
//! driver owns the rules engine and the connection: when the controller
//! commits to a move, the driver applies it to the engine and hands the new
//! position back through [`ChessController::make_move`].

use vstd::prelude::*;
use crate::animation::{
    AnimatePosition, AnimateValue, Animation, AnimationTimingFunction, PositionModel, Timing,
    ValueModel, UNIT,
};
use crate::board::{BoardView, Color, Move, Piece, PieceType, Square};
use crate::peer::{make_move, spec_announcement, ClientMessage};

verus! {

/// How long a piece glides from square to square, in microseconds.
pub const MOVE_DURATION: u64 = 200_000;

/// How long the promotion dialog and the end-of-game banner fade, in
/// microseconds.
pub const FADE_DURATION: u64 = 100_000;

/// The width that the promotion dialog is laid out for, in millionths of a
/// pixel.
pub const DIALOG_WIDTH: i64 = 600_000_000;

/// The side of one box of the promotion dialog: an eighth of the width.
pub const SLOT_SIZE: i64 = 75_000_000;

/// The gap between two boxes of the promotion dialog.
pub const SLOT_GAP: i64 = 10_000_000;

/// How a game has ended.
#[derive(Clone, Copy, Debug, PartialEq, Eq, Structural)]
pub enum EndState {
    Stalemate,
    BlackWins,
    WhiteWins,
}

/// What the driver reports to the controller.
#[derive(Clone, Copy, Debug, PartialEq, Eq, Structural)]
pub enum Input {
    /// The key that starts a new game was pressed.
    Reset,
    /// The pointer moved to this place, in millionths of a pixel from the
    /// top left corner of the board.
    Cursor(i64, i64),
    /// The main pointer button was pressed.
    Press,
    /// Anything else.
    Other,
}

/// What the controller asks of its driver.
#[derive(Clone, Copy, Debug, PartialEq, Eq)]
pub enum Command {
    Nothing,
    /// Start over: a fresh engine, a fresh connection, a fresh controller.
    Reset,
    /// Send `announce` to the remote peer, apply `mv` to the engine and hand
    /// the position that results to [`ChessController::make_move`].
    Commit { mv: Move, announce: ClientMessage },
}

/// The state that the controller is in, as its driver experiences it.
#[derive(Clone, Copy, Debug, PartialEq, Eq, Structural)]
pub enum Mode {
    Idle,
    PieceSelected,
    PromotionPending,
    Animating,
    GameEnded,
}

/// The board cell along one axis that a pointer coordinate falls into: the
/// coordinate divided by an eighth of the window's extent, cut off to a whole.
/// Coordinates outside the window fall into no cell.
pub open spec fn cell_index(pos: int, extent: int) -> Option<int> {
    if 0 <= pos < extent * UNIT {
        Some((8 * pos) / (extent * UNIT))
    } else {
        None
    }
}

/// The square under the pointer in a window of the given size in pixels.
pub open spec fn spec_cell_at(cursor: (int, int), size: (int, int)) -> Option<Square> {
    match (cell_index(cursor.0, size.0), cell_index(cursor.1, size.1)) {
        (Some(file), Some(row)) => Some(Square { file: file as u8, row: row as u8 }),
        _ => None,
    }
}

/// The top left corner of box `i` of the promotion dialog: four boxes in a
/// row, centred in the window.
pub open spec fn spec_slot_origin(i: int) -> (int, int) {
    (
        DIALOG_WIDTH / 2 - (SLOT_SIZE + SLOT_GAP) * 2 + SLOT_GAP / 2 + (SLOT_SIZE + SLOT_GAP) * i,
        DIALOG_WIDTH / 2 - SLOT_SIZE / 2,
    )
}

/// Whether the pointer is strictly inside box `i` of the promotion dialog.
pub open spec fn in_slot(cursor: (int, int), i: int) -> bool {
    let o = spec_slot_origin(i);
    o.0 < cursor.0 < o.0 + SLOT_SIZE && o.1 < cursor.1 < o.1 + SLOT_SIZE
}

/// The box of the promotion dialog that the pointer is in, if any.
pub open spec fn spec_slot_at(cursor: (int, int)) -> Option<int> {
    if in_slot(cursor, 0) {
        Some(0)
    } else if in_slot(cursor, 1) {
        Some(1)
    } else if in_slot(cursor, 2) {
        Some(2)
    } else if in_slot(cursor, 3) {
        Some(3)
    } else {
        None
    }
}

/// The piece that box `i` of the promotion dialog offers, from left to
/// right: queen, rook, bishop, knight.
pub open spec fn spec_promotion_choice(i: int) -> PieceType {
    if i == 0 {
        PieceType::Queen
    } else if i == 1 {
        PieceType::Rook
    } else if i == 2 {
        PieceType::Bishop
    } else {
        PieceType::Knight
    }
}

/// The moves that start on `sq`.
pub open spec fn from_is(sq: Square) -> spec_fn(Move) -> bool {
    |m: Move| m.from == sq
}

/// The moves that end on `sq`.
pub open spec fn to_is(sq: Square) -> spec_fn(Move) -> bool {
    |m: Move| m.to == sq
}

/// The first of `moves` that ends on `sq`.
pub open spec fn candidate(moves: Seq<Move>, sq: Square) -> Option<Move> {
    let hits = moves.filter(to_is(sq));
    if hits.len() > 0 {
        Some(hits[0])
    } else {
        None
    }
}

/// Whether `mv` takes a pawn to the farthest row of either side.
pub open spec fn is_promotion(board: BoardView, mv: Move) -> bool {
    &&& board.spec_piece_at(mv.from) matches Some(p)
    &&& p.piece_type == PieceType::Pawn
    &&& (mv.to.row == 0 || mv.to.row == 7)
}

/// The rook's part of a castling move: a king that goes from file 4 to file 6
/// takes the rook from file 7 to file 5 of the row that the king starts on;
/// one that goes to file 2 takes the rook from file 0 to file 3 of that row.
/// Nothing else moves a second piece.
pub open spec fn castle_rook_move(board: BoardView, from: Square, to: Square) -> Option<
    (Square, Square),
> {
    if board.spec_piece_at(from) matches Some(p) && p.piece_type == PieceType::King && from.file
        == 4 {
        if to.file == 6 {
            Some((Square { file: 7, row: from.row }, Square { file: 5, row: from.row }))
        } else if to.file == 2 {
            Some((Square { file: 0, row: from.row }, Square { file: 3, row: from.row }))
        } else {
            None
        }
    } else {
        None
    }
}

/// The animation of one piece that goes from `from` to `to`.
pub open spec fn glide(from: Square, to: Square) -> PositionModel {
    PositionModel {
        start: (from.file * UNIT, from.row * UNIT),
        end: (to.file * UNIT, to.row * UNIT),
        timing: Timing {
            elapsed: 0,
            span: MOVE_DURATION as nat,
            curve: AnimationTimingFunction::Ease,
        },
    }
}

/// The animations that a move starts: the moving piece, and the rook if the
/// move castles.
pub open spec fn move_animations(board: BoardView, mv: Move) -> Seq<PositionModel> {
    match castle_rook_move(board, mv.from, mv.to) {
        Some((from, to)) => seq![glide(mv.from, mv.to), glide(from, to)],
        None => seq![glide(mv.from, mv.to)],
    }
}

/// One animation, `dt` microseconds later.
pub open spec fn ticked(dt: nat) -> spec_fn(PositionModel) -> PositionModel {
    |a: PositionModel| PositionModel { timing: a.timing.tick(dt), ..a }
}

/// The animations that have not reached their end.
pub open spec fn running() -> spec_fn(PositionModel) -> bool {
    |a: PositionModel| !a.timing.is_done()
}

/// The animations `dt` microseconds later, without those that are done by
/// then.
pub open spec fn advance(animations: Seq<PositionModel>, dt: nat) -> Seq<PositionModel> {
    animations.map_values(ticked(dt)).filter(running())
}

/// How the game stands in a position: a side that is mated has lost, a
/// stalemate is a draw.
pub open spec fn outcome(board: BoardView) -> Option<EndState> {
    if board.checkmate {
        if board.turn == Color::White {
            Some(EndState::BlackWins)
        } else {
            Some(EndState::WhiteWins)
        }
    } else if board.stalemate {
        Some(EndState::Stalemate)
    } else {
        None
    }
}

/// How opaque an overlay is, in millionths: while it is shown it fades in
/// with its animation, while it is hidden it fades out with it.
pub open spec fn fade(shown: bool, animation: ValueModel) -> int {
    if shown {
        animation.timing.progress()
    } else {
        UNIT - animation.timing.progress()
    }
}

/// The point of a square in the coordinates of the animations: whole
/// squares, in millionths.
pub open spec fn square_point(sq: Square) -> (int, int) {
    (sq.file * UNIT, sq.row * UNIT)
}

/// Whether one of the animations ends on `sq`.
pub open spec fn lands_on(animations: Seq<PositionModel>, sq: Square) -> bool {
    exists|i: int| 0 <= i < animations.len() && (#[trigger] animations[i]).end == square_point(sq)
}

/// A fade that has run to its end.
pub open spec fn settled_fade() -> ValueModel {
    ValueModel {
        start: 0,
        end: UNIT as int,
        timing: Timing {
            elapsed: FADE_DURATION as nat,
            span: FADE_DURATION as nat,
            curve: AnimationTimingFunction::Ease,
        },
    }
}

/// The ghost picture of a controller.
pub struct ControllerModel {
    pub board: BoardView,
    pub remote: Color,
    pub from: Option<Square>,
    pub last_from: Option<Square>,
    pub last_to: Option<Square>,
    pub moves: Seq<Move>,
    pub check: Option<Square>,
    pub cursor_pos: (int, int),
    pub animations: Seq<PositionModel>,
    pub promotion_move: Option<Move>,
    pub promotion_dialog: bool,
    pub promotion_color: Color,
    pub promotion_animation: ValueModel,
    pub end_state_show: bool,
    pub end_state: Option<EndState>,
    pub end_state_animation: ValueModel,
}

impl ControllerModel {
    /// The controller at the start of a game.
    pub open spec fn initial(board: BoardView, remote: Color) -> ControllerModel {
        ControllerModel {
            board,
            remote,
            from: None,
            last_from: None,
            last_to: None,
            moves: Seq::empty(),
            check: None,
            cursor_pos: (0, 0),
            animations: Seq::empty(),
            promotion_move: None,
            promotion_dialog: false,
            promotion_color: Color::White,
            promotion_animation: settled_fade(),
            end_state_show: true,
            end_state: None,
            end_state_animation: settled_fade(),
        }
    }

    /// The state that decides what a press of the pointer does.
    pub open spec fn mode(self) -> Mode {
        if self.animations.len() > 0 {
            Mode::Animating
        } else if self.end_state is Some {
            Mode::GameEnded
        } else if self.promotion_dialog {
            Mode::PromotionPending
        } else if self.from is Some {
            Mode::PieceSelected
        } else {
            Mode::Idle
        }
    }

    /// The side that this instance plays.
    pub open spec fn local(self) -> Color {
        self.remote.spec_opposite()
    }

    /// Whether the next move is the remote peer's to make.
    pub open spec fn awaiting_remote(self) -> bool {
        self.end_state is None && self.board.turn == self.remote
    }

    /// The command that commits to `mv`.
    pub open spec fn commit(self, mv: Move) -> Command {
        Command::Commit { mv, announce: spec_announcement(mv, self.local()) }
    }

    pub open spec fn clear_selection(self) -> ControllerModel {
        ControllerModel { from: None, moves: Seq::empty(), ..self }
    }

    pub open spec fn close_dialog(self) -> ControllerModel {
        ControllerModel {
            promotion_move: None,
            promotion_dialog: false,
            promotion_animation: ValueModel {
                timing: self.promotion_animation.timing.reset(),
                ..self.promotion_animation
            },
            ..self
        }
    }

    /// A press while the game is over shows or hides the banner.
    pub open spec fn press_ended(self) -> ControllerModel {
        ControllerModel {
            end_state_show: !self.end_state_show,
            end_state_animation: ValueModel {
                timing: self.end_state_animation.timing.reset(),
                ..self.end_state_animation
            },
            ..self
        }
    }

    /// A press while the promotion dialog is open: inside a box it completes
    /// the pending move with the piece of that box and commits to it;
    /// anywhere else it drops the pending move and the selection.
    pub open spec fn press_dialog(self) -> (ControllerModel, Command) {
        match (spec_slot_at(self.cursor_pos), self.promotion_move) {
            (Some(i), Some(mv)) => (
                self.close_dialog(),
                self.commit(Move { promotion: Some(spec_promotion_choice(i)), ..mv }),
            ),
            _ => (self.close_dialog().clear_selection(), Command::Nothing),
        }
    }

    /// A press on a candidate destination: a pawn that reaches the farthest
    /// row opens the promotion dialog, any other move is committed to.
    pub open spec fn press_candidate(self, mv: Move) -> (ControllerModel, Command) {
        if is_promotion(self.board, mv) {
            (
                ControllerModel {
                    promotion_color: self.board.turn,
                    promotion_move: Some(Move { promotion: None, ..mv }),
                    promotion_dialog: true,
                    promotion_animation: ValueModel {
                        timing: self.promotion_animation.timing.reset(),
                        ..self.promotion_animation
                    },
                    ..self
                },
                Command::Nothing,
            )
        } else {
            (self, self.commit(mv))
        }
    }

    /// A press on a square that is no candidate destination selects the
    /// square if legal moves start there, and clears the selection if not.
    pub open spec fn press_select(self, sq: Square) -> ControllerModel {
        let moves = self.board.legal_moves@.filter(from_is(sq));
        if moves.len() > 0 {
            ControllerModel { from: Some(sq), moves, ..self }
        } else {
            self.clear_selection()
        }
    }

    /// A press on the board.
    pub open spec fn press_board(self, size: (int, int)) -> (ControllerModel, Command) {
        match spec_cell_at(self.cursor_pos, size) {
            Some(sq) => match candidate(self.moves, sq) {
                Some(mv) => self.press_candidate(mv),
                None => (self.press_select(sq), Command::Nothing),
            },
            None => (self.clear_selection(), Command::Nothing),
        }
    }

    /// A press of the pointer: ignored while animations run, then by mode.
    pub open spec fn press(self, size: (int, int)) -> (ControllerModel, Command) {
        if self.animations.len() > 0 {
            (self, Command::Nothing)
        } else if self.end_state is Some {
            (self.press_ended(), Command::Nothing)
        } else if self.promotion_dialog {
            self.press_dialog()
        } else {
            self.press_board(size)
        }
    }

    /// The state after an input and the command that it gives.
    pub open spec fn step(self, size: (int, int), e: Input) -> (ControllerModel, Command) {
        match e {
            Input::Reset => (self, Command::Reset),
            Input::Cursor(x, y) => (
                ControllerModel { cursor_pos: (x as int, y as int), ..self },
                Command::Nothing,
            ),
            Input::Press => self.press(size),
            Input::Other => (self, Command::Nothing),
        }
    }

    /// The state after the engine has applied `mv` and stands at `after`.
    pub open spec fn make_move(self, mv: Move, after: BoardView) -> ControllerModel {
        let ended = outcome(after);
        ControllerModel {
            board: after,
            animations: move_animations(self.board, mv),
            last_from: Some(mv.from),
            last_to: Some(mv.to),
            check: if after.check || after.checkmate {
                after.king_square(after.turn)
            } else {
                None
            },
            from: None,
            moves: Seq::empty(),
            end_state: if ended is Some {
                ended
            } else {
                self.end_state
            },
            end_state_animation: if ended is Some {
                ValueModel {
                    timing: self.end_state_animation.timing.reset(),
                    ..self.end_state_animation
                }
            } else {
                self.end_state_animation
            },
            ..self
        }
    }

    /// The state `dt` microseconds later.
    pub open spec fn update(self, dt: nat) -> ControllerModel {
        ControllerModel {
            end_state_animation: if self.end_state is Some {
                ValueModel {
                    timing: self.end_state_animation.timing.tick(dt),
                    ..self.end_state_animation
                }
            } else {
                self.end_state_animation
            },
            promotion_animation: ValueModel {
                timing: self.promotion_animation.timing.tick(dt),
                ..self.promotion_animation
            },
            animations: advance(self.animations, dt),
            ..self
        }
    }
}

/// The controller of one game.
#[derive(Debug)]
pub struct ChessController {
    /// The position, as the engine last reported it.
    pub board: BoardView,
    /// The side that the remote peer plays.
    pub remote: Color,
    /// The selected square.
    pub from: Option<Square>,
    pub last_from: Option<Square>,
    pub last_to: Option<Square>,
    /// The candidate moves: the legal moves that start on the selected
    /// square.
    pub moves: Vec<Move>,
    /// The square of the king that is in check.
    pub check: Option<Square>,
    /// The pointer, in millionths of a pixel.
    pub cursor_pos: (i64, i64),
    /// The animations under way; while there are any, presses are ignored.
    pub animations: Vec<AnimatePosition>,
    /// The move that waits for its promotion piece.
    pub promotion_move: Option<Move>,
    pub promotion_dialog: bool,
    pub promotion_color: Color,
    pub promotion_animation: AnimateValue,
    pub end_state_show: bool,
    pub end_state: Option<EndState>,
    pub end_state_animation: AnimateValue,
}

/// The ghost pictures of a list of animations.
pub open spec fn models(animations: Seq<AnimatePosition>) -> Seq<PositionModel> {
    animations.map_values(|a: AnimatePosition| a@)
}

impl View for ChessController {
    type V = ControllerModel;

    open spec fn view(&self) -> ControllerModel {
        ControllerModel {
            board: self.board,
            remote: self.remote,
            from: self.from,
            last_from: self.last_from,
            last_to: self.last_to,
            moves: self.moves@,
            check: self.check,
            cursor_pos: (self.cursor_pos.0 as int, self.cursor_pos.1 as int),
            animations: models(self.animations@),
            promotion_move: self.promotion_move,
            promotion_dialog: self.promotion_dialog,
            promotion_color: self.promotion_color,
            promotion_animation: self.promotion_animation@,
            end_state_show: self.end_state_show,
            end_state: self.end_state,
            end_state_animation: self.end_state_animation@,
        }
    }
}

/// The board cell along one axis that a pointer coordinate falls into.
fn axis_cell(pos: i64, extent: u32) -> (r: Option<u8>)
    ensures
        match r {
            Some(c) => cell_index(pos as int, extent as int) == Some(c as int) && c < 8,
            None => cell_index(pos as int, extent as int) is None,
        },
{
    let whole: u64 = extent as u64 * UNIT;
    if pos >= 0 && (pos as u64) < whole {
        let cell: u64 = (8 * (pos as u64)) / whole;
        assert(cell < 8) by (nonlinear_arith)
            requires
                cell == (8 * pos) / (whole as int),
                0 <= pos < whole,
        ;
        Some(cell as u8)
    } else {
        None
    }
}

/// The square under the pointer in a window of the given size in pixels, or
/// none if the pointer is outside the window.
pub fn cell_at(cursor: (i64, i64), size: [u32; 2]) -> (r: Option<Square>)
    ensures
        r == spec_cell_at(
            (cursor.0 as int, cursor.1 as int),
            (size[0] as int, size[1] as int),
        ),
        r matches Some(sq) ==> sq.on_board(),
{
    match (axis_cell(cursor.0, size[0]), axis_cell(cursor.1, size[1])) {
        (Some(file), Some(row)) => Some(Square { file, row }),
        _ => None,
    }
}

/// The top left corner of box `i` of the promotion dialog, in millionths of
/// a pixel.
pub fn slot_origin(i: u8) -> (r: (i64, i64))
    ensures
        (r.0 as int, r.1 as int) == spec_slot_origin(i as int),
{
    (
        DIALOG_WIDTH / 2 - (SLOT_SIZE + SLOT_GAP) * 2 + SLOT_GAP / 2 + (SLOT_SIZE + SLOT_GAP) * (
        i as i64),
        DIALOG_WIDTH / 2 - SLOT_SIZE / 2,
    )
}

/// The box of the promotion dialog that the pointer is in, if any.
pub fn slot_at(cursor: (i64, i64)) -> (r: Option<u8>)
    ensures
        match r {
            Some(i) => spec_slot_at((cursor.0 as int, cursor.1 as int)) == Some(i as int) && i < 4,
            None => spec_slot_at((cursor.0 as int, cursor.1 as int)) is None,
        },
{
    let mut i: u8 = 0;
    while i < 4
        invariant
            i <= 4,
            forall|j: int| 0 <= j < i ==> !in_slot((cursor.0 as int, cursor.1 as int), j),
        decreases 4 - i,
    {
        let (x, y) = slot_origin(i);
        if cursor.0 > x && cursor.0 < x + SLOT_SIZE && cursor.1 > y && cursor.1 < y + SLOT_SIZE {
            return Some(i);
        }
        i = i + 1;
    }
    None
}

/// The piece that box `i` of the promotion dialog offers.
pub fn promotion_choice(i: u8) -> (r: PieceType)
    ensures
        r == spec_promotion_choice(i as int),
{
    if i == 0 {
        PieceType::Queen
    } else if i == 1 {
        PieceType::Rook
    } else if i == 2 {
        PieceType::Bishop
    } else {
        PieceType::Knight
    }
}

/// The first of `moves` that ends on `sq`.
pub fn find_candidate(moves: &Vec<Move>, sq: Square) -> (r: Option<Move>)
    ensures
        r == candidate(moves@, sq),
{
    let mut i: usize = 0;
    while i < moves.len()
        invariant
            i <= moves.len(),
            moves@.take(i as int).filter(to_is(sq)).len() == 0,
        decreases moves.len() - i,
    {
        let m = moves[i];
        proof {
            let before = moves@.take(i as int);
            let after = moves@.skip(i as int + 1);
            assert(moves@.take(i as int + 1) =~= before.push(m));
            before.lemma_filter_push(m, to_is(sq));
            if m.to == sq {
                assert(moves@ =~= before.push(m) + after);
                Seq::filter_distributes_over_add(before.push(m), after, to_is(sq));
                assert(before.push(m).filter(to_is(sq)) =~= seq![m]);
            }
        }
        if m.to.file == sq.file && m.to.row == sq.row {
            return Some(m);
        }
        i = i + 1;
    }
    assert(moves@.take(moves.len() as int) =~= moves@);
    None
}

/// The moves of `legal` that start on `sq`, in their order.
pub fn select_moves(legal: &Vec<Move>, sq: Square) -> (r: Vec<Move>)
    ensures
        r@ == legal@.filter(from_is(sq)),
{
    let mut out: Vec<Move> = Vec::new();
    let mut i: usize = 0;
    assert(legal@.take(0) =~= Seq::<Move>::empty());
    assert(Seq::<Move>::empty().filter(from_is(sq)) =~= Seq::<Move>::empty()) by {
        reveal(Seq::filter);
    }
    while i < legal.len()
        invariant
            i <= legal.len(),
            out@ == legal@.take(i as int).filter(from_is(sq)),
        decreases legal.len() - i,
    {
        let m = legal[i];
        proof {
            assert(legal@.take(i as int + 1) =~= legal@.take(i as int).push(m));
            legal@.take(i as int).lemma_filter_push(m, from_is(sq));
        }
        if m.from.file == sq.file && m.from.row == sq.row {
            out.push(m);
        }
        i = i + 1;
    }
    assert(legal@.take(legal.len() as int) =~= legal@);
    out
}

/// The animation of one piece that goes from `from` to `to`.
fn glide_animation(from: Square, to: Square) -> (r: AnimatePosition)
    ensures
        r@ == glide(from, to),
{
    AnimatePosition::new().duration(MOVE_DURATION).timing_function(
        AnimationTimingFunction::Ease,
    ).start((from.file as i64 * 1_000_000, from.row as i64 * 1_000_000)).end(
        (to.file as i64 * 1_000_000, to.row as i64 * 1_000_000),
    )
}

/// A fade that has run to its end.
fn settled_fade_animation() -> (r: AnimateValue)
    ensures
        r@ == settled_fade(),
{
    let mut fade = AnimateValue::new().duration(FADE_DURATION).timing_function(
        AnimationTimingFunction::Ease,
    );
    fade.finish()
}

/// The animations `dt` microseconds later, without those that are done by
/// then.
pub fn advance_all(animations: &Vec<AnimatePosition>, dt: u64) -> (r: Vec<AnimatePosition>)
    ensures
        models(r@) == advance(models(animations@), dt as nat),
{
    let mut out: Vec<AnimatePosition> = Vec::new();
    let mut i: usize = 0;
    proof {
        assert(models(animations@.take(0)) =~= Seq::<PositionModel>::empty());
        assert(Seq::<PositionModel>::empty().map_values(ticked(dt as nat)) =~= Seq::<
            PositionModel,
        >::empty());
        assert(Seq::<PositionModel>::empty().filter(running()) =~= Seq::<PositionModel>::empty())
            by {
            reveal(Seq::filter);
        }
        assert(models(out@) =~= Seq::<PositionModel>::empty());
    }
    while i < animations.len()
        invariant
            i <= animations.len(),
            models(out@) == advance(models(animations@.take(i as int)), dt as nat),
        decreases animations.len() - i,
    {
        let mut a = animations[i];
        let ghost before = models(animations@.take(i as int));
        let ghost was = a@;
        a.tick_dt(dt);
        proof {
            assert(models(animations@.take(i as int + 1)) =~= before.push(was));
            assert(before.push(was).map_values(ticked(dt as nat)) =~= before.map_values(
                ticked(dt as nat),
            ).push(a@));
            before.map_values(ticked(dt as nat)).lemma_filter_push(a@, running());
        }
        if !a.is_done() {
            let ghost kept = out@;
            out.push(a);
            assert(models(out@) =~= models(kept).push(a@));
        }
        i = i + 1;
    }
    assert(animations@.take(animations.len() as int) =~= animations@);
    out
}

impl ChessController {
    /// The controller at the start of a game that stands at `board`, with
    /// `remote` as the side of the remote peer.
    pub fn new(board: BoardView, remote: Color) -> (r: ChessController)
        ensures
            r@ == ControllerModel::initial(board, remote),
    {
        let r = ChessController {
            board,
            remote,
            from: None,
            last_from: None,
            last_to: None,
            moves: Vec::new(),
            check: None,
            cursor_pos: (0, 0),
            animations: Vec::new(),
            promotion_move: None,
            promotion_dialog: false,
            promotion_color: Color::White,
            promotion_animation: settled_fade_animation(),
            end_state_show: true,
            end_state: None,
            end_state_animation: settled_fade_animation(),
        };
        assert(r@.animations =~= Seq::empty());
        r
    }

    /// The state that decides what a press of the pointer does.
    pub fn mode(&self) -> (r: Mode)
        ensures
            r == self@.mode(),
    {
        if self.animations.len() > 0 {
            Mode::Animating
        } else if self.end_state.is_some() {
            Mode::GameEnded
        } else if self.promotion_dialog {
            Mode::PromotionPending
        } else if self.from.is_some() {
            Mode::PieceSelected
        } else {
            Mode::Idle
        }
    }

    /// Whether the next move is the remote peer's to make: it is that side's
    /// turn and the game is not over.
    pub fn awaiting_remote(&self) -> (r: bool)
        ensures
            r == self@.awaiting_remote(),
    {
        self.end_state.is_none() && self.board.turn == self.remote
    }

    /// The command that commits to `mv`.
    fn commit(&self, mv: Move) -> (r: Command)
        ensures
            r == self@.commit(mv),
    {
        let queen = Piece { color: self.remote.opposite(), piece_type: PieceType::Queen };
        let announce = make_move(
            (mv.from.file as usize, mv.from.row as usize),
            (mv.to.file as usize, mv.to.row as usize),
            Some(queen),
        );
        Command::Commit { mv, announce }
    }

    /// A press while the promotion dialog is open.
    fn press_dialog(&mut self) -> (r: Command)
        ensures
            (final(self)@, r) == old(self)@.press_dialog(),
    {
        let slot = slot_at(self.cursor_pos);
        let pending = self.promotion_move;
        self.promotion_move = None;
        self.promotion_dialog = false;
        self.promotion_animation.reset();
        match (slot, pending) {
            (Some(i), Some(mv)) => {
                self.commit(Move { promotion: Some(promotion_choice(i)), ..mv })
            },
            _ => {
                self.from = None;
                self.moves = Vec::new();
                Command::Nothing
            },
        }
    }

    /// A press on the board.
    fn press_board(&mut self, size: [u32; 2]) -> (r: Command)
        ensures
            (final(self)@, r) == old(self)@.press_board((size[0] as int, size[1] as int)),
    {
        match cell_at(self.cursor_pos, size) {
            Some(sq) => match find_candidate(&self.moves, sq) {
                Some(mv) => {
                    let pawn = match self.board.piece_at(mv.from) {
                        Some(p) => p.piece_type == PieceType::Pawn,
                        None => false,
                    };
                    if pawn && (mv.to.row == 0 || mv.to.row == 7) {
                        self.promotion_color = self.board.turn;
                        self.promotion_move = Some(Move { promotion: None, ..mv });
                        self.promotion_dialog = true;
                        self.promotion_animation.reset();
                        Command::Nothing
                    } else {
                        self.commit(mv)
                    }
                },
                None => {
                    let moves = select_moves(&self.board.legal_moves, sq);
                    if moves.len() > 0 {
                        self.from = Some(sq);
                        self.moves = moves;
                    } else {
                        self.from = None;
                        self.moves = Vec::new();
                    }
                    Command::Nothing
                },
            },
            None => {
                self.from = None;
                self.moves = Vec::new();
                Command::Nothing
            },
        }
    }

    /// A press of the pointer.
    fn press(&mut self, size: [u32; 2]) -> (r: Command)
        ensures
            (final(self)@, r) == old(self)@.press((size[0] as int, size[1] as int)),
    {
        if self.animations.len() > 0 {
            return Command::Nothing;
        }
        if self.end_state.is_some() {
            self.end_state_show = !self.end_state_show;
            self.end_state_animation.reset();
            return Command::Nothing;
        }
        if self.promotion_dialog {
            return self.press_dialog();
        }
        self.press_board(size)
    }

    /// Takes one input in a window of the given size in pixels, changes the
    /// state accordingly and says what the driver has to do.
    pub fn event(&mut self, size: [u32; 2], e: &Input) -> (r: Command)
        ensures
            (final(self)@, r) == old(self)@.step((size[0] as int, size[1] as int), *e),
    {
        match *e {
            Input::Reset => Command::Reset,
            Input::Cursor(x, y) => {
                self.cursor_pos = (x, y);
                Command::Nothing
            },
            Input::Press => self.press(size),
            Input::Other => Command::Nothing,
        }
    }

    /// Takes note that the engine has applied `mv` and now stands at `after`:
    /// starts the animations of the move, records it, marks the king in
    /// check, drops the selection and ends the game if the position is final.
    pub fn make_move(&mut self, mv: &Move, after: BoardView)
        ensures
            final(self)@ == old(self)@.make_move(*mv, after),
    {
        let mut animations: Vec<AnimatePosition> = Vec::new();
        animations.push(glide_animation(mv.from, mv.to));
        match self.get_castle_move_rook_mv(mv.from, mv.to) {
            Some((from, to)) => {
                animations.push(glide_animation(from, to));
            },
            None => {},
        }
        assert(models(animations@) =~= move_animations(self.board, *mv));
        self.animations = animations;
        self.board = after;
        self.last_from = Some(mv.from);
        self.last_to = Some(mv.to);
        let turn = self.board.turn;
        if self.board.check || self.board.checkmate {
            self.check = self.get_king_pos(turn);
        } else {
            self.check = None;
        }
        self.from = None;
        self.moves = Vec::new();
        if self.board.checkmate {
            self.end_state = Some(
                if turn == Color::White {
                    EndState::BlackWins
                } else {
                    EndState::WhiteWins
                },
            );
            self.end_state_animation.reset();
        } else if self.board.stalemate {
            self.end_state = Some(EndState::Stalemate);
            self.end_state_animation.reset();
        }
    }

    /// Lets `dt` microseconds pass: the fades and the animations advance,
    /// and the animations that are done leave.
    pub fn update(&mut self, dt: u64)
        ensures
            final(self)@ == old(self)@.update(dt as nat),
    {
        if self.end_state.is_some() {
            self.end_state_animation.tick_dt(dt);
        }
        self.promotion_animation.tick_dt(dt);
        let next = advance_all(&self.animations, dt);
        self.animations = next;
    }

    /// How opaque the promotion dialog is, in millionths.
    pub fn promotion_opacity(&self) -> (r: u64)
        ensures
            r == fade(self@.promotion_dialog, self@.promotion_animation),
            r <= UNIT,
    {
        let t = self.promotion_animation.progress();
        if self.promotion_dialog {
            t
        } else {
            UNIT - t
        }
    }

    /// How opaque the banner of the end of the game is, in millionths.
    pub fn end_state_opacity(&self) -> (r: u64)
        ensures
            r == fade(self@.end_state_show, self@.end_state_animation),
            r <= UNIT,
    {
        let t = self.end_state_animation.progress();
        if self.end_state_show {
            t
        } else {
            UNIT - t
        }
    }

    /// Whether a piece is on its way to `sq`: one of the animations ends
    /// there.
    pub fn is_landing(&self, sq: Square) -> (r: bool)
        ensures
            r == lands_on(self@.animations, sq),
    {
        let x = sq.file as i64 * 1_000_000;
        let y = sq.row as i64 * 1_000_000;
        let mut i: usize = 0;
        while i < self.animations.len()
            invariant
                i <= self.animations.len(),
                x == sq.file * UNIT,
                y == sq.row * UNIT,
                forall|j: int| 0 <= j < i ==> (#[trigger] self@.animations[j]).end != square_point(sq),
            decreases self.animations.len() - i,
        {
            let a = &self.animations[i];
            assert(self@.animations[i as int] == a@);
            if a.end.0 == x && a.end.1 == y {
                return true;
            }
            i = i + 1;
        }
        false
    }

    /// The square of the king of `color`, if the board holds one.
    pub fn get_king_pos(&self, color: Color) -> (r: Option<Square>)
        ensures
            r == self.board.king_square(color),
    {
        let mut k: u8 = 0;
        while k < 64
            invariant
                k <= 64,
                self.board.king_square(color) == self.board.king_from(color, k as int),
            decreases 64 - k,
        {
            let sq = Square { file: k / 8, row: k % 8 };
            assert(sq == crate::board::scan_square(k as int));
            match self.board.piece_at(sq) {
                Some(p) => {
                    if p.color == color && p.piece_type == PieceType::King {
                        return Some(sq);
                    }
                },
                None => {},
            }
            k = k + 1;
        }
        None
    }

    /// The rook's part of the move from `from` to `to`, if the move castles.
    pub fn get_castle_move_rook_mv(&self, from: Square, to: Square) -> (r: Option<
        (Square, Square),
    >)
        ensures
            r == castle_rook_move(self.board, from, to),
            self.board.spec_piece_at(from) matches Some(p) && p.piece_type == PieceType::King
                && from.file == 4 && to.file == 6 ==> r == Some(
                (Square { file: 7, row: from.row }, Square { file: 5, row: from.row }),
            ),
            self.board.spec_piece_at(from) matches Some(p) && p.piece_type == PieceType::King
                && from.file == 4 && to.file == 2 ==> r == Some(
                (Square { file: 0, row: from.row }, Square { file: 3, row: from.row }),
            ),
            !(self.board.spec_piece_at(from) matches Some(p) && p.piece_type == PieceType::King
                && from.file == 4 && (to.file == 6 || to.file == 2)) ==> r is None,
    {
        let king = match self.board.piece_at(from) {
            Some(p) => p.piece_type == PieceType::King,
            None => false,
        };
        if !king {
            return None;
        }
        if from.file == 4 && to.file == 6 {
            return Some((Square { file: 7, row: from.row }, Square { file: 5, row: from.row }));
        }
        if from.file == 4 && to.file == 2 {
            return Some((Square { file: 0, row: from.row }, Square { file: 3, row: from.row }));
        }
        None
    }
}

/// While animations run, a press of the pointer changes nothing and asks for
/// nothing.
pub proof fn lemma_press_ignored_while_animating(m: ControllerModel, size: (int, int))
    requires
        m.animations.len() > 0,
    ensures
        m.mode() == Mode::Animating,
        m.step(size, Input::Press) == (m, Command::Nothing),
{
}

/// A press on a candidate destination that takes a pawn to the farthest row
/// opens the promotion dialog with that move pending, without a promotion
/// piece, and commits to nothing.
pub proof fn lemma_promotion_waits_for_choice(
    m: ControllerModel,
    size: (int, int),
    sq: Square,
    mv: Move,
)
    requires
        m.mode() == Mode::Idle || m.mode() == Mode::PieceSelected,
        spec_cell_at(m.cursor_pos, size) == Some(sq),
        candidate(m.moves, sq) == Some(mv),
        is_promotion(m.board, mv),
    ensures
        m.step(size, Input::Press).0.mode() == Mode::PromotionPending,
        m.step(size, Input::Press).0.promotion_move == Some(Move { promotion: None, ..mv }),
        m.step(size, Input::Press).1 == Command::Nothing,
{
}

/// A press on a square that is no candidate destination, while the board
/// waits for input: if legal moves start on the square, it becomes the
/// selection with those moves as candidates; if none does, the selection is
/// cleared. Either way nothing is committed to.
pub proof fn lemma_press_selects(m: ControllerModel, size: (int, int), sq: Square)
    requires
        m.mode() == Mode::Idle || m.mode() == Mode::PieceSelected,
        spec_cell_at(m.cursor_pos, size) == Some(sq),
        candidate(m.moves, sq) is None,
    ensures
        m.step(size, Input::Press).1 == Command::Nothing,
        m.board.legal_moves@.filter(from_is(sq)).len() > 0 ==> {
            &&& m.step(size, Input::Press).0.mode() == Mode::PieceSelected
            &&& m.step(size, Input::Press).0.from == Some(sq)
            &&& m.step(size, Input::Press).0.moves == m.board.legal_moves@.filter(from_is(sq))
        },
        m.board.legal_moves@.filter(from_is(sq)).len() == 0 ==> {
            &&& m.step(size, Input::Press).0.mode() == Mode::Idle
            &&& m.step(size, Input::Press).0.moves.len() == 0
        },
{
}

/// A press on a candidate destination that is no promotion commits to the
/// candidate and leaves the state as it is.
pub proof fn lemma_press_commits(m: ControllerModel, size: (int, int), sq: Square, mv: Move)
    requires
        m.mode() == Mode::Idle || m.mode() == Mode::PieceSelected,
        spec_cell_at(m.cursor_pos, size) == Some(sq),
        candidate(m.moves, sq) == Some(mv),
        !is_promotion(m.board, mv),
    ensures
        m.step(size, Input::Press) == (m, m.commit(mv)),
{
}

/// A press outside the boxes of the promotion dialog drops the pending move
/// and the selection: the controller is idle again and commits to nothing.
pub proof fn lemma_press_outside_boxes_cancels(m: ControllerModel, size: (int, int))
    requires
        m.mode() == Mode::PromotionPending,
        spec_slot_at(m.cursor_pos) is None,
    ensures
        m.step(size, Input::Press).0.mode() == Mode::Idle,
        m.step(size, Input::Press).0.promotion_move is None,
        m.step(size, Input::Press).0.moves.len() == 0,
        m.step(size, Input::Press).1 == Command::Nothing,
{
}

/// A press while the game is over shows or hides the banner, restarts its
/// fade and changes nothing else.
pub proof fn lemma_press_toggles_banner(m: ControllerModel, size: (int, int))
    requires
        m.mode() == Mode::GameEnded,
    ensures
        m.step(size, Input::Press).0 == m.press_ended(),
        m.step(size, Input::Press).0.end_state_show == !m.end_state_show,
        m.step(size, Input::Press).0.end_state_animation.timing.elapsed == 0,
        m.step(size, Input::Press).0.mode() == Mode::GameEnded,
        m.step(size, Input::Press).1 == Command::Nothing,
{
}

/// The animations of a move are over once the time of a glide has passed:
/// the controller then is idle, or the game is over.
pub proof fn lemma_move_settles(m: ControllerModel, mv: Move, after: BoardView, dt: nat)
    requires
        !m.promotion_dialog,
        dt >= MOVE_DURATION,
    ensures
        m.make_move(mv, after).mode() == Mode::Animating,
        m.make_move(mv, after).update(dt).animations.len() == 0,
        m.make_move(mv, after).update(dt).mode() == if outcome(after) is Some || m.end_state
            is Some {
            Mode::GameEnded
        } else {
            Mode::Idle
        },
{
    let started = move_animations(m.board, mv);
    let none = Seq::<PositionModel>::empty();
    assert(none.filter(running()) =~= none) by {
        reveal(Seq::filter);
    }
    assert forall|from: Square, to: Square|
        !running()(#[trigger] ticked(dt)(glide(from, to))) by {}
    let first = glide(mv.from, mv.to);
    assert(none.push(first).map_values(ticked(dt)) =~= none.push(ticked(dt)(first)));
    none.lemma_filter_push(ticked(dt)(first), running());
    match castle_rook_move(m.board, mv.from, mv.to) {
        Some((from, to)) => {
            let second = glide(from, to);
            assert(started =~= none.push(first).push(second));
            assert(started.map_values(ticked(dt)) =~= none.push(ticked(dt)(first)).push(
                ticked(dt)(second),
            ));
            none.push(ticked(dt)(first)).lemma_filter_push(ticked(dt)(second), running());
        },
        None => {
            assert(started =~= none.push(first));
        },
    }
    assert(advance(started, dt) =~= none);
}

/// Whatever the input, the controller never commits to a move that takes a
/// pawn to the farthest row without a promotion piece; and while a promotion
/// is pending it commits to nothing but the pending move, completed with the
/// piece of the box that was pressed.
pub proof fn lemma_commit_carries_choice(m: ControllerModel, size: (int, int), e: Input)
    ensures
        m.step(size, e).1 matches Command::Commit { mv, .. } ==> {
            &&& is_promotion(m.board, mv) ==> mv.promotion is Some
            &&& m.mode() == Mode::PromotionPending ==> {
                &&& e == Input::Press
                &&& spec_slot_at(m.cursor_pos) matches Some(i)
                &&& m.promotion_move matches Some(pending)
                &&& mv == (Move { promotion: Some(spec_promotion_choice(i)), ..pending })
            }
        },
{
}

/// A move animates the moving piece alone, unless it castles: then the rook
/// goes along on the row that the king started on, from file 7 to file 5
/// beside a king that went from file 4 to file 6, and from file 0 to file 3
/// beside a king that went from file 4 to file 2.
pub proof fn lemma_castling_animations(board: BoardView, mv: Move)
    ensures
        move_animations(board, mv).len() >= 1,
        move_animations(board, mv)[0] == glide(mv.from, mv.to),
        castle_rook_move(board, mv.from, mv.to) is Some <==> {
            &&& board.spec_piece_at(mv.from) matches Some(p)
            &&& p.piece_type == PieceType::King
            &&& mv.from.file == 4
            &&& (mv.to.file == 6 || mv.to.file == 2)
        },
        castle_rook_move(board, mv.from, mv.to) is None ==> move_animations(board, mv).len() == 1,
        castle_rook_move(board, mv.from, mv.to) is Some ==> {
            &&& move_animations(board, mv).len() == 2
            &&& move_animations(board, mv)[1] == glide(
                Square { file: if mv.to.file == 6 { 7u8 } else { 0u8 }, row: mv.from.row },
                Square { file: if mv.to.file == 6 { 5u8 } else { 3u8 }, row: mv.from.row },
            )
        },
{
}

/// An end of the game stays: no input and no passing of time clears or
/// changes it, an applied move leaves the game ended, and no input makes the
/// controller commit to a move any more.
pub proof fn lemma_end_state_is_terminal(
    m: ControllerModel,
    size: (int, int),
    e: Input,
    dt: nat,
    mv: Move,
    after: BoardView,
)
    requires
        m.end_state is Some,
    ensures
        m.step(size, e).0.end_state == m.end_state,
        !(m.step(size, e).1 is Commit),
        m.update(dt).end_state == m.end_state,
        m.make_move(mv, after).end_state is Some,
        !m.awaiting_remote(),
{
}

/// A move that mates ends the game in favour of the side that made it, and a
/// stalemate ends it in a draw; any other move leaves the end of the game as
/// it was.
pub proof fn lemma_make_move_ends_game(m: ControllerModel, mv: Move, after: BoardView)
    ensures
        after.checkmate && after.turn == Color::Black ==> m.make_move(mv, after).end_state == Some(
            EndState::WhiteWins,
        ),
        after.checkmate && after.turn == Color::White ==> m.make_move(mv, after).end_state == Some(
            EndState::BlackWins,
        ),
        !after.checkmate && after.stalemate ==> m.make_move(mv, after).end_state == Some(
            EndState::Stalemate,
        ),
        !after.checkmate && !after.stalemate ==> m.make_move(mv, after).end_state == m.end_state,
        m.make_move(mv, after).mode() == Mode::Animating,
{
    lemma_castling_animations(m.board, mv);
}

} // verus!
