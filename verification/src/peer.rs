//! The messages exchanged with the remote peer.
//!
//! Two instances stay in step by telling each other the moves they make. This
//! module holds the records that travel and the rules for building and
//! reading them; opening the connection and moving bytes is the caller's
//! part.

use vstd::prelude::*;
use crate::board::{Color, Move, Piece, PieceType, Square};

verus! {

/// Sent once when the connection opens: the side that the remote peer plays.
#[derive(Clone, Copy, Debug, PartialEq, Eq, Structural)]
pub struct Handshake {
    pub server_color: Color,
}

/// A move as it travels: start and end as (file, row), and a promotion
/// piece or none.
#[derive(Clone, Copy, Debug, PartialEq, Eq)]
pub struct PeerMove {
    pub start: (usize, usize),
    pub end: (usize, usize),
    pub promotion: Option<Piece>,
}

/// What this side sends once the handshake is done.
#[derive(Clone, Copy, Debug, PartialEq, Eq)]
pub enum ClientMessage {
    Move(PeerMove),
}

/// What the remote peer sends, as far as this side reads it.
#[derive(Clone, Copy, Debug, PartialEq, Eq)]
pub enum ServerMessage {
    /// A state update; it names the move that was made.
    State { move_made: PeerMove },
    /// Any other message.
    Other,
}

/// Why a message from the remote peer could not be used. Each of them ends
/// the session.
#[derive(Clone, Copy, Debug, PartialEq, Eq, Structural)]
pub enum ProtocolError {
    /// A message other than a state update came where a move was awaited.
    UnexpectedMessage,
    /// The move names a square off the board.
    OffBoard,
}

/// The handshake that declares `remote` as the side of the remote peer.
pub fn handshake(remote: Color) -> (r: Handshake)
    ensures
        r == (Handshake { server_color: remote }),
{
    Handshake { server_color: remote }
}

/// The message that tells the remote peer of a move.
pub fn make_move(start: (usize, usize), end: (usize, usize), promotion: Option<Piece>) -> (r:
    ClientMessage)
    ensures
        r == ClientMessage::Move(PeerMove { start, end, promotion }),
{
    ClientMessage::Move(PeerMove { start, end, promotion })
}

/// The move that a message from the remote peer reports: a state update
/// yields the move it names, anything else is a protocol error.
pub fn listen_move(msg: ServerMessage) -> (r: Result<PeerMove, ProtocolError>)
    ensures
        r == match msg {
            ServerMessage::State { move_made } => Ok::<PeerMove, ProtocolError>(move_made),
            ServerMessage::Other => Err::<PeerMove, ProtocolError>(
                ProtocolError::UnexpectedMessage,
            ),
        },
{
    match msg {
        ServerMessage::State { move_made } => Ok(move_made),
        ServerMessage::Other => Err(ProtocolError::UnexpectedMessage),
    }
}

/// The message that announces a local move. The promotion field always
/// carries the queen of the local side, whatever the move promotes to.
pub open spec fn spec_announcement(mv: Move, local: Color) -> ClientMessage {
    ClientMessage::Move(
        PeerMove {
            start: (mv.from.file as usize, mv.from.row as usize),
            end: (mv.to.file as usize, mv.to.row as usize),
            promotion: Some(Piece { color: local, piece_type: PieceType::Queen }),
        },
    )
}

/// The promotion that a travelling piece stands for: a queen, rook, bishop or
/// knight of the remote side promotes to that kind, anything else to nothing.
pub open spec fn promotion_of(piece: Option<Piece>, remote: Color) -> Option<PieceType> {
    match piece {
        Some(p) => if p.color == remote && (p.piece_type == PieceType::Queen || p.piece_type
            == PieceType::Rook || p.piece_type == PieceType::Bishop || p.piece_type
            == PieceType::Knight) {
            Some(p.piece_type)
        } else {
            None
        },
        None => None,
    }
}

/// Whether all four coordinates of a travelling move lie on the board.
pub open spec fn on_board(pm: PeerMove) -> bool {
    pm.start.0 < 8 && pm.start.1 < 8 && pm.end.0 < 8 && pm.end.1 < 8
}

/// The engine move that a travelling move of the remote peer stands for.
pub open spec fn spec_remote_move(pm: PeerMove, remote: Color) -> Result<Move, ProtocolError> {
    if on_board(pm) {
        Ok(
            Move {
                from: Square { file: pm.start.0 as u8, row: pm.start.1 as u8 },
                to: Square { file: pm.end.0 as u8, row: pm.end.1 as u8 },
                promotion: promotion_of(pm.promotion, remote),
            },
        )
    } else {
        Err(ProtocolError::OffBoard)
    }
}

/// Turns a travelling move of the remote peer into an engine move, or
/// reports that it leaves the board.
pub fn remote_move(pm: &PeerMove, remote: Color) -> (r: Result<Move, ProtocolError>)
    ensures
        r == spec_remote_move(*pm, remote),
{
    if pm.start.0 < 8 && pm.start.1 < 8 && pm.end.0 < 8 && pm.end.1 < 8 {
        let promotion = match pm.promotion {
            Some(p) => {
                if p.color == remote {
                    match p.piece_type {
                        PieceType::Queen => Some(PieceType::Queen),
                        PieceType::Rook => Some(PieceType::Rook),
                        PieceType::Bishop => Some(PieceType::Bishop),
                        PieceType::Knight => Some(PieceType::Knight),
                        _ => None,
                    }
                } else {
                    None
                }
            },
            None => None,
        };
        Ok(
            Move {
                from: Square { file: pm.start.0 as u8, row: pm.start.1 as u8 },
                to: Square { file: pm.end.0 as u8, row: pm.end.1 as u8 },
                promotion,
            },
        )
    } else {
        Err(ProtocolError::OffBoard)
    }
}

} // verus!
