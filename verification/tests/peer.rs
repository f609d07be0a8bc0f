use chess_client::board::{Color, Move, Piece, PieceType, Square};
use chess_client::peer::{
    handshake, listen_move, make_move, remote_move, ClientMessage, Handshake,
    PeerMove, ProtocolError, ServerMessage,
};

fn piece(color: Color, piece_type: PieceType) -> Option<Piece> {
    Some(Piece { color, piece_type })
}

#[test]
fn handshake_declares_the_remote_side() {
    assert_eq!(handshake(Color::Black), Handshake { server_color: Color::Black });
    assert_eq!(handshake(Color::White), Handshake { server_color: Color::White });
}

#[test]
fn make_move_frames_a_move_message() {
    let msg = make_move((4, 6), (4, 4), piece(Color::White, PieceType::Queen));
    assert_eq!(
        msg,
        ClientMessage::Move(PeerMove {
            start: (4, 6),
            end: (4, 4),
            promotion: piece(Color::White, PieceType::Queen),
        })
    );
    let bare = make_move((0, 1), (2, 3), None);
    assert_eq!(bare, ClientMessage::Move(PeerMove { start: (0, 1), end: (2, 3), promotion: None }));
}

#[test]
fn listen_move_takes_the_move_of_a_state_update() {
    let pm = PeerMove { start: (4, 1), end: (4, 3), promotion: None };
    assert_eq!(listen_move(ServerMessage::State { move_made: pm }), Ok(pm));
}

#[test]
fn listen_move_refuses_any_other_message() {
    assert_eq!(listen_move(ServerMessage::Other), Err(ProtocolError::UnexpectedMessage));
}

#[test]
fn remote_move_reads_start_and_end_as_file_and_row() {
    let pm = PeerMove { start: (4, 1), end: (5, 3), promotion: None };
    assert_eq!(
        remote_move(&pm, Color::Black),
        Ok(Move {
            from: Square { file: 4, row: 1 },
            to: Square { file: 5, row: 3 },
            promotion: None,
        })
    );
}

#[test]
fn remote_move_takes_the_four_promotion_pieces_of_the_remote_side() {
    let kinds = [PieceType::Queen, PieceType::Rook, PieceType::Bishop, PieceType::Knight];
    for kind in kinds.iter() {
        let pm = PeerMove { start: (0, 6), end: (0, 7), promotion: piece(Color::Black, *kind) };
        let mv = remote_move(&pm, Color::Black).unwrap();
        assert_eq!(mv.promotion, Some(*kind));
        // The same piece of the other side stands for no promotion.
        let other = remote_move(&pm, Color::White).unwrap();
        assert_eq!(other.promotion, None);
    }
}

#[test]
fn remote_move_takes_no_pawn_and_no_king_as_promotion() {
    for kind in [PieceType::Pawn, PieceType::King].iter() {
        let pm = PeerMove { start: (0, 6), end: (0, 7), promotion: piece(Color::Black, *kind) };
        assert_eq!(remote_move(&pm, Color::Black).unwrap().promotion, None);
    }
}

#[test]
fn remote_move_refuses_squares_off_the_board() {
    let far = [
        PeerMove { start: (8, 0), end: (0, 0), promotion: None },
        PeerMove { start: (0, 8), end: (0, 0), promotion: None },
        PeerMove { start: (0, 0), end: (8, 0), promotion: None },
        PeerMove { start: (0, 0), end: (0, 8), promotion: None },
        PeerMove { start: (usize::MAX, 0), end: (0, 256), promotion: None },
    ];
    for pm in far.iter() {
        assert_eq!(remote_move(pm, Color::Black), Err(ProtocolError::OffBoard));
    }
    let edge = PeerMove { start: (7, 7), end: (0, 0), promotion: None };
    assert!(remote_move(&edge, Color::Black).is_ok());
}
