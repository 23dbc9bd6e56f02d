use shogiman::board::{Board, Move, MoveError, SfenError, STARTING_SFEN};
use shogiman::controller::{
    CellHighlighter, CellShade, ClickOutcome, Game, Hand, PieceId, PieceMoveEvent,
    TurnChangedEvent,
};
use shogiman::opponent::{choose_move, first_movable, OpponentError};
use shogiman::piece::{Piece, PieceKind, Side, Square};
use shogiman::sfen::sfen_within_limits;
use shogiman::sprite::piece_to_sprite;

fn sq(file: u8, rank: u8) -> Square {
    Square::new(file, rank).unwrap()
}

fn start() -> Game {
    Game::new(Board::from_sfen(STARTING_SFEN).unwrap())
}

fn black_pawn() -> Piece {
    Piece { kind: PieceKind::Pawn, side: Side::Black }
}

#[test]
fn starting_position_pieces() {
    let b = Board::from_sfen(STARTING_SFEN).unwrap();
    assert_eq!(b.side_to_move(), Side::Black);
    assert_eq!(b.piece_at(sq(4, 8)), Some(Piece { kind: PieceKind::King, side: Side::Black }));
    assert_eq!(b.piece_at(sq(4, 0)), Some(Piece { kind: PieceKind::King, side: Side::White }));
    assert_eq!(b.piece_at(sq(1, 7)), Some(Piece { kind: PieceKind::Rook, side: Side::Black }));
    assert_eq!(b.piece_at(sq(7, 7)), Some(Piece { kind: PieceKind::Bishop, side: Side::Black }));
    assert_eq!(b.piece_at(sq(4, 6)), Some(black_pawn()));
    assert_eq!(b.piece_at(sq(4, 4)), None);
}

#[test]
fn malformed_sfen_is_refused() {
    assert!(matches!(Board::from_sfen("not a position"), Err(SfenError::Malformed)));
    let bad_piece = "lnsgkgsnX/1r5b1/ppppppppp/9/9/9/PPPPPPPPP/1B5R1/LNSGKGSNL b - 1";
    assert!(matches!(Board::from_sfen(bad_piece), Err(SfenError::Malformed)));
    let bad_side = "lnsgkgsnl/1r5b1/ppppppppp/9/9/9/PPPPPPPPP/1B5R1/LNSGKGSNL x - 1";
    assert!(matches!(Board::from_sfen(bad_side), Err(SfenError::Malformed)));
}

#[test]
fn pawn_destinations() {
    let b = Board::from_sfen(STARTING_SFEN).unwrap();
    assert_eq!(b.legal_destinations(sq(4, 6), black_pawn()), vec![sq(4, 5)]);
    let knight = Piece { kind: PieceKind::Knight, side: Side::Black };
    assert_eq!(b.legal_destinations(sq(7, 8), knight), Vec::<Square>::new());
}

#[test]
fn select_and_move_pawn_forward() {
    let mut g = start();
    let out = g.on_click(sq(4, 6));
    assert_eq!(out, ClickOutcome { moved: None, turn_changed: None, error: None });
    assert_eq!(g.hand, Hand(Some(PieceId::new(black_pawn(), sq(4, 6)))));
    assert_eq!(g.targets, vec![sq(4, 5)]);

    let out = g.on_click(sq(4, 5));
    assert_eq!(
        out.moved,
        Some(PieceMoveEvent { piece_id: PieceId::new(black_pawn(), sq(4, 6)), to: sq(4, 5) })
    );
    assert_eq!(out.turn_changed, Some(TurnChangedEvent(Side::White)));
    assert_eq!(out.error, None);
    assert_eq!(g.board.piece_at(sq(4, 6)), None);
    assert_eq!(g.board.piece_at(sq(4, 5)), Some(black_pawn()));
    assert_eq!(g.board.side_to_move(), Side::White);
    assert_eq!(g.hand, Hand(None));
    assert!(g.targets.is_empty());
}

#[test]
fn selecting_white_piece_on_black_turn_is_refused() {
    let mut g = start();
    let out = g.on_click(sq(4, 2));
    assert_eq!(out, ClickOutcome { moved: None, turn_changed: None, error: None });
    assert_eq!(g.hand, Hand(None));
    assert!(g.targets.is_empty());
    assert_eq!(g.board.piece_at(sq(4, 2)), Some(Piece { kind: PieceKind::Pawn, side: Side::White }));
}

#[test]
fn clicking_empty_square_stays_idle() {
    let mut g = start();
    let out = g.on_click(sq(4, 4));
    assert_eq!(out, ClickOutcome { moved: None, turn_changed: None, error: None });
    assert_eq!(g.hand, Hand(None));
    assert!(g.targets.is_empty());
    assert_eq!(g.board.side_to_move(), Side::Black);
}

#[test]
fn clicking_non_target_reselects() {
    let mut g = start();
    g.on_click(sq(4, 6));
    g.on_click(sq(2, 6));
    assert_eq!(g.hand, Hand(Some(PieceId::new(black_pawn(), sq(2, 6)))));
    assert_eq!(g.targets, vec![sq(2, 5)]);
    g.on_click(sq(4, 4));
    assert_eq!(g.hand, Hand(None));
    assert!(g.targets.is_empty());
}

#[test]
fn apply_move_updates_board_and_turn() {
    let mut b = Board::from_sfen(STARTING_SFEN).unwrap();
    let m = Move { from: sq(4, 6), to: sq(4, 5), promote: false };
    assert_eq!(b.apply_move(m), Ok(()));
    assert_eq!(b.piece_at(sq(4, 6)), None);
    assert_eq!(b.piece_at(sq(4, 5)), Some(black_pawn()));
    assert_eq!(b.side_to_move(), Side::White);
}

#[test]
fn capture_replaces_piece() {
    let mut b = Board::from_sfen("4k4/9/9/9/4p4/4P4/9/9/4K4 b - 1").unwrap();
    let m = Move { from: sq(4, 5), to: sq(4, 4), promote: false };
    assert_eq!(b.apply_move(m), Ok(()));
    assert_eq!(b.piece_at(sq(4, 4)), Some(black_pawn()));
    assert_eq!(b.piece_at(sq(4, 5)), None);
    assert_eq!(b.side_to_move(), Side::White);
}

#[test]
fn promotion_places_promoted_piece() {
    let mut b = Board::from_sfen("k8/9/9/4P4/9/9/9/9/4K4 b - 1").unwrap();
    let m = Move { from: sq(4, 3), to: sq(4, 2), promote: true };
    assert_eq!(b.apply_move(m), Ok(()));
    assert_eq!(b.piece_at(sq(4, 2)), Some(Piece { kind: PieceKind::ProPawn, side: Side::Black }));
}

#[test]
fn illegal_move_leaves_board_unchanged() {
    let mut b = Board::from_sfen(STARTING_SFEN).unwrap();
    let m = Move { from: sq(4, 6), to: sq(4, 4), promote: false };
    assert_eq!(b.apply_move(m), Err(MoveError::Illegal));
    assert_eq!(b.piece_at(sq(4, 6)), Some(black_pawn()));
    assert_eq!(b.piece_at(sq(4, 4)), None);
    assert_eq!(b.side_to_move(), Side::Black);
    let white_move = Move { from: sq(4, 2), to: sq(4, 3), promote: false };
    assert_eq!(b.apply_move(white_move), Err(MoveError::Illegal));
    let empty = Move { from: sq(4, 4), to: sq(4, 3), promote: false };
    assert_eq!(b.apply_move(empty), Err(MoveError::Illegal));
}

#[test]
fn pinned_piece_move_is_refused_and_selection_kept() {
    let mut g = Game::new(Board::from_sfen("k3r4/9/9/9/9/9/9/4R4/4K4 b - 1").unwrap());
    let rook = Piece { kind: PieceKind::Rook, side: Side::Black };
    g.on_click(sq(4, 7));
    assert_eq!(g.hand, Hand(Some(PieceId::new(rook, sq(4, 7)))));
    let targets = g.targets.clone();
    assert!(targets.contains(&sq(3, 7)));
    let out = g.on_click(sq(3, 7));
    assert_eq!(out, ClickOutcome { moved: None, turn_changed: None, error: Some(MoveError::Illegal) });
    assert_eq!(g.hand, Hand(Some(PieceId::new(rook, sq(4, 7)))));
    assert_eq!(g.targets, targets);
    assert_eq!(g.board.piece_at(sq(4, 7)), Some(rook));
    assert_eq!(g.board.piece_at(sq(3, 7)), None);
    assert_eq!(g.board.side_to_move(), Side::Black);
}

#[test]
fn computer_answers_on_its_turn() {
    let mut g = start();
    g.on_click(sq(4, 6));
    let out = g.on_click(sq(4, 5));
    let ev = out.turn_changed.unwrap();
    let reply = g.on_turn_changed(ev, Side::White).unwrap().unwrap();
    assert_eq!(reply.piece_id.piece.side, Side::White);
    assert_eq!(g.board.piece_at(reply.from()), None);
    assert_eq!(g.board.piece_at(reply.to()), Some(reply.piece_id.piece));
    assert_eq!(g.board.side_to_move(), Side::Black);
}

#[test]
fn computer_ignores_other_turn() {
    let mut g = start();
    assert_eq!(g.on_turn_changed(TurnChangedEvent(Side::Black), Side::White), None);
    assert_eq!(g.board.side_to_move(), Side::Black);
    assert_eq!(g.board.piece_at(sq(4, 6)), Some(black_pawn()));
}

#[test]
fn computer_without_pieces_has_no_move() {
    let mut g = Game::new(Board::from_sfen("9/9/9/9/9/9/9/9/4K4 w - 1").unwrap());
    assert_eq!(g.computer_move(Side::White), Err(OpponentError::NoLegalMoves));
    assert_eq!(g.board.piece_at(sq(4, 8)), Some(Piece { kind: PieceKind::King, side: Side::Black }));
}

#[test]
fn chosen_moves_are_candidates() {
    let b = Board::from_sfen(STARTING_SFEN).unwrap();
    for _ in 0..50 {
        let m = choose_move(&b, Side::Black).unwrap();
        let p = b.piece_at(m.from).unwrap();
        assert_eq!(p.side, Side::Black);
        assert!(!m.promote);
        assert!(b.legal_destinations(m.from, p).contains(&m.to));
    }
}

#[test]
fn first_movable_skips_stuck_and_empty_squares() {
    let b = Board::from_sfen(STARTING_SFEN).unwrap();
    let order = vec![sq(4, 4), sq(7, 8), sq(4, 6), sq(2, 6)];
    let (pid, dests) = first_movable(&b, &order).unwrap();
    assert_eq!(pid, PieceId::new(black_pawn(), sq(4, 6)));
    assert_eq!(dests, vec![sq(4, 5)]);
    assert!(first_movable(&b, &vec![sq(4, 4), sq(7, 8)]).is_none());
}

#[test]
fn pieces_of_lists_each_side() {
    let b = Board::from_sfen(STARTING_SFEN).unwrap();
    let black = b.pieces_of(Side::Black);
    let white = b.pieces_of(Side::White);
    assert_eq!(black.len(), 20);
    assert_eq!(white.len(), 20);
    assert!(black.contains(&sq(4, 8)));
    assert!(!black.contains(&sq(4, 0)));
    assert!(white.contains(&sq(4, 0)));
}

#[test]
fn cell_transform_places_corners_and_centre() {
    let b = Board::from_sfen(STARTING_SFEN).unwrap();
    assert_eq!(b.cell_transform(&sq(8, 8)), (-128, -128));
    assert_eq!(b.cell_transform(&sq(0, 0)), (128, 128));
    assert_eq!(b.cell_transform(&sq(4, 4)), (0, 0));
    assert_eq!(b.cell_transform(&sq(8, 0)), (-128, 128));
}

#[test]
fn sprite_names() {
    assert_eq!(piece_to_sprite(&Piece { kind: PieceKind::King, side: Side::Black }), "0OU.svg");
    assert_eq!(piece_to_sprite(&Piece { kind: PieceKind::ProPawn, side: Side::White }), "1TO.svg");
    assert_eq!(piece_to_sprite(&Piece { kind: PieceKind::Lance, side: Side::White }), "1KY.svg");
}

#[test]
fn cell_shades() {
    let both = CellHighlighter { is_hovered: true, is_move_target: true };
    assert_eq!(both.shade(), CellShade::MoveTarget);
    let hover = CellHighlighter { is_hovered: true, is_move_target: false };
    assert_eq!(hover.shade(), CellShade::Hover);
    assert_eq!(CellHighlighter::default().shade(), CellShade::Base);
}

#[test]
fn squares_and_sides() {
    assert_eq!(Square::new(9, 0), None);
    assert_eq!(Square::new(0, 9), None);
    assert_eq!(sq(3, 5).index(), 32);
    assert_eq!(Square::from_index(32), sq(3, 5));
    assert_eq!(Side::Black.flip(), Side::White);
    assert_eq!(Hand::default(), Hand(None));
}

#[test]
fn sfen_limits() {
    assert!(sfen_within_limits(STARTING_SFEN));
    assert!(sfen_within_limits("4k4/9/9/9/9/9/9/9/4K4 b 50P 1"));
    assert!(!sfen_within_limits("4k4/9/9/9/9/9/9/9/4K4 b 51P 1"));
    assert!(!sfen_within_limits("4k4/9/9/9/9/9/9/9/4K4 b 999P 1"));
    assert!(!sfen_within_limits("4k4/9/9/9/9/9/9/9/4K4 b - 65535"));
    assert!(sfen_within_limits("4k4/9/9/9/9/9/9/9/4K4 b - 100"));
    assert!(!sfen_within_limits("4k4/9/9/9/9/9/9/9/4K4 b - 1 \u{3000}"));
}

#[test]
fn out_of_range_sfen_is_refused() {
    assert!(matches!(
        Board::from_sfen("4k4/9/9/9/9/9/9/9/4K4 b 999P 1"),
        Err(SfenError::OutOfRange)
    ));
    assert!(matches!(
        Board::from_sfen("4k4/9/9/9/9/9/9/9/4K4 b - 65535 moves 5i5h"),
        Err(SfenError::OutOfRange)
    ));
    let b = Board::from_sfen("4k4/9/9/9/9/9/9/9/4K4 b 2P 1").unwrap();
    assert_eq!(b.side_to_move(), Side::Black);
}

#[test]
fn computer_move_refused_by_engine_changes_nothing() {
    let mut g = Game::new(Board::from_sfen("9/9/9/9/9/9/9/4p4/K8 w - 1").unwrap());
    let pawn = Piece { kind: PieceKind::Pawn, side: Side::White };
    assert_eq!(g.board.legal_destinations(sq(4, 7), pawn), vec![sq(4, 8)]);
    assert_eq!(g.computer_move(Side::White), Err(OpponentError::Refused));
    assert_eq!(g.board.piece_at(sq(4, 7)), Some(pawn));
    assert_eq!(g.board.piece_at(sq(4, 8)), None);
    assert_eq!(g.board.side_to_move(), Side::White);
}

#[test]
fn starting_position_is_readable() {
    assert!(Board::from_sfen(STARTING_SFEN).is_ok());
    let b = Board::from_sfen(STARTING_SFEN).unwrap();
    assert_eq!(b.pieces_of(Side::Black).len() + b.pieces_of(Side::White).len(), 40);
}
