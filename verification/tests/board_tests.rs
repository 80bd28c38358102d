//! Tests of the board: placement, relocation, king lookup, piece listing,
//! the attack oracle and the path-clear walk.
use chess_engine::board::Board;
use chess_engine::types::{Color, Piece, PieceType, Square};

fn sq(text: &str) -> Square {
    Square::from_algebraic(text).unwrap()
}

#[test]
fn test_empty_board_has_no_pieces() {
    let board = Board::empty();
    for file in 0..8 {
        for rank in 0..8 {
            assert_eq!(board.get_piece(Square::new(file, rank).unwrap()), None);
        }
    }
}

#[test]
fn test_initial_position_layout() {
    let board = Board::new();
    assert_eq!(
        board.get_piece(sq("e1")),
        Some(Piece::new(PieceType::King, Color::White))
    );
    assert_eq!(
        board.get_piece(sq("d1")),
        Some(Piece::new(PieceType::Queen, Color::White))
    );
    assert_eq!(
        board.get_piece(sq("a8")),
        Some(Piece::new(PieceType::Rook, Color::Black))
    );
    assert_eq!(
        board.get_piece(sq("e8")),
        Some(Piece::new(PieceType::King, Color::Black))
    );
    for file in 0..8 {
        assert_eq!(
            board.get_piece(Square::new(file, 1).unwrap()),
            Some(Piece::new(PieceType::Pawn, Color::White))
        );
        assert_eq!(
            board.get_piece(Square::new(file, 6).unwrap()),
            Some(Piece::new(PieceType::Pawn, Color::Black))
        );
        for rank in 2..6 {
            assert_eq!(board.get_piece(Square::new(file, rank).unwrap()), None);
        }
    }
}

#[test]
fn test_set_and_remove_piece() {
    let mut board = Board::empty();
    let knight = Piece::new(PieceType::Knight, Color::White);
    board.set_piece(sq("c3"), knight);
    assert_eq!(board.get_piece(sq("c3")), Some(knight));
    let removed = board.remove_piece(sq("c3"));
    assert_eq!(removed, Some(knight));
    assert_eq!(board.get_piece(sq("c3")), None);
}

#[test]
fn test_move_piece_returns_captured() {
    let mut board = Board::empty();
    let rook = Piece::new(PieceType::Rook, Color::White);
    let pawn = Piece::new(PieceType::Pawn, Color::Black);
    board.set_piece(sq("a1"), rook);
    board.set_piece(sq("a5"), pawn);
    let captured = board.move_piece(sq("a1"), sq("a5"));
    assert_eq!(captured, Some(pawn));
    assert_eq!(board.get_piece(sq("a1")), None);
    assert_eq!(board.get_piece(sq("a5")), Some(rook));
}

#[test]
fn test_move_piece_from_empty_square_is_noop() {
    let mut board = Board::empty();
    let captured = board.move_piece(sq("a1"), sq("a5"));
    assert_eq!(captured, None);
    assert_eq!(board.get_piece(sq("a5")), None);
}

#[test]
fn test_find_king() {
    let mut board = Board::empty();
    assert_eq!(board.find_king(Color::White), None);
    board.set_piece(sq("g5"), Piece::new(PieceType::King, Color::White));
    assert_eq!(board.find_king(Color::White), Some(sq("g5")));
    assert_eq!(board.find_king(Color::Black), None);
}

#[test]
fn test_get_pieces_in_scan_order() {
    let board = Board::new();
    let white = board.get_pieces(Color::White);
    assert_eq!(white.len(), 16);
    // Rank-major order: the back rank first, a1 before h1, then the pawns.
    assert_eq!(white[0].0, sq("a1"));
    assert_eq!(white[7].0, sq("h1"));
    assert_eq!(white[8].0, sq("a2"));
    assert_eq!(white[15].0, sq("h2"));
    let black = board.get_pieces(Color::Black);
    assert_eq!(black.len(), 16);
    assert_eq!(black[0].0, sq("a7"));
}

#[test]
fn test_rook_attack_blocked_by_piece() {
    let mut board = Board::empty();
    board.set_piece(sq("a1"), Piece::new(PieceType::Rook, Color::White));
    assert!(board.is_square_attacked(sq("a8"), Color::White));
    assert!(!board.is_square_attacked(sq("a8"), Color::Black));
    board.set_piece(sq("a4"), Piece::new(PieceType::Pawn, Color::Black));
    assert!(!board.is_square_attacked(sq("a8"), Color::White));
    assert!(board.is_square_attacked(sq("a4"), Color::White));
}

#[test]
fn test_knight_attack_ignores_blockers() {
    let mut board = Board::new();
    // The b1 knight attacks c3 over the pawn wall.
    assert!(board.is_square_attacked(sq("c3"), Color::White));
    board.set_piece(sq("c2"), Piece::new(PieceType::Pawn, Color::White));
    assert!(board.is_square_attacked(sq("c3"), Color::White));
}

#[test]
fn test_pawn_attacks_diagonally_forward_only() {
    let mut board = Board::empty();
    board.set_piece(sq("d4"), Piece::new(PieceType::Pawn, Color::White));
    assert!(board.is_square_attacked(sq("c5"), Color::White));
    assert!(board.is_square_attacked(sq("e5"), Color::White));
    assert!(!board.is_square_attacked(sq("d5"), Color::White));
    assert!(!board.is_square_attacked(sq("c3"), Color::White));
    let mut black_board = Board::empty();
    black_board.set_piece(sq("d4"), Piece::new(PieceType::Pawn, Color::Black));
    assert!(black_board.is_square_attacked(sq("c3"), Color::Black));
    assert!(!black_board.is_square_attacked(sq("c5"), Color::Black));
}

#[test]
fn test_bishop_and_queen_attacks() {
    let mut board = Board::empty();
    board.set_piece(sq("c1"), Piece::new(PieceType::Bishop, Color::White));
    assert!(board.is_square_attacked(sq("h6"), Color::White));
    assert!(!board.is_square_attacked(sq("c8"), Color::White));
    board.set_piece(sq("d1"), Piece::new(PieceType::Queen, Color::White));
    assert!(board.is_square_attacked(sq("d8"), Color::White));
    assert!(board.is_square_attacked(sq("h5"), Color::White));
}

#[test]
fn test_king_attacks_adjacent_only() {
    let mut board = Board::empty();
    board.set_piece(sq("e4"), Piece::new(PieceType::King, Color::White));
    assert!(board.is_square_attacked(sq("d3"), Color::White));
    assert!(board.is_square_attacked(sq("f5"), Color::White));
    assert!(!board.is_square_attacked(sq("e6"), Color::White));
}

#[test]
fn test_is_path_clear() {
    let mut board = Board::empty();
    assert!(board.is_path_clear(sq("a1"), sq("a8")));
    assert!(board.is_path_clear(sq("a1"), sq("h8")));
    board.set_piece(sq("a4"), Piece::new(PieceType::Pawn, Color::White));
    assert!(!board.is_path_clear(sq("a1"), sq("a8")));
    // Endpoints themselves do not block the path.
    assert!(board.is_path_clear(sq("a1"), sq("a4")));
    assert!(board.is_path_clear(sq("a4"), sq("a1")));
}

#[test]
fn test_to_2d_array_matches_board() {
    let board = Board::new();
    let grid = board.to_2d_array();
    assert_eq!(grid[0][4], Some(Piece::new(PieceType::King, Color::White)));
    assert_eq!(grid[7][3], Some(Piece::new(PieceType::Queen, Color::Black)));
    assert_eq!(grid[3][3], None);
    for file in 0..8 {
        assert_eq!(grid[1][file], Some(Piece::new(PieceType::Pawn, Color::White)));
    }
}

#[test]
fn test_board_clone_is_independent() {
    let board = Board::new();
    let mut copy = board.clone();
    copy.remove_piece(sq("e2"));
    assert_eq!(copy.get_piece(sq("e2")), None);
    assert_eq!(
        board.get_piece(sq("e2")),
        Some(Piece::new(PieceType::Pawn, Color::White))
    );
}

#[test]
fn test_default_board_is_initial_position() {
    let board = Board::default();
    assert_eq!(
        board.get_piece(sq("e1")),
        Some(Piece::new(PieceType::King, Color::White))
    );
}
