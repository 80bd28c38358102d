//! End-to-end tests of the game engine: the move pipeline, derived-state
//! bookkeeping, status detection and FEN export.
use chess_engine::game::{ChessError, GameState};
use chess_engine::types::{CastlingRights, Color, GameStatus, Move, Piece, PieceType, Square};

fn sq(text: &str) -> Square {
    Square::from_algebraic(text).unwrap()
}

fn mv(from: &str, to: &str) -> Move {
    Move::new(sq(from), sq(to))
}

fn play(game: &mut GameState, from: &str, to: &str) {
    let result = game.make_move(mv(from, to));
    assert!(result.is_ok(), "move {}{} was rejected", from, to);
}

#[test]
fn test_initial_fen_fixed_point() {
    let game = GameState::new();
    assert_eq!(
        game.to_fen(),
        "rnbqkbnr/pppppppp/8/8/8/8/PPPPPPPP/RNBQKBNR w KQkq - 0 1"
    );
}

#[test]
fn test_fen_after_first_move() {
    let mut game = GameState::new();
    play(&mut game, "e2", "e4");
    assert_eq!(
        game.to_fen(),
        "rnbqkbnr/pppppppp/8/8/4P3/8/PPPP1PPP/RNBQKBNR b KQkq e3 0 1"
    );
}

#[test]
fn test_turn_alternation() {
    let mut game = GameState::new();
    assert_eq!(game.current_player, Color::White);
    play(&mut game, "e2", "e4");
    assert_eq!(game.current_player, Color::Black);
    play(&mut game, "e7", "e5");
    assert_eq!(game.current_player, Color::White);
}

#[test]
fn test_fullmove_number_increments_after_black() {
    let mut game = GameState::new();
    assert_eq!(game.fullmove_number, 1);
    play(&mut game, "e2", "e4");
    assert_eq!(game.fullmove_number, 1);
    play(&mut game, "e7", "e5");
    assert_eq!(game.fullmove_number, 2);
}

#[test]
fn test_halfmove_clock_resets_on_pawn_move() {
    let mut game = GameState::new();
    play(&mut game, "g1", "f3");
    assert_eq!(game.halfmove_clock, 1);
    play(&mut game, "g8", "f6");
    assert_eq!(game.halfmove_clock, 2);
    play(&mut game, "e2", "e4");
    assert_eq!(game.halfmove_clock, 0);
}

#[test]
fn test_rejection_is_side_effect_free() {
    let mut game = GameState::new();
    play(&mut game, "e2", "e4");
    let before_fen = game.to_fen();
    let before_player = game.current_player;
    let before_clock = game.halfmove_clock;
    let before_status = game.status;
    // An illegal rook jump through its own pawn.
    let result = game.make_move(mv("a8", "a4"));
    assert!(result.is_err());
    assert_eq!(game.to_fen(), before_fen);
    assert_eq!(game.current_player, before_player);
    assert_eq!(game.halfmove_clock, before_clock);
    assert_eq!(game.status, before_status);
}

#[test]
fn test_no_piece_at_source_is_invalid_move() {
    let mut game = GameState::new();
    let result = game.make_move(mv("e4", "e5"));
    assert!(matches!(result, Err(ChessError::InvalidMove(_))));
}

#[test]
fn test_moving_opponent_piece_is_not_your_turn() {
    let mut game = GameState::new();
    let result = game.make_move(mv("e7", "e5"));
    assert!(matches!(result, Err(ChessError::NotYourTurn)));
}

#[test]
fn test_exposing_own_king_is_king_in_check() {
    let mut board = chess_engine::board::Board::empty();
    board.set_piece(sq("e1"), Piece::new(PieceType::King, Color::White));
    board.set_piece(sq("e2"), Piece::new(PieceType::Rook, Color::White));
    board.set_piece(sq("e8"), Piece::new(PieceType::Rook, Color::Black));
    board.set_piece(sq("h8"), Piece::new(PieceType::King, Color::Black));
    let mut game = GameState {
        board,
        current_player: Color::White,
        castling_rights: CastlingRights::new(),
        en_passant_target: None,
        halfmove_clock: 0,
        fullmove_number: 1,
        status: GameStatus::InProgress,
    };
    let result = game.make_move(mv("e2", "a2"));
    assert!(matches!(result, Err(ChessError::KingInCheck)));
}

#[test]
fn test_fools_mate_is_checkmate_for_black() {
    let mut game = GameState::new();
    play(&mut game, "f2", "f3");
    play(&mut game, "e7", "e5");
    play(&mut game, "g2", "g4");
    play(&mut game, "d8", "h4");
    assert_eq!(game.status, GameStatus::Checkmate(Color::Black));
    assert!(game.get_legal_moves().is_empty());
}

#[test]
fn test_move_after_game_over_is_rejected() {
    let mut game = GameState::new();
    play(&mut game, "f2", "f3");
    play(&mut game, "e7", "e5");
    play(&mut game, "g2", "g4");
    play(&mut game, "d8", "h4");
    let result = game.make_move(mv("a2", "a3"));
    assert!(matches!(result, Err(ChessError::GameOver)));
}

#[test]
fn test_en_passant_capture() {
    let mut game = GameState::new();
    play(&mut game, "e2", "e4");
    play(&mut game, "a7", "a6");
    play(&mut game, "e4", "e5");
    play(&mut game, "d7", "d5");
    // The double advance opened the window on the skipped square d6.
    assert_eq!(game.en_passant_target, Some(sq("d6")));
    let result = game.make_move(Move::en_passant(sq("e5"), sq("d6")));
    assert!(result.is_ok());
    // The captured pawn leaves its own square d5, not the destination d6.
    assert_eq!(game.board.get_piece(sq("d5")), None);
    assert_eq!(
        game.board.get_piece(sq("d6")),
        Some(Piece::new(PieceType::Pawn, Color::White))
    );
    assert_eq!(game.board.get_piece(sq("e5")), None);
    // An en-passant capture resets the halfmove clock.
    assert_eq!(game.halfmove_clock, 0);
}

#[test]
fn test_en_passant_window_closes_after_one_ply() {
    let mut game = GameState::new();
    play(&mut game, "e2", "e4");
    play(&mut game, "a7", "a6");
    play(&mut game, "e4", "e5");
    play(&mut game, "d7", "d5");
    assert_eq!(game.en_passant_target, Some(sq("d6")));
    // White declines the capture; the option disappears.
    play(&mut game, "a2", "a3");
    assert_eq!(game.en_passant_target, None);
    play(&mut game, "a6", "a5");
    let result = game.make_move(Move::en_passant(sq("e5"), sq("d6")));
    assert!(matches!(result, Err(ChessError::InvalidMove(_))));
}

fn castling_position() -> GameState {
    let mut board = chess_engine::board::Board::empty();
    board.set_piece(sq("e1"), Piece::new(PieceType::King, Color::White));
    board.set_piece(sq("h1"), Piece::new(PieceType::Rook, Color::White));
    board.set_piece(sq("e8"), Piece::new(PieceType::King, Color::Black));
    GameState {
        board,
        current_player: Color::White,
        castling_rights: CastlingRights::new(),
        en_passant_target: None,
        halfmove_clock: 0,
        fullmove_number: 1,
        status: GameStatus::InProgress,
    }
}

#[test]
fn test_kingside_castling_succeeds() {
    let mut game = castling_position();
    let result = game.make_move(Move::castling(sq("e1"), sq("g1")));
    assert!(result.is_ok());
    assert_eq!(
        game.board.get_piece(sq("g1")),
        Some(Piece::new(PieceType::King, Color::White))
    );
    assert_eq!(
        game.board.get_piece(sq("f1")),
        Some(Piece::new(PieceType::Rook, Color::White))
    );
    assert_eq!(game.board.get_piece(sq("e1")), None);
    assert_eq!(game.board.get_piece(sq("h1")), None);
    // A king move clears both of its color's rights.
    assert!(!game.castling_rights.white_kingside);
    assert!(!game.castling_rights.white_queenside);
}

#[test]
fn test_kingside_castling_rejected_when_path_occupied() {
    let mut game = castling_position();
    game.board.set_piece(sq("f1"), Piece::new(PieceType::Bishop, Color::White));
    let result = game.make_move(Move::castling(sq("e1"), sq("g1")));
    assert!(matches!(result, Err(ChessError::InvalidMove(_))));
}

#[test]
fn test_kingside_castling_rejected_when_landing_square_occupied() {
    // An enemy piece on the landing square g1 blocks castling: the king
    // may not castle onto (and thereby capture) it.
    let mut game = castling_position();
    game.board.set_piece(sq("g1"), Piece::new(PieceType::Knight, Color::Black));
    let result = game.make_move(Move::castling(sq("e1"), sq("g1")));
    assert!(matches!(result, Err(ChessError::InvalidMove(_))));
}

#[test]
fn test_queenside_castling_rejected_when_landing_square_occupied() {
    let mut game = castling_position();
    game.board.set_piece(sq("a1"), Piece::new(PieceType::Rook, Color::White));
    game.board.set_piece(sq("c1"), Piece::new(PieceType::Knight, Color::Black));
    let result = game.make_move(Move::castling(sq("e1"), sq("c1")));
    assert!(matches!(result, Err(ChessError::InvalidMove(_))));
}

#[test]
fn test_queenside_castling_rejected_when_rook_path_occupied() {
    // b1 is never crossed by the king but lies strictly between king and
    // rook; an occupant there still refuses the castling.
    let mut game = castling_position();
    game.board.set_piece(sq("a1"), Piece::new(PieceType::Rook, Color::White));
    game.board.set_piece(sq("b1"), Piece::new(PieceType::Knight, Color::White));
    let result = game.make_move(Move::castling(sq("e1"), sq("c1")));
    assert!(matches!(result, Err(ChessError::InvalidMove(_))));
}

#[test]
fn test_queenside_castling_succeeds() {
    let mut game = castling_position();
    game.board.set_piece(sq("a1"), Piece::new(PieceType::Rook, Color::White));
    let result = game.make_move(Move::castling(sq("e1"), sq("c1")));
    assert!(result.is_ok());
    assert_eq!(
        game.board.get_piece(sq("c1")),
        Some(Piece::new(PieceType::King, Color::White))
    );
    assert_eq!(
        game.board.get_piece(sq("d1")),
        Some(Piece::new(PieceType::Rook, Color::White))
    );
    assert_eq!(game.board.get_piece(sq("a1")), None);
    assert_eq!(game.board.get_piece(sq("e1")), None);
}

#[test]
fn test_kingside_castling_rejected_when_king_in_check() {
    let mut game = castling_position();
    game.board.set_piece(sq("e4"), Piece::new(PieceType::Rook, Color::Black));
    let result = game.make_move(Move::castling(sq("e1"), sq("g1")));
    assert!(matches!(result, Err(ChessError::InvalidMove(_))));
}

#[test]
fn test_kingside_castling_rejected_when_transit_attacked() {
    let mut game = castling_position();
    // A rook on f4 attacks the transit square f1 but not the landing
    // square g1: the castling must still be refused.
    game.board.set_piece(sq("f4"), Piece::new(PieceType::Rook, Color::Black));
    let result = game.make_move(Move::castling(sq("e1"), sq("g1")));
    assert!(matches!(result, Err(ChessError::InvalidMove(_))));
}

#[test]
fn test_rook_move_revokes_one_castling_right() {
    let mut game = GameState::new();
    play(&mut game, "h2", "h4");
    play(&mut game, "a7", "a6");
    play(&mut game, "h1", "h3");
    assert!(!game.castling_rights.white_kingside);
    assert!(game.castling_rights.white_queenside);
    assert!(game.castling_rights.black_kingside);
    assert!(game.castling_rights.black_queenside);
}

#[test]
fn test_fifty_move_rule_forces_draw() {
    let mut game = GameState::new();
    // Knight shuffles never move a pawn and never capture, so every ply
    // increments the halfmove clock.
    let cycle = [("g1", "f3"), ("g8", "f6"), ("f3", "g1"), ("f6", "g8")];
    for i in 0..50 {
        let (from, to) = cycle[i % 4];
        play(&mut game, from, to);
        assert_eq!(game.halfmove_clock as usize, i + 1);
    }
    assert_eq!(game.status, GameStatus::Draw);
    let result = game.make_move(mv("g1", "f3"));
    assert!(matches!(result, Err(ChessError::GameOver)));
}

#[test]
fn test_initial_legal_moves_count_and_order() {
    let game = GameState::new();
    let moves = game.get_legal_moves();
    assert_eq!(moves.len(), 20);
    // Piece-scan order: the queenside knight first, destinations in
    // rank-major order.
    assert_eq!(moves[0], mv("b1", "a3"));
    assert_eq!(moves[1], mv("b1", "c3"));
    assert_eq!(moves[2], mv("g1", "f3"));
    assert_eq!(moves[3], mv("g1", "h3"));
    assert_eq!(moves[4], mv("a2", "a3"));
    assert_eq!(moves[5], mv("a2", "a4"));
    assert_eq!(moves[19], mv("h2", "h4"));
}

#[test]
fn test_legal_moves_all_accepted_by_make_move() {
    let mut game = GameState::new();
    play(&mut game, "e2", "e4");
    play(&mut game, "e7", "e5");
    let moves = game.get_legal_moves();
    for m in moves {
        let mut copy = game.clone();
        assert!(copy.make_move(m).is_ok());
    }
}

#[test]
fn test_plain_move_acceptance_matches_enumeration() {
    // In the initial position every plain (unflagged, promotion-free)
    // move is accepted by make_move exactly when the enumeration lists
    // it.
    let game = GameState::new();
    let listed = game.get_legal_moves();
    for from_file in 0..8 {
        for from_rank in 0..8 {
            for to_file in 0..8 {
                for to_rank in 0..8 {
                    let m = Move::new(
                        Square::new(from_file, from_rank).unwrap(),
                        Square::new(to_file, to_rank).unwrap(),
                    );
                    let mut copy = game.clone();
                    let accepted = copy.make_move(m).is_ok();
                    assert_eq!(accepted, listed.contains(&m), "move {:?}", m);
                }
            }
        }
    }
}

#[test]
fn test_promotion_expands_into_four_moves() {
    let mut board = chess_engine::board::Board::empty();
    board.set_piece(sq("a7"), Piece::new(PieceType::Pawn, Color::White));
    board.set_piece(sq("e1"), Piece::new(PieceType::King, Color::White));
    board.set_piece(sq("e8"), Piece::new(PieceType::King, Color::Black));
    let game = GameState {
        board,
        current_player: Color::White,
        castling_rights: CastlingRights::new(),
        en_passant_target: None,
        halfmove_clock: 0,
        fullmove_number: 1,
        status: GameStatus::InProgress,
    };
    let moves = game.get_legal_moves();
    let promos: Vec<&Move> = moves.iter().filter(|m| m.from == sq("a7")).collect();
    assert_eq!(promos.len(), 4);
    assert_eq!(promos[0].promotion, Some(PieceType::Queen));
    assert_eq!(promos[1].promotion, Some(PieceType::Rook));
    assert_eq!(promos[2].promotion, Some(PieceType::Bishop));
    assert_eq!(promos[3].promotion, Some(PieceType::Knight));
}

#[test]
fn test_promotion_replaces_pawn_kind() {
    let mut board = chess_engine::board::Board::empty();
    board.set_piece(sq("a7"), Piece::new(PieceType::Pawn, Color::White));
    board.set_piece(sq("e1"), Piece::new(PieceType::King, Color::White));
    board.set_piece(sq("e8"), Piece::new(PieceType::King, Color::Black));
    let mut game = GameState {
        board,
        current_player: Color::White,
        castling_rights: CastlingRights::new(),
        en_passant_target: None,
        halfmove_clock: 0,
        fullmove_number: 1,
        status: GameStatus::InProgress,
    };
    let result = game.make_move(Move::new(sq("a7"), sq("a8")).with_promotion(PieceType::Queen));
    assert!(result.is_ok());
    assert_eq!(
        game.board.get_piece(sq("a8")),
        Some(Piece::new(PieceType::Queen, Color::White))
    );
}

#[test]
fn test_stalemate_detected() {
    // Black to move: king a8, boxed in by the White queen on c7; not in
    // check, no legal move.
    let mut board = chess_engine::board::Board::empty();
    board.set_piece(sq("a8"), Piece::new(PieceType::King, Color::Black));
    board.set_piece(sq("c7"), Piece::new(PieceType::Queen, Color::White));
    board.set_piece(sq("c5"), Piece::new(PieceType::King, Color::White));
    let mut game = GameState {
        board,
        current_player: Color::White,
        castling_rights: CastlingRights {
            white_kingside: false,
            white_queenside: false,
            black_kingside: false,
            black_queenside: false,
        },
        en_passant_target: None,
        halfmove_clock: 0,
        fullmove_number: 1,
        status: GameStatus::InProgress,
    };
    // A quiet king step hands the turn to Black, who is stalemated.
    let result = game.make_move(mv("c5", "b5"));
    assert!(result.is_ok());
    assert_eq!(game.status, GameStatus::Stalemate);
    assert!(game.get_legal_moves().is_empty());
}

#[test]
fn test_check_status_reported() {
    let mut game = GameState::new();
    play(&mut game, "e2", "e4");
    play(&mut game, "f7", "f6");
    play(&mut game, "d1", "h5");
    assert_eq!(game.status, GameStatus::Check);
    assert!(game.is_in_check(Color::Black));
    assert!(!game.is_in_check(Color::White));
}

#[test]
fn test_plain_two_file_king_move_is_not_castling() {
    // A bare king move of two files, without the castling flag, must be
    // rejected rather than reinterpreted as castling.
    let mut game = castling_position();
    let result = game.make_move(mv("e1", "g1"));
    assert!(matches!(result, Err(ChessError::InvalidMove(_))));
}

#[test]
fn test_chess_error_messages() {
    assert_eq!(
        ChessError::InvalidMove("reason".to_string()).message(),
        "Invalid move: reason"
    );
    assert_eq!(ChessError::GameOver.message(), "Game is over");
    assert_eq!(ChessError::NotYourTurn.message(), "Not your turn");
    assert_eq!(ChessError::KingInCheck.message(), "King would be in check");
}
