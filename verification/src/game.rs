//! The game state and its single mutating operation: the move-legality
//! pipeline, move execution, derived-state bookkeeping and status
//! recomputation.
use vstd::prelude::*;

use crate::board::{
    board_at, lemma_find_king_from_props, lemma_pieces_upto_complete, lemma_pieces_upto_elems,
    scan_sq, spec_attacked, spec_find_king, spec_initial_piece, spec_path_clear, spec_pieces,
    spec_relocate, spec_set, on_board, Board,
};
use crate::types::{CastlingRights, Color, GameStatus, Move, Piece, PieceType, Square};
use vstd::math::abs;

verus! {

/// Why a move was refused.  Every refusal leaves the game unchanged.
#[derive(Debug, Clone)]
pub enum ChessError {
    /// No piece at the source square, or a geometry/occupancy rule violated.
    InvalidMove(String),
    /// The game already ended in checkmate, stalemate or a draw.
    GameOver,
    /// The source piece belongs to the side not to move.
    NotYourTurn,
    /// The move would leave the mover's own king attacked.
    KingInCheck,
}

impl ChessError {
    /// A human-readable description of the error.
    pub fn message(&self) -> (r: String)
        ensures
            match self {
                ChessError::InvalidMove(reason) => r@ == "Invalid move: "@ + reason@,
                ChessError::GameOver => r@ == "Game is over"@,
                ChessError::NotYourTurn => r@ == "Not your turn"@,
                ChessError::KingInCheck => r@ == "King would be in check"@,
            },
    {
        match self {
            ChessError::InvalidMove(reason) => vstd::string::StringExecFns::concat(
                "Invalid move: ".to_owned(),
                reason.as_str(),
            ),
            ChessError::GameOver => "Game is over".to_owned(),
            ChessError::NotYourTurn => "Not your turn".to_owned(),
            ChessError::KingInCheck => "King would be in check".to_owned(),
        }
    }
}

/// The authoritative state of one game: board, side to move, castling
/// rights, en-passant target, the two clocks and the derived status.
pub struct GameState {
    pub board: Board,
    pub current_player: Color,
    pub castling_rights: CastlingRights,
    pub en_passant_target: Option<Square>,
    pub halfmove_clock: u32,
    pub fullmove_number: u32,
    pub status: GameStatus,
}

/// Everything the move-legality pipeline reads of a game state: the board
/// model, the side to move, the castling rights and the en-passant target.
pub ghost struct Position {
    pub board: Seq<Option<Piece>>,
    pub player: Color,
    pub rights: CastlingRights,
    pub ep: Option<Square>,
}

/// The side of `color` is in check on board `bm`: its first king in scan
/// order is attacked by the opponent.  A board with no king of `color` is
/// tolerated and counts as not in check.
pub open spec fn spec_in_check(bm: Seq<Option<Piece>>, color: Color) -> bool {
    match spec_find_king(bm, color) {
        Some(k) => spec_attacked(bm, k, color.spec_opposite()),
        None => false,
    }
}

/// The pawn rule: a one-rank push onto an empty square, a two-rank push
/// from the home rank over an empty square onto an empty square, a
/// diagonal step onto an opposing piece, or a flagged en-passant capture
/// onto the stored target square.
pub open spec fn spec_legal_pawn_move(pos: Position, m: Move, color: Color) -> bool {
    let direction: int = if color == Color::White {
        1
    } else {
        -1
    };
    let file_diff = m.to.file - m.from.file;
    let rank_diff = m.to.rank - m.from.rank;
    if file_diff == 0 {
        if rank_diff == direction {
            board_at(pos.board, m.to.file as int, m.to.rank as int) is None
        } else if rank_diff == 2 * direction {
            let starting_rank: int = if color == Color::White {
                1
            } else {
                6
            };
            m.from.rank == starting_rank && board_at(pos.board, m.to.file as int, m.to.rank as int)
                is None && spec_path_clear(pos.board, m.from, m.to)
        } else {
            false
        }
    } else if abs(file_diff) == 1 && rank_diff == direction {
        if board_at(pos.board, m.to.file as int, m.to.rank as int) is Some {
            true
        } else if pos.ep == Some(m.to) {
            m.is_en_passant
        } else {
            false
        }
    } else {
        false
    }
}

/// The rook rule: same file or same rank, with a clear path.
pub open spec fn spec_legal_rook_move(bm: Seq<Option<Piece>>, from: Square, to: Square) -> bool {
    (abs(to.file - from.file) == 0 || abs(to.rank - from.rank) == 0) && spec_path_clear(
        bm,
        from,
        to,
    )
}

/// The knight rule: a (2,1) or (1,2) jump, no path requirement.
pub open spec fn spec_legal_knight_move(from: Square, to: Square) -> bool {
    let fdiff = abs(to.file - from.file);
    let rdiff = abs(to.rank - from.rank);
    (fdiff == 2 && rdiff == 1) || (fdiff == 1 && rdiff == 2)
}

/// The bishop rule: a non-degenerate diagonal with a clear path.
pub open spec fn spec_legal_bishop_move(bm: Seq<Option<Piece>>, from: Square, to: Square) -> bool {
    let fdiff = abs(to.file - from.file);
    let rdiff = abs(to.rank - from.rank);
    fdiff == rdiff && fdiff > 0 && spec_path_clear(bm, from, to)
}

/// The non-castling king rule: at most one step on each axis, not the
/// null move.
pub open spec fn spec_legal_king_move(from: Square, to: Square) -> bool {
    let fdiff = abs(to.file - from.file);
    let rdiff = abs(to.rank - from.rank);
    fdiff <= 1 && rdiff <= 1 && (fdiff > 0 || rdiff > 0)
}

/// One square of a castling transit is acceptable: it is empty, and — for
/// the files the king crosses or lands on — relocating the king there must
/// not leave it attacked.
pub open spec fn spec_castle_square_ok(pos: Position, from: Square, color: Color, file: int) -> bool {
    board_at(pos.board, file, from.rank as int) is None && (2 <= file <= 6
        ==> !spec_attacked(
        spec_relocate(pos.board, from, Square { file: file as u8, rank: from.rank }),
        Square { file: file as u8, rank: from.rank },
        color.spec_opposite(),
    ))
}

/// The castling rule: king on its home square, the matching right still
/// held, the king not currently in check, every square the king crosses or
/// lands on and every square strictly between king and rook empty, and no
/// square the king transits or lands on attacked.
pub open spec fn spec_legal_castling(pos: Position, m: Move, color: Color) -> bool {
    let home = Square { file: 4, rank: if color == Color::White { 0 } else { 7 } };
    m.from == home && {
        let kingside = m.to.file > m.from.file;
        pos.rights.spec_can_castle(color, kingside) && !spec_in_check(pos.board, color) && (
        if kingside {
            spec_castle_square_ok(pos, m.from, color, 5) && spec_castle_square_ok(
                pos,
                m.from,
                color,
                6,
            )
        } else {
            spec_castle_square_ok(pos, m.from, color, 3) && spec_castle_square_ok(
                pos,
                m.from,
                color,
                2,
            ) && spec_castle_square_ok(pos, m.from, color, 1)
        })
    }
}

/// Piece-specific geometric legality of `m` for `piece`, including the
/// shared rule that the destination must not hold a same-color piece.
pub open spec fn spec_is_legal_move(pos: Position, m: Move, piece: Piece) -> bool {
    (match board_at(pos.board, m.to.file as int, m.to.rank as int) {
        Some(dest) => dest.color != piece.color,
        None => true,
    }) && match piece.piece_type {
        PieceType::Pawn => spec_legal_pawn_move(pos, m, piece.color),
        PieceType::Rook => spec_legal_rook_move(pos.board, m.from, m.to),
        PieceType::Knight => spec_legal_knight_move(m.from, m.to),
        PieceType::Bishop => spec_legal_bishop_move(pos.board, m.from, m.to),
        PieceType::Queen => spec_legal_rook_move(pos.board, m.from, m.to)
            || spec_legal_bishop_move(pos.board, m.from, m.to),
        PieceType::King => if m.is_castling {
            spec_legal_castling(pos, m, piece.color)
        } else {
            spec_legal_king_move(m.from, m.to)
        },
    }
}

/// The board after relocating the moved piece and, for an en-passant
/// capture, removing the pawn on the capturing pawn's origin rank at the
/// destination file.
pub open spec fn spec_board_after_basic(bm: Seq<Option<Piece>>, m: Move) -> Seq<Option<Piece>> {
    let b1 = spec_relocate(bm, m.from, m.to);
    if m.is_en_passant {
        spec_set(b1, Square { file: m.to.file, rank: m.from.rank }, None)
    } else {
        b1
    }
}

/// Applying `m` to a scratch copy of the board leaves the mover's own
/// king attacked.  The king square is the move's destination if the king
/// itself moved; a board without the mover's king counts as safe.
pub open spec fn spec_leaves_king_in_check(pos: Position, m: Move) -> bool {
    match board_at(pos.board, m.from.file as int, m.from.rank as int) {
        Some(piece) => {
            let tb = spec_board_after_basic(pos.board, m);
            let king_square = if piece.piece_type == PieceType::King {
                Some(m.to)
            } else {
                spec_find_king(tb, pos.player)
            };
            match king_square {
                Some(k) => spec_attacked(tb, k, pos.player.spec_opposite()),
                None => false,
            }
        },
        None => false,
    }
}

/// The whole validation pipeline accepts `m`: a piece of the side to move
/// stands on the source, the geometry is legal, and the mover's king is
/// safe afterwards.
pub open spec fn spec_move_ok(pos: Position, m: Move) -> bool {
    match board_at(pos.board, m.from.file as int, m.from.rank as int) {
        Some(piece) => piece.color == pos.player && spec_is_legal_move(pos, m, piece)
            && !spec_leaves_king_in_check(pos, m),
        None => false,
    }
}

/// The inputs on which validation fails with `InvalidMove`: an empty
/// source square, or an own piece whose geometry rule refuses the move.
pub open spec fn spec_err_invalid(pos: Position, m: Move) -> bool {
    match board_at(pos.board, m.from.file as int, m.from.rank as int) {
        Some(piece) => piece.color == pos.player && !spec_is_legal_move(pos, m, piece),
        None => true,
    }
}

/// The inputs on which validation fails with `NotYourTurn`.
pub open spec fn spec_err_not_your_turn(pos: Position, m: Move) -> bool {
    match board_at(pos.board, m.from.file as int, m.from.rank as int) {
        Some(piece) => piece.color != pos.player,
        None => false,
    }
}

/// The inputs on which validation fails with `KingInCheck`.
pub open spec fn spec_err_king_in_check(pos: Position, m: Move) -> bool {
    match board_at(pos.board, m.from.file as int, m.from.rank as int) {
        Some(piece) => piece.color == pos.player && spec_is_legal_move(pos, m, piece)
            && spec_leaves_king_in_check(pos, m),
        None => false,
    }
}

/// The board after the full execution of a validated move: the basic
/// relocation (with any en-passant removal) and the promotion rewrite, or
/// the king-and-rook compound relocation for castling.
pub open spec fn spec_board_after_execute(bm: Seq<Option<Piece>>, m: Move) -> Seq<Option<Piece>> {
    if m.is_castling {
        let b1 = spec_relocate(bm, m.from, m.to);
        let rook_from_file: int = if m.to.file > m.from.file {
            7
        } else {
            0
        };
        let rook_to_file: int = if m.to.file > m.from.file {
            5
        } else {
            3
        };
        spec_relocate(
            b1,
            Square { file: rook_from_file as u8, rank: m.from.rank },
            Square { file: rook_to_file as u8, rank: m.from.rank },
        )
    } else {
        let b1 = spec_board_after_basic(bm, m);
        match m.promotion {
            Some(kind) => match board_at(bm, m.from.file as int, m.from.rank as int) {
                Some(piece) => spec_set(
                    b1,
                    m.to,
                    Some(Piece { piece_type: kind, color: piece.color }),
                ),
                None => b1,
            },
            None => b1,
        }
    }
}

/// The castling rights left after a move, keyed on the piece standing on
/// the destination once the move has been executed: a king move clears
/// both of its color's rights, a rook move away from a home corner clears
/// that side's right.
pub open spec fn spec_rights_after(
    bm_post: Seq<Option<Piece>>,
    rights: CastlingRights,
    m: Move,
) -> CastlingRights {
    match board_at(bm_post, m.to.file as int, m.to.rank as int) {
        Some(piece) => match piece.piece_type {
            PieceType::King => rights.spec_remove(piece.color, None),
            PieceType::Rook => {
                let home_rank: u8 = if piece.color == Color::White {
                    0
                } else {
                    7
                };
                if m.from == (Square { file: 0, rank: home_rank }) {
                    rights.spec_remove(piece.color, Some(false))
                } else if m.from == (Square { file: 7, rank: home_rank }) {
                    rights.spec_remove(piece.color, Some(true))
                } else {
                    rights
                }
            },
            _ => rights,
        },
        None => rights,
    }
}

/// The en-passant target after a move: the skipped square if and only if
/// the move was a two-rank pawn advance, cleared otherwise.
pub open spec fn spec_ep_after(bm_post: Seq<Option<Piece>>, m: Move) -> Option<Square> {
    match board_at(bm_post, m.to.file as int, m.to.rank as int) {
        Some(piece) => if piece.piece_type == PieceType::Pawn && abs(m.to.rank - m.from.rank)
            == 2 {
            Some(Square { file: m.to.file, rank: ((m.from.rank + m.to.rank) / 2) as u8 })
        } else {
            None
        },
        None => None,
    }
}

/// The halfmove clock after a move: reset by a pawn move or an en-passant
/// capture, incremented otherwise.
pub open spec fn spec_clock_after(clock: u32, moved: Piece, m: Move) -> int {
    if moved.piece_type == PieceType::Pawn || m.is_en_passant {
        0
    } else {
        clock + 1
    }
}

/// A plain candidate (no promotion, no flags) from `from` to `to` passes
/// the full legality-plus-king-safety pipeline for the side to move.
pub open spec fn spec_plain_move_ok(pos: Position, from: Square, to: Square) -> bool {
    match board_at(pos.board, from.file as int, from.rank as int) {
        Some(piece) => {
            let m = Move::spec_new(from, to);
            piece.color == pos.player && spec_is_legal_move(pos, m, piece)
                && !spec_leaves_king_in_check(pos, m)
        },
        None => false,
    }
}

/// The side to move has at least one legal plain move.
pub open spec fn spec_has_any_legal_move(pos: Position) -> bool {
    exists|from: Square, to: Square|
        from.spec_valid() && to.spec_valid() && #[trigger] spec_plain_move_ok(pos, from, to)
}

/// The status derived from a position for the side to move: checkmate or
/// stalemate without a legal move, check or in-progress with one — and a
/// halfmove clock at 50 or beyond forces a draw regardless.
pub open spec fn spec_status_for(pos: Position, clock: u32) -> GameStatus {
    let base = if !spec_has_any_legal_move(pos) {
        if spec_in_check(pos.board, pos.player) {
            GameStatus::Checkmate(pos.player.spec_opposite())
        } else {
            GameStatus::Stalemate
        }
    } else if spec_in_check(pos.board, pos.player) {
        GameStatus::Check
    } else {
        GameStatus::InProgress
    };
    if clock >= 50 {
        GameStatus::Draw
    } else {
        base
    }
}

/// Two game states agree on everything a caller can observe.
pub open spec fn obs_eq(a: GameState, b: GameState) -> bool {
    a.board@ == b.board@ && a.current_player == b.current_player && a.castling_rights
        == b.castling_rights && a.en_passant_target == b.en_passant_target && a.halfmove_clock
        == b.halfmove_clock && a.fullmove_number == b.fullmove_number && a.status == b.status
}

/// A freshly created game: the standard initial position, White to move,
/// full castling rights, no en-passant target, clocks at 0 and 1.
pub open spec fn spec_initial_state(s: GameState) -> bool {
    &&& s.board.wf()
    &&& forall|f: int, r: int|
        on_board(f, r) ==> board_at(s.board@, f, r) == spec_initial_piece(f, r)
    &&& s.current_player == Color::White
    &&& s.castling_rights == CastlingRights::spec_new()
    &&& s.en_passant_target is None
    &&& s.halfmove_clock == 0
    &&& s.fullmove_number == 1
    &&& s.status == GameStatus::InProgress
}

impl GameState {
    /// What the legality pipeline reads of this state.
    pub open spec fn pos(&self) -> Position {
        Position {
            board: self.board@,
            player: self.current_player,
            rights: self.castling_rights,
            ep: self.en_passant_target,
        }
    }

    /// The structural invariant: a 64-square board and a halfmove clock
    /// that can only have reached 50 in a terminal state.
    pub open spec fn wf(&self) -> bool {
        self.board.wf() && self.halfmove_clock <= 50 && (!self.status.spec_is_terminal()
            ==> self.halfmove_clock < 50)
    }

    /// A game in the standard initial position.
    pub fn new() -> (r: GameState)
        ensures
            r.wf(),
            spec_initial_state(r),
    {
        GameState {
            board: Board::new(),
            current_player: Color::White,
            castling_rights: CastlingRights::new(),
            en_passant_target: None,
            halfmove_clock: 0,
            fullmove_number: 1,
            status: GameStatus::InProgress,
        }
    }

    /// Whether the side of `color` is currently in check.
    pub fn is_in_check(&self, color: Color) -> (r: bool)
        requires
            self.board.wf(),
        ensures
            r == spec_in_check(self.board@, color),
    {
        match self.board.find_king(color) {
            Some(king_square) => {
                proof {
                    lemma_find_king_from_props(self.board@, color, 0);
                }
                self.board.is_square_attacked(king_square, color.opposite())
            },
            None => false,
        }
    }

    /// Runs the ordered validation pipeline on `chess_move` without
    /// mutating anything, and classifies any refusal.
    fn validate_move(&self, chess_move: &Move) -> (r: Result<(), ChessError>)
        requires
            self.board.wf(),
            chess_move.from.spec_valid(),
            chess_move.to.spec_valid(),
        ensures
            r is Ok <==> spec_move_ok(self.pos(), *chess_move),
            r matches Err(ChessError::InvalidMove(_)) <==> spec_err_invalid(
                self.pos(),
                *chess_move,
            ),
            r matches Err(ChessError::NotYourTurn) <==> spec_err_not_your_turn(
                self.pos(),
                *chess_move,
            ),
            r matches Err(ChessError::KingInCheck) <==> spec_err_king_in_check(
                self.pos(),
                *chess_move,
            ),
            match r {
                Err(ChessError::InvalidMove(msg)) => msg@ == if board_at(
                    self.board@,
                    chess_move.from.file as int,
                    chess_move.from.rank as int,
                ) is None {
                    "No piece at source square"@
                } else {
                    "Illegal move for this piece"@
                },
                _ => true,
            },
    {
        let piece = match self.board.get_piece(chess_move.from) {
            Some(p) => p,
            None => {
                return Err(ChessError::InvalidMove("No piece at source square".to_owned()));
            },
        };
        if piece.color != self.current_player {
            return Err(ChessError::NotYourTurn);
        }
        if !self.is_legal_move(chess_move, piece) {
            return Err(ChessError::InvalidMove("Illegal move for this piece".to_owned()));
        }
        if self.would_leave_king_in_check(chess_move) {
            return Err(ChessError::KingInCheck);
        }
        Ok(())
    }

    /// Piece-specific geometric legality, including the shared rule that
    /// the destination must not hold a same-color piece.
    pub(crate) fn is_legal_move(&self, chess_move: &Move, piece: Piece) -> (r: bool)
        requires
            self.board.wf(),
            chess_move.from.spec_valid(),
            chess_move.to.spec_valid(),
            board_at(
                self.board@,
                chess_move.from.file as int,
                chess_move.from.rank as int,
            ) == Some(piece),
        ensures
            r == spec_is_legal_move(self.pos(), *chess_move, piece),
    {
        let from = chess_move.from;
        let to = chess_move.to;
        if let Some(dest_piece) = self.board.get_piece(to) {
            if dest_piece.color == piece.color {
                return false;
            }
        }
        match piece.piece_type {
            PieceType::Pawn => self.is_legal_pawn_move(chess_move, piece.color),
            PieceType::Rook => self.is_legal_rook_move(from, to),
            PieceType::Knight => self.is_legal_knight_move(from, to),
            PieceType::Bishop => self.is_legal_bishop_move(from, to),
            PieceType::Queen => self.is_legal_queen_move(from, to),
            PieceType::King => {
                if chess_move.is_castling {
                    self.is_legal_castling(chess_move, piece.color)
                } else {
                    self.is_legal_king_move(from, to)
                }
            },
        }
    }

    /// The pawn rule of `spec_legal_pawn_move`.
    fn is_legal_pawn_move(&self, chess_move: &Move, color: Color) -> (r: bool)
        requires
            self.board.wf(),
            chess_move.from.spec_valid(),
            chess_move.to.spec_valid(),
        ensures
            r == spec_legal_pawn_move(self.pos(), *chess_move, color),
    {
        let from = chess_move.from;
        let to = chess_move.to;
        let direction: i16 = match color {
            Color::White => 1,
            Color::Black => -1,
        };
        let file_diff = to.file as i16 - from.file as i16;
        let rank_diff = to.rank as i16 - from.rank as i16;
        if file_diff == 0 {
            if rank_diff == direction {
                self.board.get_piece(to).is_none()
            } else if rank_diff == 2 * direction {
                let starting_rank: u8 = match color {
                    Color::White => 1,
                    Color::Black => 6,
                };
                from.rank == starting_rank && self.board.get_piece(to).is_none()
                    && self.board.is_path_clear(from, to)
            } else {
                false
            }
        } else if (file_diff == 1 || file_diff == -1) && rank_diff == direction {
            if self.board.get_piece(to).is_some() {
                true
            } else if (match self.en_passant_target {
                Some(target) => target == to,
                None => false,
            }) {
                chess_move.is_en_passant
            } else {
                false
            }
        } else {
            false
        }
    }

    /// The rook rule of `spec_legal_rook_move`.
    fn is_legal_rook_move(&self, from: Square, to: Square) -> (r: bool)
        requires
            self.board.wf(),
            from.spec_valid(),
            to.spec_valid(),
            from != to,
        ensures
            r == spec_legal_rook_move(self.board@, from, to),
    {
        let file_diff = to.file as i16 - from.file as i16;
        let rank_diff = to.rank as i16 - from.rank as i16;
        (file_diff == 0 || rank_diff == 0) && self.board.is_path_clear(from, to)
    }

    /// The knight rule of `spec_legal_knight_move`.
    fn is_legal_knight_move(&self, from: Square, to: Square) -> (r: bool)
        ensures
            r == spec_legal_knight_move(from, to),
    {
        let file_diff = to.file as i16 - from.file as i16;
        let rank_diff = to.rank as i16 - from.rank as i16;
        let fd_abs = if file_diff >= 0 {
            file_diff
        } else {
            -file_diff
        };
        let rd_abs = if rank_diff >= 0 {
            rank_diff
        } else {
            -rank_diff
        };
        (fd_abs == 2 && rd_abs == 1) || (fd_abs == 1 && rd_abs == 2)
    }

    /// The bishop rule of `spec_legal_bishop_move`.
    fn is_legal_bishop_move(&self, from: Square, to: Square) -> (r: bool)
        requires
            self.board.wf(),
            from.spec_valid(),
            to.spec_valid(),
            from != to,
        ensures
            r == spec_legal_bishop_move(self.board@, from, to),
    {
        let file_diff = to.file as i16 - from.file as i16;
        let rank_diff = to.rank as i16 - from.rank as i16;
        let fd_abs = if file_diff >= 0 {
            file_diff
        } else {
            -file_diff
        };
        let rd_abs = if rank_diff >= 0 {
            rank_diff
        } else {
            -rank_diff
        };
        fd_abs == rd_abs && fd_abs > 0 && self.board.is_path_clear(from, to)
    }

    /// The queen rule: the rook rule or the bishop rule.
    fn is_legal_queen_move(&self, from: Square, to: Square) -> (r: bool)
        requires
            self.board.wf(),
            from.spec_valid(),
            to.spec_valid(),
            from != to,
        ensures
            r == (spec_legal_rook_move(self.board@, from, to) || spec_legal_bishop_move(
                self.board@,
                from,
                to,
            )),
    {
        self.is_legal_rook_move(from, to) || self.is_legal_bishop_move(from, to)
    }

    /// The non-castling king rule of `spec_legal_king_move`.
    fn is_legal_king_move(&self, from: Square, to: Square) -> (r: bool)
        ensures
            r == spec_legal_king_move(from, to),
    {
        let file_diff = to.file as i16 - from.file as i16;
        let rank_diff = to.rank as i16 - from.rank as i16;
        let fd_abs = if file_diff >= 0 {
            file_diff
        } else {
            -file_diff
        };
        let rd_abs = if rank_diff >= 0 {
            rank_diff
        } else {
            -rank_diff
        };
        fd_abs <= 1 && rd_abs <= 1 && (fd_abs > 0 || rd_abs > 0)
    }

    /// One transit square of a castling: `spec_castle_square_ok`.
    fn castle_square_ok(&self, from: Square, color: Color, file: u8) -> (r: bool)
        requires
            self.board.wf(),
            from.spec_valid(),
            1 <= file <= 6,
        ensures
            r == spec_castle_square_ok(self.pos(), from, color, file as int),
    {
        let sq = Square { file, rank: from.rank };
        if self.board.get_piece(sq).is_some() {
            return false;
        }
        if 2 <= file && file <= 6 {
            let mut temp_board = self.board.clone();
            temp_board.move_piece(from, sq);
            if temp_board.is_square_attacked(sq, color.opposite()) {
                return false;
            }
        }
        true
    }

    /// The castling rule of `spec_legal_castling`.
    fn is_legal_castling(&self, chess_move: &Move, color: Color) -> (r: bool)
        requires
            self.board.wf(),
            chess_move.from.spec_valid(),
            chess_move.to.spec_valid(),
        ensures
            r == spec_legal_castling(self.pos(), *chess_move, color),
    {
        let from = chess_move.from;
        let to = chess_move.to;
        let king_start_square = match color {
            Color::White => Square { file: 4, rank: 0 },
            Color::Black => Square { file: 4, rank: 7 },
        };
        if from != king_start_square {
            return false;
        }
        let kingside = to.file > from.file;
        if !self.castling_rights.can_castle(color, kingside) {
            return false;
        }
        if self.is_in_check(color) {
            return false;
        }
        if kingside {
            self.castle_square_ok(from, color, 5) && self.castle_square_ok(from, color, 6)
        } else {
            self.castle_square_ok(from, color, 3) && self.castle_square_ok(from, color, 2)
                && self.castle_square_ok(from, color, 1)
        }
    }

    /// King-safety simulation on a scratch copy: `spec_leaves_king_in_check`.
    pub(crate) fn would_leave_king_in_check(&self, chess_move: &Move) -> (r: bool)
        requires
            self.board.wf(),
            chess_move.from.spec_valid(),
            chess_move.to.spec_valid(),
            board_at(
                self.board@,
                chess_move.from.file as int,
                chess_move.from.rank as int,
            ) is Some,
        ensures
            r == spec_leaves_king_in_check(self.pos(), *chess_move),
    {
        let mut temp_board = self.board.clone();
        let piece = temp_board.get_piece(chess_move.from).unwrap();
        temp_board.move_piece(chess_move.from, chess_move.to);
        if chess_move.is_en_passant {
            let capture_square = Square { file: chess_move.to.file, rank: chess_move.from.rank };
            temp_board.remove_piece(capture_square);
        }
        let king_square = if piece.piece_type == PieceType::King {
            chess_move.to
        } else {
            match temp_board.find_king(self.current_player) {
                Some(k) => k,
                None => {
                    return false;
                },
            }
        };
        proof {
            lemma_find_king_from_props(temp_board@, self.current_player, 0);
        }
        temp_board.is_square_attacked(king_square, self.current_player.opposite())
    }

    /// Executes an already validated move on the real board.
    fn execute_move(&mut self, chess_move: Move)
        requires
            old(self).board.wf(),
            chess_move.from.spec_valid(),
            chess_move.to.spec_valid(),
            board_at(
                old(self).board@,
                chess_move.from.file as int,
                chess_move.from.rank as int,
            ) is Some,
        ensures
            final(self).board.wf(),
            final(self).board@ == spec_board_after_execute(old(self).board@, chess_move),
            final(self).current_player == old(self).current_player,
            final(self).castling_rights == old(self).castling_rights,
            final(self).en_passant_target == old(self).en_passant_target,
            final(self).halfmove_clock == old(self).halfmove_clock,
            final(self).fullmove_number == old(self).fullmove_number,
            final(self).status == old(self).status,
    {
        let piece = self.board.get_piece(chess_move.from).unwrap();
        if chess_move.is_castling {
            self.board.move_piece(chess_move.from, chess_move.to);
            let (rook_from, rook_to) = if chess_move.to.file > chess_move.from.file {
                (
                    Square { file: 7, rank: chess_move.from.rank },
                    Square { file: 5, rank: chess_move.from.rank },
                )
            } else {
                (
                    Square { file: 0, rank: chess_move.from.rank },
                    Square { file: 3, rank: chess_move.from.rank },
                )
            };
            self.board.move_piece(rook_from, rook_to);
        } else {
            self.board.move_piece(chess_move.from, chess_move.to);
            if chess_move.is_en_passant {
                let capture_square = Square {
                    file: chess_move.to.file,
                    rank: chess_move.from.rank,
                };
                self.board.remove_piece(capture_square);
            }
            if let Some(promotion) = chess_move.promotion {
                self.board.set_piece(chess_move.to, Piece::new(promotion, piece.color));
            }
        }
    }

    /// Recomputes the castling rights after execution, keyed on the piece
    /// standing on the destination square.
    fn update_castling_rights(&mut self, chess_move: &Move)
        requires
            old(self).board.wf(),
        ensures
            final(self).castling_rights == spec_rights_after(
                old(self).board@,
                old(self).castling_rights,
                *chess_move,
            ),
            final(self).board == old(self).board,
            final(self).current_player == old(self).current_player,
            final(self).en_passant_target == old(self).en_passant_target,
            final(self).halfmove_clock == old(self).halfmove_clock,
            final(self).fullmove_number == old(self).fullmove_number,
            final(self).status == old(self).status,
    {
        let piece = match self.board.get_piece(chess_move.to) {
            Some(p) => p,
            None => {
                return;
            },
        };
        match piece.piece_type {
            PieceType::King => {
                self.castling_rights.remove_rights(piece.color, None);
            },
            PieceType::Rook => {
                let home_rank: u8 = match piece.color {
                    Color::White => 0,
                    Color::Black => 7,
                };
                if chess_move.from == (Square { file: 0, rank: home_rank }) {
                    self.castling_rights.remove_rights(piece.color, Some(false));
                } else if chess_move.from == (Square { file: 7, rank: home_rank }) {
                    self.castling_rights.remove_rights(piece.color, Some(true));
                }
            },
            _ => {},
        }
    }

    /// Recomputes the en-passant target after execution.
    fn update_en_passant(&mut self, chess_move: &Move)
        requires
            old(self).board.wf(),
        ensures
            final(self).en_passant_target == spec_ep_after(old(self).board@, *chess_move),
            (final(self).en_passant_target is Some) <==> (match board_at(
                old(self).board@,
                chess_move.to.file as int,
                chess_move.to.rank as int,
            ) {
                Some(p) => p.piece_type == PieceType::Pawn && abs(
                    chess_move.to.rank - chess_move.from.rank,
                ) == 2,
                None => false,
            }),
            match final(self).en_passant_target {
                Some(t) => t.file == chess_move.to.file && 2 * t.rank == chess_move.from.rank
                    + chess_move.to.rank,
                None => true,
            },
            final(self).board == old(self).board,
            final(self).current_player == old(self).current_player,
            final(self).castling_rights == old(self).castling_rights,
            final(self).halfmove_clock == old(self).halfmove_clock,
            final(self).fullmove_number == old(self).fullmove_number,
            final(self).status == old(self).status,
    {
        let piece = match self.board.get_piece(chess_move.to) {
            Some(p) => p,
            None => {
                self.en_passant_target = None;
                return;
            },
        };
        self.en_passant_target = None;
        if piece.piece_type == PieceType::Pawn {
            let rank_diff = chess_move.to.rank as i16 - chess_move.from.rank as i16;
            if rank_diff == 2 || rank_diff == -2 {
                let target_rank = (chess_move.from.rank + chess_move.to.rank) / 2;
                self.en_passant_target = Some(
                    Square { file: chess_move.to.file, rank: target_rank },
                );
            }
        }
    }

    /// Updates the halfmove clock: reset on a pawn move or an en-passant
    /// capture, incremented otherwise.  `moved` is the piece that was
    /// picked up from the source square.
    fn update_clocks(&mut self, chess_move: &Move, moved: Piece)
        requires
            old(self).halfmove_clock < u32::MAX,
        ensures
            final(self).halfmove_clock == spec_clock_after(
                old(self).halfmove_clock,
                moved,
                *chess_move,
            ),
            final(self).board == old(self).board,
            final(self).current_player == old(self).current_player,
            final(self).castling_rights == old(self).castling_rights,
            final(self).en_passant_target == old(self).en_passant_target,
            final(self).fullmove_number == old(self).fullmove_number,
            final(self).status == old(self).status,
    {
        if moved.piece_type == PieceType::Pawn || chess_move.is_en_passant {
            self.halfmove_clock = 0;
        } else {
            self.halfmove_clock = self.halfmove_clock + 1;
        }
    }

    /// Flips the side to move; the fullmove number advances when the turn
    /// returns to White.
    fn switch_player(&mut self)
        requires
            old(self).fullmove_number < u32::MAX,
        ensures
            final(self).current_player == old(self).current_player.spec_opposite(),
            final(self).fullmove_number == old(self).fullmove_number + (
            if old(self).current_player.spec_opposite() == Color::White {
                1int
            } else {
                0int
            }),
            final(self).board == old(self).board,
            final(self).castling_rights == old(self).castling_rights,
            final(self).en_passant_target == old(self).en_passant_target,
            final(self).halfmove_clock == old(self).halfmove_clock,
            final(self).status == old(self).status,
    {
        self.current_player = self.current_player.opposite();
        if self.current_player == Color::White {
            self.fullmove_number = self.fullmove_number + 1;
        }
    }

    /// Whether the side to move has at least one legal plain move:
    /// an exhaustive scan of every own piece against every board square
    /// through the same legality-plus-king-safety pipeline.
    fn has_legal_moves(&self) -> (r: bool)
        requires
            self.board.wf(),
        ensures
            r == spec_has_any_legal_move(self.pos()),
    {
        let pieces = self.board.get_pieces(self.current_player);
        let ghost ps = pieces@;
        let mut k: usize = 0;
        while k < pieces.len()
            invariant
                self.board.wf(),
                ps == spec_pieces(self.board@, self.current_player),
                pieces@ == ps,
                k <= ps.len(),
                forall|i: int, to: Square|
                    0 <= i < k && to.spec_valid() ==> !spec_plain_move_ok(
                        self.pos(),
                        ps[i].0,
                        to,
                    ),
            decreases ps.len() - k,
        {
            let (from, piece) = pieces[k];
            proof {
                lemma_pieces_upto_elems(self.board@, self.current_player, 64);
            }
            let mut d: usize = 0;
            while d < 64
                invariant
                    self.board.wf(),
                    d <= 64,
                    from.spec_valid(),
                    board_at(self.board@, from.file as int, from.rank as int) == Some(piece),
                    piece.color == self.current_player,
                    forall|d0: int|
                        0 <= d0 < d ==> !spec_plain_move_ok(self.pos(), from, scan_sq(d0)),
                decreases 64 - d,
            {
                let to = Square { file: (d % 8) as u8, rank: (d / 8) as u8 };
                let chess_move = Move::new(from, to);
                if self.is_legal_move(&chess_move, piece) && !self.would_leave_king_in_check(
                    &chess_move,
                ) {
                    proof {
                        assert(spec_plain_move_ok(self.pos(), from, to));
                    }
                    return true;
                }
                proof {
                    assert(scan_sq(d as int) == to);
                }
                d += 1;
            }
            proof {
                assert forall|to: Square| to.spec_valid() implies !spec_plain_move_ok(
                    self.pos(),
                    from,
                    to,
                ) by {
                    let d0 = to.rank * 8 + to.file;
                    assert(d0 % 8 == to.file && d0 / 8 == to.rank) by (nonlinear_arith)
                        requires
                            to.spec_valid(),
                            d0 == to.rank * 8 + to.file,
                    ;
                    assert(scan_sq(d0) == to);
                    assert(!spec_plain_move_ok(self.pos(), from, scan_sq(d0)));
                }
            }
            k += 1;
        }
        proof {
            if spec_has_any_legal_move(self.pos()) {
                let (from, to) = choose|from: Square, to: Square|
                    from.spec_valid() && to.spec_valid() && #[trigger] spec_plain_move_ok(
                        self.pos(),
                        from,
                        to,
                    );
                lemma_pieces_upto_complete(self.board@, self.current_player, 64);
                match board_at(self.board@, from.file as int, from.rank as int) {
                    Some(p) => {
                        assert(ps.contains((from, p)));
                        let i = choose|i: int| 0 <= i < ps.len() && ps[i] == (from, p);
                        assert(!spec_plain_move_ok(self.pos(), ps[i].0, to));
                    },
                    None => {},
                }
            }
        }
        false
    }

    /// Recomputes the status for the new side to move.
    fn update_status(&mut self)
        requires
            old(self).board.wf(),
        ensures
            final(self).status == spec_status_for(old(self).pos(), old(self).halfmove_clock),
            final(self).board == old(self).board,
            final(self).current_player == old(self).current_player,
            final(self).castling_rights == old(self).castling_rights,
            final(self).en_passant_target == old(self).en_passant_target,
            final(self).halfmove_clock == old(self).halfmove_clock,
            final(self).fullmove_number == old(self).fullmove_number,
    {
        let in_check = self.is_in_check(self.current_player);
        let has_moves = self.has_legal_moves();
        self.status = if !has_moves {
            if in_check {
                GameStatus::Checkmate(self.current_player.opposite())
            } else {
                GameStatus::Stalemate
            }
        } else if in_check {
            GameStatus::Check
        } else {
            GameStatus::InProgress
        };
        if self.halfmove_clock >= 50 {
            self.status = GameStatus::Draw;
        }
    }

    /// The single mutating operation: validates `chess_move` against the
    /// full pipeline, then either applies it together with every derived
    /// field update, or returns an error.
    ///
    /// The contract states, for every input: rejection is side-effect-free
    /// (on `Err` every observable field — board, side to move, rights,
    /// en-passant target, both clocks and status — equals its old value);
    /// every accepted move toggles the side to move exactly once; and a
    /// halfmove clock that reaches 50 forces the draw status regardless of
    /// mobility or check.
    pub fn make_move(&mut self, chess_move: Move) -> (r: Result<(), ChessError>)
        requires
            old(self).wf(),
            chess_move.from.spec_valid(),
            chess_move.to.spec_valid(),
            old(self).fullmove_number < u32::MAX,
        ensures
            final(self).wf(),
            r is Err ==> obs_eq(*final(self), *old(self)),
            r is Ok ==> final(self).current_player == old(self).current_player.spec_opposite(),
            r is Ok && final(self).halfmove_clock >= 50 ==> final(self).status
                == GameStatus::Draw,
            (r matches Err(ChessError::GameOver)) <==> old(self).status.spec_is_terminal(),
            !old(self).status.spec_is_terminal() ==> {
                &&& (r is Ok <==> spec_move_ok(old(self).pos(), chess_move))
                &&& ((r matches Err(ChessError::InvalidMove(_))) <==> spec_err_invalid(
                    old(self).pos(),
                    chess_move,
                ))
                &&& ((r matches Err(ChessError::NotYourTurn)) <==> spec_err_not_your_turn(
                    old(self).pos(),
                    chess_move,
                ))
                &&& ((r matches Err(ChessError::KingInCheck)) <==> spec_err_king_in_check(
                    old(self).pos(),
                    chess_move,
                ))
                &&& match r {
                    Err(ChessError::InvalidMove(msg)) => msg@ == if board_at(
                        old(self).board@,
                        chess_move.from.file as int,
                        chess_move.from.rank as int,
                    ) is None {
                        "No piece at source square"@
                    } else {
                        "Illegal move for this piece"@
                    },
                    _ => true,
                }
            },
            r is Ok ==> {
                let s0 = *old(self);
                let s1 = *final(self);
                &&& s1.board@ == spec_board_after_execute(s0.board@, chess_move)
                &&& s1.castling_rights == spec_rights_after(
                    s1.board@,
                    s0.castling_rights,
                    chess_move,
                )
                &&& s1.en_passant_target == spec_ep_after(s1.board@, chess_move)
                &&& match board_at(
                    s0.board@,
                    chess_move.from.file as int,
                    chess_move.from.rank as int,
                ) {
                    Some(moved) => s1.halfmove_clock == spec_clock_after(
                        s0.halfmove_clock,
                        moved,
                        chess_move,
                    ),
                    None => false,
                }
                &&& s1.fullmove_number == s0.fullmove_number + (
                if s0.current_player.spec_opposite() == Color::White {
                    1int
                } else {
                    0int
                })
                &&& s1.status == spec_status_for(s1.pos(), s1.halfmove_clock)
            },
    {
        match self.status {
            GameStatus::Checkmate(_) | GameStatus::Stalemate | GameStatus::Draw => {
                return Err(ChessError::GameOver);
            },
            _ => {},
        }
        match self.validate_move(&chess_move) {
            Ok(()) => {},
            Err(e) => {
                return Err(e);
            },
        }
        let moved = self.board.get_piece(chess_move.from).unwrap();
        self.execute_move(chess_move);
        self.update_castling_rights(&chess_move);
        self.update_en_passant(&chess_move);
        self.update_clocks(&chess_move, moved);
        self.switch_player();
        self.update_status();
        Ok(())
    }
}

impl Clone for GameState {
    /// An independent copy observationally equal to the original.
    fn clone(&self) -> (r: GameState)
        ensures
            obs_eq(r, *self),
    {
        GameState {
            board: self.board.clone(),
            current_player: self.current_player,
            castling_rights: self.castling_rights,
            en_passant_target: self.en_passant_target,
            halfmove_clock: self.halfmove_clock,
            fullmove_number: self.fullmove_number,
            status: self.status,
        }
    }
}

impl Default for GameState {
    /// A game in the standard initial position.
    fn default() -> (r: GameState)
        ensures
            r.wf(),
            spec_initial_state(r),
    {
        GameState::new()
    }
}

} // verus!
