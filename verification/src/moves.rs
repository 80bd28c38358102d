//! Legal-move enumeration: every own piece against every board square,
//! with castling and en passant auto-detected from geometry and a pawn
//! move onto the farthest rank expanded into the four promotions.
use vstd::prelude::*;

use crate::board::{board_at, lemma_pieces_upto_elems, scan_sq, spec_pieces};
use crate::game::{
    spec_is_legal_move, spec_leaves_king_in_check, GameState, Position,
};
use crate::types::{Color, Move, Piece, PieceType, Square};
use vstd::math::abs;

verus! {

/// The rank a pawn of `color` promotes on.
pub open spec fn spec_promo_rank(color: Color) -> int {
    if color == Color::White {
        7
    } else {
        0
    }
}

/// The candidate move the enumeration builds from `from` to `to`: no
/// promotion, `is_castling` auto-set for a two-file king displacement and
/// `is_en_passant` auto-set for a pawn aimed at the stored target.
pub open spec fn spec_candidate_move(pos: Position, from: Square, to: Square) -> Move {
    match board_at(pos.board, from.file as int, from.rank as int) {
        Some(p) => Move {
            from,
            to,
            promotion: None,
            is_castling: p.piece_type == PieceType::King && abs(to.file - from.file) == 2,
            is_en_passant: p.piece_type == PieceType::Pawn && pos.ep == Some(to),
        },
        None => Move::spec_new(from, to),
    }
}

/// The candidate from `from` to `to` carries an own piece and passes the
/// full legality-plus-king-safety pipeline.
pub open spec fn spec_candidate_ok(pos: Position, from: Square, to: Square) -> bool {
    match board_at(pos.board, from.file as int, from.rank as int) {
        Some(p) => {
            let m = spec_candidate_move(pos, from, to);
            p.color == pos.player && spec_is_legal_move(pos, m, p)
                && !spec_leaves_king_in_check(pos, m)
        },
        None => false,
    }
}

/// What the enumeration emits for one (from, to) pair: nothing if the
/// candidate fails, the four promotions in the order queen, rook, bishop,
/// knight for a pawn reaching its farthest rank, the bare candidate
/// otherwise.
pub open spec fn spec_expansion(pos: Position, from: Square, to: Square) -> Seq<Move> {
    if !spec_candidate_ok(pos, from, to) {
        Seq::empty()
    } else {
        let m = spec_candidate_move(pos, from, to);
        match board_at(pos.board, from.file as int, from.rank as int) {
            Some(p) => if p.piece_type == PieceType::Pawn && to.rank == spec_promo_rank(p.color) {
                seq![
                    Move { promotion: Some(PieceType::Queen), ..m },
                    Move { promotion: Some(PieceType::Rook), ..m },
                    Move { promotion: Some(PieceType::Bishop), ..m },
                    Move { promotion: Some(PieceType::Knight), ..m },
                ]
            } else {
                seq![m]
            },
            None => Seq::empty(),
        }
    }
}

/// The moves emitted for the piece on `from` against the first `d`
/// destinations in rank-major scan order.
pub open spec fn spec_moves_for_piece_upto(pos: Position, from: Square, d: int) -> Seq<Move>
    decreases d,
{
    if d <= 0 {
        Seq::empty()
    } else {
        spec_moves_for_piece_upto(pos, from, d - 1) + spec_expansion(pos, from, scan_sq(d - 1))
    }
}

/// The moves emitted for the first `k` own pieces in scan order.
pub open spec fn spec_moves_upto(pos: Position, k: int) -> Seq<Move>
    decreases k,
{
    if k <= 0 {
        Seq::empty()
    } else {
        spec_moves_upto(pos, k - 1) + spec_moves_for_piece_upto(
            pos,
            spec_pieces(pos.board, pos.player)[k - 1].0,
            64,
        )
    }
}

/// Every legal move of the side to move, in piece-scan order and then
/// destination scan order: the stable order callers may rely on.
pub open spec fn spec_legal_moves(pos: Position) -> Seq<Move> {
    spec_moves_upto(pos, spec_pieces(pos.board, pos.player).len() as int)
}

impl GameState {
    /// Every legal move for the side to move, in the stable order of
    /// `spec_legal_moves`.
    pub fn get_legal_moves(&self) -> (r: Vec<Move>)
        requires
            self.board.wf(),
        ensures
            r@ == spec_legal_moves(self.pos()),
    {
        let mut moves: Vec<Move> = Vec::new();
        let pieces = self.board.get_pieces(self.current_player);
        let ghost ps = pieces@;
        let mut k: usize = 0;
        while k < pieces.len()
            invariant
                self.board.wf(),
                ps == spec_pieces(self.board@, self.current_player),
                pieces@ == ps,
                k <= ps.len(),
                moves@ == spec_moves_upto(self.pos(), k as int),
            decreases ps.len() - k,
        {
            let (from, piece) = pieces[k];
            proof {
                lemma_pieces_upto_elems(self.board@, self.current_player, 64);
            }
            let mut d: usize = 0;
            while d < 64
                invariant
                    self.board.wf(),
                    d <= 64,
                    from.spec_valid(),
                    board_at(self.board@, from.file as int, from.rank as int) == Some(piece),
                    piece.color == self.current_player,
                    moves@ == spec_moves_upto(self.pos(), k as int) + spec_moves_for_piece_upto(
                        self.pos(),
                        from,
                        d as int,
                    ),
                decreases 64 - d,
            {
                let to = Square { file: (d % 8) as u8, rank: (d / 8) as u8 };
                let mut chess_move = Move::new(from, to);
                if piece.piece_type == PieceType::King {
                    let file_diff = to.file as i16 - from.file as i16;
                    if file_diff == 2 || file_diff == -2 {
                        chess_move.is_castling = true;
                    }
                }
                if piece.piece_type == PieceType::Pawn && (match self.en_passant_target {
                    Some(target) => target == to,
                    None => false,
                }) {
                    chess_move.is_en_passant = true;
                }
                proof {
                    assert(scan_sq(d as int) == to);
                    assert(chess_move == spec_candidate_move(self.pos(), from, to));
                }
                if self.is_legal_move(&chess_move, piece) && !self.would_leave_king_in_check(
                    &chess_move,
                ) {
                    let promotion_rank: u8 = match piece.color {
                        Color::White => 7,
                        Color::Black => 0,
                    };
                    if piece.piece_type == PieceType::Pawn && to.rank == promotion_rank {
                        let mut promo_move = chess_move;
                        promo_move.promotion = Some(PieceType::Queen);
                        moves.push(promo_move);
                        promo_move.promotion = Some(PieceType::Rook);
                        moves.push(promo_move);
                        promo_move.promotion = Some(PieceType::Bishop);
                        moves.push(promo_move);
                        promo_move.promotion = Some(PieceType::Knight);
                        moves.push(promo_move);
                    } else {
                        moves.push(chess_move);
                    }
                    proof {
                        assert(moves@ =~= spec_moves_upto(self.pos(), k as int)
                            + spec_moves_for_piece_upto(self.pos(), from, d + 1));
                    }
                } else {
                    proof {
                        assert(spec_expansion(self.pos(), from, to) =~= Seq::<Move>::empty());
                        assert(moves@ =~= spec_moves_upto(self.pos(), k as int)
                            + spec_moves_for_piece_upto(self.pos(), from, d + 1));
                    }
                }
                d += 1;
            }
            k += 1;
        }
        moves
    }
}

} // verus!
