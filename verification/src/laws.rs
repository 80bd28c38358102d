//! Engine-wide laws, proved once and for all over the same specification
//! functions that the executable contracts use: soundness and
//! completeness of the legal-move enumeration, the en-passant window, and
//! the castling refusals.
use vstd::prelude::*;

use crate::board::{board_at, lemma_pieces_upto_complete, scan_sq, spec_attacked, spec_pieces,
    spec_relocate};
use crate::game::{
    spec_board_after_execute, spec_castle_square_ok, spec_ep_after, spec_err_invalid,
    spec_rights_after,
    spec_err_king_in_check, spec_err_not_your_turn, spec_in_check, spec_is_legal_move,
    spec_leaves_king_in_check, spec_legal_castling, spec_move_ok, Position,
};
use crate::moves::{
    spec_candidate_move, spec_candidate_ok, spec_expansion, spec_legal_moves,
    spec_moves_for_piece_upto, spec_moves_upto, spec_promo_rank,
};
use crate::types::{CastlingRights, Color, Move, Piece, PieceType, Square};
use vstd::math::abs;

verus! {

/// Geometric legality and the king-safety test read a move's squares and
/// flags, never its promotion field.
proof fn lemma_promotion_irrelevant(pos: Position, m1: Move, m2: Move, piece: Piece)
    requires
        m1.from == m2.from,
        m1.to == m2.to,
        m1.is_castling == m2.is_castling,
        m1.is_en_passant == m2.is_en_passant,
    ensures
        spec_is_legal_move(pos, m1, piece) == spec_is_legal_move(pos, m2, piece),
        spec_leaves_king_in_check(pos, m1) == spec_leaves_king_in_check(pos, m2),
{
}

/// A member of the left part of a concatenation is a member of the whole.
proof fn lemma_seq_contains_left<A>(a: Seq<A>, b: Seq<A>, x: A)
    requires
        a.contains(x),
    ensures
        (a + b).contains(x),
{
    let i = choose|i: int| 0 <= i < a.len() && a[i] == x;
    assert((a + b)[i] == x);
}

/// A member of the right part of a concatenation is a member of the whole.
proof fn lemma_seq_contains_right<A>(a: Seq<A>, b: Seq<A>, x: A)
    requires
        b.contains(x),
    ensures
        (a + b).contains(x),
{
    let i = choose|i: int| 0 <= i < b.len() && b[i] == x;
    assert((a + b)[a.len() + i] == x);
}

/// Every move the enumeration emits for one (from, to) pair passes the
/// whole validation pipeline and leaves the mover's king safe.
proof fn lemma_expansion_sound(pos: Position, from: Square, to: Square)
    ensures
        forall|i: int|
            0 <= i < spec_expansion(pos, from, to).len() ==> spec_move_ok(
                pos,
                #[trigger] spec_expansion(pos, from, to)[i],
            ) && !spec_leaves_king_in_check(pos, spec_expansion(pos, from, to)[i]),
{
    if spec_candidate_ok(pos, from, to) {
        let m = spec_candidate_move(pos, from, to);
        match board_at(pos.board, from.file as int, from.rank as int) {
            Some(p) => {
                assert(spec_move_ok(pos, m));
                let ext = spec_expansion(pos, from, to);
                assert forall|i: int| 0 <= i < ext.len() implies spec_move_ok(pos, #[trigger] ext[i])
                    && !spec_leaves_king_in_check(pos, ext[i]) by {
                    lemma_promotion_irrelevant(pos, ext[i], m, p);
                }
            },
            None => {},
        }
    }
}

/// Soundness lifted over the destination scan of one piece.
proof fn lemma_moves_for_piece_sound(pos: Position, from: Square, d: int)
    ensures
        forall|i: int|
            0 <= i < spec_moves_for_piece_upto(pos, from, d).len() ==> spec_move_ok(
                pos,
                #[trigger] spec_moves_for_piece_upto(pos, from, d)[i],
            ) && !spec_leaves_king_in_check(pos, spec_moves_for_piece_upto(pos, from, d)[i]),
    decreases d,
{
    if d > 0 {
        lemma_moves_for_piece_sound(pos, from, d - 1);
        lemma_expansion_sound(pos, from, scan_sq(d - 1));
        let prev = spec_moves_for_piece_upto(pos, from, d - 1);
        let ext = spec_expansion(pos, from, scan_sq(d - 1));
        assert forall|i: int| 0 <= i < (prev + ext).len() implies spec_move_ok(
            pos,
            #[trigger] (prev + ext)[i],
        ) && !spec_leaves_king_in_check(pos, (prev + ext)[i]) by {
            if i < prev.len() {
                assert((prev + ext)[i] == prev[i]);
            } else {
                assert((prev + ext)[i] == ext[i - prev.len()]);
            }
        }
    }
}

/// Soundness lifted over the piece scan.
proof fn lemma_moves_upto_sound(pos: Position, k: int)
    ensures
        forall|i: int|
            0 <= i < spec_moves_upto(pos, k).len() ==> spec_move_ok(
                pos,
                #[trigger] spec_moves_upto(pos, k)[i],
            ) && !spec_leaves_king_in_check(pos, spec_moves_upto(pos, k)[i]),
    decreases k,
{
    if k > 0 {
        lemma_moves_upto_sound(pos, k - 1);
        let from = spec_pieces(pos.board, pos.player)[k - 1].0;
        lemma_moves_for_piece_sound(pos, from, 64);
        let prev = spec_moves_upto(pos, k - 1);
        let ext = spec_moves_for_piece_upto(pos, from, 64);
        assert forall|i: int| 0 <= i < (prev + ext).len() implies spec_move_ok(
            pos,
            #[trigger] (prev + ext)[i],
        ) && !spec_leaves_king_in_check(pos, (prev + ext)[i]) by {
            if i < prev.len() {
                assert((prev + ext)[i] == prev[i]);
            } else {
                assert((prev + ext)[i] == ext[i - prev.len()]);
            }
        }
    }
}

/// Legal-move soundness: every move the enumeration returns passes the
/// whole validation pipeline, and in particular applying it never leaves
/// the mover's own king attacked.
pub proof fn lemma_legal_moves_sound(pos: Position, i: int)
    requires
        0 <= i < spec_legal_moves(pos).len(),
    ensures
        spec_move_ok(pos, spec_legal_moves(pos)[i]),
        !spec_leaves_king_in_check(pos, spec_legal_moves(pos)[i]),
{
    lemma_moves_upto_sound(pos, spec_pieces(pos.board, pos.player).len() as int);
}

/// A move value in the shape the enumeration itself builds: flags as the
/// auto-detection sets them for the piece on the source square, and a
/// promotion exactly when a pawn reaches its farthest rank, to one of the
/// four pieces it offers.
pub open spec fn spec_canonical_move(pos: Position, m: Move) -> bool {
    match board_at(pos.board, m.from.file as int, m.from.rank as int) {
        Some(p) => {
            let base = spec_candidate_move(pos, m.from, m.to);
            m.is_castling == base.is_castling && m.is_en_passant == base.is_en_passant && (
            if p.piece_type == PieceType::Pawn && m.to.rank == spec_promo_rank(p.color) {
                m.promotion == Some(PieceType::Queen) || m.promotion == Some(PieceType::Rook)
                    || m.promotion == Some(PieceType::Bishop) || m.promotion == Some(
                    PieceType::Knight,
                )
            } else {
                m.promotion is None
            })
        },
        None => true,
    }
}

/// Membership in one expansion is kept by the destination scan.
proof fn lemma_moves_for_piece_complete(pos: Position, from: Square, j: int, d: int, x: Move)
    requires
        0 <= j < d,
        spec_expansion(pos, from, scan_sq(j)).contains(x),
    ensures
        spec_moves_for_piece_upto(pos, from, d).contains(x),
    decreases d,
{
    let prev = spec_moves_for_piece_upto(pos, from, d - 1);
    let ext = spec_expansion(pos, from, scan_sq(d - 1));
    if j == d - 1 {
        lemma_seq_contains_right(prev, ext, x);
    } else {
        lemma_moves_for_piece_complete(pos, from, j, d - 1, x);
        lemma_seq_contains_left(prev, ext, x);
    }
}

/// Membership in one piece's moves is kept by the piece scan.
proof fn lemma_moves_upto_complete(pos: Position, k: int, n: int, x: Move)
    requires
        0 <= k < n,
        spec_moves_for_piece_upto(pos, spec_pieces(pos.board, pos.player)[k].0, 64).contains(x),
    ensures
        spec_moves_upto(pos, n).contains(x),
    decreases n,
{
    let prev = spec_moves_upto(pos, n - 1);
    let ext = spec_moves_for_piece_upto(
        pos,
        spec_pieces(pos.board, pos.player)[n - 1].0,
        64,
    );
    if k == n - 1 {
        lemma_seq_contains_right(prev, ext, x);
    } else {
        lemma_moves_upto_complete(pos, k, n - 1, x);
        lemma_seq_contains_left(prev, ext, x);
    }
}

/// Legal-move completeness, positive form: every canonical move that the
/// validation pipeline accepts appears in the enumeration.
pub proof fn lemma_legal_moves_complete(pos: Position, m: Move)
    requires
        m.from.spec_valid(),
        m.to.spec_valid(),
        spec_canonical_move(pos, m),
        spec_move_ok(pos, m),
    ensures
        spec_legal_moves(pos).contains(m),
{
    let from = m.from;
    let to = m.to;
    match board_at(pos.board, from.file as int, from.rank as int) {
        Some(p) => {
            let base = spec_candidate_move(pos, from, to);
            lemma_promotion_irrelevant(pos, m, base, p);
            assert(spec_candidate_ok(pos, from, to));
            let ext = spec_expansion(pos, from, to);
            if p.piece_type == PieceType::Pawn && to.rank == spec_promo_rank(p.color) {
                assert(ext[0] == (Move { promotion: Some(PieceType::Queen), ..base }));
                if m.promotion == Some(PieceType::Queen) {
                    assert(ext[0] == m);
                } else if m.promotion == Some(PieceType::Rook) {
                    assert(ext[1] == m);
                } else if m.promotion == Some(PieceType::Bishop) {
                    assert(ext[2] == m);
                } else {
                    assert(ext[3] == m);
                }
                assert(ext.contains(m));
            } else {
                assert(ext[0] == m);
                assert(ext.contains(m));
            }
            let j = to.rank * 8 + to.file;
            assert(j % 8 == to.file && j / 8 == to.rank) by (nonlinear_arith)
                requires
                    to.spec_valid(),
                    j == to.rank * 8 + to.file,
            ;
            assert(scan_sq(j) == to);
            lemma_moves_for_piece_complete(pos, from, j, 64, m);
            lemma_pieces_upto_complete(pos.board, pos.player, 64);
            let ps = spec_pieces(pos.board, pos.player);
            assert(ps.contains((from, p)));
            let k = choose|k: int| 0 <= k < ps.len() && ps[k] == (from, p);
            lemma_moves_upto_complete(pos, k, ps.len() as int, m);
        },
        None => {},
    }
}

/// Legal-move completeness: a canonical move that is not in the
/// enumeration is refused by the validation pipeline, with one of the
/// three validation errors.
pub proof fn lemma_unlisted_move_rejected(pos: Position, m: Move)
    requires
        m.from.spec_valid(),
        m.to.spec_valid(),
        spec_canonical_move(pos, m),
        !spec_legal_moves(pos).contains(m),
    ensures
        !spec_move_ok(pos, m),
        spec_err_invalid(pos, m) || spec_err_not_your_turn(pos, m) || spec_err_king_in_check(
            pos,
            m,
        ),
{
    if spec_move_ok(pos, m) {
        lemma_legal_moves_complete(pos, m);
    }
}

/// The en-passant window: the stored target is `Some` exactly for the
/// single ply after a two-rank pawn advance, and then names the square
/// the pawn skipped (the advanced pawn's file, the midpoint rank).
pub proof fn lemma_en_passant_window(bm_post: Seq<Option<Piece>>, m: Move)
    ensures
        (spec_ep_after(bm_post, m) is Some) <==> (match board_at(
            bm_post,
            m.to.file as int,
            m.to.rank as int,
        ) {
            Some(p) => p.piece_type == PieceType::Pawn && abs(m.to.rank - m.from.rank) == 2,
            None => false,
        }),
        match spec_ep_after(bm_post, m) {
            Some(t) => t.file == m.to.file && 2 * t.rank == m.from.rank + m.to.rank,
            None => true,
        },
{
}

/// While the en-passant window is open, a pawn of the side to move that
/// stands diagonally adjacent to the (empty) skipped square may capture
/// onto it: the flagged move passes the whole validation pipeline, lands
/// the pawn on the skipped square, and empties both the capturing pawn's
/// origin and the advanced pawn's own square.  A pawn that is pinned to
/// its king is the one exception, excluded here by the king-safety
/// hypothesis.
pub proof fn lemma_en_passant_capture_available(pos: Position, from: Square, target: Square)
    requires
        pos.board.len() == 64,
        pos.ep == Some(target),
        from.spec_valid(),
        target.spec_valid(),
        board_at(pos.board, from.file as int, from.rank as int) == Some(
            Piece { piece_type: PieceType::Pawn, color: pos.player },
        ),
        board_at(pos.board, target.file as int, target.rank as int) is None,
        abs(target.file - from.file) == 1,
        target.rank - from.rank == (if pos.player == Color::White {
            1int
        } else {
            -1int
        }),
        !spec_leaves_king_in_check(
            pos,
            Move {
                from,
                to: target,
                promotion: None,
                is_castling: false,
                is_en_passant: true,
            },
        ),
    ensures
        ({
            let m = Move {
                from,
                to: target,
                promotion: None,
                is_castling: false,
                is_en_passant: true,
            };
            let after = spec_board_after_execute(pos.board, m);
            &&& spec_move_ok(pos, m)
            &&& board_at(after, target.file as int, target.rank as int) == Some(
                Piece { piece_type: PieceType::Pawn, color: pos.player },
            )
            &&& board_at(after, target.file as int, from.rank as int) is None
            &&& board_at(after, from.file as int, from.rank as int) is None
        }),
{
    let m = Move { from, to: target, promotion: None, is_castling: false, is_en_passant: true };
    lemma_en_passant_capture_removes_pawn(pos.board, m);
}

/// An en-passant capture removes the captured pawn from the square it
/// stood on (the capturing pawn's origin rank, the destination file) —
/// not from the destination — and the capturing piece lands on the
/// skipped square.
pub proof fn lemma_en_passant_capture_removes_pawn(bm: Seq<Option<Piece>>, m: Move)
    requires
        bm.len() == 64,
        m.is_en_passant,
        !m.is_castling,
        m.promotion is None,
        m.from.spec_valid(),
        m.to.spec_valid(),
        m.to.file != m.from.file,
        m.to.rank != m.from.rank,
        board_at(bm, m.from.file as int, m.from.rank as int) is Some,
    ensures
        board_at(spec_board_after_execute(bm, m), m.to.file as int, m.from.rank as int) is None,
        board_at(spec_board_after_execute(bm, m), m.to.file as int, m.to.rank as int) == board_at(
            bm,
            m.from.file as int,
            m.from.rank as int,
        ),
        board_at(spec_board_after_execute(bm, m), m.from.file as int, m.from.rank as int) is None,
{
}

/// Castling rights are monotonically non-increasing: a move can only ever
/// revoke a right, never restore one.
pub proof fn lemma_rights_monotonic(bm_post: Seq<Option<Piece>>, rights: CastlingRights, m: Move)
    ensures
        spec_rights_after(bm_post, rights, m).white_kingside ==> rights.white_kingside,
        spec_rights_after(bm_post, rights, m).white_queenside ==> rights.white_queenside,
        spec_rights_after(bm_post, rights, m).black_kingside ==> rights.black_kingside,
        spec_rights_after(bm_post, rights, m).black_queenside ==> rights.black_queenside,
{
}

/// Kingside castling is rejected whenever any square between king and
/// rook — the landing square included — is occupied, the king is
/// currently in check, or the king would transit or land on an attacked
/// square, even when the final landing square is itself safe.
pub proof fn lemma_kingside_castling_rejected(pos: Position, m: Move, color: Color)
    requires
        m.is_castling,
        m.from == (Square { file: 4, rank: if color == Color::White { 0 } else { 7 } }),
        m.to == (Square { file: 6, rank: m.from.rank }),
        board_at(pos.board, 5, m.from.rank as int) is Some || board_at(
            pos.board,
            6,
            m.from.rank as int,
        ) is Some || spec_in_check(pos.board, color) || spec_attacked(
            spec_relocate(pos.board, m.from, Square { file: 5, rank: m.from.rank }),
            Square { file: 5, rank: m.from.rank },
            color.spec_opposite(),
        ) || spec_attacked(
            spec_relocate(pos.board, m.from, Square { file: 6, rank: m.from.rank }),
            Square { file: 6, rank: m.from.rank },
            color.spec_opposite(),
        ),
    ensures
        !spec_legal_castling(pos, m, color),
        board_at(pos.board, 4, m.from.rank as int) == Some(
            Piece { piece_type: PieceType::King, color },
        ) && color == pos.player ==> !spec_move_ok(pos, m),
{
    assert(!spec_castle_square_ok(pos, m.from, color, 5) || !spec_castle_square_ok(
        pos,
        m.from,
        color,
        6,
    ) || !spec_legal_castling(pos, m, color));
}

/// Castling out of check is never legal: a king currently attacked on its
/// home square may not castle to either side.
pub proof fn lemma_castling_out_of_check_rejected(pos: Position, m: Move, color: Color)
    requires
        spec_in_check(pos.board, color),
    ensures
        !spec_legal_castling(pos, m, color),
{
}

} // verus!
