//! FEN export: the six standard space-separated fields, with runs of
//! empty squares collapsed to a decimal count and ranks written from
//! rank 8 down to rank 1.
use vstd::prelude::*;

use crate::board::{board_at, Board};
use crate::game::GameState;
use crate::strings::{digit_char, push_char, push_u32_dec, spec_dec_digits, spec_digit_char};
use crate::types::{
    spec_file_char, spec_rank_char, CastlingRights, Color, Piece, PieceType, Square,
};

verus! {

/// The FEN letter of a piece: `p r n b q k`, uppercased for White.
pub open spec fn spec_piece_char(p: Piece) -> char {
    match (p.piece_type, p.color) {
        (PieceType::Pawn, Color::White) => 'P',
        (PieceType::Rook, Color::White) => 'R',
        (PieceType::Knight, Color::White) => 'N',
        (PieceType::Bishop, Color::White) => 'B',
        (PieceType::Queen, Color::White) => 'Q',
        (PieceType::King, Color::White) => 'K',
        (PieceType::Pawn, Color::Black) => 'p',
        (PieceType::Rook, Color::Black) => 'r',
        (PieceType::Knight, Color::Black) => 'n',
        (PieceType::Bishop, Color::Black) => 'b',
        (PieceType::Queen, Color::Black) => 'q',
        (PieceType::King, Color::Black) => 'k',
    }
}

/// The rest of one rank's placement text, from `file` on, with `run`
/// empty squares pending.
pub open spec fn spec_rank_fen(
    bm: Seq<Option<Piece>>,
    rank: int,
    file: int,
    run: int,
) -> Seq<char>
    decreases 8 - file,
{
    if file >= 8 {
        if run > 0 {
            seq![spec_digit_char(run)]
        } else {
            Seq::empty()
        }
    } else {
        match board_at(bm, file, rank) {
            Some(p) => (if run > 0 {
                seq![spec_digit_char(run)]
            } else {
                Seq::empty()
            }) + seq![spec_piece_char(p)] + spec_rank_fen(bm, rank, file + 1, 0),
            None => spec_rank_fen(bm, rank, file + 1, run + 1),
        }
    }
}

/// The placement text of ranks 7 down to `rank`, each rank followed by
/// `/` except rank 0.
pub open spec fn spec_ranks_down_to(bm: Seq<Option<Piece>>, rank: int) -> Seq<char>
    decreases 8 - rank,
{
    if rank > 7 {
        Seq::empty()
    } else {
        spec_ranks_down_to(bm, rank + 1) + spec_rank_fen(bm, rank, 0, 0) + (if rank > 0 {
            seq!['/']
        } else {
            Seq::empty()
        })
    }
}

/// The castling-availability field: the subset of `KQkq` still held, or
/// `-` if none.
pub open spec fn spec_castling_field(rights: CastlingRights) -> Seq<char> {
    let held = (if rights.white_kingside {
        seq!['K']
    } else {
        Seq::empty()
    }) + (if rights.white_queenside {
        seq!['Q']
    } else {
        Seq::empty()
    }) + (if rights.black_kingside {
        seq!['k']
    } else {
        Seq::empty()
    }) + (if rights.black_queenside {
        seq!['q']
    } else {
        Seq::empty()
    });
    if held.len() == 0 {
        seq!['-']
    } else {
        held
    }
}

/// The en-passant field: the target in algebraic form, or `-`.
pub open spec fn spec_ep_field(ep: Option<Square>) -> Seq<char> {
    match ep {
        Some(t) => seq![spec_file_char(t.file as int), spec_rank_char(t.rank as int)],
        None => seq!['-'],
    }
}

/// The whole six-field FEN text of a game state.
pub open spec fn spec_fen(s: GameState) -> Seq<char> {
    spec_ranks_down_to(s.board@, 0) + seq![' '] + seq![
        if s.current_player == Color::White {
            'w'
        } else {
            'b'
        },
    ] + seq![' '] + spec_castling_field(s.castling_rights) + seq![' '] + spec_ep_field(
        s.en_passant_target,
    ) + seq![' '] + spec_dec_digits(s.halfmove_clock as int) + seq![' '] + spec_dec_digits(
        s.fullmove_number as int,
    )
}

/// Appends the piece-placement field of `board` to `fen`.
fn push_placement(board: &Board, fen: &mut String)
    requires
        board.wf(),
    ensures
        final(fen)@ == old(fen)@ + spec_ranks_down_to(board@, 0),
{
    let ghost bm = board@;
    let mut i: usize = 0;
    while i < 8
        invariant
            board.wf(),
            bm == board@,
            i <= 8,
            fen@ == old(fen)@ + spec_ranks_down_to(bm, 8 - i as int),
        decreases 8 - i,
    {
        let rank = (7 - i) as u8;
        let mut empty_count: u32 = 0;
        let mut file: u8 = 0;
        while file < 8
            invariant
                board.wf(),
                bm == board@,
                rank < 8,
                file <= 8,
                empty_count <= file,
                old(fen)@ + spec_ranks_down_to(bm, rank as int + 1) + spec_rank_fen(
                    bm,
                    rank as int,
                    0,
                    0,
                ) == fen@ + spec_rank_fen(bm, rank as int, file as int, empty_count as int),
            decreases 8 - file,
        {
            let square = Square { file, rank };
            match board.get_piece(square) {
                Some(piece) => {
                    if empty_count > 0 {
                        push_char(fen, digit_char(empty_count));
                        empty_count = 0;
                    }
                    push_char(fen, piece_char(piece));
                },
                None => {
                    empty_count = empty_count + 1;
                },
            }
            file = file + 1;
        }
        let ghost fen_after_files = fen@;
        if empty_count > 0 {
            push_char(fen, digit_char(empty_count));
        }
        proof {
            assert(fen@ =~= fen_after_files + spec_rank_fen(
                bm,
                rank as int,
                8,
                empty_count as int,
            ));
            assert(fen@ =~= old(fen)@ + spec_ranks_down_to(bm, rank as int + 1) + spec_rank_fen(
                bm,
                rank as int,
                0,
                0,
            ));
        }
        if rank > 0 {
            push_char(fen, '/');
        }
        proof {
            assert(fen@ =~= old(fen)@ + spec_ranks_down_to(bm, rank as int));
        }
        i = i + 1;
    }
}

/// Appends the castling-availability field to `fen`.
fn push_castling_field(rights: CastlingRights, fen: &mut String)
    ensures
        final(fen)@ == old(fen)@ + spec_castling_field(rights),
{
    let mut any_right = false;
    if rights.white_kingside {
        push_char(fen, 'K');
        any_right = true;
    }
    if rights.white_queenside {
        push_char(fen, 'Q');
        any_right = true;
    }
    if rights.black_kingside {
        push_char(fen, 'k');
        any_right = true;
    }
    if rights.black_queenside {
        push_char(fen, 'q');
        any_right = true;
    }
    if !any_right {
        push_char(fen, '-');
    }
    proof {
        assert(fen@ =~= old(fen)@ + spec_castling_field(rights));
    }
}

/// Appends the en-passant field to `fen`.
fn push_ep_field(ep: Option<Square>, fen: &mut String)
    requires
        match ep {
            Some(t) => t.spec_valid(),
            None => true,
        },
    ensures
        final(fen)@ == old(fen)@ + spec_ep_field(ep),
{
    match ep {
        Some(target) => {
            push_char(fen, Square::file_char(target.file));
            push_char(fen, Square::rank_char(target.rank));
        },
        None => {
            push_char(fen, '-');
        },
    }
    proof {
        assert(fen@ =~= old(fen)@ + spec_ep_field(ep));
    }
}

/// The FEN letter of a piece.
fn piece_char(p: Piece) -> (r: char)
    ensures
        r == spec_piece_char(p),
{
    match p.color {
        Color::White => match p.piece_type {
            PieceType::Pawn => 'P',
            PieceType::Rook => 'R',
            PieceType::Knight => 'N',
            PieceType::Bishop => 'B',
            PieceType::Queen => 'Q',
            PieceType::King => 'K',
        },
        Color::Black => match p.piece_type {
            PieceType::Pawn => 'p',
            PieceType::Rook => 'r',
            PieceType::Knight => 'n',
            PieceType::Bishop => 'b',
            PieceType::Queen => 'q',
            PieceType::King => 'k',
        },
    }
}

impl GameState {
    /// The position in Forsyth-Edwards Notation.
    pub fn to_fen(&self) -> (r: String)
        requires
            self.board.wf(),
            match self.en_passant_target {
                Some(t) => t.spec_valid(),
                None => true,
            },
        ensures
            r@ == spec_fen(*self),
    {
        let mut fen = String::new();
        push_placement(&self.board, &mut fen);
        push_char(&mut fen, ' ');
        push_char(
            &mut fen,
            match self.current_player {
                Color::White => 'w',
                Color::Black => 'b',
            },
        );
        push_char(&mut fen, ' ');
        push_castling_field(self.castling_rights, &mut fen);
        push_char(&mut fen, ' ');
        push_ep_field(self.en_passant_target, &mut fen);
        push_char(&mut fen, ' ');
        push_u32_dec(&mut fen, self.halfmove_clock);
        push_char(&mut fen, ' ');
        push_u32_dec(&mut fen, self.fullmove_number);
        proof {
            assert(fen@ =~= spec_fen(*self));
        }
        fen
    }
}

} // verus!
