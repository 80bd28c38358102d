//! The 8x8 board: a dense grid mapping each square to at most one piece,
//! with placement, removal, relocation, king lookup, a geometric attack
//! oracle and a path-clear test for sliding pieces.
//!
//! The mathematical model of a board is a `Seq<Option<Piece>>` of length
//! 64, indexed by `rank * 8 + file`; every contract below speaks of that
//! model through [`board_at`] and the spec functions built on it.
use vstd::prelude::*;

use crate::types::{Color, Piece, PieceType, Square};
use vstd::math::abs;
use vstd::math::max;

verus! {

/// Both coordinates lie inside the 8x8 grid.
pub open spec fn on_board(file: int, rank: int) -> bool {
    0 <= file < 8 && 0 <= rank < 8
}

/// The occupant of `(file, rank)` in board model `bm`; `None` off the board.
pub open spec fn board_at(bm: Seq<Option<Piece>>, file: int, rank: int) -> Option<Piece> {
    if on_board(file, rank) && bm.len() == 64 {
        bm[rank * 8 + file]
    } else {
        None
    }
}

/// The model after writing `p` to `sq`; unchanged for an off-board square.
pub open spec fn spec_set(bm: Seq<Option<Piece>>, sq: Square, p: Option<Piece>) -> Seq<
    Option<Piece>,
> {
    if sq.spec_valid() {
        bm.update(sq.rank * 8 + sq.file, p)
    } else {
        bm
    }
}

/// The model after relocating whatever occupies `from` to `to`: the source
/// square is emptied and its occupant replaces anything at `to`.  An empty
/// or off-board source leaves the board unchanged.
pub open spec fn spec_relocate(bm: Seq<Option<Piece>>, from: Square, to: Square) -> Seq<
    Option<Piece>,
> {
    match board_at(bm, from.file as int, from.rank as int) {
        None => bm,
        Some(p) => spec_set(spec_set(bm, from, None), to, Some(p)),
    }
}

/// What a relocation from `from` to `to` displaces at `to`.
pub open spec fn spec_captured(bm: Seq<Option<Piece>>, from: Square, to: Square) -> Option<Piece> {
    match board_at(bm, from.file as int, from.rank as int) {
        None => None,
        Some(_) => if to == from {
            None
        } else {
            board_at(bm, to.file as int, to.rank as int)
        },
    }
}

/// The piece standing on `(file, rank)` in the standard initial position:
/// pawns on ranks 1 and 6, the back ranks in the standard order with the
/// queen on file 3 and the king on file 4.
pub open spec fn spec_initial_piece(file: int, rank: int) -> Option<Piece> {
    if rank == 1 {
        Some(Piece { piece_type: PieceType::Pawn, color: Color::White })
    } else if rank == 6 {
        Some(Piece { piece_type: PieceType::Pawn, color: Color::Black })
    } else if rank == 0 || rank == 7 {
        let color = if rank == 0 {
            Color::White
        } else {
            Color::Black
        };
        let piece_type = if file == 0 || file == 7 {
            PieceType::Rook
        } else if file == 1 || file == 6 {
            PieceType::Knight
        } else if file == 2 || file == 5 {
            PieceType::Bishop
        } else if file == 3 {
            PieceType::Queen
        } else {
            PieceType::King
        };
        Some(Piece { piece_type, color })
    } else {
        None
    }
}

/// The two endpoints share a file, share a rank, or lie on a common
/// diagonal: the premise of every sliding-piece path walk.
pub open spec fn spec_aligned(from: Square, to: Square) -> bool {
    let fdiff = abs(to.file - from.file);
    let rdiff = abs(to.rank - from.rank);
    fdiff == 0 || rdiff == 0 || fdiff == rdiff
}

/// The unit step (-1, 0 or 1) of a coordinate delta.
pub open spec fn step_of(d: int) -> int {
    if d > 0 {
        1
    } else if d < 0 {
        -1
    } else {
        0
    }
}

/// The number of king-steps from `from` to `to` along an aligned line.
pub open spec fn seg_len(from: Square, to: Square) -> int {
    max(abs(to.file - from.file) as int, abs(to.rank - from.rank) as int)
}

/// The file of the `j`-th square on the line from `from` towards `to`.
pub open spec fn path_file(from: Square, to: Square, j: int) -> int {
    from.file + j * step_of(to.file - from.file)
}

/// The rank of the `j`-th square on the line from `from` towards `to`.
pub open spec fn path_rank(from: Square, to: Square, j: int) -> int {
    from.rank + j * step_of(to.rank - from.rank)
}

/// Every square strictly between `from` and `to` is empty.
pub open spec fn spec_path_clear(bm: Seq<Option<Piece>>, from: Square, to: Square) -> bool {
    forall|j: int|
        1 <= j < seg_len(from, to) ==> board_at(
            bm,
            path_file(from, to, j),
            path_rank(from, to, j),
        ) is None
}

/// A pawn of `color` standing on `from` threatens `to`: one step diagonally
/// in its forward direction.
pub open spec fn spec_pawn_attacks(color: Color, from: Square, to: Square) -> bool {
    let direction: int = if color == Color::White {
        1
    } else {
        -1
    };
    abs(to.file - from.file) == 1 && to.rank - from.rank == direction
}

/// `piece`, standing on `from`, threatens `to` on board `bm`: the pure
/// attack geometry, with a clear path for the sliding pieces.
pub open spec fn spec_piece_attacks(
    bm: Seq<Option<Piece>>,
    from: Square,
    to: Square,
    piece: Piece,
) -> bool {
    if from == to {
        false
    } else {
        let fdiff = abs(to.file - from.file);
        let rdiff = abs(to.rank - from.rank);
        match piece.piece_type {
            PieceType::Pawn => spec_pawn_attacks(piece.color, from, to),
            PieceType::Rook => (fdiff == 0 || rdiff == 0) && spec_path_clear(bm, from, to),
            PieceType::Bishop => fdiff == rdiff && spec_path_clear(bm, from, to),
            PieceType::Queen => (fdiff == 0 || rdiff == 0 || fdiff == rdiff) && spec_path_clear(
                bm,
                from,
                to,
            ),
            PieceType::Knight => (fdiff == 2 && rdiff == 1) || (fdiff == 1 && rdiff == 2),
            PieceType::King => fdiff <= 1 && rdiff <= 1,
        }
    }
}

/// Some piece of `by` on board `bm` threatens `target`.
pub open spec fn spec_attacked(bm: Seq<Option<Piece>>, target: Square, by: Color) -> bool {
    exists|f: int, r: int|
        #![trigger board_at(bm, f, r)]
        on_board(f, r) && match board_at(bm, f, r) {
            Some(p) => p.color == by && spec_piece_attacks(
                bm,
                Square { file: f as u8, rank: r as u8 },
                target,
                p,
            ),
            None => false,
        }
}

/// The square at rank-major scan index `i`.
pub open spec fn scan_sq(i: int) -> Square {
    Square { file: (i % 8) as u8, rank: (i / 8) as u8 }
}

/// The first square at scan index `i` or later (rank-major order) holding
/// the king of `color`, if any.
pub open spec fn spec_find_king_from(bm: Seq<Option<Piece>>, color: Color, i: int) -> Option<
    Square,
>
    decreases 64 - i,
{
    if !(0 <= i < 64) {
        None
    } else {
        match board_at(bm, i % 8, i / 8) {
            Some(p) => if p.piece_type == PieceType::King && p.color == color {
                Some(Square { file: (i % 8) as u8, rank: (i / 8) as u8 })
            } else {
                spec_find_king_from(bm, color, i + 1)
            },
            None => spec_find_king_from(bm, color, i + 1),
        }
    }
}

/// The first king of `color` in rank-major scan order, if any.
pub open spec fn spec_find_king(bm: Seq<Option<Piece>>, color: Color) -> Option<Square> {
    spec_find_king_from(bm, color, 0)
}

/// The pieces of `color` among the first `n` squares in rank-major scan
/// order, each with the square it stands on.
pub open spec fn spec_pieces_upto(bm: Seq<Option<Piece>>, color: Color, n: int) -> Seq<
    (Square, Piece),
>
    decreases n,
{
    if n <= 0 {
        Seq::empty()
    } else {
        let rest = spec_pieces_upto(bm, color, n - 1);
        match board_at(bm, (n - 1) % 8, (n - 1) / 8) {
            Some(p) => if p.color == color {
                rest.push((Square { file: ((n - 1) % 8) as u8, rank: ((n - 1) / 8) as u8 }, p))
            } else {
                rest
            },
            None => rest,
        }
    }
}

/// All pieces of `color` on board `bm`, in rank-major scan order.
pub open spec fn spec_pieces(bm: Seq<Option<Piece>>, color: Color) -> Seq<(Square, Piece)> {
    spec_pieces_upto(bm, color, 64)
}

/// Whatever square `spec_find_king_from` returns is on the board and does
/// hold the king of `color`.
pub proof fn lemma_find_king_from_props(bm: Seq<Option<Piece>>, color: Color, i: int)
    ensures
        match spec_find_king_from(bm, color, i) {
            Some(k) => k.spec_valid() && board_at(bm, k.file as int, k.rank as int) == Some(
                Piece { piece_type: PieceType::King, color },
            ),
            None => true,
        },
    decreases 64 - i,
{
    if 0 <= i < 64 {
        match board_at(bm, i % 8, i / 8) {
            Some(p) => {
                if !(p.piece_type == PieceType::King && p.color == color) {
                    lemma_find_king_from_props(bm, color, i + 1);
                }
            },
            None => {
                lemma_find_king_from_props(bm, color, i + 1);
            },
        }
    }
}

/// Each entry of `spec_pieces_upto` records a piece of the asked color
/// that really stands on the recorded on-board square, at a scan index
/// below `n`.
pub proof fn lemma_pieces_upto_elems(bm: Seq<Option<Piece>>, color: Color, n: int)
    ensures
        forall|i: int|
            0 <= i < spec_pieces_upto(bm, color, n).len() ==> {
                let (sq, p) = #[trigger] spec_pieces_upto(bm, color, n)[i];
                sq.spec_valid() && sq.rank * 8 + sq.file < n && board_at(
                    bm,
                    sq.file as int,
                    sq.rank as int,
                ) == Some(p) && p.color == color
            },
    decreases n,
{
    if n > 0 {
        lemma_pieces_upto_elems(bm, color, n - 1);
        assert(((n - 1) / 8) * 8 + (n - 1) % 8 == n - 1) by (nonlinear_arith);
    }
}

/// Every piece of the asked color whose scan index lies below `n` appears
/// in `spec_pieces_upto`.
pub proof fn lemma_pieces_upto_complete(bm: Seq<Option<Piece>>, color: Color, n: int)
    ensures
        forall|sq: Square, p: Piece|
            sq.spec_valid() && sq.rank * 8 + sq.file < n && board_at(
                bm,
                sq.file as int,
                sq.rank as int,
            ) == Some(p) && p.color == color ==> #[trigger] spec_pieces_upto(
                bm,
                color,
                n,
            ).contains((sq, p)),
    decreases n,
{
    if n > 0 {
        lemma_pieces_upto_complete(bm, color, n - 1);
        let prev = spec_pieces_upto(bm, color, n - 1);
        let cur = spec_pieces_upto(bm, color, n);
        assert forall|sq: Square, p: Piece|
            sq.spec_valid() && sq.rank * 8 + sq.file < n && board_at(
                bm,
                sq.file as int,
                sq.rank as int,
            ) == Some(p) && p.color == color implies #[trigger] cur.contains((sq, p)) by {
            if sq.rank * 8 + sq.file < n - 1 {
                assert(prev.contains((sq, p)));
                let i = choose|i: int| 0 <= i < prev.len() && prev[i] == (sq, p);
                assert(cur.len() >= prev.len());
                assert(cur[i] == (sq, p));
            } else {
                assert(sq.rank * 8 + sq.file == n - 1);
                assert((n - 1) % 8 == sq.file && (n - 1) / 8 == sq.rank) by (nonlinear_arith)
                    requires
                        sq.spec_valid(),
                        sq.rank * 8 + sq.file == n - 1,
                ;
                assert(cur[cur.len() - 1] == (sq, p));
            }
        }
    }
}

/// An 8x8 grid holding at most one piece per square.
pub struct Board {
    squares: Vec<Option<Piece>>,
}

impl View for Board {
    type V = Seq<Option<Piece>>;

    closed spec fn view(&self) -> Seq<Option<Piece>> {
        self.squares@
    }
}

impl Board {
    /// The structural invariant: exactly 64 squares.  Both constructors
    /// establish it and every method preserves it.
    pub open spec fn wf(&self) -> bool {
        self@.len() == 64
    }

    /// A board with no pieces on it.
    pub fn empty() -> (r: Board)
        ensures
            r.wf(),
            forall|f: int, r2: int| board_at(r@, f, r2) is None,
    {
        let mut squares: Vec<Option<Piece>> = Vec::new();
        let mut i: usize = 0;
        while i < 64
            invariant
                i <= 64,
                squares@.len() == i,
                forall|j: int| 0 <= j < i ==> squares@[j] is None,
            decreases 64 - i,
        {
            squares.push(None);
            i += 1;
        }
        Board { squares }
    }

    /// A board in the standard initial position.
    pub fn new() -> (r: Board)
        ensures
            r.wf(),
            forall|f: int, r2: int|
                on_board(f, r2) ==> board_at(r@, f, r2) == spec_initial_piece(f, r2),
    {
        let mut board = Board::empty();
        board.setup_starting_position();
        board
    }

    /// Fills in the standard initial position, replacing the whole grid.
    fn setup_starting_position(&mut self)
        ensures
            final(self).wf(),
            forall|f: int, r2: int|
                on_board(f, r2) ==> board_at(final(self)@, f, r2) == spec_initial_piece(f, r2),
    {
        let mut squares: Vec<Option<Piece>> = Vec::new();
        let mut i: usize = 0;
        while i < 64
            invariant
                i <= 64,
                squares@.len() == i,
                forall|j: int|
                    0 <= j < i ==> squares@[j] == spec_initial_piece(j % 8, j / 8),
            decreases 64 - i,
        {
            let file = (i % 8) as u8;
            let rank = (i / 8) as u8;
            squares.push(Self::initial_piece(file, rank));
            i += 1;
        }
        self.squares = squares;
        proof {
            assert forall|f: int, r2: int| on_board(f, r2) implies board_at(self@, f, r2)
                == spec_initial_piece(f, r2) by {
                let j = r2 * 8 + f;
                assert(0 <= j < 64);
                assert(j % 8 == f && j / 8 == r2) by (nonlinear_arith)
                    requires
                        on_board(f, r2),
                        j == r2 * 8 + f,
                ;
            }
        }
    }

    /// The standard occupant of `(file, rank)` before any move.
    fn initial_piece(file: u8, rank: u8) -> (r: Option<Piece>)
        ensures
            r == spec_initial_piece(file as int, rank as int),
    {
        if rank == 1 {
            Some(Piece { piece_type: PieceType::Pawn, color: Color::White })
        } else if rank == 6 {
            Some(Piece { piece_type: PieceType::Pawn, color: Color::Black })
        } else if rank == 0 || rank == 7 {
            let color = if rank == 0 {
                Color::White
            } else {
                Color::Black
            };
            let piece_type = if file == 0 || file == 7 {
                PieceType::Rook
            } else if file == 1 || file == 6 {
                PieceType::Knight
            } else if file == 2 || file == 5 {
                PieceType::Bishop
            } else if file == 3 {
                PieceType::Queen
            } else {
                PieceType::King
            };
            Some(Piece { piece_type, color })
        } else {
            None
        }
    }

    /// The occupant of `square`; `None` for an empty or off-board square.
    pub fn get_piece(&self, square: Square) -> (r: Option<Piece>)
        requires
            self.wf(),
        ensures
            r == board_at(self@, square.file as int, square.rank as int),
    {
        if square.is_valid() {
            self.squares[square.rank as usize * 8 + square.file as usize]
        } else {
            None
        }
    }

    /// Puts `piece` on `square`; off-board squares are ignored.
    pub fn set_piece(&mut self, square: Square, piece: Piece)
        requires
            old(self).wf(),
        ensures
            final(self).wf(),
            final(self)@ == spec_set(old(self)@, square, Some(piece)),
    {
        if square.is_valid() {
            self.squares[square.rank as usize * 8 + square.file as usize] = Some(piece);
        }
    }

    /// Empties `square`, returning what stood there.
    pub fn remove_piece(&mut self, square: Square) -> (r: Option<Piece>)
        requires
            old(self).wf(),
        ensures
            final(self).wf(),
            final(self)@ == spec_set(old(self)@, square, None),
            r == board_at(old(self)@, square.file as int, square.rank as int),
    {
        if square.is_valid() {
            let piece = self.squares[square.rank as usize * 8 + square.file as usize];
            self.squares[square.rank as usize * 8 + square.file as usize] = None;
            piece
        } else {
            None
        }
    }

    /// Relocates whatever occupies `from` to `to`, returning any piece
    /// displaced from `to`.  An empty source leaves the board unchanged.
    pub fn move_piece(&mut self, from: Square, to: Square) -> (r: Option<Piece>)
        requires
            old(self).wf(),
        ensures
            final(self).wf(),
            final(self)@ == spec_relocate(old(self)@, from, to),
            r == spec_captured(old(self)@, from, to),
    {
        let piece = match self.remove_piece(from) {
            Some(p) => p,
            None => {
                return None;
            },
        };
        let captured = self.remove_piece(to);
        self.set_piece(to, piece);
        proof {
            assert(self@ =~= spec_relocate(old(self)@, from, to));
        }
        captured
    }

    /// The square of the first king of `color` in rank-major scan order.
    pub fn find_king(&self, color: Color) -> (r: Option<Square>)
        requires
            self.wf(),
        ensures
            r == spec_find_king(self@, color),
    {
        let mut i: usize = 0;
        while i < 64
            invariant
                self.wf(),
                i <= 64,
                spec_find_king(self@, color) == spec_find_king_from(self@, color, i as int),
            decreases 64 - i,
        {
            let file = (i % 8) as u8;
            let rank = (i / 8) as u8;
            let square = Square { file, rank };
            if let Some(piece) = self.get_piece(square) {
                if piece.piece_type == PieceType::King && piece.color == color {
                    return Some(square);
                }
            }
            i += 1;
        }
        None
    }

    /// Every piece of `color`, with its square, in rank-major scan order.
    pub fn get_pieces(&self, color: Color) -> (r: Vec<(Square, Piece)>)
        requires
            self.wf(),
        ensures
            r@ == spec_pieces(self@, color),
    {
        let mut pieces: Vec<(Square, Piece)> = Vec::new();
        let mut i: usize = 0;
        while i < 64
            invariant
                self.wf(),
                i <= 64,
                pieces@ == spec_pieces_upto(self@, color, i as int),
            decreases 64 - i,
        {
            let file = (i % 8) as u8;
            let rank = (i / 8) as u8;
            let square = Square { file, rank };
            if let Some(piece) = self.get_piece(square) {
                if piece.color == color {
                    pieces.push((square, piece));
                }
            }
            i += 1;
        }
        pieces
    }

    /// Whether some piece of `by_color` threatens `square`.
    pub fn is_square_attacked(&self, square: Square, by_color: Color) -> (r: bool)
        requires
            self.wf(),
            square.spec_valid(),
        ensures
            r == spec_attacked(self@, square, by_color),
    {
        let mut i: usize = 0;
        while i < 64
            invariant
                self.wf(),
                square.spec_valid(),
                i <= 64,
                forall|f: int, r2: int|
                    #![trigger board_at(self@, f, r2)]
                    on_board(f, r2) && r2 * 8 + f < i ==> match board_at(self@, f, r2) {
                        Some(p) => !(p.color == by_color && spec_piece_attacks(
                            self@,
                            Square { file: f as u8, rank: r2 as u8 },
                            square,
                            p,
                        )),
                        None => true,
                    },
            decreases 64 - i,
        {
            let file = (i % 8) as u8;
            let rank = (i / 8) as u8;
            let from = Square { file, rank };
            if let Some(piece) = self.get_piece(from) {
                if piece.color == by_color && self.can_piece_attack(from, square, piece) {
                    return true;
                }
            }
            proof {
                assert forall|f: int, r2: int|
                    on_board(f, r2) && r2 * 8 + f < i + 1 implies r2 * 8 + f < i || (f == file
                    && r2 == rank) by {
                    if r2 * 8 + f == i {
                        assert(f == (i as int) % 8 && r2 == (i as int) / 8) by (nonlinear_arith)
                            requires
                                on_board(f, r2),
                                r2 * 8 + f == i,
                        ;
                    }
                }
            }
            i += 1;
        }
        false
    }

    /// Whether `piece`, standing on `from`, threatens `to`.
    fn can_piece_attack(&self, from: Square, to: Square, piece: Piece) -> (r: bool)
        requires
            self.wf(),
            from.spec_valid(),
            to.spec_valid(),
        ensures
            r == spec_piece_attacks(self@, from, to, piece),
    {
        if from == to {
            return false;
        }
        let ff = from.file as i16;
        let fr = from.rank as i16;
        let tf = to.file as i16;
        let tr = to.rank as i16;
        let file_diff = if tf >= ff {
            tf - ff
        } else {
            ff - tf
        };
        let rank_diff = if tr >= fr {
            tr - fr
        } else {
            fr - tr
        };
        match piece.piece_type {
            PieceType::Pawn => self.can_pawn_attack(from, to, piece.color),
            PieceType::Rook => (file_diff == 0 || rank_diff == 0) && self.is_path_clear(from, to),
            PieceType::Bishop => file_diff == rank_diff && self.is_path_clear(from, to),
            PieceType::Queen => (file_diff == 0 || rank_diff == 0 || file_diff == rank_diff)
                && self.is_path_clear(from, to),
            PieceType::Knight => (file_diff == 2 && rank_diff == 1) || (file_diff == 1 && rank_diff
                == 2),
            PieceType::King => file_diff <= 1 && rank_diff <= 1,
        }
    }

    /// Whether a pawn of `color` on `from` threatens `to`.
    fn can_pawn_attack(&self, from: Square, to: Square, color: Color) -> (r: bool)
        ensures
            r == spec_pawn_attacks(color, from, to),
    {
        let direction: i16 = match color {
            Color::White => 1,
            Color::Black => -1,
        };
        let file_diff = to.file as i16 - from.file as i16;
        let rank_diff = to.rank as i16 - from.rank as i16;
        let abs_file = if file_diff >= 0 {
            file_diff
        } else {
            -file_diff
        };
        abs_file == 1 && rank_diff == direction
    }

    /// Whether every square strictly between two aligned endpoints is
    /// empty.  Callers must only invoke it when alignment already holds.
    pub fn is_path_clear(&self, from: Square, to: Square) -> (r: bool)
        requires
            self.wf(),
            from.spec_valid(),
            to.spec_valid(),
            from != to,
            spec_aligned(from, to),
        ensures
            r == spec_path_clear(self@, from, to),
    {
        let ff = from.file as i16;
        let fr = from.rank as i16;
        let tf = to.file as i16;
        let tr = to.rank as i16;
        let df: i16 = if tf > ff {
            1
        } else if tf < ff {
            -1
        } else {
            0
        };
        let dr: i16 = if tr > fr {
            1
        } else if tr < fr {
            -1
        } else {
            0
        };
        let fd_abs = if tf >= ff {
            tf - ff
        } else {
            ff - tf
        };
        let rd_abs = if tr >= fr {
            tr - fr
        } else {
            fr - tr
        };
        let steps = if fd_abs >= rd_abs {
            fd_abs
        } else {
            rd_abs
        };
        let ghost gdf = step_of(to.file - from.file);
        let ghost gdr = step_of(to.rank - from.rank);
        proof {
            assert(steps == seg_len(from, to));
            assert(df == gdf && dr == gdr);
        }
        let mut j: i16 = 1;
        let mut cf = ff + df;
        let mut cr = fr + dr;
        while j < steps
            invariant
                self.wf(),
                from.spec_valid(),
                to.spec_valid(),
                spec_aligned(from, to),
                1 <= j <= steps,
                steps == seg_len(from, to),
                steps <= 7,
                df == gdf,
                dr == gdr,
                gdf == step_of(to.file - from.file),
                gdr == step_of(to.rank - from.rank),
                ff == from.file,
                fr == from.rank,
                tf == to.file,
                tr == to.rank,
                cf == path_file(from, to, j as int),
                cr == path_rank(from, to, j as int),
                0 <= cf < 8,
                0 <= cr < 8,
                forall|k: int|
                    1 <= k < j ==> board_at(self@, path_file(from, to, k), path_rank(from, to, k))
                        is None,
            decreases steps - j,
        {
            let square = Square { file: cf as u8, rank: cr as u8 };
            if self.get_piece(square).is_some() {
                proof {
                    assert(board_at(self@, path_file(from, to, j as int), path_rank(from, to, j as int))
                        is Some);
                }
                return false;
            }
            proof {
                assert((j + 1) * gdf == j * gdf + gdf) by (nonlinear_arith);
                assert((j + 1) * gdr == j * gdr + gdr) by (nonlinear_arith);
                lemma_path_in_range(from, to, j + 1);
            }
            j += 1;
            cf += df;
            cr += dr;
        }
        true
    }

    /// The whole grid as a rank-indexed, then file-indexed, array of
    /// optional pieces.
    pub fn to_2d_array(&self) -> (r: [[Option<Piece>; 8]; 8])
        requires
            self.wf(),
        ensures
            forall|f: int, r2: int|
                on_board(f, r2) ==> r@[r2]@[f] == board_at(self@, f, r2),
    {
        let mut out: [[Option<Piece>; 8]; 8] = [[None;8];8];
        let mut rank: usize = 0;
        while rank < 8
            invariant
                self.wf(),
                rank <= 8,
                forall|f: int, r2: int|
                    0 <= f < 8 && 0 <= r2 < rank ==> out@[r2]@[f] == board_at(self@, f, r2),
            decreases 8 - rank,
        {
            let mut row: [Option<Piece>; 8] = [None;8];
            let mut file: usize = 0;
            while file < 8
                invariant
                    self.wf(),
                    rank < 8,
                    file <= 8,
                    forall|f: int| 0 <= f < file ==> row@[f] == board_at(self@, f, rank as int),
                decreases 8 - file,
            {
                row[file] = self.get_piece(Square { file: file as u8, rank: rank as u8 });
                file += 1;
            }
            out[rank] = row;
            rank += 1;
        }
        out
    }
}

/// The `j`-th square of an aligned, non-degenerate segment lies on the
/// board whenever `0 <= j <= seg_len`.
proof fn lemma_path_in_range(from: Square, to: Square, j: int)
    requires
        from.spec_valid(),
        to.spec_valid(),
        spec_aligned(from, to),
        0 <= j <= seg_len(from, to),
    ensures
        on_board(path_file(from, to, j), path_rank(from, to, j)),
{
    let fd = to.file - from.file;
    let rd = to.rank - from.rank;
    let s = seg_len(from, to);
    assert(abs(fd) == 0 || abs(fd) == s);
    assert(abs(rd) == 0 || abs(rd) == s);
    assert(j * step_of(fd) == if fd > 0 {
        j
    } else if fd < 0 {
        -j
    } else {
        0
    }) by (nonlinear_arith);
    assert(j * step_of(rd) == if rd > 0 {
        j
    } else if rd < 0 {
        -j
    } else {
        0
    }) by (nonlinear_arith);
}

impl Clone for Board {
    /// An independent copy with the same occupant on every square.
    fn clone(&self) -> (r: Board)
        ensures
            r@ == self@,
    {
        let mut squares: Vec<Option<Piece>> = Vec::new();
        let mut i: usize = 0;
        while i < self.squares.len()
            invariant
                i <= self.squares@.len(),
                squares@ =~= self.squares@.subrange(0, i as int),
            decreases self.squares@.len() - i,
        {
            squares.push(self.squares[i]);
            i += 1;
        }
        proof {
            assert(squares@ =~= self.squares@);
        }
        Board { squares }
    }
}

impl Default for Board {
    /// The standard initial position.
    fn default() -> (r: Board)
        ensures
            r.wf(),
            forall|f: int, r2: int|
                on_board(f, r2) ==> board_at(r@, f, r2) == spec_initial_piece(f, r2),
    {
        Board::new()
    }
}

} // verus!
