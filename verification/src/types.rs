//! Value types of the engine: colors, piece kinds, squares, moves,
//! castling rights and the game status.
use vstd::prelude::*;

use crate::strings::push_char;
use vstd::string::StrSliceExecFns;

verus! {

/// The file letter (`a` through `h`) of an on-board file index.
pub open spec fn spec_file_char(f: int) -> char {
    if f == 0 {
        'a'
    } else if f == 1 {
        'b'
    } else if f == 2 {
        'c'
    } else if f == 3 {
        'd'
    } else if f == 4 {
        'e'
    } else if f == 5 {
        'f'
    } else if f == 6 {
        'g'
    } else {
        'h'
    }
}

/// The rank digit (`1` through `8`) of an on-board rank index.
pub open spec fn spec_rank_char(r: int) -> char {
    if r == 0 {
        '1'
    } else if r == 1 {
        '2'
    } else if r == 2 {
        '3'
    } else if r == 3 {
        '4'
    } else if r == 4 {
        '5'
    } else if r == 5 {
        '6'
    } else if r == 6 {
        '7'
    } else {
        '8'
    }
}

/// The file index of a letter `a` through `h`, if it is one.
pub open spec fn spec_file_of_char(c: char) -> Option<u8> {
    if c == 'a' {
        Some(0u8)
    } else if c == 'b' {
        Some(1u8)
    } else if c == 'c' {
        Some(2u8)
    } else if c == 'd' {
        Some(3u8)
    } else if c == 'e' {
        Some(4u8)
    } else if c == 'f' {
        Some(5u8)
    } else if c == 'g' {
        Some(6u8)
    } else if c == 'h' {
        Some(7u8)
    } else {
        None
    }
}

/// The rank index of a digit `1` through `8`, if it is one.
pub open spec fn spec_rank_of_char(c: char) -> Option<u8> {
    if c == '1' {
        Some(0u8)
    } else if c == '2' {
        Some(1u8)
    } else if c == '3' {
        Some(2u8)
    } else if c == '4' {
        Some(3u8)
    } else if c == '5' {
        Some(4u8)
    } else if c == '6' {
        Some(5u8)
    } else if c == '7' {
        Some(6u8)
    } else if c == '8' {
        Some(7u8)
    } else {
        None
    }
}

/// The square a two-character algebraic text denotes, if both characters
/// are in range.
pub open spec fn spec_square_of_chars(c0: char, c1: char) -> Option<Square> {
    match (spec_file_of_char(c0), spec_rank_of_char(c1)) {
        (Some(file), Some(rank)) => Some(Square { file, rank }),
        _ => None,
    }
}

/// One of the two sides of a game.
#[derive(Clone, Copy, Debug, PartialEq, Eq, Hash, Structural)]
pub enum Color {
    White,
    Black,
}

impl Color {
    /// The other side.
    pub open spec fn spec_opposite(self) -> Color {
        match self {
            Color::White => Color::Black,
            Color::Black => Color::White,
        }
    }

    #[verifier::when_used_as_spec(spec_opposite)]
    pub fn opposite(self) -> (r: Color)
        ensures
            r == self.spec_opposite(),
    {
        match self {
            Color::White => Color::Black,
            Color::Black => Color::White,
        }
    }
}

/// The six kinds of chess piece.
#[derive(Clone, Copy, Debug, PartialEq, Eq, Hash, Structural)]
pub enum PieceType {
    Pawn,
    Rook,
    Knight,
    Bishop,
    Queen,
    King,
}

/// A piece is a kind together with the side it belongs to.
#[derive(Clone, Copy, Debug, PartialEq, Eq, Hash, Structural)]
pub struct Piece {
    pub piece_type: PieceType,
    pub color: Color,
}

impl Piece {
    pub fn new(piece_type: PieceType, color: Color) -> (r: Piece)
        ensures
            r == (Piece { piece_type, color }),
    {
        Piece { piece_type, color }
    }
}

/// A board coordinate: `file` 0-7 stands for a-h, `rank` 0-7 stands for 1-8.
#[derive(Clone, Copy, Debug, PartialEq, Eq, Hash, Structural)]
pub struct Square {
    pub file: u8,
    pub rank: u8,
}

impl Square {
    /// Both coordinates lie on the board.
    pub open spec fn spec_valid(self) -> bool {
        self.file < 8 && self.rank < 8
    }

    /// Constructs a square, refusing coordinates off the board.
    pub fn new(file: u8, rank: u8) -> (r: Option<Square>)
        ensures
            r == if file < 8 && rank < 8 {
                Some(Square { file, rank })
            } else {
                None::<Square>
            },
    {
        if file < 8 && rank < 8 {
            Some(Square { file, rank })
        } else {
            None
        }
    }

    #[verifier::when_used_as_spec(spec_valid)]
    pub fn is_valid(self) -> (r: bool)
        ensures
            r == self.spec_valid(),
    {
        self.file < 8 && self.rank < 8
    }

    /// Parses two-character algebraic notation: a letter `a`-`h` then a
    /// digit `1`-`8`; anything else is refused.
    pub fn from_algebraic(notation: &str) -> (r: Option<Square>)
        ensures
            r == if notation@.len() == 2 {
                spec_square_of_chars(notation@[0], notation@[1])
            } else {
                None::<Square>
            },
    {
        if notation.unicode_len() != 2 {
            return None;
        }
        let c0 = notation.get_char(0);
        let c1 = notation.get_char(1);
        let file = match Self::file_of_char(c0) {
            Some(f) => f,
            None => {
                return None;
            },
        };
        let rank = match Self::rank_of_char(c1) {
            Some(rk) => rk,
            None => {
                return None;
            },
        };
        Square::new(file, rank)
    }

    /// The two-character algebraic text of this square.
    pub fn to_algebraic(self) -> (r: String)
        requires
            self.spec_valid(),
        ensures
            r@ == seq![
                spec_file_char(self.file as int),
                spec_rank_char(self.rank as int),
            ],
    {
        let mut s = String::new();
        push_char(&mut s, Self::file_char(self.file));
        push_char(&mut s, Self::rank_char(self.rank));
        proof {
            assert(s@ =~= seq![
                spec_file_char(self.file as int),
                spec_rank_char(self.rank as int),
            ]);
        }
        s
    }

    /// The file letter of an on-board file index.
    pub(crate) fn file_char(f: u8) -> (r: char)
        requires
            f < 8,
        ensures
            r == spec_file_char(f as int),
    {
        match f {
            0 => 'a',
            1 => 'b',
            2 => 'c',
            3 => 'd',
            4 => 'e',
            5 => 'f',
            6 => 'g',
            _ => 'h',
        }
    }

    /// The rank digit of an on-board rank index.
    pub(crate) fn rank_char(r: u8) -> (c: char)
        requires
            r < 8,
        ensures
            c == spec_rank_char(r as int),
    {
        match r {
            0 => '1',
            1 => '2',
            2 => '3',
            3 => '4',
            4 => '5',
            5 => '6',
            6 => '7',
            _ => '8',
        }
    }

    /// The file index of a letter `a` through `h`.
    fn file_of_char(c: char) -> (r: Option<u8>)
        ensures
            r == spec_file_of_char(c),
    {
        match c {
            'a' => Some(0),
            'b' => Some(1),
            'c' => Some(2),
            'd' => Some(3),
            'e' => Some(4),
            'f' => Some(5),
            'g' => Some(6),
            'h' => Some(7),
            _ => None,
        }
    }

    /// The rank index of a digit `1` through `8`.
    fn rank_of_char(c: char) -> (r: Option<u8>)
        ensures
            r == spec_rank_of_char(c),
    {
        match c {
            '1' => Some(0),
            '2' => Some(1),
            '3' => Some(2),
            '4' => Some(3),
            '5' => Some(4),
            '6' => Some(5),
            '7' => Some(6),
            '8' => Some(7),
            _ => None,
        }
    }
}

/// A move request: source and destination squares, an optional promotion
/// kind, and flags marking castling and en-passant intent.
#[derive(Clone, Copy, Debug)]
pub struct Move {
    pub from: Square,
    pub to: Square,
    pub promotion: Option<PieceType>,
    pub is_castling: bool,
    pub is_en_passant: bool,
}

impl Move {
    /// A plain move with no promotion and no special flags.
    pub open spec fn spec_new(from: Square, to: Square) -> Move {
        Move { from, to, promotion: None, is_castling: false, is_en_passant: false }
    }

    #[verifier::when_used_as_spec(spec_new)]
    pub fn new(from: Square, to: Square) -> (r: Move)
        ensures
            r == Move::spec_new(from, to),
    {
        Move { from, to, promotion: None, is_castling: false, is_en_passant: false }
    }

    pub fn with_promotion(self, piece_type: PieceType) -> (r: Move)
        ensures
            r == (Move { promotion: Some(piece_type), ..self }),
    {
        Move { promotion: Some(piece_type), ..self }
    }

    pub fn castling(from: Square, to: Square) -> (r: Move)
        ensures
            r == (Move {
                from,
                to,
                promotion: None,
                is_castling: true,
                is_en_passant: false,
            }),
    {
        Move { from, to, promotion: None, is_castling: true, is_en_passant: false }
    }

    pub fn en_passant(from: Square, to: Square) -> (r: Move)
        ensures
            r == (Move {
                from,
                to,
                promotion: None,
                is_castling: false,
                is_en_passant: true,
            }),
    {
        Move { from, to, promotion: None, is_castling: false, is_en_passant: true }
    }
}

impl PartialEq for Move {
    fn eq(&self, other: &Move) -> (r: bool) {
        self.from == other.from && self.to == other.to && (match (self.promotion,
            other.promotion) {
            (None, None) => true,
            (Some(a), Some(b)) => a == b,
            _ => false,
        }) && self.is_castling == other.is_castling && self.is_en_passant == other.is_en_passant
    }
}

impl vstd::std_specs::cmp::PartialEqSpecImpl for Move {
    open spec fn obeys_eq_spec() -> bool {
        true
    }

    open spec fn eq_spec(&self, other: &Move) -> bool {
        self == other
    }
}

impl Eq for Move {}

/// The four castling permissions, one per side of each color.  Rights are
/// only ever revoked over a game's lifetime, never restored.
#[derive(Clone, Copy, Debug, PartialEq, Eq, Structural)]
pub struct CastlingRights {
    pub white_kingside: bool,
    pub white_queenside: bool,
    pub black_kingside: bool,
    pub black_queenside: bool,
}

impl CastlingRights {
    /// All four rights held, as at the start of a game.
    pub open spec fn spec_new() -> CastlingRights {
        CastlingRights {
            white_kingside: true,
            white_queenside: true,
            black_kingside: true,
            black_queenside: true,
        }
    }

    #[verifier::when_used_as_spec(spec_new)]
    pub fn new() -> (r: CastlingRights)
        ensures
            r == CastlingRights::spec_new(),
    {
        CastlingRights {
            white_kingside: true,
            white_queenside: true,
            black_kingside: true,
            black_queenside: true,
        }
    }

    /// The right held by `color` on the kingside or queenside.
    pub open spec fn spec_can_castle(&self, color: Color, kingside: bool) -> bool {
        match (color, kingside) {
            (Color::White, true) => self.white_kingside,
            (Color::White, false) => self.white_queenside,
            (Color::Black, true) => self.black_kingside,
            (Color::Black, false) => self.black_queenside,
        }
    }

    #[verifier::when_used_as_spec(spec_can_castle)]
    pub fn can_castle(&self, color: Color, kingside: bool) -> (r: bool)
        ensures
            r == self.spec_can_castle(color, kingside),
    {
        match (color, kingside) {
            (Color::White, true) => self.white_kingside,
            (Color::White, false) => self.white_queenside,
            (Color::Black, true) => self.black_kingside,
            (Color::Black, false) => self.black_queenside,
        }
    }

    /// The rights left after revoking one side's right (`Some(kingside)`)
    /// or both rights (`None`) of `color`.
    pub open spec fn spec_remove(self, color: Color, kingside: Option<bool>) -> CastlingRights {
        match color {
            Color::White => match kingside {
                Some(true) => CastlingRights { white_kingside: false, ..self },
                Some(false) => CastlingRights { white_queenside: false, ..self },
                None => CastlingRights { white_kingside: false, white_queenside: false, ..self },
            },
            Color::Black => match kingside {
                Some(true) => CastlingRights { black_kingside: false, ..self },
                Some(false) => CastlingRights { black_queenside: false, ..self },
                None => CastlingRights { black_kingside: false, black_queenside: false, ..self },
            },
        }
    }

    pub fn remove_rights(&mut self, color: Color, kingside: Option<bool>)
        ensures
            *final(self) == old(self).spec_remove(color, kingside),
    {
        match color {
            Color::White => match kingside {
                Some(true) => self.white_kingside = false,
                Some(false) => self.white_queenside = false,
                None => {
                    self.white_kingside = false;
                    self.white_queenside = false;
                },
            },
            Color::Black => match kingside {
                Some(true) => self.black_kingside = false,
                Some(false) => self.black_queenside = false,
                None => {
                    self.black_kingside = false;
                    self.black_queenside = false;
                },
            },
        }
    }
}

impl Default for CastlingRights {
    /// All four rights held.
    fn default() -> (r: CastlingRights)
        ensures
            r == CastlingRights::spec_new(),
    {
        CastlingRights::new()
    }
}

/// The derived status of a game.  `Checkmate` carries the winner.
/// `Checkmate`, `Stalemate` and `Draw` are terminal: once reached, no
/// further move is accepted.
#[derive(Clone, Copy, Debug, PartialEq, Eq, Structural)]
pub enum GameStatus {
    InProgress,
    Check,
    Checkmate(Color),
    Stalemate,
    Draw,
}

impl GameStatus {
    /// A terminal status absorbs the game: `make_move` refuses to run.
    pub open spec fn spec_is_terminal(self) -> bool {
        match self {
            GameStatus::Checkmate(_) | GameStatus::Stalemate | GameStatus::Draw => true,
            GameStatus::InProgress | GameStatus::Check => false,
        }
    }
}

} // verus!
