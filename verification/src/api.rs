//! Boundary-layer values: the request and response shapes of the service
//! layer, and the construction of a `Move` from a textual request.
use vstd::prelude::*;

use crate::types::{spec_square_of_chars, Move, PieceType, Square};

verus! {

/// A freshly created game's identifier.
#[derive(Debug, Clone)]
pub struct GameResponse {
    pub game_id: String,
}

/// A plain error message.
#[derive(Debug, Clone)]
pub struct ErrorResponse {
    pub error: String,
}

/// A textual move request: two algebraic coordinates and an optional
/// promotion piece name.
#[derive(Debug, Clone)]
pub struct MoveRequest {
    pub from: String,
    pub to: String,
    pub promotion: Option<String>,
}

/// The square a request coordinate denotes, if it is two characters of
/// algebraic notation.
pub open spec fn spec_parsed_square(text: Seq<char>) -> Option<Square> {
    if text.len() == 2 {
        spec_square_of_chars(text[0], text[1])
    } else {
        None
    }
}

/// The promotion kind a request names: one of the four capitalized piece
/// names, anything else refused.
pub open spec fn spec_promo_of_name(name: Seq<char>) -> Option<PieceType> {
    if name == "Queen"@ {
        Some(PieceType::Queen)
    } else if name == "Rook"@ {
        Some(PieceType::Rook)
    } else if name == "Bishop"@ {
        Some(PieceType::Bishop)
    } else if name == "Knight"@ {
        Some(PieceType::Knight)
    } else {
        None
    }
}

/// The move a request denotes: castling is auto-flagged when the source
/// is a king home square (file 4, rank 0 or 7) and the destination file
/// is 2 or 6; the en-passant flag is never set by the boundary layer.
pub open spec fn spec_request_move(from: Square, to: Square, promo: Option<PieceType>) -> Move {
    Move {
        from,
        to,
        promotion: promo,
        is_castling: (from.rank == 0 || from.rank == 7) && from.file == 4 && (to.file == 6
            || to.file == 2),
        is_en_passant: false,
    }
}

impl MoveRequest {
    /// Builds the `Move` this request denotes, or the first applicable
    /// error text: an unparsable source, an unparsable destination, or an
    /// unknown promotion name.
    pub fn to_move(&self) -> (r: Result<Move, String>)
        ensures
            match spec_parsed_square(self.from@) {
                None => r matches Err(e) && e@ == "Invalid source square"@,
                Some(from) => match spec_parsed_square(self.to@) {
                    None => r matches Err(e) && e@ == "Invalid destination square"@,
                    Some(to) => match self.promotion {
                        None => r == Ok::<Move, String>(spec_request_move(from, to, None)),
                        Some(name) => match spec_promo_of_name(name@) {
                            Some(pt) => r == Ok::<Move, String>(
                                spec_request_move(from, to, Some(pt)),
                            ),
                            None => r matches Err(e) && e@ == "Invalid promotion piece"@,
                        },
                    },
                },
            },
    {
        let from = match Square::from_algebraic(self.from.as_str()) {
            Some(sq) => sq,
            None => {
                return Err("Invalid source square".to_owned());
            },
        };
        let to = match Square::from_algebraic(self.to.as_str()) {
            Some(sq) => sq,
            None => {
                return Err("Invalid destination square".to_owned());
            },
        };
        let mut chess_move = Move::new(from, to);
        if let Some(promo) = &self.promotion {
            let piece_type = if *promo == "Queen".to_owned() {
                PieceType::Queen
            } else if *promo == "Rook".to_owned() {
                PieceType::Rook
            } else if *promo == "Bishop".to_owned() {
                PieceType::Bishop
            } else if *promo == "Knight".to_owned() {
                PieceType::Knight
            } else {
                return Err("Invalid promotion piece".to_owned());
            };
            chess_move.promotion = Some(piece_type);
        }
        if (from.rank == 0 || from.rank == 7) && from.file == 4 && (to.file == 6 || to.file == 2) {
            chess_move.is_castling = true;
        }
        Ok(chess_move)
    }
}

} // verus!
