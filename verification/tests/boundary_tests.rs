//! Tests of the value types and the boundary helpers: coordinates, move
//! construction from requests, token extraction and the validation rules.
use chess_engine::api::MoveRequest;
use chess_engine::auth::{
    extract_token_from_header, validate_mcu_email, validate_password_strength, Claims,
};
use chess_engine::types::{CastlingRights, Color, Move, PieceType, Square};

#[test]
fn test_square_new_bounds() {
    assert_eq!(Square::new(0, 0), Some(Square { file: 0, rank: 0 }));
    assert_eq!(Square::new(7, 7), Some(Square { file: 7, rank: 7 }));
    assert_eq!(Square::new(8, 0), None);
    assert_eq!(Square::new(0, 8), None);
}

#[test]
fn test_from_algebraic() {
    assert_eq!(Square::from_algebraic("a1"), Some(Square { file: 0, rank: 0 }));
    assert_eq!(Square::from_algebraic("e2"), Some(Square { file: 4, rank: 1 }));
    assert_eq!(Square::from_algebraic("h8"), Some(Square { file: 7, rank: 7 }));
    assert_eq!(Square::from_algebraic("i1"), None);
    assert_eq!(Square::from_algebraic("a9"), None);
    assert_eq!(Square::from_algebraic("a"), None);
    assert_eq!(Square::from_algebraic("a12"), None);
    assert_eq!(Square::from_algebraic(""), None);
    assert_eq!(Square::from_algebraic("A1"), None);
}

#[test]
fn test_to_algebraic_round_trip() {
    for file in 0..8 {
        for rank in 0..8 {
            let square = Square::new(file, rank).unwrap();
            let text = square.to_algebraic();
            assert_eq!(Square::from_algebraic(&text), Some(square));
        }
    }
    assert_eq!(Square { file: 4, rank: 1 }.to_algebraic(), "e2");
}

#[test]
fn test_square_is_valid() {
    assert!(Square { file: 3, rank: 5 }.is_valid());
    assert!(!Square { file: 8, rank: 5 }.is_valid());
    assert!(!Square { file: 3, rank: 9 }.is_valid());
}

#[test]
fn test_color_opposite() {
    assert_eq!(Color::White.opposite(), Color::Black);
    assert_eq!(Color::Black.opposite(), Color::White);
}

#[test]
fn test_move_constructors() {
    let from = Square { file: 4, rank: 1 };
    let to = Square { file: 4, rank: 3 };
    let plain = Move::new(from, to);
    assert_eq!(plain.from, from);
    assert_eq!(plain.to, to);
    assert_eq!(plain.promotion, None);
    assert!(!plain.is_castling);
    assert!(!plain.is_en_passant);
    let promo = Move::new(from, to).with_promotion(PieceType::Queen);
    assert_eq!(promo.promotion, Some(PieceType::Queen));
    let castle = Move::castling(from, to);
    assert!(castle.is_castling);
    assert!(!castle.is_en_passant);
    let ep = Move::en_passant(from, to);
    assert!(ep.is_en_passant);
    assert!(!ep.is_castling);
}

#[test]
fn test_castling_rights_lifecycle() {
    let mut rights = CastlingRights::new();
    assert!(rights.can_castle(Color::White, true));
    assert!(rights.can_castle(Color::Black, false));
    rights.remove_rights(Color::White, Some(true));
    assert!(!rights.can_castle(Color::White, true));
    assert!(rights.can_castle(Color::White, false));
    rights.remove_rights(Color::Black, None);
    assert!(!rights.can_castle(Color::Black, true));
    assert!(!rights.can_castle(Color::Black, false));
}

#[test]
fn test_move_request_plain() {
    let request = MoveRequest {
        from: "e2".to_string(),
        to: "e4".to_string(),
        promotion: None,
    };
    let m = request.to_move().unwrap();
    assert_eq!(m.from, Square { file: 4, rank: 1 });
    assert_eq!(m.to, Square { file: 4, rank: 3 });
    assert_eq!(m.promotion, None);
    assert!(!m.is_castling);
    assert!(!m.is_en_passant);
}

#[test]
fn test_move_request_promotion_names() {
    for (name, kind) in [
        ("Queen", PieceType::Queen),
        ("Rook", PieceType::Rook),
        ("Bishop", PieceType::Bishop),
        ("Knight", PieceType::Knight),
    ] {
        let request = MoveRequest {
            from: "a7".to_string(),
            to: "a8".to_string(),
            promotion: Some(name.to_string()),
        };
        assert_eq!(request.to_move().unwrap().promotion, Some(kind));
    }
    let bad = MoveRequest {
        from: "a7".to_string(),
        to: "a8".to_string(),
        promotion: Some("King".to_string()),
    };
    assert_eq!(bad.to_move(), Err("Invalid promotion piece".to_string()));
}

#[test]
fn test_move_request_autodetects_castling() {
    let kingside = MoveRequest {
        from: "e1".to_string(),
        to: "g1".to_string(),
        promotion: None,
    };
    assert!(kingside.to_move().unwrap().is_castling);
    let queenside = MoveRequest {
        from: "e8".to_string(),
        to: "c8".to_string(),
        promotion: None,
    };
    assert!(queenside.to_move().unwrap().is_castling);
    let ordinary = MoveRequest {
        from: "e1".to_string(),
        to: "f1".to_string(),
        promotion: None,
    };
    assert!(!ordinary.to_move().unwrap().is_castling);
}

#[test]
fn test_move_request_bad_squares() {
    let bad_from = MoveRequest {
        from: "z9".to_string(),
        to: "e4".to_string(),
        promotion: None,
    };
    assert_eq!(bad_from.to_move(), Err("Invalid source square".to_string()));
    let bad_to = MoveRequest {
        from: "e2".to_string(),
        to: "e44".to_string(),
        promotion: None,
    };
    assert_eq!(bad_to.to_move(), Err("Invalid destination square".to_string()));
}

#[test]
fn test_extract_token_from_header() {
    assert_eq!(extract_token_from_header("Bearer abc.def"), Some("abc.def"));
    assert_eq!(extract_token_from_header("Bearer "), Some(""));
    assert_eq!(extract_token_from_header("bearer abc"), None);
    assert_eq!(extract_token_from_header("Basic abc"), None);
    assert_eq!(extract_token_from_header("Bear"), None);
    assert_eq!(extract_token_from_header(""), None);
}

#[test]
fn test_validate_mcu_email() {
    assert!(validate_mcu_email("student@undergraduate.mcu.edu.ng").is_ok());
    assert!(validate_mcu_email("STUDENT@UNDERGRADUATE.MCU.EDU.NG").is_ok());
    assert_eq!(
        validate_mcu_email("student@gmail.com"),
        Err("Email must end with @undergraduate.mcu.edu.ng".to_string())
    );
    assert!(validate_mcu_email("").is_err());
    assert!(validate_mcu_email("@undergraduate.mcu.edu.ng").is_ok());
}

#[test]
fn test_validate_password_strength_accepts_strong() {
    assert!(validate_password_strength("Abcdef1!").is_ok());
    assert!(validate_password_strength("xY9{longer}").is_ok());
}

#[test]
fn test_validate_password_strength_joined_message() {
    assert_eq!(
        validate_password_strength("abc"),
        Err(
            "Password must be at least 8 characters long; \
             Password must contain at least one uppercase letter; \
             Password must contain at least one number; \
             Password must contain at least one special character (!@#$%^&*(),.?:{}|<>)"
                .to_string()
        )
    );
}

#[test]
fn test_validate_password_strength_each_requirement() {
    assert_eq!(
        validate_password_strength("ABCDEF1!"),
        Err("Password must contain at least one lowercase letter".to_string())
    );
    assert_eq!(
        validate_password_strength("abcdef1!"),
        Err("Password must contain at least one uppercase letter".to_string())
    );
    assert_eq!(
        validate_password_strength("Abcdefg!"),
        Err("Password must contain at least one number".to_string())
    );
    assert_eq!(
        validate_password_strength("Abcdefg1"),
        Err(
            "Password must contain at least one special character (!@#$%^&*(),.?:{}|<>)"
                .to_string()
        )
    );
}

#[test]
fn test_claims_expire_one_day_after_issue() {
    let claims = Claims::new(7, "ada".to_string(), "ada@undergraduate.mcu.edu.ng".to_string(), 1000);
    assert_eq!(claims.sub, 7);
    assert_eq!(claims.username, "ada");
    assert_eq!(claims.email, "ada@undergraduate.mcu.edu.ng");
    assert_eq!(claims.iat, 1000);
    assert_eq!(claims.exp, 1000 + 86400);
}
