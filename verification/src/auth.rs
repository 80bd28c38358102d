//! Account-boundary values and the pure validation rules: bearer-token
//! extraction, token claims, the campus e-mail domain rule and the
//! password-strength rule.  Hashing, token signing and storage live with
//! the service layer.
use vstd::prelude::*;

use vstd::string::StrSliceExecFns;
use vstd::string::StringExecFns;

verus! {

/// The payload of an issued token.
#[derive(Debug, Clone)]
pub struct Claims {
    pub sub: i32,
    pub username: String,
    pub email: String,
    pub exp: i64,
    pub iat: i64,
}

/// How long an issued token stays valid, in seconds.
pub const TOKEN_LIFETIME_SECONDS: i64 = 86400;

impl Claims {
    /// The claims issued at `issued_at` (seconds since the epoch): they
    /// expire exactly one day later.
    pub fn new(user_id: i32, username: String, email: String, issued_at: i64) -> (r: Claims)
        requires
            issued_at + TOKEN_LIFETIME_SECONDS <= i64::MAX,
        ensures
            r.sub == user_id,
            r.username == username,
            r.email == email,
            r.iat == issued_at,
            r.exp == issued_at + TOKEN_LIFETIME_SECONDS,
    {
        Claims {
            sub: user_id,
            username,
            email,
            exp: issued_at + TOKEN_LIFETIME_SECONDS,
            iat: issued_at,
        }
    }
}

/// A signup request: username, e-mail and password, all still unchecked.
#[derive(Debug, Clone)]
pub struct SignupRequest {
    pub username: String,
    pub email: String,
    pub password: String,
}

/// A login request: a username or e-mail, and a password.
#[derive(Debug, Clone)]
pub struct LoginRequest {
    pub username_or_email: String,
    pub password: String,
}

/// An error message with optional per-field details.
#[derive(Debug, Clone)]
pub struct ErrorResponse {
    pub error: String,
    pub details: Option<Vec<String>>,
}

/// The token part of a `Bearer ` authorization header, if it is one.
pub fn extract_token_from_header(auth_header: &str) -> (r: Option<&str>)
    ensures
        (r is Some) <==> (auth_header@.len() >= 7 && auth_header@.subrange(0, 7) == "Bearer "@),
        match r {
            Some(t) => t@ == auth_header@.subrange(7, auth_header@.len() as int),
            None => true,
        },
{
    proof {
        reveal_strlit("Bearer ");
    }
    let n = auth_header.unicode_len();
    if n < 7 {
        return None;
    }
    if auth_header.get_char(0) == 'B' && auth_header.get_char(1) == 'e' && auth_header.get_char(2)
        == 'a' && auth_header.get_char(3) == 'r' && auth_header.get_char(4) == 'e'
        && auth_header.get_char(5) == 'r' && auth_header.get_char(6) == ' ' {
        proof {
            assert(auth_header@.subrange(0, 7) =~= "Bearer "@);
        }
        Some(auth_header.substring_char(7, n))
    } else {
        proof {
            assert(auth_header@.subrange(0, 7) != "Bearer "@) by {
                if auth_header@.subrange(0, 7) == "Bearer "@ {
                    assert(auth_header@.subrange(0, 7)[0] == auth_header@[0]);
                    assert(auth_header@.subrange(0, 7)[1] == auth_header@[1]);
                    assert(auth_header@.subrange(0, 7)[2] == auth_header@[2]);
                    assert(auth_header@.subrange(0, 7)[3] == auth_header@[3]);
                    assert(auth_header@.subrange(0, 7)[4] == auth_header@[4]);
                    assert(auth_header@.subrange(0, 7)[5] == auth_header@[5]);
                    assert(auth_header@.subrange(0, 7)[6] == auth_header@[6]);
                }
            }
        }
        None
    }
}

/// ASCII-case-insensitive agreement of `a` with a lower-case `b`.
pub open spec fn spec_ci_eq(a: char, b: char) -> bool {
    a == b || (65 <= a as int <= 90 && a as int + 32 == b as int)
}

/// `s` ends, ASCII-case-insensitively, with the lower-case `suffix`.
pub open spec fn spec_has_suffix_ci(s: Seq<char>, suffix: Seq<char>) -> bool {
    s.len() >= suffix.len() && forall|i: int|
        0 <= i < suffix.len() ==> spec_ci_eq(s[s.len() - suffix.len() + i], #[trigger] suffix[i])
}

/// Accepts exactly the e-mail addresses that end, case-insensitively,
/// with the campus domain.
pub fn validate_mcu_email(email: &str) -> (r: Result<(), String>)
    ensures
        r is Ok <==> spec_has_suffix_ci(email@, "@undergraduate.mcu.edu.ng"@),
        match r {
            Ok(()) => true,
            Err(e) => e@ == "Email must end with @undergraduate.mcu.edu.ng"@,
        },
{
    let domain = "@undergraduate.mcu.edu.ng";
    proof {
        reveal_strlit("@undergraduate.mcu.edu.ng");
    }
    let dn = domain.unicode_len();
    let n = email.unicode_len();
    if n < dn {
        return Err("Email must end with @undergraduate.mcu.edu.ng".to_owned());
    }
    let mut i: usize = 0;
    while i < dn
        invariant
            dn == domain@.len(),
            domain@ == "@undergraduate.mcu.edu.ng"@,
            n == email@.len(),
            n >= dn,
            i <= dn,
            forall|j: int|
                0 <= j < i ==> spec_ci_eq(
                    email@[n - dn + j],
                    #[trigger] domain@[j],
                ),
        decreases dn - i,
    {
        let a = email.get_char(n - dn + i);
        let b = domain.get_char(i);
        let au = a as u32;
        let bu = b as u32;
        let matches_here = au == bu || (65 <= au && au <= 90 && au + 32 == bu);
        if !matches_here {
            proof {
                assert(!spec_ci_eq(email@[n - dn + i], domain@[i as int]));
            }
            return Err("Email must end with @undergraduate.mcu.edu.ng".to_owned());
        }
        i += 1;
    }
    Ok(())
}

/// An ASCII upper-case letter.
pub open spec fn spec_is_upper(c: char) -> bool {
    65 <= c as int <= 90
}

/// An ASCII lower-case letter.
pub open spec fn spec_is_lower(c: char) -> bool {
    97 <= c as int <= 122
}

/// An ASCII decimal digit.
pub open spec fn spec_is_digit(c: char) -> bool {
    48 <= c as int <= 57
}

/// One of the accepted special characters.
pub open spec fn spec_is_special(c: char) -> bool {
    c == '!' || c == '@' || c == '#' || c == '$' || c == '%' || c == '^' || c == '&' || c == '*'
        || c == '(' || c == ')' || c == ',' || c == '.' || c == '?' || c == ':' || c == '{'
        || c == '}' || c == '|' || c == '<' || c == '>'
}

/// The password meets all five strength requirements: at least 8
/// characters, and at least one upper-case letter, lower-case letter,
/// digit and special character.
pub open spec fn spec_password_strong(pw: Seq<char>) -> bool {
    &&& pw.len() >= 8
    &&& exists|i: int| 0 <= i < pw.len() && spec_is_upper(#[trigger] pw[i])
    &&& exists|i: int| 0 <= i < pw.len() && spec_is_lower(#[trigger] pw[i])
    &&& exists|i: int| 0 <= i < pw.len() && spec_is_digit(#[trigger] pw[i])
    &&& exists|i: int| 0 <= i < pw.len() && spec_is_special(#[trigger] pw[i])
}

/// Joins two message fragments with `; `, dropping an empty side.
pub open spec fn spec_join_msg(a: Seq<char>, b: Seq<char>) -> Seq<char> {
    if a.len() == 0 {
        b
    } else if b.len() == 0 {
        a
    } else {
        a + "; "@ + b
    }
}

/// The combined complaint for a weak password: the messages of the failed
/// requirements, in a fixed order, joined with `; `.
pub open spec fn spec_password_errors(pw: Seq<char>) -> Seq<char> {
    let m1: Seq<char> = if pw.len() < 8 {
        "Password must be at least 8 characters long"@
    } else {
        Seq::empty()
    };
    let m2: Seq<char> = if !(exists|i: int| 0 <= i < pw.len() && spec_is_upper(#[trigger] pw[i])) {
        "Password must contain at least one uppercase letter"@
    } else {
        Seq::empty()
    };
    let m3: Seq<char> = if !(exists|i: int| 0 <= i < pw.len() && spec_is_lower(#[trigger] pw[i])) {
        "Password must contain at least one lowercase letter"@
    } else {
        Seq::empty()
    };
    let m4: Seq<char> = if !(exists|i: int| 0 <= i < pw.len() && spec_is_digit(#[trigger] pw[i])) {
        "Password must contain at least one number"@
    } else {
        Seq::empty()
    };
    let m5: Seq<char> = if !(exists|i: int| 0 <= i < pw.len() && spec_is_special(
        #[trigger] pw[i],
    )) {
        "Password must contain at least one special character (!@#$%^&*(),.?:{}|<>)"@
    } else {
        Seq::empty()
    };
    spec_join_msg(spec_join_msg(spec_join_msg(spec_join_msg(m1, m2), m3), m4), m5)
}

/// Accepts exactly the passwords meeting all five strength requirements;
/// otherwise returns the combined complaint.
pub fn validate_password_strength(password: &str) -> (r: Result<(), String>)
    ensures
        r is Ok <==> spec_password_strong(password@),
        match r {
            Ok(()) => true,
            Err(e) => e@ == spec_password_errors(password@),
        },
{
    let pw_len = password.unicode_len();
    let mut has_upper = false;
    let mut has_lower = false;
    let mut has_digit = false;
    let mut has_special = false;
    let mut i: usize = 0;
    while i < pw_len
        invariant
            pw_len == password@.len(),
            i <= pw_len,
            has_upper <==> exists|j: int| 0 <= j < i && spec_is_upper(#[trigger] password@[j]),
            has_lower <==> exists|j: int| 0 <= j < i && spec_is_lower(#[trigger] password@[j]),
            has_digit <==> exists|j: int| 0 <= j < i && spec_is_digit(#[trigger] password@[j]),
            has_special <==> exists|j: int|
                0 <= j < i && spec_is_special(#[trigger] password@[j]),
        decreases pw_len - i,
    {
        let c = password.get_char(i);
        let cu = c as u32;
        if 65 <= cu && cu <= 90 {
            has_upper = true;
        }
        if 97 <= cu && cu <= 122 {
            has_lower = true;
        }
        if 48 <= cu && cu <= 57 {
            has_digit = true;
        }
        if c == '!' || c == '@' || c == '#' || c == '$' || c == '%' || c == '^' || c == '&' || c
            == '*' || c == '(' || c == ')' || c == ',' || c == '.' || c == '?' || c == ':' || c
            == '{' || c == '}' || c == '|' || c == '<' || c == '>' {
            has_special = true;
        }
        i += 1;
    }
    if pw_len >= 8 && has_upper && has_lower && has_digit && has_special {
        return Ok(());
    }
    let mut message = String::new();
    let mut first = true;
    if pw_len < 8 {
        message.append("Password must be at least 8 characters long");
        first = false;
    }
    if !has_upper {
        if !first {
            message.append("; ");
        }
        message.append("Password must contain at least one uppercase letter");
        first = false;
    }
    if !has_lower {
        if !first {
            message.append("; ");
        }
        message.append("Password must contain at least one lowercase letter");
        first = false;
    }
    if !has_digit {
        if !first {
            message.append("; ");
        }
        message.append("Password must contain at least one number");
        first = false;
    }
    if !has_special {
        if !first {
            message.append("; ");
        }
        message.append("Password must contain at least one special character (!@#$%^&*(),.?:{}|<>)");
        first = false;
    }
    proof {
        reveal_strlit("Password must be at least 8 characters long");
        reveal_strlit("Password must contain at least one uppercase letter");
        reveal_strlit("Password must contain at least one lowercase letter");
        reveal_strlit("Password must contain at least one number");
        reveal_strlit("Password must contain at least one special character (!@#$%^&*(),.?:{}|<>)");
        reveal_strlit("; ");
        assert(message@ =~= spec_password_errors(password@));
    }
    Err(message)
}

} // verus!
