//! Who is asking: the steps around the check of a bearer token.
//!
//! The token itself is checked elsewhere. Here the token is taken out of the
//! `Authorization` header, the brawler's id out of the subject that a
//! checked token names, and the order of the steps is kept.

use crate::domain::value_objects::text::{integer_value, parse_i64};
use vstd::prelude::*;
use vstd::string::*;

verus! {

/// Why a request was not let in.
#[derive(Clone, Copy, Debug, PartialEq, Eq, Structural)]
pub enum AuthError {
    /// The request has no `Authorization` header.
    MissingHeader,
    /// The header does not start with `Bearer `.
    InvalidFormat,
    /// The server has no secret to check tokens with.
    Configuration,
    /// The token is not valid, or no longer.
    InvalidToken,
    /// The token's subject is not the id of a brawler.
    InvalidSubject,
}

impl AuthError {
    /// The text of the message that goes with the error.
    pub open spec fn text(self) -> Seq<char> {
        match self {
            AuthError::MissingHeader => "Missing Authorization header"@,
            AuthError::InvalidFormat => "Invalid Authorization header format"@,
            AuthError::Configuration => "Server configuration error"@,
            AuthError::InvalidToken => "Invalid or expired token"@,
            AuthError::InvalidSubject => "Invalid token subject"@,
        }
    }

    /// A message for the caller, in words.
    pub fn message(&self) -> (s: String)
        ensures
            s@ == self.text(),
    {
        match self {
            AuthError::MissingHeader => String::from_str("Missing Authorization header"),
            AuthError::InvalidFormat => String::from_str("Invalid Authorization header format"),
            AuthError::Configuration => String::from_str("Server configuration error"),
            AuthError::InvalidToken => String::from_str("Invalid or expired token"),
            AuthError::InvalidSubject => String::from_str("Invalid token subject"),
        }
    }

    /// The response class of the error: 500 where the server is at fault,
    /// 401 otherwise.
    pub fn status_code(&self) -> (code: u16)
        ensures
            code == if *self == AuthError::Configuration {
                500u16
            } else {
                401u16
            },
    {
        match self {
            AuthError::Configuration => 500,
            _ => 401,
        }
    }
}

/// The words before the token in the header.
pub open spec fn bearer_prefix() -> Seq<char> {
    "Bearer "@
}

/// The token that a header carries: what follows `Bearer `.
pub open spec fn token_in(header: Option<Seq<char>>) -> Result<Seq<char>, AuthError> {
    match header {
        None => Err(AuthError::MissingHeader),
        Some(h) => if h.len() >= 7 && h.subrange(0, 7) == bearer_prefix() {
            Ok(h.subrange(7, h.len() as int))
        } else {
            Err(AuthError::InvalidFormat)
        },
    }
}

/// The 32-bit integer that `s` writes, if it writes one that fits.
pub open spec fn parsed_i32(s: Seq<char>) -> Option<i32> {
    match integer_value(s) {
        Some(v) => if i32::MIN <= v <= i32::MAX {
            Some(v as i32)
        } else {
            None
        },
        None => None,
    }
}

/// The brawler that a token's subject names.
pub open spec fn subject_id(subject: Seq<char>) -> Result<i32, AuthError> {
    match parsed_i32(subject) {
        Some(id) => Ok(id),
        None => Err(AuthError::InvalidSubject),
    }
}

/// The text of a value that may be absent.
pub open spec fn optional_str(value: Option<&str>) -> Option<Seq<char>> {
    match value {
        Some(text) => Some(text@),
        None => None,
    }
}

/// Who is asking, given the `Authorization` header, whether the server has
/// a secret to check tokens with, and the subject that the check of the
/// token gave, if the token stood it. The steps are taken in this order:
/// the header must be there and carry a token; the server must have its
/// secret; the token must have stood the check; and its subject must be the
/// id of a brawler.
pub open spec fn identity(
    header: Option<Seq<char>>,
    has_secret: bool,
    subject: Option<Seq<char>>,
) -> Result<i32, AuthError> {
    match token_in(header) {
        Err(e) => Err(e),
        Ok(_) => if !has_secret {
            Err(AuthError::Configuration)
        } else {
            match subject {
                None => Err(AuthError::InvalidToken),
                Some(s) => subject_id(s),
            }
        },
    }
}

/// Takes the token out of the value of the `Authorization` header.
pub fn bearer_token<'a>(header: Option<&'a str>) -> (r: Result<&'a str, AuthError>)
    ensures
        match r {
            Ok(token) => token_in(optional_str(header)) == Ok::<Seq<char>, AuthError>(token@),
            Err(e) => token_in(optional_str(header)) == Err::<Seq<char>, AuthError>(e),
        },
{
    let value = match header {
        Some(value) => value,
        None => {
            return Err(AuthError::MissingHeader);
        },
    };
    let prefix = "Bearer ";
    proof {
        reveal_strlit("Bearer ");
    }
    let n = value.unicode_len();
    if n < 7 {
        return Err(AuthError::InvalidFormat);
    }
    let mut at: usize = 0;
    while at < 7
        invariant
            at <= 7 <= n,
            header == Some(value),
            n == value@.len(),
            prefix@ == bearer_prefix(),
            prefix@.len() == 7,
            forall|k: int| 0 <= k < at ==> value@[k] == prefix@[k],
        decreases 7 - at,
    {
        if value.get_char(at) != prefix.get_char(at) {
            proof {
                assert(value@.subrange(0, 7)[at as int] == value@[at as int]);
            }
            return Err(AuthError::InvalidFormat);
        }
        at = at + 1;
    }
    proof {
        assert(value@.subrange(0, 7) =~= bearer_prefix());
    }
    Ok(value.substring_char(7, n))
}

/// Decides who is asking; see [`identity`]. The token is checked by the
/// caller, who hands over the subject of a token that stood the check, and
/// nothing for one that did not or could not be checked.
pub fn identify(header: Option<&str>, has_secret: bool, subject: Option<&str>) -> (r: Result<
    i32,
    AuthError,
>)
    ensures
        r == identity(optional_str(header), has_secret, optional_str(subject)),
{
    match bearer_token(header) {
        Ok(_) => {},
        Err(e) => {
            return Err(e);
        },
    }
    if !has_secret {
        return Err(AuthError::Configuration);
    }
    match subject {
        Some(subject) => brawler_id_of(subject),
        None => Err(AuthError::InvalidToken),
    }
}

/// Reads the id of a brawler from the subject of a token.
pub fn brawler_id_of(subject: &str) -> (r: Result<i32, AuthError>)
    ensures
        r == subject_id(subject@),
{
    match parse_i64(subject) {
        Some(id) => if id >= i32::MIN as i64 && id <= i32::MAX as i64 {
            Ok(id as i32)
        } else {
            Err(AuthError::InvalidSubject)
        },
        None => Err(AuthError::InvalidSubject),
    }
}

} // verus!
