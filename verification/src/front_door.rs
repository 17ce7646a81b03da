//! The front door: what an upgrade request and the authentication
//! service's answer come to before a session exists.

use crate::tenant::UserToken;
use crate::text::{owned, prefixed};
use vstd::prelude::*;
use vstd::string::*;

verus! {

/// Whether a character is a decimal digit.
pub open spec fn is_digit(c: char) -> bool {
    '0' <= c && c <= '9'
}

/// The number that decimal digits spell; leading zeros count for nothing.
pub open spec fn digits_value(digits: Seq<char>) -> int
    decreases digits.len(),
{
    if digits.len() == 0 {
        0
    } else {
        digits_value(digits.drop_last()) * 10 + (digits.last() as int - '0' as int)
    }
}

/// Whether a text holds decimal digits only.
pub open spec fn all_digits(text: Seq<char>) -> bool {
    forall|i: int| 0 <= i < text.len() ==> is_digit(#[trigger] text[i])
}

/// The number of 32 bits that a text spells: an optional sign, then one or
/// more decimal digits and nothing else, for a number in range.
pub open spec fn i32_of_text(text: Seq<char>) -> Option<i32> {
    if text.len() == 0 {
        None
    } else {
        let signed = text[0] == '-' || text[0] == '+';
        let digits = if signed {
            text.subrange(1, text.len() as int)
        } else {
            text
        };
        let value = if text[0] == '-' {
            -digits_value(digits)
        } else {
            digits_value(digits)
        };
        if digits.len() == 0 || !all_digits(digits) || value < i32::MIN || value > i32::MAX {
            None
        } else {
            Some(value as i32)
        }
    }
}

/// A refusal of an upgrade request: the HTTP status and the message.
#[derive(Clone, Debug, PartialEq, Eq)]
pub struct Rejection {
    pub status: u16,
    pub message: String,
}

/// The reading of a refusal.
pub struct RejectionView {
    pub status: u16,
    pub message: Seq<char>,
}

impl View for Rejection {
    type V = RejectionView;

    open spec fn view(&self) -> RejectionView {
        RejectionView { status: self.status, message: self.message@ }
    }
}

/// The authentication service's answer to `VerifyUserToken`.
#[derive(Clone, Debug, PartialEq, Eq)]
pub struct VerifyUserTokenResponse {
    pub found: bool,
    pub user_token: Option<UserToken>,
}

impl VerifyUserTokenResponse {
    /// The answer of the authentication service for the outcome of a
    /// verification: `found` says whether there is a payload.
    pub fn from_verification(outcome: Option<UserToken>) -> (r: VerifyUserTokenResponse)
        ensures
            r.found == outcome is Some,
            r.user_token == outcome,
    {
        VerifyUserTokenResponse { found: outcome.is_some(), user_token: outcome }
    }
}

/// The refusal of a request that carries no token.
pub open spec fn missing_token() -> RejectionView {
    RejectionView { status: 400, message: "Missing token"@ }
}

/// What the answer of the authentication service comes to: the refusal, or
/// nothing where the token is good. A failed call and an answer that says
/// `found` without a token are the gateway's fault (500); a token that is
/// not found is the client's (401).
pub open spec fn verdict(reply: Result<VerifyUserTokenResponse, String>) -> Option<RejectionView> {
    match reply {
        Err(e) => Some(RejectionView { status: 500, message: "Auth service error: "@ + e@ }),
        Ok(answer) => if !answer.found {
            Some(RejectionView { status: 401, message: "Invalid token"@ })
        } else if answer.user_token is None {
            Some(
                RejectionView {
                    status: 500,
                    message: "Auth service returned found=true but no user_token data"@,
                },
            )
        } else {
            None
        },
    }
}

/// The token of an upgrade request, or the refusal of a request without
/// one.
pub fn token_param(token: Option<String>) -> (r: Result<String, Rejection>)
    ensures
        match r {
            Ok(t) => token == Some(t),
            Err(refusal) => token is None && refusal@ == missing_token(),
        },
{
    match token {
        Some(t) => Ok(t),
        None => Err(Rejection { status: 400, message: owned("Missing token") }),
    }
}

/// The verified token, or the refusal that the answer of the authentication
/// service comes to; `reply` holds the error text where the call failed.
pub fn verify_token(reply: Result<VerifyUserTokenResponse, String>) -> (r: Result<
    UserToken,
    Rejection,
>)
    ensures
        match r {
            Ok(token) => verdict(reply) is None && (reply matches Ok(answer) && answer.user_token
                == Some(token)),
            Err(refusal) => verdict(reply) == Some(refusal@),
        },
{
    match reply {
        Err(e) => Err(
            Rejection { status: 500, message: prefixed("Auth service error: ", e.as_str()) },
        ),
        Ok(answer) => {
            if !answer.found {
                return Err(Rejection { status: 401, message: owned("Invalid token") });
            }
            match answer.user_token {
                Some(token) => Ok(token),
                None => Err(
                    Rejection {
                        status: 500,
                        message: owned("Auth service returned found=true but no user_token data"),
                    },
                ),
            }
        },
    }
}

/// The user that a verified token is for: its `user_id` read as a number,
/// or nothing where it spells none.
pub fn user_id_of(token: &UserToken) -> (r: Option<i32>)
    ensures
        r == i32_of_text(token.user_id@),
{
    parse_i32(token.user_id.as_str())
}

/// Digits spell no negative number, and more digits spell no smaller one.
proof fn lemma_digits_value(digits: Seq<char>)
    requires
        all_digits(digits),
    ensures
        digits_value(digits) >= 0,
        digits.len() > 0 ==> digits_value(digits) >= digits_value(digits.drop_last()),
    decreases digits.len(),
{
    if digits.len() > 0 {
        let head = digits.drop_last();
        assert(all_digits(head)) by {
            assert forall|i: int| 0 <= i < head.len() implies is_digit(#[trigger] head[i]) by {
                assert(head[i] == digits[i]);
            }
        }
        lemma_digits_value(head);
        assert(is_digit(digits[digits.len() - 1]));
    }
}

/// Reads the digits of `text` from place `start` on: nothing where another
/// character stands among them; else the number they spell, as long as it
/// is at most 2^31.
fn parse_digits(text: &str, start: usize) -> (r: Option<Option<i64>>)
    requires
        start <= text@.len(),
    ensures
        match r {
            None => !all_digits(text@.subrange(start as int, text@.len() as int)),
            Some(read) => all_digits(text@.subrange(start as int, text@.len() as int)) && match read {
                Some(value) => 0 <= value <= 2147483648 && value == digits_value(
                    text@.subrange(start as int, text@.len() as int),
                ),
                None => digits_value(text@.subrange(start as int, text@.len() as int)) > 2147483648,
            },
        },
{
    let n = text.unicode_len();
    let mut value: i64 = 0;
    let mut overflow = false;
    let mut i: usize = start;
    assert(text@.subrange(start as int, start as int) =~= Seq::empty());
    while i < n
        invariant
            start <= i <= n,
            n == text@.len(),
            all_digits(text@.subrange(start as int, i as int)),
            !overflow ==> 0 <= value <= 2147483648 && value == digits_value(
                text@.subrange(start as int, i as int),
            ),
            overflow ==> digits_value(text@.subrange(start as int, i as int)) > 2147483648,
        decreases n - i,
    {
        let c = text.get_char(i);
        let ghost before = text@.subrange(start as int, i as int);
        let ghost now = text@.subrange(start as int, i + 1);
        if !('0' <= c && c <= '9') {
            proof {
                let rest = text@.subrange(start as int, n as int);
                assert(rest[i - start] == c);
            }
            return None;
        }
        proof {
            assert(now.drop_last() =~= before);
            assert(now.last() == c);
            assert forall|j: int| 0 <= j < now.len() implies is_digit(#[trigger] now[j]) by {
                if j < before.len() {
                    assert(now[j] == before[j]);
                }
            }
            lemma_digits_value(now);
            assert(digits_value(now) == digits_value(before) * 10 + (c as int - '0' as int));
        }
        if !overflow {
            let d = (c as u32 - '0' as u32) as i64;
            value = value * 10 + d;
            if value > 2147483648 {
                overflow = true;
            }
        }
        i += 1;
    }
    if overflow {
        Some(None)
    } else {
        Some(Some(value))
    }
}

/// Reads a number of 32 bits from its decimal text: see [`i32_of_text`].
pub fn parse_i32(text: &str) -> (r: Option<i32>)
    ensures
        r == i32_of_text(text@),
{
    let n = text.unicode_len();
    if n == 0 {
        return None;
    }
    let first = text.get_char(0);
    let start: usize = if first == '-' || first == '+' {
        1
    } else {
        0
    };
    if start == n {
        assert(text@.subrange(1, n as int).len() == 0);
        return None;
    }
    assert(text@.subrange(0, n as int) =~= text@);
    match parse_digits(text, start) {
        None => None,
        Some(None) => None,
        Some(Some(value)) => {
            if first == '-' {
                Some((-value) as i32)
            } else if value > 2147483647 {
                None
            } else {
                Some(value as i32)
            }
        },
    }
}

} // verus!
