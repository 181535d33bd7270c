//! The authorization guard.
//!
//! Every note request is authenticated before anything else happens: the
//! bearer token is taken from the authorization header and verified. Only
//! then may a note be fetched, and only its owner may change it.

use crate::auth::{token_claims, verify_token, Claims, ClaimsView};
use crate::error::ApiError;
use crate::models::{Note, NoteView};
use vstd::prelude::*;
use vstd::string::*;

verus! {

/// The scheme word and the blank that precede a bearer token.
pub open spec fn bearer_prefix() -> Seq<char> {
    seq!['B', 'e', 'a', 'r', 'e', 'r', ' ']
}

/// The token that an authorization header carries: what follows the prefix
/// `"Bearer "`. A missing header and a header without that prefix carry none.
pub open spec fn bearer_of(header: Option<Seq<char>>) -> Option<Seq<char>> {
    match header {
        Some(h) => if bearer_prefix().is_prefix_of(h) {
            Some(h.skip(7))
        } else {
            None
        },
        None => None,
    }
}

/// Who a request speaks for at time `now`: the verified claims of its bearer
/// token, or the reason why it speaks for nobody.
pub open spec fn authentication(
    header: Option<Seq<char>>,
    secret: Seq<u8>,
    now: u64,
) -> Result<ClaimsView, ApiError> {
    match bearer_of(header) {
        None => Err(ApiError::MissingToken),
        Some(token) => match token_claims(token, secret, now) {
            Some(claims) => Ok(claims),
            None => Err(ApiError::InvalidToken),
        },
    }
}

/// Whether `subject` may change the note that a lookup returned: the note
/// must exist and belong to `subject`.
pub open spec fn ownership(fetched: Option<NoteView>, subject: Seq<char>) -> Result<
    NoteView,
    ApiError,
> {
    match fetched {
        None => Err(ApiError::NotFound),
        Some(note) => if note.user_id == subject {
            Ok(note)
        } else {
            Err(ApiError::Forbidden)
        },
    }
}

/// The view of a header value that may be absent.
pub open spec fn header_view(header: Option<&str>) -> Option<Seq<char>> {
    match header {
        Some(h) => Some(h@),
        None => None,
    }
}

/// Whether two strings hold the same characters.
pub fn same_text(a: &str, b: &str) -> (same: bool)
    ensures
        same == (a@ == b@),
{
    let left = a.to_owned();
    let right = b.to_owned();
    left == right
}

/// Extracts the bearer token from the value of the authorization header.
///
/// Fails with `MissingToken` when the header is absent or does not start
/// with `"Bearer "`; the token itself may be empty.
pub fn bearer_token<'a>(header: Option<&'a str>) -> (token: Result<&'a str, ApiError>)
    ensures
        match bearer_of(header_view(header)) {
            Some(t) => token matches Ok(s) && s@ == t,
            None => token == Err::<&str, ApiError>(ApiError::MissingToken),
        },
{
    let value = match header {
        Some(h) => h,
        None => {
            return Err(ApiError::MissingToken);
        },
    };
    let prefix = "Bearer ";
    proof {
        reveal_strlit("Bearer ");
    }
    assert(prefix@ =~= bearer_prefix());
    let length = value.unicode_len();
    if length < 7 {
        return Err(ApiError::MissingToken);
    }
    let mut i: usize = 0;
    while i < 7
        invariant
            i <= 7,
            header == Some(value),
            length == value@.len(),
            length >= 7,
            prefix@ == bearer_prefix(),
            forall|k: int| 0 <= k < i ==> value@[k] == bearer_prefix()[k],
        decreases 7 - i,
    {
        if value.get_char(i) != prefix.get_char(i) {
            assert(value@.subrange(0, 7)[i as int] != bearer_prefix()[i as int]);
            return Err(ApiError::MissingToken);
        }
        i += 1;
    }
    assert(value@.subrange(0, 7) =~= bearer_prefix());
    let rest = value.substring_char(7, length);
    assert(rest@ =~= value@.skip(7));
    Ok(rest)
}

/// Authenticates a request at time `now`.
///
/// Fails with `MissingToken` when no bearer token can be extracted and with
/// `InvalidToken` when the token is malformed, wrongly signed or expired.
pub fn authenticate(header: Option<&str>, secret: &[u8], now: u64) -> (claims: Result<
    Claims,
    ApiError,
>)
    ensures
        match authentication(header_view(header), secret@, now) {
            Ok(c) => claims matches Ok(got) && got@ == c,
            Err(e) => claims == Err::<Claims, ApiError>(e),
        },
{
    let token = match bearer_token(header) {
        Ok(t) => t,
        Err(e) => {
            return Err(e);
        },
    };
    match verify_token(token, secret, now) {
        Some(claims) => Ok(claims),
        None => Err(ApiError::InvalidToken),
    }
}

/// Decides whether `subject` may change the note that a lookup returned.
///
/// Fails with `NotFound` when there is no note and with `Forbidden` when the
/// note belongs to somebody else; otherwise hands the note back.
pub fn check_owner(fetched: Option<Note>, subject: &str) -> (owned: Result<Note, ApiError>)
    ensures
        match fetched {
            None => owned == Err::<Note, ApiError>(ApiError::NotFound),
            Some(note) => if note.user_id@ == subject@ {
                owned == Ok::<Note, ApiError>(note)
            } else {
                owned == Err::<Note, ApiError>(ApiError::Forbidden)
            },
        },
{
    match fetched {
        None => Err(ApiError::NotFound),
        Some(note) => {
            if same_text(note.user_id.as_str(), subject) {
                Ok(note)
            } else {
                Err(ApiError::Forbidden)
            }
        },
    }
}

} // verus!
