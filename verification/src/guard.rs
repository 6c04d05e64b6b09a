//! The guard in front of protected operations.
//!
//! Given the value of an `Authorization` header, it extracts the bearer
//! credential, checks signature and expiry, and yields the typed claims
//! variant the operation declared it needs, or a classified failure. Every
//! failure branch is fail-closed: absence or a wrong scheme is
//! `MissingCredentials`; anything else that is not a valid, correctly-typed,
//! unexpired token is `InvalidToken`. The check is synchronous and
//! side-effect-free.

use vstd::prelude::*;

use crate::claims::{
    decode_reader, decode_user, reader_claims_of, user_claims_of, ReaderClaims, ReaderClaimsV,
    UserClaims, UserClaimsV,
};
use crate::error::AuthError;
use crate::keys::Keys;

verus! {

/// The scheme prefix a bearer credential carries.
pub open spec fn bearer_prefix() -> Seq<char> {
    "Bearer "@
}

/// Does this header value carry the bearer scheme?
pub open spec fn has_bearer_prefix(h: Seq<char>) -> bool {
    h.len() >= 7 && h.subrange(0, 7) == bearer_prefix()
}

/// The credential part of a bearer header value.
pub open spec fn bearer_token(h: Seq<char>) -> Seq<char> {
    h.skip(7)
}

/// The header value that presents `token` under the bearer scheme.
pub open spec fn bearer_header_for(token: Seq<char>) -> Seq<char> {
    bearer_prefix() + token
}

/// The header as the guard's contract speaks of it.
pub open spec fn header_view(header: Option<&str>) -> Option<Seq<char>> {
    match header {
        Some(h) => Some(h@),
        None => None,
    }
}

/// Acceptance of a header for the user variant: the header is present,
/// carries the bearer scheme, its credential decodes under `secret` to
/// claims `c`, and `c` is not yet expired at `now`.
pub open spec fn user_guard_ok(
    header: Option<Seq<char>>,
    secret: Seq<u8>,
    now: usize,
    c: UserClaimsV,
) -> bool {
    match header {
        Some(h) => has_bearer_prefix(h) && user_claims_of(bearer_token(h), secret) == Some(c)
            && now < c.exp,
        None => false,
    }
}

/// Acceptance of a header for the reader variant.
pub open spec fn reader_guard_ok(
    header: Option<Seq<char>>,
    secret: Seq<u8>,
    now: usize,
    c: ReaderClaimsV,
) -> bool {
    match header {
        Some(h) => has_bearer_prefix(h) && reader_claims_of(bearer_token(h), secret) == Some(c)
            && now < c.exp,
        None => false,
    }
}

/// Split a header value into its bearer credential, if the scheme fits.
fn parse_bearer<'a>(h: &'a str) -> (r: Option<&'a str>)
    ensures
        r matches Some(t) ==> has_bearer_prefix(h@) && t@ == bearer_token(h@),
        r is None ==> !has_bearer_prefix(h@),
{
    let n = h.unicode_len();
    if n < 7 {
        return None;
    }
    let prefix = h.substring_char(0, 7);
    if String::from_str(prefix) == String::from_str("Bearer ") {
        let t = h.substring_char(7, n);
        proof {
            assert(h@.subrange(7, h@.len() as int) =~= bearer_token(h@));
        }
        Some(t)
    } else {
        None
    }
}

/// Validate the header in front of an operation that needs a staff
/// principal and yield its claims. Absence of the header or a wrong scheme
/// is `MissingCredentials`; a malformed token, a bad signature, a wrong
/// claims variant, and an expiry not in the future are all `InvalidToken`.
/// The result is pinned case by case over what the credential decodes to:
/// exactly the headers accepted by `user_guard_ok` yield claims.
pub fn extract_user_claims(header: Option<&str>, keys: &Keys, now: usize) -> (r: Result<
    UserClaims,
    AuthError,
>)
    ensures
        header is None ==> r == Err::<UserClaims, AuthError>(AuthError::MissingCredentials),
        header matches Some(h) && !has_bearer_prefix(h@) ==> r == Err::<UserClaims, AuthError>(
            AuthError::MissingCredentials,
        ),
        (match header_view(header) {
            Some(hv) => has_bearer_prefix(hv) ==> match user_claims_of(bearer_token(hv), keys@) {
                Some(c) => if now < c.exp {
                    r matches Ok(d) && d@ == c
                } else {
                    r == Err::<UserClaims, AuthError>(AuthError::InvalidToken)
                },
                None => r == Err::<UserClaims, AuthError>(AuthError::InvalidToken),
            },
            None => true,
        }),
        r matches Ok(c) ==> user_guard_ok(header_view(header), keys@, now, c@),
        forall|c: UserClaimsV|
            user_guard_ok(header_view(header), keys@, now, c) ==> (r matches Ok(d) && d@ == c),
{
    let h = match header {
        None => {
            return Err(AuthError::MissingCredentials);
        },
        Some(h) => h,
    };
    let token = match parse_bearer(h) {
        None => {
            return Err(AuthError::MissingCredentials);
        },
        Some(t) => t,
    };
    let claims = match decode_user(token, keys) {
        None => {
            return Err(AuthError::InvalidToken);
        },
        Some(c) => c,
    };
    if now < claims.exp {
        Ok(claims)
    } else {
        Err(AuthError::InvalidToken)
    }
}

/// Validate the header in front of an operation that needs a reader, as
/// `extract_user_claims` does for a staff principal.
pub fn extract_reader_claims(header: Option<&str>, keys: &Keys, now: usize) -> (r: Result<
    ReaderClaims,
    AuthError,
>)
    ensures
        header is None ==> r == Err::<ReaderClaims, AuthError>(AuthError::MissingCredentials),
        header matches Some(h) && !has_bearer_prefix(h@) ==> r == Err::<ReaderClaims, AuthError>(
            AuthError::MissingCredentials,
        ),
        (match header_view(header) {
            Some(hv) => has_bearer_prefix(hv) ==> match reader_claims_of(bearer_token(hv), keys@) {
                Some(c) => if now < c.exp {
                    r matches Ok(d) && d@ == c
                } else {
                    r == Err::<ReaderClaims, AuthError>(AuthError::InvalidToken)
                },
                None => r == Err::<ReaderClaims, AuthError>(AuthError::InvalidToken),
            },
            None => true,
        }),
        r matches Ok(c) ==> reader_guard_ok(header_view(header), keys@, now, c@),
        forall|c: ReaderClaimsV|
            reader_guard_ok(header_view(header), keys@, now, c) ==> (r matches Ok(d) && d@ == c),
{
    let h = match header {
        None => {
            return Err(AuthError::MissingCredentials);
        },
        Some(h) => h,
    };
    let token = match parse_bearer(h) {
        None => {
            return Err(AuthError::MissingCredentials);
        },
        Some(t) => t,
    };
    let claims = match decode_reader(token, keys) {
        None => {
            return Err(AuthError::InvalidToken);
        },
        Some(c) => c,
    };
    if now < claims.exp {
        Ok(claims)
    } else {
        Err(AuthError::InvalidToken)
    }
}

/// Expiry enforcement, for the user variant: whatever token a header
/// carries and however it was signed, the guard's acceptance predicate
/// refuses claims whose expiry is not in the future — by the guard's
/// contract such a well-formed bearer header is answered with
/// `InvalidToken`.
pub proof fn lemma_user_expired_rejected(
    header: Option<Seq<char>>,
    secret: Seq<u8>,
    now: usize,
    c: UserClaimsV,
)
    requires
        c.exp <= now,
    ensures
        !user_guard_ok(header, secret, now, c),
{
}

/// Expiry enforcement, for the reader variant.
pub proof fn lemma_reader_expired_rejected(
    header: Option<Seq<char>>,
    secret: Seq<u8>,
    now: usize,
    c: ReaderClaimsV,
)
    requires
        c.exp <= now,
    ensures
        !reader_guard_ok(header, secret, now, c),
{
}

/// Round trip at the request boundary, for the user variant: a header that
/// presents a token decoding to claims `c` under secret `k` — what signing
/// `c` ensures of its token — checked while `c` is unexpired, satisfies the
/// guard's acceptance predicate; by the guard's contract it then yields
/// exactly `c`.
pub proof fn lemma_user_round_trip(t: Seq<char>, c: UserClaimsV, k: Seq<u8>, now: usize)
    requires
        user_claims_of(t, k) == Some(c),
        now < c.exp,
    ensures
        user_guard_ok(Some(bearer_header_for(t)), k, now, c),
{
    reveal_strlit("Bearer ");
    let h = bearer_header_for(t);
    assert(h.subrange(0, 7) =~= bearer_prefix());
    assert(bearer_token(h) =~= t);
}

/// Round trip at the request boundary, for the reader variant.
pub proof fn lemma_reader_round_trip(t: Seq<char>, c: ReaderClaimsV, k: Seq<u8>, now: usize)
    requires
        reader_claims_of(t, k) == Some(c),
        now < c.exp,
    ensures
        reader_guard_ok(Some(bearer_header_for(t)), k, now, c),
{
    reveal_strlit("Bearer ");
    let h = bearer_header_for(t);
    assert(h.subrange(0, 7) =~= bearer_prefix());
    assert(bearer_token(h) =~= t);
}

} // verus!
