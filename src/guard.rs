use vstd::prelude::*;

use crate::error::{AuthError, StoreError};
use crate::token::{hs256_claims, signed_token, TokenCodec};
use crate::user::{parse_uuid, uuid_parsed, uuid_text, User};

verus! {

pub open spec fn bearer_prefix() -> Seq<char> {
    seq!['B', 'e', 'a', 'r', 'e', 'r', ' ']
}

/// The token an `Authorization` header value carries: what follows `Bearer `.
pub open spec fn bearer_token(h: Seq<char>) -> Option<Seq<char>> {
    if 7 <= h.len() && h.subrange(0, 7) == bearer_prefix() {
        Some(h.subrange(7, h.len() as int))
    } else {
        None
    }
}

pub open spec fn str_view(o: Option<&str>) -> Option<Seq<char>> {
    match o {
        Some(s) => Some(s@),
        None => None,
    }
}

/// The token a request carries: the `token` cookie first, else a bearer header.
pub open spec fn carried_token(cookie: Option<Seq<char>>, header: Option<Seq<char>>) -> Option<
    Seq<char>,
> {
    match cookie {
        Some(c) => Some(c),
        None => match header {
            Some(h) => bearer_token(h),
            None => None,
        },
    }
}

/// Whether `h` starts with `Bearer `.
fn has_bearer_prefix(h: &str) -> (r: bool)
    ensures
        r <==> 7 <= h@.len() && h@.subrange(0, 7) == bearer_prefix(),
{
    let n = h.unicode_len();
    if n < 7 {
        return false;
    }
    let prefix: [char; 7] = ['B', 'e', 'a', 'r', 'e', 'r', ' '];
    assert(prefix@ =~= bearer_prefix());
    let mut i: usize = 0;
    while i < 7
        invariant
            i <= 7,
            n == h@.len(),
            7 <= n,
            prefix@ == bearer_prefix(),
            forall|j: int| 0 <= j < i ==> h@[j] == bearer_prefix()[j],
        decreases 7 - i,
    {
        if h.get_char(i) != prefix[i] {
            assert(h@.subrange(0, 7)[i as int] != bearer_prefix()[i as int]);
            return false;
        }
        i = i + 1;
    }
    assert(h@.subrange(0, 7) =~= bearer_prefix());
    true
}

/// Pulls the session token out of a request: the `token` cookie if present,
/// else the value of an `Authorization: Bearer <token>` header.
pub fn extract_token(cookie: Option<&str>, authorization: Option<&str>) -> (r: Result<
    String,
    AuthError,
>)
    ensures
        carried_token(str_view(cookie), str_view(authorization)) is None ==> r == Err::<
            String,
            AuthError,
        >(AuthError::MissingToken),
        carried_token(str_view(cookie), str_view(authorization)) is Some ==> r is Ok && r->Ok_0@
            == carried_token(str_view(cookie), str_view(authorization))->Some_0,
{
    match cookie {
        Some(c) => Ok(c.to_string()),
        None => match authorization {
            None => Err(AuthError::MissingToken),
            Some(h) => {
                if has_bearer_prefix(h) {
                    let n = h.unicode_len();
                    Ok(h.substring_char(7, n).to_string())
                } else {
                    Err(AuthError::MissingToken)
                }
            },
        },
    }
}

/// What the guard answers at `now` for a carried token with genuine claims:
/// the subject's id while the token is unexpired, `InvalidToken` after.
pub open spec fn guard_post(secret: Seq<char>, token: Seq<char>, now: int, r: Result<u128, AuthError>) -> bool {
    forall|s: Seq<char>, i: int, e: int|
        0 <= i <= u64::MAX && 0 <= e <= u64::MAX && #[trigger] signed_token(s, i, e, secret)
            == token ==> if now < e {
            forall|id: u128| #[trigger] uuid_text(id) == s ==> r == Ok::<u128, AuthError>(id)
        } else {
            r == Err::<u128, AuthError>(AuthError::InvalidToken)
        }
}

/// The guard's answer at `now` for a request carrying `carried`: the account
/// id named by a token that verifies under `secret` and is unexpired, else the
/// reason for refusal.
pub open spec fn guard_spec(secret: Seq<char>, carried: Option<Seq<char>>, now: int) -> Result<
    u128,
    AuthError,
> {
    match carried {
        None => Err(AuthError::MissingToken),
        Some(t) => match hs256_claims(t, secret) {
            None => Err(AuthError::InvalidToken),
            Some((s, _i, e)) => if now < e {
                match uuid_parsed(s) {
                    Some(id) => Ok(id),
                    None => Err(AuthError::InvalidToken),
                }
            } else {
                Err(AuthError::InvalidToken)
            },
        },
    }
}

/// Admits or rejects requests to protected routes.
pub struct Guard {
    codec: TokenCodec,
}

impl Guard {
    pub closed spec fn codec_spec(&self) -> TokenCodec {
        self.codec
    }

    pub fn new(codec: TokenCodec) -> (r: Guard)
        ensures
            r.codec_spec() == codec,
    {
        Guard { codec }
    }

    /// Extracts and decodes the request's token at time `now`, giving the id of
    /// the account it names. Every token failure is the same `InvalidToken`.
    pub fn authenticate(&self, cookie: Option<&str>, authorization: Option<&str>, now: u64) -> (r:
        Result<u128, AuthError>)
        ensures
            carried_token(str_view(cookie), str_view(authorization)) is None ==> r == Err::<
                u128,
                AuthError,
            >(AuthError::MissingToken),
            carried_token(str_view(cookie), str_view(authorization)) is Some ==> guard_post(
                self.codec_spec().secret_view(),
                carried_token(str_view(cookie), str_view(authorization))->Some_0,
                now as int,
                r,
            ) && r != Err::<u128, AuthError>(AuthError::MissingToken),
            r == guard_spec(
                self.codec_spec().secret_view(),
                carried_token(str_view(cookie), str_view(authorization)),
                now as int,
            ),
    {
        let token = match extract_token(cookie, authorization) {
            Ok(t) => t,
            Err(e) => {
                return Err(e);
            },
        };
        let subject = match self.codec.decode(token.as_str(), now) {
            Ok(s) => s,
            Err(_) => {
                return Err(AuthError::InvalidToken);
            },
        };
        match parse_uuid(subject.as_str()) {
            Some(id) => Ok(id),
            None => Err(AuthError::InvalidToken),
        }
    }

    /// Finishes the guard once the store answered the lookup by id: the account
    /// is attached, or the request is refused if it no longer exists.
    pub fn resolve(found: Result<Option<User>, StoreError>) -> (r: Result<User, AuthError>)
        ensures
            found is Err ==> r == Err::<User, AuthError>(AuthError::StoreUnavailable),
            found == Ok::<Option<User>, StoreError>(None) ==> r == Err::<User, AuthError>(
                AuthError::InvalidToken,
            ),
            found is Ok && found->Ok_0 is Some ==> r == Ok::<User, AuthError>(found->Ok_0->Some_0),
    {
        match found {
            Err(_) => Err(AuthError::StoreUnavailable),
            Ok(None) => Err(AuthError::InvalidToken),
            Ok(Some(user)) => Ok(user),
        }
    }
}

/// A request carrying the token issued for account `id` at `t` is let through
/// with `id` while the token is unexpired, and refused with `InvalidToken` from
/// its expiry on (for a codec whose lifetime is not zero).
pub proof fn issued_session_admitted(guard: Guard, id: u128, t: u64, now: u64, r: Result<u128, AuthError>)
    requires
        0 < guard.codec_spec().ttl_spec(),
        t + guard.codec_spec().ttl_spec() <= u64::MAX,
    ensures
        guard_post(
            guard.codec_spec().secret_view(),
            signed_token(uuid_text(id), t as int, t + guard.codec_spec().ttl_spec(), guard.codec_spec().secret_view()),
            now as int,
            r,
        ) ==> (now < t + guard.codec_spec().ttl_spec() ==> r == Ok::<u128, AuthError>(id)) && (now
            >= t + guard.codec_spec().ttl_spec() ==> r == Err::<u128, AuthError>(AuthError::InvalidToken)),
{
    let key = guard.codec_spec().secret_view();
    let e = t + guard.codec_spec().ttl_spec();
    let tok = signed_token(uuid_text(id), t as int, e, key);
    if guard_post(key, tok, now as int, r) {
        assert(signed_token(uuid_text(id), t as int, e, key) == tok);
        if now < e {
            assert(uuid_text(id) == uuid_text(id));
        }
    }
}

} // verus!
