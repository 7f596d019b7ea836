use vstd::prelude::*;
use jsonwebtoken::errors::ErrorKind;
use jsonwebtoken::{decode, encode, Algorithm, DecodingKey, EncodingKey, Header, Validation};

use crate::error::TokenError;

verus! {

/// The claims a session token carries: subject id, issue time and expiry, in
/// seconds since the Unix epoch.
#[derive(Debug, Clone)]
pub struct TokenClaims {
    pub exp: u64,
    pub iat: u64,
    pub sub: String,
}

/// The HS256 token that signs the claims object `{sub, iat, exp}` under `secret`.
pub uninterp spec fn signed_token(sub: Seq<char>, iat: int, exp: int, secret: Seq<char>) -> Seq<char>;

/// The claims `(sub, iat, exp)` that `token` carries when it is an HS256
/// token whose signature verifies under `secret` and whose payload holds a
/// string `sub` and unsigned 64-bit `iat` and `exp`; `None` otherwise.
pub uninterp spec fn hs256_claims(token: Seq<char>, secret: Seq<char>) -> Option<(Seq<char>, int, int)>;

/// Relies on `jsonwebtoken::encode` with the default (HS256) header over the
/// JSON object `{exp, iat, sub}`: the token depends on these values and the
/// key alone, and HMAC signing of a map with string keys does not fail.
#[verifier::external_body]
fn jwt_encode(claims: &TokenClaims, secret: &str) -> (r: String)
    ensures
        r@ == signed_token(claims.sub@, claims.iat as int, claims.exp as int, secret@),
{
    let mut object = serde_json::Map::new();
    object.insert("exp".to_string(), claims.exp.into());
    object.insert("iat".to_string(), claims.iat.into());
    object.insert("sub".to_string(), claims.sub.as_str().into());
    let key = EncodingKey::from_secret(secret.as_bytes());
    encode(&Header::default(), &object, &key).expect("HS256 signing of a claims map does not fail")
}

/// Relies on `jsonwebtoken::decode` for HS256 with its own expiry check
/// switched off: the answer depends on the token and the key alone, a token
/// that `encode` made under the same key gives back the claims it was made
/// from, and a signature mismatch is `InvalidSignature`.
#[verifier::external_body]
fn jwt_decode(token: &str, secret: &str) -> (r: Result<TokenClaims, TokenError>)
    ensures
        r is Ok <==> hs256_claims(token@, secret@) is Some,
        r is Ok ==> hs256_claims(token@, secret@) == Some(
            (r->Ok_0.sub@, r->Ok_0.iat as int, r->Ok_0.exp as int),
        ),
        r is Err ==> r->Err_0 == TokenError::Malformed || r->Err_0 == TokenError::BadSignature,
        forall|s: Seq<char>, i: int, e: int|
            0 <= i <= u64::MAX && 0 <= e <= u64::MAX && #[trigger] signed_token(s, i, e, secret@)
                == token@ ==> r is Ok && r->Ok_0.sub@ == s && r->Ok_0.iat == i && r->Ok_0.exp == e,
{
    let mut rules = Validation::new(Algorithm::HS256);
    rules.validate_exp = false;
    rules.required_spec_claims.clear();
    let key = DecodingKey::from_secret(secret.as_bytes());
    match decode::<serde_json::Value>(token, &key, &rules) {
        Ok(d) => match (d.claims["sub"].as_str(), d.claims["iat"].as_u64(), d.claims["exp"].as_u64()) {
            (Some(s), Some(i), Some(e)) => Ok(TokenClaims { exp: e, iat: i, sub: s.to_string() }),
            _ => Err(TokenError::Malformed),
        },
        Err(e) if matches!(e.kind(), ErrorKind::InvalidSignature) => Err(TokenError::BadSignature),
        Err(_) => Err(TokenError::Malformed),
    }
}

/// What `decode` answers at `now` for a token whose verified claims are `claims`:
/// the subject while `now` is before the expiry, `Expired` from then on, and a
/// signature or format error when the token does not verify.
pub open spec fn decode_spec(
    claims: Option<(Seq<char>, int, int)>,
    now: int,
    r: Result<String, TokenError>,
) -> bool {
    match claims {
        None => r is Err && (r->Err_0 == TokenError::Malformed || r->Err_0
            == TokenError::BadSignature),
        Some((s, _i, e)) => if now < e {
            r is Ok && r->Ok_0@ == s
        } else {
            r == Err::<String, TokenError>(TokenError::Expired)
        },
    }
}

/// What `decode` answers at time `now` for a token carrying genuine claims:
/// the subject while `now` is before the expiry, `Expired` from then on.
pub open spec fn decode_post(
    secret: Seq<char>,
    token: Seq<char>,
    now: int,
    r: Result<String, TokenError>,
) -> bool {
    forall|s: Seq<char>, i: int, e: int|
        0 <= i <= u64::MAX && 0 <= e <= u64::MAX && #[trigger] signed_token(s, i, e, secret)
            == token ==> if now < e {
            r matches Ok(x) && x@ == s
        } else {
            r == Err::<String, TokenError>(TokenError::Expired)
        }
}

/// Judges decoded claims at time `now`: the subject while `now < exp`.
pub fn check_claims(claims: Result<TokenClaims, TokenError>, now: u64) -> (r: Result<
    String,
    TokenError,
>)
    ensures
        claims is Err ==> r == Err::<String, TokenError>(claims->Err_0),
        claims is Ok && now < claims->Ok_0.exp ==> r is Ok && r->Ok_0@ == claims->Ok_0.sub@,
        claims is Ok && now >= claims->Ok_0.exp ==> r == Err::<String, TokenError>(
            TokenError::Expired,
        ),
{
    match claims {
        Err(e) => Err(e),
        Ok(c) => {
            if now < c.exp {
                Ok(c.sub)
            } else {
                Err(TokenError::Expired)
            }
        },
    }
}

/// Issues and reads signed, time-bound session tokens under one secret.
pub struct TokenCodec {
    secret: String,
    ttl: u64,
}

impl TokenCodec {
    pub closed spec fn secret_view(&self) -> Seq<char> {
        self.secret@
    }

    pub closed spec fn ttl_spec(&self) -> u64 {
        self.ttl
    }

    /// A codec signing with `secret` whose tokens live `ttl` seconds.
    pub fn new(secret: &str, ttl: u64) -> (r: TokenCodec)
        ensures
            r.secret_view() == secret@,
            r.ttl_spec() == ttl,
    {
        TokenCodec { secret: secret.to_string(), ttl }
    }

    pub fn ttl(&self) -> (r: u64)
        ensures
            r == self.ttl_spec(),
    {
        self.ttl
    }

    /// Builds the claims issued for `subject` at `now`.
    pub fn claims_for(&self, subject: &str, now: u64) -> (r: TokenClaims)
        requires
            now + self.ttl_spec() <= u64::MAX,
        ensures
            r.sub@ == subject@,
            r.iat == now,
            r.exp == now + self.ttl_spec(),
    {
        TokenClaims { exp: now + self.ttl, iat: now, sub: subject.to_string() }
    }

    /// Signs a claim for `subject` issued at `now` and expiring `ttl` later.
    pub fn issue(&self, subject: &str, now: u64) -> (r: String)
        requires
            now + self.ttl_spec() <= u64::MAX,
        ensures
            r@ == signed_token(subject@, now as int, now + self.ttl_spec(), self.secret_view()),
    {
        let claims = self.claims_for(subject, now);
        jwt_encode(&claims, self.secret.as_str())
    }

    /// Reads the subject out of `token` at time `now`: the signature is checked
    /// first, then `now` must be strictly before the expiry.
    pub fn decode(&self, token: &str, now: u64) -> (r: Result<String, TokenError>)
        ensures
            decode_spec(hs256_claims(token@, self.secret_view()), now as int, r),
            decode_post(self.secret_view(), token@, now as int, r),
    {
        let claims = jwt_decode(token, self.secret.as_str());
        check_claims(claims, now)
    }
}

/// A token issued for `sub` at `t` decodes at `t` to `sub`, and is refused as
/// expired one second after its lifetime has run out (for a codec whose
/// lifetime is not zero).
pub proof fn issued_token_round_trip(
    codec: TokenCodec,
    sub: Seq<char>,
    t: u64,
    at_issue: Result<String, TokenError>,
    after_expiry: Result<String, TokenError>,
)
    requires
        0 < codec.ttl_spec(),
        t + codec.ttl_spec() + 1 <= u64::MAX,
    ensures
        decode_post(
            codec.secret_view(),
            signed_token(sub, t as int, t + codec.ttl_spec(), codec.secret_view()),
            t as int,
            at_issue,
        ) ==> (at_issue matches Ok(x) && x@ == sub),
        decode_post(
            codec.secret_view(),
            signed_token(sub, t as int, t + codec.ttl_spec(), codec.secret_view()),
            t + codec.ttl_spec() + 1,
            after_expiry,
        ) ==> after_expiry == Err::<String, TokenError>(TokenError::Expired),
{
    let key = codec.secret_view();
    let e = t + codec.ttl_spec();
    let tok = signed_token(sub, t as int, e, key);
    if decode_post(key, tok, t as int, at_issue) {
        assert(signed_token(sub, t as int, e, key) == tok);
    }
    if decode_post(key, tok, e + 1, after_expiry) {
        assert(signed_token(sub, t as int, e, key) == tok);
    }
}

} // verus!
