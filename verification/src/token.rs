//! Token service: issues and verifies signed, time-bounded identity tokens.
//! A token carries the subject's id and an expiry timestamp and is signed
//! with a single process-wide secret (threaded in explicitly, so rotation
//! and testing are explicit). Signing and signature checking are done by
//! the jsonwebtoken crate behind trusted wrappers; expiry is checked here,
//! against a clock value the caller passes in, with no leeway.
use vstd::prelude::*;

use crate::ids::parse_uuid_text;
use crate::ids::uuid_text;
use crate::ids::uuid_text_of;
use crate::ids::uuid_value_of;

verus! {

/// Seconds a freshly issued token stays valid: 24 hours.
pub const TOKEN_TTL_SECONDS: u64 = 86400;

/// The signed payload of a token: the subject's id in its canonical text
/// form and the expiry as unix seconds.
pub struct Claims {
    pub sub: String,
    pub exp: u64,
}

/// What decoding a token under a secret yields: `Some((sub, exp))` exactly
/// when the signature verifies and the payload carries a string `sub` and
/// an integer `exp`. Names the result of jsonwebtoken's `decode` (signature
/// check only), a function of the token and the secret alone.
pub uninterp spec fn claims_of(token: Seq<char>, secret: Seq<u8>) -> Option<(Seq<char>, u64)>;

/// Relies on jsonwebtoken's `encode` with the default HS256 header:
/// decoding the returned token under the same secret yields exactly the
/// claims given here (the round trip the crate documents). Signing cannot
/// fail here — an HMAC secret matches the HS256 family, HS256 signing is
/// unconditional, and serde_json cannot fail on a map of one string and one
/// integer — so the fallback arm is unreachable.
#[verifier::external_body]
fn encode_token(sub: &str, exp: u64, secret: &Vec<u8>) -> (r: String)
    ensures
        claims_of(r@, secret@) == Some((sub@, exp)),
{
    let mut claims = serde_json::Map::new();
    claims.insert("sub".to_string(), serde_json::Value::String(sub.to_string()));
    claims.insert("exp".to_string(), serde_json::Value::from(exp));
    match jsonwebtoken::encode(
        &jsonwebtoken::Header::default(),
        &serde_json::Value::Object(claims),
        &jsonwebtoken::EncodingKey::from_secret(secret),
    ) {
        Ok(t) => t,
        Err(_) => String::new(),
    }
}

/// Relies on jsonwebtoken's `decode` under HS256 with signature validation
/// only (expiry is checked by the caller against an explicit clock):
/// returns the `sub` and `exp` claims exactly when the signature verifies
/// and both are present with those shapes.
#[verifier::external_body]
fn decode_token(token: &str, secret: &Vec<u8>) -> (r: Option<(String, u64)>)
    ensures
        r matches Some(c) ==> claims_of(token@, secret@) == Some((c.0@, c.1)),
        r is None ==> claims_of(token@, secret@) is None,
{
    let mut validation = jsonwebtoken::Validation::default();
    validation.validate_exp = false;
    let key = jsonwebtoken::DecodingKey::from_secret(secret);
    let data = jsonwebtoken::decode::<serde_json::Value>(token, &key, &validation).ok()?;
    let sub = data.claims.get("sub").and_then(|v| v.as_str())?.to_string();
    let exp = data.claims.get("exp").and_then(|v| v.as_u64())?;
    Some((sub, exp))
}

/// The errors token verification and header handling distinguish. All of
/// them map to 401 externally.
#[derive(Clone, Copy, Debug, PartialEq, Eq, Structural)]
pub enum AuthError {
    /// No Authorization header on a protected route.
    MissingHeader,
    /// An Authorization header without the exact `Bearer <token>` shape.
    MalformedHeader,
    /// A token whose signature or payload does not check out.
    InvalidToken,
    /// A token whose expiry is not strictly in the future.
    TokenExpired,
}

/// Everything `TokenService::verify` promises of its result, over the
/// decoded claims: no claims means `InvalidToken`; an expiry at or before
/// `now` means `TokenExpired` and nothing else does; a live token yields
/// exactly the id its subject parses to, and `InvalidToken` when it parses
/// to none — in particular, the canonical text of an id yields that id.
pub open spec fn verify_contract(
    token: Seq<char>,
    secret: Seq<u8>,
    now: u64,
    r: Result<u128, AuthError>,
) -> bool {
    match claims_of(token, secret) {
        None => r == Err::<u128, AuthError>(AuthError::InvalidToken),
        Some(c) => {
            &&& ((c.1 <= now) <==> r == Err::<u128, AuthError>(AuthError::TokenExpired))
            &&& (now < c.1 ==> r == (match uuid_value_of(c.0) {
                Some(id) => Ok::<u128, AuthError>(id),
                None => Err::<u128, AuthError>(AuthError::InvalidToken),
            }))
            &&& (now < c.1 ==> (forall|id: u128|
                c.0 == uuid_text_of(id) ==> r == Ok::<u128, AuthError>(id)))
        },
    }
}

/// Issues and verifies identity tokens under one shared signing secret.
pub struct TokenService {
    secret: Vec<u8>,
}

impl TokenService {
    /// The signing secret, as this service was configured with it.
    pub closed spec fn secret(&self) -> Seq<u8> {
        self.secret@
    }

    /// A token service over the given signing secret.
    pub fn new(secret: Vec<u8>) -> (s: TokenService)
        ensures
            s.secret() == secret@,
    {
        TokenService { secret }
    }

    /// Issues a token for `subject` that expires 24 hours after `now`:
    /// always a token whose claims carry the subject's canonical text and
    /// that expiry, since HS256 signing cannot fail.
    pub fn issue(&self, subject: u128, now: u64) -> (r: String)
        requires
            now + TOKEN_TTL_SECONDS <= u64::MAX,
        ensures
            claims_of(r@, self.secret()) == Some(
                (uuid_text_of(subject), (now + TOKEN_TTL_SECONDS) as u64),
            ),
    {
        let claims = Claims { sub: uuid_text(subject), exp: now + TOKEN_TTL_SECONDS };
        encode_token(claims.sub.as_str(), claims.exp, &self.secret)
    }

    /// Verifies a token against this service's secret and the given clock
    /// value: an invalid signature or payload is `InvalidToken`, an expiry
    /// at or before `now` is `TokenExpired`, otherwise the subject id is
    /// returned.
    pub fn verify(&self, token: &str, now: u64) -> (r: Result<u128, AuthError>)
        ensures
            verify_contract(token@, self.secret(), now, r),
    {
        match decode_token(token, &self.secret) {
            None => Err(AuthError::InvalidToken),
            Some((sub, exp)) => {
                if exp <= now {
                    Err(AuthError::TokenExpired)
                } else {
                    match parse_uuid_text(sub.as_str()) {
                        Some(id) => Ok(id),
                        None => Err(AuthError::InvalidToken),
                    }
                }
            },
        }
    }
}

/// Law: a token issued for `subject` (so carrying its canonical subject
/// text and an expiry still in the future) verifies to exactly `subject`.
/// The first hypothesis is what `TokenService::issue` ensures of its token;
/// the last is what `TokenService::verify` ensures of its result.
pub proof fn lemma_fresh_token_accepted(
    token: Seq<char>,
    secret: Seq<u8>,
    subject: u128,
    exp: u64,
    now: u64,
    r: Result<u128, AuthError>,
)
    requires
        claims_of(token, secret) == Some((uuid_text_of(subject), exp)),
        now < exp,
        verify_contract(token, secret, now, r),
    ensures
        r == Ok::<u128, AuthError>(subject),
{
}

/// Law: once its expiry has passed, a token verifies to `TokenExpired` and
/// to no other error, whatever else the token holds. The last hypothesis is
/// what `TokenService::verify` ensures of its result.
pub proof fn lemma_expired_token_rejected(
    token: Seq<char>,
    secret: Seq<u8>,
    sub: Seq<char>,
    exp: u64,
    now: u64,
    r: Result<u128, AuthError>,
)
    requires
        claims_of(token, secret) == Some((sub, exp)),
        exp <= now,
        verify_contract(token, secret, now, r),
    ensures
        r == Err::<u128, AuthError>(AuthError::TokenExpired),
{
}

} // verus!
