//! Token codec: issues HS256-signed session tokens that carry a subject and
//! an expiry, and verifies them against a secret and a point in time.

use crate::errors::{InternalFailure, TokenError};
use jsonwebtoken::errors::ErrorKind;
use jsonwebtoken::{decode, encode, DecodingKey, EncodingKey, Header, Validation};
use vstd::prelude::*;

verus! {

/// The claims of a session token.
#[derive(Clone, Debug)]
pub struct Claims {
    /// Whom the token speaks for.
    pub sub: String,
    /// The first second, counted from the epoch, at which the token is no
    /// longer valid.
    pub exp: usize,
}

/// Claims as mathematical values.
pub struct ClaimsModel {
    pub sub: Seq<char>,
    pub exp: usize,
}

impl View for Claims {
    type V = ClaimsModel;

    open spec fn view(&self) -> ClaimsModel {
        ClaimsModel { sub: self.sub@, exp: self.exp }
    }
}

/// What the signature check and the JSON layer make of a token, before any
/// claim is judged.
#[derive(Debug)]
pub enum Decoded {
    /// The signature is good and the payload is JSON. `sub` is its `sub`
    /// member where that is a string, `exp` its `exp` member where that is
    /// a non-negative integer below 2^64.
    Payload { sub: Option<String>, exp: Option<u64> },
    /// The token has the shape of a token, but the signature is not the
    /// one that the secret gives.
    BadSignature,
    /// Anything else: wrong shape, bad encoding, another algorithm, a
    /// payload that is not JSON or that lacks a numeric `exp`.
    Malformed,
}

/// [`Decoded`] as mathematical values.
pub enum DecodedModel {
    Payload { sub: Option<Seq<char>>, exp: Option<u64> },
    BadSignature,
    Malformed,
}

impl View for Decoded {
    type V = DecodedModel;

    open spec fn view(&self) -> DecodedModel {
        match self {
            Decoded::Payload { sub, exp } => DecodedModel::Payload {
                sub: match sub {
                    Some(s) => Some(s@),
                    None => None,
                },
                exp: *exp,
            },
            Decoded::BadSignature => DecodedModel::BadSignature,
            Decoded::Malformed => DecodedModel::Malformed,
        }
    }
}

/// The error type of the token crate; nothing is read from it here.
#[verifier::external_type_specification]
#[verifier::external_body]
pub struct ExJwtError(jsonwebtoken::errors::Error);

/// The compact HS256 token whose claims are `sub` and `exp`, signed with
/// `secret`; `None` where the token crate fails to produce one.
pub uninterp spec fn hs256_token(sub: Seq<char>, exp: usize, secret: Seq<char>) -> Option<
    Seq<char>,
>;

/// What decoding `token` against `secret` finds, with every check of the
/// token crate's default validation but the one on expiry.
pub uninterp spec fn hs256_decoding(token: Seq<char>, secret: Seq<char>) -> DecodedModel;

/// Whether `text` holds no blank.
pub open spec fn has_no_blank(text: Seq<char>) -> bool {
    forall|i: int| 0 <= i < text.len() ==> text[i] != ' '
}

/// Whether `token` is what signing `sub` and `exp` with `secret` gives,
/// holds no blank, and decodes under `secret` to those claims.
pub open spec fn is_token_for(token: Seq<char>, sub: Seq<char>, exp: usize, secret: Seq<char>) -> bool {
    &&& hs256_token(sub, exp, secret) == Some(token)
    &&& has_no_blank(token)
    &&& hs256_decoding(token, secret) == (DecodedModel::Payload {
        sub: Some(sub),
        exp: Some(exp as u64),
    })
}

/// `jsonwebtoken::encode` with the default header on the claims object
/// `{"sub": sub, "exp": exp}`, keyed by the bytes of `secret`. Trusted: the
/// outcome is a function of the three arguments; a token that comes out is
/// three base64url parts joined by dots, so holds no blank, and decodes
/// under the same secret to the claims that went in.
#[verifier::external_body]
fn sign_hs256(sub: &str, exp: usize, secret: &str) -> (res: Result<
    String,
    jsonwebtoken::errors::Error,
>)
    ensures
        res is Ok <==> hs256_token(sub@, exp, secret@) is Some,
        res matches Ok(t) ==> is_token_for(t@, sub@, exp, secret@),
{
    let mut claims = serde_json::Map::new();
    claims.insert("sub".to_owned(), serde_json::Value::from(sub));
    claims.insert("exp".to_owned(), serde_json::Value::from(exp));
    encode(&Header::default(), &claims, &EncodingKey::from_secret(secret.as_bytes()))
}

/// `jsonwebtoken::decode` keyed by the bytes of `secret`, under the default
/// validation with the expiry check switched off, so that the outcome does
/// not depend on the clock. The error kind `InvalidSignature` is told apart
/// from all others; of a payload only `sub` and `exp` are handed on.
#[verifier::external_body]
fn read_hs256(token: &str, secret: &str) -> (out: Decoded)
    ensures
        out@ == hs256_decoding(token@, secret@),
{
    let mut checks = Validation::default();
    checks.validate_exp = false;
    let key = DecodingKey::from_secret(secret.as_bytes());
    match decode::<serde_json::Value>(token, &key, &checks) {
        Ok(data) => Decoded::Payload {
            sub: data.claims.get("sub").and_then(serde_json::Value::as_str).map(str::to_owned),
            exp: data.claims.get("exp").and_then(serde_json::Value::as_u64),
        },
        Err(e) => match e.kind() {
            ErrorKind::InvalidSignature => Decoded::BadSignature,
            _ => Decoded::Malformed,
        },
    }
}

/// `jsonwebtoken::get_current_timestamp`: the system clock, in whole
/// seconds since the epoch. Nothing is claimed of a clock reading. The
/// call panics where the clock stands before the epoch.
#[verifier::external_body]
pub(crate) fn current_timestamp() -> (now: u64) {
    jsonwebtoken::get_current_timestamp()
}

/// The verdict on a decoded token at time `now`: a bad signature and a
/// malformed token are reported as such; a payload must carry both claims,
/// with an expiry that the machine can represent, and is accepted while
/// `now` lies strictly before the expiry.
pub open spec fn verdict(decoded: DecodedModel, now: u64) -> Result<ClaimsModel, TokenError> {
    match decoded {
        DecodedModel::BadSignature => Err(TokenError::SignatureMismatch),
        DecodedModel::Malformed => Err(TokenError::Malformed),
        DecodedModel::Payload { sub: Some(sub), exp: Some(exp) } => if exp > usize::MAX {
            Err(TokenError::Malformed)
        } else if now < exp {
            Ok(ClaimsModel { sub, exp: exp as usize })
        } else {
            Err(TokenError::Expired)
        },
        DecodedModel::Payload { .. } => Err(TokenError::Malformed),
    }
}

/// The verdict on `token` under `secret` at time `now`.
pub open spec fn token_verdict(token: Seq<char>, secret: Seq<char>, now: u64) -> Result<
    ClaimsModel,
    TokenError,
> {
    verdict(hs256_decoding(token, secret), now)
}

/// A verification result as mathematical values.
pub open spec fn outcome_view(res: Result<Claims, TokenError>) -> Result<ClaimsModel, TokenError> {
    match res {
        Ok(claims) => Ok(claims@),
        Err(e) => Err(e),
    }
}

/// Judges a decoded token at time `now`.
pub fn judge(decoded: Decoded, now: u64) -> (res: Result<Claims, TokenError>)
    ensures
        outcome_view(res) == verdict(decoded@, now),
{
    match decoded {
        Decoded::BadSignature => Err(TokenError::SignatureMismatch),
        Decoded::Malformed => Err(TokenError::Malformed),
        Decoded::Payload { sub: Some(sub), exp: Some(exp) } => {
            if exp > usize::MAX as u64 {
                Err(TokenError::Malformed)
            } else if now < exp {
                Ok(Claims { sub, exp: exp as usize })
            } else {
                Err(TokenError::Expired)
            }
        },
        Decoded::Payload { .. } => Err(TokenError::Malformed),
    }
}

/// Signs a token for `sub` that expires at `exp`.
pub fn create_token(sub: &str, secret: &str, exp: usize) -> (res: Result<String, InternalFailure>)
    ensures
        match res {
            Ok(t) => is_token_for(t@, sub@, exp, secret@),
            Err(_) => hs256_token(sub@, exp, secret@) is None,
        },
{
    match sign_hs256(sub, exp, secret) {
        Ok(token) => Ok(token),
        Err(_) => Err(InternalFailure),
    }
}

/// The expiry of a token issued at `now` for `validity` seconds, where the
/// machine can represent it.
pub open spec fn expiry(now: u64, validity: u64) -> Option<usize> {
    if now + validity <= usize::MAX {
        Some((now + validity) as usize)
    } else {
        None
    }
}

/// The token that issuing for `sub` at `now` gives: what signing with the
/// expiry `now + validity` gives, where that instant can be represented.
pub open spec fn issued_token(sub: Seq<char>, now: u64, validity: u64, secret: Seq<char>) -> Option<
    Seq<char>,
> {
    match expiry(now, validity) {
        Some(exp) => hs256_token(sub, exp, secret),
        None => None,
    }
}

/// Whether `token` is the token issued for `sub` at `now`, and decodes
/// under `secret` to `sub` and the expiry `now + validity`.
pub open spec fn is_issued_token(
    token: Seq<char>,
    sub: Seq<char>,
    now: u64,
    validity: u64,
    secret: Seq<char>,
) -> bool {
    expiry(now, validity) matches Some(exp) && is_token_for(token, sub, exp, secret)
}

/// Issues a token for `sub` at time `now`, valid for `validity` seconds:
/// its expiry is `now + validity`. Fails where that instant cannot be
/// represented or the signing fails.
pub fn issue(sub: &str, now: u64, validity: u64, secret: &str) -> (res: Result<
    String,
    InternalFailure,
>)
    ensures
        match res {
            Ok(t) => is_issued_token(t@, sub@, now, validity, secret@),
            Err(_) => issued_token(sub@, now, validity, secret@) is None,
        },
{
    match now.checked_add(validity) {
        Some(at) => {
            if at <= usize::MAX as u64 {
                create_token(sub, secret, at as usize)
            } else {
                Err(InternalFailure)
            }
        },
        None => Err(InternalFailure),
    }
}

/// Verifies `token` against `secret` at time `now`. The signature is
/// checked before any claim is looked at; the expiry is compared with
/// `now` exactly.
pub fn decode_token_at(token: &str, secret: &str, now: u64) -> (res: Result<Claims, TokenError>)
    ensures
        outcome_view(res) == token_verdict(token@, secret@, now),
{
    judge(read_hs256(token, secret), now)
}

/// Verifies `token` against `secret` at the time the system clock shows.
pub fn decode_token(token: &str, secret: &str) -> (res: Result<Claims, TokenError>)
    ensures
        exists|now: u64| outcome_view(res) == #[trigger] token_verdict(token@, secret@, now),
{
    let now = current_timestamp();
    decode_token_at(token, secret, now)
}

/// A token that was signed for claims under a secret is accepted under
/// that secret, with exactly those claims, at every instant before its
/// expiry.
pub proof fn lemma_issued_token_verifies(
    token: Seq<char>,
    sub: Seq<char>,
    exp: usize,
    secret: Seq<char>,
    now: u64,
)
    requires
        is_token_for(token, sub, exp, secret),
        now < exp,
    ensures
        token_verdict(token, secret, now) == Ok::<ClaimsModel, TokenError>(
            ClaimsModel { sub, exp },
        ),
{
}

/// A token whose signature is good and whose claims are complete is
/// refused as expired at its expiry and at every instant after it.
pub proof fn lemma_expired_token_refused(
    token: Seq<char>,
    sub: Seq<char>,
    exp: usize,
    secret: Seq<char>,
    now: u64,
)
    requires
        hs256_decoding(token, secret) == (DecodedModel::Payload {
            sub: Some(sub),
            exp: Some(exp as u64),
        }),
        now >= exp,
    ensures
        token_verdict(token, secret, now) == Err::<ClaimsModel, TokenError>(TokenError::Expired),
{
}

/// A token whose signature does not hold under the verifier's secret is
/// refused for that reason at every instant, whatever its claims say.
pub proof fn lemma_bad_signature_comes_first(token: Seq<char>, secret: Seq<char>, now: u64)
    requires
        hs256_decoding(token, secret) == DecodedModel::BadSignature,
    ensures
        token_verdict(token, secret, now) == Err::<ClaimsModel, TokenError>(
            TokenError::SignatureMismatch,
        ),
{
}

/// A token issued with a validity of zero seconds is expired from the
/// instant of its issue on.
pub proof fn lemma_zero_validity_is_expired(
    token: Seq<char>,
    sub: Seq<char>,
    secret: Seq<char>,
    issued: u64,
    now: u64,
)
    requires
        is_issued_token(token, sub, issued, 0, secret),
        now >= issued,
    ensures
        token_verdict(token, secret, now) == Err::<ClaimsModel, TokenError>(TokenError::Expired),
{
}

} // verus!
