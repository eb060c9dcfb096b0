//! Authentication guard: pulls the bearer token out of an `Authorization`
//! header value and decides whether a request may pass.

use crate::errors::TokenError;
use crate::jwt::{
    current_timestamp, decode_token_at, has_no_blank, is_token_for, token_verdict, Claims,
    ClaimsModel,
};
use std::rc::Rc;
use vstd::prelude::*;
use vstd::string::is_ascii;

verus! {

/// Configuration of the guard: the secret that tokens must be signed with.
pub struct AuthMiddleware {
    pub jwt_secret: String,
}

/// The guard in front of one downstream service.
pub struct AuthMiddlewareMiddleware<S> {
    service: Rc<S>,
    jwt_secret: String,
}

/// Why the guard turned a request away. Both reasons are answered with the
/// same status; only the message differs.
#[derive(Clone, Copy, Debug, PartialEq, Eq, Structural)]
pub enum Rejection {
    /// The request carried no `Authorization` header.
    MissingHeader,
    /// The header's token was not accepted.
    InvalidToken(TokenError),
}

/// The guard's decision as mathematical values.
pub open spec fn decision_view(res: Result<Claims, Rejection>) -> Result<ClaimsModel, Rejection> {
    match res {
        Ok(claims) => Ok(claims@),
        Err(e) => Err(e),
    }
}

/// A header value, where there is one, as mathematical text.
pub open spec fn header_text(header: Option<&str>) -> Option<Seq<char>> {
    match header {
        Some(value) => Some(value@),
        None => None,
    }
}

/// What the guard decides on a request whose `Authorization` header is
/// `header`, at time `now`: without a header the request is turned away;
/// otherwise the header's token is verified and the request passes with
/// the verified claims or is turned away with the verifier's reason.
pub open spec fn guard_decision(header: Option<Seq<char>>, secret: Seq<char>, now: u64) -> Result<
    ClaimsModel,
    Rejection,
> {
    match header {
        None => Err(Rejection::MissingHeader),
        Some(value) => match token_verdict(header_token(value), secret, now) {
            Ok(claims) => Ok(claims),
            Err(e) => Err(Rejection::InvalidToken(e)),
        },
    }
}

/// The scheme marker that precedes a token in an `Authorization` header.
pub open spec fn bearer_marker() -> Seq<char> {
    seq!['B', 'e', 'a', 'r', 'e', 'r', ' ']
}

/// `s` with every occurrence of `pat` removed, scanning left to right and
/// never re-examining text that a removed occurrence covered.
pub open spec fn without_all(s: Seq<char>, pat: Seq<char>) -> Seq<char>
    decreases s.len(),
{
    if s.len() == 0 || pat.len() == 0 {
        s
    } else if pat.is_prefix_of(s) {
        without_all(s.skip(pat.len() as int), pat)
    } else {
        seq![s[0]] + without_all(s.skip(1), pat)
    }
}

/// The token that a header value carries: the value with the scheme marker
/// taken out wherever it occurs.
pub open spec fn header_token(header: Seq<char>) -> Seq<char> {
    without_all(header, bearer_marker())
}

/// The character at position `at` of `text`. Where the caller knows the
/// text to be plain ASCII, the usual case of a header value, it is read in
/// constant time.
fn char_at(text: &str, ascii: bool, at: usize) -> (c: char)
    requires
        ascii ==> is_ascii(text),
        at < text@.len(),
    ensures
        c == text@[at as int],
{
    if ascii {
        let byte: u8 = text.get_ascii(at);
        byte as char
    } else {
        text.get_char(at)
    }
}

/// The one-character slice at position `at` of `text`, whose length in
/// characters is `len`.
fn slice_at<'a>(text: &'a str, ascii: bool, at: usize, len: usize) -> (piece: &'a str)
    requires
        ascii ==> is_ascii(text),
        len == text@.len(),
        at < len,
    ensures
        piece@ == seq![text@[at as int]],
{
    if ascii {
        text.substring_ascii(at, at + 1)
    } else {
        text.substring_char(at, at + 1)
    }
}

/// Whether the scheme marker starts at position `at` of `header`, whose
/// length in characters is `len`.
fn marker_at(header: &str, ascii: bool, at: usize, len: usize) -> (hit: bool)
    requires
        ascii ==> is_ascii(header),
        len == header@.len(),
        at <= len,
    ensures
        hit == bearer_marker().is_prefix_of(header@.skip(at as int)),
{
    if len - at < 7 {
        return false;
    }
    let hit = char_at(header, ascii, at) == 'B' && char_at(header, ascii, at + 1) == 'e'
        && char_at(header, ascii, at + 2) == 'a' && char_at(header, ascii, at + 3) == 'r'
        && char_at(header, ascii, at + 4) == 'e' && char_at(header, ascii, at + 5) == 'r'
        && char_at(header, ascii, at + 6) == ' ';
    hit
}

/// Extracts the token from an `Authorization` header value: the value
/// without the scheme marker. Linear in the length of a plain ASCII value.
pub fn bearer_token(header: &str) -> (token: String)
    ensures
        token@ == header_token(header@),
{
    let ascii = header.is_ascii();
    let len = header.unicode_len();
    let mut token = String::new();
    let mut at: usize = 0;
    proof {
        assert(header@.skip(0) =~= header@);
    }
    while at < len
        invariant
            ascii ==> is_ascii(header),
            len == header@.len(),
            at <= len,
            header_token(header@) == token@ + header_token(header@.skip(at as int)),
        decreases len - at,
    {
        let ghost rest = header@.skip(at as int);
        if marker_at(header, ascii, at, len) {
            proof {
                assert(rest.skip(7) =~= header@.skip(at + 7));
            }
            at = at + 7;
        } else {
            let piece = slice_at(header, ascii, at, len);
            proof {
                assert(rest.skip(1) =~= header@.skip(at + 1));
            }
            token.append(piece);
            at = at + 1;
        }
    }
    token
}

impl Rejection {
    /// The status that answers a rejected request: 401 in every case.
    pub fn status(&self) -> (code: u16)
        ensures
            code == 401,
    {
        401
    }

    /// The message that answers a rejected request. It tells a missing
    /// header from a bad token and nothing more.
    pub fn message(&self) -> (text: &'static str)
        ensures
            text@ == (match *self {
                Rejection::MissingHeader => "Missing Authorization header"@,
                Rejection::InvalidToken(_) => "Invalid token"@,
            }),
    {
        match self {
            Rejection::MissingHeader => "Missing Authorization header",
            Rejection::InvalidToken(_) => "Invalid token",
        }
    }
}

impl AuthMiddleware {
    /// A guard that checks tokens against `jwt_secret`.
    pub fn new(jwt_secret: String) -> (guard: Self)
        ensures
            guard.jwt_secret == jwt_secret,
    {
        AuthMiddleware { jwt_secret }
    }

    /// Puts the guard in front of `service`.
    pub fn new_transform<S>(&self, service: S) -> (guarded: AuthMiddlewareMiddleware<S>)
        ensures
            guarded.secret() == self.jwt_secret@,
            *guarded.inner() == service,
    {
        AuthMiddlewareMiddleware { service: Rc::new(service), jwt_secret: self.jwt_secret.clone() }
    }
}

impl<S> AuthMiddlewareMiddleware<S> {
    /// The secret that tokens are checked against.
    pub closed spec fn secret(&self) -> Seq<char> {
        self.jwt_secret@
    }

    /// The downstream service.
    pub closed spec fn inner(&self) -> &S {
        &*self.service
    }

    /// A handle on the downstream service, to which a request that passed
    /// is passed on.
    pub fn service(&self) -> (handle: Rc<S>)
        ensures
            *handle == *self.inner(),
    {
        self.service.clone()
    }

    /// Decides on a request at time `now`, from the value of its
    /// `Authorization` header. The user directory is not consulted: a
    /// verified token is trusted for its subject.
    pub fn authenticate_at(&self, header: Option<&str>, now: u64) -> (res: Result<Claims, Rejection>)
        ensures
            decision_view(res) == guard_decision(header_text(header), self.secret(), now),
    {
        match header {
            None => Err(Rejection::MissingHeader),
            Some(value) => {
                let token = bearer_token(value);
                match decode_token_at(token.as_str(), self.jwt_secret.as_str(), now) {
                    Ok(claims) => Ok(claims),
                    Err(e) => Err(Rejection::InvalidToken(e)),
                }
            },
        }
    }

    /// Decides on a request at the time the system clock shows.
    pub fn authenticate(&self, header: Option<&str>) -> (res: Result<Claims, Rejection>)
        ensures
            exists|now: u64|
                decision_view(res) == #[trigger] guard_decision(
                    header_text(header),
                    self.secret(),
                    now,
                ),
    {
        self.authenticate_at(header, current_timestamp())
    }
}

/// Text without a blank holds no scheme marker, so nothing is taken out
/// of it.
pub proof fn lemma_unmarked_text_is_kept(text: Seq<char>)
    requires
        has_no_blank(text),
    ensures
        header_token(text) == text,
    decreases text.len(),
{
    if text.len() > 0 {
        lemma_unmarked_text_is_kept(text.skip(1));
    }
}

/// A header made of the scheme marker and a token without blanks carries
/// exactly that token.
pub proof fn lemma_marked_token_is_extracted(token: Seq<char>)
    requires
        has_no_blank(token),
    ensures
        header_token(bearer_marker() + token) == token,
{
    assert((bearer_marker() + token).skip(7) =~= token);
    lemma_unmarked_text_is_kept(token);
}

/// A request that presents, behind the scheme marker, a token signed for
/// claims under the guard's secret passes with exactly those claims at
/// every instant before the expiry, and is turned away as expired from
/// the expiry on.
pub proof fn lemma_guard_passes_issued_token(
    token: Seq<char>,
    sub: Seq<char>,
    exp: usize,
    secret: Seq<char>,
    now: u64,
)
    requires
        is_token_for(token, sub, exp, secret),
    ensures
        guard_decision(Some(bearer_marker() + token), secret, now) == (if now < exp {
            Ok::<ClaimsModel, Rejection>(ClaimsModel { sub, exp })
        } else {
            Err::<ClaimsModel, Rejection>(Rejection::InvalidToken(TokenError::Expired))
        }),
        guard_decision(Some(token), secret, now) == guard_decision(
            Some(bearer_marker() + token),
            secret,
            now,
        ),
{
    lemma_marked_token_is_extracted(token);
    lemma_unmarked_text_is_kept(token);
}

/// A request without an `Authorization` header never passes, whatever the
/// secret and the time.
pub proof fn lemma_guard_needs_a_header(secret: Seq<char>, now: u64)
    ensures
        guard_decision(None, secret, now) == Err::<ClaimsModel, Rejection>(
            Rejection::MissingHeader,
        ),
{
}

} // verus!
