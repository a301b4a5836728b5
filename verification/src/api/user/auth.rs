//! Session tokens: issuing them at login, checking them on every protected
//! request.

use vstd::prelude::*;
use crate::api::user::cookie::{cookie_lookup, find_cookie, lemma_pair_is_found};
use crate::api::user::jwt::{
    decode_hs256, encode_hs256, full_claims, in_clock_range, is_token_text, jwt_decoded,
    jwt_text, read_claims, unix_now, DecodeFailure, RawClaims, RawClaimsView,
};
use crate::infra::dto::ReadHashedUser;
use crate::infra::user_id::{parse_hex, to_hex, UserId, ID_BYTES};
use crate::text::{optional_text, str_equal};

verus! {

/// Seconds for which a token is valid after it was issued: one hour.
pub const TOKEN_LIFETIME: i64 = 3600;

/// The issuer written into every token and expected in every token.
pub const ISSUER: &'static str = "joao.xavier.api";

/// Name of the cookie that carries the token.
pub const TOKEN_COOKIE: &'static str = "token";

/// Who a session belongs to.
#[derive(Debug)]
pub struct UserClaims {
    pub id: UserId,
    pub username: String,
}

impl Clone for UserClaims {
    /// A copy with the same id and the same name.
    fn clone(&self) -> (r: UserClaims)
        ensures
            r@ == self@,
    {
        UserClaims { id: self.id, username: self.username.clone() }
    }
}

/// `UserClaims` as mathematical values.
pub struct UserClaimsView {
    pub id: Seq<u8>,
    pub username: Seq<char>,
}

impl View for UserClaims {
    type V = UserClaimsView;

    open spec fn view(&self) -> UserClaimsView {
        UserClaimsView { id: self.id@, username: self.username@ }
    }
}

/// Why a request was not let through.
#[derive(Clone, Copy, Debug, PartialEq, Eq)]
pub enum AuthError {
    /// The request carries no token cookie.
    TokenNotPresent,
    /// The token cannot be taken apart, or lacks a claim that every token of
    /// this service has.
    TokenMalformed,
    /// The signature is not the one the server's secret gives.
    SignatureInvalid,
    /// The token names another issuer, or none.
    IssuerMismatch,
    /// The token's lifetime is over.
    TokenExpired,
    /// The token's lifetime has not begun.
    TokenNotYetValid,
}

/// Status of a request that carries no valid session.
pub const UNAUTHORIZED: u16 = 401;

impl AuthError {
    /// The text that tells the client why it was not let through.
    pub open spec fn spec_message(self) -> Seq<char> {
        match self {
            AuthError::TokenNotPresent => "Auth token not found on the request"@,
            AuthError::TokenMalformed => "Invalid token: (InvalidToken)"@,
            AuthError::SignatureInvalid => "Invalid token: (InvalidSignature)"@,
            AuthError::IssuerMismatch => "Invalid token: (InvalidIssuer)"@,
            AuthError::TokenExpired => "Invalid token: (ExpiredSignature)"@,
            AuthError::TokenNotYetValid => "Invalid token: (ImmatureSignature)"@,
        }
    }

    /// The message as a text of its own.
    pub fn message(&self) -> (r: String)
        ensures
            r@ == self.spec_message(),
    {
        match self {
            AuthError::TokenNotPresent => "Auth token not found on the request".to_owned(),
            AuthError::TokenMalformed => "Invalid token: (InvalidToken)".to_owned(),
            AuthError::SignatureInvalid => "Invalid token: (InvalidSignature)".to_owned(),
            AuthError::IssuerMismatch => "Invalid token: (InvalidIssuer)".to_owned(),
            AuthError::TokenExpired => "Invalid token: (ExpiredSignature)".to_owned(),
            AuthError::TokenNotYetValid => "Invalid token: (ImmatureSignature)".to_owned(),
        }
    }

    /// The HTTP status that reports this error: always 401.
    pub fn status_code(&self) -> (r: u16)
        ensures
            r == UNAUTHORIZED,
    {
        UNAUTHORIZED
    }

    /// The response that reports this error: its status, and the text that
    /// the body holds under the key `error`.
    pub fn into_response(self) -> (r: (u16, String))
        ensures
            r.0 == UNAUTHORIZED,
            r.1@ == self.spec_message(),
    {
        (self.status_code(), self.message())
    }
}

/// Why no token could be issued.
#[derive(Clone, Copy, Debug, PartialEq, Eq)]
pub enum TokenIssueError {
    /// The expiry time would not fit in a 64-bit timestamp.
    ClockOutOfRange,
    /// The encoder reported an error.
    Encoding,
}

/// The claims of a session.
#[derive(Debug)]
pub struct JwtPayload {
    pub data: UserClaims,
    pub exp: i64,
    pub nbf: i64,
    pub iss: &'static str,
}

impl JwtPayload {
    /// The claims of a session opened at `now`: valid from `now`, for one
    /// hour, issued by this service.
    pub fn new(data: UserClaims, now: i64) -> (r: JwtPayload)
        requires
            now + TOKEN_LIFETIME <= i64::MAX,
        ensures
            r.data == data,
            r.nbf == now,
            r.exp == now + TOKEN_LIFETIME,
            r.iss@ == ISSUER@,
    {
        JwtPayload { data, exp: now + TOKEN_LIFETIME, nbf: now, iss: ISSUER }
    }

    /// The token that carries these claims when signed with `secret`.
    pub open spec fn token(self, secret: Seq<char>) -> Seq<char> {
        jwt_text(
            to_hex(self.data.id@),
            self.data.username@,
            self.exp as int,
            self.nbf as int,
            self.iss@,
            secret,
        )
    }

    /// Signs the claims with `secret`. The answer is always the token of
    /// these claims, written in the characters of a token.
    pub fn sign(&self, secret: &str) -> (r: Result<String, TokenIssueError>)
        ensures
            token_view(r) == Ok::<Seq<char>, TokenIssueError>(self.token(secret@)),
            r matches Ok(token) ==> is_token_text(token@),
    {
        let id = self.data.id.to_hex();
        token_from(
            encode_hs256(
                id.as_str(),
                self.data.username.as_str(),
                self.exp,
                self.nbf,
                self.iss,
                secret,
            ),
        )
    }
}

/// The token of the session that `who` opens at `now` under `secret`.
pub open spec fn issued_token(who: UserClaimsView, secret: Seq<char>, now: int) -> Seq<char> {
    jwt_text(to_hex(who.id), who.username, now + TOKEN_LIFETIME, now, ISSUER@, secret)
}

/// The view of an issued token or of the reason why there is none.
pub open spec fn token_view(issued: Result<String, TokenIssueError>) -> Result<
    Seq<char>,
    TokenIssueError,
> {
    match issued {
        Ok(token) => Ok(token@),
        Err(e) => Err(e),
    }
}

/// What the encoder's answer means to the caller.
pub open spec fn encoding_outcome(encoded: Result<String, jsonwebtoken::errors::Error>) -> Result<
    Seq<char>,
    TokenIssueError,
> {
    match encoded {
        Ok(token) => Ok(token@),
        Err(_) => Err(TokenIssueError::Encoding),
    }
}

/// Turns the encoder's answer into the library's: the token, or
/// `TokenIssueError::Encoding` for any error of the encoder.
pub fn token_from(encoded: Result<String, jsonwebtoken::errors::Error>) -> (r: Result<
    String,
    TokenIssueError,
>)
    ensures
        token_view(r) == encoding_outcome(encoded),
{
    match encoded {
        Ok(token) => Ok(token),
        Err(_) => Err(TokenIssueError::Encoding),
    }
}

/// What issuing a token to `who` at `now` gives: `ClockOutOfRange` where the
/// expiry time does not fit in a timestamp, and otherwise the token of a
/// session that is valid from `now` for one hour.
pub open spec fn issue_outcome(who: UserClaimsView, secret: Seq<char>, now: int) -> Result<
    Seq<char>,
    TokenIssueError,
> {
    if now + TOKEN_LIFETIME > i64::MAX {
        Err(TokenIssueError::ClockOutOfRange)
    } else {
        Ok(issued_token(who, secret, now))
    }
}

/// Issues the token of a session that `who` opens at `now`. The token is
/// valid from `now` for one hour. The only refusal is `ClockOutOfRange`, which
/// comes exactly when the expiry time does not fit in a timestamp.
pub fn issue_token(who: UserClaims, secret: &str, now: i64) -> (r: Result<String, TokenIssueError>)
    ensures
        token_view(r) == issue_outcome(who@, secret@, now as int),
        r matches Ok(token) ==> is_token_text(token@),
{
    if now > i64::MAX - TOKEN_LIFETIME {
        return Err(TokenIssueError::ClockOutOfRange);
    }
    let payload = JwtPayload::new(who, now);
    payload.sign(secret)
}

/// The identity that a stored user carries into a session.
pub open spec fn claims_of(user: ReadHashedUser) -> UserClaimsView {
    UserClaimsView { id: user.id@, username: user.username@ }
}

/// Issues a token for a stored user at the present time. A token always
/// comes back: the time is read from the clock, a time that the clock can
/// show leaves room for the hour of the token, and the token is the one that
/// `issue_token` gives for this user at that time.
pub fn generate_token(user: ReadHashedUser, secret: &str) -> (r: Result<String, TokenIssueError>)
    ensures
        r is Ok,
        exists|now: i64|
            in_clock_range(now as int) && token_view(r) == Ok::<Seq<char>, TokenIssueError>(
                #[trigger] issued_token(claims_of(user), secret@, now as int),
            ),
        r matches Ok(token) ==> is_token_text(token@),
{
    let data = UserClaims { username: user.username, id: user.id };
    assert(data@ == claims_of(user));
    let now = unix_now();
    let r = issue_token(data, secret, now);
    assert(token_view(r) == Ok::<Seq<char>, TokenIssueError>(
        issued_token(claims_of(user), secret@, now as int),
    ));
    r
}

/// What the claims of a token with a good signature give at `now`. The checks
/// come in this order: every claim is present and the id is well-formed, the
/// issuer is this service, the token has not expired, its lifetime has begun.
pub open spec fn claims_verdict(claims: RawClaimsView, now: int) -> Result<
    UserClaimsView,
    AuthError,
> {
    if claims.id is None || claims.username is None || claims.exp is None || claims.nbf is None {
        Err(AuthError::TokenMalformed)
    } else if parse_hex(claims.id.unwrap()) is None {
        Err(AuthError::TokenMalformed)
    } else if claims.iss != Some(ISSUER@) {
        Err(AuthError::IssuerMismatch)
    } else if now >= claims.exp.unwrap() {
        Err(AuthError::TokenExpired)
    } else if now < claims.nbf.unwrap() {
        Err(AuthError::TokenNotYetValid)
    } else {
        Ok(
            UserClaimsView {
                id: parse_hex(claims.id.unwrap()).unwrap(),
                username: claims.username.unwrap(),
            },
        )
    }
}

/// What a decoded token gives at `now`.
pub open spec fn token_verdict(decoded: Result<RawClaimsView, DecodeFailure>, now: int) -> Result<
    UserClaimsView,
    AuthError,
> {
    match decoded {
        Err(DecodeFailure::Signature) => Err(AuthError::SignatureInvalid),
        Err(DecodeFailure::Structure) => Err(AuthError::TokenMalformed),
        Ok(claims) => claims_verdict(claims, now),
    }
}

/// A token is accepted only if all of this holds: its signature was found
/// good, every claim is present, the issuer is this service, and `now` lies
/// in the token's lifetime, from `nbf` on and before `exp`. The identity that
/// comes back is then the one the claims name.
pub proof fn lemma_accepted_token_is_valid(
    decoded: Result<RawClaimsView, DecodeFailure>,
    now: int,
)
    requires
        token_verdict(decoded, now) is Ok,
    ensures
        decoded matches Ok(claims) && {
            &&& claims.iss == Some(ISSUER@)
            &&& claims.nbf is Some && claims.exp is Some
            &&& claims.nbf.unwrap() <= now < claims.exp.unwrap()
            &&& claims.id is Some && claims.username is Some
            &&& parse_hex(claims.id.unwrap()) == Some(token_verdict(decoded, now).unwrap().id)
            &&& claims.username.unwrap() == token_verdict(decoded, now).unwrap().username
        },
{
}

/// A token is refused for its signature exactly when the decoder reports a
/// signature that does not match: no claim, and no time, gives or hides this
/// refusal.
pub proof fn lemma_signature_refusal(decoded: Result<RawClaimsView, DecodeFailure>, now: int)
    ensures
        token_verdict(decoded, now) == Err::<UserClaimsView, AuthError>(AuthError::SignatureInvalid)
            <==> decoded == Err::<RawClaimsView, DecodeFailure>(DecodeFailure::Signature),
{
}

/// The view of the outcome of a check.
pub open spec fn outcome_view(outcome: Result<UserClaims, AuthError>) -> Result<
    UserClaimsView,
    AuthError,
> {
    match outcome {
        Ok(who) => Ok(who@),
        Err(e) => Err(e),
    }
}

/// The view of a decoding result.
pub open spec fn decoded_view(decoded: Result<RawClaims, DecodeFailure>) -> Result<
    RawClaimsView,
    DecodeFailure,
> {
    match decoded {
        Ok(claims) => Ok(claims@),
        Err(failure) => Err(failure),
    }
}

/// Judges the claims of a token whose signature was found good.
pub fn check_claims(claims: RawClaims, now: i64) -> (r: Result<UserClaims, AuthError>)
    ensures
        outcome_view(r) == claims_verdict(claims@, now as int),
{
    let RawClaims { id, username, iss, exp, nbf } = claims;
    match (id, username, exp, nbf) {
        (Some(id), Some(username), Some(exp), Some(nbf)) => {
            match UserId::parse_str(id.as_str()) {
                None => Err(AuthError::TokenMalformed),
                Some(id) => {
                    let issuer_matches = match iss {
                        Some(name) => str_equal(name.as_str(), ISSUER),
                        None => false,
                    };
                    if !issuer_matches {
                        Err(AuthError::IssuerMismatch)
                    } else if now >= exp {
                        Err(AuthError::TokenExpired)
                    } else if now < nbf {
                        Err(AuthError::TokenNotYetValid)
                    } else {
                        Ok(UserClaims { id, username })
                    }
                },
            }
        },
        _ => Err(AuthError::TokenMalformed),
    }
}

/// Judges a decoded token: a failure of decoding is reported as such, claims
/// are checked against `now`.
pub fn check_decoded(decoded: Result<RawClaims, DecodeFailure>, now: i64) -> (r: Result<
    UserClaims,
    AuthError,
>)
    ensures
        outcome_view(r) == token_verdict(decoded_view(decoded), now as int),
{
    match decoded {
        Ok(claims) => check_claims(claims, now),
        Err(DecodeFailure::Signature) => Err(AuthError::SignatureInvalid),
        Err(DecodeFailure::Structure) => Err(AuthError::TokenMalformed),
    }
}

/// What a token issued at `issued_at` to `who` gives at `now`: the identity
/// during the hour that starts at `issued_at`, `TokenExpired` from the end of
/// that hour on, `TokenNotYetValid` before it.
pub open spec fn session_at(who: UserClaimsView, issued_at: int, now: int) -> Result<
    UserClaimsView,
    AuthError,
> {
    if now >= issued_at + TOKEN_LIFETIME {
        Err(AuthError::TokenExpired)
    } else if now < issued_at {
        Err(AuthError::TokenNotYetValid)
    } else {
        Ok(who)
    }
}

/// The claims of a token issued at `issued_at` to `who` are judged as
/// `session_at` says.
pub proof fn lemma_issued_claims_verdict(who: UserClaimsView, issued_at: int, now: int)
    requires
        who.id.len() == ID_BYTES,
    ensures
        claims_verdict(
            full_claims(to_hex(who.id), who.username, issued_at + TOKEN_LIFETIME, issued_at, ISSUER@),
            now,
        ) == session_at(who, issued_at, now),
{
    UserId::lemma_hex_round_trip(who.id);
}

/// Verifies a token against the server's secret at the time `now`.
///
/// The first clause gives the answer for every token. The second is about
/// tokens of this service: a token issued at `issued_at` under the same
/// secret yields its identity at every time from `issued_at` up to, but not
/// including, one hour later, and `TokenExpired` from then on.
pub fn decode_claims(secret: &str, token: &str, now: i64) -> (r: Result<UserClaims, AuthError>)
    ensures
        outcome_view(r) == token_verdict(jwt_decoded(token@, secret@), now as int),
        forall|who: UserClaimsView, issued_at: i64|
            who.id.len() == ID_BYTES && issued_at + TOKEN_LIFETIME <= i64::MAX && token@
                == #[trigger] issued_token(who, secret@, issued_at as int) ==> outcome_view(r)
                == session_at(who, issued_at as int, now as int),
{
    let r = match decode_hs256(token, secret) {
        Ok(payload) => check_decoded(Ok(read_claims(&payload)), now),
        Err(failure) => check_decoded(Err(failure), now),
    };
    proof {
        assert forall|who: UserClaimsView, issued_at: i64|
            who.id.len() == ID_BYTES && issued_at + TOKEN_LIFETIME <= i64::MAX && token@
                == #[trigger] issued_token(who, secret@, issued_at as int) implies outcome_view(r)
            == session_at(who, issued_at as int, now as int) by {
            lemma_issued_claims_verdict(who, issued_at as int, now as int);
            let exp = (issued_at + TOKEN_LIFETIME) as i64;
            assert(token@ == jwt_text(
                to_hex(who.id),
                who.username,
                exp as int,
                issued_at as int,
                ISSUER@,
                secret@,
            ));
        }
    }
    r
}

/// What a request with this `Cookie` header is answered at `now`.
pub open spec fn authorization(cookie_header: Option<Seq<char>>, secret: Seq<char>, now: int) -> Result<
    UserClaimsView,
    AuthError,
> {
    match cookie_header {
        None => Err(AuthError::TokenNotPresent),
        Some(header) => match cookie_lookup(header, TOKEN_COOKIE@) {
            None => Err(AuthError::TokenNotPresent),
            Some(token) => token_verdict(jwt_decoded(token, secret), now),
        },
    }
}

/// The `Cookie` header with which a browser sends a token back.
pub open spec fn cookie_header_of(token: Seq<char>) -> Seq<char> {
    TOKEN_COOKIE@ + seq!['='] + token
}

/// A token that is sent back in the token cookie is the token that the guard
/// reads.
pub proof fn lemma_token_comes_back(token: Seq<char>)
    requires
        is_token_text(token),
    ensures
        cookie_lookup(cookie_header_of(token), TOKEN_COOKIE@) == Some(token),
{
    reveal_strlit("token");
    assert(TOKEN_COOKIE@.len() == 5);
    assert(TOKEN_COOKIE@[0] == 't' && TOKEN_COOKIE@[1] == 'o' && TOKEN_COOKIE@[2] == 'k'
        && TOKEN_COOKIE@[3] == 'e' && TOKEN_COOKIE@[4] == 'n');
    lemma_pair_is_found(TOKEN_COOKIE@, token);
}

/// Decides at the time `now` whether a request may pass: reads the token
/// cookie from the `Cookie` header, if there is one, and verifies it.
///
/// The second clause follows a session from login to a later request: when
/// the header is the one that sends back a token issued at `issued_at` under
/// the same secret, the request passes with the identity of the token during
/// the hour that starts at `issued_at`, and is refused as expired after it.
pub fn authorize(cookie_header: Option<&str>, secret: &str, now: i64) -> (r: Result<
    UserClaims,
    AuthError,
>)
    ensures
        outcome_view(r) == authorization(optional_text(cookie_header), secret@, now as int),
        forall|who: UserClaimsView, issued_at: i64|
            who.id.len() == ID_BYTES && issued_at + TOKEN_LIFETIME <= i64::MAX && is_token_text(
                #[trigger] issued_token(who, secret@, issued_at as int),
            ) && optional_text(cookie_header) == Some(
                cookie_header_of(issued_token(who, secret@, issued_at as int)),
            ) ==> outcome_view(r) == session_at(who, issued_at as int, now as int),
{
    proof {
        assert forall|who: UserClaimsView, issued_at: i64|
            is_token_text(#[trigger] issued_token(who, secret@, issued_at as int)) implies cookie_lookup(
            cookie_header_of(issued_token(who, secret@, issued_at as int)),
            TOKEN_COOKIE@,
        ) == Some(issued_token(who, secret@, issued_at as int)) by {
            lemma_token_comes_back(issued_token(who, secret@, issued_at as int));
        }
    }
    match cookie_header {
        None => Err(AuthError::TokenNotPresent),
        Some(header) => match find_cookie(header, TOKEN_COOKIE) {
            None => Err(AuthError::TokenNotPresent),
            Some(token) => decode_claims(secret, token, now),
        },
    }
}

/// The guard in front of every protected handler: decides at the present time
/// whether a request with this `Cookie` header may pass. The time is read from
/// the clock, and whatever the clock shows, the answer is the one that
/// `authorize` gives for that time. The identity that comes back is to be
/// attached to the request; on an error the handler is not to run.
pub fn auth_middleware(cookie_header: Option<&str>, secret: &str) -> (r: Result<
    UserClaims,
    AuthError,
>)
    ensures
        exists|now: i64|
            in_clock_range(now as int) && outcome_view(r) == #[trigger] authorization(
                optional_text(cookie_header),
                secret@,
                now as int,
            ),
{
    let now = unix_now();
    authorize(cookie_header, secret, now)
}

} // verus!
