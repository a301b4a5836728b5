//! Signed tokens as the `jsonwebtoken` crate writes and reads them, and the
//! system clock. Everything in this module that touches the crate is believed,
//! not proved; the contracts say exactly what is believed.

use vstd::prelude::*;

verus! {

/// A parsed JSON document of `serde_json`, carried through unread.
#[verifier::external_type_specification]
#[verifier::external_body]
pub struct ExJsonValue(serde_json::Value);

/// The error type of `jsonwebtoken`, carried through unread.
#[verifier::external_type_specification]
#[verifier::external_body]
pub struct ExJwtError(jsonwebtoken::errors::Error);

/// Why a token was refused before its claims were looked at.
#[derive(Clone, Copy, Debug, PartialEq, Eq)]
pub enum DecodeFailure {
    /// The token was read, and its signature is not the one the secret gives.
    Signature,
    /// Anything else that the decoder refuses: the token does not have three
    /// parts, a part is not base64 or not JSON, the header names another
    /// algorithm, the payload is not shaped as a set of claims, or the
    /// payload carries an audience claim, which this service never writes.
    Structure,
}

/// The claims this library looks for in a payload, each present or not.
#[derive(Debug)]
pub struct RawClaims {
    pub id: Option<String>,
    pub username: Option<String>,
    pub iss: Option<String>,
    pub exp: Option<i64>,
    pub nbf: Option<i64>,
}

/// `RawClaims` as mathematical values.
pub struct RawClaimsView {
    pub id: Option<Seq<char>>,
    pub username: Option<Seq<char>>,
    pub iss: Option<Seq<char>>,
    pub exp: Option<int>,
    pub nbf: Option<int>,
}

/// The view of an optional text.
pub open spec fn text_view(text: Option<String>) -> Option<Seq<char>> {
    match text {
        Some(t) => Some(t@),
        None => None,
    }
}

/// The view of an optional timestamp.
pub open spec fn time_view(time: Option<i64>) -> Option<int> {
    match time {
        Some(t) => Some(t as int),
        None => None,
    }
}

impl View for RawClaims {
    type V = RawClaimsView;

    open spec fn view(&self) -> RawClaimsView {
        RawClaimsView {
            id: text_view(self.id),
            username: text_view(self.username),
            iss: text_view(self.iss),
            exp: time_view(self.exp),
            nbf: time_view(self.nbf),
        }
    }
}

/// The payload in which every claim is present with the given value.
pub open spec fn full_claims(
    id: Seq<char>,
    username: Seq<char>,
    exp: int,
    nbf: int,
    iss: Seq<char>,
) -> RawClaimsView {
    RawClaimsView {
        id: Some(id),
        username: Some(username),
        iss: Some(iss),
        exp: Some(exp),
        nbf: Some(nbf),
    }
}

/// Whether `c` may occur in a token: a letter or digit of base64url, or the
/// dot between the parts.
pub open spec fn is_token_char(c: char) -> bool {
    ('A' <= c && c <= 'Z') || ('a' <= c && c <= 'z') || ('0' <= c && c <= '9') || c == '-' || c
        == '_' || c == '.'
}

/// Whether every character of `text` may occur in a token.
pub open spec fn is_token_text(text: Seq<char>) -> bool {
    forall|i: int| 0 <= i < text.len() ==> is_token_char(#[trigger] text[i])
}

/// The token that `jsonwebtoken::encode` writes, with its default header
/// (HS256), for the payload `{data: {id, username}, exp, nbf, iss}` signed with
/// `secret`.
pub uninterp spec fn jwt_text(
    id: Seq<char>,
    username: Seq<char>,
    exp: int,
    nbf: int,
    iss: Seq<char>,
    secret: Seq<char>,
) -> Seq<char>;

/// What `jsonwebtoken::decode` makes of `token` under `secret` when it checks
/// the structure and the HS256 signature and leaves the claims alone: the
/// claims found in the payload, or why the token was refused.
pub uninterp spec fn jwt_decoded(token: Seq<char>, secret: Seq<char>) -> Result<
    RawClaimsView,
    DecodeFailure,
>;

/// The claims that a JSON payload holds under the keys `data.id`,
/// `data.username`, `iss`, `exp` and `nbf`. A text claim is present where the
/// key holds a JSON string, a time claim where it holds an integer that fits
/// in 64 bits with sign.
pub uninterp spec fn claims_in(payload: serde_json::Value) -> RawClaimsView;

/// Builds the payload `{data: {id, username}, exp, nbf, iss}` and calls
/// `jsonwebtoken::encode` on it with the default header and `secret` as the
/// HMAC key.
///
/// The call succeeds on every input. The crate refuses a key that does not
/// fit the header's algorithm, and a secret fits HS256; it fails where a part
/// cannot be written as JSON, and the default header and a payload of texts
/// and integers under text keys always can; its HMAC signing has no error.
/// HMAC draws no randomness, so the token depends on the arguments alone;
/// `jwt_text` names it. The crate writes a token as three parts in unpadded
/// base64url, joined by dots.
#[verifier::external_body]
pub(crate) fn encode_hs256(
    id: &str,
    username: &str,
    exp: i64,
    nbf: i64,
    iss: &str,
    secret: &str,
) -> (r: Result<String, jsonwebtoken::errors::Error>)
    ensures
        r is Ok,
        r matches Ok(token) ==> token@ == jwt_text(
            id@,
            username@,
            exp as int,
            nbf as int,
            iss@,
            secret@,
        ),
        r matches Ok(token) ==> is_token_text(token@),
{
    let data = serde_json::Value::from_iter([("id", id), ("username", username)]);
    let payload = serde_json::Value::from_iter(
        [("data", data), ("exp", exp.into()), ("nbf", nbf.into()), ("iss", iss.into())],
    );
    let key = jsonwebtoken::EncodingKey::from_secret(secret.as_bytes());
    jsonwebtoken::encode(&jsonwebtoken::Header::default(), &payload, &key)
}

/// Calls `jsonwebtoken::decode` for HS256 with `secret` as the HMAC key. The
/// crate's own checks of `exp` and of required claims are switched off, so the
/// clock is not consulted and the answer depends on the two texts alone;
/// `jwt_decoded` names it. The crate's check of the audience stays on: with no
/// audience expected, it refuses a payload that carries an `aud` claim. The
/// crate's error is reduced to whether it reports a signature mismatch.
///
/// The second clause is the round trip of the crate: a token that
/// `jsonwebtoken::encode` wrote for a payload, under the same secret, is
/// accepted and yields that payload. The crate's `decode` recomputes the HMAC
/// over the first two parts with the key it is given and compares it with the
/// third, and parses the JSON that `encode` serialised.
#[verifier::external_body]
pub(crate) fn decode_hs256(token: &str, secret: &str) -> (r: Result<
    serde_json::Value,
    DecodeFailure,
>)
    ensures
        match r {
            Ok(payload) => jwt_decoded(token@, secret@) == Ok::<RawClaimsView, DecodeFailure>(
                claims_in(payload),
            ),
            Err(failure) => jwt_decoded(token@, secret@) == Err::<RawClaimsView, DecodeFailure>(
                failure,
            ),
        },
        forall|id: Seq<char>, username: Seq<char>, exp: i64, nbf: i64, iss: Seq<char>|
            token@ == #[trigger] jwt_text(id, username, exp as int, nbf as int, iss, secret@)
                ==> r is Ok && claims_in(r.unwrap()) == full_claims(
                id,
                username,
                exp as int,
                nbf as int,
                iss,
            ),
{
    let mut rules = jsonwebtoken::Validation::new(jsonwebtoken::Algorithm::HS256);
    rules.validate_exp = false;
    rules.required_spec_claims.clear();
    let key = jsonwebtoken::DecodingKey::from_secret(secret.as_bytes());
    match jsonwebtoken::decode::<serde_json::Value>(token, &key, &rules) {
        Ok(found) => Ok(found.claims),
        Err(e) => match e.kind() {
            jsonwebtoken::errors::ErrorKind::InvalidSignature => Err(DecodeFailure::Signature),
            _ => Err(DecodeFailure::Structure),
        },
    }
}

/// Reads the five claims out of a payload with `serde_json`'s lookups
/// (`Index`, `as_str`, `as_i64`), which give nothing for a missing key or a
/// value of another type.
#[verifier::external_body]
pub(crate) fn read_claims(payload: &serde_json::Value) -> (r: RawClaims)
    ensures
        r@ == claims_in(*payload),
{
    RawClaims {
        id: payload["data"]["id"].as_str().map(String::from),
        username: payload["data"]["username"].as_str().map(String::from),
        iss: payload["iss"].as_str().map(String::from),
        exp: payload["exp"].as_i64(),
        nbf: payload["nbf"].as_i64(),
    }
}

/// A bound that no timestamp of `chrono` reaches: two to the power 48.
pub const CLOCK_LIMIT: i64 = 281_474_976_710_656;

/// Whether `now` is a time that the clock can show.
pub open spec fn in_clock_range(now: int) -> bool {
    -CLOCK_LIMIT < now < CLOCK_LIMIT
}

/// Reads the system clock with `std::time::SystemTime::now`, turns it into a
/// `chrono::DateTime<Utc>` and gives the whole seconds since the Unix epoch,
/// negative for a clock that stands before 1970. `DateTime::timestamp`
/// computes them from a day number of 32 bits, less 719163, times 86400, plus
/// the seconds of the day, also of 32 bits. So the value stays below two to
/// the power 48 in size; nothing else is claimed about it.
#[verifier::external_body]
pub(crate) fn unix_now() -> (now: i64)
    ensures
        in_clock_range(now as int),
{
    chrono::DateTime::<chrono::Utc>::from(std::time::SystemTime::now()).timestamp()
}

} // verus!
