//! Registration, login and the session that login opens.

pub mod auth;
pub mod cookie;
pub mod jwt;

use vstd::prelude::*;
use crate::api::user::auth::{
    claims_of, issue_outcome, issue_token, TokenIssueError, UserClaims, UserClaimsView,
    TOKEN_COOKIE, TOKEN_LIFETIME,
};
use crate::api::user::cookie::{set_cookie_text, SameSite, SessionCookie, SessionCookieView};
use crate::api::user::jwt::{in_clock_range, is_token_text, unix_now};
use crate::api::{store_reply, ApiResult, AppError, MessageResponse, BAD_REQUEST};
use crate::infra::dto::{ReadHashedUser, UserSignin, UserSignup};
use crate::infra::password::{password_check, verify_password, HashFormatError};
use crate::text::join;

verus! {

/// Why a request of a client was refused.
#[derive(Debug)]
pub enum ValidationError {
    /// Registration under a name that is in use.
    UsernameAlreadyTaken,
    /// Login with an unknown name or a wrong password; which of the two is
    /// not told.
    InvalidCredentials,
    /// The stored hash of the user cannot be read.
    InvalidPasswordFormat(HashFormatError),
    /// The body of the request is not what the handler takes; the text says
    /// why.
    InvalidJsonBodyParameters(String),
}

impl ValidationError {
    /// The message that tells the client about this error.
    pub open spec fn spec_message(self) -> Seq<char> {
        match self {
            ValidationError::UsernameAlreadyTaken => "Username already exists"@,
            ValidationError::InvalidCredentials => "Invalid username or password"@,
            ValidationError::InvalidPasswordFormat(_) => "Password in invalid format"@,
            ValidationError::InvalidJsonBodyParameters(why) => "Invalid json body parameters: "@
                + why@,
        }
    }

    /// The message as a text of its own.
    pub fn message(&self) -> (r: String)
        ensures
            r@ == self.spec_message(),
    {
        match self {
            ValidationError::UsernameAlreadyTaken => "Username already exists".to_owned(),
            ValidationError::InvalidCredentials => "Invalid username or password".to_owned(),
            ValidationError::InvalidPasswordFormat(_) => "Password in invalid format".to_owned(),
            ValidationError::InvalidJsonBodyParameters(why) => join(
                "Invalid json body parameters: ",
                why.as_str(),
            ),
        }
    }
}

/// The failure of a handler that refuses the client's request with `err`.
pub fn bail<T>(err: ValidationError) -> (r: Result<T, AppError>)
    ensures
        r matches Err(AppError::Validation(e)) && e == err,
{
    Err(AppError::Validation(err))
}

/// Decides a registration once the store has been asked for the username:
/// `existing` is what it found. A name that is in use is refused, and then
/// nothing is handed back that could be stored; otherwise the credentials come
/// back unchanged, to be hashed and inserted.
pub fn signup(user: UserSignup, existing: Option<ReadHashedUser>) -> (r: Result<
    UserSignup,
    AppError,
>)
    ensures
        existing is Some ==> r matches Err(
            AppError::Validation(ValidationError::UsernameAlreadyTaken),
        ),
        existing is None ==> (r matches Ok(accepted) && accepted == user),
{
    if existing.is_some() {
        return bail(ValidationError::UsernameAlreadyTaken);
    }
    Ok(user)
}

/// The answer to a registration once the store has been asked to insert.
pub fn signup_reply(stored: Result<(), String>) -> (r: ApiResult<MessageResponse>)
    ensures
        match stored {
            Ok(_) => r matches Ok(body) && body.0@ == "User registered successfully"@,
            Err(cause) => r matches Err(AppError::IO(text)) && text@ == cause@,
        },
{
    store_reply(stored, "User registered successfully")
}

/// What a login is answered once its password was checked against the hash
/// of the stored user: the user where the password is right,
/// `InvalidCredentials` where it is wrong, and `InvalidPasswordFormat` where
/// the stored hash cannot be read.
pub open spec fn admission(stored: ReadHashedUser, checked: Result<bool, HashFormatError>) -> Result<
    ReadHashedUser,
    ValidationError,
> {
    match checked {
        Err(format) => Err(ValidationError::InvalidPasswordFormat(format)),
        Ok(false) => Err(ValidationError::InvalidCredentials),
        Ok(true) => Ok(stored),
    }
}

/// Decides a login from the verdict of the password check.
pub fn decide_login(stored: ReadHashedUser, checked: Result<bool, HashFormatError>) -> (r: Result<
    ReadHashedUser,
    ValidationError,
>)
    ensures
        r == admission(stored, checked),
{
    match checked {
        Err(format) => Err(ValidationError::InvalidPasswordFormat(format)),
        Ok(false) => Err(ValidationError::InvalidCredentials),
        Ok(true) => Ok(stored),
    }
}

/// Whom a login authenticates. `found` is what the store holds under the
/// username. An unknown name and a wrong password are refused alike; a stored
/// hash that cannot be read is reported as such.
pub open spec fn authentication(password: Seq<char>, found: Option<ReadHashedUser>) -> Result<
    ReadHashedUser,
    ValidationError,
> {
    match found {
        None => Err(ValidationError::InvalidCredentials),
        Some(stored) => admission(stored, password_check(password, stored.password@)),
    }
}

/// Checks the credentials of a login against what the store found.
pub fn authenticate(user: &UserSignin, found: Option<ReadHashedUser>) -> (r: Result<
    ReadHashedUser,
    ValidationError,
>)
    ensures
        r == authentication(user.password@, found),
{
    match found {
        None => Err(ValidationError::InvalidCredentials),
        Some(stored) => {
            let checked = verify_password(user.password.as_str(), stored.password.as_str());
            decide_login(stored, checked)
        },
    }
}

/// A login with a wrong password and a login under a name that does not
/// exist are refused with the same error, and so with the same status and the
/// same message.
pub proof fn lemma_login_refusals_alike(password: Seq<char>, stored: ReadHashedUser)
    requires
        password_check(password, stored.password@) == Ok::<bool, HashFormatError>(false),
    ensures
        authentication(password, Some(stored)) == authentication(password, None),
        authentication(password, None) == Err::<ReadHashedUser, ValidationError>(
            ValidationError::InvalidCredentials,
        ),
        AppError::Validation(ValidationError::InvalidCredentials).spec_status_code()
            == BAD_REQUEST,
        AppError::Validation(ValidationError::InvalidCredentials).spec_message()
            == "Invalid username or password"@,
{
}

/// The cookie that carries `token`: sent back only to this site, only over
/// HTTPS, hidden from scripts, for every path, and without an expiry of its
/// own.
pub open spec fn session_cookie(token: Seq<char>) -> SessionCookieView {
    SessionCookieView {
        name: TOKEN_COOKIE@,
        value: token,
        http_only: true,
        secure: true,
        same_site: SameSite::Strict,
        path: "/"@,
    }
}

/// The value of the `Set-Cookie` header that opens a session with `token`.
pub fn session_cookie_header(token: String) -> (r: String)
    ensures
        r@ == set_cookie_text(session_cookie(token@)),
{
    let cookie = SessionCookie {
        name: TOKEN_COOKIE.to_owned(),
        value: token,
        http_only: true,
        secure: true,
        same_site: SameSite::Strict,
        path: "/".to_owned(),
    };
    cookie.header_value()
}

/// Whether `answer` is what a login answers once `who` is authenticated and
/// a token is issued at `now`: the `Set-Cookie` value that carries the token,
/// which is written in the characters of a token, or the reason why no token
/// could be issued.
pub open spec fn session_opened(
    answer: Result<String, AppError>,
    who: UserClaimsView,
    secret: Seq<char>,
    now: int,
) -> bool {
    match issue_outcome(who, secret, now) {
        Ok(token) => answer matches Ok(header) && header@ == set_cookie_text(session_cookie(token))
            && is_token_text(token),
        Err(cause) => answer matches Err(AppError::Token(e)) && e == cause,
    }
}

/// Decides a login at the time `now`, once the store has been asked for the
/// username. Credentials that do not authenticate are refused as
/// `authentication` says. Otherwise the answer is the value of the
/// `Set-Cookie` header that carries the token issued to the user at `now`, or
/// `ClockOutOfRange` where `issue_token` gave none. So the login succeeds
/// exactly when the credentials authenticate and the hour of the token fits
/// in a timestamp.
pub fn signin_at(user: UserSignin, found: Option<ReadHashedUser>, secret: &str, now: i64) -> (r:
    Result<String, AppError>)
    ensures
        match authentication(user.password@, found) {
            Err(refusal) => r matches Err(AppError::Validation(e)) && e == refusal,
            Ok(stored) => session_opened(r, claims_of(stored), secret@, now as int),
        },
        r is Ok <==> authentication(user.password@, found) is Ok && now + TOKEN_LIFETIME
            <= i64::MAX,
{
    let stored = match authenticate(&user, found) {
        Ok(stored) => stored,
        Err(refusal) => {
            return bail(refusal);
        },
    };
    let ghost who = claims_of(stored);
    let data = UserClaims { username: stored.username, id: stored.id };
    assert(data@ == who);
    match issue_token(data, secret, now) {
        Ok(token) => Ok(session_cookie_header(token)),
        Err(e) => Err(AppError::Token(e)),
    }
}

/// Decides a login at the present time. The time is read from the clock, and
/// whatever the clock shows, the answer is the one that `signin_at` gives for
/// that time. The login succeeds exactly when the credentials authenticate.
pub fn signin(user: UserSignin, found: Option<ReadHashedUser>, secret: &str) -> (r: Result<
    String,
    AppError,
>)
    ensures
        r is Ok <==> authentication(user.password@, found) is Ok,
        match authentication(user.password@, found) {
            Err(refusal) => r matches Err(AppError::Validation(e)) && e == refusal,
            Ok(stored) => exists|now: i64|
                in_clock_range(now as int) && #[trigger] session_opened(
                    r,
                    claims_of(stored),
                    secret@,
                    now as int,
                ),
        },
{
    let now = unix_now();
    signin_at(user, found, secret, now)
}

} // verus!
