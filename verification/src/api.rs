//! The decisions behind the HTTP surface: what each handler answers once the
//! credential store has been asked, and with which status.

pub mod memory;
pub mod user;

use vstd::prelude::*;
use crate::api::user::auth::TokenIssueError;
use crate::api::user::ValidationError;
use crate::text::join;

verus! {

/// Status of a request that the client got wrong.
pub const BAD_REQUEST: u16 = 400;

/// Status of a request for something that does not exist.
pub const NOT_FOUND: u16 = 404;

/// Status of a request that failed on the server's side.
pub const INTERNAL_SERVER_ERROR: u16 = 500;

/// A value that is sent as a JSON body.
#[derive(Debug)]
pub struct Json<T>(pub T);

/// What a handler answers: a JSON body, or an error.
pub type ApiResult<T> = Result<Json<T>, AppError>;

/// A body that holds one message for the user.
#[derive(Debug)]
pub struct MessageResponse {
    message: String,
}

impl View for MessageResponse {
    type V = Seq<char>;

    closed spec fn view(&self) -> Seq<char> {
        self.message@
    }
}

impl MessageResponse {
    /// The body that says `message`.
    pub fn new(message: &str) -> (r: Json<MessageResponse>)
        ensures
            r.0@ == message@,
    {
        let msg = MessageResponse { message: message.to_owned() };
        Json(msg)
    }

    /// The message of the body.
    pub fn message(&self) -> (r: &str)
        ensures
            r@ == self@,
    {
        self.message.as_str()
    }
}

/// Why a handler could not do what was asked.
#[derive(Debug)]
pub enum AppError {
    /// The client's request was refused.
    Validation(ValidationError),
    /// The store failed; the text is the cause as the store reported it.
    IO(String),
    /// No session token could be issued.
    Token(TokenIssueError),
}

impl AppError {
    /// The HTTP status that reports this error: 400 for a refused request,
    /// 500 for everything that went wrong on the server.
    pub open spec fn spec_status_code(self) -> u16 {
        match self {
            AppError::Validation(_) => BAD_REQUEST,
            AppError::IO(_) => INTERNAL_SERVER_ERROR,
            AppError::Token(_) => INTERNAL_SERVER_ERROR,
        }
    }

    /// The message that is sent to the client. For a failure on the server it
    /// is the same whatever the cause.
    pub open spec fn spec_message(self) -> Seq<char> {
        match self {
            AppError::Validation(e) => e.spec_message(),
            AppError::IO(_) => "Error during IO operation"@,
            AppError::Token(_) => "Failed to encode JWT"@,
        }
    }

    /// The line that is written to the server's log: the message, and for a
    /// failure of the store its cause.
    pub open spec fn spec_log_line(self) -> Seq<char> {
        match self {
            AppError::Validation(e) => e.spec_message(),
            AppError::IO(cause) => "Error during IO operation: "@ + cause@,
            AppError::Token(_) => "Failed to encode JWT"@,
        }
    }

    /// The status as a number.
    pub fn status_code(&self) -> (r: u16)
        ensures
            r == self.spec_status_code(),
    {
        match self {
            AppError::Validation(_) => BAD_REQUEST,
            AppError::IO(_) => INTERNAL_SERVER_ERROR,
            AppError::Token(_) => INTERNAL_SERVER_ERROR,
        }
    }

    /// The client's message as a text of its own.
    pub fn message(&self) -> (r: String)
        ensures
            r@ == self.spec_message(),
    {
        match self {
            AppError::Validation(e) => e.message(),
            AppError::IO(_) => "Error during IO operation".to_owned(),
            AppError::Token(_) => "Failed to encode JWT".to_owned(),
        }
    }

    /// The log line as a text of its own.
    pub fn log_line(&self) -> (r: String)
        ensures
            r@ == self.spec_log_line(),
    {
        match self {
            AppError::Validation(e) => e.message(),
            AppError::IO(cause) => join("Error during IO operation: ", cause.as_str()),
            AppError::Token(_) => "Failed to encode JWT".to_owned(),
        }
    }

    /// The response that reports this error: its status and the body with its
    /// message.
    pub fn into_response(self) -> (r: (u16, Json<MessageResponse>))
        ensures
            r.0 == self.spec_status_code(),
            r.1.0@ == self.spec_message(),
    {
        let code = self.status_code();
        let message = self.message();
        (code, MessageResponse::new(message.as_str()))
    }
}

/// The answer to a request for a path that no handler serves.
pub fn not_found() -> (r: (u16, Json<MessageResponse>))
    ensures
        r.0 == NOT_FOUND,
        r.1.0@ == "The requested resource could not be found."@,
{
    (NOT_FOUND, MessageResponse::new("The requested resource could not be found."))
}

/// What a handler answers after it asked the store to write: `success` if
/// the store did, and otherwise the store's failure with its cause.
pub fn store_reply(stored: Result<(), String>, success: &str) -> (r: ApiResult<MessageResponse>)
    ensures
        match stored {
            Ok(_) => r matches Ok(body) && body.0@ == success@,
            Err(cause) => r matches Err(AppError::IO(text)) && text@ == cause@,
        },
{
    match stored {
        Ok(_) => Ok(MessageResponse::new(success)),
        Err(cause) => Err(AppError::IO(cause)),
    }
}

} // verus!
