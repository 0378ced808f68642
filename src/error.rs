//! Errors that the remote service reports to its callers, with their texts and
//! HTTP status codes.

use vstd::prelude::*;

verus! {

/// The body of an error reply.
#[derive(Clone, Debug)]
pub struct ErrorResponse {
    pub status: String,
    pub message: String,
}

/// The body of a reply: `status` is `fail` for an error of the caller and
/// `error` for one of the service.
#[derive(Clone, Debug)]
pub struct Response {
    pub status: String,
    pub message: String,
}

/// The errors that have a fixed text.
#[derive(Clone, Copy, Debug, PartialEq, Eq, Structural)]
pub enum ErrorMessage {
    InvalidToken,
    ServerError,
    WrongCredentials,
    EmailExist,
    UserNoLongerExist,
    TokenNotProvided,
    FileNotFound,
}

/// The text of each error.
pub open spec fn message_text(m: ErrorMessage) -> Seq<char> {
    match m {
        ErrorMessage::ServerError => "Server Error. Please try again later"@,
        ErrorMessage::WrongCredentials => "Email or password is wrong"@,
        ErrorMessage::EmailExist => "A User with this email already exists"@,
        ErrorMessage::UserNoLongerExist => "User belonging to this token no longer exists"@,
        ErrorMessage::InvalidToken => "Authentication token is invalid or expired"@,
        ErrorMessage::TokenNotProvided => "You are not logged in, please provide token"@,
        ErrorMessage::FileNotFound => "File not found"@,
    }
}

impl ErrorMessage {
    /// The text of this error.
    pub fn to_str(&self) -> (r: String)
        ensures
            r@ == message_text(*self),
    {
        match self {
            ErrorMessage::ServerError => "Server Error. Please try again later".to_owned(),
            ErrorMessage::WrongCredentials => "Email or password is wrong".to_owned(),
            ErrorMessage::EmailExist => "A User with this email already exists".to_owned(),
            ErrorMessage::UserNoLongerExist => "User belonging to this token no longer exists".to_owned(),
            ErrorMessage::InvalidToken => "Authentication token is invalid or expired".to_owned(),
            ErrorMessage::TokenNotProvided => "You are not logged in, please provide token".to_owned(),
            ErrorMessage::FileNotFound => "File not found".to_owned(),
        }
    }

    /// The text of this error.
    pub fn to_string(&self) -> (r: String)
        ensures
            r@ == message_text(*self),
    {
        self.to_str()
    }
}

/// An error with its HTTP status code.
#[derive(Clone, Debug)]
pub struct HttpError {
    pub message: String,
    pub status: u16,
}

/// What a reply made of an error says: the status code, and whether the fault
/// is the caller's (`fail`) or the service's (`error`). A code without its own
/// reply becomes a 500 with the text of `ServerError`.
pub open spec fn reply_spec(status: u16, message: Seq<char>) -> (u16, Seq<char>, Seq<char>) {
    if status == 400 || status == 401 || status == 404 || status == 409 {
        (status, "fail"@, message)
    } else if status == 500 {
        (500, "error"@, message)
    } else {
        (500, "error"@, message_text(ErrorMessage::ServerError))
    }
}

impl HttpError {
    /// A 409: the request conflicts with what exists.
    pub fn conflict_error(message: String) -> (r: HttpError)
        ensures
            r.status == 409,
            r.message@ == message@,
    {
        HttpError { message, status: 409 }
    }

    /// A 500: the service failed.
    pub fn server_error(message: String) -> (r: HttpError)
        ensures
            r.status == 500,
            r.message@ == message@,
    {
        HttpError { message, status: 500 }
    }

    /// A 400: the request is wrong.
    pub fn bad_request(message: String) -> (r: HttpError)
        ensures
            r.status == 400,
            r.message@ == message@,
    {
        HttpError { message, status: 400 }
    }

    /// A 404: what was asked for does not exist.
    pub fn not_found(message: String) -> (r: HttpError)
        ensures
            r.status == 404,
            r.message@ == message@,
    {
        HttpError { message, status: 404 }
    }

    /// The status code and the body of the reply that reports this error.
    pub fn into_http_response(self) -> (r: (u16, Response))
        ensures
            (r.0, r.1.status@, r.1.message@) == reply_spec(self.status, self.message@),
    {
        let s = self.status;
        if s == 400 || s == 401 || s == 404 || s == 409 {
            (s, Response { status: "fail".to_owned(), message: self.message })
        } else if s == 500 {
            (500, Response { status: "error".to_owned(), message: self.message })
        } else {
            (500, Response { status: "error".to_owned(), message: ErrorMessage::ServerError.to_str() })
        }
    }
}

} // verus!
