//! Errors as the HTTP surface reports them.
use vstd::prelude::*;
use vstd::string::StringExecFns;

verus! {

pub const STATUS_BAD_REQUEST: u16 = 400;

pub const STATUS_UNAUTHORIZED: u16 = 401;

pub const STATUS_FORBIDDEN: u16 = 403;

pub const STATUS_CONFLICT: u16 = 409;

pub const STATUS_SERVER_ERROR: u16 = 500;

/// The fixed messages of the service.
#[derive(Debug, Clone, Copy, PartialEq, Eq, Structural)]
pub enum ErrorMessage {
    WrongCredentials,
    EmailExist,
    UserNoLongerExist,
    TokenNotProvided,
    InvalidToken,
    TokenExpired,
    ResetTokenInvalid,
    VerificationLinkExpired,
    EmailNotFound,
    EmailNotRegistered,
    EmailAlreadyVerified,
    PermissionDenied,
    UserNotAuthenticated,
    ServerError,
}

impl ErrorMessage {
    /// The message's text.
    pub open spec fn text(self) -> Seq<char> {
        match self {
            ErrorMessage::WrongCredentials => "Email or password is wrong"@,
            ErrorMessage::EmailExist => "A user with this email already exists"@,
            ErrorMessage::UserNoLongerExist => "User belonging to this token no longer exists"@,
            ErrorMessage::TokenNotProvided => "You are not logged in, please provide a token"@,
            ErrorMessage::InvalidToken => "Authentication token is invalid or expired"@,
            ErrorMessage::TokenExpired => "Verification token has expired"@,
            ErrorMessage::ResetTokenInvalid => "Invalid or expired token"@,
            ErrorMessage::VerificationLinkExpired => "验证链接已过期，请重新发送验证邮件"@,
            ErrorMessage::EmailNotFound => "Email not found!"@,
            ErrorMessage::EmailNotRegistered => "邮箱地址未注册"@,
            ErrorMessage::EmailAlreadyVerified => "邮箱已经验证过了"@,
            ErrorMessage::PermissionDenied => "You are not allowed to perform this action"@,
            ErrorMessage::UserNotAuthenticated => "Authentication required. Please log in."@,
            ErrorMessage::ServerError => "Server Error. Please try again later"@,
        }
    }

    pub fn to_str(&self) -> (r: &'static str)
        ensures
            r@ == self.text(),
    {
        match self {
            ErrorMessage::WrongCredentials => "Email or password is wrong",
            ErrorMessage::EmailExist => "A user with this email already exists",
            ErrorMessage::UserNoLongerExist => "User belonging to this token no longer exists",
            ErrorMessage::TokenNotProvided => "You are not logged in, please provide a token",
            ErrorMessage::InvalidToken => "Authentication token is invalid or expired",
            ErrorMessage::TokenExpired => "Verification token has expired",
            ErrorMessage::ResetTokenInvalid => "Invalid or expired token",
            ErrorMessage::VerificationLinkExpired => "验证链接已过期，请重新发送验证邮件",
            ErrorMessage::EmailNotFound => "Email not found!",
            ErrorMessage::EmailNotRegistered => "邮箱地址未注册",
            ErrorMessage::EmailAlreadyVerified => "邮箱已经验证过了",
            ErrorMessage::PermissionDenied => "You are not allowed to perform this action",
            ErrorMessage::UserNotAuthenticated => "Authentication required. Please log in.",
            ErrorMessage::ServerError => "Server Error. Please try again later",
        }
    }

    pub fn to_string(&self) -> (r: String)
        ensures
            r@ == self.text(),
    {
        String::from_str(self.to_str())
    }
}

/// Whether `r` failed with an error of status `status`.
pub open spec fn fails_with<T>(r: Result<T, HttpError>, status: u16) -> bool {
    match r {
        Err(e) => e.status == status,
        Ok(_) => false,
    }
}

/// Whether `r` failed with status `status` and message `text`.
pub open spec fn fails_with_message<T>(r: Result<T, HttpError>, status: u16, text: Seq<char>) -> bool {
    match r {
        Err(e) => e.status == status && e.message@ == text,
        Ok(_) => false,
    }
}

/// An error with the HTTP status that reports it.
#[derive(Debug)]
pub struct HttpError {
    pub message: String,
    pub status: u16,
}

impl HttpError {
    pub fn new(message: String, status: u16) -> (r: Self)
        ensures
            r.message == message,
            r.status == status,
    {
        HttpError { message, status }
    }

    pub fn server_error(message: String) -> (r: Self)
        ensures
            r.message == message,
            r.status == STATUS_SERVER_ERROR,
    {
        HttpError { message, status: STATUS_SERVER_ERROR }
    }

    pub fn bad_request(message: String) -> (r: Self)
        ensures
            r.message == message,
            r.status == STATUS_BAD_REQUEST,
    {
        HttpError { message, status: STATUS_BAD_REQUEST }
    }

    pub fn unique_constraint_violation(message: String) -> (r: Self)
        ensures
            r.message == message,
            r.status == STATUS_CONFLICT,
    {
        HttpError { message, status: STATUS_CONFLICT }
    }

    pub fn unauthorized(message: String) -> (r: Self)
        ensures
            r.message == message,
            r.status == STATUS_UNAUTHORIZED,
    {
        HttpError { message, status: STATUS_UNAUTHORIZED }
    }

    pub fn forbidden(message: String) -> (r: Self)
        ensures
            r.message == message,
            r.status == STATUS_FORBIDDEN,
    {
        HttpError { message, status: STATUS_FORBIDDEN }
    }
}

} // verus!
