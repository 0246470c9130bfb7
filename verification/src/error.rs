//! The service's error type, its wire code and its status class.

use vstd::prelude::*;

verus! {

pub type Result<T> = std::result::Result<T, Error>;

#[derive(Debug, Clone, PartialEq, Eq)]
pub enum Error {
    Unauthenticated,
    Unauthorized,
    CredentialsInvalid,
    UnavailableIdent,
    MissingIdent,
    JwtMalformed,
    JwtExpired,
    JwtInvalid,
    WsInitNotObject,
    WsInitTokenNotString,
    /// A cursor that is not the encoding of any key.
    CursorMalformed(String),
    /// Pagination arguments that no page can be served for.
    PaginationInvalid(String),
    ServerMisconfigured(String),
    InternalServerError(String),
    NotImplemented,
}

/// What is sent to a client in place of an [`Error`].
#[derive(Debug, Clone, PartialEq, Eq)]
pub struct ErrorData {
    pub code: String,
    pub message: String,
}

impl Error {
    /// The name of the variant, which is the code a client sees.
    pub open spec fn code_text(&self) -> Seq<char> {
        match self {
            Error::Unauthenticated => "Unauthenticated"@,
            Error::Unauthorized => "Unauthorized"@,
            Error::CredentialsInvalid => "CredentialsInvalid"@,
            Error::UnavailableIdent => "UnavailableIdent"@,
            Error::MissingIdent => "MissingIdent"@,
            Error::JwtMalformed => "JwtMalformed"@,
            Error::JwtExpired => "JwtExpired"@,
            Error::JwtInvalid => "JwtInvalid"@,
            Error::WsInitNotObject => "WsInitNotObject"@,
            Error::WsInitTokenNotString => "WsInitTokenNotString"@,
            Error::CursorMalformed(_) => "CursorMalformed"@,
            Error::PaginationInvalid(_) => "PaginationInvalid"@,
            Error::ServerMisconfigured(_) => "ServerMisconfigured"@,
            Error::InternalServerError(_) => "InternalServerError"@,
            Error::NotImplemented => "NotImplemented"@,
        }
    }

    /// The sentence that describes the error. A rejected request is described by the reason
    /// it carries; the detail of a server-side failure is not shown.
    pub open spec fn message_text(&self) -> Seq<char> {
        match self {
            Error::Unauthenticated => "Unauthenticated"@,
            Error::Unauthorized => "Unauthorized"@,
            Error::CredentialsInvalid => "Credentials are invalid"@,
            Error::UnavailableIdent => "This identifier is already in use"@,
            Error::MissingIdent => "Missing identifier"@,
            Error::JwtMalformed => "JWT is malformed"@,
            Error::JwtExpired => "JWT is expired"@,
            Error::JwtInvalid => "JWT is invalid"@,
            Error::WsInitNotObject => "GraphQL WebSocket init must be an object, null, or undefined"@,
            Error::WsInitTokenNotString => "GraphQL WebSocket init `token` must be a string or undefined"@,
            Error::CursorMalformed(reason) => reason@,
            Error::PaginationInvalid(reason) => reason@,
            Error::ServerMisconfigured(_) => "The server is misconfigured"@,
            Error::InternalServerError(_) => "An internal server error occurred"@,
            Error::NotImplemented => "Feature is not implemented yet"@,
        }
    }

    /// The HTTP status class of the variant.
    pub open spec fn status(&self) -> int {
        match self {
            Error::Unauthenticated
            | Error::CredentialsInvalid
            | Error::JwtExpired
            | Error::JwtInvalid => 401,
            Error::Unauthorized => 403,
            Error::UnavailableIdent => 409,
            Error::MissingIdent
            | Error::JwtMalformed
            | Error::WsInitNotObject
            | Error::WsInitTokenNotString
            | Error::CursorMalformed(_)
            | Error::PaginationInvalid(_) => 400,
            Error::ServerMisconfigured(_)
            | Error::InternalServerError(_)
            | Error::NotImplemented => 500,
        }
    }

    /// An internal error that carries the text `err` is displayed as.
    pub fn from_err<T>(err: T) -> (e: Self)
        where T: std::fmt::Display
        ensures
            e matches Error::InternalServerError(text)
                && vstd::string::to_string_from_display_ensures::<T>(&err, text),
    {
        Error::InternalServerError(err.to_string())
    }

    pub fn code(&self) -> (code: String)
        ensures
            code@ == self.code_text(),
    {
        match self {
            Error::Unauthenticated => "Unauthenticated".to_owned(),
            Error::Unauthorized => "Unauthorized".to_owned(),
            Error::CredentialsInvalid => "CredentialsInvalid".to_owned(),
            Error::UnavailableIdent => "UnavailableIdent".to_owned(),
            Error::MissingIdent => "MissingIdent".to_owned(),
            Error::JwtMalformed => "JwtMalformed".to_owned(),
            Error::JwtExpired => "JwtExpired".to_owned(),
            Error::JwtInvalid => "JwtInvalid".to_owned(),
            Error::WsInitNotObject => "WsInitNotObject".to_owned(),
            Error::WsInitTokenNotString => "WsInitTokenNotString".to_owned(),
            Error::CursorMalformed(_) => "CursorMalformed".to_owned(),
            Error::PaginationInvalid(_) => "PaginationInvalid".to_owned(),
            Error::ServerMisconfigured(_) => "ServerMisconfigured".to_owned(),
            Error::InternalServerError(_) => "InternalServerError".to_owned(),
            Error::NotImplemented => "NotImplemented".to_owned(),
        }
    }

    /// The sentence shown to a client.
    pub fn message(&self) -> (message: String)
        ensures
            message@ == self.message_text(),
    {
        match self {
            Error::Unauthenticated => "Unauthenticated".to_owned(),
            Error::Unauthorized => "Unauthorized".to_owned(),
            Error::CredentialsInvalid => "Credentials are invalid".to_owned(),
            Error::UnavailableIdent => "This identifier is already in use".to_owned(),
            Error::MissingIdent => "Missing identifier".to_owned(),
            Error::JwtMalformed => "JWT is malformed".to_owned(),
            Error::JwtExpired => "JWT is expired".to_owned(),
            Error::JwtInvalid => "JWT is invalid".to_owned(),
            Error::WsInitNotObject => {
                "GraphQL WebSocket init must be an object, null, or undefined".to_owned()
            },
            Error::WsInitTokenNotString => {
                "GraphQL WebSocket init `token` must be a string or undefined".to_owned()
            },
            Error::CursorMalformed(reason) => reason.clone(),
            Error::PaginationInvalid(reason) => reason.clone(),
            Error::ServerMisconfigured(_) => "The server is misconfigured".to_owned(),
            Error::InternalServerError(_) => "An internal server error occurred".to_owned(),
            Error::NotImplemented => "Feature is not implemented yet".to_owned(),
        }
    }

    pub fn as_status_code(&self) -> (status: u16)
        ensures
            status == self.status(),
    {
        match self {
            Error::Unauthenticated
            | Error::CredentialsInvalid
            | Error::JwtExpired
            | Error::JwtInvalid => 401,
            Error::Unauthorized => 403,
            Error::UnavailableIdent => 409,
            Error::MissingIdent
            | Error::JwtMalformed
            | Error::WsInitNotObject
            | Error::WsInitTokenNotString
            | Error::CursorMalformed(_)
            | Error::PaginationInvalid(_) => 400,
            Error::ServerMisconfigured(_)
            | Error::InternalServerError(_)
            | Error::NotImplemented => 500,
        }
    }

    /// Code and message together, as a response body holds them.
    pub fn data(&self) -> (data: ErrorData)
        ensures
            data.code@ == self.code_text(),
            data.message@ == self.message_text(),
    {
        ErrorData { code: self.code(), message: self.message() }
    }
}

} // verus!
