//! Who a request is made by: where its token is, what a token claims, and what is made
//! of a token once it was read.
//!
//! Tokens are signed and read elsewhere. What happens before and after is decided here.

use vstd::prelude::*;
use crate::account::{CurrentAccount, PartialAccount};
use crate::error::Error;
use crate::query::slice::text_of;

verus! {

/// How long an access token is good for, in seconds: a quarter of an hour.
pub const ACCESS_TOKEN_SECONDS: i64 = 900;

/// How long a refresh token is good for, in seconds: thirty days.
pub const REFRESH_TOKEN_SECONDS: i64 = 2592000;

#[derive(Debug, Clone, Copy, PartialEq, Eq, Structural)]
pub enum JwtKind {
    Access,
    Refresh,
}

/// The claims that every token makes.
#[derive(Debug, Clone, Copy, PartialEq, Eq, Structural)]
pub struct JwtClaims {
    /// Expiration time (as UTC timestamp)
    pub exp: i64,
    /// Issued at (as UTC timestamp)
    pub iat: i64,
    /// Not Before (as UTC timestamp)
    pub nbf: i64,
    pub kind: JwtKind,
}

#[derive(Debug, Clone, PartialEq, Eq)]
pub struct RefreshClaims {
    pub id: String,
    pub jwt: JwtClaims,
}

#[derive(Debug, Clone, PartialEq, Eq)]
pub struct AccessClaims {
    pub acc: PartialAccount,
    pub jwt: JwtClaims,
}

/// What a connection that is opened hands over in place of a header.
#[derive(Debug, Clone, PartialEq, Eq)]
pub enum InitValue {
    Null,
    /// An object, with what it holds under `token`, if anything.
    Object(Option<InitToken>),
    /// Anything else.
    Other,
}

#[derive(Debug, Clone, PartialEq, Eq)]
pub enum InitToken {
    Text(String),
    /// Anything that is not text.
    Other,
}

/// Where the token of a request may be.
#[derive(Debug, Clone, PartialEq, Eq)]
pub enum AuthenticateInput {
    /// The bearer token of the authorization header, where there is one.
    Header(Option<String>),
    Init(InitValue),
}

/// Why a token could not be read.
#[derive(Debug, Clone, PartialEq, Eq)]
pub enum JwtFailure {
    InvalidToken,
    InvalidAlgorithmName,
    InvalidKeyFormat,
    InvalidEcdsaKey,
    InvalidRsaKey(String),
    RsaFailedSigning,
    ExpiredSignature,
    Crypto,
    /// Any other reason.
    Other,
}

/// Why the store could not do what it was asked.
#[derive(Debug, Clone, PartialEq, Eq)]
pub enum DbFailure {
    /// The store itself is not set up to work.
    Datastore(String),
    /// A record with this value of a unique index exists.
    IndexExists,
    /// A record with this key exists; the failure in words.
    RecordExists(String),
    /// Any other reason, in words.
    Other(String),
}

impl JwtClaims {
    /// The claims of a token of `kind`, issued at `now` and good for `duration` seconds.
    pub fn new(now: i64, duration: i64, kind: JwtKind) -> (claims: Self)
        requires
            i64::MIN <= now + duration <= i64::MAX,
        ensures
            claims == (JwtClaims { exp: (now + duration) as i64, iat: now, nbf: now, kind }),
    {
        JwtClaims { exp: now + duration, iat: now, nbf: now, kind }
    }
}

impl RefreshClaims {
    /// The claims of a refresh token for the account `id`, issued at `now`.
    pub fn new(id: String, now: i64) -> (claims: Self)
        requires
            now + REFRESH_TOKEN_SECONDS <= i64::MAX,
        ensures
            claims == (RefreshClaims {
                id,
                jwt: JwtClaims {
                    exp: (now + REFRESH_TOKEN_SECONDS) as i64,
                    iat: now,
                    nbf: now,
                    kind: JwtKind::Refresh,
                },
            }),
    {
        RefreshClaims { id, jwt: JwtClaims::new(now, REFRESH_TOKEN_SECONDS, JwtKind::Refresh) }
    }

    pub fn id(&self) -> (id: &str)
        ensures
            id@ == self.id@,
    {
        self.id.as_str()
    }

    pub fn issued_at(&self) -> (at: i64)
        ensures
            at == self.jwt.iat,
    {
        self.jwt.iat
    }
}

impl AccessClaims {
    /// The claims of an access token for `acc`, issued at `now`.
    pub fn new(acc: PartialAccount, now: i64) -> (claims: Self)
        requires
            now + ACCESS_TOKEN_SECONDS <= i64::MAX,
        ensures
            claims == (AccessClaims {
                acc,
                jwt: JwtClaims {
                    exp: (now + ACCESS_TOKEN_SECONDS) as i64,
                    iat: now,
                    nbf: now,
                    kind: JwtKind::Access,
                },
            }),
    {
        AccessClaims { acc, jwt: JwtClaims::new(now, ACCESS_TOKEN_SECONDS, JwtKind::Access) }
    }
}

/// The token that a request carries, if it carries one, or what is wrong with the place
/// where it should be.
pub open spec fn carried(input: AuthenticateInput) -> Result<Option<Seq<char>>, Error> {
    match input {
        AuthenticateInput::Header(header) => Ok(text_of(header)),
        AuthenticateInput::Init(InitValue::Null) => Ok(None),
        AuthenticateInput::Init(InitValue::Other) => Err(Error::WsInitNotObject),
        AuthenticateInput::Init(InitValue::Object(None)) => Ok(None),
        AuthenticateInput::Init(InitValue::Object(Some(InitToken::Other))) => Err(
            Error::WsInitTokenNotString,
        ),
        AuthenticateInput::Init(InitValue::Object(Some(InitToken::Text(token)))) => Ok(
            Some(token@),
        ),
    }
}

/// Finds the token of a request. A header may hold one or none. What a connection hands
/// over must be an object or nothing, and what the object holds under `token` must be
/// text.
pub fn token_of(input: AuthenticateInput) -> (res: Result<Option<String>, Error>)
    ensures
        match res {
            Ok(token) => carried(input) == Ok::<Option<Seq<char>>, Error>(text_of(token)),
            Err(err) => carried(input) == Err::<Option<Seq<char>>, Error>(err),
        },
{
    match input {
        AuthenticateInput::Header(header) => Ok(header),
        AuthenticateInput::Init(init) => match init {
            InitValue::Object(token) => match token {
                Some(InitToken::Text(token)) => Ok(Some(token)),
                Some(InitToken::Other) => Err(Error::WsInitTokenNotString),
                None => Ok(None),
            },
            InitValue::Null => Ok(None),
            InitValue::Other => Err(Error::WsInitNotObject),
        },
    }
}

/// The error that a token that could not be read is answered with.
pub open spec fn jwt_error(failure: JwtFailure, err: Error) -> bool {
    match failure {
        JwtFailure::InvalidToken
        | JwtFailure::InvalidAlgorithmName
        | JwtFailure::InvalidKeyFormat => err is JwtMalformed,
        JwtFailure::InvalidEcdsaKey => err matches Error::ServerMisconfigured(text) && text@
            == "EcDSA key invalid"@,
        JwtFailure::InvalidRsaKey(detail) => err matches Error::ServerMisconfigured(text) && text@
            == "RSA key is invalid: "@ + detail@,
        JwtFailure::RsaFailedSigning => err matches Error::ServerMisconfigured(text) && text@
            == "RSA signing failed"@,
        JwtFailure::ExpiredSignature => err is JwtExpired,
        JwtFailure::Crypto => err matches Error::InternalServerError(text) && text@
            == "JWT crypto error"@,
        JwtFailure::Other => err is JwtInvalid,
    }
}

/// The error that a failure of the store is answered with.
pub open spec fn db_error(failure: DbFailure, err: Error) -> bool {
    match failure {
        DbFailure::Datastore(detail) => err == Error::ServerMisconfigured(detail),
        DbFailure::IndexExists => err is UnavailableIdent,
        DbFailure::RecordExists(detail) => err == Error::InternalServerError(detail),
        DbFailure::Other(detail) => err == Error::InternalServerError(detail),
    }
}

impl Error {
    /// The error for a token that could not be read.
    pub fn from_jwt(failure: JwtFailure) -> (err: Self)
        ensures
            jwt_error(failure, err),
    {
        match failure {
            JwtFailure::InvalidToken
            | JwtFailure::InvalidAlgorithmName
            | JwtFailure::InvalidKeyFormat => Error::JwtMalformed,
            JwtFailure::InvalidEcdsaKey => Error::ServerMisconfigured(
                "EcDSA key invalid".to_owned(),
            ),
            JwtFailure::InvalidRsaKey(detail) => {
                let mut text = "RSA key is invalid: ".to_owned();
                vstd::string::StringExecFns::append(&mut text, detail.as_str());
                Error::ServerMisconfigured(text)
            },
            JwtFailure::RsaFailedSigning => Error::ServerMisconfigured(
                "RSA signing failed".to_owned(),
            ),
            JwtFailure::ExpiredSignature => Error::JwtExpired,
            JwtFailure::Crypto => Error::InternalServerError("JWT crypto error".to_owned()),
            JwtFailure::Other => Error::JwtInvalid,
        }
    }

    /// The error for a failure of the store: a store that is not set up is a
    /// misconfiguration, a value of a unique index that exists is an identifier that is
    /// taken, and all else is an internal error.
    pub fn from_db(failure: DbFailure) -> (err: Self)
        ensures
            db_error(failure, err),
    {
        match failure {
            DbFailure::Datastore(detail) => Error::ServerMisconfigured(detail),
            DbFailure::IndexExists => Error::UnavailableIdent,
            DbFailure::RecordExists(detail) => Error::InternalServerError(detail),
            DbFailure::Other(detail) => Error::InternalServerError(detail),
        }
    }
}

/// What is made of an access token once it was read: the account that it names, if it is
/// an access token; an error where it could not be read, and where it is a token of
/// another kind.
pub fn accept_access(read: Result<AccessClaims, JwtFailure>) -> (res: Result<
    CurrentAccount,
    Error,
>)
    ensures
        match read {
            Ok(claims) => match claims.jwt.kind {
                JwtKind::Access => res == Ok::<CurrentAccount, Error>(
                    CurrentAccount { account: Some(claims.acc) },
                ),
                JwtKind::Refresh => res matches Err(Error::JwtInvalid),
            },
            Err(failure) => res matches Err(err) && jwt_error(failure, err),
        },
{
    match read {
        Ok(claims) => match claims.jwt.kind {
            JwtKind::Access => Ok(CurrentAccount::new(claims.acc)),
            JwtKind::Refresh => Err(Error::JwtInvalid),
        },
        Err(failure) => Err(Error::from_jwt(failure)),
    }
}

/// What is made of a refresh token once it was read: its claims, if it is a refresh
/// token; an error where it could not be read, and where it is a token of another kind.
pub fn verify_refresh_token(read: Result<RefreshClaims, JwtFailure>) -> (res: Result<
    RefreshClaims,
    Error,
>)
    ensures
        match read {
            Ok(claims) => match claims.jwt.kind {
                JwtKind::Refresh => res == Ok::<RefreshClaims, Error>(claims),
                JwtKind::Access => res matches Err(Error::JwtInvalid),
            },
            Err(failure) => res matches Err(err) && jwt_error(failure, err),
        },
{
    match read {
        Ok(claims) => match claims.jwt.kind {
            JwtKind::Refresh => Ok(claims),
            JwtKind::Access => Err(Error::JwtInvalid),
        },
        Err(failure) => Err(Error::from_jwt(failure)),
    }
}

/// What to do about the token of a request.
#[derive(Debug, Clone, PartialEq, Eq)]
pub enum Authentication {
    /// There is no token: the session is not logged in.
    Anonymous(CurrentAccount),
    /// Read this token, and hand what it claims to [`accept_access`].
    Read(String),
}

/// The first step of authentication: where there is no token the session is not logged
/// in, and where there is one it is to be read.
pub fn authenticate(input: AuthenticateInput) -> (res: Result<Authentication, Error>)
    ensures
        match carried(input) {
            Ok(Some(token)) => res matches Ok(Authentication::Read(text)) && text@ == token,
            Ok(None) => res matches Ok(Authentication::Anonymous(current))
                && current.account is None,
            Err(err) => res == Err::<Authentication, Error>(err),
        },
{
    match token_of(input) {
        Ok(Some(token)) => Ok(Authentication::Read(token)),
        Ok(None) => Ok(Authentication::Anonymous(CurrentAccount::default())),
        Err(err) => Err(err),
    }
}

/// A refresh token is good only if the tokens of its account were not revoked at or after
/// the time it was issued.
pub fn check_not_revoked(revoked_at: Option<i64>, issued_at: i64) -> (res: Result<(), Error>)
    ensures
        match revoked_at {
            Some(revoked_at) if revoked_at >= issued_at => res matches Err(
                Error::Unauthenticated,
            ),
            _ => res is Ok,
        },
{
    match revoked_at {
        Some(revoked_at) => {
            if revoked_at >= issued_at {
                Err(Error::Unauthenticated)
            } else {
                Ok(())
            }
        },
        None => Ok(()),
    }
}

/// The account that credentials were checked against, or an error where there is none.
pub fn known_account<T>(account: Option<T>) -> (res: Result<T, Error>)
    ensures
        match account {
            Some(account) => res == Ok::<T, Error>(account),
            None => res matches Err(Error::CredentialsInvalid),
        },
{
    match account {
        Some(account) => Ok(account),
        None => Err(Error::CredentialsInvalid),
    }
}

} // verus!
