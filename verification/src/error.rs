//! What can go wrong when the server is asked for something, and how the
//! asker is told.

use crate::strings::concat;
use vstd::prelude::*;

verus! {

/// Why the server does not do what it was asked for.
///
/// Where the cause lies in a library that the server uses, the variant
/// holds what that library said of it.
#[derive(Clone, Debug, PartialEq, Eq)]
pub enum AppError {
    AppDestroyed,
    UserNotFound,
    FirstUserAlreadyExists,
    FirstLoginCreateAdminNotSet,
    UserAlreadyExists,
    HostNotFound,
    HostPaired,
    HostNotPaired,
    HostOffline,
    CredentialsWrong,
    SessionTokenNotFound,
    Unauthorized,
    HeaderAuthDisabled,
    Forbidden,
    AuthorizationNotBearer,
    HeaderAuthMalformed,
    BearerMalformed,
    PasswordEmpty,
    NameEmpty,
    BadRequest,
    OpenSSL(String),
    Hex(String),
    Io(String),
    MoonlightApi(String),
    Pairing(String),
    ExternalService,
}

/// The status of the answer to a request that failed with `error`.
pub open spec fn status_of(error: AppError) -> u16 {
    match error {
        AppError::AppDestroyed => 500,
        AppError::FirstUserAlreadyExists => 500,
        AppError::FirstLoginCreateAdminNotSet => 500,
        AppError::HostNotFound => 404,
        AppError::HostNotPaired => 403,
        AppError::HostPaired => 304,
        AppError::HostOffline => 504,
        AppError::UserNotFound => 404,
        AppError::UserAlreadyExists => 409,
        AppError::CredentialsWrong => 401,
        AppError::SessionTokenNotFound => 401,
        AppError::Unauthorized => 401,
        AppError::Forbidden => 403,
        AppError::OpenSSL(_) => 500,
        AppError::HeaderAuthDisabled => 401,
        AppError::Hex(_) => 400,
        AppError::AuthorizationNotBearer => 400,
        AppError::HeaderAuthMalformed => 400,
        AppError::BearerMalformed => 400,
        AppError::PasswordEmpty => 400,
        AppError::NameEmpty => 400,
        AppError::BadRequest => 400,
        AppError::MoonlightApi(_) => 500,
        AppError::Io(_) => 500,
        AppError::Pairing(_) => 500,
        AppError::ExternalService => 502,
    }
}

/// What `error` says of itself.
pub open spec fn text_of(error: AppError) -> Seq<char> {
    match error {
        AppError::AppDestroyed => "the app got destroyed"@,
        AppError::UserNotFound => "the user was not found"@,
        AppError::FirstUserAlreadyExists => "more than one user already exists"@,
        AppError::FirstLoginCreateAdminNotSet => "the config option first_login_create_admin is not true"@,
        AppError::UserAlreadyExists => "the user already exists"@,
        AppError::HostNotFound => "the host was not found"@,
        AppError::HostPaired => "the host was already paired"@,
        AppError::HostNotPaired => "the host must be paired for this action"@,
        AppError::HostOffline => "the host was offline, but the action requires that the host is online"@,
        AppError::CredentialsWrong => "the credentials don't exists"@,
        AppError::SessionTokenNotFound => "the host was not found"@,
        AppError::Unauthorized => "the action is not allowed because the user is not authorized, 401"@,
        AppError::HeaderAuthDisabled => "using a custom header for authorization is disabled"@,
        AppError::Forbidden => "the action is not allowed with the current privileges, 403"@,
        AppError::AuthorizationNotBearer => "the authorization header is not a bearer"@,
        AppError::HeaderAuthMalformed => "the custom header used to authorize is malformed"@,
        AppError::BearerMalformed => "the authorization header is not a bearer"@,
        AppError::PasswordEmpty => "the password is empty"@,
        AppError::NameEmpty => "the password is empty"@,
        AppError::BadRequest => "the authorization header is not a bearer"@,
        AppError::OpenSSL(cause) => "openssl error occured: "@ + cause@,
        AppError::Hex(cause) => "hex error occured: "@ + cause@,
        AppError::Io(cause) => "io error: "@ + cause@,
        AppError::MoonlightApi(cause) => "moonlight api error: "@ + cause@,
        AppError::Pairing(cause) => "pairing error: "@ + cause@,
        AppError::ExternalService => "external service error"@,
    }
}

impl AppError {
    /// The status of the answer to a request that failed with this error.
    pub fn status_code(&self) -> (r: u16)
        ensures
            r == status_of(*self),
    {
        match self {
            AppError::AppDestroyed => 500,
            AppError::FirstUserAlreadyExists => 500,
            AppError::FirstLoginCreateAdminNotSet => 500,
            AppError::HostNotFound => 404,
            AppError::HostNotPaired => 403,
            AppError::HostPaired => 304,
            AppError::HostOffline => 504,
            AppError::UserNotFound => 404,
            AppError::UserAlreadyExists => 409,
            AppError::CredentialsWrong => 401,
            AppError::SessionTokenNotFound => 401,
            AppError::Unauthorized => 401,
            AppError::Forbidden => 403,
            AppError::OpenSSL(_) => 500,
            AppError::HeaderAuthDisabled => 401,
            AppError::Hex(_) => 400,
            AppError::AuthorizationNotBearer => 400,
            AppError::HeaderAuthMalformed => 400,
            AppError::BearerMalformed => 400,
            AppError::PasswordEmpty => 400,
            AppError::NameEmpty => 400,
            AppError::BadRequest => 400,
            AppError::MoonlightApi(_) => 500,
            AppError::Io(_) => 500,
            AppError::Pairing(_) => 500,
            AppError::ExternalService => 502,
        }
    }

    /// What the error says of itself.
    pub fn message(&self) -> (r: String)
        ensures
            r@ == text_of(*self),
    {
        match self {
            AppError::AppDestroyed => "the app got destroyed".to_string(),
            AppError::UserNotFound => "the user was not found".to_string(),
            AppError::FirstUserAlreadyExists => "more than one user already exists".to_string(),
            AppError::FirstLoginCreateAdminNotSet => "the config option first_login_create_admin is not true".to_string(),
            AppError::UserAlreadyExists => "the user already exists".to_string(),
            AppError::HostNotFound => "the host was not found".to_string(),
            AppError::HostPaired => "the host was already paired".to_string(),
            AppError::HostNotPaired => "the host must be paired for this action".to_string(),
            AppError::HostOffline => "the host was offline, but the action requires that the host is online".to_string(),
            AppError::CredentialsWrong => "the credentials don't exists".to_string(),
            AppError::SessionTokenNotFound => "the host was not found".to_string(),
            AppError::Unauthorized => "the action is not allowed because the user is not authorized, 401".to_string(),
            AppError::HeaderAuthDisabled => "using a custom header for authorization is disabled".to_string(),
            AppError::Forbidden => "the action is not allowed with the current privileges, 403".to_string(),
            AppError::AuthorizationNotBearer => "the authorization header is not a bearer".to_string(),
            AppError::HeaderAuthMalformed => "the custom header used to authorize is malformed".to_string(),
            AppError::BearerMalformed => "the authorization header is not a bearer".to_string(),
            AppError::PasswordEmpty => "the password is empty".to_string(),
            AppError::NameEmpty => "the password is empty".to_string(),
            AppError::BadRequest => "the authorization header is not a bearer".to_string(),
            AppError::OpenSSL(cause) => concat("openssl error occured: ", cause.as_str()),
            AppError::Hex(cause) => concat("hex error occured: ", cause.as_str()),
            AppError::Io(cause) => concat("io error: ", cause.as_str()),
            AppError::MoonlightApi(cause) => concat("moonlight api error: ", cause.as_str()),
            AppError::Pairing(cause) => concat("pairing error: ", cause.as_str()),
            AppError::ExternalService => "external service error".to_string(),
        }
    }
}

} // verus!
