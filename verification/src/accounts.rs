//! Who may sign in, and who a request is about.

use crate::api_bindings::GetUserQuery;
use crate::config::ForwardedHeaders;
use crate::error::AppError;
use crate::host::UserId;
use vstd::prelude::*;

verus! {

/// Lets the first user sign itself up as admin, or says why not: the
/// configuration has to allow it, and no user may exist yet.
pub fn first_login_check(first_login_create_admin: bool, any_user_exists: bool) -> (r: Result<
    (),
    AppError,
>)
    ensures
        r == (if !first_login_create_admin {
            Err::<(), AppError>(AppError::FirstLoginCreateAdminNotSet)
        } else if any_user_exists {
            Err::<(), AppError>(AppError::FirstUserAlreadyExists)
        } else {
            Ok::<(), AppError>(())
        }),
{
    if !first_login_create_admin {
        Err(AppError::FirstLoginCreateAdminNotSet)
    } else if any_user_exists {
        Err(AppError::FirstUserAlreadyExists)
    } else {
        Ok(())
    }
}

/// Lets a user of the name `name` be added, or refuses: a user has a name.
pub fn new_user_check(name: &str) -> (r: Result<(), AppError>)
    ensures
        r == (if name@.len() == 0 {
            Err::<(), AppError>(AppError::NameEmpty)
        } else {
            Ok::<(), AppError>(())
        }),
{
    if name.unicode_len() == 0 {
        Err(AppError::NameEmpty)
    } else {
        Ok(())
    }
}

/// The user that a request without credentials is taken for: the default
/// user of the configuration. Without one, such a request is refused.
pub fn default_user(default_user_id: Option<u32>) -> (r: Result<UserId, AppError>)
    ensures
        r == (match default_user_id {
            Some(id) => Ok::<UserId, AppError>(UserId(id)),
            None => Err::<UserId, AppError>(AppError::Unauthorized),
        }),
{
    match default_user_id {
        Some(id) => Ok(UserId(id)),
        None => Err(AppError::Unauthorized),
    }
}

/// Whether a user that a proxy vouches for, and that the server does not
/// know, is added on the spot: only where the configuration says so.
/// Otherwise the request is refused.
pub fn missing_forwarded_user(forwarded_header: &Option<ForwardedHeaders>) -> (r: Result<
    (),
    AppError,
>)
    ensures
        r == (match forwarded_header {
            Some(config) => if config.auto_create_missing_user {
                Ok::<(), AppError>(())
            } else {
                Err::<(), AppError>(AppError::Unauthorized)
            },
            None => Err::<(), AppError>(AppError::Unauthorized),
        }),
{
    match forwarded_header {
        Some(config) => {
            if config.auto_create_missing_user {
                Ok(())
            } else {
                Err(AppError::Unauthorized)
            }
        },
        None => Err(AppError::Unauthorized),
    }
}

/// Whom a question about a user is about.
#[derive(Clone, Debug, PartialEq, Eq)]
pub enum UserQuery {
    /// The user that asks.
    Own,
    ById(UserId),
    ByName(String),
}

/// Reads whom a question about a user is about. A question that names a
/// user both ways is refused.
pub fn user_query(query: GetUserQuery) -> (r: Result<UserQuery, AppError>)
    ensures
        r == (match (query.name, query.user_id) {
            (None, None) => Ok::<UserQuery, AppError>(UserQuery::Own),
            (None, Some(id)) => Ok::<UserQuery, AppError>(UserQuery::ById(UserId(id))),
            (Some(name), None) => Ok::<UserQuery, AppError>(UserQuery::ByName(name)),
            (Some(_), Some(_)) => Err::<UserQuery, AppError>(AppError::BadRequest),
        }),
{
    match (query.name, query.user_id) {
        (None, None) => Ok(UserQuery::Own),
        (None, Some(id)) => Ok(UserQuery::ById(UserId(id))),
        (Some(name), None) => Ok(UserQuery::ByName(name)),
        (Some(_), Some(_)) => Err(AppError::BadRequest),
    }
}

} // verus!
