use moonlight_web::accounts::{
    default_user, first_login_check, missing_forwarded_user, new_user_check, user_query,
    UserQuery,
};
use moonlight_web::api_bindings::GetUserQuery;
use moonlight_web::config::ForwardedHeaders;
use moonlight_web::error::AppError;
use moonlight_web::host::UserId;

#[test]
fn first_login() {
    assert_eq!(first_login_check(true, false), Ok(()));
    assert_eq!(first_login_check(false, false), Err(AppError::FirstLoginCreateAdminNotSet));
    assert_eq!(first_login_check(false, true), Err(AppError::FirstLoginCreateAdminNotSet));
    assert_eq!(first_login_check(true, true), Err(AppError::FirstUserAlreadyExists));
}

#[test]
fn user_needs_a_name() {
    assert_eq!(new_user_check(""), Err(AppError::NameEmpty));
    assert_eq!(new_user_check("a"), Ok(()));
    assert_eq!(new_user_check(" "), Ok(()));
}

#[test]
fn request_without_credentials() {
    assert_eq!(default_user(Some(3)), Ok(UserId(3)));
    assert_eq!(default_user(None), Err(AppError::Unauthorized));
}

#[test]
fn user_that_the_proxy_vouches_for() {
    let headers = |auto_create_missing_user| {
        Some(ForwardedHeaders { username_header: "X".to_string(), auto_create_missing_user })
    };
    assert_eq!(missing_forwarded_user(&headers(true)), Ok(()));
    assert_eq!(missing_forwarded_user(&headers(false)), Err(AppError::Unauthorized));
    assert_eq!(missing_forwarded_user(&None), Err(AppError::Unauthorized));
}

#[test]
fn whom_a_question_is_about() {
    let query = |name: Option<&str>, user_id| GetUserQuery { name: name.map(String::from), user_id };
    assert_eq!(user_query(query(None, None)), Ok(UserQuery::Own));
    assert_eq!(user_query(query(None, Some(5))), Ok(UserQuery::ById(UserId(5))));
    assert_eq!(user_query(query(Some("ann"), None)), Ok(UserQuery::ByName("ann".to_string())));
    assert_eq!(user_query(query(Some("ann"), Some(5))), Err(AppError::BadRequest));
}
