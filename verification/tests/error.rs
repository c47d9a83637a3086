use moonlight_web::error::AppError;

#[test]
fn status_codes() {
    assert_eq!(AppError::AppDestroyed.status_code(), 500);
    assert_eq!(AppError::FirstUserAlreadyExists.status_code(), 500);
    assert_eq!(AppError::FirstLoginCreateAdminNotSet.status_code(), 500);
    assert_eq!(AppError::HostNotFound.status_code(), 404);
    assert_eq!(AppError::HostNotPaired.status_code(), 403);
    assert_eq!(AppError::HostPaired.status_code(), 304);
    assert_eq!(AppError::HostOffline.status_code(), 504);
    assert_eq!(AppError::UserNotFound.status_code(), 404);
    assert_eq!(AppError::UserAlreadyExists.status_code(), 409);
    assert_eq!(AppError::CredentialsWrong.status_code(), 401);
    assert_eq!(AppError::SessionTokenNotFound.status_code(), 401);
    assert_eq!(AppError::Unauthorized.status_code(), 401);
    assert_eq!(AppError::Forbidden.status_code(), 403);
    assert_eq!(AppError::OpenSSL("x".to_string()).status_code(), 500);
    assert_eq!(AppError::HeaderAuthDisabled.status_code(), 401);
    assert_eq!(AppError::Hex("x".to_string()).status_code(), 400);
    assert_eq!(AppError::AuthorizationNotBearer.status_code(), 400);
    assert_eq!(AppError::HeaderAuthMalformed.status_code(), 400);
    assert_eq!(AppError::BearerMalformed.status_code(), 400);
    assert_eq!(AppError::PasswordEmpty.status_code(), 400);
    assert_eq!(AppError::NameEmpty.status_code(), 400);
    assert_eq!(AppError::BadRequest.status_code(), 400);
    assert_eq!(AppError::MoonlightApi("x".to_string()).status_code(), 500);
    assert_eq!(AppError::Io("x".to_string()).status_code(), 500);
    assert_eq!(AppError::Pairing("x".to_string()).status_code(), 500);
    assert_eq!(AppError::ExternalService.status_code(), 502);
}

#[test]
fn messages() {
    assert_eq!(AppError::AppDestroyed.message(), "the app got destroyed");
    assert_eq!(AppError::HostNotFound.message(), "the host was not found");
    assert_eq!(
        AppError::HostOffline.message(),
        "the host was offline, but the action requires that the host is online"
    );
    assert_eq!(
        AppError::Forbidden.message(),
        "the action is not allowed with the current privileges, 403"
    );
    assert_eq!(AppError::Io("disk full".to_string()).message(), "io error: disk full");
    assert_eq!(
        AppError::OpenSSL("bad key".to_string()).message(),
        "openssl error occured: bad key"
    );
    assert_eq!(AppError::Hex("odd".to_string()).message(), "hex error occured: odd");
    assert_eq!(
        AppError::MoonlightApi("timeout".to_string()).message(),
        "moonlight api error: timeout"
    );
    assert_eq!(AppError::Pairing("pin".to_string()).message(), "pairing error: pin");
    assert_eq!(AppError::ExternalService.message(), "external service error");
}
