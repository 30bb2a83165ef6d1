use fire_auth::error::{
    AccountError, Error, ErrorBody, LoginError, RefreshTokenError, RegisterError,
};

fn envelope(reason: &str) -> Error {
    Error::new(Vec::new(), 400, reason.to_string())
}

const LISTED: [&str; 11] = [
    "EMAIL_NOT_FOUND",
    "INVALID_PASSWORD",
    "USER_DISABLED",
    "EMAIL_EXISTS",
    "OPERATION_NOT_ALLOWED",
    "TOO_MANY_ATTEMPTS_TRY_LATER",
    "INVALID_ID_TOKEN",
    "USER_NOT_FOUND",
    "TOKEN_EXPIRED",
    "INVALID_REFRESH_TOKEN",
    "INVALID_GRANT_TYPE",
];

const UNLISTED: [&str; 8] = [
    "",
    "SOMETHING_NEW",
    "email_not_found",
    "EMAIL_NOT_FOUND ",
    " EMAIL_NOT_FOUND",
    "EMAIL_NOT_FOUN",
    "USER_DISABLED : reason",
    "TOKEN_EXPIRÉD",
];

#[test]
fn login_table_maps_each_listed_reason() {
    assert_eq!(envelope("EMAIL_NOT_FOUND").login_error(), LoginError::EmailNotFound);
    assert_eq!(envelope("INVALID_PASSWORD").login_error(), LoginError::InvalidPassword);
    assert_eq!(envelope("USER_DISABLED").login_error(), LoginError::UserDisabled);
    assert_eq!(envelope("OPERATION_NOT_ALLOWED").login_error(), LoginError::OperationNotAllowed);
    assert_eq!(envelope("TOO_MANY_ATTEMPTS_TRY_LATER").login_error(), LoginError::TooManyAttempts);
}

#[test]
fn login_table_maps_everything_else_to_unknown() {
    let own = ["EMAIL_NOT_FOUND", "INVALID_PASSWORD", "USER_DISABLED", "OPERATION_NOT_ALLOWED",
        "TOO_MANY_ATTEMPTS_TRY_LATER"];
    for reason in LISTED.iter().filter(|r| !own.contains(r)).chain(UNLISTED.iter()) {
        assert_eq!(envelope(reason).login_error(), LoginError::Unknown, "{}", reason);
    }
}

#[test]
fn register_table_maps_each_listed_reason() {
    assert_eq!(envelope("EMAIL_EXISTS").register_error(), RegisterError::EmailExists);
    assert_eq!(
        envelope("OPERATION_NOT_ALLOWED").register_error(),
        RegisterError::OperationNotAllowed
    );
    assert_eq!(
        envelope("TOO_MANY_ATTEMPTS_TRY_LATER").register_error(),
        RegisterError::TooManyAttempts
    );
}

#[test]
fn register_table_maps_everything_else_to_unknown() {
    let own = ["EMAIL_EXISTS", "OPERATION_NOT_ALLOWED", "TOO_MANY_ATTEMPTS_TRY_LATER"];
    for reason in LISTED.iter().filter(|r| !own.contains(r)).chain(UNLISTED.iter()) {
        assert_eq!(envelope(reason).register_error(), RegisterError::Unknown, "{}", reason);
    }
}

#[test]
fn register_table_never_gives_missing_password() {
    for reason in LISTED.iter().chain(UNLISTED.iter()).chain(["MISSING_PASSWORD"].iter()) {
        assert_ne!(envelope(reason).register_error(), RegisterError::MissingPassword);
    }
}

#[test]
fn account_table_maps_each_listed_reason() {
    assert_eq!(envelope("INVALID_ID_TOKEN").account_error(), AccountError::InvalidIdToken);
    assert_eq!(envelope("USER_NOT_FOUND").account_error(), AccountError::UserNotFound);
}

#[test]
fn account_table_maps_everything_else_to_unknown() {
    let own = ["INVALID_ID_TOKEN", "USER_NOT_FOUND"];
    for reason in LISTED.iter().filter(|r| !own.contains(r)).chain(UNLISTED.iter()) {
        assert_eq!(envelope(reason).account_error(), AccountError::Unknown, "{}", reason);
    }
}

#[test]
fn refresh_token_table_maps_each_listed_reason() {
    assert_eq!(envelope("TOKEN_EXPIRED").refresh_token_error(), RefreshTokenError::TokenExpired);
    assert_eq!(envelope("USER_DISABLED").refresh_token_error(), RefreshTokenError::UserDisabled);
    assert_eq!(envelope("USER_NOT_FOUND").refresh_token_error(), RefreshTokenError::UserNotFound);
    assert_eq!(
        envelope("INVALID_REFRESH_TOKEN").refresh_token_error(),
        RefreshTokenError::InvalidRefreshToken
    );
    assert_eq!(
        envelope("INVALID_GRANT_TYPE").refresh_token_error(),
        RefreshTokenError::InvalidGrantType
    );
}

#[test]
fn refresh_token_table_maps_everything_else_to_unknown() {
    let own = ["TOKEN_EXPIRED", "USER_DISABLED", "USER_NOT_FOUND", "INVALID_REFRESH_TOKEN",
        "INVALID_GRANT_TYPE"];
    for reason in LISTED.iter().filter(|r| !own.contains(r)).chain(UNLISTED.iter()) {
        assert_eq!(envelope(reason).refresh_token_error(), RefreshTokenError::Unknown, "{}", reason);
    }
}

#[test]
fn one_reason_means_different_things_in_different_tables() {
    let e = envelope("USER_NOT_FOUND");
    assert_eq!(e.login_error(), LoginError::Unknown);
    assert_eq!(e.register_error(), RegisterError::Unknown);
    assert_eq!(e.account_error(), AccountError::UserNotFound);
    assert_eq!(e.refresh_token_error(), RefreshTokenError::UserNotFound);
}

#[test]
fn only_the_top_level_reason_is_read() {
    let detail = ErrorBody {
        domain: "global".to_string(),
        reason: "invalid".to_string(),
        message: "EMAIL_NOT_FOUND".to_string(),
    };
    let e = Error::new(vec![detail.clone()], 400, "INVALID_PASSWORD".to_string());
    assert_eq!(e.login_error(), LoginError::InvalidPassword);
    assert_eq!(e.message(), "INVALID_PASSWORD");
    assert_eq!(e.code(), 400);
    assert_eq!(e.errors(), &vec![detail]);
}

#[test]
fn a_long_reason_is_unknown() {
    let long = "EMAIL_NOT_FOUND".repeat(1000);
    assert_eq!(envelope(&long).login_error(), LoginError::Unknown);
}

#[test]
fn login_error_texts() {
    assert_eq!(LoginError::EmailNotFound.to_string(), "Email not found");
    assert_eq!(LoginError::InvalidPassword.to_string(), "Invalid password");
    assert_eq!(LoginError::UserDisabled.to_string(), "User disabled");
    assert_eq!(LoginError::OperationNotAllowed.to_string(), "Operation not allowed");
    assert_eq!(LoginError::TooManyAttempts.to_string(), "Too many attempts");
    assert_eq!(LoginError::Unknown.to_string(), "Unknown");
}

#[test]
fn register_error_texts() {
    assert_eq!(RegisterError::EmailExists.to_string(), "Email exists");
    assert_eq!(RegisterError::OperationNotAllowed.to_string(), "Operation not allowed");
    assert_eq!(RegisterError::TooManyAttempts.to_string(), "Too many attempts");
    assert_eq!(RegisterError::Unknown.to_string(), "Unknown");
    assert_eq!(RegisterError::MissingPassword.to_string(), "Missing password");
}

#[test]
fn account_error_texts() {
    assert_eq!(AccountError::InvalidIdToken.to_string(), "Invalid Id token");
    assert_eq!(AccountError::UserNotFound.to_string(), "User not found");
    assert_eq!(AccountError::Unknown.to_string(), "Unknown error");
}

#[test]
fn refresh_token_error_texts() {
    assert_eq!(RefreshTokenError::TokenExpired.to_string(), "TOKEN_EXPIRED");
    assert_eq!(RefreshTokenError::UserDisabled.to_string(), "USER_DISABLED");
    assert_eq!(RefreshTokenError::UserNotFound.to_string(), "USER_NOT_FOUND");
    assert_eq!(RefreshTokenError::InvalidRefreshToken.to_string(), "INVALID_REFRESH_TOKEN");
    assert_eq!(RefreshTokenError::InvalidGrantType.to_string(), "INVALID_GRANT_TYPE");
    assert_eq!(RefreshTokenError::Unknown.to_string(), "Unknown error");
}
