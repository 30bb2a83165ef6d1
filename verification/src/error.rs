//! The backend's failure envelope and the four operation-scoped error sets
//! that its reason string is mapped to.

use vstd::prelude::*;
use vstd::string::*;
use crate::text::same_text;

verus! {

/// Why a password or federated sign-in failed.
#[derive(Debug, Clone, Copy, PartialEq, Eq, Structural)]
pub enum LoginError {
    EmailNotFound,
    InvalidPassword,
    UserDisabled,
    OperationNotAllowed,
    TooManyAttempts,
    Unknown,
}

/// Why a registration failed.
#[derive(Debug, Clone, Copy, PartialEq, Eq, Structural)]
pub enum RegisterError {
    EmailExists,
    OperationNotAllowed,
    TooManyAttempts,
    Unknown,
    MissingPassword,
}

/// Why an account-management request failed.
#[derive(Debug, Clone, Copy, PartialEq, Eq, Structural)]
pub enum AccountError {
    InvalidIdToken,
    UserNotFound,
    Unknown,
}

/// Why a token refresh failed.
#[derive(Debug, Clone, Copy, PartialEq, Eq, Structural)]
pub enum RefreshTokenError {
    TokenExpired,
    UserDisabled,
    UserNotFound,
    InvalidRefreshToken,
    InvalidGrantType,
    Unknown,
}

/// The login table: the member that each reason string stands for.
pub open spec fn login_table(reason: Seq<char>) -> LoginError {
    if reason == "EMAIL_NOT_FOUND"@ {
        LoginError::EmailNotFound
    } else if reason == "INVALID_PASSWORD"@ {
        LoginError::InvalidPassword
    } else if reason == "USER_DISABLED"@ {
        LoginError::UserDisabled
    } else if reason == "OPERATION_NOT_ALLOWED"@ {
        LoginError::OperationNotAllowed
    } else if reason == "TOO_MANY_ATTEMPTS_TRY_LATER"@ {
        LoginError::TooManyAttempts
    } else {
        LoginError::Unknown
    }
}

/// The registration table.
pub open spec fn register_table(reason: Seq<char>) -> RegisterError {
    if reason == "EMAIL_EXISTS"@ {
        RegisterError::EmailExists
    } else if reason == "OPERATION_NOT_ALLOWED"@ {
        RegisterError::OperationNotAllowed
    } else if reason == "TOO_MANY_ATTEMPTS_TRY_LATER"@ {
        RegisterError::TooManyAttempts
    } else {
        RegisterError::Unknown
    }
}

/// The account-management table.
pub open spec fn account_table(reason: Seq<char>) -> AccountError {
    if reason == "INVALID_ID_TOKEN"@ {
        AccountError::InvalidIdToken
    } else if reason == "USER_NOT_FOUND"@ {
        AccountError::UserNotFound
    } else {
        AccountError::Unknown
    }
}

/// The token-refresh table.
pub open spec fn refresh_token_table(reason: Seq<char>) -> RefreshTokenError {
    if reason == "TOKEN_EXPIRED"@ {
        RefreshTokenError::TokenExpired
    } else if reason == "USER_DISABLED"@ {
        RefreshTokenError::UserDisabled
    } else if reason == "USER_NOT_FOUND"@ {
        RefreshTokenError::UserNotFound
    } else if reason == "INVALID_REFRESH_TOKEN"@ {
        RefreshTokenError::InvalidRefreshToken
    } else if reason == "INVALID_GRANT_TYPE"@ {
        RefreshTokenError::InvalidGrantType
    } else {
        RefreshTokenError::Unknown
    }
}

impl LoginError {
    /// The text that describes this member.
    pub open spec fn text(self) -> Seq<char> {
        match self {
            LoginError::EmailNotFound => "Email not found"@,
            LoginError::InvalidPassword => "Invalid password"@,
            LoginError::UserDisabled => "User disabled"@,
            LoginError::OperationNotAllowed => "Operation not allowed"@,
            LoginError::TooManyAttempts => "Too many attempts"@,
            LoginError::Unknown => "Unknown"@,
        }
    }

    /// The member's text.
    pub fn to_string(&self) -> (s: String)
        ensures
            s@ == self.text(),
    {
        match *self {
            LoginError::EmailNotFound => String::from_str("Email not found"),
            LoginError::InvalidPassword => String::from_str("Invalid password"),
            LoginError::UserDisabled => String::from_str("User disabled"),
            LoginError::OperationNotAllowed => String::from_str("Operation not allowed"),
            LoginError::TooManyAttempts => String::from_str("Too many attempts"),
            LoginError::Unknown => String::from_str("Unknown"),
        }
    }
}

impl RegisterError {
    /// The text that describes this member.
    pub open spec fn text(self) -> Seq<char> {
        match self {
            RegisterError::EmailExists => "Email exists"@,
            RegisterError::OperationNotAllowed => "Operation not allowed"@,
            RegisterError::TooManyAttempts => "Too many attempts"@,
            RegisterError::Unknown => "Unknown"@,
            RegisterError::MissingPassword => "Missing password"@,
        }
    }

    /// The member's text.
    pub fn to_string(&self) -> (s: String)
        ensures
            s@ == self.text(),
    {
        match *self {
            RegisterError::EmailExists => String::from_str("Email exists"),
            RegisterError::OperationNotAllowed => String::from_str("Operation not allowed"),
            RegisterError::TooManyAttempts => String::from_str("Too many attempts"),
            RegisterError::Unknown => String::from_str("Unknown"),
            RegisterError::MissingPassword => String::from_str("Missing password"),
        }
    }
}

impl AccountError {
    /// The text that describes this member.
    pub open spec fn text(self) -> Seq<char> {
        match self {
            AccountError::InvalidIdToken => "Invalid Id token"@,
            AccountError::UserNotFound => "User not found"@,
            AccountError::Unknown => "Unknown error"@,
        }
    }

    /// The member's text.
    pub fn to_string(&self) -> (s: String)
        ensures
            s@ == self.text(),
    {
        match *self {
            AccountError::InvalidIdToken => String::from_str("Invalid Id token"),
            AccountError::UserNotFound => String::from_str("User not found"),
            AccountError::Unknown => String::from_str("Unknown error"),
        }
    }
}

impl RefreshTokenError {
    /// The text that describes this member: the wire reason it stands for.
    pub open spec fn text(self) -> Seq<char> {
        match self {
            RefreshTokenError::TokenExpired => "TOKEN_EXPIRED"@,
            RefreshTokenError::UserDisabled => "USER_DISABLED"@,
            RefreshTokenError::UserNotFound => "USER_NOT_FOUND"@,
            RefreshTokenError::InvalidRefreshToken => "INVALID_REFRESH_TOKEN"@,
            RefreshTokenError::InvalidGrantType => "INVALID_GRANT_TYPE"@,
            RefreshTokenError::Unknown => "Unknown error"@,
        }
    }

    /// The member's text.
    pub fn to_string(&self) -> (s: String)
        ensures
            s@ == self.text(),
    {
        match *self {
            RefreshTokenError::TokenExpired => String::from_str("TOKEN_EXPIRED"),
            RefreshTokenError::UserDisabled => String::from_str("USER_DISABLED"),
            RefreshTokenError::UserNotFound => String::from_str("USER_NOT_FOUND"),
            RefreshTokenError::InvalidRefreshToken => String::from_str("INVALID_REFRESH_TOKEN"),
            RefreshTokenError::InvalidGrantType => String::from_str("INVALID_GRANT_TYPE"),
            RefreshTokenError::Unknown => String::from_str("Unknown error"),
        }
    }
}

/// One informational entry of the envelope. Nothing in it is interpreted.
#[derive(Debug, Clone, PartialEq, Eq)]
pub struct ErrorBody {
    pub domain: String,
    pub reason: String,
    pub message: String,
}

/// The backend's failure envelope. Its top-level reason string alone decides
/// which error a caller sees.
#[derive(Debug, Clone, PartialEq, Eq)]
pub struct Error {
    errors: Vec<ErrorBody>,
    code: i32,
    message: String,
}

/// The envelope as it travels: wrapped under one `error` key.
#[derive(Debug, Clone, PartialEq, Eq)]
pub struct ErrorContainer {
    pub error: Error,
}

impl Error {
    /// The top-level reason string.
    pub closed spec fn reason(&self) -> Seq<char> {
        self.message@
    }

    /// The numeric status that the envelope carries.
    pub closed spec fn status(&self) -> i32 {
        self.code
    }

    /// The informational entries.
    pub closed spec fn details(&self) -> Seq<ErrorBody> {
        self.errors@
    }

    /// An envelope with these entries, this status and this reason string.
    pub fn new(errors: Vec<ErrorBody>, code: i32, message: String) -> (envelope: Error)
        ensures
            envelope.reason() == message@,
            envelope.status() == code,
            envelope.details() == errors@,
    {
        Error { errors, code, message }
    }

    /// The top-level reason string.
    pub fn message(&self) -> (m: &String)
        ensures
            m@ == self.reason(),
    {
        &self.message
    }

    /// The numeric status.
    pub fn code(&self) -> (c: i32)
        ensures
            c == self.status(),
    {
        self.code
    }

    /// The informational entries.
    pub fn errors(&self) -> (entries: &Vec<ErrorBody>)
        ensures
            entries@ == self.details(),
    {
        &self.errors
    }

    /// The error of a registration that failed with this envelope.
    pub fn register_error(&self) -> (e: RegisterError)
        ensures
            e == register_table(self.reason()),
    {
        let reason = self.message.as_str();
        if same_text(reason, "EMAIL_EXISTS") {
            RegisterError::EmailExists
        } else if same_text(reason, "OPERATION_NOT_ALLOWED") {
            RegisterError::OperationNotAllowed
        } else if same_text(reason, "TOO_MANY_ATTEMPTS_TRY_LATER") {
            RegisterError::TooManyAttempts
        } else {
            RegisterError::Unknown
        }
    }

    /// The error of a sign-in that failed with this envelope.
    pub fn login_error(&self) -> (e: LoginError)
        ensures
            e == login_table(self.reason()),
    {
        let reason = self.message.as_str();
        if same_text(reason, "EMAIL_NOT_FOUND") {
            LoginError::EmailNotFound
        } else if same_text(reason, "INVALID_PASSWORD") {
            LoginError::InvalidPassword
        } else if same_text(reason, "USER_DISABLED") {
            LoginError::UserDisabled
        } else if same_text(reason, "OPERATION_NOT_ALLOWED") {
            LoginError::OperationNotAllowed
        } else if same_text(reason, "TOO_MANY_ATTEMPTS_TRY_LATER") {
            LoginError::TooManyAttempts
        } else {
            LoginError::Unknown
        }
    }

    /// The error of an account-management request that failed with this
    /// envelope.
    pub fn account_error(&self) -> (e: AccountError)
        ensures
            e == account_table(self.reason()),
    {
        let reason = self.message.as_str();
        if same_text(reason, "INVALID_ID_TOKEN") {
            AccountError::InvalidIdToken
        } else if same_text(reason, "USER_NOT_FOUND") {
            AccountError::UserNotFound
        } else {
            AccountError::Unknown
        }
    }

    /// The error of a token refresh that failed with this envelope.
    pub fn refresh_token_error(&self) -> (e: RefreshTokenError)
        ensures
            e == refresh_token_table(self.reason()),
    {
        let reason = self.message.as_str();
        if same_text(reason, "TOKEN_EXPIRED") {
            RefreshTokenError::TokenExpired
        } else if same_text(reason, "USER_DISABLED") {
            RefreshTokenError::UserDisabled
        } else if same_text(reason, "USER_NOT_FOUND") {
            RefreshTokenError::UserNotFound
        } else if same_text(reason, "INVALID_REFRESH_TOKEN") {
            RefreshTokenError::InvalidRefreshToken
        } else if same_text(reason, "INVALID_GRANT_TYPE") {
            RefreshTokenError::InvalidGrantType
        } else {
            RefreshTokenError::Unknown
        }
    }
}

/// Each reason string that the login table lists stands for its own member:
/// no entry hides another.
pub proof fn lemma_login_table_entries()
    ensures
        login_table("EMAIL_NOT_FOUND"@) == LoginError::EmailNotFound,
        login_table("INVALID_PASSWORD"@) == LoginError::InvalidPassword,
        login_table("USER_DISABLED"@) == LoginError::UserDisabled,
        login_table("OPERATION_NOT_ALLOWED"@) == LoginError::OperationNotAllowed,
        login_table("TOO_MANY_ATTEMPTS_TRY_LATER"@) == LoginError::TooManyAttempts,
{
    reveal_strlit("EMAIL_NOT_FOUND");
    reveal_strlit("INVALID_PASSWORD");
    reveal_strlit("USER_DISABLED");
    reveal_strlit("OPERATION_NOT_ALLOWED");
    reveal_strlit("TOO_MANY_ATTEMPTS_TRY_LATER");
    assert("EMAIL_NOT_FOUND"@.len() == 15);
    assert("INVALID_PASSWORD"@.len() == 16);
    assert("USER_DISABLED"@.len() == 13);
    assert("OPERATION_NOT_ALLOWED"@.len() == 21);
    assert("TOO_MANY_ATTEMPTS_TRY_LATER"@.len() == 27);
}

/// Each reason string that the registration table lists stands for its own
/// member.
pub proof fn lemma_register_table_entries()
    ensures
        register_table("EMAIL_EXISTS"@) == RegisterError::EmailExists,
        register_table("OPERATION_NOT_ALLOWED"@) == RegisterError::OperationNotAllowed,
        register_table("TOO_MANY_ATTEMPTS_TRY_LATER"@) == RegisterError::TooManyAttempts,
{
    reveal_strlit("EMAIL_EXISTS");
    reveal_strlit("OPERATION_NOT_ALLOWED");
    reveal_strlit("TOO_MANY_ATTEMPTS_TRY_LATER");
    assert("EMAIL_EXISTS"@.len() == 12);
    assert("OPERATION_NOT_ALLOWED"@.len() == 21);
    assert("TOO_MANY_ATTEMPTS_TRY_LATER"@.len() == 27);
}

/// Each reason string that the account table lists stands for its own
/// member.
pub proof fn lemma_account_table_entries()
    ensures
        account_table("INVALID_ID_TOKEN"@) == AccountError::InvalidIdToken,
        account_table("USER_NOT_FOUND"@) == AccountError::UserNotFound,
{
    reveal_strlit("INVALID_ID_TOKEN");
    reveal_strlit("USER_NOT_FOUND");
    assert("INVALID_ID_TOKEN"@.len() == 16);
    assert("USER_NOT_FOUND"@.len() == 14);
}

/// Each reason string that the token-refresh table lists stands for its own
/// member.
pub proof fn lemma_refresh_token_table_entries()
    ensures
        refresh_token_table("TOKEN_EXPIRED"@) == RefreshTokenError::TokenExpired,
        refresh_token_table("USER_DISABLED"@) == RefreshTokenError::UserDisabled,
        refresh_token_table("USER_NOT_FOUND"@) == RefreshTokenError::UserNotFound,
        refresh_token_table("INVALID_REFRESH_TOKEN"@) == RefreshTokenError::InvalidRefreshToken,
        refresh_token_table("INVALID_GRANT_TYPE"@) == RefreshTokenError::InvalidGrantType,
{
    reveal_strlit("TOKEN_EXPIRED");
    reveal_strlit("USER_DISABLED");
    reveal_strlit("USER_NOT_FOUND");
    reveal_strlit("INVALID_REFRESH_TOKEN");
    reveal_strlit("INVALID_GRANT_TYPE");
    assert("TOKEN_EXPIRED"@[0] == 'T');
    assert("USER_DISABLED"@[0] == 'U');
    assert("TOKEN_EXPIRED"@.len() == 13);
    assert("USER_NOT_FOUND"@.len() == 14);
    assert("INVALID_REFRESH_TOKEN"@.len() == 21);
    assert("INVALID_GRANT_TYPE"@.len() == 18);
}

/// A reason string that a table does not list stands for that table's
/// catch-all member, in each of the four tables on its own.
pub proof fn lemma_unlisted_reason_is_unknown(reason: Seq<char>)
    ensures
        reason != "EMAIL_NOT_FOUND"@ && reason != "INVALID_PASSWORD"@ && reason
            != "USER_DISABLED"@ && reason != "OPERATION_NOT_ALLOWED"@ && reason
            != "TOO_MANY_ATTEMPTS_TRY_LATER"@ ==> login_table(reason) == LoginError::Unknown,
        reason != "EMAIL_EXISTS"@ && reason != "OPERATION_NOT_ALLOWED"@ && reason
            != "TOO_MANY_ATTEMPTS_TRY_LATER"@ ==> register_table(reason) == RegisterError::Unknown,
        reason != "INVALID_ID_TOKEN"@ && reason != "USER_NOT_FOUND"@ ==> account_table(reason)
            == AccountError::Unknown,
        reason != "TOKEN_EXPIRED"@ && reason != "USER_DISABLED"@ && reason != "USER_NOT_FOUND"@
            && reason != "INVALID_REFRESH_TOKEN"@ && reason != "INVALID_GRANT_TYPE"@
            ==> refresh_token_table(reason) == RefreshTokenError::Unknown,
{
}

} // verus!
