//! Client-side rules of a federated identity backend's REST authentication
//! API: which request each operation sends, which decoder reads the answer,
//! and which typed error a failure becomes.
//!
//! The transport is not part of this crate. Each operation is a pair: a
//! function that builds the request, and a step function that is told what
//! the transport saw and says what to do next.

use vstd::prelude::*;
use vstd::string::*;

pub mod call;
pub mod error;
pub mod model;
pub mod oauth;
pub mod text;

pub use crate::call::{Event, Request, Step, STATUS_OK};
pub use crate::model::RegisterResponse;
use crate::call::{answer, bare_answer};
use crate::error::{account_table, login_table, register_table};
use crate::error::{AccountError, LoginError, RegisterError};
use crate::model::{FirebaseRequest, LoginBody, LoginResponse};
use crate::oauth::model::{credential_encoding, OAuthToken};
use crate::oauth::model::{SignInWithIdpBody, SignInWithIdpResponse};
use crate::text::join;

verus! {

/// The backend as a caller is configured for it: its base address and the
/// API key that every request carries.
#[derive(Debug, Clone, PartialEq, Eq)]
pub struct Firebase {
    base_url: String,
    auth_token: String,
}

impl Firebase {
    /// The base address.
    pub closed spec fn base(&self) -> Seq<char> {
        self.base_url@
    }

    /// The API key.
    pub closed spec fn key(&self) -> Seq<char> {
        self.auth_token@
    }

    /// The backend at `base_url`, addressed with the key `auth_token`.
    pub fn auth(base_url: String, auth_token: String) -> (firebase: Firebase)
        ensures
            firebase.base() == base_url@,
            firebase.key() == auth_token@,
    {
        Firebase { base_url, auth_token }
    }

    /// The address of an endpoint: the base, the endpoint's path up to the
    /// key, and the key.
    pub open spec fn endpoint(&self, path: Seq<char>) -> Seq<char> {
        self.base() + path + self.key()
    }

    fn build_endpoint(&self, path: &str) -> (url: String)
        ensures
            url@ == self.endpoint(path@),
    {
        let url = join(self.base_url.clone(), path);
        join(url, self.auth_token.as_str())
    }

    /// The address of the federated sign-in.
    pub fn sign_in_oauth_url(&self) -> (url: String)
        ensures
            url@ == self.endpoint("/accounts:signInWithIdp?key="@),
    {
        self.build_endpoint("/accounts:signInWithIdp?key=")
    }

    /// The address of the password login.
    pub fn sign_in_url(&self) -> (url: String)
        ensures
            url@ == self.endpoint("/accounts:signInWithPassword?key="@),
    {
        self.build_endpoint("/accounts:signInWithPassword?key=")
    }

    /// The address of the registration.
    pub fn sign_up_url(&self) -> (url: String)
        ensures
            url@ == self.endpoint("/accounts:signUp?key="@),
    {
        self.build_endpoint("/accounts:signUp?key=")
    }

    /// The address of the verification email.
    pub fn send_verification_email_url(&self) -> (url: String)
        ensures
            url@ == self.endpoint("/accounts:sendOobCode?key="@),
    {
        self.build_endpoint("/accounts:sendOobCode?key=")
    }

    /// The address of the deletion of an account.
    pub fn delete_account_url(&self) -> (url: String)
        ensures
            url@ == self.endpoint("/accounts:delete?key="@),
    {
        self.build_endpoint("/accounts:delete?key=")
    }
}

impl Firebase {
    /// The request of a password login.
    pub fn login_request(&self, email: String, password: String) -> (request: Request<LoginBody>)
        ensures
            request.url@ == self.endpoint("/accounts:signInWithPassword?key="@),
            request.body == (LoginBody { email, password, return_secure_token: true }),
    {
        Request { url: self.sign_in_url(), body: LoginBody::new(email, password) }
    }

    /// One step of a password login. Failures are read by the login table.
    pub fn login(&self, event: Event<LoginResponse>) -> (step: Step<LoginResponse, LoginError>)
        ensures
            step == answer(event, LoginError::Unknown, |reason: Seq<char>| login_table(reason)),
    {
        match event {
            Event::TransportFailed => Step::Done(Err(LoginError::Unknown)),
            Event::Status(status) => {
                if status == STATUS_OK {
                    Step::DecodePayload
                } else {
                    Step::DecodeEnvelope
                }
            },
            Event::Payload(Some(payload)) => Step::Done(Ok(payload)),
            Event::Payload(None) => Step::Done(Err(LoginError::Unknown)),
            Event::Envelope(Some(container)) => Step::Done(Err(container.error.login_error())),
            Event::Envelope(None) => Step::Done(Err(LoginError::Unknown)),
        }
    }
}

impl Firebase {
    /// The request of a registration: the body of a login, sent elsewhere.
    pub fn register_request(&self, email: String, password: String) -> (request: Request<
        LoginBody,
    >)
        ensures
            request.url@ == self.endpoint("/accounts:signUp?key="@),
            request.body == (LoginBody { email, password, return_secure_token: true }),
    {
        Request { url: self.sign_up_url(), body: LoginBody::new(email, password) }
    }

    /// One step of a registration. Failures are read by the registration
    /// table.
    pub fn register(&self, event: Event<RegisterResponse>) -> (step: Step<
        RegisterResponse,
        RegisterError,
    >)
        ensures
            step == answer(
                event,
                RegisterError::Unknown,
                |reason: Seq<char>| register_table(reason),
            ),
    {
        match event {
            Event::TransportFailed => Step::Done(Err(RegisterError::Unknown)),
            Event::Status(status) => {
                if status == STATUS_OK {
                    Step::DecodePayload
                } else {
                    Step::DecodeEnvelope
                }
            },
            Event::Payload(Some(payload)) => Step::Done(Ok(payload)),
            Event::Payload(None) => Step::Done(Err(RegisterError::Unknown)),
            Event::Envelope(Some(container)) => Step::Done(Err(container.error.register_error())),
            Event::Envelope(None) => Step::Done(Err(RegisterError::Unknown)),
        }
    }
}

impl Firebase {
    /// The request of a federated sign-in: the request URI, the credential
    /// in its form encoding, and the two flags that ask for a secure token
    /// and for the provider's credential.
    pub fn sign_in_with_idp_request<'a>(&self, request_uri: &'a str, token: &OAuthToken) -> (request:
        Request<SignInWithIdpBody<'a>>)
        ensures
            request.url@ == self.endpoint("/accounts:signInWithIdp?key="@),
            request.body.request_uri@ == request_uri@,
            request.body.post_body@ == credential_encoding(
                token.token@,
                token.provider,
                token.nonce_view(),
            ),
            request.body.return_secure_token,
            request.body.return_idp_credential,
    {
        let body = SignInWithIdpBody {
            request_uri,
            post_body: token.to_string(),
            return_secure_token: true,
            return_idp_credential: true,
        };
        Request { url: self.sign_in_oauth_url(), body }
    }

    /// One step of a federated sign-in. Failures are read by the login
    /// table: the backend speaks of them in the words of a login.
    pub fn sign_in_with_idp(&self, event: Event<SignInWithIdpResponse>) -> (step: Step<
        SignInWithIdpResponse,
        LoginError,
    >)
        ensures
            step == answer(event, LoginError::Unknown, |reason: Seq<char>| login_table(reason)),
    {
        match event {
            Event::TransportFailed => Step::Done(Err(LoginError::Unknown)),
            Event::Status(status) => {
                if status == STATUS_OK {
                    Step::DecodePayload
                } else {
                    Step::DecodeEnvelope
                }
            },
            Event::Payload(Some(payload)) => Step::Done(Ok(payload)),
            Event::Payload(None) => Step::Done(Err(LoginError::Unknown)),
            Event::Envelope(Some(container)) => Step::Done(Err(container.error.login_error())),
            Event::Envelope(None) => Step::Done(Err(LoginError::Unknown)),
        }
    }
}

impl Firebase {
    /// The request that has the verification email sent.
    pub fn send_verification_email_request(&self, token: String) -> (request: Request<
        FirebaseRequest,
    >)
        ensures
            request.url@ == self.endpoint("/accounts:sendOobCode?key="@),
            request.body.request_type@ == "VERIFY_EMAIL"@,
            request.body.id_token == token,
    {
        let body = FirebaseRequest {
            request_type: String::from_str("VERIFY_EMAIL"),
            id_token: token,
        };
        Request { url: self.send_verification_email_url(), body }
    }

    /// One step of sending the verification email. Failures are read by the
    /// account table.
    pub fn send_verification_email(&self, event: Event<()>) -> (step: Step<(), AccountError>)
        ensures
            step == bare_answer(
                event,
                AccountError::Unknown,
                |reason: Seq<char>| account_table(reason),
            ),
    {
        Self::account_step(event)
    }
}

impl Firebase {
    /// The request that deletes the account.
    pub fn delete_account_request(&self, token: String) -> (request: Request<FirebaseRequest>)
        ensures
            request.url@ == self.endpoint("/accounts:delete?key="@),
            request.body.request_type@ == "DELETE_ACCOUNT"@,
            request.body.id_token == token,
    {
        let body = FirebaseRequest {
            request_type: String::from_str("DELETE_ACCOUNT"),
            id_token: token,
        };
        Request { url: self.delete_account_url(), body }
    }

    /// One step of deleting the account. Failures are read by the account
    /// table.
    pub fn delete_account(&self, event: Event<()>) -> (step: Step<(), AccountError>)
        ensures
            step == bare_answer(
                event,
                AccountError::Unknown,
                |reason: Seq<char>| account_table(reason),
            ),
    {
        Self::account_step(event)
    }

    fn account_step(event: Event<()>) -> (step: Step<(), AccountError>)
        ensures
            step == bare_answer(
                event,
                AccountError::Unknown,
                |reason: Seq<char>| account_table(reason),
            ),
    {
        match event {
            Event::TransportFailed => Step::Done(Err(AccountError::Unknown)),
            Event::Status(status) => {
                if status == STATUS_OK {
                    Step::Done(Ok(()))
                } else {
                    Step::DecodeEnvelope
                }
            },
            Event::Payload(_) => Step::Done(Ok(())),
            Event::Envelope(Some(container)) => Step::Done(Err(container.error.account_error())),
            Event::Envelope(None) => Step::Done(Err(AccountError::Unknown)),
        }
    }
}

} // verus!
