use fire_auth::error::{AccountError, Error, ErrorContainer, LoginError, RegisterError};
use fire_auth::model::{FirebaseRequest, LoginBody, LoginResponse};
use fire_auth::oauth::model::{OAuthToken, Provider, SignInWithIdpBody, SignInWithIdpResponse};
use fire_auth::{Event, Firebase, RegisterResponse, Request, Step, STATUS_OK};

fn firebase() -> Firebase {
    Firebase::auth("https://id.example/v1".to_string(), "KEY".to_string())
}

fn envelope(reason: &str) -> Option<ErrorContainer> {
    Some(ErrorContainer { error: Error::new(Vec::new(), 400, reason.to_string()) })
}

fn login_payload() -> LoginResponse {
    LoginResponse {
        kind: "k".to_string(),
        local_id: "l".to_string(),
        email: "e@x".to_string(),
        display_name: "d".to_string(),
        id_token: "i".to_string(),
        refresh_token: "r".to_string(),
        expires_in: "3600".to_string(),
        registered: true,
    }
}

fn register_payload() -> RegisterResponse {
    RegisterResponse {
        kind: "k".to_string(),
        local_id: "l".to_string(),
        email: "e@x".to_string(),
        id_token: "i".to_string(),
        refresh_token: "r".to_string(),
        expires_in: "3600".to_string(),
    }
}

fn idp_payload() -> SignInWithIdpResponse {
    SignInWithIdpResponse {
        full_name: None,
        email: "e@x".to_string(),
        local_id: "l".to_string(),
        refresh_token: "r".to_string(),
    }
}

const OTHER_STATUSES: [u16; 9] = [0, 100, 199, 201, 204, 301, 400, 500, u16::MAX];

#[test]
fn endpoint_addresses() {
    let f = firebase();
    assert_eq!(f.sign_in_url(), "https://id.example/v1/accounts:signInWithPassword?key=KEY");
    assert_eq!(f.sign_up_url(), "https://id.example/v1/accounts:signUp?key=KEY");
    assert_eq!(f.sign_in_oauth_url(), "https://id.example/v1/accounts:signInWithIdp?key=KEY");
    assert_eq!(
        f.send_verification_email_url(),
        "https://id.example/v1/accounts:sendOobCode?key=KEY"
    );
    assert_eq!(f.delete_account_url(), "https://id.example/v1/accounts:delete?key=KEY");
}

#[test]
fn endpoint_addresses_with_empty_configuration() {
    let f = Firebase::auth(String::new(), String::new());
    assert_eq!(f.sign_up_url(), "/accounts:signUp?key=");
}

#[test]
fn login_body_always_asks_for_a_secure_token() {
    assert_eq!(
        LoginBody::new("e@x".to_string(), "pw".to_string()),
        LoginBody { email: "e@x".to_string(), password: "pw".to_string(), return_secure_token: true }
    );
}

#[test]
fn login_and_register_requests() {
    let f = firebase();
    let body =
        LoginBody { email: "e@x".to_string(), password: "pw".to_string(), return_secure_token: true };
    assert_eq!(
        f.login_request("e@x".to_string(), "pw".to_string()),
        Request {
            url: "https://id.example/v1/accounts:signInWithPassword?key=KEY".to_string(),
            body: body.clone()
        }
    );
    assert_eq!(
        f.register_request("e@x".to_string(), "pw".to_string()),
        Request { url: "https://id.example/v1/accounts:signUp?key=KEY".to_string(), body }
    );
}

#[test]
fn federated_sign_in_request() {
    let token = OAuthToken { token: "T".to_string(), provider: Provider::Apple, nonce: None };
    assert_eq!(
        firebase().sign_in_with_idp_request("http://localhost", &token),
        Request {
            url: "https://id.example/v1/accounts:signInWithIdp?key=KEY".to_string(),
            body: SignInWithIdpBody {
                request_uri: "http://localhost",
                post_body: "id_token=T&providerId=apple.com&nonce=".to_string(),
                return_secure_token: true,
                return_idp_credential: true,
            }
        }
    );
}

#[test]
fn account_requests() {
    let f = firebase();
    assert_eq!(
        f.send_verification_email_request("TOKEN".to_string()),
        Request {
            url: "https://id.example/v1/accounts:sendOobCode?key=KEY".to_string(),
            body: FirebaseRequest {
                request_type: "VERIFY_EMAIL".to_string(),
                id_token: "TOKEN".to_string()
            }
        }
    );
    assert_eq!(
        f.delete_account_request("TOKEN".to_string()),
        Request {
            url: "https://id.example/v1/accounts:delete?key=KEY".to_string(),
            body: FirebaseRequest {
                request_type: "DELETE_ACCOUNT".to_string(),
                id_token: "TOKEN".to_string()
            }
        }
    );
}

#[test]
fn success_status_never_asks_for_the_envelope_decoder() {
    let f = firebase();
    assert_eq!(STATUS_OK, 200);
    assert_eq!(f.login(Event::Status(200)), Step::DecodePayload);
    assert_eq!(f.register(Event::Status(200)), Step::DecodePayload);
    assert_eq!(f.sign_in_with_idp(Event::Status(200)), Step::DecodePayload);
    assert_eq!(f.send_verification_email(Event::Status(200)), Step::Done(Ok(())));
    assert_eq!(f.delete_account(Event::Status(200)), Step::Done(Ok(())));
}

#[test]
fn any_other_status_asks_for_the_envelope_decoder() {
    let f = firebase();
    for status in OTHER_STATUSES {
        assert_eq!(f.login(Event::Status(status)), Step::DecodeEnvelope);
        assert_eq!(f.register(Event::Status(status)), Step::DecodeEnvelope);
        assert_eq!(f.sign_in_with_idp(Event::Status(status)), Step::DecodeEnvelope);
        assert_eq!(f.send_verification_email(Event::Status(status)), Step::DecodeEnvelope);
        assert_eq!(f.delete_account(Event::Status(status)), Step::DecodeEnvelope);
    }
}

#[test]
fn a_decoded_envelope_ends_the_call() {
    let f = firebase();
    assert_eq!(
        f.login(Event::Envelope(envelope("INVALID_PASSWORD"))),
        Step::Done(Err(LoginError::InvalidPassword))
    );
    assert_eq!(
        f.register(Event::Envelope(envelope("EMAIL_EXISTS"))),
        Step::Done(Err(RegisterError::EmailExists))
    );
    assert_eq!(
        f.sign_in_with_idp(Event::Envelope(envelope("USER_DISABLED"))),
        Step::Done(Err(LoginError::UserDisabled))
    );
    assert_eq!(
        f.send_verification_email(Event::Envelope(envelope("INVALID_ID_TOKEN"))),
        Step::Done(Err(AccountError::InvalidIdToken))
    );
    assert_eq!(
        f.delete_account(Event::Envelope(envelope("USER_NOT_FOUND"))),
        Step::Done(Err(AccountError::UserNotFound))
    );
}

#[test]
fn each_operation_reads_its_own_table() {
    let f = firebase();
    assert_eq!(
        f.login(Event::Envelope(envelope("EMAIL_EXISTS"))),
        Step::Done(Err(LoginError::Unknown))
    );
    assert_eq!(
        f.register(Event::Envelope(envelope("EMAIL_NOT_FOUND"))),
        Step::Done(Err(RegisterError::Unknown))
    );
    assert_eq!(
        f.delete_account(Event::Envelope(envelope("USER_DISABLED"))),
        Step::Done(Err(AccountError::Unknown))
    );
}

#[test]
fn an_unparsable_error_body_is_unknown() {
    let f = firebase();
    assert_eq!(f.login(Event::Envelope(None)), Step::Done(Err(LoginError::Unknown)));
    assert_eq!(f.register(Event::Envelope(None)), Step::Done(Err(RegisterError::Unknown)));
    assert_eq!(f.sign_in_with_idp(Event::Envelope(None)), Step::Done(Err(LoginError::Unknown)));
    assert_eq!(
        f.send_verification_email(Event::Envelope(None)),
        Step::Done(Err(AccountError::Unknown))
    );
    assert_eq!(f.delete_account(Event::Envelope(None)), Step::Done(Err(AccountError::Unknown)));
}

#[test]
fn a_transport_failure_is_unknown() {
    let f = firebase();
    assert_eq!(f.login(Event::TransportFailed), Step::Done(Err(LoginError::Unknown)));
    assert_eq!(f.register(Event::TransportFailed), Step::Done(Err(RegisterError::Unknown)));
    assert_eq!(f.sign_in_with_idp(Event::TransportFailed), Step::Done(Err(LoginError::Unknown)));
    assert_eq!(
        f.send_verification_email(Event::TransportFailed),
        Step::Done(Err(AccountError::Unknown))
    );
    assert_eq!(f.delete_account(Event::TransportFailed), Step::Done(Err(AccountError::Unknown)));
}

#[test]
fn a_decoded_payload_is_the_result() {
    let f = firebase();
    assert_eq!(f.login(Event::Payload(Some(login_payload()))), Step::Done(Ok(login_payload())));
    assert_eq!(
        f.register(Event::Payload(Some(register_payload()))),
        Step::Done(Ok(register_payload()))
    );
    assert_eq!(
        f.sign_in_with_idp(Event::Payload(Some(idp_payload()))),
        Step::Done(Ok(idp_payload()))
    );
}

#[test]
fn an_unparsable_success_body_is_unknown() {
    let f = firebase();
    assert_eq!(f.login(Event::Payload(None)), Step::Done(Err(LoginError::Unknown)));
    assert_eq!(f.register(Event::Payload(None)), Step::Done(Err(RegisterError::Unknown)));
    assert_eq!(f.sign_in_with_idp(Event::Payload(None)), Step::Done(Err(LoginError::Unknown)));
}

#[test]
fn account_operations_look_for_no_payload() {
    let f = firebase();
    assert_eq!(f.send_verification_email(Event::Payload(None)), Step::Done(Ok(())));
    assert_eq!(f.delete_account(Event::Payload(Some(()))), Step::Done(Ok(())));
}
