//! The two code exchanges: what each asks of its provider, and what each
//! makes of the provider's answer.

use vstd::prelude::*;
use vstd::string::*;
use awc::error::{JsonPayloadError, SendRequestError};
use crate::oauth::error::CodeExhangeError;
use crate::oauth::model::{FacebookOAuthToken, GoogleOAuthToken, OAuthToken, Provider};
use crate::oauth::params::ExchangeParams;
use crate::text::join;

verus! {

/// How a request is sent.
#[derive(Debug, Clone, Copy, PartialEq, Eq, Structural)]
pub enum Method {
    Get,
    Post,
}

/// The one request of a code exchange, ready for the transport.
#[derive(Debug, Clone, PartialEq, Eq)]
pub struct ExchangeRequest {
    /// The provider that is asked, and whose token envelope the answer holds.
    pub provider: Provider,
    pub method: Method,
    pub url: String,
    /// The value of the `Content-Type` header, where the request sets one.
    pub content_type: Option<String>,
    /// The body, where the request has one.
    pub body: Option<String>,
}

/// An `ExchangeRequest` with its texts as characters.
pub struct ExchangeRequestView {
    pub provider: Provider,
    pub method: Method,
    pub url: Seq<char>,
    pub content_type: Option<Seq<char>>,
    pub body: Option<Seq<char>>,
}

impl View for ExchangeRequest {
    type V = ExchangeRequestView;

    open spec fn view(&self) -> ExchangeRequestView {
        ExchangeRequestView {
            provider: self.provider,
            method: self.method,
            url: self.url@,
            content_type: match self.content_type {
                Some(t) => Some(t@),
                None => None,
            },
            body: match self.body {
                Some(b) => Some(b@),
                None => None,
            },
        }
    }
}

/// What came of the one request: the transport failed, or the answer was not
/// the provider's token envelope, or it was.
#[derive(Debug)]
pub enum ExchangeReply<T> {
    SendFailed(SendRequestError),
    Undecodable(JsonPayloadError),
    Token(T),
}

/// The exchange with the OAuth2-style provider: a GET with the parameters in
/// the query.
pub struct FacebookCodeExchanger {}

impl FacebookCodeExchanger {
    /// The first required parameter that `info` lacks.
    pub open spec fn missing_key(info: Map<Seq<char>, Seq<char>>) -> Option<&'static str> {
        if !info.contains_key("client_id"@) {
            Some("client_id")
        } else if !info.contains_key("client_secret"@) {
            Some("client_secret")
        } else if !info.contains_key("redirect_uri"@) {
            Some("redirect_uri")
        } else {
            None
        }
    }

    /// The address of the exchange.
    pub open spec fn url(code: Seq<char>, info: Map<Seq<char>, Seq<char>>) -> Seq<char> {
        "https://graph.facebook.com/v14.0/oauth/access_token?client_secret="@
            + info["client_secret"@] + "&code="@ + code + "&client_id="@ + info["client_id"@]
            + "&redirect_uri="@ + info["redirect_uri"@]
    }

    /// The request of the exchange.
    pub open spec fn spec_request(
        code: Seq<char>,
        info: Map<Seq<char>, Seq<char>>,
    ) -> ExchangeRequestView {
        ExchangeRequestView {
            provider: Provider::Facebook,
            method: Method::Get,
            url: Self::url(code, info),
            content_type: None,
            body: None,
        }
    }

    /// What the provider's answer comes to.
    pub open spec fn outcome(reply: ExchangeReply<FacebookOAuthToken>) -> Result<
        OAuthToken,
        CodeExhangeError,
    > {
        match reply {
            ExchangeReply::SendFailed(cause) => Err(CodeExhangeError::SendRequestError(cause)),
            ExchangeReply::Undecodable(cause) => Err(CodeExhangeError::DecodingError(cause)),
            ExchangeReply::Token(t) => Ok(
                OAuthToken { token: t.access_token, provider: Provider::Facebook, nonce: None },
            ),
        }
    }

    /// Builds the address, or names the first required parameter that is
    /// missing.
    pub fn build_url(code: &String, info: &ExchangeParams) -> (built: Result<
        String,
        CodeExhangeError,
    >)
        ensures
            match Self::missing_key(info@) {
                Some(key) => built == Err::<String, CodeExhangeError>(
                    CodeExhangeError::ParamError(key),
                ),
                None => built is Ok && built->Ok_0@ == Self::url(code@, info@),
            },
    {
        let client_id = match info.get("client_id") {
            Some(client_id) => client_id,
            None => return Err(CodeExhangeError::ParamError("client_id")),
        };
        let client_secret = match info.get("client_secret") {
            Some(client_secret) => client_secret,
            None => return Err(CodeExhangeError::ParamError("client_secret")),
        };
        let redirect_uri = match info.get("redirect_uri") {
            Some(redirect_uri) => redirect_uri,
            None => return Err(CodeExhangeError::ParamError("redirect_uri")),
        };
        let url = String::from_str(
            "https://graph.facebook.com/v14.0/oauth/access_token?client_secret=",
        );
        let url = join(url, client_secret.as_str());
        let url = join(url, "&code=");
        let url = join(url, code.as_str());
        let url = join(url, "&client_id=");
        let url = join(url, client_id.as_str());
        let url = join(url, "&redirect_uri=");
        Ok(join(url, redirect_uri.as_str()))
    }

    /// The first step of the exchange: the request to send, or the parameter
    /// that is missing. No request exists where a parameter is missing.
    pub fn request(code: &String, info: &ExchangeParams) -> (built: Result<
        ExchangeRequest,
        CodeExhangeError,
    >)
        ensures
            match Self::missing_key(info@) {
                Some(key) => built == Err::<ExchangeRequest, CodeExhangeError>(
                    CodeExhangeError::ParamError(key),
                ),
                None => built is Ok && built->Ok_0@ == Self::spec_request(code@, info@),
            },
    {
        match Self::build_url(code, info) {
            Ok(url) => Ok(
                ExchangeRequest {
                    provider: Provider::Facebook,
                    method: Method::Get,
                    url,
                    content_type: None,
                    body: None,
                },
            ),
            Err(e) => Err(e),
        }
    }

    /// The second step of the exchange: the credential that the answer
    /// holds, or the failure that the transport reported.
    pub fn exchange(reply: ExchangeReply<FacebookOAuthToken>) -> (credential: Result<
        OAuthToken,
        CodeExhangeError,
    >)
        ensures
            credential == Self::outcome(reply),
    {
        match reply {
            ExchangeReply::SendFailed(cause) => Err(CodeExhangeError::SendRequestError(cause)),
            ExchangeReply::Undecodable(cause) => Err(CodeExhangeError::DecodingError(cause)),
            ExchangeReply::Token(t) => Ok(
                OAuthToken { token: t.access_token, provider: Provider::Facebook, nonce: None },
            ),
        }
    }
}

/// The exchange with the OpenID-style provider: a POST with the parameters
/// in a form-encoded body.
pub struct GoogleCodeExchanger {}

impl GoogleCodeExchanger {
    /// The first required parameter that `info` lacks.
    pub open spec fn missing_key(info: Map<Seq<char>, Seq<char>>) -> Option<&'static str> {
        if !info.contains_key("client_id"@) {
            Some("client_id")
        } else if !info.contains_key("redirect_uri"@) {
            Some("redirect_uri")
        } else {
            None
        }
    }

    /// The body of the exchange.
    pub open spec fn body(code: Seq<char>, info: Map<Seq<char>, Seq<char>>) -> Seq<char> {
        "code="@ + code + "&client_id="@ + info["client_id"@] + "&redirect_uri="@
            + info["redirect_uri"@] + "&grant_type="@ + "authorization_code"@
    }

    /// The request that carries `body`.
    pub open spec fn spec_request(body: Seq<char>) -> ExchangeRequestView {
        ExchangeRequestView {
            provider: Provider::Google,
            method: Method::Post,
            url: "https://oauth2.googleapis.com/token"@,
            content_type: Some("application/x-www-form-urlencoded"@),
            body: Some(body),
        }
    }

    /// What the provider's answer comes to.
    pub open spec fn outcome(reply: ExchangeReply<GoogleOAuthToken>) -> Result<
        OAuthToken,
        CodeExhangeError,
    > {
        match reply {
            ExchangeReply::SendFailed(cause) => Err(CodeExhangeError::SendRequestError(cause)),
            ExchangeReply::Undecodable(cause) => Err(CodeExhangeError::DecodingError(cause)),
            ExchangeReply::Token(t) => Ok(
                OAuthToken { token: t.id_token, provider: Provider::Google, nonce: None },
            ),
        }
    }

    /// The fixed address of the token endpoint.
    pub fn build_url() -> (url: String)
        ensures
            url@ == "https://oauth2.googleapis.com/token"@,
    {
        String::from_str("https://oauth2.googleapis.com/token")
    }

    /// Builds the form-encoded body, or names the first required parameter
    /// that is missing.
    pub fn build_body(code: &String, info: &ExchangeParams) -> (built: Result<
        String,
        CodeExhangeError,
    >)
        ensures
            match Self::missing_key(info@) {
                Some(key) => built == Err::<String, CodeExhangeError>(
                    CodeExhangeError::ParamError(key),
                ),
                None => built is Ok && built->Ok_0@ == Self::body(code@, info@),
            },
    {
        let client_id = match info.get("client_id") {
            Some(client_id) => client_id,
            None => return Err(CodeExhangeError::ParamError("client_id")),
        };
        let redirect_uri = match info.get("redirect_uri") {
            Some(redirect_uri) => redirect_uri,
            None => return Err(CodeExhangeError::ParamError("redirect_uri")),
        };
        let grant_type = "authorization_code";
        let body = join(String::from_str("code="), code.as_str());
        let body = join(body, "&client_id=");
        let body = join(body, client_id.as_str());
        let body = join(body, "&redirect_uri=");
        let body = join(body, redirect_uri.as_str());
        let body = join(body, "&grant_type=");
        Ok(join(body, grant_type))
    }

    /// The POST to the token endpoint that carries `body` as a form.
    pub fn build_request(body: String) -> (request: ExchangeRequest)
        ensures
            request@ == Self::spec_request(body@),
    {
        ExchangeRequest {
            provider: Provider::Google,
            method: Method::Post,
            url: Self::build_url(),
            content_type: Some(String::from_str("application/x-www-form-urlencoded")),
            body: Some(body),
        }
    }

    /// The first step of the exchange: the request to send, or the parameter
    /// that is missing. No request exists where a parameter is missing.
    pub fn request(code: &String, info: &ExchangeParams) -> (built: Result<
        ExchangeRequest,
        CodeExhangeError,
    >)
        ensures
            match Self::missing_key(info@) {
                Some(key) => built == Err::<ExchangeRequest, CodeExhangeError>(
                    CodeExhangeError::ParamError(key),
                ),
                None => built is Ok && built->Ok_0@ == Self::spec_request(
                    Self::body(code@, info@),
                ),
            },
    {
        match Self::build_body(code, info) {
            Ok(body) => Ok(Self::build_request(body)),
            Err(e) => Err(e),
        }
    }

    /// The second step of the exchange: the credential that the answer
    /// holds, or the failure that the transport reported.
    pub fn exchange(reply: ExchangeReply<GoogleOAuthToken>) -> (credential: Result<
        OAuthToken,
        CodeExhangeError,
    >)
        ensures
            credential == Self::outcome(reply),
    {
        match reply {
            ExchangeReply::SendFailed(cause) => Err(CodeExhangeError::SendRequestError(cause)),
            ExchangeReply::Undecodable(cause) => Err(CodeExhangeError::DecodingError(cause)),
            ExchangeReply::Token(t) => Ok(
                OAuthToken { token: t.id_token, provider: Provider::Google, nonce: None },
            ),
        }
    }
}

/// A parameter map without `client_id` is refused by both exchanges, and the
/// refusal names `client_id`, whatever else the map holds or lacks.
pub proof fn lemma_missing_client_id_is_named(info: Map<Seq<char>, Seq<char>>)
    requires
        !info.contains_key("client_id"@),
    ensures
        FacebookCodeExchanger::missing_key(info) == Some("client_id"),
        GoogleCodeExchanger::missing_key(info) == Some("client_id"),
{
}

} // verus!
