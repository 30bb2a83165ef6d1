//! Providers, authorization codes, bearer credentials and the bodies of the
//! federated sign-in request.

use vstd::prelude::*;
use vstd::string::*;
use crate::oauth::error::CodeExhangeError;
use crate::oauth::exchanger::{ExchangeRequest, FacebookCodeExchanger, GoogleCodeExchanger};
use crate::oauth::params::ExchangeParams;
use crate::text::{join, same_text};

verus! {

/// An identity provider that the backend federates with.
#[derive(Debug, Clone, Copy, PartialEq, Eq, Structural)]
pub enum Provider {
    Facebook,
    Google,
    Apple,
}

/// A wire identifier that names no provider.
#[derive(Debug, Clone, PartialEq, Eq)]
pub struct UnknownProvider {
    pub id: String,
}

impl UnknownProvider {
    /// The text of the rejection.
    pub fn to_string(&self) -> (s: String)
        ensures
            s@ == "Unknown provider: "@ + self.id@,
    {
        join(String::from_str("Unknown provider: "), self.id.as_str())
    }
}

impl Provider {
    /// The provider's wire identifier.
    pub open spec fn wire_id(self) -> Seq<char> {
        match self {
            Provider::Facebook => "facebook.com"@,
            Provider::Google => "google.com"@,
            Provider::Apple => "apple.com"@,
        }
    }

    /// The provider that a wire identifier names, where it names one.
    pub open spec fn resolve(id: Seq<char>) -> Option<Provider> {
        if id == "facebook.com"@ {
            Some(Provider::Facebook)
        } else if id == "google.com"@ {
            Some(Provider::Google)
        } else if id == "apple.com"@ {
            Some(Provider::Apple)
        } else {
            None
        }
    }

    /// The provider's name, as it is shown.
    pub open spec fn name(self) -> Seq<char> {
        match self {
            Provider::Facebook => "Facebook"@,
            Provider::Google => "Google"@,
            Provider::Apple => "Apple"@,
        }
    }

    /// The provider's wire identifier.
    pub fn provider_id(&self) -> (id: String)
        ensures
            id@ == self.wire_id(),
    {
        match self {
            Provider::Facebook => String::from_str("facebook.com"),
            Provider::Google => String::from_str("google.com"),
            Provider::Apple => String::from_str("apple.com"),
        }
    }

    /// Resolves a wire identifier. Any string but the three identifiers is
    /// rejected, and the rejection carries the string.
    pub fn from_provider_id(id: &str) -> (resolved: Result<Provider, UnknownProvider>)
        ensures
            match Provider::resolve(id@) {
                Some(p) => resolved == Ok::<Provider, UnknownProvider>(p),
                None => resolved is Err && resolved->Err_0.id@ == id@,
            },
    {
        if same_text(id, "facebook.com") {
            Ok(Provider::Facebook)
        } else if same_text(id, "google.com") {
            Ok(Provider::Google)
        } else if same_text(id, "apple.com") {
            Ok(Provider::Apple)
        } else {
            Err(UnknownProvider { id: String::from_str(id) })
        }
    }

    /// The provider's name.
    pub fn to_string(&self) -> (s: String)
        ensures
            s@ == self.name(),
    {
        match self {
            Provider::Facebook => String::from_str("Facebook"),
            Provider::Google => String::from_str("Google"),
            Provider::Apple => String::from_str("Apple"),
        }
    }
}

/// A provider's wire identifier resolves to that provider.
pub proof fn lemma_wire_id_resolves(p: Provider)
    ensures
        Provider::resolve(p.wire_id()) == Some(p),
{
    reveal_strlit("facebook.com");
    reveal_strlit("google.com");
    reveal_strlit("apple.com");
    assert("facebook.com"@.len() == 12);
    assert("google.com"@.len() == 10);
    assert("apple.com"@.len() == 9);
}

/// Resolving a wire identifier and writing the provider's identifier again
/// gives the identifier that was resolved.
pub proof fn lemma_resolve_round_trip(id: Seq<char>)
    requires
        Provider::resolve(id) is Some,
    ensures
        Provider::resolve(id)->Some_0.wire_id() == id,
{
}

/// The body of the federated sign-in request.
#[derive(Debug, Clone, PartialEq, Eq)]
pub struct SignInWithIdpBody<'a> {
    pub request_uri: &'a str,
    pub post_body: String,
    pub return_secure_token: bool,
    pub return_idp_credential: bool,
}

/// What the backend answers to a federated sign-in.
#[derive(Debug, Clone, PartialEq, Eq)]
pub struct SignInWithIdpResponse {
    pub full_name: Option<String>,
    pub email: String,
    pub local_id: String,
    pub refresh_token: String,
}

/// The token envelope of the OAuth2-style provider.
#[derive(Debug, Clone, PartialEq, Eq)]
pub struct FacebookOAuthToken {
    pub access_token: String,
}

/// The token envelope of the OpenID-style provider.
#[derive(Debug, Clone, PartialEq, Eq)]
pub struct GoogleOAuthToken {
    pub id_token: String,
}

/// A bearer credential: the token, the provider that issued it, and the
/// nonce that the nonce-bearing provider asks for.
#[derive(Debug, Clone, PartialEq, Eq)]
pub struct OAuthToken {
    pub token: String,
    pub provider: Provider,
    pub nonce: Option<String>,
}

/// The form encoding of a credential: the field that carries the token is
/// chosen by the provider, and only the nonce-bearing provider appends a nonce.
pub open spec fn credential_encoding(
    token: Seq<char>,
    provider: Provider,
    nonce: Option<Seq<char>>,
) -> Seq<char> {
    match provider {
        Provider::Google => "id_token="@ + token + "&providerId="@ + provider.wire_id(),
        Provider::Facebook => "access_token="@ + token + "&providerId="@ + provider.wire_id(),
        Provider::Apple => "id_token="@ + token + "&providerId="@ + provider.wire_id()
            + "&nonce="@ + (match nonce {
            Some(n) => n,
            None => Seq::<char>::empty(),
        }),
    }
}

impl OAuthToken {
    /// The nonce as characters, where there is one.
    pub open spec fn nonce_view(&self) -> Option<Seq<char>> {
        match self.nonce {
            Some(n) => Some(n@),
            None => None,
        }
    }

    /// The credential as the federated sign-in request carries it.
    pub fn to_string(&self) -> (s: String)
        ensures
            s@ == credential_encoding(self.token@, self.provider, self.nonce_view()),
    {
        let id = self.provider.provider_id();
        match self.provider {
            Provider::Google => {
                let s = join(String::from_str("id_token="), self.token.as_str());
                let s = join(s, "&providerId=");
                join(s, id.as_str())
            },
            Provider::Facebook => {
                let s = join(String::from_str("access_token="), self.token.as_str());
                let s = join(s, "&providerId=");
                join(s, id.as_str())
            },
            Provider::Apple => {
                let s = join(String::from_str("id_token="), self.token.as_str());
                let s = join(s, "&providerId=");
                let s = join(s, id.as_str());
                let s = join(s, "&nonce=");
                match &self.nonce {
                    Some(n) => join(s, n.as_str()),
                    None => {
                        proof {
                            reveal_strlit("");
                            assert(""@ =~= Seq::<char>::empty());
                        }
                        join(s, "")
                    },
                }
            },
        }
    }
}

/// An authorization code and the provider that issued it.
#[derive(Debug, Clone, PartialEq, Eq)]
pub struct OAuthCode {
    pub code: String,
    pub provider: Provider,
}

/// The exchange of one authorization code, whichever provider issued it.
pub struct OAuthCodeExchanger {
    pub code: OAuthCode,
}

impl OAuthCodeExchanger {
    /// An exchange for a copy of `code`.
    pub fn new(code: &OAuthCode) -> (exchanger: Self)
        ensures
            exchanger.code == *code,
    {
        OAuthCodeExchanger { code: OAuthCode { code: code.code.clone(), provider: code.provider } }
    }

    /// What the first step of the exchange comes to for a code of `provider`.
    pub open spec fn requested(
        provider: Provider,
        code: Seq<char>,
        info: Map<Seq<char>, Seq<char>>,
        built: Result<ExchangeRequest, CodeExhangeError>,
    ) -> bool {
        match provider {
            Provider::Google => match GoogleCodeExchanger::missing_key(info) {
                Some(key) => built == Err::<ExchangeRequest, CodeExhangeError>(
                    CodeExhangeError::ParamError(key),
                ),
                None => built is Ok && built->Ok_0@ == GoogleCodeExchanger::spec_request(
                    GoogleCodeExchanger::body(code, info),
                ),
            },
            Provider::Facebook => match FacebookCodeExchanger::missing_key(info) {
                Some(key) => built == Err::<ExchangeRequest, CodeExhangeError>(
                    CodeExhangeError::ParamError(key),
                ),
                None => built is Ok && built->Ok_0@ == FacebookCodeExchanger::spec_request(
                    code,
                    info,
                ),
            },
            Provider::Apple => built == Err::<ExchangeRequest, CodeExhangeError>(
                CodeExhangeError::UnsupportedProvider(provider),
            ),
        }
    }

    /// The first step of the exchange: the request that the code's provider
    /// is to be asked, or why none is sent. A provider without an exchange is
    /// refused here, before anything is sent. The answer to the request goes
    /// to the `exchange` of the provider that the request names.
    pub fn exchange_for_access_token(&self, info: &ExchangeParams) -> (built: Result<
        ExchangeRequest,
        CodeExhangeError,
    >)
        ensures
            Self::requested(self.code.provider, self.code.code@, info@, built),
    {
        match self.code.provider {
            Provider::Google => GoogleCodeExchanger::request(&self.code.code, info),
            Provider::Facebook => FacebookCodeExchanger::request(&self.code.code, info),
            _ => Err(CodeExhangeError::UnsupportedProvider(self.code.provider)),
        }
    }
}

} // verus!
