//! The data of the Logto (OIDC) integration, each type with its view, and the
//! settings.

use vstd::prelude::*;

use crate::text;

verus! {

/// The part of the OIDC discovery document that the sign-in needs.
pub struct OidcDiscovery {
    pub issuer: String,
    pub authorization_endpoint: String,
    pub token_endpoint: String,
    pub jwks_uri: String,
    /// The single sign-out endpoint, which some providers lack.
    pub end_session_endpoint: Option<String>,
}

/// The view of [`OidcDiscovery`].
pub struct OidcDiscoveryView {
    pub issuer: Seq<char>,
    pub authorization_endpoint: Seq<char>,
    pub token_endpoint: Seq<char>,
    pub jwks_uri: Seq<char>,
    pub end_session_endpoint: Option<Seq<char>>,
}

impl View for OidcDiscovery {
    type V = OidcDiscoveryView;

    open spec fn view(&self) -> OidcDiscoveryView {
        OidcDiscoveryView {
            issuer: self.issuer@,
            authorization_endpoint: self.authorization_endpoint@,
            token_endpoint: self.token_endpoint@,
            jwks_uri: self.jwks_uri@,
            end_session_endpoint: text::opt_text(self.end_session_endpoint),
        }
    }
}

/// The response of the token endpoint to a successful exchange of a code.
pub struct TokenResponse {
    pub access_token: String,
    pub id_token: String,
    pub refresh_token: Option<String>,
    pub expires_in: Option<i64>,
    /// The granted scopes, separated by spaces.
    pub scope: Option<String>,
}

/// The view of [`TokenResponse`].
pub struct TokenResponseView {
    pub access_token: Seq<char>,
    pub id_token: Seq<char>,
    pub refresh_token: Option<Seq<char>>,
    pub expires_in: Option<i64>,
    pub scope: Option<Seq<char>>,
}

impl View for TokenResponse {
    type V = TokenResponseView;

    open spec fn view(&self) -> TokenResponseView {
        TokenResponseView {
            access_token: self.access_token@,
            id_token: self.id_token@,
            refresh_token: text::opt_text(self.refresh_token),
            expires_in: self.expires_in,
            scope: text::opt_text(self.scope),
        }
    }
}

/// The claims of a verified ID token.
pub struct IdTokenClaims {
    pub sub: String,
    pub email: String,
    pub name: Option<String>,
    pub given_name: Option<String>,
    pub family_name: Option<String>,
    /// The audience as JSON text: OIDC allows a string or an array of strings.
    pub aud: String,
    pub exp: i64,
    pub iss: String,
}

/// The view of [`IdTokenClaims`].
pub struct IdTokenClaimsView {
    pub sub: Seq<char>,
    pub email: Seq<char>,
    pub name: Option<Seq<char>>,
    pub given_name: Option<Seq<char>>,
    pub family_name: Option<Seq<char>>,
    pub aud: Seq<char>,
    pub exp: i64,
    pub iss: Seq<char>,
}

impl View for IdTokenClaims {
    type V = IdTokenClaimsView;

    open spec fn view(&self) -> IdTokenClaimsView {
        IdTokenClaimsView {
            sub: self.sub@,
            email: self.email@,
            name: text::opt_text(self.name),
            given_name: text::opt_text(self.given_name),
            family_name: text::opt_text(self.family_name),
            aud: self.aud@,
            exp: self.exp,
            iss: self.iss@,
        }
    }
}

/// A pending sign-in: the PKCE code verifier that belongs to a `state`, and
/// when it was made, in microseconds since 1970.
pub struct AuthSession {
    pub code_verifier: String,
    pub created_at: i64,
}

/// The view of [`AuthSession`].
pub struct AuthSessionView {
    pub code_verifier: Seq<char>,
    pub created_at: i64,
}

impl View for AuthSession {
    type V = AuthSessionView;

    open spec fn view(&self) -> AuthSessionView {
        AuthSessionView { code_verifier: self.code_verifier@, created_at: self.created_at }
    }
}

/// The contents of the session cookie.
pub struct AuthTokens {
    pub access_token: String,
    pub refresh_token: String,
}

/// The view of [`AuthTokens`].
pub struct AuthTokensView {
    pub access_token: Seq<char>,
    pub refresh_token: Seq<char>,
}

impl View for AuthTokens {
    type V = AuthTokensView;

    open spec fn view(&self) -> AuthTokensView {
        AuthTokensView { access_token: self.access_token@, refresh_token: self.refresh_token@ }
    }
}

/// The settings of the integration.
pub struct LogtoConfig {
    pub enabled: bool,
    pub issuer: String,
    pub client_id: String,
    pub client_secret: String,
    pub redirect_uri: String,
    pub api_indicator: String,
    pub post_logout_uri: String,
}

/// The settings of authentication.
pub struct AuthConfig {
    pub logto: LogtoConfig,
    pub root_user_email: String,
    pub cookie_secure_only: bool,
    pub cookie_same_site_lax: bool,
    /// The lifetime of the session cookie in seconds.
    pub cookie_max_age: i64,
}

/// The settings of the web server.
pub struct CommonConfig {
    pub web_url: String,
    pub base_uri: String,
}

/// The settings that the sign-in reads.
pub struct Config {
    pub auth: AuthConfig,
    pub common: CommonConfig,
}

} // verus!
