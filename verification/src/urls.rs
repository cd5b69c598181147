//! The URLs of the sign-in and the sign-out.

use vstd::prelude::*;
#[allow(unused_imports)]
use vstd::string::*;

use crate::encoding;
use crate::meta::{CommonConfig, OidcDiscovery};
use crate::text;

verus! {

/// Where the provider with an issuer publishes its discovery document.
pub open spec fn discovery_location(issuer: Seq<char>) -> Seq<char> {
    text::trim_end_char(issuer, '/') + "/.well-known/openid-configuration"@
}

/// The query of an authorization request for the code flow with PKCE.
pub open spec fn authz_query(
    client_id: Seq<char>,
    redirect_uri: Seq<char>,
    api_indicator: Seq<char>,
    state: Seq<char>,
    challenge: Seq<char>,
) -> Seq<char> {
    "?response_type=code&client_id="@ + encoding::url_component(client_id) + "&redirect_uri="@
        + encoding::url_component(redirect_uri) + "&state="@ + encoding::url_component(state)
        + "&scope=openid profile email "@ + encoding::url_component(api_indicator)
        + "&code_challenge="@ + encoding::url_component(challenge) + "&code_challenge_method=S256"@
}

/// Where the web application lives.
pub open spec fn web_location(web_url: Seq<char>, base_uri: Seq<char>) -> Seq<char> {
    web_url + base_uri + "/web/"@
}

/// Where the sign-out leads: through the provider's end-session endpoint where
/// it has one, else to the sign-in page of the web application.
pub open spec fn logout_location(
    end_session: Option<Seq<char>>,
    post_logout_uri: Seq<char>,
    web_url: Seq<char>,
    base_uri: Seq<char>,
) -> Seq<char> {
    match end_session {
        Some(endpoint) => endpoint + "?post_logout_redirect_uri="@ + encoding::url_component(
            post_logout_uri,
        ),
        None => web_url + base_uri + "/login"@,
    }
}

/// The URL of the discovery document of an issuer.
pub fn discovery_url(issuer: &str) -> (r: String)
    ensures
        r@ == discovery_location(issuer@),
{
    text::trim_end_matches(issuer, '/').to_string().concat("/.well-known/openid-configuration")
}

/// The URL that sends a user to the provider to sign in (authorization code
/// with PKCE).
pub fn build_authz_url(
    discovery: &OidcDiscovery,
    client_id: &str,
    redirect_uri: &str,
    api_indicator: &str,
    state: &str,
    challenge: &str,
) -> (r: String)
    ensures
        r@ == discovery@.authorization_endpoint + authz_query(
            client_id@,
            redirect_uri@,
            api_indicator@,
            state@,
            challenge@,
        ),
{
    let url = discovery.authorization_endpoint.clone().concat("?response_type=code&client_id=");
    let url = url.concat(encoding::url_encode(client_id).as_str());
    let url = url.concat("&redirect_uri=");
    let url = url.concat(encoding::url_encode(redirect_uri).as_str());
    let url = url.concat("&state=");
    let url = url.concat(encoding::url_encode(state).as_str());
    let url = url.concat("&scope=openid profile email ");
    let url = url.concat(encoding::url_encode(api_indicator).as_str());
    let url = url.concat("&code_challenge=");
    let url = url.concat(encoding::url_encode(challenge).as_str());
    let url = url.concat("&code_challenge_method=S256");
    assert(url@ =~= discovery@.authorization_endpoint + authz_query(
        client_id@,
        redirect_uri@,
        api_indicator@,
        state@,
        challenge@,
    ));
    url
}

/// The URL of the web application.
pub fn web_app_url(common: &CommonConfig) -> (r: String)
    ensures
        r@ == web_location(common.web_url@, common.base_uri@),
        r@ == common.web_url@ + common.base_uri@ + "/web/"@,
{
    common.web_url.clone().concat(common.base_uri.as_str()).concat("/web/")
}

/// The URL that ends a session.
pub fn logout_url(end_session: Option<&str>, post_logout_uri: &str, common: &CommonConfig) -> (r:
    String)
    ensures
        r@ == logout_location(
            text::opt_str(end_session),
            post_logout_uri@,
            common.web_url@,
            common.base_uri@,
        ),
{
    match end_session {
        Some(endpoint) => endpoint.to_string().concat("?post_logout_redirect_uri=").concat(
            encoding::url_encode(post_logout_uri).as_str(),
        ),
        None => common.web_url.clone().concat(common.base_uri.as_str()).concat("/login"),
    }
}

} // verus!
