//! The cache of the provider's discovery document.

use vstd::prelude::*;

use crate::meta::OidcDiscovery;
#[allow(unused_imports)]
use crate::meta::OidcDiscoveryView;
use crate::text;
use crate::urls;

verus! {

/// A fetched discovery document.
pub struct FetchedDiscovery {
    pub issuer: String,
    pub document: OidcDiscovery,
}

/// The discovery document, cached after the first fetch.
pub struct DiscoveryCache {
    pub fetched: Option<FetchedDiscovery>,
}

/// The cached document of an issuer.
pub open spec fn cached_document(cache: DiscoveryCache, issuer: Seq<char>) -> Option<
    OidcDiscoveryView,
> {
    match cache.fetched {
        Some(fetched) => if fetched.issuer@ == issuer {
            Some(fetched.document@)
        } else {
            None
        },
        None => None,
    }
}

/// Where the discovery document of an issuer comes from.
pub enum DiscoverySource {
    /// The cache has it.
    Cached { document: OidcDiscovery },
    /// It has to be fetched from a URL.
    Fetch { url: String },
}

/// A document with the same contents.
pub fn copy_discovery(document: &OidcDiscovery) -> (r: OidcDiscovery)
    ensures
        r@ == document@,
        r.issuer@ == document.issuer@,
        r.authorization_endpoint@ == document.authorization_endpoint@,
        r.token_endpoint@ == document.token_endpoint@,
        r.jwks_uri@ == document.jwks_uri@,
        text::opt_text(r.end_session_endpoint) == text::opt_text(document.end_session_endpoint),
{
    let end_session_endpoint = match &document.end_session_endpoint {
        Some(url) => Some(url.clone()),
        None => None,
    };
    OidcDiscovery {
        issuer: document.issuer.clone(),
        authorization_endpoint: document.authorization_endpoint.clone(),
        token_endpoint: document.token_endpoint.clone(),
        jwks_uri: document.jwks_uri.clone(),
        end_session_endpoint,
    }
}

impl DiscoveryCache {
    /// A cache that holds no document.
    pub fn new() -> (r: Self)
        ensures
            r.fetched is None,
    {
        DiscoveryCache { fetched: None }
    }

    /// Where the document of an issuer comes from: the cache, or its well-known
    /// URL.
    pub fn fetch_discovery(&self, issuer: &str) -> (r: DiscoverySource)
        ensures
            match cached_document(*self, issuer@) {
                Some(document) => r matches DiscoverySource::Cached { document: d } && d@
                    == document,
                None => r matches DiscoverySource::Fetch { url } && url@
                    == urls::discovery_location(issuer@),
            },
            self.fetched is Some && self.fetched->0.issuer@ == issuer@ ==> (r matches
                DiscoverySource::Cached { document: d } && d@ == self.fetched->0.document@),
            self.fetched is None || self.fetched->0.issuer@ != issuer@ ==> (r matches
                DiscoverySource::Fetch { url } && url@ == text::trim_end_char(issuer@, '/')
                + "/.well-known/openid-configuration"@),
    {
        match &self.fetched {
            Some(fetched) => {
                if text::same(fetched.issuer.as_str(), issuer) {
                    return DiscoverySource::Cached { document: copy_discovery(&fetched.document) };
                }
            },
            None => {},
        }
        DiscoverySource::Fetch { url: urls::discovery_url(issuer) }
    }

    /// Keeps the document that was fetched for an issuer.
    pub fn store(&mut self, issuer: &str, document: &OidcDiscovery)
        ensures
            cached_document(*final(self), issuer@) == Some(document@),
            final(self).fetched matches Some(fetched) && fetched.issuer@ == issuer@
                && fetched.document@ == document@,
            forall|other: Seq<char>|
                other != issuer@ ==> (#[trigger] cached_document(*final(self), other)) is None,
    {
        self.fetched = Some(
            FetchedDiscovery { issuer: issuer.to_string(), document: copy_discovery(document) },
        );
    }
}

} // verus!
