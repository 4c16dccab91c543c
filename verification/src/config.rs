//! The server endpoint configuration: base path and access token, supplied
//! once by the host and carried into every request URL.

use vstd::prelude::*;
use vstd::string::StringExecFns;

verus! {

/// A fully qualified request URL: the server base, the server-relative
/// resource path, and the access token as a query parameter.
pub open spec fn plex_url(base: Seq<char>, path: Seq<char>, token: Seq<char>) -> Seq<char> {
    base + path + "?X-Plex-Token="@ + token
}

/// The server base URL and the pre-issued access token.
#[derive(Debug, Clone)]
pub struct ServerConfig {
    pub base_path: String,
    pub token: String,
}

impl ServerConfig {
    /// Both required settings are present.
    pub open spec fn is_configured(&self) -> bool {
        self.base_path@.len() > 0 && self.token@.len() > 0
    }

    /// Creates an unconfigured instance with both settings empty.
    pub fn new() -> (r: ServerConfig)
        ensures
            r.base_path@ == Seq::<char>::empty(),
            r.token@ == Seq::<char>::empty(),
    {
        ServerConfig { base_path: String::new(), token: String::new() }
    }

    /// Builds the token-bearing URL for a server-relative resource path.
    pub fn url_for(&self, path: &str) -> (r: String)
        ensures
            r@ == plex_url(self.base_path@, path@, self.token@),
    {
        let mut url = String::new();
        url.append(self.base_path.as_str());
        url.append(path);
        url.append("?X-Plex-Token=");
        url.append(self.token.as_str());
        url
    }
}

} // verus!
