//! The host-facing session: owns the server configuration and the navigation
//! state, accepts the host's settings, builds the request for the current
//! location, folds a transport response into catalog items, and dispatches
//! selections and back-navigation.

use vstd::prelude::*;
use vstd::string::StringExecFns;
use crate::config::{plex_url, ServerConfig};
use crate::dispatch::{decide, decide_model, Action};
use crate::item::{items_model, CatalogItem};
use crate::markup::markup_of;
use crate::nav::{back_model, descend_model, location_of, NavigationState};
use crate::strutil::{
    dec_rep, lookup, lookup_in, pairs_model, starts_with, trim_slashes, trim_trailing_slashes,
    u16_string,
};
use crate::translate::{translate, translate_model, ParseError};

verus! {

/// Why a load attempt failed.
#[derive(Debug, Clone)]
pub enum LoadError {
    /// The server answered with a non-success status.
    Status(u16),
    /// The response body could not be translated.
    Parse(ParseError),
}

impl LoadError {
    /// The user-visible message for this failure.
    pub fn message(&self) -> (r: String)
        ensures
            match self {
                LoadError::Status(c) => r@ == "returned status "@ + dec_rep(*c as nat),
                LoadError::Parse(ParseError::InvalidMarkup) => r@
                    == "malformed response document"@,
                LoadError::Parse(ParseError::MissingAttribute) => r@
                    == "response entry is missing a required attribute"@,
            },
    {
        match self {
            LoadError::Status(c) => {
                let mut s = String::from_str("returned status ");
                let num = u16_string(*c);
                s.append(num.as_str());
                s
            },
            LoadError::Parse(ParseError::InvalidMarkup) => String::from_str(
                "malformed response document",
            ),
            LoadError::Parse(ParseError::MissingAttribute) => String::from_str(
                "response entry is missing a required attribute",
            ),
        }
    }
}

/// One plugin instance: the configuration supplied at initialization and the
/// navigation position, mutated only between fetches.
#[derive(Debug)]
pub struct Plugin {
    pub config: ServerConfig,
    pub nav: NavigationState,
}

impl Plugin {
    /// The plugin's display name.
    pub fn name(&self) -> (r: &'static str)
        ensures
            r@ == "Plex"@,
    {
        "Plex"
    }

    /// Takes the two required settings out of the host's configuration
    /// pairs. Either one missing is a fatal initialization error; the server
    /// base is recorded even when the token then turns out to be missing.
    pub fn initialize(&mut self, settings: &Vec<(String, String)>) -> (r: Result<(), String>)
        ensures
            match lookup_in(pairs_model(settings@), "plex_server"@) {
                None => (r matches Err(e) && e@ == "plex_server setting is required"@)
                    && *final(self) == *old(self),
                Some(b) => {
                    &&& final(self).config.base_path@ == b
                    &&& final(self).nav == old(self).nav
                    &&& match lookup_in(pairs_model(settings@), "plex_token"@) {
                        None => (r matches Err(e) && e@ == "plex_token setting is required"@)
                            && final(self).config.token == old(self).config.token,
                        Some(t) => r is Ok && final(self).config.token@ == t,
                    }
                },
            },
    {
        match lookup(settings, "plex_server") {
            None => {
                return Err(String::from_str("plex_server setting is required"));
            },
            Some(s) => {
                self.config.base_path = s;
            },
        }
        match lookup(settings, "plex_token") {
            None => {
                return Err(String::from_str("plex_token setting is required"));
            },
            Some(t) => {
                self.config.token = t;
            },
        }
        Ok(())
    }

    /// The settings this plugin asks the host for, with their defaults.
    pub fn settings(&self) -> (r: Vec<(String, String)>)
        ensures
            pairs_model(r@) =~= seq![
                ("plex_server"@, Seq::<char>::empty()),
                ("plex_token"@, Seq::<char>::empty()),
            ],
    {
        let mut r: Vec<(String, String)> = Vec::new();
        r.push((String::from_str("plex_server"), String::new()));
        r.push((String::from_str("plex_token"), String::new()));
        r
    }

    /// Resets navigation to the catalog root.
    pub fn initial_load(&mut self)
        ensures
            final(self).nav@ == seq!["/library/sections"@],
            final(self).config == old(self).config,
    {
        self.nav.reset_to("/library/sections");
    }

    /// Builds the token-bearing URL for a server-relative resource path.
    pub fn get_plex_path(&self, path: &str) -> (r: String)
        ensures
            r@ == plex_url(self.config.base_path@, path@, self.config.token@),
    {
        self.config.url_for(path)
    }

    /// Composes the request for the current location: the trimmed server
    /// base followed by the joined path stack, and the token to send as the
    /// `X-Plex-Token` query parameter. Fails, before any transport work,
    /// exactly when either required setting is absent.
    pub fn build_request(&self) -> (r: Result<(String, String), String>)
        ensures
            r is Ok <==> self.config.is_configured(),
            r matches Ok(p) ==> p.0@ == trim_trailing_slashes(self.config.base_path@)
                + location_of(self.nav@) && p.1@ == self.config.token@,
            r matches Err(e) ==> e@ == "plex_server or plex_token settings missing"@,
    {
        if self.config.base_path.as_str().is_empty() || self.config.token.as_str().is_empty() {
            return Err(String::from_str("plex_server or plex_token settings missing"));
        }
        let mut url = String::from_str(trim_slashes(self.config.base_path.as_str()));
        let loc = self.nav.current_location();
        url.append(loc.as_str());
        Ok((url, self.config.token.clone()))
    }

    /// Folds the transport's answer into catalog items: a non-success status
    /// fails with that status; a success body is translated.
    pub fn accept_response(&self, status: u16, body: &str) -> (r: Result<
        Vec<CatalogItem>,
        LoadError,
    >)
        ensures
            !(200 <= status <= 299) ==> r == Err::<Vec<CatalogItem>, LoadError>(
                LoadError::Status(status),
            ),
            200 <= status <= 299 ==> {
                &&& (markup_of(body@) is None <==> r == Err::<Vec<CatalogItem>, LoadError>(
                    LoadError::Parse(ParseError::InvalidMarkup),
                ))
                &&& (markup_of(body@) matches Some(ns) ==> match r {
                    Ok(v) => translate_model(self.config.base_path@, self.config.token@, ns)
                        == Some(items_model(v@)),
                    Err(e) => e == LoadError::Parse(ParseError::MissingAttribute)
                        && translate_model(
                        self.config.base_path@,
                        self.config.token@,
                        ns,
                    ) is None,
                })
            },
    {
        if status < 200 || status > 299 {
            return Err(LoadError::Status(status));
        }
        match translate(body, &self.config) {
            Ok(v) => Ok(v),
            Err(p) => Err(LoadError::Parse(p)),
        }
    }

    /// Handles a selection: a playable media path becomes a launch action
    /// with its token-bearing URL and leaves navigation alone; any other
    /// path is descended into, to be followed by a reload.
    pub fn on_selected(&mut self, _name: &str, path: &str) -> (r: Action)
        ensures
            r@ == decide_model(old(self).config.base_path@, old(self).config.token@, path@),
            final(self).config == old(self).config,
            starts_with(path@, "/library/parts"@) ==> final(self).nav == old(self).nav,
            !starts_with(path@, "/library/parts"@) ==> final(self).nav@ == descend_model(
                old(self).nav@,
                path@,
            ),
    {
        match decide(&self.config, path) {
            Action::Launch(url) => Action::Launch(url),
            Action::Descend => {
                self.nav.descend(path);
                Action::Descend
            },
        }
    }

    /// Handles back-navigation: pops the path stack unless only the root
    /// remains, and always reports the event as handled.
    pub fn on_back(&mut self) -> (r: bool)
        ensures
            r == true,
            final(self).nav@ == back_model(old(self).nav@),
            final(self).config == old(self).config,
    {
        self.nav.back()
    }
}

} // verus!
