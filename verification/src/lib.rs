//! A browsing client for a Plex media server: it turns the server's markup
//! responses into a normalized list of catalog items, tracks the navigation
//! position as a path stack, and decides whether a selected entry is opened
//! externally or descended into.
#![verifier::loop_isolation(false)]

use vstd::prelude::*;

pub mod config;
pub mod dispatch;
pub mod item;
pub mod markup;
pub mod nav;
pub mod session;
pub mod strutil;
pub mod translate;

verus! {

/// Creates a fresh, unconfigured plugin instance: empty configuration and an
/// empty path stack, both filled in by the host through `initialize` and
/// `initial_load`.
pub fn initialize() -> (r: session::Plugin)
    ensures
        r.config.base_path@ == Seq::<char>::empty(),
        r.config.token@ == Seq::<char>::empty(),
        r.nav@ == Seq::<Seq<char>>::empty(),
{
    session::Plugin { config: config::ServerConfig::new(), nav: nav::NavigationState::new() }
}

} // verus!
