//! The selection dispatcher: a selected path that names a playable media
//! resource is opened externally through a token-bearing URL; any other path
//! is descended into.

use vstd::prelude::*;
use crate::config::{plex_url, ServerConfig};
use crate::strutil::{starts_with, str_starts_with};

verus! {

/// What a selection leads to.
#[derive(Debug)]
pub enum Action {
    /// Open this fully qualified URL with the external handler.
    Launch(String),
    /// Descend into the selected node and reload.
    Descend,
}

/// The mathematical value of an [`Action`].
pub enum ActionModel {
    Launch(Seq<char>),
    Descend,
}

impl View for Action {
    type V = ActionModel;

    open spec fn view(&self) -> ActionModel {
        match self {
            Action::Launch(u) => ActionModel::Launch(u@),
            Action::Descend => ActionModel::Descend,
        }
    }
}

/// The action a selected path decides: `Launch` with the token-bearing URL
/// exactly when the path begins with the media-resource prefix, `Descend`
/// otherwise.
pub open spec fn decide_model(
    base: Seq<char>,
    token: Seq<char>,
    path: Seq<char>,
) -> ActionModel {
    if starts_with(path, "/library/parts"@) {
        ActionModel::Launch(plex_url(base, path, token))
    } else {
        ActionModel::Descend
    }
}

/// Decides whether a selected path is launched externally or descended into.
pub fn decide(config: &ServerConfig, path: &str) -> (r: Action)
    ensures
        r@ == decide_model(config.base_path@, config.token@, path@),
{
    if str_starts_with(path, "/library/parts") {
        Action::Launch(config.url_for(path))
    } else {
        Action::Descend
    }
}

} // verus!
