//! The normalized representation of one catalog entry, the sole output type
//! handed to the host.

use vstd::prelude::*;

verus! {

/// A pointer to cover art: either a fully qualified, token-bearing remote URL
/// or a local placeholder file.
#[derive(Debug, Clone)]
pub enum ArtworkRef {
    RemoteUrl(String),
    LocalFile(String),
}

/// The mathematical value of an [`ArtworkRef`].
pub enum ArtModel {
    RemoteUrl(Seq<char>),
    LocalFile(Seq<char>),
}

impl View for ArtworkRef {
    type V = ArtModel;

    open spec fn view(&self) -> ArtModel {
        match self {
            ArtworkRef::RemoteUrl(u) => ArtModel::RemoteUrl(u@),
            ArtworkRef::LocalFile(f) => ArtModel::LocalFile(f@),
        }
    }
}

/// One entry of the catalog: a folder or a piece of media.
#[derive(Debug, Clone)]
pub struct CatalogItem {
    /// Display title; every produced item carries the server's title.
    pub name: String,
    /// Server-relative resource key: for folders the key to descend with, for
    /// media the playable resource key (empty when the server omits it).
    pub path: String,
    pub artwork: ArtworkRef,
    /// True only when the server-reported content rating equals `"R"`.
    pub restricted: bool,
    /// Empty for folder entries.
    pub description: String,
}

/// The mathematical value of a [`CatalogItem`].
pub struct ItemModel {
    pub name: Seq<char>,
    pub path: Seq<char>,
    pub artwork: ArtModel,
    pub restricted: bool,
    pub description: Seq<char>,
}

impl View for CatalogItem {
    type V = ItemModel;

    open spec fn view(&self) -> ItemModel {
        ItemModel {
            name: self.name@,
            path: self.path@,
            artwork: self.artwork@,
            restricted: self.restricted,
            description: self.description@,
        }
    }
}

/// The views of a produced item sequence.
pub open spec fn items_model(items: Seq<CatalogItem>) -> Seq<ItemModel> {
    Seq::new(items.len(), |i: int| items[i]@)
}

} // verus!
