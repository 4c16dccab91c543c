//! The response translator: walks every node of a parsed document, dispatches
//! on the tag name, and produces one normalized catalog item per recognized
//! node, in document order. Unrecognized tags are skipped; a missing required
//! attribute aborts the whole translation.

use vstd::prelude::*;
use vstd::string::StringExecFns;
use crate::config::{plex_url, ServerConfig};
use crate::item::{ArtModel, ArtworkRef, CatalogItem, ItemModel, items_model};
use crate::markup::{attr_of, markup_of, nodes_model, parse_markup, find_attr, MarkupNode, NodeModel};
use crate::strutil::str_eq;

verus! {

/// Why a document could not be translated.
#[derive(Debug, Clone)]
pub enum ParseError {
    /// The text is not well-formed markup.
    InvalidMarkup,
    /// A recognized node lacks a required attribute (`title` or `key` on a
    /// folder entry, `title` or `summary` on a media entry, or `key` on a
    /// media entry's part).
    MissingAttribute,
}

/// The art reference a node resolves to: a token-bearing remote URL when the
/// node carries an `art` attribute, the local placeholder otherwise.
pub open spec fn art_model(base: Seq<char>, token: Seq<char>, n: NodeModel) -> ArtModel {
    match attr_of(n, "art"@) {
        Some(a) => ArtModel::RemoteUrl(plex_url(base, a, token)),
        None => ArtModel::LocalFile("./folder.jpg"@),
    }
}

/// A node's content rating: the `contentRating` attribute, or empty when
/// absent.
pub open spec fn rating_of(n: NodeModel) -> Seq<char> {
    match attr_of(n, "contentRating"@) {
        Some(r) => r,
        None => Seq::empty(),
    }
}

/// The least `j >= from` at which the subtree of a node of depth `d` ends:
/// the first following position whose depth is not greater than `d`.
pub open spec fn subtree_end(nodes: Seq<NodeModel>, from: int, d: nat) -> int
    decreases nodes.len() - from,
{
    if from < 0 || from >= nodes.len() {
        from
    } else if nodes[from].depth <= d {
        from
    } else {
        subtree_end(nodes, from + 1, d)
    }
}

/// The first position in `[from, end)` holding a node tagged `Part`.
pub open spec fn first_part(nodes: Seq<NodeModel>, from: int, end: int) -> Option<int>
    decreases end - from,
{
    if from >= end {
        None
    } else if nodes[from].tag == "Part"@ {
        Some(from)
    } else {
        first_part(nodes, from + 1, end)
    }
}

/// The resource key of the media node at `i`: the `key` attribute of the
/// first `Part` node among its descendants; empty when no such descendant
/// exists; `None` when the `Part` node lacks the attribute.
pub open spec fn video_path(nodes: Seq<NodeModel>, i: int) -> Option<Seq<char>> {
    let end = subtree_end(nodes, i + 1, nodes[i].depth);
    match first_part(nodes, i + 1, end) {
        None => Some(Seq::empty()),
        Some(k) => attr_of(nodes[k], "key"@),
    }
}

/// What translating the node at `i` contributes.
pub enum NodeOutcome {
    /// Unrecognized tag: the node is silently skipped.
    Skip,
    /// A folder or media entry.
    Produce(ItemModel),
    /// A required attribute is missing.
    Fail,
}

/// The item the node at `i` translates to. A `Directory` node needs `title`
/// and `key`; a `Video` node needs `title` and `summary`, takes its path from
/// its first `Part` descendant, and is restricted exactly when its rating is
/// `"R"`; every other tag is skipped.
pub open spec fn node_outcome(
    base: Seq<char>,
    token: Seq<char>,
    nodes: Seq<NodeModel>,
    i: int,
) -> NodeOutcome {
    let n = nodes[i];
    if n.tag == "Directory"@ {
        match (attr_of(n, "title"@), attr_of(n, "key"@)) {
            (Some(t), Some(k)) => NodeOutcome::Produce(
                ItemModel {
                    name: t,
                    path: k,
                    artwork: art_model(base, token, n),
                    restricted: false,
                    description: Seq::empty(),
                },
            ),
            _ => NodeOutcome::Fail,
        }
    } else if n.tag == "Video"@ {
        match (attr_of(n, "title"@), attr_of(n, "summary"@), video_path(nodes, i)) {
            (Some(t), Some(s), Some(p)) => NodeOutcome::Produce(
                ItemModel {
                    name: t,
                    path: p,
                    artwork: art_model(base, token, n),
                    restricted: rating_of(n) == "R"@,
                    description: s,
                },
            ),
            _ => NodeOutcome::Fail,
        }
    } else {
        NodeOutcome::Skip
    }
}

/// The items the nodes from `i` on translate to, in document order, or
/// `None` when some node fails.
pub open spec fn translate_from(
    base: Seq<char>,
    token: Seq<char>,
    nodes: Seq<NodeModel>,
    i: int,
) -> Option<Seq<ItemModel>>
    decreases nodes.len() - i,
{
    if i >= nodes.len() {
        Some(Seq::empty())
    } else {
        match node_outcome(base, token, nodes, i) {
            NodeOutcome::Fail => None,
            NodeOutcome::Skip => translate_from(base, token, nodes, i + 1),
            NodeOutcome::Produce(it) => match translate_from(base, token, nodes, i + 1) {
                None => None,
                Some(rest) => Some(seq![it] + rest),
            },
        }
    }
}

/// The items a whole node list translates to, or `None` when some node lacks
/// a required attribute.
pub open spec fn translate_model(
    base: Seq<char>,
    token: Seq<char>,
    nodes: Seq<NodeModel>,
) -> Option<Seq<ItemModel>> {
    translate_from(base, token, nodes, 0)
}

/// Extracts a node's display title and resolves its art reference.
pub fn get_title_and_art(config: &ServerConfig, node: &MarkupNode) -> (r: Result<
    (String, ArtworkRef),
    ParseError,
>)
    ensures
        match r {
            Ok(p) => attr_of(node@, "title"@) == Some(p.0@) && p.1@ == art_model(
                config.base_path@,
                config.token@,
                node@,
            ),
            Err(e) => e is MissingAttribute && attr_of(node@, "title"@) is None,
        },
{
    let art = match find_attr(node, "art") {
        Some(a) => ArtworkRef::RemoteUrl(config.url_for(a.as_str())),
        None => ArtworkRef::LocalFile(String::from_str("./folder.jpg")),
    };
    match find_attr(node, "title") {
        Some(t) => Ok((t, art)),
        None => Err(ParseError::MissingAttribute),
    }
}

/// A subtree never ends before the position it starts from.
proof fn lemma_subtree_end_ge(nodes: Seq<NodeModel>, from: int, d: nat)
    requires
        0 <= from,
    ensures
        subtree_end(nodes, from, d) >= from,
    decreases nodes.len() - from,
{
    if from < nodes.len() && nodes[from].depth > d {
        lemma_subtree_end_ge(nodes, from + 1, d);
    }
}

/// Finds the resource key of the media node at `i`: the `key` attribute of
/// its first `Part` descendant, or the empty string when it has none.
fn find_part_key(nodes: &Vec<MarkupNode>, i: usize) -> (r: Result<String, ParseError>)
    requires
        i < nodes@.len(),
    ensures
        match r {
            Ok(p) => video_path(nodes_model(nodes@), i as int) == Some(p@),
            Err(e) => e is MissingAttribute && video_path(nodes_model(nodes@), i as int) is None,
        },
{
    let ghost m = nodes_model(nodes@);
    let len = nodes.len();
    let d = nodes[i].depth;
    let ghost end = subtree_end(m, i + 1, d as nat);
    proof {
        lemma_subtree_end_ge(m, i + 1, d as nat);
    }
    let mut j: usize = i + 1;
    while j < len && nodes[j].depth > d
        invariant
            i < j <= nodes@.len(),
            subtree_end(m, i + 1, d as nat) == subtree_end(m, j as int, d as nat),
            first_part(m, i + 1, end) == first_part(m, j as int, end),
            j <= end,
        decreases nodes@.len() - j,
    {
        proof {
            assert(subtree_end(m, j as int, d as nat) == subtree_end(m, j + 1, d as nat));
            lemma_subtree_end_ge(m, j + 1, d as nat);
            assert(j < end);
        }
        if str_eq(nodes[j].tag.as_str(), "Part") {
            return match find_attr(&nodes[j], "key") {
                Some(k) => Ok(k),
                None => Err(ParseError::MissingAttribute),
            };
        }
        j += 1;
    }
    proof {
        assert(subtree_end(m, j as int, d as nat) == j);
        assert(first_part(m, j as int, end) is None);
    }
    Ok(String::new())
}

/// Translates a node list into catalog items: one per recognized node, in
/// document order; fails exactly when some recognized node lacks a required
/// attribute.
pub fn translate_nodes(nodes: &Vec<MarkupNode>, config: &ServerConfig) -> (r: Result<
    Vec<CatalogItem>,
    ParseError,
>)
    ensures
        match r {
            Ok(v) => translate_model(config.base_path@, config.token@, nodes_model(nodes@))
                == Some(items_model(v@)),
            Err(e) => e is MissingAttribute && translate_model(
                config.base_path@,
                config.token@,
                nodes_model(nodes@),
            ) is None,
        },
{
    let ghost m = nodes_model(nodes@);
    let ghost base = config.base_path@;
    let ghost token = config.token@;
    let mut result: Vec<CatalogItem> = Vec::new();
    let mut i: usize = 0;
    proof {
        assert(items_model(result@) + translate_from(base, token, m, 0)->Some_0
            =~= translate_from(base, token, m, 0)->Some_0);
    }
    while i < nodes.len()
        invariant
            i <= nodes@.len(),
            translate_from(base, token, m, 0) == (match translate_from(base, token, m, i as int) {
                None => None::<Seq<ItemModel>>,
                Some(rest) => Some(items_model(result@) + rest),
            }),
        decreases nodes@.len() - i,
    {
        let node = &nodes[i];
        proof {
            assert(m[i as int] == node@);
        }
        if str_eq(node.tag.as_str(), "Directory") {
            let (name, art) = match get_title_and_art(config, node) {
                Ok(p) => p,
                Err(e) => {
                    return Err(e);
                },
            };
            let path = match find_attr(node, "key") {
                Some(k) => k,
                None => {
                    return Err(ParseError::MissingAttribute);
                },
            };
            let item = CatalogItem {
                name,
                path,
                artwork: art,
                restricted: false,
                description: String::new(),
            };
            proof {
                let it = item@;
                assert(it.description =~= Seq::<char>::empty());
                assert(node_outcome(base, token, m, i as int) == NodeOutcome::Produce(it));
                lemma_shift_item(items_model(result@), it, result@, item,
                    translate_from(base, token, m, i + 1));
            }
            result.push(item);
        } else if str_eq(node.tag.as_str(), "Video") {
            let path = match find_part_key(nodes, i) {
                Ok(p) => p,
                Err(e) => {
                    return Err(e);
                },
            };
            let (name, art) = match get_title_and_art(config, node) {
                Ok(p) => p,
                Err(e) => {
                    return Err(e);
                },
            };
            let description = match find_attr(node, "summary") {
                Some(s) => s,
                None => {
                    return Err(ParseError::MissingAttribute);
                },
            };
            let rating = match find_attr(node, "contentRating") {
                Some(c) => c,
                None => String::new(),
            };
            let restricted = str_eq(rating.as_str(), "R");
            let item = CatalogItem { name, path, artwork: art, restricted, description };
            proof {
                let it = item@;
                assert(rating@ == rating_of(m[i as int]));
                assert(node_outcome(base, token, m, i as int) == NodeOutcome::Produce(it));
                lemma_shift_item(items_model(result@), it, result@, item,
                    translate_from(base, token, m, i + 1));
            }
            result.push(item);
        } else {
            proof {
                assert(node_outcome(base, token, m, i as int) is Skip);
            }
        }
        i += 1;
    }
    Ok(result)
}

/// Appending an item to the produced prefix and prepending it to the
/// remaining suffix meet in the middle.
proof fn lemma_shift_item(
    pre: Seq<ItemModel>,
    it: ItemModel,
    items: Seq<CatalogItem>,
    item: CatalogItem,
    rest: Option<Seq<ItemModel>>,
)
    requires
        pre == items_model(items),
        it == item@,
    ensures
        rest matches Some(r) ==> pre + (seq![it] + r) == items_model(items.push(item)) + r,
{
    if rest is Some {
        let r = rest->Some_0;
        assert(items_model(items.push(item)) =~= pre.push(it));
        assert(pre + (seq![it] + r) =~= pre.push(it) + r);
    }
}

/// The folder item a `Directory` node with `title` and `key` present
/// translates to.
pub open spec fn dir_item(base: Seq<char>, token: Seq<char>, n: NodeModel) -> ItemModel {
    ItemModel {
        name: match attr_of(n, "title"@) {
            Some(t) => t,
            None => Seq::empty(),
        },
        path: match attr_of(n, "key"@) {
            Some(k) => k,
            None => Seq::empty(),
        },
        artwork: art_model(base, token, n),
        restricted: false,
        description: Seq::empty(),
    }
}

/// The folder items of the nodes from `i` on: one per `Directory` node, in
/// document order.
pub open spec fn directory_items(
    base: Seq<char>,
    token: Seq<char>,
    nodes: Seq<NodeModel>,
    i: int,
) -> Seq<ItemModel>
    decreases nodes.len() - i,
{
    if i >= nodes.len() {
        Seq::empty()
    } else if nodes[i].tag == "Directory"@ {
        seq![dir_item(base, token, nodes[i])] + directory_items(base, token, nodes, i + 1)
    } else {
        directory_items(base, token, nodes, i + 1)
    }
}

/// How many `Directory` nodes stand at or after position `i`.
pub open spec fn count_directories(nodes: Seq<NodeModel>, i: int) -> int
    decreases nodes.len() - i,
{
    if i >= nodes.len() {
        0
    } else if nodes[i].tag == "Directory"@ {
        1 + count_directories(nodes, i + 1)
    } else {
        count_directories(nodes, i + 1)
    }
}

proof fn lemma_directory_only_from(base: Seq<char>, token: Seq<char>, nodes: Seq<NodeModel>, i: int)
    requires
        0 <= i,
        forall|k: int| 0 <= k < nodes.len() ==> nodes[k].tag != "Video"@,
        forall|k: int|
            0 <= k < nodes.len() && nodes[k].tag == "Directory"@ ==> attr_of(
                nodes[k],
                "title"@,
            ) is Some && attr_of(nodes[k], "key"@) is Some,
    ensures
        translate_from(base, token, nodes, i) == Some(directory_items(base, token, nodes, i)),
        directory_items(base, token, nodes, i).len() == count_directories(nodes, i),
        forall|j: int|
            0 <= j < directory_items(base, token, nodes, i).len() ==> !(
            #[trigger] directory_items(base, token, nodes, i)[j]).restricted && directory_items(
                base,
                token,
                nodes,
                i,
            )[j].description == Seq::<char>::empty(),
    decreases nodes.len() - i,
{
    if i < nodes.len() {
        lemma_directory_only_from(base, token, nodes, i + 1);
        let di = directory_items(base, token, nodes, i);
        let rest = directory_items(base, token, nodes, i + 1);
        if nodes[i].tag == "Directory"@ {
            assert(node_outcome(base, token, nodes, i) == NodeOutcome::Produce(
                dir_item(base, token, nodes[i]),
            ));
            assert forall|j: int| 0 <= j < di.len() implies !(#[trigger] di[j]).restricted
                && di[j].description == Seq::<char>::empty() by {
                if j > 0 {
                    assert(di[j] == rest[j - 1]);
                }
            }
        }
    }
}

/// LAW: a well-formed document whose recognized nodes are all `Directory`
/// nodes carrying `title` and `key` translates without error to one folder
/// item per such node, in document order, each non-restricted and with an
/// empty description.
pub proof fn lemma_directory_only_translation(
    base: Seq<char>,
    token: Seq<char>,
    nodes: Seq<NodeModel>,
)
    requires
        forall|k: int| 0 <= k < nodes.len() ==> nodes[k].tag != "Video"@,
        forall|k: int|
            0 <= k < nodes.len() && nodes[k].tag == "Directory"@ ==> attr_of(
                nodes[k],
                "title"@,
            ) is Some && attr_of(nodes[k], "key"@) is Some,
    ensures
        translate_model(base, token, nodes) == Some(directory_items(base, token, nodes, 0)),
        directory_items(base, token, nodes, 0).len() == count_directories(nodes, 0),
        forall|j: int|
            0 <= j < directory_items(base, token, nodes, 0).len() ==> !(
            #[trigger] directory_items(base, token, nodes, 0)[j]).restricted && directory_items(
                base,
                token,
                nodes,
                0,
            )[j].description == Seq::<char>::empty(),
{
    lemma_directory_only_from(base, token, nodes, 0);
}

/// LAW: a media node that produces an item is restricted exactly when its
/// content rating equals `"R"`; any other rating, and an absent one, leaves
/// the item unrestricted.
pub proof fn lemma_video_restricted_iff_rating_r(
    base: Seq<char>,
    token: Seq<char>,
    nodes: Seq<NodeModel>,
    i: int,
)
    requires
        0 <= i < nodes.len(),
        nodes[i].tag == "Video"@,
    ensures
        node_outcome(base, token, nodes, i) matches NodeOutcome::Produce(it) ==> (it.restricted
            <==> rating_of(nodes[i]) == "R"@),
{
    reveal_strlit("Directory");
    reveal_strlit("Video");
    assert("Directory"@.len() != "Video"@.len());
}

/// Translates raw markup into catalog items. Fails with `InvalidMarkup`
/// exactly when the text does not parse, and with `MissingAttribute` exactly
/// when some recognized node lacks a required attribute.
pub fn translate(text: &str, config: &ServerConfig) -> (r: Result<Vec<CatalogItem>, ParseError>)
    ensures
        markup_of(text@) is None <==> (r matches Err(e) && e is InvalidMarkup),
        markup_of(text@) matches Some(ns) ==> match r {
            Ok(v) => translate_model(config.base_path@, config.token@, ns) == Some(
                items_model(v@),
            ),
            Err(e) => e is MissingAttribute && translate_model(
                config.base_path@,
                config.token@,
                ns,
            ) is None,
        },
{
    match parse_markup(text) {
        None => Err(ParseError::InvalidMarkup),
        Some(nodes) => translate_nodes(&nodes, config),
    }
}

} // verus!
