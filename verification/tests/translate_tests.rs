use yaffe_plex::config::ServerConfig;
use yaffe_plex::item::ArtworkRef;
use yaffe_plex::markup::MarkupNode;
use yaffe_plex::translate::{translate, translate_nodes, ParseError};

fn config() -> ServerConfig {
    ServerConfig { base_path: String::from("http://host:32400"), token: String::from("tok") }
}

fn node(tag: &str, attrs: &[(&str, &str)], depth: usize) -> MarkupNode {
    MarkupNode {
        tag: String::from(tag),
        attrs: attrs.iter().map(|&(k, v)| (String::from(k), String::from(v))).collect(),
        depth,
    }
}

#[test]
fn directories_translate_in_document_order() {
    let doc = "<MediaContainer>\
                 <Directory key=\"/library/sections/1\" title=\"Movies\"/>\
                 <Directory key=\"/library/sections/2\" title=\"Shows\"/>\
               </MediaContainer>";
    let items = translate(doc, &config()).unwrap();
    assert_eq!(items.len(), 2);
    assert_eq!(items[0].name, "Movies");
    assert_eq!(items[0].path, "/library/sections/1");
    assert!(!items[0].restricted);
    assert_eq!(items[0].description, "");
    assert_eq!(items[1].name, "Shows");
    assert_eq!(items[1].path, "/library/sections/2");
    assert!(!items[1].restricted);
    assert_eq!(items[1].description, "");
}

#[test]
fn unknown_tags_are_skipped() {
    let doc = "<MediaContainer>\
                 <Photo key=\"x\"/>\
                 <Directory key=\"k\" title=\"T\"/>\
                 <Track/>\
               </MediaContainer>";
    let items = translate(doc, &config()).unwrap();
    assert_eq!(items.len(), 1);
    assert_eq!(items[0].name, "T");
}

#[test]
fn video_takes_path_from_part_descendant() {
    let doc = "<MediaContainer>\
                 <Video title=\"Movie\" summary=\"About it\">\
                   <Media><Part key=\"/library/parts/1\"/></Media>\
                 </Video>\
               </MediaContainer>";
    let items = translate(doc, &config()).unwrap();
    assert_eq!(items.len(), 1);
    assert_eq!(items[0].path, "/library/parts/1");
    assert_eq!(items[0].name, "Movie");
    assert_eq!(items[0].description, "About it");
}

#[test]
fn video_without_part_gets_empty_path() {
    let doc = "<MediaContainer><Video title=\"M\" summary=\"S\"/></MediaContainer>";
    let items = translate(doc, &config()).unwrap();
    assert_eq!(items.len(), 1);
    assert_eq!(items[0].path, "");
}

#[test]
fn part_of_one_video_does_not_leak_into_the_previous() {
    let doc = "<MediaContainer>\
                 <Video title=\"A\" summary=\"a\"/>\
                 <Video title=\"B\" summary=\"b\">\
                   <Media><Part key=\"/library/parts/9\"/></Media>\
                 </Video>\
               </MediaContainer>";
    let items = translate(doc, &config()).unwrap();
    assert_eq!(items.len(), 2);
    assert_eq!(items[0].path, "");
    assert_eq!(items[1].path, "/library/parts/9");
}

#[test]
fn rating_r_restricts_and_nothing_else_does() {
    let restricted = "<MediaContainer><Video title=\"M\" summary=\"S\" contentRating=\"R\"/></MediaContainer>";
    let items = translate(restricted, &config()).unwrap();
    assert!(items[0].restricted);

    let pg = "<MediaContainer><Video title=\"M\" summary=\"S\" contentRating=\"PG-13\"/></MediaContainer>";
    let items = translate(pg, &config()).unwrap();
    assert!(!items[0].restricted);

    let absent = "<MediaContainer><Video title=\"M\" summary=\"S\"/></MediaContainer>";
    let items = translate(absent, &config()).unwrap();
    assert!(!items[0].restricted);
}

#[test]
fn art_attribute_becomes_token_bearing_url() {
    let doc = "<MediaContainer><Directory key=\"k\" title=\"T\" art=\"/art/1\"/></MediaContainer>";
    let items = translate(doc, &config()).unwrap();
    match &items[0].artwork {
        ArtworkRef::RemoteUrl(u) => {
            assert_eq!(u, "http://host:32400/art/1?X-Plex-Token=tok");
        },
        ArtworkRef::LocalFile(_) => panic!("expected a remote art URL"),
    }
}

#[test]
fn missing_art_falls_back_to_placeholder() {
    let doc = "<MediaContainer><Directory key=\"k\" title=\"T\"/></MediaContainer>";
    let items = translate(doc, &config()).unwrap();
    match &items[0].artwork {
        ArtworkRef::LocalFile(f) => assert_eq!(f, "./folder.jpg"),
        ArtworkRef::RemoteUrl(_) => panic!("expected the local placeholder"),
    }
}

#[test]
fn directory_without_title_fails() {
    let doc = "<MediaContainer><Directory key=\"k\"/></MediaContainer>";
    let r = translate(doc, &config());
    assert!(matches!(r, Err(ParseError::MissingAttribute)));
}

#[test]
fn directory_without_key_fails() {
    let doc = "<MediaContainer><Directory title=\"T\"/></MediaContainer>";
    let r = translate(doc, &config());
    assert!(matches!(r, Err(ParseError::MissingAttribute)));
}

#[test]
fn video_without_summary_fails() {
    let doc = "<MediaContainer><Video title=\"M\"/></MediaContainer>";
    let r = translate(doc, &config());
    assert!(matches!(r, Err(ParseError::MissingAttribute)));
}

#[test]
fn part_without_key_fails() {
    let doc = "<MediaContainer><Video title=\"M\" summary=\"S\"><Part/></Video></MediaContainer>";
    let r = translate(doc, &config());
    assert!(matches!(r, Err(ParseError::MissingAttribute)));
}

#[test]
fn malformed_markup_fails() {
    let r = translate("<MediaContainer><Directory", &config());
    assert!(matches!(r, Err(ParseError::InvalidMarkup)));
}

#[test]
fn translate_nodes_walks_a_constructed_document() {
    let nodes = vec![
        node("", &[], 1),
        node("MediaContainer", &[], 2),
        node("Video", &[("title", "Movie"), ("summary", "S")], 3),
        node("Media", &[], 4),
        node("Part", &[("key", "/library/parts/1")], 5),
        node("Directory", &[("key", "/library/sections/5"), ("title", "Music")], 3),
    ];
    let items = translate_nodes(&nodes, &config()).unwrap();
    assert_eq!(items.len(), 2);
    assert_eq!(items[0].name, "Movie");
    assert_eq!(items[0].path, "/library/parts/1");
    assert_eq!(items[1].name, "Music");
    assert_eq!(items[1].path, "/library/sections/5");
}
