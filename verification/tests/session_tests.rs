use yaffe_plex::dispatch::Action;
use yaffe_plex::session::{LoadError, Plugin};
use yaffe_plex::translate::ParseError;
use yaffe_plex::initialize;

fn pairs(entries: &[(&str, &str)]) -> Vec<(String, String)> {
    entries.iter().map(|&(k, v)| (String::from(k), String::from(v))).collect()
}

fn configured() -> Plugin {
    let mut p = initialize();
    p.initialize(&pairs(&[("plex_server", "http://host:32400/"), ("plex_token", "tok")]))
        .unwrap();
    p.initial_load();
    p
}

#[test]
fn name_is_plex() {
    let p = initialize();
    assert_eq!(p.name(), "Plex");
}

#[test]
fn settings_lists_both_required_keys_with_empty_defaults() {
    let p = initialize();
    let s = p.settings();
    assert_eq!(s.len(), 2);
    assert_eq!(s[0], (String::from("plex_server"), String::new()));
    assert_eq!(s[1], (String::from("plex_token"), String::new()));
}

#[test]
fn initialize_requires_the_server_setting() {
    let mut p = initialize();
    let r = p.initialize(&pairs(&[("plex_token", "tok")]));
    assert_eq!(r.unwrap_err(), "plex_server setting is required");
}

#[test]
fn initialize_requires_the_token_setting() {
    let mut p = initialize();
    let r = p.initialize(&pairs(&[("plex_server", "http://host")]));
    assert_eq!(r.unwrap_err(), "plex_token setting is required");
}

#[test]
fn build_request_joins_trimmed_base_and_location() {
    let p = configured();
    let (url, token) = p.build_request().unwrap();
    assert_eq!(url, "http://host:32400/library/sections");
    assert_eq!(token, "tok");
}

#[test]
fn build_request_without_token_fails_before_any_transport_work() {
    let mut p = initialize();
    p.initialize(&pairs(&[("plex_server", "http://host"), ("plex_token", "")])).unwrap();
    p.initial_load();
    let r = p.build_request();
    assert_eq!(r.unwrap_err(), "plex_server or plex_token settings missing");
}

#[test]
fn build_request_without_server_fails() {
    let mut p = initialize();
    p.initialize(&pairs(&[("plex_server", ""), ("plex_token", "tok")])).unwrap();
    p.initial_load();
    let r = p.build_request();
    assert_eq!(r.unwrap_err(), "plex_server or plex_token settings missing");
}

#[test]
fn get_plex_path_carries_the_token() {
    let p = configured();
    assert_eq!(
        p.get_plex_path("/library/parts/7"),
        "http://host:32400//library/parts/7?X-Plex-Token=tok"
    );
}

#[test]
fn selecting_a_part_path_launches_with_a_token_url() {
    let mut p = configured();
    match p.on_selected("Movie", "/library/parts/7") {
        Action::Launch(url) => {
            assert_eq!(url, "http://host:32400//library/parts/7?X-Plex-Token=tok");
            assert!(url.contains("X-Plex-Token=tok"));
        },
        Action::Descend => panic!("expected a launch"),
    }
    assert_eq!(p.nav.current_location(), "/library/sections");
}

#[test]
fn selecting_a_section_path_descends() {
    let mut p = configured();
    match p.on_selected("Shows", "/library/sections/3") {
        Action::Descend => {},
        Action::Launch(_) => panic!("expected a descend"),
    }
    assert_eq!(p.nav.current_location(), "/library/sections/3");
}

#[test]
fn on_back_is_always_handled() {
    let mut p = configured();
    p.on_selected("Shows", "/library/sections/3");
    assert!(p.on_back());
    assert!(p.on_back());
    assert_eq!(p.nav.current_location(), "/library/sections/3");
}

#[test]
fn non_success_status_fails_with_that_status() {
    let p = configured();
    let r = p.accept_response(404, "<MediaContainer/>");
    match r {
        Err(LoadError::Status(code)) => assert_eq!(code, 404),
        _ => panic!("expected a status failure"),
    }
}

#[test]
fn status_message_carries_the_number() {
    assert_eq!(LoadError::Status(404).message(), "returned status 404");
    assert_eq!(LoadError::Status(500).message(), "returned status 500");
    assert_eq!(LoadError::Status(0).message(), "returned status 0");
}

#[test]
fn parse_failure_messages() {
    assert_eq!(
        LoadError::Parse(ParseError::InvalidMarkup).message(),
        "malformed response document"
    );
    assert_eq!(
        LoadError::Parse(ParseError::MissingAttribute).message(),
        "response entry is missing a required attribute"
    );
}

#[test]
fn successful_response_is_translated() {
    let p = configured();
    let items = p
        .accept_response(
            200,
            "<MediaContainer><Directory key=\"/library/sections/1\" title=\"Movies\"/></MediaContainer>",
        )
        .unwrap();
    assert_eq!(items.len(), 1);
    assert_eq!(items[0].name, "Movies");
}

#[test]
fn successful_response_with_bad_body_fails_with_parse_error() {
    let p = configured();
    let r = p.accept_response(200, "not markup <");
    assert!(matches!(r, Err(LoadError::Parse(ParseError::InvalidMarkup))));
}
