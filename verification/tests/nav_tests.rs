use yaffe_plex::nav::NavigationState;

#[test]
fn absolute_descend_resets_the_stack() {
    let mut nav = NavigationState::new();
    nav.reset_to("/library/sections");
    nav.descend("/library/sections/2");
    assert_eq!(nav.current_location(), "/library/sections/2");
}

#[test]
fn relative_descend_extends_the_stack() {
    let mut nav = NavigationState::new();
    nav.reset_to("/library/sections");
    nav.descend("42");
    assert_eq!(nav.current_location(), "/library/sections/42");
}

#[test]
fn back_pops_one_segment() {
    let mut nav = NavigationState::new();
    nav.reset_to("/library/sections");
    nav.descend("42");
    assert!(nav.back());
    assert_eq!(nav.current_location(), "/library/sections");
}

#[test]
fn back_at_the_root_is_a_handled_no_op() {
    let mut nav = NavigationState::new();
    nav.reset_to("/library/sections");
    assert!(nav.back());
    assert_eq!(nav.current_location(), "/library/sections");
}

#[test]
fn deep_navigation_round_trip() {
    let mut nav = NavigationState::new();
    nav.reset_to("/library/sections");
    nav.descend("/library/sections/2");
    nav.descend("folder");
    nav.descend("sub");
    assert_eq!(nav.current_location(), "/library/sections/2/folder/sub");
    assert!(nav.back());
    assert_eq!(nav.current_location(), "/library/sections/2/folder");
    assert!(nav.back());
    assert!(nav.back());
    assert!(nav.back());
    assert_eq!(nav.current_location(), "/library/sections/2");
}
