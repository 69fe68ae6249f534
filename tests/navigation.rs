use spotify_tui::navigation::NavigationStack;
use spotify_tui::route::{ActiveBlock, RouteId};
use spotify_tui::app::{App, BehaviorConfig};

fn behavior() -> BehaviorConfig {
    BehaviorConfig { seek_milliseconds: 5000, volume_increment: 10 }
}

#[test]
fn fresh_stack_holds_home_route() {
    let nav = NavigationStack::new();
    assert_eq!(nav.length(), 1);
    assert_eq!(nav.current().id, RouteId::Home);
    assert_eq!(nav.current().active_block, ActiveBlock::Empty);
    assert_eq!(nav.current().hovered_block, ActiveBlock::Library);
}

#[test]
fn pushing_same_screen_twice_keeps_length_two() {
    let mut nav = NavigationStack::new();
    nav.push(RouteId::Search, ActiveBlock::Input);
    nav.push(RouteId::Search, ActiveBlock::Input);
    assert_eq!(nav.length(), 2);
    assert_eq!(nav.current().id, RouteId::Search);
    assert_eq!(nav.current().hovered_block, ActiveBlock::Input);
}

#[test]
fn popping_root_returns_none() {
    let mut nav = NavigationStack::new();
    assert!(nav.pop().is_none());
    assert_eq!(nav.length(), 1);
    assert_eq!(nav.current().id, RouteId::Home);
}

#[test]
fn push_then_pop_returns_pushed_route() {
    let mut nav = NavigationStack::new();
    nav.push(RouteId::Artist, ActiveBlock::ArtistBlock);
    let popped = nav.pop().unwrap();
    assert_eq!(popped.id, RouteId::Artist);
    assert_eq!(popped.active_block, ActiveBlock::ArtistBlock);
    assert_eq!(nav.length(), 1);
    assert!(nav.pop().is_none());
}

#[test]
fn many_pushes_and_pops_never_empty_the_stack() {
    let mut nav = NavigationStack::new();
    let ids = [RouteId::Search, RouteId::Artist, RouteId::Artist, RouteId::AlbumTracks];
    for id in ids {
        nav.push(id, ActiveBlock::Empty);
    }
    assert_eq!(nav.length(), 4);
    for _ in 0..10 {
        nav.pop();
        assert!(nav.length() >= 1);
    }
    assert_eq!(nav.length(), 1);
}

#[test]
fn set_route_state_changes_only_given_panels() {
    let mut nav = NavigationStack::new();
    nav.set_current_route_state(Some(ActiveBlock::PlayBar), None);
    assert_eq!(nav.current().active_block, ActiveBlock::PlayBar);
    assert_eq!(nav.current().hovered_block, ActiveBlock::Library);
    nav.set_current_route_state(None, Some(ActiveBlock::MyPlaylists));
    assert_eq!(nav.current().active_block, ActiveBlock::PlayBar);
    assert_eq!(nav.current().hovered_block, ActiveBlock::MyPlaylists);
    nav.set_current_route_state(None, None);
    assert_eq!(nav.current().active_block, ActiveBlock::PlayBar);
}

#[test]
fn scenario_repeated_search_push_keeps_length_two() {
    let mut app = App::new(behavior(), 0);
    app.push_navigation_stack(RouteId::Search, ActiveBlock::Input);
    app.push_navigation_stack(RouteId::Search, ActiveBlock::Input);
    assert_eq!(app.navigation_stack.length(), 2);
    assert_eq!(app.get_current_route().id, RouteId::Search);
    assert_eq!(app.pop_navigation_stack().unwrap().id, RouteId::Search);
    assert!(app.pop_navigation_stack().is_none());
}
