use spotify_tui::app::{App, BehaviorConfig};
use spotify_tui::command::IoEvent;
use spotify_tui::model::{PageItem, PlaybackContext, PlayableKind, PlayingItem, RepeatState, ResultPage};
use spotify_tui::route::{ActiveBlock, ArtistBlock, ItemTableContext, RouteId};
use spotify_tui::worker::{ArtistPages, Network, RemoteResult, SearchPages};

fn behavior() -> BehaviorConfig {
    BehaviorConfig { seek_milliseconds: 5000, volume_increment: 10 }
}

fn page(ids: &[&str]) -> ResultPage {
    ResultPage {
        items: ids
            .iter()
            .map(|i| PageItem { id: Some(i.to_string()), name: i.to_string(), owner_id: None, is_public: None })
            .collect(),
        offset: 0,
        limit: 20,
        total: ids.len() as u32,
    }
}

fn drain(app: &mut App) -> Vec<IoEvent> {
    let mut out = Vec::new();
    while let Some(e) = app.channel.recv() {
        out.push(e);
    }
    out
}

fn strings(v: &[&str]) -> Vec<String> {
    v.iter().map(|s| s.to_string()).collect()
}

#[test]
fn recommendations_put_seed_first_and_play() {
    let mut app = App::new(behavior(), 0);
    let mut net = Network::new();
    net.handle_network_event(
        &mut app,
        IoEvent::GetRecommendationsForTrackId { track_id: "seed".to_string(), country: None },
        RemoteResult::Tracks(strings(&["r1", "r2"])),
        0,
    );
    assert_eq!(app.recommended_track_ids, strings(&["seed", "r1", "r2"]));
    assert_eq!(app.item_table.context, Some(ItemTableContext::RecommendedTracks));
    assert_eq!(app.get_current_route().id, RouteId::Recommendations);
    assert_eq!(
        drain(&mut app),
        vec![
            IoEvent::CurrentUserSavedTracksContains { track_ids: strings(&["seed", "r1", "r2"]) },
            IoEvent::StartPlayablesPlayback { playable_ids: strings(&["seed", "r1", "r2"]), offset: Some(0) },
        ]
    );
}

#[test]
fn artist_screen_prefers_typed_name() {
    let mut app = App::new(behavior(), 0);
    let mut net = Network::new();
    let data = ArtistPages {
        name: "Fetched".to_string(),
        albums: page(&["al1", "al2"]),
        top_track_ids: strings(&["t1"]),
        related_artist_ids: strings(&["ra"]),
    };
    net.handle_network_event(
        &mut app,
        IoEvent::GetArtist { artist_id: "a".to_string(), input_artist_name: String::new(), country: None },
        RemoteResult::ArtistData(data.clone()),
        0,
    );
    let artist = app.artist.as_ref().unwrap();
    assert_eq!(artist.artist_name, "Fetched");
    assert_eq!(artist.artist_hovered_block, ArtistBlock::TopTracks);
    assert_eq!(artist.artist_selected_block, ArtistBlock::Empty);
    assert_eq!(drain(&mut app), vec![IoEvent::CurrentUserSavedAlbumsContains { album_ids: strings(&["al1", "al2"]) }]);
    net.handle_network_event(
        &mut app,
        IoEvent::GetArtist { artist_id: "a".to_string(), input_artist_name: "Typed".to_string(), country: None },
        RemoteResult::ArtistData(data),
        0,
    );
    assert_eq!(app.artist.as_ref().unwrap().artist_name, "Typed");
    app.user_unfollow_artists(ActiveBlock::ArtistBlock);
    app.current_user_saved_album_delete(ActiveBlock::ArtistBlock);
    assert_eq!(
        drain(&mut app)[1..],
        [
            IoEvent::UserUnfollowArtists { artist_ids: strings(&["ra"]) },
            IoEvent::CurrentUserSavedAlbumDelete { album_id: "al1".to_string() },
        ]
    );
}

#[test]
fn search_results_are_stored_and_checked() {
    let mut app = App::new(behavior(), 0);
    let mut net = Network::new();
    let sp = SearchPages {
        tracks: page(&["t"]),
        artists: page(&["ar"]),
        albums: page(&["al"]),
        playlists: page(&["pl"]),
        shows: page(&["sh"]),
        episodes: page(&["ep"]),
    };
    net.handle_network_event(
        &mut app,
        IoEvent::GetSearchResults { search_term: "x".to_string(), country: None },
        RemoteResult::Search(sp),
        0,
    );
    assert_eq!(app.search_results.playlists, Some(page(&["pl"])));
    assert_eq!(
        drain(&mut app),
        vec![
            IoEvent::UserArtistFollowCheck { artist_ids: strings(&["ar"]) },
            IoEvent::CurrentUserSavedAlbumsContains { album_ids: strings(&["al"]) },
            IoEvent::CurrentUserSavedShowsContains { show_ids: strings(&["sh"]) },
        ]
    );
}

#[test]
fn personal_mixes_are_filtered_and_merged() {
    let mut app = App::new(behavior(), 0);
    let mut net = Network::new();
    let mix = |id: &str, name: &str, owner: &str| PageItem {
        id: Some(id.to_string()),
        name: name.to_string(),
        owner_id: Some(owner.to_string()),
        is_public: None,
    };
    let found = ResultPage {
        items: vec![mix("m1", "Discover Weekly", "spotify"), mix("m2", "Discover Weekly", "someone"), mix("m3", "Discover", "spotify")],
        offset: 0,
        limit: 20,
        total: 3,
    };
    net.handle_network_event(
        &mut app,
        IoEvent::MadeForYouSearchAndAdd { search_term: "Discover Weekly".to_string(), country: None },
        RemoteResult::Page(found),
        0,
    );
    let second = ResultPage { items: vec![mix("m4", "Daily Drive", "spotify")], offset: 0, limit: 20, total: 1 };
    net.handle_network_event(
        &mut app,
        IoEvent::MadeForYouSearchAndAdd { search_term: "Daily Drive".to_string(), country: None },
        RemoteResult::Page(second),
        0,
    );
    assert_eq!(app.library.made_for_you_playlists.len(), 1);
    let current = app.library.made_for_you_playlists.get_results(None).unwrap();
    assert_eq!(current.ids(), strings(&["m1", "m4"]));
}

#[test]
fn playing_item_urls() {
    let mut app = App::new(behavior(), 0);
    assert_eq!(app.playing_item_url(), None);
    app.current_playback_context = Some(PlaybackContext {
        is_playing: true,
        progress_ms: None,
        item: Some(PlayingItem {
            kind: PlayableKind::Episode,
            id: Some("ep7".to_string()),
            duration_ms: 1000,
            parent_id: Some("sh3".to_string()),
        }),
        volume_percent: None,
        shuffle_state: false,
        repeat_state: RepeatState::Context,
    });
    assert_eq!(app.playing_item_url(), Some("spotify:episode:ep7".to_string()));
    assert_eq!(app.playing_item_parent_url(), Some("spotify:show:sh3".to_string()));
}

#[test]
fn back_command_leaves_search_with_its_screen() {
    let mut app = App::new(behavior(), 0);
    app.push_navigation_stack(RouteId::Artist, ActiveBlock::ArtistBlock);
    app.push_navigation_stack(RouteId::Search, ActiveBlock::SearchResultBlock);
    app.push_navigation_stack(RouteId::AlbumTracks, ActiveBlock::AlbumTracks);
    assert!(app.navigate_back());
    assert_eq!(app.get_current_route().id, RouteId::Search);
    assert!(app.navigate_back());
    assert_eq!(app.get_current_route().id, RouteId::Home);
    assert!(!app.navigate_back());
    assert_eq!(app.navigation_stack.length(), 1);
}

#[test]
fn session_start_requests_initial_data() {
    let mut app = App::new(behavior(), 0);
    app.start_session();
    assert_eq!(drain(&mut app), vec![IoEvent::GetPlaylists, IoEvent::GetUser, IoEvent::GetCurrentPlayback]);
    assert!(app.is_loading);
}

#[test]
fn failed_refresh_restarts_the_spacing() {
    let mut app = App::new(behavior(), 0);
    let mut net = Network::new();
    app.update_on_tick(5000);
    let e = net.next_event(&mut app).unwrap();
    net.handle_network_event(&mut app, e, RemoteResult::Failed("timeout".to_string()), 5100);
    assert!(!app.is_fetching_current_playback);
    assert_eq!(app.last_playback_poll_ms, 5100);
    app.update_on_tick(5350);
    app.update_on_tick(10_099);
    assert_eq!(app.channel.len(), 0);
    app.update_on_tick(10_100);
    assert_eq!(drain(&mut app), vec![IoEvent::GetCurrentPlayback]);
}

#[test]
fn failed_user_command_restarts_the_spacing() {
    let mut app = App::new(behavior(), 0);
    let mut net = Network::new();
    app.update_on_tick(5000);
    app.dispatch(IoEvent::PausePlayback);
    assert_eq!(net.next_event(&mut app), Some(IoEvent::GetCurrentPlayback));
    net.handle_network_event(&mut app, IoEvent::GetCurrentPlayback, RemoteResult::Failed("down".to_string()), 5100);
    let pause = net.next_event(&mut app).unwrap();
    net.handle_network_event(&mut app, pause, RemoteResult::Failed("down".to_string()), 5200);
    app.update_on_tick(5450);
    assert_eq!(app.channel.len(), 0);
}

#[test]
fn mismatched_refresh_answer_ends_the_refresh() {
    let mut app = App::new(behavior(), 0);
    let mut net = Network::new();
    app.update_on_tick(5000);
    let e = net.next_event(&mut app).unwrap();
    net.handle_network_event(&mut app, e, RemoteResult::Done, 5100);
    assert!(!app.is_fetching_current_playback);
    assert_eq!(app.last_playback_poll_ms, 5100);
    assert_eq!(app.get_current_route().id, RouteId::Home);
}

#[test]
fn fetched_albums_and_lists_are_stored() {
    let mut app = App::new(behavior(), 0);
    let mut net = Network::new();
    net.handle_network_event(&mut app, IoEvent::GetAlbumTracks { album_id: "al".to_string() }, RemoteResult::Page(page(&["t1", "t2"])), 0);
    assert_eq!(app.selected_album_tracks, Some(page(&["t1", "t2"])));
    assert_eq!(app.get_current_route().id, RouteId::AlbumTracks);
    net.handle_network_event(&mut app, IoEvent::GetAlbumForTrack { track_id: "t2".to_string() }, RemoteResult::AlbumTrack(page(&["t1", "t2"]), 2), 0);
    assert_eq!(app.selected_album_full, Some(page(&["t1", "t2"])));
    assert_eq!(app.saved_album_tracks_index, 1);
    net.handle_network_event(&mut app, IoEvent::GetAlbum { album_id: "al2".to_string() }, RemoteResult::Page(page(&["u"])), 0);
    assert_eq!(app.selected_album_full, Some(page(&["u"])));
    net.handle_network_event(&mut app, IoEvent::GetPlaylistItems { playlist_id: "p".to_string(), offset: 0 }, RemoteResult::Page(page(&["i1"])), 0);
    assert_eq!(app.playlist_items, Some(page(&["i1"])));
    assert_eq!(app.get_current_route().id, RouteId::ItemTable);
    net.handle_network_event(&mut app, IoEvent::GetMadeForYouPlaylistItems { playlist_id: "m".to_string(), offset: 0 }, RemoteResult::Page(page(&["i2"])), 0);
    assert_eq!(app.made_for_you_playlist_items, Some(page(&["i2"])));
    net.handle_network_event(&mut app, IoEvent::GetRecentlyPlayed, RemoteResult::Page(page(&["r"])), 0);
    assert_eq!(app.recently_played.result, Some(page(&["r"])));
    assert_eq!(
        drain(&mut app),
        vec![
            IoEvent::CurrentUserSavedTracksContains { track_ids: strings(&["t1", "t2"]) },
            IoEvent::CurrentUserSavedTracksContains { track_ids: strings(&["i1"]) },
            IoEvent::CurrentUserSavedTracksContains { track_ids: strings(&["i2"]) },
            IoEvent::CurrentUserSavedTracksContains { track_ids: strings(&["r"]) },
        ]
    );
}

#[test]
fn escape_leaves_error_screen_and_clears_focus() {
    let mut app = App::new(behavior(), 0);
    app.handle_escape();
    assert_eq!(app.get_current_route().active_block, ActiveBlock::Empty);
    app.handle_error("boom".to_string());
    app.handle_escape();
    assert_eq!(app.get_current_route().id, RouteId::Home);
    app.set_current_route_state(Some(ActiveBlock::SearchResultBlock), None);
    app.search_results.selected_block = spotify_tui::route::SearchResultBlock::AlbumSearch;
    app.handle_escape();
    assert_eq!(app.search_results.selected_block, spotify_tui::route::SearchResultBlock::Empty);
    assert_eq!(app.get_current_route().active_block, ActiveBlock::SearchResultBlock);
    app.push_navigation_stack(RouteId::SelectedDevice, ActiveBlock::SelectDevice);
    app.handle_escape();
    assert_eq!(app.get_current_route().id, RouteId::SelectedDevice);
}

#[test]
fn jump_to_album_opens_parent() {
    let mut app = App::new(behavior(), 0);
    app.handle_jump_to_album();
    assert_eq!(app.channel.len(), 0);
    app.current_playback_context = Some(PlaybackContext {
        is_playing: false,
        progress_ms: None,
        item: Some(PlayingItem {
            kind: PlayableKind::Track,
            id: Some("t".to_string()),
            duration_ms: 1000,
            parent_id: Some("al".to_string()),
        }),
        volume_percent: None,
        shuffle_state: false,
        repeat_state: RepeatState::Off,
    });
    app.handle_jump_to_album();
    assert_eq!(drain(&mut app), vec![IoEvent::GetAlbumTracks { album_id: "al".to_string() }]);
}
