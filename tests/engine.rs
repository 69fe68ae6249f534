use spotify_tui::app::{App, BehaviorConfig};
use spotify_tui::channel::CommandChannel;
use spotify_tui::command::IoEvent;
use spotify_tui::id_set::IdSet;
use spotify_tui::model::{PageItem, PlaybackContext, PlayableKind, PlayingItem, RepeatState, ResultPage, User};
use spotify_tui::route::{ActiveBlock, RouteId};
use spotify_tui::worker::{Network, RemoteResult};

fn behavior() -> BehaviorConfig {
    BehaviorConfig { seek_milliseconds: 5000, volume_increment: 10 }
}

fn item(id: &str) -> PageItem {
    PageItem { id: Some(id.to_string()), name: id.to_string(), owner_id: None, is_public: None }
}

fn page(ids: &[&str], offset: u32, limit: u32) -> ResultPage {
    ResultPage { items: ids.iter().map(|i| item(i)).collect(), offset, limit, total: 100 }
}

fn playing(is_playing: bool, progress_ms: u64, duration_ms: u64) -> PlaybackContext {
    PlaybackContext {
        is_playing,
        progress_ms: Some(progress_ms),
        item: Some(PlayingItem {
            kind: PlayableKind::Track,
            id: Some("t1".to_string()),
            duration_ms,
            parent_id: Some("al1".to_string()),
        }),
        volume_percent: Some(50),
        shuffle_state: false,
        repeat_state: RepeatState::Off,
    }
}

fn drain(app: &mut App) -> Vec<IoEvent> {
    let mut out = Vec::new();
    while let Some(e) = app.channel.recv() {
        out.push(e);
    }
    out
}

#[test]
fn channel_is_first_in_first_out() {
    let mut ch = CommandChannel::new();
    assert!(ch.send(IoEvent::NextTrack).is_ok());
    assert!(ch.send(IoEvent::PreviousTrack).is_ok());
    assert_eq!(ch.len(), 2);
    assert_eq!(ch.recv(), Some(IoEvent::NextTrack));
    assert_eq!(ch.recv(), Some(IoEvent::PreviousTrack));
    assert_eq!(ch.recv(), None);
    ch.close();
    assert_eq!(ch.send(IoEvent::GetUser), Err(IoEvent::GetUser));
}

#[test]
fn dispatch_raises_loading_flag() {
    let mut app = App::new(behavior(), 0);
    assert!(!app.is_loading);
    app.dispatch(IoEvent::GetPlaylists);
    assert!(app.is_loading);
    assert_eq!(app.channel.len(), 1);
}

#[test]
fn dispatch_to_stopped_worker_shows_error() {
    let mut app = App::new(behavior(), 0);
    app.channel.close();
    app.dispatch(IoEvent::GetPlaylists);
    assert!(!app.is_loading);
    assert_eq!(app.channel.len(), 0);
    assert_eq!(app.get_current_route().id, RouteId::Error);
    assert_eq!(app.api_error, "the command worker has stopped");
}

#[test]
fn worker_processes_commands_in_order() {
    let mut app = App::new(behavior(), 0);
    let mut net = Network::new();
    app.dispatch(IoEvent::CurrentUserSavedAlbumAdd { album_id: "a".to_string() });
    app.dispatch(IoEvent::CurrentUserSavedAlbumDelete { album_id: "a".to_string() });
    let first = net.next_event(&mut app).unwrap();
    assert_eq!(first, IoEvent::CurrentUserSavedAlbumAdd { album_id: "a".to_string() });
    assert!(net.executing);
    assert!(app.is_loading);
    net.handle_network_event(&mut app, first, RemoteResult::Done, 10);
    assert!(!app.is_loading);
    assert!(!net.executing);
    assert!(app.saved_album_ids_set.contains(&"a".to_string()));
    let second = net.next_event(&mut app).unwrap();
    assert_eq!(second, IoEvent::CurrentUserSavedAlbumDelete { album_id: "a".to_string() });
    // the second command is in flight again from the moment it is taken
    assert!(app.is_loading);
    net.handle_network_event(&mut app, second, RemoteResult::Done, 20);
    assert!(!app.saved_album_ids_set.contains(&"a".to_string()));
    // the delete asks for the saved albums again, after everything queued before it
    assert_eq!(net.next_event(&mut app), Some(IoEvent::GetCurrentUserSavedAlbums { offset: None }));
}

#[test]
fn scenario_failed_fetch_shows_error_and_worker_continues() {
    let mut app = App::new(behavior(), 0);
    let mut net = Network::new();
    app.dispatch(IoEvent::GetCurrentSavedTracks { offset: Some(20) });
    let e = net.next_event(&mut app).unwrap();
    net.handle_network_event(&mut app, e, RemoteResult::Failed("network down".to_string()), 5);
    assert_eq!(app.get_current_route().id, RouteId::Error);
    assert_eq!(app.get_current_route().active_block, ActiveBlock::Error);
    assert_eq!(app.api_error, "network down");
    assert!(!app.is_loading);
    app.dispatch(IoEvent::GetPlaylists);
    assert!(app.is_loading);
    let next = net.next_event(&mut app).unwrap();
    assert_eq!(next, IoEvent::GetPlaylists);
    net.handle_network_event(&mut app, next, RemoteResult::Page(page(&["p1"], 0, 20)), 6);
    assert_eq!(app.selected_playlist_index, Some(0));
    assert!(!app.is_loading);
    // backing out of the error returns to the previous screen
    app.pop_navigation_stack();
    assert_eq!(app.get_current_route().id, RouteId::Home);
}

#[test]
fn scenario_two_ticks_within_interval_refresh_once() {
    let mut app = App::new(behavior(), 0);
    app.update_on_tick(5000);
    app.update_on_tick(5100);
    let queued = drain(&mut app);
    assert_eq!(queued, vec![IoEvent::GetCurrentPlayback]);
    assert!(app.is_fetching_current_playback);
}

#[test]
fn tick_before_interval_does_not_refresh() {
    let mut app = App::new(behavior(), 1000);
    app.update_on_tick(5999);
    assert_eq!(app.channel.len(), 0);
    app.update_on_tick(6000);
    assert_eq!(app.channel.len(), 1);
}

#[test]
fn refresh_answer_allows_next_refresh() {
    let mut app = App::new(behavior(), 0);
    let mut net = Network::new();
    app.update_on_tick(5000);
    let e = net.next_event(&mut app).unwrap();
    net.handle_network_event(&mut app, e, RemoteResult::Playback(Some(playing(true, 1000, 200_000))), 5200);
    assert!(!app.is_fetching_current_playback);
    assert_eq!(app.last_playback_poll_ms, 5200);
    // the playing track is checked against the liked songs
    assert_eq!(
        drain(&mut app),
        vec![IoEvent::CurrentUserSavedTracksContains { track_ids: vec!["t1".to_string()] }]
    );
    app.update_on_tick(7200);
    assert_eq!(app.song_progress_ms, 3000);
    assert_eq!(app.channel.len(), 0);
    app.update_on_tick(10_200);
    assert_eq!(drain(&mut app), vec![IoEvent::GetCurrentPlayback]);
}

#[test]
fn progress_is_capped_at_duration() {
    let mut app = App::new(behavior(), 0);
    app.current_playback_context = Some(playing(true, 9000, 10_000));
    app.is_fetching_current_playback = true;
    app.update_on_tick(4000);
    assert_eq!(app.song_progress_ms, 10_000);
    app.current_playback_context = Some(playing(false, 2000, 10_000));
    app.update_on_tick(4000);
    assert_eq!(app.song_progress_ms, 2000);
}

#[test]
fn pending_seek_takes_priority_over_refresh() {
    let mut app = App::new(behavior(), 0);
    app.current_playback_context = Some(playing(true, 1000, 60_000));
    app.song_progress_ms = 1000;
    app.seek_forwards();
    assert_eq!(app.seek_ms, Some(6000));
    app.seek_forwards();
    assert_eq!(app.seek_ms, Some(11_000));
    app.update_on_tick(5000);
    assert_eq!(drain(&mut app), vec![IoEvent::Seek { position_ms: 11_000 }]);
}

#[test]
fn seek_past_end_skips_to_next_track() {
    let mut app = App::new(behavior(), 0);
    app.current_playback_context = Some(playing(true, 1000, 4000));
    app.seek_ms = Some(4000);
    app.update_on_tick(5000);
    assert_eq!(drain(&mut app), vec![IoEvent::NextTrack]);
}

#[test]
fn seek_backwards_floors_at_zero() {
    let mut app = App::new(behavior(), 0);
    app.song_progress_ms = 7000;
    app.seek_backwards();
    assert_eq!(app.seek_ms, Some(2000));
    app.seek_backwards();
    assert_eq!(app.seek_ms, Some(0));
}

#[test]
fn seek_forwards_without_item_does_nothing() {
    let mut app = App::new(behavior(), 0);
    app.seek_forwards();
    assert_eq!(app.seek_ms, None);
}

#[test]
fn volume_steps_are_capped() {
    let mut app = App::new(behavior(), 0);
    app.increase_volume();
    assert_eq!(app.channel.len(), 0);
    let mut ctx = playing(true, 0, 1000);
    ctx.volume_percent = Some(95);
    app.current_playback_context = Some(ctx.clone());
    app.increase_volume();
    assert_eq!(drain(&mut app), vec![IoEvent::ChangeVolume { volume: 100 }]);
    ctx.volume_percent = Some(100);
    app.current_playback_context = Some(ctx.clone());
    app.increase_volume();
    assert_eq!(app.channel.len(), 0);
    ctx.volume_percent = Some(5);
    app.current_playback_context = Some(ctx.clone());
    app.decrease_volume();
    assert_eq!(drain(&mut app), vec![IoEvent::ChangeVolume { volume: 0 }]);
    ctx.volume_percent = Some(0);
    app.current_playback_context = Some(ctx);
    app.decrease_volume();
    assert_eq!(app.channel.len(), 0);
}

#[test]
fn transport_commands() {
    let mut app = App::new(behavior(), 0);
    app.toggle_playback();
    app.pause_playback();
    app.resume_playback();
    app.current_playback_context = Some(playing(true, 0, 1000));
    app.toggle_playback();
    app.pause_playback();
    app.resume_playback();
    app.song_progress_ms = 2999;
    app.previous_track();
    app.song_progress_ms = 3000;
    app.previous_track();
    app.shuffle();
    app.repeat();
    assert_eq!(
        drain(&mut app),
        vec![
            IoEvent::ResumePlayback,
            IoEvent::PausePlayback,
            IoEvent::PausePlayback,
            IoEvent::PreviousTrack,
            IoEvent::Seek { position_ms: 0 },
            IoEvent::ToggleShuffle,
            IoEvent::Repeat { state: RepeatState::Off },
        ]
    );
    assert!(app.is_playing());
}

#[test]
fn settings_applied_after_success() {
    let mut app = App::new(behavior(), 0);
    let mut net = Network::new();
    app.current_playback_context = Some(playing(true, 0, 1000));
    net.handle_network_event(&mut app, IoEvent::ToggleShuffle, RemoteResult::Done, 0);
    net.handle_network_event(&mut app, IoEvent::Repeat { state: RepeatState::Track }, RemoteResult::Done, 0);
    net.handle_network_event(&mut app, IoEvent::ChangeVolume { volume: 30 }, RemoteResult::Done, 0);
    let ctx = app.current_playback_context.clone().unwrap();
    assert!(ctx.shuffle_state);
    assert_eq!(ctx.repeat_state, RepeatState::Off);
    assert_eq!(ctx.volume_percent, Some(30));
    net.handle_network_event(
        &mut app,
        IoEvent::UpdateSearchLimits { large_search_limit: 50, small_search_limit: 8 },
        RemoteResult::Done,
        0,
    );
    assert_eq!(net.large_search_limit, 50);
    assert_eq!(net.small_search_limit, 8);
}

#[test]
fn forward_pagination_serves_cached_page_without_fetch() {
    let mut app = App::new(behavior(), 0);
    let mut net = Network::new();
    net.handle_network_event(&mut app, IoEvent::GetCurrentSavedTracks { offset: None }, RemoteResult::Page(page(&["a", "b"], 0, 2)), 0);
    net.handle_network_event(&mut app, IoEvent::GetCurrentSavedTracks { offset: Some(2) }, RemoteResult::Page(page(&["c"], 2, 2)), 0);
    assert_eq!(app.library.saved_tracks.index(), 1);
    assert!(app.liked_song_ids_set.contains(&"c".to_string()));
    assert_eq!(app.item_table.item_ids, vec!["c".to_string()]);
    app.get_current_user_saved_tracks_previous();
    assert_eq!(app.library.saved_tracks.index(), 0);
    assert_eq!(drain(&mut app), vec![IoEvent::SetTracksToTable { track_ids: vec!["a".to_string(), "b".to_string()] }]);
    app.get_current_user_saved_tracks_next();
    assert_eq!(app.library.saved_tracks.index(), 1);
    assert_eq!(drain(&mut app), vec![IoEvent::SetTracksToTable { track_ids: vec!["c".to_string()] }]);
    // past the last cached page the next page is fetched
    app.get_current_user_saved_tracks_next();
    assert_eq!(app.library.saved_tracks.index(), 1);
    assert_eq!(drain(&mut app), vec![IoEvent::GetCurrentSavedTracks { offset: Some(4) }]);
}

#[test]
fn album_and_show_pagination() {
    let mut app = App::new(behavior(), 0);
    let mut net = Network::new();
    app.get_current_user_saved_albums_next();
    assert_eq!(app.channel.len(), 0);
    net.handle_network_event(&mut app, IoEvent::GetCurrentUserSavedAlbums { offset: None }, RemoteResult::Page(page(&["x"], 0, 20)), 0);
    net.handle_network_event(&mut app, IoEvent::GetCurrentUserSavedAlbums { offset: Some(20) }, RemoteResult::Page(page(&[], 20, 20)), 0);
    assert_eq!(app.library.saved_albums.len(), 1);
    app.get_current_user_saved_albums_next();
    assert_eq!(drain(&mut app), vec![IoEvent::GetCurrentUserSavedAlbums { offset: Some(20) }]);
    net.handle_network_event(&mut app, IoEvent::GetCurrentUserSavedShows { offset: None }, RemoteResult::Page(page(&["s1"], 0, 20)), 0);
    net.handle_network_event(&mut app, IoEvent::GetCurrentUserSavedShows { offset: Some(20) }, RemoteResult::Page(page(&["s2"], 20, 20)), 0);
    app.get_current_user_saved_shows_previous();
    assert_eq!(app.library.saved_shows.index(), 0);
    app.get_current_user_saved_shows_next();
    assert_eq!(app.library.saved_shows.index(), 1);
    assert_eq!(app.channel.len(), 0);
    app.get_episode_table_next("show".to_string());
    assert_eq!(app.channel.len(), 0);
    net.handle_network_event(&mut app, IoEvent::GetShowEpisodes { show_id: "show".to_string() }, RemoteResult::Page(page(&["e1"], 0, 10)), 0);
    assert_eq!(app.get_current_route().id, RouteId::PodcastEpisodes);
    app.get_episode_table_next("show".to_string());
    assert_eq!(drain(&mut app), vec![IoEvent::GetCurrentShowEpisodes { show_id: "show".to_string(), offset: Some(10) }]);
}

#[test]
fn followed_artists_paginate_by_cursor() {
    let mut app = App::new(behavior(), 0);
    let mut net = Network::new();
    net.handle_network_event(&mut app, IoEvent::GetFollowedArtists { after: None }, RemoteResult::Page(page(&["r1", "r2"], 0, 2)), 0);
    assert_eq!(app.artists, vec!["r1".to_string(), "r2".to_string()]);
    app.get_current_user_saved_artists_next();
    assert_eq!(drain(&mut app), vec![IoEvent::GetFollowedArtists { after: Some("r2".to_string()) }]);
    app.get_current_user_saved_artists_previous();
    assert_eq!(drain(&mut app), vec![IoEvent::SetArtistsToTable { artist_ids: vec!["r1".to_string(), "r2".to_string()] }]);
}

#[test]
fn membership_answers_update_sets() {
    let mut app = App::new(behavior(), 0);
    let mut net = Network::new();
    app.liked_song_ids_set.insert("b".to_string());
    net.handle_network_event(
        &mut app,
        IoEvent::CurrentUserSavedTracksContains { track_ids: vec!["a".to_string(), "b".to_string(), "c".to_string()] },
        RemoteResult::Flags(vec![true, false]),
        0,
    );
    assert!(app.liked_song_ids_set.contains(&"a".to_string()));
    assert!(!app.liked_song_ids_set.contains(&"b".to_string()));
    assert!(!app.liked_song_ids_set.contains(&"c".to_string()));
    net.handle_network_event(&mut app, IoEvent::ToggleSaveTrack { track_id: "c".to_string() }, RemoteResult::Saved(true), 0);
    assert!(app.liked_song_ids_set.contains(&"c".to_string()));
    assert_eq!(app.liked_song_ids_set.len(), 2);
    net.handle_network_event(&mut app, IoEvent::UserFollowArtists { artist_ids: vec!["x".to_string(), "y".to_string()] }, RemoteResult::Done, 0);
    assert_eq!(app.followed_artist_ids_set.len(), 2);
    net.handle_network_event(&mut app, IoEvent::UserUnfollowArtists { artist_ids: vec!["x".to_string()] }, RemoteResult::Done, 0);
    assert!(!app.followed_artist_ids_set.contains(&"x".to_string()));
    assert!(app.followed_artist_ids_set.contains(&"y".to_string()));
}

#[test]
fn saving_an_episode_is_refused() {
    let mut app = App::new(behavior(), 0);
    let mut net = Network::new();
    net.handle_network_event(&mut app, IoEvent::ToggleSaveEpisode { episode_id: "e".to_string() }, RemoteResult::Done, 0);
    assert_eq!(app.get_current_route().id, RouteId::Error);
    assert_eq!(app.api_error, "cannot save episodes currently");
}

#[test]
fn id_set_holds_each_id_once() {
    let mut s = IdSet::new();
    s.insert("a".to_string());
    s.insert("a".to_string());
    assert_eq!(s.len(), 1);
    s.remove(&"b".to_string());
    assert_eq!(s.len(), 1);
    s.remove(&"a".to_string());
    assert_eq!(s.len(), 0);
}

#[test]
fn selected_items_drive_library_actions() {
    let mut app = App::new(behavior(), 0);
    app.current_user_saved_album_add(ActiveBlock::SearchResultBlock);
    assert_eq!(app.channel.len(), 0);
    app.search_results.albums = Some(page(&["al1", "al2"], 0, 2));
    app.search_results.selected_album_index = Some(1);
    app.current_user_saved_album_add(ActiveBlock::SearchResultBlock);
    app.search_results.selected_album_index = Some(5);
    app.current_user_saved_album_delete(ActiveBlock::SearchResultBlock);
    app.search_results.artists = Some(page(&["ar1"], 0, 1));
    app.search_results.selected_artists_index = Some(0);
    app.user_follow_artists(ActiveBlock::SearchResultBlock);
    app.user_unfollow_artists(ActiveBlock::SearchResultBlock);
    app.search_results.shows = Some(page(&["sh1"], 0, 1));
    app.search_results.selected_shows_index = Some(0);
    app.user_follow_show(ActiveBlock::SearchResultBlock);
    app.user_unfollow_show(ActiveBlock::Home);
    app.playlists = Some(page(&["pl1"], 0, 1));
    app.selected_playlist_index = Some(0);
    app.user_unfollow_playlist();
    app.user = Some(User { id: "me".to_string(), country: Some("SE".to_string()) });
    app.user_unfollow_playlist();
    app.get_artist("ar9".to_string(), String::new());
    assert_eq!(
        drain(&mut app),
        vec![
            IoEvent::CurrentUserSavedAlbumAdd { album_id: "al2".to_string() },
            IoEvent::UserFollowArtists { artist_ids: vec!["ar1".to_string()] },
            IoEvent::UserUnfollowArtists { artist_ids: vec!["ar1".to_string()] },
            IoEvent::CurrentUserSavedShowAdd { show_id: "sh1".to_string() },
            IoEvent::UserUnfollowPlaylist { playlist_id: "pl1".to_string() },
            IoEvent::GetArtist {
                artist_id: "ar9".to_string(),
                input_artist_name: String::new(),
                country: Some("SE".to_string()),
            },
        ]
    );
}

#[test]
fn made_for_you_searches_once() {
    let mut app = App::new(behavior(), 0);
    app.get_made_for_you();
    let queued = drain(&mut app);
    assert_eq!(queued.len(), 5);
    assert_eq!(queued[0], IoEvent::MadeForYouSearchAndAdd { search_term: "Discover Weekly".to_string(), country: None });
    assert_eq!(queued[4], IoEvent::MadeForYouSearchAndAdd { search_term: "Daily Drive".to_string(), country: None });
    app.library.made_for_you_playlists.add_pages(page(&["m"], 0, 1));
    app.get_made_for_you();
    assert_eq!(app.channel.len(), 0);
}

#[test]
fn audio_analysis_opens_once() {
    let mut app = App::new(behavior(), 0);
    app.get_audio_analysis();
    assert_eq!(app.navigation_stack.length(), 1);
    app.current_playback_context = Some(playing(true, 0, 1000));
    app.get_audio_analysis();
    app.get_audio_analysis();
    assert_eq!(app.get_current_route().id, RouteId::Analysis);
    assert_eq!(drain(&mut app), vec![IoEvent::GetTrackAnalysis { track_id: "t1".to_string() }]);
}

#[test]
fn help_menu_offset_follows_page() {
    let mut app = App::new(behavior(), 0);
    app.help_docs_size = 50;
    app.help_menu_max_lines = 20;
    app.help_menu_page = 2;
    app.calculate_help_menu_offset();
    assert_eq!(app.help_menu_offset, 40);
    assert_eq!(app.help_menu_page, 2);
    app.help_menu_page = 3;
    app.calculate_help_menu_offset();
    assert_eq!(app.help_menu_offset, 40);
    assert_eq!(app.help_menu_page, 2);
}

#[test]
fn transfer_playback_returns_from_device_screen() {
    let mut app = App::new(behavior(), 0);
    let mut net = Network::new();
    net.handle_network_event(&mut app, IoEvent::GetDevices, RemoteResult::Devices(vec!["desk".to_string()]), 0);
    assert_eq!(app.get_current_route().id, RouteId::SelectedDevice);
    assert_eq!(app.selected_device_index, Some(0));
    net.handle_network_event(
        &mut app,
        IoEvent::TransferPlaybackToDevice { device_id: "desk".to_string() },
        RemoteResult::Playback(None),
        9,
    );
    assert_eq!(app.get_current_route().id, RouteId::Home);
    assert_eq!(app.last_playback_poll_ms, 9);
}

#[test]
fn loading_flag_is_up_while_each_queued_command_runs() {
    let mut app = App::new(behavior(), 0);
    let mut net = Network::new();
    app.dispatch(IoEvent::UpdateSearchLimits { large_search_limit: 30, small_search_limit: 6 });
    app.dispatch(IoEvent::GetCurrentPlayback);
    let first = net.next_event(&mut app).unwrap();
    assert!(app.is_loading);
    net.handle_network_event(&mut app, first, RemoteResult::Done, 0);
    assert!(!app.is_loading);
    let second = net.next_event(&mut app).unwrap();
    assert_eq!(second, IoEvent::GetCurrentPlayback);
    assert!(app.is_loading);
    net.handle_network_event(&mut app, second, RemoteResult::Playback(None), 0);
    assert!(!app.is_loading);
    assert_eq!(net.next_event(&mut app), None);
    assert!(!app.is_loading);
}

#[test]
fn cached_page_fills_the_track_table() {
    let mut app = App::new(behavior(), 0);
    let mut net = Network::new();
    app.library.saved_tracks.add_pages(page(&["a"], 0, 1));
    app.library.saved_tracks.add_pages(page(&["b", "c"], 1, 2));
    app.get_current_user_saved_tracks_previous();
    let e = net.next_event(&mut app).unwrap();
    net.handle_network_event(&mut app, e, RemoteResult::Done, 0);
    assert_eq!(app.item_table.item_ids, vec!["a".to_string()]);
    assert_eq!(drain(&mut app), vec![IoEvent::CurrentUserSavedTracksContains { track_ids: vec!["a".to_string()] }]);
    app.get_current_user_saved_tracks_next();
    let e = net.next_event(&mut app).unwrap();
    net.handle_network_event(&mut app, e, RemoteResult::Done, 0);
    assert_eq!(app.item_table.item_ids, vec!["b".to_string(), "c".to_string()]);
    assert_eq!(
        drain(&mut app),
        vec![IoEvent::CurrentUserSavedTracksContains { track_ids: vec!["b".to_string(), "c".to_string()] }]
    );
}
