//! The worker: the single consumer of the command channel. It takes one command
//! at a time; once the remote operation has completed, the outcome is applied
//! to the shared state here and the "request in flight" flag is cleared.
use vstd::prelude::*;

use crate::app::{POLL_INTERVAL_MS, after_dispatches, dispatched, lemma_dispatch_compose, App, Artist, Library, SearchResult};
use crate::command::IoEvent;
use crate::player::poll_commands;
use crate::id_set::{apply_flags, insert_ids, remove_ids};
use crate::model::{item_ids, PageItem, PlaybackContext, PlayableKind, ResultPage, User};
use crate::navigation::{pop_route, push_route};
use crate::pages::{PagesModel, ScrollableResultPages, SpotifyResultAndSelectedIndex};
use crate::route::{ActiveBlock, AlbumTableContext, ArtistBlock, EpisodeTableContext, ItemTableContext, RouteId};

verus! {

/// What a remote operation returned, as plain values.
#[derive(Clone, Debug, PartialEq, Eq)]
pub enum RemoteResult {
    /// The operation failed; the message is shown to the user.
    Failed(String),
    /// The operation succeeded and returned nothing the state keeps.
    Done,
    /// A fresh playback snapshot; `None` when no player is active.
    Playback(Option<PlaybackContext>),
    /// One page of a paginated collection.
    Page(ResultPage),
    /// One answer per identifier asked about, in the same order.
    Flags(Vec<bool>),
    /// Whether the item is saved after the operation.
    Saved(bool),
    /// The names of the available playback devices.
    Devices(Vec<String>),
    /// The signed-in user.
    Profile(User),
    /// An album, as the page of its tracks, and the 1-based number of one of them.
    AlbumTrack(ResultPage, u32),
    /// The identifiers of recommended tracks, in order.
    Tracks(Vec<String>),
    /// The data of an artist's screen.
    ArtistData(ArtistPages),
    /// One page of results per kind of item searched for.
    Search(SearchPages),
}

/// What the remote service returns for an artist's screen.
#[derive(Clone, Debug, PartialEq, Eq)]
pub struct ArtistPages {
    pub name: String,
    pub albums: ResultPage,
    pub top_track_ids: Vec<String>,
    pub related_artist_ids: Vec<String>,
}

/// What the remote service returns for a search.
#[derive(Clone, Debug, PartialEq, Eq)]
pub struct SearchPages {
    pub tracks: ResultPage,
    pub artists: ResultPage,
    pub albums: ResultPage,
    pub playlists: ResultPage,
    pub shows: ResultPage,
    pub episodes: ResultPage,
}

/// The artist screen built from `d`; the name typed by the user wins over the
/// fetched one when there is one.
pub open spec fn artist_screen(d: ArtistPages, input_artist_name: String) -> Artist {
    Artist {
        artist_name: if input_artist_name@.len() > 0 { input_artist_name } else { d.name },
        albums: d.albums,
        related_artist_ids: d.related_artist_ids,
        top_track_ids: d.top_track_ids,
        selected_album_index: 0,
        selected_related_artist_index: 0,
        selected_top_track_index: 0,
        artist_hovered_block: ArtistBlock::TopTracks,
        artist_selected_block: ArtistBlock::Empty,
    }
}

/// The recommended tracks with the seed track, when given, put first.
pub open spec fn with_first(first: Option<String>, ids: Seq<String>) -> Seq<String> {
    match first {
        Some(t) => seq![t] + ids,
        None => ids,
    }
}

/// `b` is `a` after recommendations `list` arrived: they are stored and shown
/// in the item table on the recommendations screen, checked against the liked
/// songs, and played from the first one.
pub open spec fn recommendations_applied(a: App, list: Seq<String>, b: App) -> bool {
    let a1 = App {
        recommended_track_ids: b.recommended_track_ids,
        item_table: crate::app::ItemTable { context: Some(ItemTableContext::RecommendedTracks), ..a.item_table },
        ..a
    };
    &&& b.recommended_track_ids@ == list
    &&& exists|q: Seq<IoEvent>| q.len() == 2 && contains_command(q[0], SavedKind::Tracks, list)
        && start_command(q[1], list)
        && #[trigger] dispatched(a1, push_route(a.navigation_stack@, RouteId::Recommendations, ActiveBlock::ItemTable), q, b)
}

/// Whether `e` starts playing exactly `ids`, from the first.
pub open spec fn start_command(e: IoEvent, ids: Seq<String>) -> bool {
    match e {
        IoEvent::StartPlayablesPlayback { playable_ids, offset } => playable_ids@ == ids && offset == Some(0u32),
        _ => false,
    }
}

/// The state with fresh search results stored.
pub open spec fn with_search(a: App, sp: SearchPages) -> App {
    App {
        search_results: SearchResult {
            tracks: Some(sp.tracks),
            artists: Some(sp.artists),
            albums: Some(sp.albums),
            playlists: Some(sp.playlists),
            shows: Some(sp.shows),
            episodes: Some(sp.episodes),
            ..a.search_results
        },
        ..a
    }
}

/// Whether `q` checks the found artists, albums and shows, in that order.
pub open spec fn search_checks(q: Seq<IoEvent>, sp: SearchPages) -> bool {
    &&& q.len() == 3
    &&& contains_command(q[0], SavedKind::Artists, item_ids(sp.artists.items@))
    &&& contains_command(q[1], SavedKind::Albums, item_ids(sp.albums.items@))
    &&& contains_command(q[2], SavedKind::Shows, item_ids(sp.shows.items@))
}

/// Which membership set a "which of these are saved" answer updates.
#[derive(Clone, Copy, PartialEq, Eq, Structural, Debug)]
pub enum SavedKind {
    Tracks,
    Albums,
    Shows,
    Artists,
}

/// Whether `e` asks which of exactly `ids` are saved, in the set for `kind`.
pub open spec fn contains_command(e: IoEvent, kind: SavedKind, ids: Seq<String>) -> bool {
    match e {
        IoEvent::CurrentUserSavedTracksContains { track_ids } => kind == SavedKind::Tracks && track_ids@ == ids,
        IoEvent::CurrentUserSavedAlbumsContains { album_ids } => kind == SavedKind::Albums && album_ids@ == ids,
        IoEvent::CurrentUserSavedShowsContains { show_ids } => kind == SavedKind::Shows && show_ids@ == ids,
        IoEvent::UserArtistFollowCheck { artist_ids } => kind == SavedKind::Artists && artist_ids@ == ids,
        _ => false,
    }
}

/// `b` is `a` after exactly one check of `ids` against the set for `kind` was dispatched.
pub open spec fn dispatched_check(a: App, kind: SavedKind, ids: Seq<String>, b: App) -> bool {
    exists|e: IoEvent| contains_command(e, kind, ids) && #[trigger] after_dispatches(a, seq![e], b)
}

/// The membership set for `kind`.
pub open spec fn saved_set(a: App, kind: SavedKind) -> Set<Seq<char>> {
    match kind {
        SavedKind::Tracks => a.liked_song_ids_set@,
        SavedKind::Albums => a.saved_album_ids_set@,
        SavedKind::Shows => a.saved_show_ids_set@,
        SavedKind::Artists => a.followed_artist_ids_set@,
    }
}

/// `b` is `a` with only the set for `kind` changed, to `s`.
pub open spec fn set_replaced(a: App, kind: SavedKind, s: Set<Seq<char>>, b: App) -> bool {
    &&& saved_set(b, kind) == s
    &&& match kind {
        SavedKind::Tracks => b == App { liked_song_ids_set: b.liked_song_ids_set, ..a },
        SavedKind::Albums => b == App { saved_album_ids_set: b.saved_album_ids_set, ..a },
        SavedKind::Shows => b == App { saved_show_ids_set: b.saved_show_ids_set, ..a },
        SavedKind::Artists => b == App { followed_artist_ids_set: b.followed_artist_ids_set, ..a },
    }
}

/// The membership check that a fresh playback snapshot asks for: the playing
/// track among the liked songs, or the playing episode among the saved shows.
pub open spec fn playback_followup(ctx: Option<PlaybackContext>) -> Option<(SavedKind, String)> {
    match ctx {
        Some(c) => match c.item {
            Some(item) => match item.id {
                Some(id) => Some((if item.kind == PlayableKind::Track { SavedKind::Tracks } else { SavedKind::Shows }, id)),
                None => None,
            },
            None => None,
        },
        None => None,
    }
}

/// The state once a playback refresh has answered at `now_ms`, before its
/// follow-up check: the clock of the last refresh is reset, a reported snapshot
/// replaces the old one, the pending seek is dropped and no refresh is in flight.
pub open spec fn refreshed(a: App, ctx: Option<PlaybackContext>, now_ms: u64) -> App {
    App {
        last_playback_poll_ms: now_ms,
        current_playback_context: if ctx is Some { ctx } else { a.current_playback_context },
        seek_ms: None,
        is_fetching_current_playback: false,
        ..a
    }
}

/// `b` is `a` after a playback snapshot `ctx` arrived at `now_ms`.
pub open spec fn playback_applied(a: App, ctx: Option<PlaybackContext>, now_ms: u64, b: App) -> bool {
    match playback_followup(ctx) {
        Some((kind, id)) => dispatched_check(refreshed(a, ctx, now_ms), kind, seq![id], b),
        None => b == refreshed(a, ctx, now_ms),
    }
}

/// The cache after `page` arrived, when the page holds anything.
pub open spec fn appended_if_nonempty(m: PagesModel<ResultPage>, page: ResultPage) -> PagesModel<ResultPage> {
    if page.items@.len() > 0 {
        m.append(page)
    } else {
        m
    }
}

/// `b` is `a` with a failure shown: an error route on top, `msg` recorded.
pub open spec fn error_shown(a: App, msg: Seq<char>, b: App) -> bool {
    &&& b == (App { navigation_stack: b.navigation_stack, api_error: b.api_error, ..a })
    &&& b.navigation_stack@ == push_route(a.navigation_stack@, RouteId::Error, ActiveBlock::Error)
    &&& b.api_error@ == msg
}

/// `b` is `a` with only its navigation changed, to `nav`.
pub open spec fn navigated(a: App, nav: Seq<crate::route::Route>, b: App) -> bool {
    b == (App { navigation_stack: b.navigation_stack, ..a }) && b.navigation_stack@ == nav
}

/// The message shown when saving an episode is asked for.
pub open spec fn episode_save_message() -> Seq<char> {
    "cannot save episodes currently"@
}

/// Whether `e` ends in a playback refresh, so that no refresh is in flight
/// once it has failed.
pub open spec fn refreshes_playback(e: IoEvent) -> bool {
    match e {
        IoEvent::GetCurrentPlayback => true,
        IoEvent::Seek { .. } => true,
        IoEvent::NextTrack => true,
        IoEvent::PreviousTrack => true,
        IoEvent::PausePlayback => true,
        IoEvent::ResumePlayback => true,
        IoEvent::TransferPlaybackToDevice { .. } => true,
        _ => false,
    }
}

/// `b` is `a` with only its library changed.
pub open spec fn library_replaced(a: App, b: App) -> bool {
    b == (App { library: b.library, ..a })
}

/// The playback snapshot after a request that succeeded, where the request
/// changes one setting of the player.
pub open spec fn setting_applied(e: IoEvent, ctx: Option<PlaybackContext>) -> Option<PlaybackContext> {
    match ctx {
        Some(c) => Some(match e {
            IoEvent::ToggleShuffle => PlaybackContext { shuffle_state: !c.shuffle_state, ..c },
            IoEvent::Repeat { state } => PlaybackContext { repeat_state: crate::model::next_repeat(state), ..c },
            IoEvent::ChangeVolume { volume } => PlaybackContext { volume_percent: Some(volume as u32), ..c },
            _ => c,
        }),
        None => None,
    }
}

/// Whether `item` is a personal mix named `term`: a playlist of the service's
/// own account with exactly that name.
pub open spec fn is_mix(item: PageItem, term: Seq<char>) -> bool {
    item.owner_id is Some && item.owner_id->Some_0@ == "spotify"@ && item.name@ == term
}

/// The personal mixes named `term` among `items`, in order.
pub open spec fn mixes(items: Seq<PageItem>, term: Seq<char>) -> Seq<PageItem>
    decreases items.len(),
{
    if items.len() == 0 {
        Seq::empty()
    } else {
        let rest = mixes(items.drop_last(), term);
        if is_mix(items.last(), term) {
            rest.push(items.last())
        } else {
            rest
        }
    }
}

/// `b` is `a` after a search for the mix `term` returned `p`: the mixes found
/// are added to the current page of personal mixes, or form its first page.
pub open spec fn mixes_added(a: App, term: Seq<char>, p: ResultPage, b: App) -> bool {
    let m = a.library.made_for_you_playlists@;
    let n = b.library.made_for_you_playlists@;
    &&& b == (App { library: b.library, ..a })
    &&& b.library == (Library { made_for_you_playlists: b.library.made_for_you_playlists, ..a.library })
    &&& if m.pages.len() > 0 {
        let i = m.index as int;
        &&& n.index == m.index
        &&& n.pages.len() == m.pages.len()
        &&& forall|j: int| 0 <= j < m.pages.len() && j != i ==> n.pages[j] == m.pages[j]
        &&& n.pages[i].items@ == m.pages[i].items@ + mixes(p.items@, term)
        &&& n.pages[i].offset == m.pages[i].offset
        &&& n.pages[i].limit == m.pages[i].limit
        &&& n.pages[i].total == m.pages[i].total
    } else {
        &&& n.index == 0
        &&& n.pages.len() == 1
        &&& n.pages[0].items@ == mixes(p.items@, term)
        &&& n.pages[0].offset == p.offset
        &&& n.pages[0].limit == p.limit
        &&& n.pages[0].total == p.total
    }
}

/// The state once a playback refresh has ended without a snapshot: none is in
/// flight, and the spacing to the next one starts at `now_ms`.
pub open spec fn refresh_ended(a: App, now_ms: u64) -> App {
    App { is_fetching_current_playback: false, last_playback_poll_ms: now_ms, ..a }
}

/// `b` is `a` after the successful outcome `r` of command `e` was applied at
/// clock reading `now_ms` (the loading flag aside). An outcome of another shape
/// than the command produces changes nothing.
pub open spec fn success_applied(a: App, e: IoEvent, r: RemoteResult, now_ms: u64, b: App) -> bool {
    match e {
        IoEvent::GetCurrentPlayback | IoEvent::Seek { .. } | IoEvent::NextTrack | IoEvent::PreviousTrack
        | IoEvent::PausePlayback | IoEvent::ResumePlayback => match r {
            RemoteResult::Playback(ctx) => playback_applied(a, ctx, now_ms, b),
            _ => b == refresh_ended(a, now_ms),
        },
        IoEvent::TransferPlaybackToDevice { .. } => match r {
            RemoteResult::Playback(ctx) => exists|mid: App| #[trigger] playback_applied(a, ctx, now_ms, mid)
                && navigated(mid, pop_route(mid.navigation_stack@), b),
            _ => b == refresh_ended(a, now_ms),
        },
        IoEvent::CurrentUserSavedTracksContains { track_ids } => match r {
            RemoteResult::Flags(f) => set_replaced(a, SavedKind::Tracks, apply_flags(a.liked_song_ids_set@, track_ids@, f@), b),
            _ => b == a,
        },
        IoEvent::CurrentUserSavedAlbumsContains { album_ids } => match r {
            RemoteResult::Flags(f) => set_replaced(a, SavedKind::Albums, apply_flags(a.saved_album_ids_set@, album_ids@, f@), b),
            _ => b == a,
        },
        IoEvent::CurrentUserSavedShowsContains { show_ids } => match r {
            RemoteResult::Flags(f) => set_replaced(a, SavedKind::Shows, apply_flags(a.saved_show_ids_set@, show_ids@, f@), b),
            _ => b == a,
        },
        IoEvent::UserArtistFollowCheck { artist_ids } => match r {
            RemoteResult::Flags(f) => set_replaced(a, SavedKind::Artists, apply_flags(a.followed_artist_ids_set@, artist_ids@, f@), b),
            _ => b == a,
        },
        IoEvent::GetCurrentSavedTracks { .. } => match r {
            RemoteResult::Page(p) => {
                &&& b == (App {
                    item_table: b.item_table,
                    liked_song_ids_set: b.liked_song_ids_set,
                    library: b.library,
                    ..a
                })
                &&& b.item_table.item_ids@ == item_ids(p.items@)
                &&& b.item_table.context == Some(ItemTableContext::SavedTracks)
                &&& b.item_table.selected_index == a.item_table.selected_index
                &&& b.liked_song_ids_set@ == insert_ids(a.liked_song_ids_set@, item_ids(p.items@))
                &&& b.library == (Library { saved_tracks: b.library.saved_tracks, ..a.library })
                &&& b.library.saved_tracks@ == a.library.saved_tracks@.append(p)
            },
            _ => b == a,
        },
        IoEvent::GetCurrentUserSavedAlbums { .. } => match r {
            RemoteResult::Page(p) => library_replaced(a, b)
                && b.library == (Library { saved_albums: b.library.saved_albums, ..a.library })
                && b.library.saved_albums@ == appended_if_nonempty(a.library.saved_albums@, p),
            _ => b == a,
        },
        IoEvent::GetCurrentUserSavedShows { .. } => match r {
            RemoteResult::Page(p) => library_replaced(a, b)
                && b.library == (Library { saved_shows: b.library.saved_shows, ..a.library })
                && b.library.saved_shows@ == appended_if_nonempty(a.library.saved_shows@, p),
            _ => b == a,
        },
        IoEvent::GetCurrentShowEpisodes { .. } => match r {
            RemoteResult::Page(p) => library_replaced(a, b)
                && b.library == (Library { show_episodes: b.library.show_episodes, ..a.library })
                && b.library.show_episodes@ == appended_if_nonempty(a.library.show_episodes@, p),
            _ => b == a,
        },
        IoEvent::GetShowEpisodes { show_id } => match r {
            RemoteResult::Page(p) => if p.items@.len() > 0 {
                &&& b == (App {
                    library: b.library,
                    navigation_stack: b.navigation_stack,
                    selected_show_simplified: Some(show_id),
                    episode_table_context: EpisodeTableContext::Simplified,
                    ..a
                })
                &&& b.library == (Library { show_episodes: b.library.show_episodes, ..a.library })
                &&& b.library.show_episodes@ == (PagesModel { pages: seq![p], index: 0 })
                &&& b.navigation_stack@ == push_route(a.navigation_stack@, RouteId::PodcastEpisodes, ActiveBlock::EpisodeTable)
            } else {
                b == a
            },
            _ => b == a,
        },
        IoEvent::GetFollowedArtists { .. } => match r {
            RemoteResult::Page(p) => {
                &&& b == (App { library: b.library, artists: b.artists, ..a })
                &&& b.artists@ == item_ids(p.items@)
                &&& b.library == (Library { saved_artists: b.library.saved_artists, ..a.library })
                &&& b.library.saved_artists@ == a.library.saved_artists@.append(p)
            },
            _ => b == a,
        },
        IoEvent::GetPlaylists => match r {
            RemoteResult::Page(p) => b == (App { playlists: Some(p), selected_playlist_index: Some(0), ..a }),
            _ => b == a,
        },
        IoEvent::GetUser => match r {
            RemoteResult::Profile(u) => b == (App { user: Some(u), ..a }),
            _ => b == a,
        },
        IoEvent::GetDevices => match r {
            RemoteResult::Devices(d) => {
                let a1 = if d@.len() > 0 { App { devices: Some(d), selected_device_index: Some(0), ..a } } else { a };
                navigated(a1, push_route(a.navigation_stack@, RouteId::SelectedDevice, ActiveBlock::SelectDevice), b)
            },
            _ => b == a,
        },
        IoEvent::ToggleShuffle | IoEvent::Repeat { .. } | IoEvent::ChangeVolume { .. } => match r {
            RemoteResult::Done => b == (App { current_playback_context: setting_applied(e, a.current_playback_context), ..a }),
            _ => b == a,
        },
        IoEvent::StartContextPlayback { .. } | IoEvent::StartPlayablesPlayback { .. } => match r {
            RemoteResult::Done => after_dispatches(App { song_progress_ms: 0, ..a }, seq![IoEvent::GetCurrentPlayback], b),
            _ => b == a,
        },
        IoEvent::CurrentUserSavedAlbumDelete { album_id } => match r {
            RemoteResult::Done => {
                &&& after_dispatches(
                    App { saved_album_ids_set: b.saved_album_ids_set, ..a },
                    seq![IoEvent::GetCurrentUserSavedAlbums { offset: None }],
                    b,
                )
                &&& b.saved_album_ids_set@ == a.saved_album_ids_set@.remove(album_id@)
            },
            _ => b == a,
        },
        IoEvent::CurrentUserSavedAlbumAdd { album_id } => match r {
            RemoteResult::Done => set_replaced(a, SavedKind::Albums, a.saved_album_ids_set@.insert(album_id@), b),
            _ => b == a,
        },
        IoEvent::CurrentUserSavedShowDelete { show_id } => match r {
            RemoteResult::Done => {
                &&& after_dispatches(
                    App { saved_show_ids_set: b.saved_show_ids_set, ..a },
                    seq![IoEvent::GetCurrentUserSavedShows { offset: None }],
                    b,
                )
                &&& b.saved_show_ids_set@ == a.saved_show_ids_set@.remove(show_id@)
            },
            _ => b == a,
        },
        IoEvent::CurrentUserSavedShowAdd { show_id } => match r {
            RemoteResult::Done => {
                &&& after_dispatches(
                    App { saved_show_ids_set: b.saved_show_ids_set, ..a },
                    seq![IoEvent::GetCurrentUserSavedShows { offset: None }],
                    b,
                )
                &&& b.saved_show_ids_set@ == a.saved_show_ids_set@.insert(show_id@)
            },
            _ => b == a,
        },
        IoEvent::UserUnfollowArtists { artist_ids } => match r {
            RemoteResult::Done => {
                &&& after_dispatches(
                    App { followed_artist_ids_set: b.followed_artist_ids_set, ..a },
                    seq![IoEvent::GetFollowedArtists { after: None }],
                    b,
                )
                &&& b.followed_artist_ids_set@ == remove_ids(a.followed_artist_ids_set@, artist_ids@)
            },
            _ => b == a,
        },
        IoEvent::UserFollowArtists { artist_ids } => match r {
            RemoteResult::Done => {
                &&& after_dispatches(
                    App { followed_artist_ids_set: b.followed_artist_ids_set, ..a },
                    seq![IoEvent::GetFollowedArtists { after: None }],
                    b,
                )
                &&& b.followed_artist_ids_set@ == insert_ids(a.followed_artist_ids_set@, artist_ids@)
            },
            _ => b == a,
        },
        IoEvent::UserFollowPlaylist { .. } | IoEvent::UserUnfollowPlaylist { .. } => match r {
            RemoteResult::Done => after_dispatches(a, seq![IoEvent::GetPlaylists], b),
            _ => b == a,
        },
        IoEvent::ToggleSaveTrack { track_id } => match r {
            RemoteResult::Saved(s) => set_replaced(
                a,
                SavedKind::Tracks,
                if s { a.liked_song_ids_set@.insert(track_id@) } else { a.liked_song_ids_set@.remove(track_id@) },
                b,
            ),
            _ => b == a,
        },
        IoEvent::SetTracksToTable { track_ids } => {
            &&& dispatched_check(App { item_table: b.item_table, ..a }, SavedKind::Tracks, track_ids@, b)
            &&& b.item_table.item_ids@ == track_ids@
            &&& b.item_table.selected_index == a.item_table.selected_index
            &&& b.item_table.context == a.item_table.context
        },
        IoEvent::SetArtistsToTable { artist_ids } => b == (App { artists: artist_ids, ..a }),
        IoEvent::GetAlbum { .. } => match r {
            RemoteResult::Page(p) => navigated(
                App { album_table_context: AlbumTableContext::Full, selected_album_full: Some(p), ..a },
                push_route(a.navigation_stack@, RouteId::AlbumTracks, ActiveBlock::AlbumTracks),
                b,
            ),
            _ => b == a,
        },
        IoEvent::GetAlbumForTrack { .. } => match r {
            RemoteResult::AlbumTrack(p, n) => navigated(
                App {
                    album_table_context: AlbumTableContext::Full,
                    selected_album_full: Some(p),
                    saved_album_tracks_index: if n > 0 { (n - 1) as usize } else { 0 },
                    ..a
                },
                push_route(a.navigation_stack@, RouteId::AlbumTracks, ActiveBlock::AlbumTracks),
                b,
            ),
            _ => b == a,
        },
        IoEvent::GetShow { show_id } => match r {
            RemoteResult::Done => navigated(
                App { selected_show_full: Some(show_id), episode_table_context: EpisodeTableContext::Full, ..a },
                push_route(a.navigation_stack@, RouteId::PodcastEpisodes, ActiveBlock::EpisodeTable),
                b,
            ),
            _ => b == a,
        },
        IoEvent::GetAlbumTracks { .. } => match r {
            RemoteResult::Page(p) => exists|mid: App| #[trigger] navigated(
                App { album_table_context: AlbumTableContext::Simplified, selected_album_tracks: Some(p), ..a },
                push_route(a.navigation_stack@, RouteId::AlbumTracks, ActiveBlock::AlbumTracks),
                mid,
            ) && dispatched_check(mid, SavedKind::Tracks, item_ids(p.items@), b),
            _ => b == a,
        },
        IoEvent::GetPlaylistItems { .. } => match r {
            RemoteResult::Page(p) => exists|mid: App| #[trigger] dispatched_check(
                App { playlist_items: Some(p), ..a },
                SavedKind::Tracks,
                item_ids(p.items@),
                mid,
            ) && navigated(mid, push_route(mid.navigation_stack@, RouteId::ItemTable, ActiveBlock::ItemTable), b),
            _ => b == a,
        },
        IoEvent::GetMadeForYouPlaylistItems { .. } => match r {
            RemoteResult::Page(p) => exists|mid: App| #[trigger] dispatched_check(
                App { made_for_you_playlist_items: Some(p), ..a },
                SavedKind::Tracks,
                item_ids(p.items@),
                mid,
            ) && navigated(mid, push_route(mid.navigation_stack@, RouteId::ItemTable, ActiveBlock::ItemTable), b),
            _ => b == a,
        },
        IoEvent::GetRecentlyPlayed => match r {
            RemoteResult::Page(p) => dispatched_check(
                App { recently_played: SpotifyResultAndSelectedIndex { result: Some(p), ..a.recently_played }, ..a },
                SavedKind::Tracks,
                item_ids(p.items@),
                b,
            ),
            _ => b == a,
        },
        IoEvent::MadeForYouSearchAndAdd { search_term, .. } => match r {
            RemoteResult::Page(p) => mixes_added(a, search_term@, p, b),
            _ => b == a,
        },
        IoEvent::GetRecommendationsForSeed { first_track, .. } => match r {
            RemoteResult::Tracks(ids) => recommendations_applied(a, with_first(first_track, ids@), b),
            _ => b == a,
        },
        IoEvent::GetRecommendationsForTrackId { track_id, .. } => match r {
            RemoteResult::Tracks(ids) => recommendations_applied(a, with_first(Some(track_id), ids@), b),
            _ => b == a,
        },
        IoEvent::GetArtist { input_artist_name, .. } => match r {
            RemoteResult::ArtistData(d) => dispatched_check(
                App { artist: Some(artist_screen(d, input_artist_name)), ..a },
                SavedKind::Albums,
                item_ids(d.albums.items@),
                b,
            ),
            _ => b == a,
        },
        IoEvent::GetSearchResults { .. } => match r {
            RemoteResult::Search(sp) => exists|q: Seq<IoEvent>| search_checks(q, sp) && #[trigger] after_dispatches(
                with_search(a, sp),
                q,
                b,
            ),
            _ => b == a,
        },
        _ => b == a,
    }
}

/// `b` is `a` after the outcome `r` of command `e` was applied at clock reading
/// `now_ms`, the loading flag aside.
pub open spec fn outcome_applied(a: App, e: IoEvent, r: RemoteResult, now_ms: u64, b: App) -> bool {
    match e {
        IoEvent::ToggleSaveEpisode { .. } => error_shown(a, episode_save_message(), b),
        IoEvent::UpdateSearchLimits { .. } => b == a,
        _ => match r {
            RemoteResult::Failed(msg) => error_shown(
                if refreshes_playback(e) { refresh_ended(a, now_ms) } else { a },
                msg@,
                b,
            ),
            _ => success_applied(a, e, r, now_ms, b),
        },
    }
}

/// The worker's own state: the page sizes it asks for, and whether a command
/// is being executed.
pub struct Network {
    pub large_search_limit: u32,
    pub small_search_limit: u32,
    pub executing: bool,
}

impl Network {
    /// An idle worker with the default page sizes.
    pub fn new() -> (r: Network)
        ensures
            r.large_search_limit == 20,
            r.small_search_limit == 4,
            !r.executing,
    {
        Network { large_search_limit: 20, small_search_limit: 4, executing: false }
    }

    /// Idle to executing: takes the oldest queued command, if any, and raises
    /// the loading flag, which stays up until the command's outcome is applied.
    pub fn next_event(&mut self, app: &mut App) -> (r: Option<IoEvent>)
        requires
            !old(self).executing,
            old(app).wf(),
        ensures
            final(app).wf(),
            final(app).channel.is_closed() == old(app).channel.is_closed(),
            old(app).channel@.len() == 0 ==> {
                &&& r is None
                &&& *final(self) == *old(self)
                &&& *final(app) == (App { channel: final(app).channel, ..*old(app) })
                &&& final(app).channel@ == old(app).channel@
            },
            old(app).channel@.len() > 0 ==> {
                &&& r == Some(old(app).channel@[0])
                &&& *final(app) == (App { channel: final(app).channel, is_loading: true, ..*old(app) })
                &&& final(app).channel@ == old(app).channel@.drop_first()
                &&& *final(self) == (Network { executing: true, ..*old(self) })
            },
    {
        let r = app.channel.recv();
        if r.is_some() {
            app.is_loading = true;
            self.executing = true;
        }
        r
    }

    /// Executing to idle: applies the outcome `result` of command `event`,
    /// which completed at clock reading `now_ms`, then clears the loading flag.
    /// A failure is shown as an error route; the worker then goes on with the
    /// next command.
    pub fn handle_network_event(&mut self, app: &mut App, event: IoEvent, result: RemoteResult, now_ms: u64)
        requires
            old(app).wf(),
        ensures
            final(app).wf(),
            !final(self).executing,
            !final(app).is_loading,
            exists|mid: App| #[trigger] outcome_applied(*old(app), event, result, now_ms, mid)
                && *final(app) == (App { is_loading: false, ..mid }),
            match event {
                IoEvent::UpdateSearchLimits { large_search_limit, small_search_limit } => {
                    final(self).large_search_limit == large_search_limit
                        && final(self).small_search_limit == small_search_limit
                },
                _ => final(self).large_search_limit == old(self).large_search_limit
                    && final(self).small_search_limit == old(self).small_search_limit,
            },
    {
        let ghost e0 = event;
        let ghost r0 = result;
        match event {
            IoEvent::ToggleSaveEpisode { .. } => {
                app.handle_error("cannot save episodes currently".to_owned());
            },
            IoEvent::UpdateSearchLimits { large_search_limit, small_search_limit } => {
                self.large_search_limit = large_search_limit;
                self.small_search_limit = small_search_limit;
            },
            _ => {
                match result {
                    RemoteResult::Failed(msg) => {
                        if refreshes_playback_exec(&event) {
                            app.is_fetching_current_playback = false;
                            app.last_playback_poll_ms = now_ms;
                        }
                        app.handle_error(msg);
                    },
                    r => app.apply_success(event, r, now_ms),
                }
            },
        }
        let ghost mid = *app;
        assert(outcome_applied(*old(app), e0, r0, now_ms, mid));
        app.is_loading = false;
        self.executing = false;
    }
}

fn refreshes_playback_exec(e: &IoEvent) -> (r: bool)
    ensures
        r == refreshes_playback(*e),
{
    match e {
        IoEvent::GetCurrentPlayback => true,
        IoEvent::Seek { .. } => true,
        IoEvent::NextTrack => true,
        IoEvent::PreviousTrack => true,
        IoEvent::PausePlayback => true,
        IoEvent::ResumePlayback => true,
        IoEvent::TransferPlaybackToDevice { .. } => true,
        _ => false,
    }
}

/// Commands dispatched one after the other are taken by the worker in that
/// order, and the loading flag is raised while they wait.
pub proof fn lemma_dispatch_order(a0: App, x: IoEvent, a1: App, y: IoEvent, a2: App)
    requires
        !a0.channel.is_closed(),
        a0.channel@.len() == 0,
        after_dispatches(a0, seq![x], a1),
        after_dispatches(a1, seq![y], a2),
    ensures
        a2.channel@ == seq![x, y],
        a2.channel@[0] == x,
        a2.channel@.drop_first() == seq![y],
        a2.is_loading,
{
    assert(a1.channel@ =~= seq![x]);
    assert(a2.channel@ =~= seq![x, y]);
    assert(a2.channel@.drop_first() =~= seq![y]);
}

/// Commands that a handler enqueues, follow-ups included, go behind every
/// command that was already waiting: those keep their places at the front.
pub proof fn lemma_followups_queue_behind(
    a: App,
    nav: Seq<crate::route::Route>,
    cmds: Seq<IoEvent>,
    b: App,
    i: int,
)
    requires
        dispatched(a, nav, cmds, b),
        0 <= i < a.channel@.len(),
    ensures
        b.channel@[i] == a.channel@[i],
        b.channel@.len() >= a.channel@.len(),
{
}

/// However a playback refresh ends (with a snapshot, without one, or with a
/// failure), the spacing to the next refresh starts when it ends: no tick
/// within the minimum spacing after that issues another refresh.
pub proof fn lemma_refresh_spacing_after_outcome(
    a: App,
    e: IoEvent,
    r: RemoteResult,
    now_ms: u64,
    b: App,
    tick_ms: u64,
)
    requires
        refreshes_playback(e),
        outcome_applied(a, e, r, now_ms, b),
        now_ms <= tick_ms,
        tick_ms < now_ms + POLL_INTERVAL_MS,
    ensures
        b.last_playback_poll_ms == now_ms,
        poll_commands(b, tick_ms).len() == 0,
{
    match r {
        RemoteResult::Playback(ctx) => {
            let mid = match e {
                IoEvent::TransferPlaybackToDevice { .. } => choose|mid: App| #[trigger] playback_applied(a, ctx, now_ms, mid)
                    && navigated(mid, pop_route(mid.navigation_stack@), b),
                _ => b,
            };
            match playback_followup(ctx) {
                Some((kind, id)) => {
                    let c = choose|c: IoEvent| contains_command(c, kind, seq![id])
                        && #[trigger] after_dispatches(refreshed(a, ctx, now_ms), seq![c], mid);
                },
                None => {},
            }
        },
        _ => {},
    }
}

/// A failed command leaves every waiting command queued, so the worker goes on
/// with the next one; the failure is shown as an error route.
pub proof fn lemma_failure_keeps_queue(a: App, e: IoEvent, msg: String, now_ms: u64, b: App)
    requires
        !(e is UpdateSearchLimits),
        outcome_applied(a, e, RemoteResult::Failed(msg), now_ms, b),
    ensures
        b.channel == a.channel,
        b.navigation_stack@.last().id == RouteId::Error,
        !b.is_fetching_current_playback || !refreshes_playback(e),
{
}

fn copy_ids(v: &Vec<String>) -> (r: Vec<String>)
    ensures
        r@ == v@,
{
    let mut r: Vec<String> = Vec::new();
    let mut i: usize = 0;
    while i < v.len()
        invariant
            i <= v@.len(),
            r@ == v@.subrange(0, i as int),
        decreases v@.len() - i,
    {
        r.push(v[i].clone());
        assert(r@ =~= v@.subrange(0, i + 1));
        i = i + 1;
    }
    assert(v@.subrange(0, v@.len() as int) =~= v@);
    r
}

fn filter_mixes(items: &Vec<PageItem>, term: &String) -> (r: Vec<PageItem>)
    ensures
        r@ == mixes(items@, term@),
{
    let service = "spotify".to_owned();
    let mut r: Vec<PageItem> = Vec::new();
    let mut i: usize = 0;
    while i < items.len()
        invariant
            i <= items@.len(),
            service@ == "spotify"@,
            r@ == mixes(items@.subrange(0, i as int), term@),
        decreases items@.len() - i,
    {
        assert(items@.subrange(0, i + 1).drop_last() =~= items@.subrange(0, i as int));
        let it = &items[i];
        let keep = match &it.owner_id {
            Some(o) => *o == service && it.name == *term,
            None => false,
        };
        if keep {
            r.push(it.duplicate());
        }
        i = i + 1;
    }
    assert(items@.subrange(0, items@.len() as int) =~= items@);
    r
}

fn add_nonempty(cache: &mut ScrollableResultPages<ResultPage>, page: ResultPage)
    ensures
        final(cache)@ == appended_if_nonempty(old(cache)@, page),
        old(cache)@.wf() ==> final(cache)@.wf(),
{
    if page.items.len() > 0 {
        cache.add_pages(page);
    }
}

fn single(id: String) -> (r: Vec<String>)
    ensures
        r@ == seq![id],
{
    let mut r: Vec<String> = Vec::new();
    r.push(id);
    r
}

impl App {
    /// Dispatches a check of `ids` against the membership set for `kind`.
    fn dispatch_check(&mut self, kind: SavedKind, ids: Vec<String>)
        requires
            old(self).wf(),
        ensures
            final(self).wf(),
            dispatched_check(*old(self), kind, ids@, *final(self)),
    {
        let e = match kind {
            SavedKind::Tracks => IoEvent::CurrentUserSavedTracksContains { track_ids: ids },
            SavedKind::Albums => IoEvent::CurrentUserSavedAlbumsContains { album_ids: ids },
            SavedKind::Shows => IoEvent::CurrentUserSavedShowsContains { show_ids: ids },
            SavedKind::Artists => IoEvent::UserArtistFollowCheck { artist_ids: ids },
        };
        assert(contains_command(e, kind, ids@));
        self.dispatch(e);
    }

    /// Applies a playback snapshot that arrived at `now_ms`, then asks whether
    /// the playing item is saved.
    pub fn apply_current_playback(&mut self, ctx: Option<PlaybackContext>, now_ms: u64)
        requires
            old(self).wf(),
        ensures
            final(self).wf(),
            playback_applied(*old(self), ctx, now_ms, *final(self)),
    {
        let mut check: Option<(SavedKind, String)> = None;
        if let Some(c) = &ctx {
            if let Some(item) = &c.item {
                if let Some(id) = &item.id {
                    let kind = if item.kind == PlayableKind::Track { SavedKind::Tracks } else { SavedKind::Shows };
                    check = Some((kind, id.clone()));
                }
            }
        }
        self.last_playback_poll_ms = now_ms;
        if ctx.is_some() {
            self.current_playback_context = ctx;
        }
        self.seek_ms = None;
        self.is_fetching_current_playback = false;
        if let Some((kind, id)) = check {
            self.dispatch_check(kind, single(id));
        }
    }

    /// Applies the answers of a "which of these are saved" check to the set for `kind`.
    pub fn apply_saved_flags(&mut self, kind: SavedKind, ids: &Vec<String>, flags: &Vec<bool>)
        requires
            old(self).wf(),
        ensures
            final(self).wf(),
            set_replaced(*old(self), kind, apply_flags(saved_set(*old(self), kind), ids@, flags@), *final(self)),
    {
        match kind {
            SavedKind::Tracks => self.liked_song_ids_set.apply_flags(ids, flags),
            SavedKind::Albums => self.saved_album_ids_set.apply_flags(ids, flags),
            SavedKind::Shows => self.saved_show_ids_set.apply_flags(ids, flags),
            SavedKind::Artists => self.followed_artist_ids_set.apply_flags(ids, flags),
        }
    }

    /// Stores a page of saved tracks: it fills the table, its tracks are known
    /// to be liked, and it becomes the current page.
    pub fn apply_saved_tracks_page(&mut self, page: ResultPage)
        requires
            old(self).wf(),
        ensures
            final(self).wf(),
            success_applied(*old(self), IoEvent::GetCurrentSavedTracks { offset: None }, RemoteResult::Page(page), 0, *final(self)),
    {
        let ids = page.ids();
        self.liked_song_ids_set.insert_all(&ids);
        self.item_table.item_ids = ids;
        self.library.saved_tracks.add_pages(page);
        self.item_table.context = Some(ItemTableContext::SavedTracks);
    }

    #[verifier::rlimit(60)]
    fn apply_success(&mut self, e: IoEvent, r: RemoteResult, now_ms: u64)
        requires
            old(self).wf(),
        ensures
            final(self).wf(),
            success_applied(*old(self), e, r, now_ms, *final(self)),
    {
        match e {
            IoEvent::GetCurrentPlayback | IoEvent::Seek { .. } | IoEvent::NextTrack | IoEvent::PreviousTrack
            | IoEvent::PausePlayback | IoEvent::ResumePlayback => {
                if let RemoteResult::Playback(ctx) = r {
                    self.apply_current_playback(ctx, now_ms);
                } else {
                    self.is_fetching_current_playback = false;
                    self.last_playback_poll_ms = now_ms;
                }
            },
            IoEvent::TransferPlaybackToDevice { .. } => {
                if let RemoteResult::Playback(ctx) = r {
                    self.apply_current_playback(ctx, now_ms);
                    let ghost mid = *self;
                    self.pop_navigation_stack();
                    assert(playback_applied(*old(self), ctx, now_ms, mid));
                } else {
                    self.is_fetching_current_playback = false;
                    self.last_playback_poll_ms = now_ms;
                }
            },
            IoEvent::CurrentUserSavedTracksContains { track_ids } => {
                if let RemoteResult::Flags(f) = r {
                    self.apply_saved_flags(SavedKind::Tracks, &track_ids, &f);
                }
            },
            IoEvent::CurrentUserSavedAlbumsContains { album_ids } => {
                if let RemoteResult::Flags(f) = r {
                    self.apply_saved_flags(SavedKind::Albums, &album_ids, &f);
                }
            },
            IoEvent::CurrentUserSavedShowsContains { show_ids } => {
                if let RemoteResult::Flags(f) = r {
                    self.apply_saved_flags(SavedKind::Shows, &show_ids, &f);
                }
            },
            IoEvent::UserArtistFollowCheck { artist_ids } => {
                if let RemoteResult::Flags(f) = r {
                    self.apply_saved_flags(SavedKind::Artists, &artist_ids, &f);
                }
            },
            IoEvent::GetCurrentSavedTracks { .. } => {
                if let RemoteResult::Page(p) = r {
                    self.apply_saved_tracks_page(p);
                }
            },
            IoEvent::GetCurrentUserSavedAlbums { .. } => {
                if let RemoteResult::Page(p) = r {
                    add_nonempty(&mut self.library.saved_albums, p);
                }
            },
            IoEvent::GetCurrentUserSavedShows { .. } => {
                if let RemoteResult::Page(p) = r {
                    add_nonempty(&mut self.library.saved_shows, p);
                }
            },
            IoEvent::GetCurrentShowEpisodes { .. } => {
                if let RemoteResult::Page(p) = r {
                    add_nonempty(&mut self.library.show_episodes, p);
                }
            },
            IoEvent::GetShowEpisodes { show_id } => {
                if let RemoteResult::Page(p) = r {
                    if p.items.len() > 0 {
                        let ghost p0 = p;
                        let mut episodes = ScrollableResultPages::new();
                        episodes.add_pages(p);
                        assert(episodes@.pages =~= seq![p0]);
                        self.library.show_episodes = episodes;
                        self.selected_show_simplified = Some(show_id);
                        self.episode_table_context = EpisodeTableContext::Simplified;
                        self.push_navigation_stack(RouteId::PodcastEpisodes, ActiveBlock::EpisodeTable);
                    }
                }
            },
            IoEvent::GetFollowedArtists { .. } => {
                if let RemoteResult::Page(p) = r {
                    self.artists = p.ids();
                    self.library.saved_artists.add_pages(p);
                }
            },
            IoEvent::GetPlaylists => {
                if let RemoteResult::Page(p) = r {
                    self.playlists = Some(p);
                    self.selected_playlist_index = Some(0);
                }
            },
            IoEvent::GetUser => {
                if let RemoteResult::Profile(u) = r {
                    self.user = Some(u);
                }
            },
            IoEvent::GetDevices => {
                if let RemoteResult::Devices(d) = r {
                    if d.len() > 0 {
                        self.devices = Some(d);
                        self.selected_device_index = Some(0);
                    }
                    self.push_navigation_stack(RouteId::SelectedDevice, ActiveBlock::SelectDevice);
                }
            },
            IoEvent::ToggleShuffle => {
                if let RemoteResult::Done = r {
                    if let Some(c) = &mut self.current_playback_context {
                        c.shuffle_state = !c.shuffle_state;
                    }
                }
            },
            IoEvent::Repeat { state } => {
                if let RemoteResult::Done = r {
                    if let Some(c) = &mut self.current_playback_context {
                        c.repeat_state = crate::model::next_repeat_state(state);
                    }
                }
            },
            IoEvent::ChangeVolume { volume } => {
                if let RemoteResult::Done = r {
                    if let Some(c) = &mut self.current_playback_context {
                        c.volume_percent = Some(volume as u32);
                    }
                }
            },
            IoEvent::StartContextPlayback { .. } | IoEvent::StartPlayablesPlayback { .. } => {
                if let RemoteResult::Done = r {
                    self.song_progress_ms = 0;
                    self.dispatch(IoEvent::GetCurrentPlayback);
                }
            },
            IoEvent::CurrentUserSavedAlbumDelete { album_id } => {
                if let RemoteResult::Done = r {
                    self.saved_album_ids_set.remove(&album_id);
                    self.dispatch(IoEvent::GetCurrentUserSavedAlbums { offset: None });
                }
            },
            IoEvent::CurrentUserSavedAlbumAdd { album_id } => {
                if let RemoteResult::Done = r {
                    self.saved_album_ids_set.insert(album_id);
                }
            },
            IoEvent::CurrentUserSavedShowDelete { show_id } => {
                if let RemoteResult::Done = r {
                    self.saved_show_ids_set.remove(&show_id);
                    self.dispatch(IoEvent::GetCurrentUserSavedShows { offset: None });
                }
            },
            IoEvent::CurrentUserSavedShowAdd { show_id } => {
                if let RemoteResult::Done = r {
                    self.saved_show_ids_set.insert(show_id);
                    self.dispatch(IoEvent::GetCurrentUserSavedShows { offset: None });
                }
            },
            IoEvent::UserUnfollowArtists { artist_ids } => {
                if let RemoteResult::Done = r {
                    self.followed_artist_ids_set.remove_all(&artist_ids);
                    self.dispatch(IoEvent::GetFollowedArtists { after: None });
                }
            },
            IoEvent::UserFollowArtists { artist_ids } => {
                if let RemoteResult::Done = r {
                    self.followed_artist_ids_set.insert_all(&artist_ids);
                    self.dispatch(IoEvent::GetFollowedArtists { after: None });
                }
            },
            IoEvent::UserFollowPlaylist { .. } | IoEvent::UserUnfollowPlaylist { .. } => {
                if let RemoteResult::Done = r {
                    self.dispatch(IoEvent::GetPlaylists);
                }
            },
            IoEvent::ToggleSaveTrack { track_id } => {
                if let RemoteResult::Saved(saved) = r {
                    if saved {
                        self.liked_song_ids_set.insert(track_id);
                    } else {
                        self.liked_song_ids_set.remove(&track_id);
                    }
                }
            },
            IoEvent::SetTracksToTable { track_ids } => {
                self.item_table.item_ids = copy_ids(&track_ids);
                self.dispatch_check(SavedKind::Tracks, track_ids);
            },
            IoEvent::SetArtistsToTable { artist_ids } => {
                self.artists = artist_ids;
            },
            IoEvent::GetAlbum { .. } => {
                if let RemoteResult::Page(p) = r {
                    self.album_table_context = AlbumTableContext::Full;
                    self.selected_album_full = Some(p);
                    self.push_navigation_stack(RouteId::AlbumTracks, ActiveBlock::AlbumTracks);
                }
            },
            IoEvent::GetAlbumForTrack { .. } => {
                if let RemoteResult::AlbumTrack(p, n) = r {
                    self.album_table_context = AlbumTableContext::Full;
                    self.selected_album_full = Some(p);
                    self.saved_album_tracks_index = if n > 0 { (n - 1) as usize } else { 0 };
                    self.push_navigation_stack(RouteId::AlbumTracks, ActiveBlock::AlbumTracks);
                }
            },
            IoEvent::GetShow { show_id } => {
                if let RemoteResult::Done = r {
                    self.selected_show_full = Some(show_id);
                    self.episode_table_context = EpisodeTableContext::Full;
                    self.push_navigation_stack(RouteId::PodcastEpisodes, ActiveBlock::EpisodeTable);
                }
            },
            IoEvent::GetAlbumTracks { .. } => {
                if let RemoteResult::Page(p) = r {
                    let ghost p0 = p;
                    let ids = p.ids();
                    self.album_table_context = AlbumTableContext::Simplified;
                    self.selected_album_tracks = Some(p);
                    self.push_navigation_stack(RouteId::AlbumTracks, ActiveBlock::AlbumTracks);
                    let ghost mid = *self;
                    self.dispatch_check(SavedKind::Tracks, ids);
                    assert(navigated(
                        App { album_table_context: AlbumTableContext::Simplified, selected_album_tracks: Some(p0), ..*old(self) },
                        push_route(old(self).navigation_stack@, RouteId::AlbumTracks, ActiveBlock::AlbumTracks),
                        mid,
                    ));
                }
            },
            IoEvent::GetPlaylistItems { .. } => {
                if let RemoteResult::Page(p) = r {
                    let ghost p0 = p;
                    let ids = p.ids();
                    self.playlist_items = Some(p);
                    self.dispatch_check(SavedKind::Tracks, ids);
                    let ghost mid = *self;
                    self.push_navigation_stack(RouteId::ItemTable, ActiveBlock::ItemTable);
                    assert(dispatched_check(App { playlist_items: Some(p0), ..*old(self) }, SavedKind::Tracks, item_ids(p0.items@), mid));
                }
            },
            IoEvent::GetMadeForYouPlaylistItems { .. } => {
                if let RemoteResult::Page(p) = r {
                    let ghost p0 = p;
                    let ids = p.ids();
                    self.made_for_you_playlist_items = Some(p);
                    self.dispatch_check(SavedKind::Tracks, ids);
                    let ghost mid = *self;
                    self.push_navigation_stack(RouteId::ItemTable, ActiveBlock::ItemTable);
                    assert(dispatched_check(
                        App { made_for_you_playlist_items: Some(p0), ..*old(self) },
                        SavedKind::Tracks,
                        item_ids(p0.items@),
                        mid,
                    ));
                }
            },
            IoEvent::MadeForYouSearchAndAdd { search_term, .. } => {
                if let RemoteResult::Page(p) = r {
                    self.add_made_for_you_results(&search_term, p);
                }
            },
            IoEvent::GetRecommendationsForSeed { first_track, .. } => {
                if let RemoteResult::Tracks(ids) = r {
                    self.apply_recommendations(first_track, ids);
                }
            },
            IoEvent::GetRecommendationsForTrackId { track_id, .. } => {
                if let RemoteResult::Tracks(ids) = r {
                    self.apply_recommendations(Some(track_id), ids);
                }
            },
            IoEvent::GetArtist { input_artist_name, .. } => {
                if let RemoteResult::ArtistData(d) = r {
                    self.apply_artist(input_artist_name, d);
                }
            },
            IoEvent::GetSearchResults { .. } => {
                if let RemoteResult::Search(sp) = r {
                    self.apply_search_results(sp);
                }
            },
            IoEvent::GetRecentlyPlayed => {
                if let RemoteResult::Page(p) = r {
                    let ids = p.ids();
                    self.recently_played.result = Some(p);
                    self.dispatch_check(SavedKind::Tracks, ids);
                }
            },
            _ => {},
        }
    }

    /// Adds the personal mixes named `search_term` found in `page` to the
    /// current page of mixes, or makes them its first page.
    pub fn add_made_for_you_results(&mut self, search_term: &String, page: ResultPage)
        requires
            old(self).wf(),
        ensures
            final(self).wf(),
            mixes_added(*old(self), search_term@, page, *final(self)),
    {
        let mut found = filter_mixes(&page.items, search_term);
        if !self.library.made_for_you_playlists.is_empty() {
            let ghost m = self.library.made_for_you_playlists@;
            let ghost found0 = found@;
            match self.library.made_for_you_playlists.get_mut_results(None) {
                Some(current) => {
                    current.items.append(&mut found);
                },
                None => {},
            }
            assert(self.library.made_for_you_playlists@.pages[m.index as int].items@ == m.pages[m.index as int].items@ + found0);
        } else {
            let first = ResultPage { items: found, offset: page.offset, limit: page.limit, total: page.total };
            self.library.made_for_you_playlists.add_pages(first);
        }
    }

    /// Builds the artist screen from fetched data, then asks which of the
    /// artist's albums are saved.
    pub fn apply_artist(&mut self, input_artist_name: String, d: ArtistPages)
        requires
            old(self).wf(),
        ensures
            final(self).wf(),
            dispatched_check(
                App { artist: Some(artist_screen(d, input_artist_name)), ..*old(self) },
                SavedKind::Albums,
                item_ids(d.albums.items@),
                *final(self),
            ),
    {
        let album_ids = d.albums.ids();
        let artist_name = if !input_artist_name.as_str().is_empty() { input_artist_name } else { d.name };
        self.artist = Some(Artist {
            artist_name,
            albums: d.albums,
            related_artist_ids: d.related_artist_ids,
            top_track_ids: d.top_track_ids,
            selected_album_index: 0,
            selected_related_artist_index: 0,
            selected_top_track_index: 0,
            artist_hovered_block: ArtistBlock::TopTracks,
            artist_selected_block: ArtistBlock::Empty,
        });
        self.dispatch_check(SavedKind::Albums, album_ids);
    }

    /// Stores fresh search results, then asks which of the found artists,
    /// albums and shows are followed or saved.
    pub fn apply_search_results(&mut self, sp: SearchPages)
        requires
            old(self).wf(),
        ensures
            final(self).wf(),
            exists|q: Seq<IoEvent>| search_checks(q, sp) && #[trigger] after_dispatches(
                with_search(*old(self), sp),
                q,
                *final(self),
            ),
    {
        let artist_ids = sp.artists.ids();
        let album_ids = sp.albums.ids();
        let show_ids = sp.shows.ids();
        self.search_results.tracks = Some(sp.tracks);
        self.search_results.artists = Some(sp.artists);
        self.search_results.albums = Some(sp.albums);
        self.search_results.playlists = Some(sp.playlists);
        self.search_results.shows = Some(sp.shows);
        self.search_results.episodes = Some(sp.episodes);
        let ghost a0 = *self;
        self.dispatch_check(SavedKind::Artists, artist_ids);
        let ghost a1 = *self;
        self.dispatch_check(SavedKind::Albums, album_ids);
        let ghost a2 = *self;
        self.dispatch_check(SavedKind::Shows, show_ids);
        proof {
            let e1 = choose|e: IoEvent| contains_command(e, SavedKind::Artists, item_ids(sp.artists.items@)) && #[trigger] after_dispatches(a0, seq![e], a1);
            let e2 = choose|e: IoEvent| contains_command(e, SavedKind::Albums, item_ids(sp.albums.items@)) && #[trigger] after_dispatches(a1, seq![e], a2);
            let e3 = choose|e: IoEvent| contains_command(e, SavedKind::Shows, item_ids(sp.shows.items@)) && #[trigger] after_dispatches(a2, seq![e], *self);
            lemma_dispatch_compose(a0, a0.navigation_stack@, seq![e1], a1, seq![e2], a2);
            lemma_dispatch_compose(a0, a0.navigation_stack@, seq![e1] + seq![e2], a2, seq![e3], *self);
            let q = seq![e1] + seq![e2] + seq![e3];
            assert(q =~= seq![e1, e2, e3]);
            assert(search_checks(q, sp));
            assert(after_dispatches(a0, q, *self));
        }
    }

    /// Shows recommendations `ids`, with the seed track `first_track` first,
    /// and starts playing them.
    pub fn apply_recommendations(&mut self, first_track: Option<String>, ids: Vec<String>)
        requires
            old(self).wf(),
        ensures
            final(self).wf(),
            recommendations_applied(*old(self), with_first(first_track, ids@), *final(self)),
    {
        let ghost list = with_first(first_track, ids@);
        let mut rest = ids;
        let mut tracks: Vec<String> = Vec::new();
        if let Some(t) = first_track {
            tracks.push(t);
        }
        tracks.append(&mut rest);
        assert(tracks@ =~= list);
        let checked = copy_ids(&tracks);
        let started = copy_ids(&tracks);
        self.recommended_track_ids = tracks;
        self.item_table.context = Some(ItemTableContext::RecommendedTracks);
        let ghost a1 = *self;
        self.push_navigation_stack(RouteId::Recommendations, ActiveBlock::ItemTable);
        let ghost mid = *self;
        self.dispatch_check(SavedKind::Tracks, checked);
        let ghost m2 = *self;
        let e2 = IoEvent::StartPlayablesPlayback { playable_ids: started, offset: Some(0) };
        let ghost e2g = e2;
        self.dispatch(e2);
        proof {
            let nav = mid.navigation_stack@;
            let e1 = choose|e: IoEvent| contains_command(e, SavedKind::Tracks, list) && #[trigger] after_dispatches(mid, seq![e], m2);
            assert(dispatched(a1, nav, seq![e1], m2));
            lemma_dispatch_compose(a1, nav, seq![e1], m2, seq![e2g], *self);
            let q = seq![e1] + seq![e2g];
            assert(q =~= seq![e1, e2g]);
            assert(start_command(q[1], list));
            assert(dispatched(a1, nav, q, *self));
        }
    }
}

} // verus!
