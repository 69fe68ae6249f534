//! The shared application state: one model that the input loop and the worker
//! mutate, each through the methods below.
use vstd::prelude::*;

use crate::channel::CommandChannel;
use crate::command::IoEvent;
use crate::id_set::IdSet;
use crate::model::{PlaybackContext, ResultPage, User};
use crate::navigation::{push_route, NavigationStack};
use crate::pages::{ScrollableResultPages, SpotifyResultAndSelectedIndex};
use crate::route::{
    ActiveBlock, AlbumTableContext, ArtistBlock, EpisodeTableContext, ItemTableContext,
    RecommendationsContext, Route, RouteId, SearchResultBlock,
};

verus! {

/// Minimum spacing between two refreshes of the playback snapshot.
pub const POLL_INTERVAL_MS: u64 = 5000;

/// Progress past which "previous track" restarts the current one instead.
pub const RESTART_THRESHOLD_MS: u64 = 3000;

/// The highest volume the player accepts.
pub const MAX_VOLUME: u32 = 100;

/// User preferences that the state logic reads.
#[derive(Clone, Copy, Debug, PartialEq, Eq, Structural)]
pub struct BehaviorConfig {
    pub seek_milliseconds: u32,
    pub volume_increment: u8,
}

/// The user's library: one page cache per paginated collection.
pub struct Library {
    pub selected_index: usize,
    pub saved_tracks: ScrollableResultPages<ResultPage>,
    pub made_for_you_playlists: ScrollableResultPages<ResultPage>,
    pub saved_albums: ScrollableResultPages<ResultPage>,
    pub saved_shows: ScrollableResultPages<ResultPage>,
    pub saved_artists: ScrollableResultPages<ResultPage>,
    pub show_episodes: ScrollableResultPages<ResultPage>,
}

impl Library {
    /// Every cursor points into its cache.
    pub open spec fn wf(&self) -> bool {
        &&& self.saved_tracks@.wf()
        &&& self.made_for_you_playlists@.wf()
        &&& self.saved_albums@.wf()
        &&& self.saved_shows@.wf()
        &&& self.saved_artists@.wf()
        &&& self.show_episodes@.wf()
    }

    /// An empty library.
    pub fn new() -> (r: Self)
        ensures
            r.wf(),
            r.selected_index == 0,
            r.saved_tracks@.pages.len() == 0,
            r.made_for_you_playlists@.pages.len() == 0,
            r.saved_albums@.pages.len() == 0,
            r.saved_shows@.pages.len() == 0,
            r.saved_artists@.pages.len() == 0,
            r.show_episodes@.pages.len() == 0,
    {
        Library {
            selected_index: 0,
            saved_tracks: ScrollableResultPages::new(),
            made_for_you_playlists: ScrollableResultPages::new(),
            saved_albums: ScrollableResultPages::new(),
            saved_shows: ScrollableResultPages::new(),
            saved_artists: ScrollableResultPages::new(),
            show_episodes: ScrollableResultPages::new(),
        }
    }
}

/// The latest search results and what is selected in them.
pub struct SearchResult {
    pub albums: Option<ResultPage>,
    pub artists: Option<ResultPage>,
    pub playlists: Option<ResultPage>,
    pub tracks: Option<ResultPage>,
    pub shows: Option<ResultPage>,
    pub episodes: Option<ResultPage>,
    pub selected_album_index: Option<usize>,
    pub selected_artists_index: Option<usize>,
    pub selected_playlists_index: Option<usize>,
    pub selected_tracks_index: Option<usize>,
    pub selected_shows_index: Option<usize>,
    pub hovered_block: SearchResultBlock,
    pub selected_block: SearchResultBlock,
}

impl SearchResult {
    /// No results yet, the song panel hovered.
    pub fn new() -> (r: Self)
        ensures
            r.albums is None && r.artists is None && r.playlists is None,
            r.tracks is None && r.shows is None && r.episodes is None,
            r.selected_album_index is None && r.selected_artists_index is None,
            r.selected_playlists_index is None && r.selected_tracks_index is None,
            r.selected_shows_index is None,
            r.hovered_block == SearchResultBlock::SongSearch,
            r.selected_block == SearchResultBlock::Empty,
    {
        SearchResult {
            albums: None,
            artists: None,
            playlists: None,
            tracks: None,
            shows: None,
            episodes: None,
            selected_album_index: None,
            selected_artists_index: None,
            selected_playlists_index: None,
            selected_tracks_index: None,
            selected_shows_index: None,
            hovered_block: SearchResultBlock::SongSearch,
            selected_block: SearchResultBlock::Empty,
        }
    }
}

/// The table of tracks or episodes shown in the main panel.
pub struct ItemTable {
    pub item_ids: Vec<String>,
    pub selected_index: usize,
    pub context: Option<ItemTableContext>,
}

/// The artist screen's data.
pub struct Artist {
    pub artist_name: String,
    pub albums: ResultPage,
    pub related_artist_ids: Vec<String>,
    pub top_track_ids: Vec<String>,
    pub selected_album_index: usize,
    pub selected_related_artist_index: usize,
    pub selected_top_track_index: usize,
    pub artist_hovered_block: ArtistBlock,
    pub artist_selected_block: ArtistBlock,
}

/// The single mutable model of the client.
pub struct App {
    pub navigation_stack: NavigationStack,
    pub channel: CommandChannel,
    pub behavior: BehaviorConfig,
    /// Clock reading, in milliseconds, of the last playback refresh.
    pub last_playback_poll_ms: u64,
    pub api_error: String,
    pub current_playback_context: Option<PlaybackContext>,
    pub devices: Option<Vec<String>>,
    pub liked_episode_ids_set: IdSet,
    pub liked_song_ids_set: IdSet,
    pub followed_artist_ids_set: IdSet,
    pub saved_album_ids_set: IdSet,
    pub saved_show_ids_set: IdSet,
    pub large_search_limit: u32,
    pub small_search_limit: u32,
    pub library: Library,
    pub playlists: Option<ResultPage>,
    pub playlist_items: Option<ResultPage>,
    pub made_for_you_playlist_items: Option<ResultPage>,
    pub recently_played: SpotifyResultAndSelectedIndex<Option<ResultPage>>,
    /// The tracks of the simplified album shown in the album table.
    pub selected_album_tracks: Option<ResultPage>,
    /// The tracks of the full album shown in the album table.
    pub selected_album_full: Option<ResultPage>,
    pub saved_album_tracks_index: usize,
    pub search_results: SearchResult,
    pub artist: Option<Artist>,
    pub artists: Vec<String>,
    pub album_table_context: AlbumTableContext,
    pub episode_table_context: EpisodeTableContext,
    pub selected_show_simplified: Option<String>,
    pub selected_show_full: Option<String>,
    pub selected_device_index: Option<usize>,
    pub selected_playlist_index: Option<usize>,
    pub song_progress_ms: u64,
    pub seek_ms: Option<u64>,
    pub item_table: ItemTable,
    pub recommended_track_ids: Vec<String>,
    pub recommendations_context: Option<RecommendationsContext>,
    pub user: Option<User>,
    pub album_list_index: usize,
    pub artists_list_index: usize,
    pub shows_list_index: usize,
    pub help_docs_size: u32,
    pub help_menu_page: u32,
    pub help_menu_max_lines: u32,
    pub help_menu_offset: u32,
    pub is_loading: bool,
    pub is_fetching_current_playback: bool,
}

/// The message shown when a command cannot be handed to the worker.
pub open spec fn worker_gone_message() -> Seq<char> {
    "the command worker has stopped"@
}

/// `b` is `a`, with navigation `nav`, after the commands `cmds` were dispatched
/// in order. On an open channel they are queued and the loading flag is
/// raised; on a closed one nothing is queued, the flag is lowered and the
/// failure is shown as an error route. Nothing else changes.
pub open spec fn dispatched(a: App, nav: Seq<Route>, cmds: Seq<IoEvent>, b: App) -> bool {
    if cmds.len() == 0 {
        &&& b == (App { navigation_stack: b.navigation_stack, ..a })
        &&& b.navigation_stack@ == nav
    } else if a.channel.is_closed() {
        &&& b == (App {
            navigation_stack: b.navigation_stack,
            channel: b.channel,
            is_loading: false,
            api_error: b.api_error,
            ..a
        })
        &&& b.navigation_stack@ == push_route(nav, RouteId::Error, ActiveBlock::Error)
        &&& b.api_error@ == worker_gone_message()
        &&& b.channel@ == a.channel@
        &&& b.channel.is_closed()
    } else {
        &&& b == (App { navigation_stack: b.navigation_stack, channel: b.channel, is_loading: true, ..a })
        &&& b.navigation_stack@ == nav
        &&& b.channel@ == a.channel@ + cmds
        &&& !b.channel.is_closed()
    }
}

/// `b` is `a` after the commands `cmds` were dispatched in order.
pub open spec fn after_dispatches(a: App, cmds: Seq<IoEvent>, b: App) -> bool {
    dispatched(a, a.navigation_stack@, cmds, b)
}

/// The command list holding `c` when there is one.
pub open spec fn opt_cmds(c: Option<IoEvent>) -> Seq<IoEvent> {
    match c {
        Some(e) => seq![e],
        None => Seq::empty(),
    }
}

/// Dispatching in two rounds is dispatching the concatenation once.
pub proof fn lemma_dispatch_compose(
    a: App,
    nav: Seq<Route>,
    s1: Seq<IoEvent>,
    b: App,
    s2: Seq<IoEvent>,
    c: App,
)
    requires
        nav.len() >= 1,
        dispatched(a, nav, s1, b),
        after_dispatches(b, s2, c),
    ensures
        dispatched(a, nav, s1 + s2, c),
{
    if s1.len() == 0 {
        assert(s1 + s2 =~= s2);
    } else if s2.len() == 0 {
        assert(s1 + s2 =~= s1);
    } else if a.channel.is_closed() {
        assert(b.navigation_stack@.last().id == RouteId::Error);
    } else {
        assert(a.channel@ + (s1 + s2) =~= (a.channel@ + s1) + s2);
    }
}

/// The stack after the back command: the top screen is left, and a search
/// screen beneath is left with it.
pub open spec fn back_route(s: Seq<Route>) -> Seq<Route> {
    if s.len() > 1 && s.last().id == RouteId::Search {
        crate::navigation::pop_route(s.drop_last())
    } else {
        crate::navigation::pop_route(s)
    }
}

/// Whether the back command leaves nothing to back out of, so that the
/// application exits.
pub open spec fn back_exits(s: Seq<Route>) -> bool {
    s.len() == 1 || (s.len() == 2 && s.last().id == RouteId::Search)
}

/// `b` is `a` after the escape key: a selection inside the search results or
/// the artist screen is cleared; an error or dialog screen is left; the device
/// and analysis screens ignore it; anywhere else focus leaves the panel.
pub open spec fn escape_applied(a: App, b: App) -> bool {
    let top = a.navigation_stack@.last();
    match top.active_block {
        ActiveBlock::SearchResultBlock => b == (App {
            search_results: SearchResult { selected_block: SearchResultBlock::Empty, ..a.search_results },
            ..a
        }),
        ActiveBlock::ArtistBlock => b == (App {
            artist: match a.artist {
                Some(ar) => Some(Artist { artist_selected_block: ArtistBlock::Empty, ..ar }),
                None => None,
            },
            ..a
        }),
        ActiveBlock::Error | ActiveBlock::Dialog(_) => b == (App { navigation_stack: b.navigation_stack, ..a })
            && b.navigation_stack@ == crate::navigation::pop_route(a.navigation_stack@),
        ActiveBlock::SelectDevice | ActiveBlock::Analysis => b == a,
        _ => b == (App { navigation_stack: b.navigation_stack, ..a })
            && b.navigation_stack@ == crate::navigation::set_top_blocks(a.navigation_stack@, Some(ActiveBlock::Empty), None),
    }
}

impl App {
    /// Navigation holds a route and every cache and set is well formed.
    pub open spec fn wf(&self) -> bool {
        &&& self.navigation_stack.wf()
        &&& self.library.wf()
        &&& self.liked_episode_ids_set.wf()
        &&& self.liked_song_ids_set.wf()
        &&& self.followed_artist_ids_set.wf()
        &&& self.saved_album_ids_set.wf()
        &&& self.saved_show_ids_set.wf()
    }

    /// A fresh state on the home route, nothing fetched and nothing queued;
    /// `now_ms` is the clock reading taken as the last playback refresh.
    pub fn new(behavior: BehaviorConfig, now_ms: u64) -> (r: App)
        ensures
            r.wf(),
            r.navigation_stack@ == seq![crate::route::home_route()],
            r.channel@ == Seq::<IoEvent>::empty(),
            !r.channel.is_closed(),
            r.behavior == behavior,
            r.last_playback_poll_ms == now_ms,
            r.current_playback_context is None,
            r.seek_ms is None,
            r.song_progress_ms == 0,
            !r.is_loading,
            !r.is_fetching_current_playback,
            r.large_search_limit == 20,
            r.small_search_limit == 4,
            r.library.saved_tracks@.pages.len() == 0,
            r.library.made_for_you_playlists@.pages.len() == 0,
            r.library.saved_albums@.pages.len() == 0,
            r.library.saved_shows@.pages.len() == 0,
            r.library.saved_artists@.pages.len() == 0,
            r.library.show_episodes@.pages.len() == 0,
            r.liked_song_ids_set@ == Set::<Seq<char>>::empty(),
            r.followed_artist_ids_set@ == Set::<Seq<char>>::empty(),
            r.saved_album_ids_set@ == Set::<Seq<char>>::empty(),
            r.saved_show_ids_set@ == Set::<Seq<char>>::empty(),
            r.liked_episode_ids_set@ == Set::<Seq<char>>::empty(),
            r.api_error@ == Seq::<char>::empty(),
            r.user is None,
            r.devices is None,
            r.playlists is None,
            r.playlist_items is None,
            r.made_for_you_playlist_items is None,
            r.recently_played.index == 0 && r.recently_played.result is None,
            r.selected_album_tracks is None,
            r.selected_album_full is None,
            r.artist is None,
            r.artists@.len() == 0,
            r.item_table.item_ids@.len() == 0 && r.item_table.context is None,
            r.selected_playlist_index is None,
            r.selected_device_index is None,
    {
        App {
            navigation_stack: NavigationStack::new(),
            channel: CommandChannel::new(),
            behavior,
            last_playback_poll_ms: now_ms,
            api_error: String::new(),
            current_playback_context: None,
            devices: None,
            liked_episode_ids_set: IdSet::new(),
            liked_song_ids_set: IdSet::new(),
            followed_artist_ids_set: IdSet::new(),
            saved_album_ids_set: IdSet::new(),
            saved_show_ids_set: IdSet::new(),
            large_search_limit: 20,
            small_search_limit: 4,
            library: Library::new(),
            playlists: None,
            playlist_items: None,
            made_for_you_playlist_items: None,
            recently_played: SpotifyResultAndSelectedIndex { index: 0, result: None },
            selected_album_tracks: None,
            selected_album_full: None,
            saved_album_tracks_index: 0,
            search_results: SearchResult::new(),
            artist: None,
            artists: Vec::new(),
            album_table_context: AlbumTableContext::Full,
            episode_table_context: EpisodeTableContext::Full,
            selected_show_simplified: None,
            selected_show_full: None,
            selected_device_index: None,
            selected_playlist_index: None,
            song_progress_ms: 0,
            seek_ms: None,
            item_table: ItemTable { item_ids: Vec::new(), selected_index: 0, context: None },
            recommended_track_ids: Vec::new(),
            recommendations_context: None,
            user: None,
            album_list_index: 0,
            artists_list_index: 0,
            shows_list_index: 0,
            help_docs_size: 0,
            help_menu_page: 0,
            help_menu_max_lines: 0,
            help_menu_offset: 0,
            is_loading: false,
            is_fetching_current_playback: false,
        }
    }

    /// Hands `event` to the worker: raises the loading flag and queues it. When
    /// the worker is gone the flag is lowered again and the failure is shown.
    pub fn dispatch(&mut self, event: IoEvent)
        requires
            old(self).wf(),
        ensures
            final(self).wf(),
            after_dispatches(*old(self), seq![event], *final(self)),
    {
        let ghost queued = self.channel@;
        self.is_loading = true;
        if let Err(_) = self.channel.send(event) {
            self.is_loading = false;
            self.handle_error("the command worker has stopped".to_owned());
        } else {
            assert(self.channel@ =~= queued + seq![event]);
        }
    }

    /// Shows a failure: an error route on top and its message recorded.
    pub fn handle_error(&mut self, e: String)
        requires
            old(self).wf(),
        ensures
            final(self).wf(),
            *final(self) == (App {
                navigation_stack: final(self).navigation_stack,
                api_error: e,
                ..*old(self)
            }),
            final(self).navigation_stack@ == push_route(old(self).navigation_stack@, RouteId::Error, ActiveBlock::Error),
    {
        self.navigation_stack.push(RouteId::Error, ActiveBlock::Error);
        self.api_error = e;
    }

    /// Drills into screen `next_route_id`, unless it is already shown.
    pub fn push_navigation_stack(&mut self, next_route_id: RouteId, next_active_block: ActiveBlock)
        requires
            old(self).wf(),
        ensures
            final(self).wf(),
            *final(self) == (App { navigation_stack: final(self).navigation_stack, ..*old(self) }),
            final(self).navigation_stack@ == push_route(old(self).navigation_stack@, next_route_id, next_active_block),
    {
        self.navigation_stack.push(next_route_id, next_active_block);
    }

    /// Backs out of the shown screen; `None` when only the root is left.
    pub fn pop_navigation_stack(&mut self) -> (r: Option<Route>)
        requires
            old(self).wf(),
        ensures
            final(self).wf(),
            *final(self) == (App { navigation_stack: final(self).navigation_stack, ..*old(self) }),
            final(self).navigation_stack@ == crate::navigation::pop_route(old(self).navigation_stack@),
            r == (if old(self).navigation_stack@.len() == 1 { None } else { Some(old(self).navigation_stack@.last()) }),
    {
        self.navigation_stack.pop()
    }

    /// The route shown.
    pub fn get_current_route(&self) -> (r: &Route)
        requires
            self.wf(),
        ensures
            *r == self.navigation_stack@.last(),
    {
        self.navigation_stack.current()
    }

    /// Sets the shown route's focused and hovered panels, each only where given.
    pub fn set_current_route_state(&mut self, active_block: Option<ActiveBlock>, hovered_block: Option<ActiveBlock>)
        requires
            old(self).wf(),
        ensures
            final(self).wf(),
            *final(self) == (App { navigation_stack: final(self).navigation_stack, ..*old(self) }),
            final(self).navigation_stack@ == crate::navigation::set_top_blocks(old(self).navigation_stack@, active_block, hovered_block),
    {
        self.navigation_stack.set_current_route_state(active_block, hovered_block);
    }

    /// The back command: leaves the shown screen (and a search screen it
    /// leads back to). Returns `false` when nothing was left to back out of,
    /// which ends the session.
    pub fn navigate_back(&mut self) -> (keep_running: bool)
        requires
            old(self).wf(),
        ensures
            final(self).wf(),
            *final(self) == (App { navigation_stack: final(self).navigation_stack, ..*old(self) }),
            final(self).navigation_stack@ == back_route(old(self).navigation_stack@),
            keep_running == !back_exits(old(self).navigation_stack@),
    {
        match self.pop_navigation_stack() {
            Some(r) => if r.id == RouteId::Search {
                self.pop_navigation_stack().is_some()
            } else {
                true
            },
            None => false,
        }
    }

    /// The requests made once the first screen is drawn: the user's playlists,
    /// the user, and the playback snapshot.
    pub fn start_session(&mut self)
        requires
            old(self).wf(),
        ensures
            final(self).wf(),
            after_dispatches(
                *old(self),
                seq![IoEvent::GetPlaylists, IoEvent::GetUser, IoEvent::GetCurrentPlayback],
                *final(self),
            ),
    {
        let ghost a0 = *self;
        self.dispatch(IoEvent::GetPlaylists);
        let ghost a1 = *self;
        self.dispatch(IoEvent::GetUser);
        let ghost a2 = *self;
        self.dispatch(IoEvent::GetCurrentPlayback);
        proof {
            lemma_dispatch_compose(a0, a0.navigation_stack@, seq![IoEvent::GetPlaylists], a1, seq![IoEvent::GetUser], a2);
            lemma_dispatch_compose(
                a0,
                a0.navigation_stack@,
                seq![IoEvent::GetPlaylists] + seq![IoEvent::GetUser],
                a2,
                seq![IoEvent::GetCurrentPlayback],
                *self,
            );
            assert(seq![IoEvent::GetPlaylists] + seq![IoEvent::GetUser] + seq![IoEvent::GetCurrentPlayback]
                =~= seq![IoEvent::GetPlaylists, IoEvent::GetUser, IoEvent::GetCurrentPlayback]);
        }
    }

    /// The escape key.
    pub fn handle_escape(&mut self)
        requires
            old(self).wf(),
        ensures
            final(self).wf(),
            escape_applied(*old(self), *final(self)),
    {
        let block = self.get_current_route().active_block;
        match block {
            ActiveBlock::SearchResultBlock => {
                self.search_results.selected_block = SearchResultBlock::Empty;
            },
            ActiveBlock::ArtistBlock => {
                if let Some(ar) = &mut self.artist {
                    ar.artist_selected_block = ArtistBlock::Empty;
                }
            },
            ActiveBlock::Error | ActiveBlock::Dialog(_) => {
                self.pop_navigation_stack();
            },
            ActiveBlock::SelectDevice | ActiveBlock::Analysis => {},
            _ => {
                self.set_current_route_state(Some(ActiveBlock::Empty), None);
            },
        }
    }
}

} // verus!
