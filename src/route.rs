//! Screens, focus regions and the route record that names them.
use vstd::prelude::*;

verus! {

/// Which window a dialog was opened from.
#[derive(Clone, Copy, PartialEq, Eq, Structural, Debug)]
pub enum DialogContext {
    PlaylistWindow,
    PlaylistSearch,
}

/// The sub-panel of a screen that holds keyboard focus.
#[derive(Clone, Copy, PartialEq, Eq, Structural, Debug)]
pub enum ActiveBlock {
    Analysis,
    PlayBar,
    AlbumTracks,
    AlbumList,
    ArtistBlock,
    Empty,
    Error,
    HelpMenu,
    Home,
    Input,
    Library,
    MyPlaylists,
    Podcasts,
    EpisodeTable,
    RecentlyPlayed,
    SearchResultBlock,
    SelectDevice,
    ItemTable,
    MadeForYou,
    Artists,
    BasicView,
    Dialog(DialogContext),
}

/// A logical screen of the client.
#[derive(Clone, Copy, PartialEq, Eq, Structural, Debug)]
pub enum RouteId {
    Analysis,
    AlbumTracks,
    AlbumList,
    Artist,
    BasicView,
    Error,
    Home,
    RecentlyPlayed,
    Search,
    SelectedDevice,
    ItemTable,
    MadeForYou,
    Artists,
    Podcasts,
    PodcastEpisodes,
    Recommendations,
    Dialog,
}

/// One entry of the navigation stack: a screen with its focused and hovered panels.
#[derive(Clone, Copy, PartialEq, Eq, Structural, Debug)]
pub struct Route {
    pub id: RouteId,
    pub active_block: ActiveBlock,
    pub hovered_block: ActiveBlock,
}

/// Panels of the search-results screen.
#[derive(Clone, Copy, PartialEq, Eq, Structural, Debug)]
pub enum SearchResultBlock {
    AlbumSearch,
    SongSearch,
    ArtistSearch,
    PlaylistSearch,
    ShowSearch,
    Empty,
}

/// Panels of the artist screen.
#[derive(Clone, Copy, PartialEq, Eq, Structural, Debug)]
pub enum ArtistBlock {
    TopTracks,
    Albums,
    RelatedArtists,
    Empty,
}

/// What the item table currently lists.
#[derive(Clone, Copy, PartialEq, Eq, Structural, Debug)]
pub enum ItemTableContext {
    MyPlaylists,
    AlbumSearch,
    PlaylistSearch,
    SavedTracks,
    RecommendedTracks,
    MadeForYou,
}

/// Whether the album table shows a simplified or a full album.
#[derive(Clone, Copy, PartialEq, Eq, Structural, Debug)]
pub enum AlbumTableContext {
    Simplified,
    Full,
}

/// Whether the episode table shows a simplified or a full show.
#[derive(Clone, Copy, PartialEq, Eq, Structural, Debug)]
pub enum EpisodeTableContext {
    Simplified,
    Full,
}

/// What a list of recommendations was seeded from.
#[derive(Clone, Copy, PartialEq, Eq, Structural, Debug)]
pub enum RecommendationsContext {
    Artist,
    Song,
}

/// The route every navigation stack starts from: the home screen, with the
/// library panel hovered and nothing focused.
pub open spec fn home_route() -> Route {
    Route { id: RouteId::Home, active_block: ActiveBlock::Empty, hovered_block: ActiveBlock::Library }
}

/// The route a freshly started client shows.
pub fn default_route() -> (r: Route)
    ensures
        r == home_route(),
{
    Route { id: RouteId::Home, active_block: ActiveBlock::Empty, hovered_block: ActiveBlock::Library }
}

} // verus!
