//! Commands: descriptions of one remote operation each, queued and executed later.
use vstd::prelude::*;

use crate::model::RepeatState;

verus! {

/// A request for one remote operation. Every field is an owned plain value, so a
/// command can be queued, cloned and executed later.
#[derive(Clone, Debug, PartialEq, Eq)]
pub enum IoEvent {
    AddItemToQueue { playable_id: String },
    ChangeVolume { volume: u8 },
    CurrentUserSavedAlbumAdd { album_id: String },
    CurrentUserSavedAlbumDelete { album_id: String },
    CurrentUserSavedAlbumsContains { album_ids: Vec<String> },
    CurrentUserSavedShowAdd { show_id: String },
    CurrentUserSavedShowDelete { show_id: String },
    CurrentUserSavedShowsContains { show_ids: Vec<String> },
    CurrentUserSavedTracksContains { track_ids: Vec<String> },
    GetAlbum { album_id: String },
    GetAlbumForTrack { track_id: String },
    GetAlbumTracks { album_id: String },
    GetArtist { artist_id: String, input_artist_name: String, country: Option<String> },
    GetTrackAnalysis { track_id: String },
    GetCurrentPlayback,
    GetCurrentSavedTracks { offset: Option<u32> },
    GetCurrentShowEpisodes { show_id: String, offset: Option<u32> },
    GetCurrentUserSavedAlbums { offset: Option<u32> },
    GetCurrentUserSavedShows { offset: Option<u32> },
    GetDevices,
    GetFollowedArtists { after: Option<String> },
    GetMadeForYouPlaylistItems { playlist_id: String, offset: u32 },
    GetPlaylists,
    GetPlaylistItems { playlist_id: String, offset: u32 },
    GetRecentlyPlayed,
    GetRecommendationsForSeed {
        seed_artist_ids: Option<Vec<String>>,
        seed_track_ids: Option<Vec<String>>,
        first_track: Option<String>,
        country: Option<String>,
    },
    GetRecommendationsForTrackId { track_id: String, country: Option<String> },
    GetSearchResults { search_term: String, country: Option<String> },
    GetShow { show_id: String },
    GetShowEpisodes { show_id: String },
    GetUser,
    MadeForYouSearchAndAdd { search_term: String, country: Option<String> },
    NextTrack,
    PausePlayback,
    PreviousTrack,
    RefreshAuthentication,
    Repeat { state: RepeatState },
    ResumePlayback,
    Seek { position_ms: u64 },
    SetArtistsToTable { artist_ids: Vec<String> },
    SetTracksToTable { track_ids: Vec<String> },
    StartContextPlayback { play_context_id: String, offset: Option<u32> },
    StartPlayablesPlayback { playable_ids: Vec<String>, offset: Option<u32> },
    ToggleSaveEpisode { episode_id: String },
    ToggleSaveTrack { track_id: String },
    ToggleShuffle,
    TransferPlaybackToDevice { device_id: String },
    UpdateSearchLimits { large_search_limit: u32, small_search_limit: u32 },
    UserUnfollowArtists { artist_ids: Vec<String> },
    UserFollowArtists { artist_ids: Vec<String> },
    UserFollowPlaylist { playlist_id: String, is_public: Option<bool> },
    UserUnfollowPlaylist { playlist_id: String },
    UserArtistFollowCheck { artist_ids: Vec<String> },
}

} // verus!
