//! Library actions started from the input loop: saving, following and
//! recommendations. Each acts on the item selected in the focused panel and is
//! a silent no-op when nothing valid is selected.
use vstd::prelude::*;

use crate::app::{after_dispatches, lemma_dispatch_compose, App};
use crate::command::IoEvent;
use crate::model::ResultPage;
use crate::route::{ActiveBlock, EpisodeTableContext};

verus! {

/// The identifier of the item at `index` of `page`, when both are there.
pub open spec fn selected_id(page: Option<ResultPage>, index: Option<usize>) -> Option<String> {
    match (page, index) {
        (Some(p), Some(i)) => if i < p.items@.len() {
            p.items@[i as int].id
        } else {
            None
        },
        _ => None,
    }
}

/// The identifier at `index` of `ids`, when in range.
pub open spec fn id_at(ids: Seq<String>, index: usize) -> Option<String> {
    if index < ids.len() {
        Some(ids[index as int])
    } else {
        None
    }
}

/// The country of the signed-in user, when known.
pub open spec fn user_country(a: App) -> Option<String> {
    match a.user {
        Some(u) => u.country,
        None => None,
    }
}

/// The album that the save and remove actions act on in panel `block`.
pub open spec fn selected_album(a: App, block: ActiveBlock, from_library: bool) -> Option<String> {
    match block {
        ActiveBlock::SearchResultBlock => selected_id(a.search_results.albums, a.search_results.selected_album_index),
        ActiveBlock::AlbumList => if from_library {
            selected_id(a.library.saved_albums@.lookup(None), Some(a.album_list_index))
        } else {
            None
        },
        ActiveBlock::ArtistBlock => match a.artist {
            Some(ar) => selected_id(Some(ar.albums), Some(ar.selected_album_index)),
            None => None,
        },
        _ => None,
    }
}

/// The artist that the follow and unfollow actions act on in panel `block`.
pub open spec fn selected_artist(a: App, block: ActiveBlock, from_library: bool) -> Option<String> {
    match block {
        ActiveBlock::SearchResultBlock => selected_id(a.search_results.artists, a.search_results.selected_artists_index),
        ActiveBlock::AlbumList => if from_library {
            selected_id(a.library.saved_artists@.lookup(None), Some(a.artists_list_index))
        } else {
            None
        },
        ActiveBlock::ArtistBlock => match a.artist {
            Some(ar) => id_at(ar.related_artist_ids@, ar.selected_related_artist_index),
            None => None,
        },
        _ => None,
    }
}

/// The show that the follow and unfollow actions act on in panel `block`.
pub open spec fn selected_show(a: App, block: ActiveBlock, from_library: bool) -> Option<String> {
    match block {
        ActiveBlock::Podcasts => if from_library {
            selected_id(a.library.saved_shows@.lookup(None), Some(a.shows_list_index))
        } else {
            None
        },
        ActiveBlock::SearchResultBlock => selected_id(a.search_results.shows, a.search_results.selected_shows_index),
        ActiveBlock::EpisodeTable => match a.episode_table_context {
            EpisodeTableContext::Full => a.selected_show_full,
            EpisodeTableContext::Simplified => a.selected_show_simplified,
        },
        _ => None,
    }
}

/// Whether `e` follows (or, when not `follow`, unfollows) exactly the artist `id`.
pub open spec fn artist_follow_command(e: IoEvent, id: String, follow: bool) -> bool {
    match e {
        IoEvent::UserFollowArtists { artist_ids } => follow && artist_ids@ == seq![id],
        IoEvent::UserUnfollowArtists { artist_ids } => !follow && artist_ids@ == seq![id],
        _ => false,
    }
}

/// The playlist searches that stand for the service's personal mixes.
pub open spec fn made_for_you_names() -> Seq<Seq<char>> {
    seq!["Discover Weekly"@, "Release Radar"@, "On Repeat"@, "Repeat Rewind"@, "Daily Drive"@]
}

/// Whether `cmds` are the searches for the personal mixes, in order, for `country`.
pub open spec fn made_for_you_commands(cmds: Seq<IoEvent>, country: Option<String>) -> bool {
    &&& cmds.len() == made_for_you_names().len()
    &&& forall|i: int| 0 <= i < cmds.len() ==> match #[trigger] cmds[i] {
        IoEvent::MadeForYouSearchAndAdd { search_term, country: c } => search_term@ == made_for_you_names()[i] && c == country,
        _ => false,
    }
}

/// The help menu's offset and page after a page change: the page's first line
/// when the document is longer than a page; the previous offset and page when
/// that line lies past the end.
pub open spec fn help_menu_position(offset: u32, page: u32, max_lines: u32, docs_size: u32) -> (u32, u32) {
    let candidate: int = if max_lines < docs_size { page * max_lines } else { offset as int };
    if candidate > docs_size {
        (offset, if page > 0 { (page - 1) as u32 } else { 0 })
    } else {
        (candidate as u32, page)
    }
}

fn item_id_at(page: &ResultPage, index: usize) -> (r: Option<String>)
    ensures
        r == selected_id(Some(*page), Some(index)),
{
    if index < page.items.len() {
        match &page.items[index].id {
            Some(id) => Some(id.clone()),
            None => None,
        }
    } else {
        None
    }
}

fn selected_item_id(page: &Option<ResultPage>, index: Option<usize>) -> (r: Option<String>)
    ensures
        r == selected_id(*page, index),
{
    match (page, index) {
        (Some(p), Some(i)) => item_id_at(p, i),
        _ => None,
    }
}

fn clone_opt(s: &Option<String>) -> (r: Option<String>)
    ensures
        r == *s,
{
    match s {
        Some(v) => Some(v.clone()),
        None => None,
    }
}

impl App {
    /// The country of the signed-in user, when known.
    pub fn get_user_country(&self) -> (r: Option<String>)
        ensures
            r == user_country(*self),
    {
        match &self.user {
            Some(u) => clone_opt(&u.country),
            None => None,
        }
    }

    fn album_in(&self, block: ActiveBlock, from_library: bool) -> (r: Option<String>)
        ensures
            r == selected_album(*self, block, from_library),
    {
        match block {
            ActiveBlock::SearchResultBlock => selected_item_id(&self.search_results.albums, self.search_results.selected_album_index),
            ActiveBlock::AlbumList => if from_library {
                match self.library.saved_albums.get_results(None) {
                    Some(p) => item_id_at(p, self.album_list_index),
                    None => None,
                }
            } else {
                None
            },
            ActiveBlock::ArtistBlock => match &self.artist {
                Some(ar) => item_id_at(&ar.albums, ar.selected_album_index),
                None => None,
            },
            _ => None,
        }
    }

    fn artist_in(&self, block: ActiveBlock, from_library: bool) -> (r: Option<String>)
        ensures
            r == selected_artist(*self, block, from_library),
    {
        match block {
            ActiveBlock::SearchResultBlock => selected_item_id(&self.search_results.artists, self.search_results.selected_artists_index),
            ActiveBlock::AlbumList => if from_library {
                match self.library.saved_artists.get_results(None) {
                    Some(p) => item_id_at(p, self.artists_list_index),
                    None => None,
                }
            } else {
                None
            },
            ActiveBlock::ArtistBlock => match &self.artist {
                Some(ar) => if ar.selected_related_artist_index < ar.related_artist_ids.len() {
                    Some(ar.related_artist_ids[ar.selected_related_artist_index].clone())
                } else {
                    None
                },
                None => None,
            },
            _ => None,
        }
    }

    fn show_in(&self, block: ActiveBlock, from_library: bool) -> (r: Option<String>)
        ensures
            r == selected_show(*self, block, from_library),
    {
        match block {
            ActiveBlock::Podcasts => if from_library {
                match self.library.saved_shows.get_results(None) {
                    Some(p) => item_id_at(p, self.shows_list_index),
                    None => None,
                }
            } else {
                None
            },
            ActiveBlock::SearchResultBlock => selected_item_id(&self.search_results.shows, self.search_results.selected_shows_index),
            ActiveBlock::EpisodeTable => match self.episode_table_context {
                EpisodeTableContext::Full => clone_opt(&self.selected_show_full),
                EpisodeTableContext::Simplified => clone_opt(&self.selected_show_simplified),
            },
            _ => None,
        }
    }

    /// Removes the album selected in panel `block` from the saved albums.
    pub fn current_user_saved_album_delete(&mut self, block: ActiveBlock)
        requires
            old(self).wf(),
        ensures
            final(self).wf(),
            after_dispatches(
                *old(self),
                match selected_album(*old(self), block, true) {
                    Some(id) => seq![IoEvent::CurrentUserSavedAlbumDelete { album_id: id }],
                    None => Seq::empty(),
                },
                *final(self),
            ),
    {
        if let Some(album_id) = self.album_in(block, true) {
            self.dispatch(IoEvent::CurrentUserSavedAlbumDelete { album_id });
        }
    }

    /// Saves the album selected in panel `block`.
    pub fn current_user_saved_album_add(&mut self, block: ActiveBlock)
        requires
            old(self).wf(),
        ensures
            final(self).wf(),
            after_dispatches(
                *old(self),
                match selected_album(*old(self), block, false) {
                    Some(id) => seq![IoEvent::CurrentUserSavedAlbumAdd { album_id: id }],
                    None => Seq::empty(),
                },
                *final(self),
            ),
    {
        if let Some(album_id) = self.album_in(block, false) {
            self.dispatch(IoEvent::CurrentUserSavedAlbumAdd { album_id });
        }
    }

    fn follow_artist_in(&mut self, block: ActiveBlock, follow: bool)
        requires
            old(self).wf(),
        ensures
            final(self).wf(),
            match selected_artist(*old(self), block, !follow) {
                Some(id) => exists|e: IoEvent| artist_follow_command(e, id, follow) && #[trigger] after_dispatches(*old(self), seq![e], *final(self)),
                None => *final(self) == *old(self),
            },
    {
        if let Some(artist_id) = self.artist_in(block, !follow) {
            let mut artist_ids: Vec<String> = Vec::new();
            artist_ids.push(artist_id);
            let e = if follow {
                IoEvent::UserFollowArtists { artist_ids }
            } else {
                IoEvent::UserUnfollowArtists { artist_ids }
            };
            assert(artist_follow_command(e, selected_artist(*old(self), block, !follow)->Some_0, follow));
            self.dispatch(e);
        }
    }

    /// Unfollows the artist selected in panel `block`.
    pub fn user_unfollow_artists(&mut self, block: ActiveBlock)
        requires
            old(self).wf(),
        ensures
            final(self).wf(),
            match selected_artist(*old(self), block, true) {
                Some(id) => exists|e: IoEvent| artist_follow_command(e, id, false) && #[trigger] after_dispatches(*old(self), seq![e], *final(self)),
                None => *final(self) == *old(self),
            },
    {
        self.follow_artist_in(block, false);
    }

    /// Follows the artist selected in panel `block`.
    pub fn user_follow_artists(&mut self, block: ActiveBlock)
        requires
            old(self).wf(),
        ensures
            final(self).wf(),
            match selected_artist(*old(self), block, false) {
                Some(id) => exists|e: IoEvent| artist_follow_command(e, id, true) && #[trigger] after_dispatches(*old(self), seq![e], *final(self)),
                None => *final(self) == *old(self),
            },
    {
        self.follow_artist_in(block, true);
    }

    /// Follows the playlist selected in the search results.
    pub fn user_follow_playlist(&mut self)
        requires
            old(self).wf(),
        ensures
            final(self).wf(),
            after_dispatches(
                *old(self),
                match (old(self).search_results.playlists, old(self).search_results.selected_playlists_index) {
                    (Some(p), Some(i)) => if i < p.items@.len() && p.items@[i as int].id is Some {
                        seq![IoEvent::UserFollowPlaylist {
                            playlist_id: p.items@[i as int].id->Some_0,
                            is_public: p.items@[i as int].is_public,
                        }]
                    } else {
                        Seq::empty()
                    },
                    _ => Seq::empty(),
                },
                *final(self),
            ),
    {
        let mut cmd: Option<IoEvent> = None;
        if let (Some(p), Some(i)) = (&self.search_results.playlists, self.search_results.selected_playlists_index) {
            if i < p.items.len() {
                if let Some(id) = &p.items[i].id {
                    cmd = Some(IoEvent::UserFollowPlaylist { playlist_id: id.clone(), is_public: p.items[i].is_public });
                }
            }
        }
        if let Some(e) = cmd {
            self.dispatch(e);
        }
    }

    /// Unfollows the playlist selected in the user's playlists, once signed in.
    pub fn user_unfollow_playlist(&mut self)
        requires
            old(self).wf(),
        ensures
            final(self).wf(),
            after_dispatches(
                *old(self),
                match selected_id(old(self).playlists, old(self).selected_playlist_index) {
                    Some(id) => if old(self).user is Some {
                        seq![IoEvent::UserUnfollowPlaylist { playlist_id: id }]
                    } else {
                        Seq::empty()
                    },
                    None => Seq::empty(),
                },
                *final(self),
            ),
    {
        if self.user.is_some() {
            if let Some(playlist_id) = selected_item_id(&self.playlists, self.selected_playlist_index) {
                self.dispatch(IoEvent::UserUnfollowPlaylist { playlist_id });
            }
        }
    }

    /// Unfollows the playlist selected in the search results, once signed in.
    pub fn user_unfollow_playlist_search_result(&mut self)
        requires
            old(self).wf(),
        ensures
            final(self).wf(),
            after_dispatches(
                *old(self),
                match selected_id(old(self).search_results.playlists, old(self).search_results.selected_playlists_index) {
                    Some(id) => if old(self).user is Some {
                        seq![IoEvent::UserUnfollowPlaylist { playlist_id: id }]
                    } else {
                        Seq::empty()
                    },
                    None => Seq::empty(),
                },
                *final(self),
            ),
    {
        if self.user.is_some() {
            if let Some(playlist_id) = selected_item_id(
                &self.search_results.playlists,
                self.search_results.selected_playlists_index,
            ) {
                self.dispatch(IoEvent::UserUnfollowPlaylist { playlist_id });
            }
        }
    }

    /// Saves the show selected in panel `block`.
    pub fn user_follow_show(&mut self, block: ActiveBlock)
        requires
            old(self).wf(),
        ensures
            final(self).wf(),
            after_dispatches(
                *old(self),
                match selected_show(*old(self), block, false) {
                    Some(id) => seq![IoEvent::CurrentUserSavedShowAdd { show_id: id }],
                    None => Seq::empty(),
                },
                *final(self),
            ),
    {
        if let Some(show_id) = self.show_in(block, false) {
            self.dispatch(IoEvent::CurrentUserSavedShowAdd { show_id });
        }
    }

    /// Removes the show selected in panel `block` from the saved shows.
    pub fn user_unfollow_show(&mut self, block: ActiveBlock)
        requires
            old(self).wf(),
        ensures
            final(self).wf(),
            after_dispatches(
                *old(self),
                match selected_show(*old(self), block, true) {
                    Some(id) => seq![IoEvent::CurrentUserSavedShowDelete { show_id: id }],
                    None => Seq::empty(),
                },
                *final(self),
            ),
    {
        if let Some(show_id) = self.show_in(block, true) {
            self.dispatch(IoEvent::CurrentUserSavedShowDelete { show_id });
        }
    }

    fn made_for_you_search_and_add(&mut self, search_term: &str)
        requires
            old(self).wf(),
        ensures
            final(self).wf(),
            exists|e: IoEvent| #[trigger] after_dispatches(*old(self), seq![e], *final(self)) && match e {
                IoEvent::MadeForYouSearchAndAdd { search_term: t, country } => t@ == search_term@ && country == user_country(*old(self)),
                _ => false,
            },
    {
        let country = self.get_user_country();
        let e = IoEvent::MadeForYouSearchAndAdd { search_term: search_term.to_owned(), country };
        self.dispatch(e);
    }

    /// Searches for the personal mixes, once: only while none has been stored.
    pub fn get_made_for_you(&mut self)
        requires
            old(self).wf(),
        ensures
            final(self).wf(),
            old(self).library.made_for_you_playlists@.pages.len() > 0 ==> *final(self) == *old(self),
            old(self).library.made_for_you_playlists@.pages.len() == 0 ==> exists|q: Seq<IoEvent>|
                made_for_you_commands(q, user_country(*old(self))) && #[trigger] after_dispatches(*old(self), q, *final(self)),
    {
        if self.library.made_for_you_playlists.is_empty() {
            let ghost a0 = *self;
            let ghost country = user_country(*self);
            self.made_for_you_search_and_add("Discover Weekly");
            let ghost a1 = *self;
            let ghost e1 = choose|e: IoEvent| #[trigger] after_dispatches(a0, seq![e], a1) && match e {
                IoEvent::MadeForYouSearchAndAdd { search_term: t, country: c } => t@ == "Discover Weekly"@ && c == country,
                _ => false,
            };
            self.made_for_you_search_and_add("Release Radar");
            let ghost a2 = *self;
            let ghost e2 = choose|e: IoEvent| #[trigger] after_dispatches(a1, seq![e], a2) && match e {
                IoEvent::MadeForYouSearchAndAdd { search_term: t, country: c } => t@ == "Release Radar"@ && c == country,
                _ => false,
            };
            self.made_for_you_search_and_add("On Repeat");
            let ghost a3 = *self;
            let ghost e3 = choose|e: IoEvent| #[trigger] after_dispatches(a2, seq![e], a3) && match e {
                IoEvent::MadeForYouSearchAndAdd { search_term: t, country: c } => t@ == "On Repeat"@ && c == country,
                _ => false,
            };
            self.made_for_you_search_and_add("Repeat Rewind");
            let ghost a4 = *self;
            let ghost e4 = choose|e: IoEvent| #[trigger] after_dispatches(a3, seq![e], a4) && match e {
                IoEvent::MadeForYouSearchAndAdd { search_term: t, country: c } => t@ == "Repeat Rewind"@ && c == country,
                _ => false,
            };
            self.made_for_you_search_and_add("Daily Drive");
            let ghost a5 = *self;
            let ghost e5 = choose|e: IoEvent| #[trigger] after_dispatches(a4, seq![e], a5) && match e {
                IoEvent::MadeForYouSearchAndAdd { search_term: t, country: c } => t@ == "Daily Drive"@ && c == country,
                _ => false,
            };
            proof {
                let nav = a0.navigation_stack@;
                lemma_dispatch_compose(a0, nav, seq![e1], a1, seq![e2], a2);
                lemma_dispatch_compose(a0, nav, seq![e1] + seq![e2], a2, seq![e3], a3);
                lemma_dispatch_compose(a0, nav, seq![e1] + seq![e2] + seq![e3], a3, seq![e4], a4);
                lemma_dispatch_compose(a0, nav, seq![e1] + seq![e2] + seq![e3] + seq![e4], a4, seq![e5], a5);
                let q = seq![e1] + seq![e2] + seq![e3] + seq![e4] + seq![e5];
                assert(q =~= seq![e1, e2, e3, e4, e5]);
                assert(q[0] == e1 && q[1] == e2 && q[2] == e3 && q[3] == e4 && q[4] == e5);
                assert(made_for_you_commands(q, country));
                assert(after_dispatches(a0, q, a5));
            }
        }
    }

    /// Requests recommendations from the given seeds, in the user's market.
    pub fn get_recommendations_for_seed(
        &mut self,
        seed_artist_ids: Option<Vec<String>>,
        seed_track_ids: Option<Vec<String>>,
        first_track: Option<String>,
    )
        requires
            old(self).wf(),
        ensures
            final(self).wf(),
            after_dispatches(
                *old(self),
                seq![IoEvent::GetRecommendationsForSeed {
                    seed_artist_ids,
                    seed_track_ids,
                    first_track,
                    country: user_country(*old(self)),
                }],
                *final(self),
            ),
    {
        let country = self.get_user_country();
        self.dispatch(IoEvent::GetRecommendationsForSeed { seed_artist_ids, seed_track_ids, first_track, country });
    }

    /// Requests recommendations seeded from one track, in the user's market.
    pub fn get_recommendations_for_track_id(&mut self, track_id: String)
        requires
            old(self).wf(),
        ensures
            final(self).wf(),
            after_dispatches(
                *old(self),
                seq![IoEvent::GetRecommendationsForTrackId { track_id, country: user_country(*old(self)) }],
                *final(self),
            ),
    {
        let country = self.get_user_country();
        self.dispatch(IoEvent::GetRecommendationsForTrackId { track_id, country });
    }

    /// Requests an artist's screen data, in the user's market.
    pub fn get_artist(&mut self, artist_id: String, input_artist_name: String)
        requires
            old(self).wf(),
        ensures
            final(self).wf(),
            after_dispatches(
                *old(self),
                seq![IoEvent::GetArtist { artist_id, input_artist_name, country: user_country(*old(self)) }],
                *final(self),
            ),
    {
        let country = self.get_user_country();
        self.dispatch(IoEvent::GetArtist { artist_id, input_artist_name, country });
    }

    /// Scrolls the help menu to its current page, stepping the page back when
    /// that page starts past the end of the document.
    pub fn calculate_help_menu_offset(&mut self)
        requires
            old(self).wf(),
        ensures
            final(self).wf(),
            *final(self) == (App {
                help_menu_offset: help_menu_position(
                    old(self).help_menu_offset,
                    old(self).help_menu_page,
                    old(self).help_menu_max_lines,
                    old(self).help_docs_size,
                ).0,
                help_menu_page: help_menu_position(
                    old(self).help_menu_offset,
                    old(self).help_menu_page,
                    old(self).help_menu_max_lines,
                    old(self).help_docs_size,
                ).1,
                ..*old(self)
            }),
    {
        let page = self.help_menu_page as u64;
        let lines = self.help_menu_max_lines as u64;
        assert(page * lines <= 0xffff_ffffu64 * 0xffff_ffffu64) by (nonlinear_arith)
            requires
                page <= 0xffff_ffffu64,
                lines <= 0xffff_ffffu64,
        ;
        let candidate: u64 = if self.help_menu_max_lines < self.help_docs_size {
            page * lines
        } else {
            self.help_menu_offset as u64
        };
        if candidate > self.help_docs_size as u64 {
            if self.help_menu_page > 0 {
                self.help_menu_page = self.help_menu_page - 1;
            }
        } else {
            self.help_menu_offset = candidate as u32;
        }
    }
}

} // verus!
