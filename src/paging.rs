//! Forward and backward pagination through the library's page caches. Going
//! forward serves a cached page when there is one and fetches only otherwise;
//! going back never fetches.
use vstd::prelude::*;

use crate::app::{dispatched, App};
use crate::command::IoEvent;
use crate::model::{item_ids, next_offset, ResultPage};
use crate::pages::PagesModel;

verus! {

/// Whether the page after the cursor is already cached.
pub open spec fn next_cached(m: PagesModel<ResultPage>) -> bool {
    m.index + 1 < m.pages.len()
}

/// The page after the cursor.
pub open spec fn next_page(m: PagesModel<ResultPage>) -> ResultPage {
    m.pages[m.index as int + 1]
}

/// The cache after a forward step that found the next page cached.
pub open spec fn advanced(m: PagesModel<ResultPage>) -> PagesModel<ResultPage> {
    PagesModel { pages: m.pages, index: m.index + 1 }
}

/// The cache after a backward step.
pub open spec fn retreated(m: PagesModel<ResultPage>) -> PagesModel<ResultPage> {
    PagesModel { pages: m.pages, index: if m.index > 0 { (m.index - 1) as nat } else { 0 } }
}

/// Whether `e` asks the remote service for a page of a library collection.
pub open spec fn is_page_fetch(e: IoEvent) -> bool {
    match e {
        IoEvent::GetCurrentSavedTracks { .. } => true,
        IoEvent::GetFollowedArtists { .. } => true,
        IoEvent::GetCurrentUserSavedAlbums { .. } => true,
        IoEvent::GetCurrentUserSavedShows { .. } => true,
        IoEvent::GetCurrentShowEpisodes { .. } => true,
        _ => false,
    }
}

/// Whether `e` fills the track table (or, when `artists`, the artist list)
/// with the items of `page`.
pub open spec fn table_command(e: IoEvent, page: ResultPage, artists: bool) -> bool {
    match e {
        IoEvent::SetTracksToTable { track_ids } => !artists && track_ids@ == item_ids(page.items@),
        IoEvent::SetArtistsToTable { artist_ids } => artists && artist_ids@ == item_ids(page.items@),
        _ => false,
    }
}

/// `b` is `a` after exactly one command that fills the table from `page`.
pub open spec fn dispatched_table(a: App, page: ResultPage, artists: bool, b: App) -> bool {
    exists|e: IoEvent| table_command(e, page, artists) && #[trigger] dispatched(a, a.navigation_stack@, seq![e], b)
}

/// The fetch that continues an offset-paginated collection after the current
/// page, built by `make`; none when the cache is empty or the offset overflows.
pub open spec fn offset_fetch(m: PagesModel<ResultPage>, make: spec_fn(u32) -> IoEvent) -> Seq<IoEvent> {
    match m.lookup(None) {
        Some(p) => match next_offset(p) {
            Some(o) => seq![make(o)],
            None => Seq::empty(),
        },
        None => Seq::empty(),
    }
}

/// The fetch that continues the followed-artists collection after the last
/// artist of the current page.
pub open spec fn cursor_fetch(m: PagesModel<ResultPage>) -> Seq<IoEvent> {
    match m.lookup(None) {
        Some(p) => if p.items@.len() > 0 && p.items@.last().id is Some {
            seq![IoEvent::GetFollowedArtists { after: p.items@.last().id }]
        } else {
            Seq::empty()
        },
        None => Seq::empty(),
    }
}

/// Nothing queued after position `from` of `q` is a page fetch.
pub open spec fn no_fetch_after(q: Seq<IoEvent>, from: int) -> bool {
    forall|i: int| from <= i < q.len() ==> !is_page_fetch(#[trigger] q[i])
}

proof fn lemma_table_is_no_fetch(a: App, page: ResultPage, artists: bool, b: App)
    requires
        dispatched_table(a, page, artists, b),
    ensures
        no_fetch_after(b.channel@, a.channel@.len() as int),
{
    let e = choose|e: IoEvent| table_command(e, page, artists) && #[trigger] dispatched(a, a.navigation_stack@, seq![e], b);
    assert forall|i: int| a.channel@.len() <= i < b.channel@.len() implies !is_page_fetch(#[trigger] b.channel@[i]) by {
        assert(b.channel@[i] == e);
    }
}

/// Serving a cached page on an open channel queues exactly one command, the
/// one that fills the table from that page, and no fetch.
pub proof fn lemma_cached_page_queues_only_table(a: App, page: ResultPage, artists: bool, b: App)
    requires
        dispatched_table(a, page, artists, b),
        !a.channel.is_closed(),
    ensures
        b.channel@.len() == a.channel@.len() + 1,
        b.channel@.subrange(0, a.channel@.len() as int) == a.channel@,
        table_command(b.channel@.last(), page, artists),
        !is_page_fetch(b.channel@.last()),
        b.is_loading,
{
    let e = choose|e: IoEvent| table_command(e, page, artists) && #[trigger] dispatched(a, a.navigation_stack@, seq![e], b);
    assert(b.channel@.last() == e);
    assert(b.channel@.subrange(0, a.channel@.len() as int) =~= a.channel@);
}

impl App {
    /// Fills the track table from a page of saved tracks.
    pub fn set_saved_tracks_to_table(&mut self, saved_track_page: &ResultPage)
        requires
            old(self).wf(),
        ensures
            final(self).wf(),
            dispatched_table(*old(self), *saved_track_page, false, *final(self)),
    {
        let e = IoEvent::SetTracksToTable { track_ids: saved_track_page.ids() };
        self.dispatch(e);
    }

    /// Fills the artist list from a page of followed artists.
    pub fn set_saved_artists_to_table(&mut self, saved_artists_page: &ResultPage)
        requires
            old(self).wf(),
        ensures
            final(self).wf(),
            dispatched_table(*old(self), *saved_artists_page, true, *final(self)),
    {
        let e = IoEvent::SetArtistsToTable { artist_ids: saved_artists_page.ids() };
        self.dispatch(e);
    }

    /// Next page of saved tracks: served from the cache when there, else fetched.
    pub fn get_current_user_saved_tracks_next(&mut self)
        requires
            old(self).wf(),
        ensures
            final(self).wf(),
            final(self).library == (crate::app::Library { saved_tracks: final(self).library.saved_tracks, ..old(self).library }),
            next_cached(old(self).library.saved_tracks@) ==> {
                &&& final(self).library.saved_tracks@ == advanced(old(self).library.saved_tracks@)
                &&& dispatched_table(
                    App { library: final(self).library, ..*old(self) },
                    next_page(old(self).library.saved_tracks@),
                    false,
                    *final(self),
                )
                &&& no_fetch_after(final(self).channel@, old(self).channel@.len() as int)
                &&& !old(self).channel.is_closed() ==> {
                    &&& final(self).channel@.len() == old(self).channel@.len() + 1
                    &&& table_command(final(self).channel@.last(), next_page(old(self).library.saved_tracks@), false)
                }
            },
            !next_cached(old(self).library.saved_tracks@) ==> {
                &&& final(self).library.saved_tracks@ == old(self).library.saved_tracks@
                &&& dispatched(
                    App { library: final(self).library, ..*old(self) },
                    old(self).navigation_stack@,
                    offset_fetch(old(self).library.saved_tracks@, |o: u32| IoEvent::GetCurrentSavedTracks { offset: Some(o) }),
                    *final(self),
                )
            },
    {
        let moved = self.library.saved_tracks.select_next();
        if moved {
            let ids = match self.library.saved_tracks.get_results(None) {
                Some(p) => p.ids(),
                None => Vec::new(),
            };
            self.dispatch(IoEvent::SetTracksToTable { track_ids: ids });
            proof {
                lemma_table_is_no_fetch(
                    App { library: self.library, ..*old(self) },
                    next_page(old(self).library.saved_tracks@),
                    false,
                    *self,
                );
                if !old(self).channel.is_closed() {
                    lemma_cached_page_queues_only_table(
                        App { library: self.library, ..*old(self) },
                        next_page(old(self).library.saved_tracks@),
                        false,
                        *self,
                    );
                }
            }
        } else {
            let offset = match self.library.saved_tracks.get_results(None) {
                Some(p) => p.next_offset(),
                None => None,
            };
            if let Some(o) = offset {
                self.dispatch(IoEvent::GetCurrentSavedTracks { offset: Some(o) });
            }
        }
    }

    /// Previous page of saved tracks, from the cache; the table is refilled
    /// from the page now current.
    pub fn get_current_user_saved_tracks_previous(&mut self)
        requires
            old(self).wf(),
        ensures
            final(self).wf(),
            final(self).library == (crate::app::Library { saved_tracks: final(self).library.saved_tracks, ..old(self).library }),
            final(self).library.saved_tracks@ == retreated(old(self).library.saved_tracks@),
            match retreated(old(self).library.saved_tracks@).lookup(None) {
                Some(p) => dispatched_table(App { library: final(self).library, ..*old(self) }, p, false, *final(self)),
                None => dispatched(App { library: final(self).library, ..*old(self) }, old(self).navigation_stack@, Seq::empty(), *final(self)),
            },
    {
        self.library.saved_tracks.select_previous();
        let ids = match self.library.saved_tracks.get_results(None) {
            Some(p) => Some(p.ids()),
            None => None,
        };
        if let Some(track_ids) = ids {
            self.dispatch(IoEvent::SetTracksToTable { track_ids });
        }
    }

    /// Next page of followed artists: served from the cache when there, else
    /// fetched after the last artist shown.
    pub fn get_current_user_saved_artists_next(&mut self)
        requires
            old(self).wf(),
        ensures
            final(self).wf(),
            final(self).library == (crate::app::Library { saved_artists: final(self).library.saved_artists, ..old(self).library }),
            next_cached(old(self).library.saved_artists@) ==> {
                &&& final(self).library.saved_artists@ == advanced(old(self).library.saved_artists@)
                &&& dispatched_table(
                    App { library: final(self).library, ..*old(self) },
                    next_page(old(self).library.saved_artists@),
                    true,
                    *final(self),
                )
                &&& no_fetch_after(final(self).channel@, old(self).channel@.len() as int)
                &&& !old(self).channel.is_closed() ==> {
                    &&& final(self).channel@.len() == old(self).channel@.len() + 1
                    &&& table_command(final(self).channel@.last(), next_page(old(self).library.saved_artists@), true)
                }
            },
            !next_cached(old(self).library.saved_artists@) ==> {
                &&& final(self).library.saved_artists@ == old(self).library.saved_artists@
                &&& dispatched(
                    App { library: final(self).library, ..*old(self) },
                    old(self).navigation_stack@,
                    cursor_fetch(old(self).library.saved_artists@),
                    *final(self),
                )
            },
    {
        let moved = self.library.saved_artists.select_next();
        if moved {
            let ids = match self.library.saved_artists.get_results(None) {
                Some(p) => p.ids(),
                None => Vec::new(),
            };
            self.dispatch(IoEvent::SetArtistsToTable { artist_ids: ids });
            proof {
                lemma_table_is_no_fetch(
                    App { library: self.library, ..*old(self) },
                    next_page(old(self).library.saved_artists@),
                    true,
                    *self,
                );
                if !old(self).channel.is_closed() {
                    lemma_cached_page_queues_only_table(
                        App { library: self.library, ..*old(self) },
                        next_page(old(self).library.saved_artists@),
                        true,
                        *self,
                    );
                }
            }
        } else {
            let after = match self.library.saved_artists.get_results(None) {
                Some(p) => {
                    let n = p.items.len();
                    if n > 0 {
                        match &p.items[n - 1].id {
                            Some(id) => Some(id.clone()),
                            None => None,
                        }
                    } else {
                        None
                    }
                },
                None => None,
            };
            if let Some(id) = after {
                self.dispatch(IoEvent::GetFollowedArtists { after: Some(id) });
            }
        }
    }

    /// Previous page of followed artists, from the cache; the list is refilled
    /// from the page now current.
    pub fn get_current_user_saved_artists_previous(&mut self)
        requires
            old(self).wf(),
        ensures
            final(self).wf(),
            final(self).library == (crate::app::Library { saved_artists: final(self).library.saved_artists, ..old(self).library }),
            final(self).library.saved_artists@ == retreated(old(self).library.saved_artists@),
            match retreated(old(self).library.saved_artists@).lookup(None) {
                Some(p) => dispatched_table(App { library: final(self).library, ..*old(self) }, p, true, *final(self)),
                None => dispatched(App { library: final(self).library, ..*old(self) }, old(self).navigation_stack@, Seq::empty(), *final(self)),
            },
    {
        self.library.saved_artists.select_previous();
        let ids = match self.library.saved_artists.get_results(None) {
            Some(p) => Some(p.ids()),
            None => None,
        };
        if let Some(artist_ids) = ids {
            self.dispatch(IoEvent::SetArtistsToTable { artist_ids });
        }
    }

    /// Next page of saved albums: the cursor moves when it is cached, else it is fetched.
    pub fn get_current_user_saved_albums_next(&mut self)
        requires
            old(self).wf(),
        ensures
            final(self).wf(),
            final(self).library == (crate::app::Library { saved_albums: final(self).library.saved_albums, ..old(self).library }),
            final(self).library.saved_albums@ == (if next_cached(old(self).library.saved_albums@) {
                advanced(old(self).library.saved_albums@)
            } else {
                old(self).library.saved_albums@
            }),
            dispatched(
                App { library: final(self).library, ..*old(self) },
                old(self).navigation_stack@,
                if next_cached(old(self).library.saved_albums@) {
                    Seq::empty()
                } else {
                    offset_fetch(old(self).library.saved_albums@, |o: u32| IoEvent::GetCurrentUserSavedAlbums { offset: Some(o) })
                },
                *final(self),
            ),
    {
        if !self.library.saved_albums.select_next() {
            let offset = match self.library.saved_albums.get_results(None) {
                Some(p) => p.next_offset(),
                None => None,
            };
            if let Some(o) = offset {
                self.dispatch(IoEvent::GetCurrentUserSavedAlbums { offset: Some(o) });
            }
        }
    }

    /// Previous page of saved albums, from the cache.
    pub fn get_current_user_saved_albums_previous(&mut self)
        requires
            old(self).wf(),
        ensures
            final(self).wf(),
            *final(self) == (App { library: final(self).library, ..*old(self) }),
            final(self).library == (crate::app::Library { saved_albums: final(self).library.saved_albums, ..old(self).library }),
            final(self).library.saved_albums@ == retreated(old(self).library.saved_albums@),
    {
        self.library.saved_albums.select_previous();
    }

    /// Next page of saved shows: the cursor moves when it is cached, else it is fetched.
    pub fn get_current_user_saved_shows_next(&mut self)
        requires
            old(self).wf(),
        ensures
            final(self).wf(),
            final(self).library == (crate::app::Library { saved_shows: final(self).library.saved_shows, ..old(self).library }),
            final(self).library.saved_shows@ == (if next_cached(old(self).library.saved_shows@) {
                advanced(old(self).library.saved_shows@)
            } else {
                old(self).library.saved_shows@
            }),
            dispatched(
                App { library: final(self).library, ..*old(self) },
                old(self).navigation_stack@,
                if next_cached(old(self).library.saved_shows@) {
                    Seq::empty()
                } else {
                    offset_fetch(old(self).library.saved_shows@, |o: u32| IoEvent::GetCurrentUserSavedShows { offset: Some(o) })
                },
                *final(self),
            ),
    {
        if !self.library.saved_shows.select_next() {
            let offset = match self.library.saved_shows.get_results(None) {
                Some(p) => p.next_offset(),
                None => None,
            };
            if let Some(o) = offset {
                self.dispatch(IoEvent::GetCurrentUserSavedShows { offset: Some(o) });
            }
        }
    }

    /// Previous page of saved shows, from the cache.
    pub fn get_current_user_saved_shows_previous(&mut self)
        requires
            old(self).wf(),
        ensures
            final(self).wf(),
            *final(self) == (App { library: final(self).library, ..*old(self) }),
            final(self).library == (crate::app::Library { saved_shows: final(self).library.saved_shows, ..old(self).library }),
            final(self).library.saved_shows@ == retreated(old(self).library.saved_shows@),
    {
        self.library.saved_shows.select_previous();
    }

    /// Next page of a show's episodes: the cursor moves when it is cached, else it is fetched.
    pub fn get_episode_table_next(&mut self, show_id: String)
        requires
            old(self).wf(),
        ensures
            final(self).wf(),
            final(self).library == (crate::app::Library { show_episodes: final(self).library.show_episodes, ..old(self).library }),
            final(self).library.show_episodes@ == (if next_cached(old(self).library.show_episodes@) {
                advanced(old(self).library.show_episodes@)
            } else {
                old(self).library.show_episodes@
            }),
            dispatched(
                App { library: final(self).library, ..*old(self) },
                old(self).navigation_stack@,
                if next_cached(old(self).library.show_episodes@) {
                    Seq::empty()
                } else {
                    offset_fetch(
                        old(self).library.show_episodes@,
                        |o: u32| IoEvent::GetCurrentShowEpisodes { show_id, offset: Some(o) },
                    )
                },
                *final(self),
            ),
    {
        if !self.library.show_episodes.select_next() {
            let offset = match self.library.show_episodes.get_results(None) {
                Some(p) => p.next_offset(),
                None => None,
            };
            if let Some(o) = offset {
                self.dispatch(IoEvent::GetCurrentShowEpisodes { show_id, offset: Some(o) });
            }
        }
    }

    /// Previous page of a show's episodes, from the cache.
    pub fn get_episode_table_previous(&mut self)
        requires
            old(self).wf(),
        ensures
            final(self).wf(),
            *final(self) == (App { library: final(self).library, ..*old(self) }),
            final(self).library == (crate::app::Library { show_episodes: final(self).library.show_episodes, ..old(self).library }),
            final(self).library.show_episodes@ == retreated(old(self).library.show_episodes@),
    {
        self.library.show_episodes.select_previous();
    }
}

} // verus!
