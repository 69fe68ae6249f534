//! Playback decisions of the input loop: the periodic tick, seeking, volume and
//! the transport commands.
use vstd::prelude::*;

use crate::app::{
    after_dispatches, dispatched, opt_cmds, App, MAX_VOLUME, POLL_INTERVAL_MS,
    RESTART_THRESHOLD_MS,
};
use crate::command::IoEvent;
use crate::model::{PlaybackContext, PlayableKind};
use crate::navigation::push_route;
use crate::route::{ActiveBlock, RouteId};

verus! {

/// Milliseconds from `last` to `now`; zero when the clock went backwards.
pub open spec fn elapsed_since(now: u64, last: u64) -> int {
    if now >= last {
        now - last
    } else {
        0
    }
}

/// A playback refresh is due: none is in flight and the minimum spacing has passed.
pub open spec fn should_poll(a: App, now_ms: u64) -> bool {
    !a.is_fetching_current_playback && elapsed_since(now_ms, a.last_playback_poll_ms) >= POLL_INTERVAL_MS
}

/// The command that applies a pending seek to `position`: a seek within the
/// playing item, or the next track when `position` is past its end. None
/// when nothing is playing.
pub open spec fn seek_command(ctx: Option<PlaybackContext>, position: u64) -> Option<IoEvent> {
    match ctx {
        Some(c) => match c.item {
            Some(item) => if position < item.duration_ms {
                Some(IoEvent::Seek { position_ms: position })
            } else {
                Some(IoEvent::NextTrack)
            },
            None => None,
        },
        None => None,
    }
}

/// What a tick at `now_ms` dispatches: nothing unless a refresh is due; then the
/// pending seek if there is one, else a plain refresh.
pub open spec fn poll_commands(a: App, now_ms: u64) -> Seq<IoEvent> {
    if should_poll(a, now_ms) {
        match a.seek_ms {
            Some(s) => opt_cmds(seek_command(a.current_playback_context, s)),
            None => seq![IoEvent::GetCurrentPlayback],
        }
    } else {
        Seq::empty()
    }
}

/// The progress shown after a tick at `now_ms`: the reported progress, plus the
/// time since the last refresh while playing, capped at the item's duration.
pub open spec fn ticked_progress(a: App, now_ms: u64) -> u64 {
    match a.current_playback_context {
        Some(c) => match (c.item, c.progress_ms) {
            (Some(item), Some(p)) => {
                let e = (if c.is_playing { elapsed_since(now_ms, a.last_playback_poll_ms) } else { 0 }) + p;
                if e < item.duration_ms {
                    e as u64
                } else {
                    item.duration_ms
                }
            },
            _ => a.song_progress_ms,
        },
        None => a.song_progress_ms,
    }
}

/// The position a seek starts from: the pending seek, else the shown progress.
pub open spec fn seek_origin(a: App) -> u64 {
    match a.seek_ms {
        Some(s) => s,
        None => a.song_progress_ms,
    }
}

/// The player's volume, read as at most the maximum; zero when unknown.
pub open spec fn current_volume(c: PlaybackContext) -> int {
    match c.volume_percent {
        Some(v) => if v > MAX_VOLUME { MAX_VOLUME as int } else { v as int },
        None => 0,
    }
}

/// The volume one step up, capped at the maximum.
pub open spec fn raised_volume(c: PlaybackContext, step: u8) -> int {
    if current_volume(c) + step > MAX_VOLUME { MAX_VOLUME as int } else { current_volume(c) + step }
}

/// The volume one step down, floored at zero.
pub open spec fn lowered_volume(c: PlaybackContext, step: u8) -> int {
    if current_volume(c) > step { current_volume(c) - step } else { 0 }
}

/// The volume change to request, if the new volume differs from the current one.
pub open spec fn volume_command(ctx: Option<PlaybackContext>, step: u8, up: bool) -> Seq<IoEvent> {
    match ctx {
        Some(c) => {
            let next = if up { raised_volume(c, step) } else { lowered_volume(c, step) };
            if next != current_volume(c) {
                seq![IoEvent::ChangeVolume { volume: next as u8 }]
            } else {
                Seq::empty()
            }
        },
        None => Seq::empty(),
    }
}

/// Whether the player reports that it is playing.
pub open spec fn playing(a: App) -> bool {
    match a.current_playback_context {
        Some(c) => c.is_playing,
        None => false,
    }
}

/// Two ticks within the minimum spacing, with no refresh answered between
/// them, issue at most one refresh: once a tick has dispatched one, a refresh is
/// in flight and the next tick dispatches nothing. When the refresh is answered
/// in between, `lemma_refresh_spacing_after_outcome` restarts the spacing.
pub proof fn lemma_one_refresh_per_interval(a: App, first_ms: u64, second_ms: u64)
    requires
        should_poll(a, first_ms),
    ensures
        poll_commands(
            App {
                song_progress_ms: ticked_progress(a, first_ms),
                is_fetching_current_playback: true,
                ..a
            },
            second_ms,
        ).len() == 0,
{
}

/// The service's URI of the item `id` of type `kind`: `spotify:<kind>:<id>`.
pub open spec fn uri_of(kind: Seq<char>, id: Seq<char>) -> Seq<char> {
    "spotify:"@ + kind + ":"@ + id
}

/// The URI type of a playable item.
pub open spec fn kind_name(kind: PlayableKind) -> Seq<char> {
    match kind {
        PlayableKind::Track => "track"@,
        PlayableKind::Episode => "episode"@,
    }
}

/// The URI type of what contains a playable item: a track's album, an episode's show.
pub open spec fn parent_kind_name(kind: PlayableKind) -> Seq<char> {
    match kind {
        PlayableKind::Track => "album"@,
        PlayableKind::Episode => "show"@,
    }
}

fn make_uri(kind: &str, id: &String) -> (r: String)
    ensures
        r@ == uri_of(kind@, id@),
{
    let mut u = String::from_str("spotify:");
    u.append(kind);
    u.append(":");
    u.append(id.as_str());
    u
}

impl App {
    /// The URI of the playing item, to copy; none when nothing identifiable plays.
    pub fn playing_item_url(&self) -> (r: Option<String>)
        ensures
            r is Some <==> (self.current_playback_context is Some
                && self.current_playback_context->Some_0.item is Some
                && self.current_playback_context->Some_0.item->Some_0.id is Some),
            r is Some ==> r->Some_0@ == uri_of(
                kind_name(self.current_playback_context->Some_0.item->Some_0.kind),
                self.current_playback_context->Some_0.item->Some_0.id->Some_0@,
            ),
    {
        match &self.current_playback_context {
            Some(c) => match &c.item {
                Some(item) => match &item.id {
                    Some(id) => Some(match item.kind {
                        PlayableKind::Track => make_uri("track", id),
                        PlayableKind::Episode => make_uri("episode", id),
                    }),
                    None => None,
                },
                None => None,
            },
            None => None,
        }
    }

    /// The URI of the album or show that holds the playing item, to copy.
    pub fn playing_item_parent_url(&self) -> (r: Option<String>)
        ensures
            r is Some <==> (self.current_playback_context is Some
                && self.current_playback_context->Some_0.item is Some
                && self.current_playback_context->Some_0.item->Some_0.parent_id is Some),
            r is Some ==> r->Some_0@ == uri_of(
                parent_kind_name(self.current_playback_context->Some_0.item->Some_0.kind),
                self.current_playback_context->Some_0.item->Some_0.parent_id->Some_0@,
            ),
    {
        match &self.current_playback_context {
            Some(c) => match &c.item {
                Some(item) => match &item.parent_id {
                    Some(id) => Some(match item.kind {
                        PlayableKind::Track => make_uri("album", id),
                        PlayableKind::Episode => make_uri("show", id),
                    }),
                    None => None,
                },
                None => None,
            },
            None => None,
        }
    }

    fn apply_seek(&mut self, seek_ms: u64)
        requires
            old(self).wf(),
        ensures
            final(self).wf(),
            after_dispatches(*old(self), opt_cmds(seek_command(old(self).current_playback_context, seek_ms)), *final(self)),
    {
        let event = match &self.current_playback_context {
            Some(c) => match &c.item {
                Some(item) => if seek_ms < item.duration_ms {
                    Some(IoEvent::Seek { position_ms: seek_ms })
                } else {
                    Some(IoEvent::NextTrack)
                },
                None => None,
            },
            None => None,
        };
        if let Some(e) = event {
            self.dispatch(e);
        }
    }

    fn poll_current_playback(&mut self, now_ms: u64)
        requires
            old(self).wf(),
        ensures
            final(self).wf(),
            after_dispatches(
                App {
                    is_fetching_current_playback: old(self).is_fetching_current_playback || should_poll(*old(self), now_ms),
                    ..*old(self)
                },
                poll_commands(*old(self), now_ms),
                *final(self),
            ),
    {
        let elapsed = if now_ms >= self.last_playback_poll_ms { now_ms - self.last_playback_poll_ms } else { 0 };
        if !self.is_fetching_current_playback && elapsed >= POLL_INTERVAL_MS {
            self.is_fetching_current_playback = true;
            match self.seek_ms {
                Some(s) => self.apply_seek(s),
                None => self.dispatch(IoEvent::GetCurrentPlayback),
            }
        }
    }

    /// One tick of the input loop at clock reading `now_ms`: advances the shown
    /// progress locally, and dispatches a playback refresh (or the pending seek)
    /// when one is due.
    pub fn update_on_tick(&mut self, now_ms: u64)
        requires
            old(self).wf(),
        ensures
            final(self).wf(),
            after_dispatches(
                App {
                    song_progress_ms: ticked_progress(*old(self), now_ms),
                    is_fetching_current_playback: old(self).is_fetching_current_playback || should_poll(*old(self), now_ms),
                    ..*old(self)
                },
                poll_commands(*old(self), now_ms),
                *final(self),
            ),
    {
        let mut progress = self.song_progress_ms;
        if let Some(c) = &self.current_playback_context {
            if let (Some(item), Some(p)) = (&c.item, c.progress_ms) {
                let elapsed = if c.is_playing && now_ms >= self.last_playback_poll_ms {
                    now_ms - self.last_playback_poll_ms
                } else {
                    0
                };
                let e = elapsed.saturating_add(p);
                progress = if e < item.duration_ms { e } else { item.duration_ms };
            }
        }
        self.song_progress_ms = progress;
        self.poll_current_playback(now_ms);
    }

    /// Moves the pending seek one step forward, capped at the item's end; only
    /// while an item is playing.
    pub fn seek_forwards(&mut self)
        requires
            old(self).wf(),
        ensures
            final(self).wf(),
            *final(self) == match old(self).current_playback_context {
                Some(c) => match c.item {
                    Some(item) => App {
                        seek_ms: Some(
                            if seek_origin(*old(self)) + old(self).behavior.seek_milliseconds < item.duration_ms {
                                (seek_origin(*old(self)) + old(self).behavior.seek_milliseconds) as u64
                            } else {
                                item.duration_ms
                            },
                        ),
                        ..*old(self)
                    },
                    None => *old(self),
                },
                None => *old(self),
            },
    {
        let origin = match self.seek_ms {
            Some(s) => s,
            None => self.song_progress_ms,
        };
        let target = match &self.current_playback_context {
            Some(c) => match &c.item {
                Some(item) => {
                    let t = origin.saturating_add(self.behavior.seek_milliseconds as u64);
                    Some(if t < item.duration_ms { t } else { item.duration_ms })
                },
                None => None,
            },
            None => None,
        };
        if let Some(t) = target {
            self.seek_ms = Some(t);
        }
    }

    /// Moves the pending seek one step back, floored at the start.
    pub fn seek_backwards(&mut self)
        requires
            old(self).wf(),
        ensures
            final(self).wf(),
            *final(self) == (App {
                seek_ms: Some(
                    if seek_origin(*old(self)) > old(self).behavior.seek_milliseconds {
                        (seek_origin(*old(self)) - old(self).behavior.seek_milliseconds) as u64
                    } else {
                        0
                    },
                ),
                ..*old(self)
            }),
    {
        let origin = match self.seek_ms {
            Some(s) => s,
            None => self.song_progress_ms,
        };
        let step = self.behavior.seek_milliseconds as u64;
        self.seek_ms = Some(if origin > step { origin - step } else { 0 });
    }

    fn change_volume_by_step(&mut self, up: bool)
        requires
            old(self).wf(),
        ensures
            final(self).wf(),
            after_dispatches(*old(self), volume_command(old(self).current_playback_context, old(self).behavior.volume_increment, up), *final(self)),
    {
        let step = self.behavior.volume_increment as u32;
        let cmd = match &self.current_playback_context {
            Some(c) => {
                let current: u32 = match c.volume_percent {
                    Some(v) => if v > MAX_VOLUME { MAX_VOLUME } else { v },
                    None => 0,
                };
                let next: u32 = if up {
                    if current + step > MAX_VOLUME { MAX_VOLUME } else { current + step }
                } else {
                    if current > step { current - step } else { 0 }
                };
                if next != current {
                    Some(IoEvent::ChangeVolume { volume: next as u8 })
                } else {
                    None
                }
            },
            None => None,
        };
        if let Some(e) = cmd {
            self.dispatch(e);
        }
    }

    /// Requests the volume one step up, when a player is known and it changes.
    pub fn increase_volume(&mut self)
        requires
            old(self).wf(),
        ensures
            final(self).wf(),
            after_dispatches(*old(self), volume_command(old(self).current_playback_context, old(self).behavior.volume_increment, true), *final(self)),
    {
        self.change_volume_by_step(true);
    }

    /// Requests the volume one step down, when a player is known and it changes.
    pub fn decrease_volume(&mut self)
        requires
            old(self).wf(),
        ensures
            final(self).wf(),
            after_dispatches(*old(self), volume_command(old(self).current_playback_context, old(self).behavior.volume_increment, false), *final(self)),
    {
        self.change_volume_by_step(false);
    }

    /// Whether the player reports that it is playing.
    pub fn is_playing(&self) -> (r: bool)
        ensures
            r == playing(*self),
    {
        match &self.current_playback_context {
            Some(c) => c.is_playing,
            None => false,
        }
    }

    /// Pauses when playing, resumes otherwise.
    pub fn toggle_playback(&mut self)
        requires
            old(self).wf(),
        ensures
            final(self).wf(),
            after_dispatches(
                *old(self),
                seq![if playing(*old(self)) { IoEvent::PausePlayback } else { IoEvent::ResumePlayback }],
                *final(self),
            ),
    {
        if self.is_playing() {
            self.dispatch(IoEvent::PausePlayback);
        } else {
            self.dispatch(IoEvent::ResumePlayback);
        }
    }

    /// Resumes when a player is known and paused.
    pub fn resume_playback(&mut self)
        requires
            old(self).wf(),
        ensures
            final(self).wf(),
            after_dispatches(
                *old(self),
                if old(self).current_playback_context is Some && !playing(*old(self)) {
                    seq![IoEvent::ResumePlayback]
                } else {
                    Seq::empty()
                },
                *final(self),
            ),
    {
        if self.current_playback_context.is_some() && !self.is_playing() {
            self.dispatch(IoEvent::ResumePlayback);
        }
    }

    /// Pauses when the player is playing.
    pub fn pause_playback(&mut self)
        requires
            old(self).wf(),
        ensures
            final(self).wf(),
            after_dispatches(
                *old(self),
                if playing(*old(self)) { seq![IoEvent::PausePlayback] } else { Seq::empty() },
                *final(self),
            ),
    {
        if self.is_playing() {
            self.dispatch(IoEvent::PausePlayback);
        }
    }

    /// Restarts the current item once it has played a while, else goes to the
    /// previous one.
    pub fn previous_track(&mut self)
        requires
            old(self).wf(),
        ensures
            final(self).wf(),
            after_dispatches(
                *old(self),
                seq![
                    if old(self).song_progress_ms >= RESTART_THRESHOLD_MS {
                        IoEvent::Seek { position_ms: 0 }
                    } else {
                        IoEvent::PreviousTrack
                    },
                ],
                *final(self),
            ),
    {
        if self.song_progress_ms >= RESTART_THRESHOLD_MS {
            self.dispatch(IoEvent::Seek { position_ms: 0 });
        } else {
            self.dispatch(IoEvent::PreviousTrack);
        }
    }

    /// Requests the shuffle mode to flip.
    pub fn shuffle(&mut self)
        requires
            old(self).wf(),
        ensures
            final(self).wf(),
            after_dispatches(*old(self), seq![IoEvent::ToggleShuffle], *final(self)),
    {
        self.dispatch(IoEvent::ToggleShuffle);
    }

    /// Requests the repeat mode after the current one, when a player is known.
    pub fn repeat(&mut self)
        requires
            old(self).wf(),
        ensures
            final(self).wf(),
            after_dispatches(
                *old(self),
                match old(self).current_playback_context {
                    Some(c) => seq![IoEvent::Repeat { state: c.repeat_state }],
                    None => Seq::empty(),
                },
                *final(self),
            ),
    {
        let state = match &self.current_playback_context {
            Some(c) => Some(c.repeat_state),
            None => None,
        };
        if let Some(s) = state {
            self.dispatch(IoEvent::Repeat { state: s });
        }
    }

    /// Opens the analysis screen for the playing item, requesting the track's
    /// analysis unless that screen is already shown.
    pub fn get_audio_analysis(&mut self)
        requires
            old(self).wf(),
        ensures
            final(self).wf(),
            match old(self).current_playback_context {
                Some(c) => match c.item {
                    Some(item) => dispatched(
                        *old(self),
                        push_route(old(self).navigation_stack@, RouteId::Analysis, ActiveBlock::Analysis),
                        if item.kind == PlayableKind::Track && item.id is Some
                            && old(self).navigation_stack@.last().id != RouteId::Analysis {
                            seq![IoEvent::GetTrackAnalysis { track_id: item.id->Some_0 }]
                        } else {
                            Seq::empty()
                        },
                        *final(self),
                    ),
                    None => *final(self) == *old(self),
                },
                None => *final(self) == *old(self),
            },
    {
        let mut cmd: Option<IoEvent> = None;
        let mut has_item = false;
        if let Some(c) = &self.current_playback_context {
            if let Some(item) = &c.item {
                has_item = true;
                if item.kind == PlayableKind::Track && self.navigation_stack.current().id != RouteId::Analysis {
                    if let Some(id) = &item.id {
                        cmd = Some(IoEvent::GetTrackAnalysis { track_id: id.clone() });
                    }
                }
            }
        }
        if has_item {
            self.push_navigation_stack(RouteId::Analysis, ActiveBlock::Analysis);
            if let Some(e) = cmd {
                self.dispatch(e);
            }
        }
    }

    /// Opens what holds the playing item: a track's album or an episode's show.
    pub fn handle_jump_to_album(&mut self)
        requires
            old(self).wf(),
        ensures
            final(self).wf(),
            after_dispatches(
                *old(self),
                match old(self).current_playback_context {
                    Some(c) => match c.item {
                        Some(item) => match item.parent_id {
                            Some(p) => seq![
                                if item.kind == PlayableKind::Track {
                                    IoEvent::GetAlbumTracks { album_id: p }
                                } else {
                                    IoEvent::GetShowEpisodes { show_id: p }
                                },
                            ],
                            None => Seq::empty(),
                        },
                        None => Seq::empty(),
                    },
                    None => Seq::empty(),
                },
                *final(self),
            ),
    {
        let mut cmd: Option<IoEvent> = None;
        if let Some(c) = &self.current_playback_context {
            if let Some(item) = &c.item {
                if let Some(p) = &item.parent_id {
                    cmd = Some(match item.kind {
                        PlayableKind::Track => IoEvent::GetAlbumTracks { album_id: p.clone() },
                        PlayableKind::Episode => IoEvent::GetShowEpisodes { show_id: p.clone() },
                    });
                }
            }
        }
        if let Some(e) = cmd {
            self.dispatch(e);
        }
    }
}

} // verus!
