//! Plain-value records of what the remote service returns and what the logic reads of it.
use vstd::prelude::*;

verus! {

/// One entry of a fetched page: an album, artist, playlist, show, track or episode.
#[derive(Clone, Debug, PartialEq, Eq)]
pub struct PageItem {
    pub id: Option<String>,
    pub name: String,
    pub owner_id: Option<String>,
    pub is_public: Option<bool>,
}

fn copy_opt_string(s: &Option<String>) -> (r: Option<String>)
    ensures
        r == *s,
{
    match s {
        Some(v) => Some(v.clone()),
        None => None,
    }
}

impl PageItem {
    /// A copy of the item, equal to it field for field.
    pub fn duplicate(&self) -> (r: PageItem)
        ensures
            r == *self,
    {
        PageItem {
            id: copy_opt_string(&self.id),
            name: self.name.clone(),
            owner_id: copy_opt_string(&self.owner_id),
            is_public: self.is_public,
        }
    }
}

/// One page of a server-paginated collection.
#[derive(Clone, Debug, PartialEq, Eq)]
pub struct ResultPage {
    pub items: Vec<PageItem>,
    pub offset: u32,
    pub limit: u32,
    pub total: u32,
}

/// The offset of the page that follows `p`, when it fits in a `u32`.
pub open spec fn next_offset(p: ResultPage) -> Option<u32> {
    if p.offset + p.limit <= u32::MAX {
        Some((p.offset + p.limit) as u32)
    } else {
        None
    }
}

/// The identifiers of `items`, in order, skipping items without one.
pub open spec fn item_ids(items: Seq<PageItem>) -> Seq<String>
    decreases items.len(),
{
    if items.len() == 0 {
        Seq::empty()
    } else {
        let rest = item_ids(items.drop_last());
        match items.last().id {
            Some(id) => rest.push(id),
            None => rest,
        }
    }
}

impl ResultPage {
    /// The identifiers of the page's items, in order, skipping items without one.
    pub fn ids(&self) -> (r: Vec<String>)
        ensures
            r@ == item_ids(self.items@),
    {
        let mut r: Vec<String> = Vec::new();
        let mut i: usize = 0;
        while i < self.items.len()
            invariant
                i <= self.items@.len(),
                r@ == item_ids(self.items@.subrange(0, i as int)),
            decreases self.items@.len() - i,
        {
            let ghost before = self.items@.subrange(0, i as int);
            assert(self.items@.subrange(0, i + 1).drop_last() =~= before);
            match &self.items[i] {
                PageItem { id: Some(id), .. } => {
                    r.push(id.clone());
                },
                _ => {},
            }
            i = i + 1;
        }
        assert(self.items@.subrange(0, self.items@.len() as int) =~= self.items@);
        r
    }

    /// The offset of the page that follows this one, when it fits in a `u32`.
    pub fn next_offset(&self) -> (r: Option<u32>)
        ensures
            r == next_offset(*self),
    {
        self.offset.checked_add(self.limit)
    }
}

/// Whether a playable item is a music track or a podcast episode.
#[derive(Clone, Copy, PartialEq, Eq, Structural, Debug)]
pub enum PlayableKind {
    Track,
    Episode,
}

/// The item being played.
#[derive(Clone, Debug, PartialEq, Eq)]
pub struct PlayingItem {
    pub kind: PlayableKind,
    pub id: Option<String>,
    pub duration_ms: u64,
    /// The album of a track, or the show of an episode.
    pub parent_id: Option<String>,
}

/// The three repeat modes of the player.
#[derive(Clone, Copy, PartialEq, Eq, Structural, Debug)]
pub enum RepeatState {
    Off,
    Context,
    Track,
}

/// The mode that follows `s` when the user cycles through repeat modes.
pub open spec fn next_repeat(s: RepeatState) -> RepeatState {
    match s {
        RepeatState::Off => RepeatState::Context,
        RepeatState::Context => RepeatState::Track,
        RepeatState::Track => RepeatState::Off,
    }
}

/// The mode that follows `s` when the user cycles through repeat modes.
pub fn next_repeat_state(s: RepeatState) -> (r: RepeatState)
    ensures
        r == next_repeat(s),
{
    match s {
        RepeatState::Off => RepeatState::Context,
        RepeatState::Context => RepeatState::Track,
        RepeatState::Track => RepeatState::Off,
    }
}

/// A snapshot of the player as last reported by the remote service.
#[derive(Clone, Debug, PartialEq, Eq)]
pub struct PlaybackContext {
    pub is_playing: bool,
    pub progress_ms: Option<u64>,
    pub item: Option<PlayingItem>,
    pub volume_percent: Option<u32>,
    pub shuffle_state: bool,
    pub repeat_state: RepeatState,
}

/// The signed-in user.
#[derive(Clone, Debug, PartialEq, Eq)]
pub struct User {
    pub id: String,
    pub country: Option<String>,
}

} // verus!
