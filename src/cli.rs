//! Vocabulary of the non-interactive command-line mode.
use vstd::prelude::*;

verus! {

/// The kinds of item that can be listed, searched or played.
#[derive(Clone, Copy, Debug, PartialEq, Eq, Structural)]
pub enum Type {
    Album,
    Artist,
    Device,
    Liked,
    Playlist,
    Show,
    Track,
}

/// A setting to change. `Like(true)` likes and `Like(false)` unlikes; the
/// others toggle.
#[derive(Clone, Copy, Debug, PartialEq, Eq, Structural)]
pub enum Flag {
    Like(bool),
    Shuffle,
    Repeat,
}

/// The settings asked for on the command line, in this order: like or unlike
/// (like winning when both are given), shuffle, repeat.
pub open spec fn flags_of(like: bool, dislike: bool, shuffle: bool, repeat: bool) -> Seq<Flag> {
    let first: Seq<Flag> = if like {
        seq![Flag::Like(true)]
    } else if dislike {
        seq![Flag::Like(false)]
    } else {
        Seq::empty()
    };
    let second: Seq<Flag> = if shuffle { first.push(Flag::Shuffle) } else { first };
    if repeat { second.push(Flag::Repeat) } else { second }
}

impl Flag {
    /// The settings asked for by the presence of the like, dislike, shuffle
    /// and repeat options.
    pub fn from_options(like: bool, dislike: bool, shuffle: bool, repeat: bool) -> (r: Vec<Flag>)
        ensures
            r@ == flags_of(like, dislike, shuffle, repeat),
    {
        let mut flags: Vec<Flag> = Vec::new();
        if like {
            flags.push(Flag::Like(true));
        } else if dislike {
            flags.push(Flag::Like(false));
        }
        if shuffle {
            flags.push(Flag::Shuffle);
        }
        if repeat {
            flags.push(Flag::Repeat);
        }
        proof {
            if like {
                assert(Seq::<Flag>::empty().push(Flag::Like(true)) =~= seq![Flag::Like(true)]);
            } else if dislike {
                assert(Seq::<Flag>::empty().push(Flag::Like(false)) =~= seq![Flag::Like(false)]);
            }
        }
        flags
    }
}

/// Which way to skip through the queue.
#[derive(Clone, Copy, Debug, PartialEq, Eq, Structural)]
pub enum JumpDirection {
    Next,
    Previous,
}

} // verus!
