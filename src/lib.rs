//! State, navigation and command-dispatch engine of a terminal client for a
//! remote media-streaming service.
//!
//! - `route`, `navigation`: screens, focus regions and the never-empty navigation stack.
//! - `pages`: the append-only cache of fetched result pages with a cursor.
//! - `id_set`, `model`: membership sets and plain records of remote data.
//! - `command`, `channel`: commands and the first-in first-out channel that carries them.
//! - `app`: the shared state and dispatching.
//! - `player`, `paging`, `actions`: decisions of the input loop.
//! - `worker`: the single consumer that applies each command's outcome.
//! - `events`, `cli`: input-loop events and the command-line vocabulary.

pub mod route;
pub mod navigation;
pub mod pages;
pub mod id_set;
pub mod model;
pub mod command;
pub mod channel;
pub mod app;
pub mod player;
pub mod paging;
pub mod actions;
pub mod worker;
pub mod events;
pub mod cli;
