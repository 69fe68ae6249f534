//! Events that drive the input loop: key presses and the periodic tick.
use vstd::prelude::*;

verus! {

/// Tick spacing used when none is configured.
pub const DEFAULT_TICK_RATE_MS: u64 = 250;

/// Configuration of the input loop.
#[derive(Clone, Copy, Debug, PartialEq, Eq, Structural)]
pub struct EventConfig {
    /// The key that, pressed with Ctrl, exits the application.
    pub exit_key: char,
    /// Spacing of tick events, in milliseconds.
    pub tick_rate_ms: u64,
}

impl Default for EventConfig {
    /// Ctrl-C exits; a tick every 250 ms.
    fn default() -> (r: EventConfig)
        ensures
            r.exit_key == 'c',
            r.tick_rate_ms == DEFAULT_TICK_RATE_MS,
    {
        EventConfig { exit_key: 'c', tick_rate_ms: DEFAULT_TICK_RATE_MS }
    }
}

impl EventConfig {
    /// The default configuration with the tick spacing `tick_rate_ms`.
    pub fn with_tick_rate(tick_rate_ms: u64) -> (r: EventConfig)
        ensures
            r.exit_key == 'c',
            r.tick_rate_ms == tick_rate_ms,
    {
        EventConfig { exit_key: 'c', tick_rate_ms }
    }
}

/// An event of the input loop.
#[derive(Clone, Copy, Debug, PartialEq, Eq)]
pub enum Event<I> {
    /// An input event occurred.
    Input(I),
    /// A tick event occurred.
    Tick,
}

} // verus!
