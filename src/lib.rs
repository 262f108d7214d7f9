//! Host-side logic of an LED-strip indicator driven by sandboxed plugins:
//! the pixel model and hardware bridge, the two indicator plugins' frame logic,
//! the module watcher's filtering and debouncing, and the frame scheduler's
//! state machine.

pub mod color;
pub mod battery;
pub mod animated;
pub mod strip;
pub mod command;
pub mod watcher;
pub mod scheduler;
pub mod runtime;
