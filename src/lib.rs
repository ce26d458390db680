//! Keeps a desktop session from going idle while a media player is playing.
//!
//! The library holds the decisions: which compositor globals to bind, which
//! player to watch, when a player's event stream ends the watch, and which
//! compositor requests create or release the idle inhibitor.

pub mod coordinator;
pub mod discovery;
pub mod globals;
pub mod inhibit;
pub mod watch;

pub use coordinator::{Coordinator, Cycle, NextStep, POLL_INTERVAL_SECS};
pub use discovery::{find_active_player, first_playing, FindingError, PlaybackStatus, StatusReport};
pub use globals::{classify_global, Bindings, GlobalRole, StartupError};
pub use inhibit::{CompositorRequest, InhibitionState, InhibitorController};
pub use watch::{watch_step, EventKind, StreamItem, WatchEnd};
