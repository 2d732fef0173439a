//! Verified core of a two-pane video-directory browser.
//!
//! The library holds the logic worth checking: filtered directory listings
//! (directories first, then files whose names end case-insensitively in
//! `.mkv`), path manipulation (parent directories and deriving the `.mp3`
//! output path for audio extraction), and the navigation state machine that
//! turns user commands into state transitions and requests for outside work.
//!
//! Everything that touches the operating system — enumerating a directory,
//! running the external transcoder, drawing the panes — lives outside this
//! crate: the shell enumerates and hands the raw entries in, performs the
//! action that an update returns, and reports the outcome back.

pub mod app;
pub mod listing;
pub mod message;
pub mod paths;
pub mod ripper;
pub mod sidebar;

pub use app::{Action, AppState};
pub use listing::{build_primary_listing, build_sidebar_listing, list_primary, list_sidebar};
pub use message::Message;
pub use paths::{derive_audio_output, parent_of, PathError};
pub use ripper::MainState;
pub use sidebar::SidebarState;
