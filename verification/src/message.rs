//! The commands a user action can produce.

use vstd::prelude::*;

verus! {

/// One user command. Paths are plain strings; a command built from a listed
/// entry carries the pane's directory, a `/`, and the entry's name.
#[derive(Debug, Clone)]
pub enum Message {
    /// Quit the application.
    Exit,
    /// Navigate the primary pane to the given directory.
    CD(String),
    /// Extract the audio track of the given video file.
    JRIP(String),
    /// Dismiss the status message.
    ClosePopup,
    /// Open the sidebar on the given directory.
    ShowSidebar(String),
    /// Close the sidebar.
    CloseSidebar,
}

} // verus!
