//! The navigation state machine.
//!
//! [`AppState::update`] turns one command into a state transition and an
//! [`Action`]: the one piece of outside work the shell must perform next.
//! The shell enumerates directories and runs the external transcoder, then
//! hands the results back — a fresh listing through the panes' setters, the
//! transcoder's outcome through [`AppState::apply_extraction_outcome`].

use crate::listing::DirEntry;
use crate::message::Message;
use crate::paths::{derive_audio_output, has_file_name, spec_audio_output, PathError};
use crate::ripper::MainState;
use crate::sidebar::SidebarState;
use vstd::prelude::*;

verus! {

/// Outside work that one update asks the shell to perform.
#[derive(Debug, Clone, PartialEq, Eq)]
pub enum Action {
    /// Nothing: the transition is complete.
    Idle,
    /// Quit the application.
    Exit,
    /// Enumerate this directory and hand the primary pane its new listing.
    RefreshMain(String),
    /// Enumerate this directory and hand the sidebar its new listing.
    RefreshSidebar(String),
    /// Run the external transcoder on `input`, writing `output`, and report
    /// the outcome back.
    RunExtraction { input: String, output: String },
}

/// The status message shown when the transcoder reports success.
pub open spec fn spec_success_message() -> Seq<char> {
    "Audio ripped successfully"@
}

/// The status message shown when the transcoder reports failure.
pub open spec fn spec_failure_message() -> Seq<char> {
    "Audio ripping failed"@
}

/// The popup holds exactly the given text.
pub open spec fn popup_is(p: Option<String>, s: Seq<char>) -> bool {
    match p {
        Some(m) => m@ == s,
        None => false,
    }
}

/// The success status message.
pub fn success_message() -> (r: String)
    ensures
        r@ == spec_success_message(),
{
    "Audio ripped successfully".to_owned()
}

/// The failure status message.
pub fn failure_message() -> (r: String)
    ensures
        r@ == spec_failure_message(),
{
    "Audio ripping failed".to_owned()
}

/// The whole navigation state: both panes and the optional status message.
#[derive(Debug)]
pub struct AppState {
    pub main_state: MainState,
    pub sidebar_state: SidebarState,
    pub popup: Option<String>,
}

impl AppState {
    /// Well-formed: the sidebar shows a listing only while it is open.
    pub open spec fn wf(&self) -> bool {
        self.sidebar_state.wf()
    }

    /// Creates the state from the two panes, with no status message.
    pub fn new(main_state: MainState, sidebar_state: SidebarState) -> (r: AppState)
        ensures
            r.main_state == main_state,
            r.sidebar_state == sidebar_state,
            r.popup is None,
    {
        AppState { main_state, sidebar_state, popup: None }
    }

    /// Applies one command.
    ///
    /// Navigation sets the directory at once and asks the shell to refresh
    /// the listing; extraction derives the output path beside the input and
    /// asks the shell to run the transcoder; a path without a file name is
    /// refused. No command fails in any other way.
    pub fn update(&mut self, message: Message) -> (r: Result<Action, PathError>)
        ensures
            old(self).wf() ==> final(self).wf(),
            (message matches Message::Exit ==> *final(self) == *old(self) && r == Ok::<
                Action,
                PathError,
            >(Action::Exit)),
            (message matches Message::CD(path) ==> {
                &&& final(self).main_state.current_dir == path
                &&& final(self).main_state.current_files == old(self).main_state.current_files
                &&& final(self).sidebar_state == old(self).sidebar_state
                &&& final(self).popup == old(self).popup
                &&& (r matches Ok(a) && a matches Action::RefreshMain(q) && q == path)
            }),
            (message matches Message::JRIP(path) ==> {
                &&& *final(self) == *old(self)
                &&& (has_file_name(path@) ==> (r matches Ok(a) && a matches Action::RunExtraction {
                    input,
                    output,
                } && input == path && output@ == spec_audio_output(path@)))
                &&& (!has_file_name(path@) ==> r == Err::<Action, PathError>(PathError::InvalidPath))
            }),
            (message matches Message::ClosePopup ==> {
                &&& final(self).popup is None
                &&& final(self).main_state == old(self).main_state
                &&& final(self).sidebar_state == old(self).sidebar_state
                &&& r == Ok::<Action, PathError>(Action::Idle)
            }),
            (message matches Message::ShowSidebar(path) ==> {
                &&& final(self).sidebar_state.sidebar_dir == Some(path)
                &&& final(self).sidebar_state.sidebar_files == old(self).sidebar_state.sidebar_files
                &&& final(self).main_state == old(self).main_state
                &&& final(self).popup == old(self).popup
                &&& (r matches Ok(a) && a matches Action::RefreshSidebar(q) && q == path)
            }),
            (message matches Message::CloseSidebar ==> {
                &&& final(self).sidebar_state.sidebar_dir is None
                &&& final(self).sidebar_state.sidebar_files@.len() == 0
                &&& final(self).main_state == old(self).main_state
                &&& final(self).popup == old(self).popup
                &&& r == Ok::<Action, PathError>(Action::Idle)
            }),
    {
        match message {
            Message::Exit => Ok(Action::Exit),
            Message::CD(path) => {
                let refresh = path.clone();
                self.main_state.set_current_dir(path);
                Ok(Action::RefreshMain(refresh))
            },
            Message::JRIP(path) => {
                match derive_audio_output(path.as_str()) {
                    Ok(output) => Ok(Action::RunExtraction { input: path, output }),
                    Err(e) => Err(e),
                }
            },
            Message::ClosePopup => {
                self.popup = None;
                Ok(Action::Idle)
            },
            Message::ShowSidebar(path) => {
                let refresh = path.clone();
                self.sidebar_state.set_sidebar_dir(Some(path));
                Ok(Action::RefreshSidebar(refresh))
            },
            Message::CloseSidebar => {
                self.sidebar_state.set_sidebar_dir(None);
                self.sidebar_state.set_sidebar_files(Vec::new());
                Ok(Action::Idle)
            },
        }
    }

    /// Records what became of one extraction the shell ran: a fixed status
    /// message on a reported exit status, no change at all when the tool
    /// could not be started.
    pub fn apply_extraction_outcome(&mut self, outcome: Option<bool>)
        ensures
            final(self).main_state == old(self).main_state,
            final(self).sidebar_state == old(self).sidebar_state,
            old(self).wf() ==> final(self).wf(),
            (match outcome {
                Some(true) => popup_is(final(self).popup, spec_success_message()),
                Some(false) => popup_is(final(self).popup, spec_failure_message()),
                None => final(self).popup == old(self).popup,
            }),
    {
        match outcome {
            Some(true) => {
                self.popup = Some(success_message());
            },
            Some(false) => {
                self.popup = Some(failure_message());
            },
            None => {},
        }
    }
}

} // verus!
