//! The primary pane: the directory on view and its filtered listing.

use crate::listing::DirEntry;
use vstd::prelude::*;

verus! {

/// The primary pane's state. The listing is whatever the shell last set for
/// the directory; when the filesystem changes afterwards it stays stale
/// until the user navigates again.
#[derive(Debug, Clone)]
pub struct MainState {
    pub current_dir: String,
    pub current_files: Vec<DirEntry>,
}

impl MainState {
    /// Creates the pane showing `current_dir` with `current_files`, which
    /// the caller obtains by listing that directory.
    pub fn new(current_dir: String, current_files: Vec<DirEntry>) -> (r: MainState)
        ensures
            r.current_dir == current_dir,
            r.current_files == current_files,
    {
        MainState { current_dir, current_files }
    }

    pub fn current_dir(&self) -> (r: &String)
        ensures
            r == &self.current_dir,
    {
        &self.current_dir
    }

    pub fn current_files(&self) -> (r: &Vec<DirEntry>)
        ensures
            r == &self.current_files,
    {
        &self.current_files
    }

    pub fn set_current_dir(&mut self, current_dir: String)
        ensures
            final(self).current_dir == current_dir,
            final(self).current_files == old(self).current_files,
    {
        self.current_dir = current_dir;
    }

    pub fn set_current_files(&mut self, current_files: Vec<DirEntry>)
        ensures
            final(self).current_dir == old(self).current_dir,
            final(self).current_files == current_files,
    {
        self.current_files = current_files;
    }
}

} // verus!
