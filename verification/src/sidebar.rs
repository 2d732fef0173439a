//! The sidebar: an optional, independently navigable directory view.

use crate::listing::DirEntry;
use vstd::prelude::*;

verus! {

/// The sidebar's state. The directory is optional: a closed sidebar shows
/// nothing, and its listing is then empty.
#[derive(Debug)]
pub struct SidebarState {
    pub sidebar_dir: Option<String>,
    pub sidebar_files: Vec<DirEntry>,
}

impl SidebarState {
    /// Well-formed: a listing is shown only while a directory is open.
    pub open spec fn wf(&self) -> bool {
        self.sidebar_dir is None ==> self.sidebar_files@.len() == 0
    }

    /// Creates the sidebar showing `sidebar_dir` with `sidebar_files`, which
    /// the caller obtains by listing that directory; or a closed sidebar,
    /// whose listing must be empty.
    pub fn new(sidebar_dir: Option<String>, sidebar_files: Vec<DirEntry>) -> (r: SidebarState)
        requires
            sidebar_dir is None ==> sidebar_files@.len() == 0,
        ensures
            r.sidebar_dir == sidebar_dir,
            r.sidebar_files == sidebar_files,
            r.wf(),
    {
        SidebarState { sidebar_dir, sidebar_files }
    }

    pub fn sidebar_dir(&self) -> (r: &Option<String>)
        ensures
            r == &self.sidebar_dir,
    {
        &self.sidebar_dir
    }

    pub fn sidebar_files(&self) -> (r: &Vec<DirEntry>)
        ensures
            r == &self.sidebar_files,
    {
        &self.sidebar_files
    }

    pub fn set_sidebar_dir(&mut self, path: Option<String>)
        ensures
            final(self).sidebar_dir == path,
            final(self).sidebar_files == old(self).sidebar_files,
    {
        self.sidebar_dir = path;
    }

    pub fn set_sidebar_files(&mut self, files: Vec<DirEntry>)
        ensures
            final(self).sidebar_dir == old(self).sidebar_dir,
            final(self).sidebar_files == files,
    {
        self.sidebar_files = files;
    }
}

} // verus!
