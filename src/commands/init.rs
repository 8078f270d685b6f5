//! Creating a repository.
use vstd::prelude::*;
use crate::error;
use crate::repo::create::{layout_dirs, layout_files, Layout};
use crate::repo::path::Entry;
use crate::repo::{lit_dir_of, Repo, CONFIG};

verus! {

/// Create an empty repository or reinitialize an existing one.
pub struct Init {
    /// Initialize even where the directory is not empty.
    pub force: bool,
    /// The directory of the repository.
    pub path: String,
}

impl Init {
    /// Creates the repository that `self` asks for, given what is found at its path
    /// (`target`) and, for a directory, whether it is `empty`; see `Repo::create`.
    pub fn init(&self, target: Entry, empty: bool) -> (r: Result<(Repo, Layout), error::repo::Repo>)
        ensures
            target is File ==> (r matches Err(error::repo::Repo::NotDirectory(p)) && p@
                == self.path@),
            target is Dir && !empty && !self.force ==> (r matches Err(
                error::repo::Repo::NotEmpty(p),
            ) && p@ == self.path@),
            !(target is File) && !(target is Dir && !empty && !self.force) ==> (r matches Ok(
                (repo, layout),
            ) && repo.worktree@ == self.path@ && repo.lit_dir@ == lit_dir_of(self.path@)
                && (repo.conf matches Some(c) && c@ == CONFIG@) && layout.dirs@.map_values(
                |d: String| d@,
            ) == layout_dirs(self.path@) && layout.files@.map_values(
                |f: (String, String)| (f.0@, f.1@),
            ) == layout_files(self.path@)),
    {
        Repo::create(self, target, empty)
    }
}

} // verus!
