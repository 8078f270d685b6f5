//! The layout of a new repository.
use vstd::prelude::*;
use crate::commands::init::Init;
use crate::error;
use crate::repo::path::Entry;
use crate::repo::{lit_dir_of, Repo, CONFIG, DESCRIPTION, HEAD, LIT_DIR};
use crate::text::{join, join_one, lemma_join_push};

verus! {

/// The directories and files that make a new repository.
pub struct Layout {
    /// Directories to create, with their missing ancestors.
    pub dirs: Vec<String>,
    /// Files to write: each path with its text.
    pub files: Vec<(String, String)>,
}

/// The directories of a new repository at `worktree`.
pub open spec fn layout_dirs(worktree: Seq<char>) -> Seq<Seq<char>> {
    let lit = lit_dir_of(worktree);
    seq![
        join(lit, seq!["objects"@]),
        join(lit, seq!["refs"@, "heads"@]),
        join(lit, seq!["refs"@, "tags"@]),
    ]
}

/// The files of a new repository at `worktree`, with their texts.
pub open spec fn layout_files(worktree: Seq<char>) -> Seq<(Seq<char>, Seq<char>)> {
    let lit = lit_dir_of(worktree);
    seq![
        (join(lit, seq!["description"@]), DESCRIPTION@),
        (join(lit, seq!["HEAD"@]), HEAD@),
        (join(lit, seq!["config"@]), CONFIG@),
    ]
}

/// Joins two components onto `base`.
fn join_two(base: &str, a: &str, b: &str) -> (r: String)
    ensures
        r@ == join(base@, seq![a@, b@]),
{
    let first = join_one(base, a);
    let r = join_one(first.as_str(), b);
    proof {
        lemma_join_push(base@, seq![a@], b@);
        assert(seq![a@].push(b@) =~= seq![a@, b@]);
    }
    r
}

impl Repo {
    /// A new repository as `init` asks for it, given what is found at its path
    /// (`target`) and, for a directory, whether it is `empty`. A file there fails with
    /// `NotDirectory`; a directory that is not empty fails with `NotEmpty` unless
    /// `init.force`. Otherwise the handle comes with the directories and files to make;
    /// nothing already there is to be removed.
    pub fn create(init: &Init, target: Entry, empty: bool) -> (r: Result<(Repo, Layout), error::repo::Repo>)
        ensures
            target is File ==> (r matches Err(error::repo::Repo::NotDirectory(p)) && p@
                == init.path@),
            target is Dir && !empty && !init.force ==> (r matches Err(
                error::repo::Repo::NotEmpty(p),
            ) && p@ == init.path@),
            !(target is File) && !(target is Dir && !empty && !init.force) ==> (r matches Ok(
                (repo, layout),
            ) && repo.worktree@ == init.path@ && repo.lit_dir@ == lit_dir_of(init.path@)
                && (repo.conf matches Some(c) && c@ == CONFIG@) && layout.dirs@.map_values(
                |d: String| d@,
            ) == layout_dirs(init.path@) && layout.files@.map_values(
                |f: (String, String)| (f.0@, f.1@),
            ) == layout_files(init.path@)),
    {
        match target {
            Entry::File => {
                return Err(error::repo::Repo::NotDirectory(init.path.clone()));
            },
            Entry::Dir => {
                if !empty && !init.force {
                    return Err(error::repo::Repo::NotEmpty(init.path.clone()));
                }
            },
            Entry::Missing => {},
        }
        let lit_dir = join_one(init.path.as_str(), LIT_DIR);
        let lit = lit_dir.as_str();
        let mut dirs: Vec<String> = Vec::new();
        dirs.push(join_one(lit, "objects"));
        dirs.push(join_two(lit, "refs", "heads"));
        dirs.push(join_two(lit, "refs", "tags"));
        let mut files: Vec<(String, String)> = Vec::new();
        files.push((join_one(lit, "description"), String::from_str(DESCRIPTION)));
        files.push((join_one(lit, "HEAD"), String::from_str(HEAD)));
        files.push((join_one(lit, "config"), String::from_str(CONFIG)));
        let repo = Repo {
            worktree: init.path.clone(),
            lit_dir,
            conf: Some(String::from_str(CONFIG)),
        };
        let layout = Layout { dirs, files };
        assert(layout.dirs@.map_values(|d: String| d@) =~= layout_dirs(init.path@));
        assert(layout.files@.map_values(|f: (String, String)| (f.0@, f.1@)) =~= layout_files(
            init.path@,
        ));
        Ok((repo, layout))
    }
}

} // verus!
