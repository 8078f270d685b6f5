//! Paths under the metadata directory, and the upward search for a repository.
use vstd::prelude::*;
use crate::error;
use crate::repo::Repo;
use crate::text::{join, join_path, same_text, views};

verus! {

/// What a path names on disk.
pub enum Entry {
    Missing,
    File,
    Dir,
}

/// What becomes of a directory that was asked for.
pub enum DirStep {
    /// It is there.
    Present(String),
    /// It is missing and is to be created, with its missing ancestors.
    Create(String),
    /// It is missing and was not to be created.
    Absent,
}

/// One step of the upward search.
pub enum Search {
    /// The directory searched holds the metadata directory.
    Here,
    /// Search on in this parent directory.
    Up(String),
    /// The filesystem root was searched in vain and the repository was not required.
    NotFound,
}

impl Repo {
    /// The path of `path` under the metadata directory `lit_dir`.
    pub fn repo_path(lit_dir: &str, path: &[&str]) -> (r: Option<String>)
        ensures
            r matches Some(p) && p@ == join(lit_dir@, views(path@)),
    {
        Some(join_path(lit_dir, path))
    }

    /// The directory `path` under `lit_dir`, given what is `found` there: a file there is
    /// an error; a missing one is created where `mkdir` asks for it, and is absent otherwise.
    pub fn repo_dir(lit_dir: &str, path: &[&str], mkdir: bool, found: Entry) -> (r: Result<
        DirStep,
        error::repo::Repo,
    >)
        ensures
            found is Dir ==> (r matches Ok(DirStep::Present(p)) && p@ == join(
                lit_dir@,
                views(path@),
            )),
            found is File ==> (r matches Err(error::repo::Repo::NotDirectory(p)) && p@ == join(
                lit_dir@,
                views(path@),
            )),
            found is Missing && mkdir ==> (r matches Ok(DirStep::Create(p)) && p@ == join(
                lit_dir@,
                views(path@),
            )),
            found is Missing && !mkdir ==> (r matches Ok(DirStep::Absent)),
    {
        let p = join_path(lit_dir, path);
        match found {
            Entry::Dir => Ok(DirStep::Present(p)),
            Entry::File => Err(error::repo::Repo::NotDirectory(p)),
            Entry::Missing => {
                if mkdir {
                    Ok(DirStep::Create(p))
                } else {
                    Ok(DirStep::Absent)
                }
            },
        }
    }

    /// The file `path` under `lit_dir`, given what is found at its parent directory: the
    /// parent is treated as `repo_dir` treats it, and the file's path comes with it unless
    /// the parent is absent.
    pub fn repo_file(lit_dir: &str, path: &[&str], mkdir: bool, parent: Entry) -> (r: Result<
        (DirStep, Option<String>),
        error::repo::Repo,
    >)
        requires
            path@.len() >= 1,
        ensures
            ({
                let dir = join(lit_dir@, views(path@.drop_last()));
                let file = join(lit_dir@, views(path@));
                &&& parent is Dir ==> (r matches Ok((DirStep::Present(p), Some(f))) && p@ == dir
                    && f@ == file)
                &&& parent is File ==> (r matches Err(error::repo::Repo::NotDirectory(p)) && p@
                    == dir)
                &&& parent is Missing && mkdir ==> (r matches Ok((DirStep::Create(p), Some(f)))
                    && p@ == dir && f@ == file)
                &&& parent is Missing && !mkdir ==> (r matches Ok((DirStep::Absent, None)))
            }),
    {
        let n = path.len();
        let head = &path[0..n - 1];
        assert(head@ =~= path@.drop_last());
        match Self::repo_dir(lit_dir, head, mkdir, parent) {
            Ok(DirStep::Absent) => Ok((DirStep::Absent, None)),
            Ok(step) => Ok((step, Some(join_path(lit_dir, path)))),
            Err(e) => Err(e),
        }
    }

    /// One step of the search for the repository that holds the directory `path`:
    /// `has_lit_dir` tells whether `path` holds a metadata directory, and `parent` is the
    /// canonical form of `path/..`. The search ends at the first directory that holds
    /// one, or at the filesystem root, the one directory that is its own parent.
    pub fn repo_find(path: &str, parent: &str, has_lit_dir: bool, required: bool) -> (r: Result<
        Search,
        error::repo::Repo,
    >)
        ensures
            has_lit_dir ==> (r matches Ok(Search::Here)),
            !has_lit_dir && parent@ == path@ && required ==> (r matches Err(
                error::repo::Repo::CannotFindLitRepo,
            )),
            !has_lit_dir && parent@ == path@ && !required ==> (r matches Ok(Search::NotFound)),
            !has_lit_dir && parent@ != path@ ==> (r matches Ok(Search::Up(p)) && p@ == parent@),
    {
        if has_lit_dir {
            Ok(Search::Here)
        } else if same_text(parent, path) {
            if required {
                Err(error::repo::Repo::CannotFindLitRepo)
            } else {
                Ok(Search::NotFound)
            }
        } else {
            Ok(Search::Up(String::from_str(parent)))
        }
    }
}

} // verus!
