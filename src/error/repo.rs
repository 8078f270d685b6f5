//! Failures met while creating, opening or finding a repository.
use vstd::prelude::*;
use crate::error::{quoted, write_quoted, Log};

verus! {

/// Why a repository could not be created, opened or found.
pub enum Repo {
    /// The metadata directory is missing at the given path.
    NotLitRepo(String),
    /// The search reached the filesystem root without finding a metadata directory.
    CannotFindLitRepo,
    /// A directory was expected at the path and something else is there.
    NotDirectory(String),
    /// The directory to create a repository in is not empty.
    NotEmpty(String),
    /// The configuration file at the path is missing.
    MissingConfigFile(String),
    /// The configuration names a format version other than the supported one; holds
    /// that version, empty where there is none.
    UnsupportedRepositoryFormatVersion(String),
}

impl Log for Repo {
    open spec fn message(&self) -> Seq<char> {
        match self {
            Repo::NotLitRepo(dir) => quoted(""@, dir@, " is not a lit repository"@),
            Repo::CannotFindLitRepo => "Cannot find lit repository at current path"@,
            Repo::NotDirectory(dir) => quoted(""@, dir@, " is not a directory"@),
            Repo::NotEmpty(dir) => quoted("The directory "@, dir@, " is not empty"@),
            Repo::MissingConfigFile(file) => quoted("Missing configuration file "@, file@, ""@),
            Repo::UnsupportedRepositoryFormatVersion(version) => quoted(
                "Unsupported repositoryformatversion "@,
                version@,
                ""@,
            ),
        }
    }

    fn fmt(&self) -> (r: String) {
        match self {
            Repo::NotLitRepo(dir) => write_quoted("", dir.as_str(), " is not a lit repository"),
            Repo::CannotFindLitRepo => String::from_str("Cannot find lit repository at current path"),
            Repo::NotDirectory(dir) => write_quoted("", dir.as_str(), " is not a directory"),
            Repo::NotEmpty(dir) => write_quoted("The directory ", dir.as_str(), " is not empty"),
            Repo::MissingConfigFile(file) => write_quoted(
                "Missing configuration file ",
                file.as_str(),
                "",
            ),
            Repo::UnsupportedRepositoryFormatVersion(version) => write_quoted(
                "Unsupported repositoryformatversion ",
                version.as_str(),
                "",
            ),
        }
    }
}

} // verus!
