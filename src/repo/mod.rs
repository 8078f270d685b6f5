//! The repository handle: its worktree, its metadata directory and its configuration.
use vstd::prelude::*;
use crate::error;
use crate::repo::path::Entry;
use crate::text::{join, join_one, same_text};

pub mod create;
pub mod path;

verus! {

/// The name of the metadata directory under the worktree.
pub const LIT_DIR: &'static str = ".lit";

/// The one repository format version that the store supports.
pub const FORMAT_VERSION: &'static str = "0";

/// The text of a new repository's `description` file.
pub const DESCRIPTION: &'static str = "Unnamed repository; edit this file 'description' to name the repository.\n";

/// The text of a new repository's `HEAD` file: a reference to the default branch.
pub const HEAD: &'static str = "ref: refs/heads/master\n";

/// The text of a new repository's configuration file.
pub const CONFIG: &'static str = "[core]\nrepositoryformatversion=0\nfilemode=false\nbare=false\n";

/// The value that rust-ini reads for `key` in section `section` of the configuration
/// text `text`, or `None` where the text does not parse or has no such entry.
pub uninterp spec fn ini_entry(text: Seq<char>, section: Seq<char>, key: Seq<char>) -> Option<Seq<char>>;

/// Relies on `ini::Ini::load_from_str` and `Ini::get_from`: the value of `key` in
/// section `section` of the configuration text `text`.
#[verifier::external_body]
fn config_entry(text: &str, section: &str, key: &str) -> (r: Option<String>)
    ensures
        r matches Some(v) ==> ini_entry(text@, section@, key@) == Some(v@),
        r is None ==> ini_entry(text@, section@, key@) is None,
{
    let conf = ini::Ini::load_from_str(text).ok()?;
    conf.get_from(Some(section), key).map(|v| v.to_string())
}

/// The metadata directory of the worktree `worktree`.
pub open spec fn lit_dir_of(worktree: Seq<char>) -> Seq<char> {
    join(worktree, seq![LIT_DIR@])
}

/// The configuration file under the metadata directory `lit_dir`.
pub open spec fn config_file_of(lit_dir: Seq<char>) -> Seq<char> {
    join(lit_dir, seq!["config"@])
}

/// The format version that the configuration text `conf` names, empty where it names none.
pub open spec fn format_version(conf: Seq<char>) -> Seq<char> {
    match ini_entry(conf, "core"@, "repositoryformatversion"@) {
        Some(v) => v,
        None => Seq::empty(),
    }
}

/// Whether a repository whose metadata directory is `lit_dir` is opened: where the
/// directory is there, or is missing and `force` asks to go on without it.
pub open spec fn opens(lit_dir: Entry, force: bool) -> bool {
    lit_dir is Dir || (lit_dir is Missing && force)
}

/// One store instance.
pub struct Repo {
    /// The user-facing root directory.
    pub worktree: String,
    /// The metadata directory: the worktree joined with `LIT_DIR`.
    pub lit_dir: String,
    /// The configuration text, absent while the repository is being created.
    pub conf: Option<String>,
}

impl Repo {
    /// The handle of the repository at `path`. `lit_dir` is what is found at its metadata
    /// directory, and `config` holds the text of its configuration file where there is
    /// one. A file where the metadata directory belongs fails with `NotDirectory`. With
    /// `force` (a repository being created) neither the directory nor the configuration
    /// needs to be there.
    pub fn new(path: &str, force: bool, lit_dir: Entry, config: Option<String>) -> (r: Result<
        Self,
        error::repo::Repo,
    >)
        ensures
            lit_dir is File ==> (r matches Err(error::repo::Repo::NotDirectory(d)) && d@
                == lit_dir_of(path@)),
            lit_dir is Missing && !force ==> (r matches Err(error::repo::Repo::NotLitRepo(d)) && d@
                == lit_dir_of(path@)),
            opens(lit_dir, force) && config is None && !force ==> (r matches Err(
                error::repo::Repo::MissingConfigFile(f),
            ) && f@ == config_file_of(lit_dir_of(path@))),
            opens(lit_dir, force) && config is None && force ==> (r matches Ok(repo)
                && repo.conf is None),
            opens(lit_dir, force) ==> (config matches Some(t) ==> (format_version(t@)
                == FORMAT_VERSION@ <==> r is Ok)),
            opens(lit_dir, force) ==> (config matches Some(t) ==> (r matches Err(e) ==> (
            e matches error::repo::Repo::UnsupportedRepositoryFormatVersion(v) && v@
                == format_version(t@)))),
            r matches Ok(repo) ==> repo.worktree@ == path@ && repo.lit_dir@ == lit_dir_of(path@)
                && (match (repo.conf, config) {
                (Some(a), Some(b)) => a@ == b@,
                (None, None) => true,
                _ => false,
            }),
    {
        let worktree = String::from_str(path);
        let lit = join_one(path, LIT_DIR);
        match lit_dir {
            Entry::File => {
                return Err(error::repo::Repo::NotDirectory(lit));
            },
            Entry::Missing => {
                if !force {
                    return Err(error::repo::Repo::NotLitRepo(lit));
                }
            },
            Entry::Dir => {},
        }
        match config {
            Some(conf) => {
                match Self::check_repositoryformatversion(&conf) {
                    Ok(()) => Ok(Repo { worktree, lit_dir: lit, conf: Some(conf) }),
                    Err(e) => Err(e),
                }
            },
            None => {
                if force {
                    Ok(Repo { worktree, lit_dir: lit, conf: None })
                } else {
                    Err(error::repo::Repo::MissingConfigFile(join_one(lit.as_str(), "config")))
                }
            },
        }
    }

    /// Accepts the configuration text `conf` only where it names the supported format version.
    pub fn check_repositoryformatversion(conf: &String) -> (r: Result<(), error::repo::Repo>)
        ensures
            r is Ok <==> format_version(conf@) == FORMAT_VERSION@,
            r matches Err(e) ==> (e matches error::repo::Repo::UnsupportedRepositoryFormatVersion(v)
                && v@ == format_version(conf@)),
    {
        let version = match config_entry(conf.as_str(), "core", "repositoryformatversion") {
            Some(v) => v,
            None => String::new(),
        };
        if same_text(version.as_str(), FORMAT_VERSION) {
            Ok(())
        } else {
            Err(error::repo::Repo::UnsupportedRepositoryFormatVersion(version))
        }
    }

    /// The value of `key` in section `section` of the configuration, if any.
    pub fn config_value(&self, section: &str, key: &str) -> (r: Option<String>)
        ensures
            self.conf is None ==> r is None,
            self.conf matches Some(t) ==> (r matches Some(v) ==> ini_entry(t@, section@, key@)
                == Some(v@)) && (r is None ==> ini_entry(t@, section@, key@) is None),
    {
        match &self.conf {
            Some(t) => config_entry(t.as_str(), section, key),
            None => None,
        }
    }
}

} // verus!
