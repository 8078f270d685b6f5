use lit::error::repo::Repo as RepoError;
use lit::repo::path::{DirStep, Entry, Search};
use lit::repo::Repo;
use std::collections::HashMap;
use std::path::PathBuf;

fn expected_head() -> PathBuf {
    PathBuf::from(".lit")
        .join("refs")
        .join("remotes")
        .join("origin")
        .join("HEAD")
}

#[test]
pub fn test_repo_path() {
    let lit_dir = ".lit";
    let expect = PathBuf::from(".lit").join("a").join("b").join("c");

    let path = ["a", "b", "c"];
    let path = Repo::repo_path(lit_dir, &path).unwrap();

    assert_eq!(expect, PathBuf::from(path))
}

#[test]
pub fn test_repo_file() {
    let path = ["refs", "remotes", "origin", "HEAD"];
    let (step, file) = Repo::repo_file(".lit", &path, false, Entry::Dir).ok().unwrap();

    assert!(matches!(step, DirStep::Present(_)));
    assert_eq!(expected_head(), PathBuf::from(file.unwrap()));
}

#[test]
pub fn test_repo_file_with_mkdir() {
    let path = ["refs", "remotes", "origin", "HEAD"];
    let (step, file) = Repo::repo_file(".lit", &path, true, Entry::Missing).ok().unwrap();

    match step {
        DirStep::Create(dir) => assert_eq!(PathBuf::from(".lit/refs/remotes/origin"), PathBuf::from(dir)),
        _ => panic!("the parent directory is to be created"),
    }
    assert_eq!(expected_head(), PathBuf::from(file.unwrap()));
}

#[test]
pub fn test_repo_dir() {
    let path = ["refs", "remotes", "origin", "HEAD"];
    match Repo::repo_dir(".lit", &path, false, Entry::Dir).ok().unwrap() {
        DirStep::Present(p) => assert_eq!(expected_head(), PathBuf::from(p)),
        _ => panic!("the directory is there"),
    }
}

#[test]
pub fn test_repo_dir_with_mkdir() {
    let path = ["refs", "remotes", "origin", "HEAD"];
    match Repo::repo_dir(".lit", &path, true, Entry::Missing).ok().unwrap() {
        DirStep::Create(p) => assert_eq!(expected_head(), PathBuf::from(p)),
        _ => panic!("the directory is to be created"),
    }
}

#[test]
fn repo_dir_missing_without_mkdir_is_absent() {
    let r = Repo::repo_dir(".lit", &["refs"], false, Entry::Missing);
    assert!(matches!(r, Ok(DirStep::Absent)));
    let r = Repo::repo_file(".lit", &["refs", "HEAD"], false, Entry::Missing);
    assert!(matches!(r, Ok((DirStep::Absent, None))));
}

#[test]
fn repo_dir_on_a_file_is_not_a_directory() {
    match Repo::repo_dir(".lit", &["refs", "heads"], true, Entry::File) {
        Err(RepoError::NotDirectory(p)) => assert_eq!(".lit/refs/heads", p),
        _ => panic!("a file is not a directory"),
    }
    match Repo::repo_file(".lit", &["refs", "HEAD"], true, Entry::File) {
        Err(RepoError::NotDirectory(p)) => assert_eq!(".lit/refs", p),
        _ => panic!("a file is not a directory"),
    }
}

/// Runs the upward search over a tree given as (directory, parent, holds a metadata directory).
fn search(tree: &[(&str, &str, bool)], start: &str, required: bool) -> Result<Option<String>, RepoError> {
    let dirs: HashMap<&str, (&str, bool)> = tree.iter().map(|(d, p, m)| (*d, (*p, *m))).collect();
    let mut path = start.to_string();
    let mut steps = 0;
    loop {
        steps += 1;
        assert!(steps <= tree.len(), "the search must end");
        let (parent, meta) = dirs[path.as_str()];
        match Repo::repo_find(&path, parent, meta, required)? {
            Search::Here => return Ok(Some(path)),
            Search::Up(p) => path = p,
            Search::NotFound => return Ok(None),
        }
    }
}

fn tree() -> Vec<(&'static str, &'static str, bool)> {
    vec![
        ("/", "/", false),
        ("/a", "/", true),
        ("/a/b", "/a", false),
        ("/a/b/c", "/a/b", false),
        ("/x", "/", false),
        ("/x/y", "/x", false),
    ]
}

#[test]
fn search_finds_the_nearest_repository_above() {
    assert_eq!(Some("/a".to_string()), search(&tree(), "/a/b/c", true).ok().unwrap());
    assert_eq!(Some("/a".to_string()), search(&tree(), "/a", true).ok().unwrap());
}

#[test]
fn search_without_repository_fails_when_required() {
    assert!(matches!(search(&tree(), "/x/y", true), Err(RepoError::CannotFindLitRepo)));
}

#[test]
fn search_without_repository_is_absent_when_not_required() {
    assert!(matches!(search(&tree(), "/x/y", false), Ok(None)));
}

#[test]
fn search_stops_at_the_root() {
    assert!(matches!(Repo::repo_find("/", "/", false, false), Ok(Search::NotFound)));
    assert!(matches!(Repo::repo_find("/", "/", true, true), Ok(Search::Here)));
    match Repo::repo_find("/x/y", "/x", false, true) {
        Ok(Search::Up(p)) => assert_eq!("/x", p),
        _ => panic!("the search goes up"),
    }
}

#[test]
fn joining_does_not_double_a_separator() {
    assert_eq!(Some("/.lit".to_string()), Repo::repo_path("/", &[".lit"]));
    assert_eq!(Some("/tmp/r/.lit/objects".to_string()), Repo::repo_path("/tmp/r/", &[".lit", "objects"]));
    assert_eq!(Some("a/b".to_string()), Repo::repo_path("", &["a", "b"]));
    assert_eq!(PathBuf::from("/").join(".lit"), PathBuf::from(Repo::repo_path("/", &[".lit"]).unwrap()));
    let repo = Repo::new("/", true, Entry::Missing, None).ok().unwrap();
    assert_eq!("/.lit", repo.lit_dir);
}
