//! The failures of the store, as values handed back to the caller.
use vstd::prelude::*;

pub mod object;
pub mod repo;

verus! {

/// Any failure of the store.
pub enum Error {
    Repo(repo::Repo),
    Object(object::Object),
}

/// A failure that can be told to a person.
pub trait Log {
    /// The message.
    spec fn message(&self) -> Seq<char>;

    /// Writes the message.
    fn fmt(&self) -> (r: String)
        ensures
            r@ == self.message(),
    ;
}

impl Log for Error {
    open spec fn message(&self) -> Seq<char> {
        match self {
            Error::Repo(e) => e.message(),
            Error::Object(e) => e.message(),
        }
    }

    fn fmt(&self) -> (r: String) {
        match self {
            Error::Repo(e) => e.fmt(),
            Error::Object(e) => e.fmt(),
        }
    }
}

/// `before`, then `inner` between backquotes, then `after`.
pub open spec fn quoted(before: Seq<char>, inner: Seq<char>, after: Seq<char>) -> Seq<char> {
    before + "`"@ + inner + "`"@ + after
}

/// Writes `before`, then `inner` between backquotes, then `after`.
pub fn write_quoted(before: &str, inner: &str, after: &str) -> (r: String)
    ensures
        r@ == quoted(before@, inner@, after@),
{
    let mut s = String::from_str(before);
    s.append("`");
    s.append(inner);
    s.append("`");
    s.append(after);
    s
}

} // verus!
