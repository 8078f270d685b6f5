//! The arguments of each command.
use vstd::prelude::*;

verus! {

/// The commands that the command line can ask for.
pub enum CommandLineParser {
    /// Create an empty repository or reinitialize an existing one.
    Init {
        /// Force initialization.
        force: bool,
        /// The repository path.
        path: String,
    },
    /// Provide contents or details of repository objects.
    CatFile {
        /// The kind (blob | commit | tag | tree).
        typ: String,
        /// The object to display.
        object: String,
    },
    /// Compute an object's address and optionally store it, from a file.
    HashObject {
        /// Write the object into the store.
        write: bool,
        /// The kind (blob | commit | tag | tree).
        typ: String,
        /// The file to read.
        path: String,
    },
}

} // verus!
