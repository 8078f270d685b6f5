//! The commands of the store, as values.
use vstd::prelude::*;
use crate::cli::CommandLineParser;
use crate::commands::cat_file::CatFile;
use crate::commands::init::Init;

pub mod cat_file;
pub mod init;

verus! {

/// Compute an object's address and optionally store it, from a file.
pub struct HashObject {
    /// Write the object into the store.
    pub write: bool,
    /// The kind of the object.
    pub typ: String,
    /// The file to read.
    pub path: String,
}

/// A command to carry out.
pub enum Command {
    Init(Init),
    CatFile(CatFile),
    HashObject(HashObject),
}

/// The command that the parsed command line `args` asks for.
pub fn command(args: CommandLineParser) -> (r: Command)
    ensures
        ({
            match (args, r) {
                (CommandLineParser::Init { force, path }, Command::Init(c)) => c.force == force
                    && c.path == path,
                (CommandLineParser::CatFile { typ, object }, Command::CatFile(c)) => c.typ == typ
                    && c.object == object,
                (
                    CommandLineParser::HashObject { write, typ, path },
                    Command::HashObject(c),
                ) => c.write == write && c.typ == typ && c.path == path,
                _ => false,
            }
        }),
{
    match args {
        CommandLineParser::Init { force, path } => Command::Init(Init { force, path }),
        CommandLineParser::CatFile { typ, object } => Command::CatFile(CatFile { typ, object }),
        CommandLineParser::HashObject { write, typ, path } => Command::HashObject(
            HashObject { write, typ, path },
        ),
    }
}

} // verus!
