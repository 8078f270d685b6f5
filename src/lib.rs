//! A small content-addressable object store: objects are framed, named by the
//! SHA-1 digest of their frame, compressed and kept under a metadata directory
//! that is found by walking up from a working directory.

pub mod cli;
pub mod commands;
pub mod error;
pub mod object;
pub mod repo;
pub mod text;
