//! The command line, as a value.

pub mod command_line_parser;

pub use command_line_parser::CommandLineParser;
