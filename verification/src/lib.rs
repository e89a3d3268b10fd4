//! Parsing and linting of POSIX makefiles.

pub mod ast;
pub mod diagnostic;
pub mod grammar;
pub mod inspect;
pub mod lines;
pub mod locate;
pub mod parser;
pub mod pattern;
pub mod scan;
pub mod text;
pub mod token;
pub mod warnings;
