//! Dynamic command dispatch: declarative `name:path[:description]` mappings
//! become a command-line interface whose subcommands hand control to the
//! executables they are bound to.

pub mod dispatch;
pub mod grammar;
pub mod mapping;
pub mod matching;
pub mod scripts;
pub mod text;
