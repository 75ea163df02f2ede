//! Managing several builds of LLVM/Clang: what is decided between reading
//! the entries and running the tools.
//!
//! An entry names a source, remote or local, and says how to build it. The
//! library tells from a URL how a remote source is fetched, plans the fetch,
//! finds the entry that a name or a version requirement asks for, and writes
//! the command lines that configure and build an entry. It runs nothing and
//! touches no file itself: it plans, and its caller carries the plans out and
//! reports back what it found.
//!
//! Every function is verified against a contract over sequences of
//! characters. What other crates compute (parsing a URL, matching a version
//! requirement, joining paths, expanding `~` and variables) enters through a
//! few functions whose contracts are taken on trust; these are marked as such
//! where they are written.

pub mod archive;
pub mod command;
pub mod commands;
pub mod config;
pub mod entry;
pub mod error;
pub mod generator;
pub mod options;
pub mod resource;
pub mod text;
pub mod version;
pub mod weburl;
