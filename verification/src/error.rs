//! What can go wrong, as values that callers can match on.

use vstd::prelude::*;

verus! {

/// The failures that the library reports.
#[derive(Debug, Clone, PartialEq, Eq)]
pub enum Error {
    /// The text is no URL, or a URL that names no file.
    InvalidUrl { url: String },
    /// The text names no CMake generator.
    UnsupportedGenerator { generator: String },
    /// The text names no CMake build type.
    UnsupportedBuildType { build_type: String },
    /// An entry is declared wrongly, or none answers to the name.
    InvalidEntry { name: String, message: String },
    /// The server answered a download with a status outside 200 to 299.
    HttpError { url: String, status: u16 },
    /// A command ended with a status other than zero, or was killed.
    CommandError { command: String, exit_status: Option<i32> },
    /// Something other than a directory stands where a directory is needed.
    NotADirectory { path: String },
    /// The file that declares the entries is there already.
    ConfigureAlreadyExists { path: String },
    /// The platform names no directory for configuration, cache or data.
    UnsupportedOS,
}

/// An `Error` with its texts as sequences of characters.
pub enum ErrorView {
    InvalidUrl { url: Seq<char> },
    UnsupportedGenerator { generator: Seq<char> },
    UnsupportedBuildType { build_type: Seq<char> },
    InvalidEntry { name: Seq<char>, message: Seq<char> },
    HttpError { url: Seq<char>, status: u16 },
    CommandError { command: Seq<char>, exit_status: Option<i32> },
    NotADirectory { path: Seq<char> },
    ConfigureAlreadyExists { path: Seq<char> },
    UnsupportedOS,
}

impl View for Error {
    type V = ErrorView;

    open spec fn view(&self) -> ErrorView {
        match *self {
            Error::InvalidUrl { url } => ErrorView::InvalidUrl { url: url@ },
            Error::UnsupportedGenerator { generator } => ErrorView::UnsupportedGenerator {
                generator: generator@,
            },
            Error::UnsupportedBuildType { build_type } => ErrorView::UnsupportedBuildType {
                build_type: build_type@,
            },
            Error::InvalidEntry { name, message } => ErrorView::InvalidEntry {
                name: name@,
                message: message@,
            },
            Error::HttpError { url, status } => ErrorView::HttpError { url: url@, status },
            Error::CommandError { command, exit_status } => ErrorView::CommandError {
                command: command@,
                exit_status,
            },
            Error::NotADirectory { path } => ErrorView::NotADirectory { path: path@ },
            Error::ConfigureAlreadyExists { path } => ErrorView::ConfigureAlreadyExists {
                path: path@,
            },
            Error::UnsupportedOS => ErrorView::UnsupportedOS,
        }
    }
}

/// A result with both sides taken by their views.
pub open spec fn result_view<T: View, E: View>(r: Result<T, E>) -> Result<T::V, E::V> {
    match r {
        Ok(t) => Ok(t@),
        Err(e) => Err(e@),
    }
}

} // verus!
