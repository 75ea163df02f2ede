//! Where the tool keeps its files: one directory each for configuration,
//! cache and data, under the roots that the platform names.

use vstd::prelude::*;
use crate::error::{Error, ErrorView};
use crate::text::opt_view;

verus! {

/// The name of the tool's own directory under each root.
pub const APP_NAME: &'static str = "cargo-llvm";

/// The name of the file that declares the entries.
pub const ENTRY_TOML: &'static str = "entry.toml";

/// What `std::path::Path::join` gives for `base` and `child` on the platform
/// that the library is built for.
pub uninterp spec fn path_join(base: Seq<char>, child: Seq<char>) -> Seq<char>;

/// Joins two paths with `std::path::Path::join`. The result is that
/// function's, written back as text.
#[verifier::external_body]
pub(crate) fn join_path(base: &str, child: &str) -> (path: String)
    ensures
        path@ == path_join(base@, child@),
{
    std::path::Path::new(base).join(child).to_string_lossy().into_owned()
}

/// The user's configuration root, from `dirs::config_dir`. It depends on the
/// platform and the environment, so nothing is claimed of it; a root that is
/// not Unicode counts as none.
#[verifier::external_body]
pub(crate) fn platform_config_dir() -> (root: Option<String>) {
    dirs::config_dir().and_then(|p| p.into_os_string().into_string().ok())
}

/// The user's cache root, from `dirs::cache_dir`. It depends on the platform
/// and the environment, so nothing is claimed of it; a root that is not
/// Unicode counts as none.
#[verifier::external_body]
pub(crate) fn platform_cache_dir() -> (root: Option<String>) {
    dirs::cache_dir().and_then(|p| p.into_os_string().into_string().ok())
}

/// The user's data root, from `dirs::data_dir`. It depends on the platform
/// and the environment, so nothing is claimed of it; a root that is not
/// Unicode counts as none.
#[verifier::external_body]
pub(crate) fn platform_data_dir() -> (root: Option<String>) {
    dirs::data_dir().and_then(|p| p.into_os_string().into_string().ok())
}

/// The tool's directory under a root: the root joined with the tool's name,
/// and a failure where the platform names no root.
pub open spec fn app_dir_spec(root: Option<Seq<char>>) -> Result<Seq<char>, ErrorView> {
    match root {
        Some(r) => Ok(path_join(r, APP_NAME@)),
        None => Err(ErrorView::UnsupportedOS),
    }
}

/// A path or an error, both as sequences of characters.
pub open spec fn path_result_view(r: Result<String, Error>) -> Result<Seq<char>, ErrorView> {
    match r {
        Ok(path) => Ok(path@),
        Err(e) => Err(e@),
    }
}

/// The tool's directory under `root`.
pub fn app_dir(root: Option<String>) -> (dir: Result<String, Error>)
    ensures
        path_result_view(dir) == app_dir_spec(opt_view(root)),
{
    match root {
        Some(r) => Ok(join_path(r.as_str(), APP_NAME)),
        None => Err(Error::UnsupportedOS),
    }
}

/// The directory that holds the tool's configuration. It fails only where
/// the platform names no configuration root.
pub fn config_dir() -> (dir: Result<String, Error>)
    ensures
        exists|root: Option<Seq<char>>| path_result_view(dir) == #[trigger] app_dir_spec(root),
{
    let root = platform_config_dir();
    let ghost seen = opt_view(root);
    let dir = app_dir(root);
    assert(path_result_view(dir) == app_dir_spec(seen));
    dir
}

/// The directory that holds fetched sources and downloaded archives. It
/// fails only where the platform names no cache root.
pub fn cache_dir() -> (dir: Result<String, Error>)
    ensures
        exists|root: Option<Seq<char>>| path_result_view(dir) == #[trigger] app_dir_spec(root),
{
    let root = platform_cache_dir();
    let ghost seen = opt_view(root);
    let dir = app_dir(root);
    assert(path_result_view(dir) == app_dir_spec(seen));
    dir
}

/// The directory that holds the installed builds. It fails only where the
/// platform names no data root.
pub fn data_dir() -> (dir: Result<String, Error>)
    ensures
        exists|root: Option<Seq<char>>| path_result_view(dir) == #[trigger] app_dir_spec(root),
{
    let root = platform_data_dir();
    let ghost seen = opt_view(root);
    let dir = app_dir(root);
    assert(path_result_view(dir) == app_dir_spec(seen));
    dir
}

/// The file that declares the entries, in the configuration directory.
pub fn entry_file(config_dir: &str) -> (path: String)
    ensures
        path@ == path_join(config_dir@, ENTRY_TOML@),
{
    join_path(config_dir, ENTRY_TOML)
}

/// The file to start the configuration with: the entries' file, to be made
/// empty, unless it is there already.
pub open spec fn init_config_spec(config_dir: Seq<char>, exists: bool) -> Result<Seq<char>, ErrorView> {
    if exists {
        Err(ErrorView::ConfigureAlreadyExists { path: path_join(config_dir, ENTRY_TOML@) })
    } else {
        Ok(path_join(config_dir, ENTRY_TOML@))
    }
}

/// Starts the configuration in `config_dir`: gives the path of the entries'
/// file for the caller to make, empty. `exists` says whether the file is
/// there already; one that is there is left alone and reported.
pub fn init_config(config_dir: &str, exists: bool) -> (file: Result<String, Error>)
    ensures
        path_result_view(file) == init_config_spec(config_dir@, exists),
{
    let path = entry_file(config_dir);
    if exists {
        Err(Error::ConfigureAlreadyExists { path })
    } else {
        Ok(path)
    }
}

} // verus!
