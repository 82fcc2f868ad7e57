//! Where the tool keeps its files: the configuration and the stored tokens
//! live in the per-user data directory of the project, or in the current
//! directory when the system names no home.

use vstd::prelude::*;

use directories::ProjectDirs;
use std::path::PathBuf;
use vstd::utf8::encode_utf8;

verus! {

/// `std::path::PathBuf`, carried through as an opaque value.
#[verifier::external_type_specification]
#[verifier::external_body]
pub struct ExPathBuf(PathBuf);

/// `directories::ProjectDirs`, carried through as an opaque value.
#[verifier::external_type_specification]
#[verifier::external_body]
pub struct ExProjectDirs(ProjectDirs);

/// The qualifier under which the project's directories are looked up.
pub const QUALIFIER: &'static str = "dev";

/// The organization under which the project's directories are looked up.
pub const ORGANIZATION: &'static str = "sleb";

/// The application name under which the project's directories are looked up.
pub const APPLICATION: &'static str = "overdrip";

/// The directory used when the project's data directory is unknown.
pub const CURRENT_DIRECTORY: &'static str = ".";

/// File name of the configuration inside the project directory.
pub const CONFIG_FILE: &'static str = "config.toml";

/// File name of the stored tokens inside the project directory.
pub const AUTH_FILE: &'static str = "auth.json";

/// The bytes a path holds. Paths are kept in an encoding that writes text
/// as its UTF-8 bytes.
pub uninterp spec fn path_bytes(path: PathBuf) -> Seq<u8>;

/// The bytes of the path that `Path::join` makes of a path that holds `base`
/// and of `leaf`.
pub uninterp spec fn joined_bytes(base: Seq<u8>, leaf: Seq<char>) -> Seq<u8>;

/// Calls `directories::ProjectDirs::from`. Whether it finds the project's
/// directories depends on the system and the environment, so nothing is
/// claimed of the result.
#[verifier::external_body]
fn find_project_dirs(qualifier: &str, organization: &str, application: &str) -> (found: Option<
    ProjectDirs,
>) {
    ProjectDirs::from(qualifier, organization, application)
}

/// Calls `directories::ProjectDirs::data_dir` and copies the borrowed path
/// into an owned one. Nothing is claimed of the result.
#[verifier::external_body]
fn data_dir_of(dirs: &ProjectDirs) -> (dir: PathBuf) {
    dirs.data_dir().to_path_buf()
}

/// Calls `Path::join`: what the result holds is a function of what `base`
/// holds and of `leaf` alone.
#[verifier::external_body]
fn join_path(base: &PathBuf, leaf: &str) -> (path: PathBuf)
    ensures
        path_bytes(path) == joined_bytes(path_bytes(*base), leaf@),
{
    base.join(leaf)
}

/// Calls `PathBuf::from` on a string slice: the result holds the text as it
/// is, that is, its UTF-8 bytes.
#[verifier::external_body]
fn path_from(text: &str) -> (path: PathBuf)
    ensures
        path_bytes(path) == encode_utf8(text@),
{
    PathBuf::from(text)
}

/// What the directory for the tool's files holds: what the data directory
/// that was found holds, or else the name of the current directory.
pub open spec fn base_directory(found: Option<PathBuf>) -> Seq<u8> {
    match found {
        Some(dir) => path_bytes(dir),
        None => encode_utf8(CURRENT_DIRECTORY@),
    }
}

/// Chooses the project directory from what the system reported: the
/// directory that was found, or else the current directory.
pub fn project_dir_or_current(found: Option<PathBuf>) -> (dir: PathBuf)
    ensures
        path_bytes(dir) == base_directory(found),
        found is Some ==> dir == found->Some_0,
{
    match found {
        Some(dir) => dir,
        None => path_from(CURRENT_DIRECTORY),
    }
}

/// The configuration file inside `dir`.
pub fn config_path_in(dir: &PathBuf) -> (path: PathBuf)
    ensures
        path_bytes(path) == joined_bytes(path_bytes(*dir), CONFIG_FILE@),
{
    join_path(dir, CONFIG_FILE)
}

/// The token file inside `dir`.
pub fn auth_path_in(dir: &PathBuf) -> (path: PathBuf)
    ensures
        path_bytes(path) == joined_bytes(path_bytes(*dir), AUTH_FILE@),
{
    join_path(dir, AUTH_FILE)
}

/// Asks the system for the project's data directory and falls back to the
/// current directory.
fn project_dir() -> (dir: PathBuf)
    ensures
        exists|found: Option<PathBuf>| path_bytes(dir) == #[trigger] base_directory(found),
{
    let found = match find_project_dirs(QUALIFIER, ORGANIZATION, APPLICATION) {
        Some(dirs) => Some(data_dir_of(&dirs)),
        None => None,
    };
    project_dir_or_current(found)
}

/// Default location of the configuration file: [`CONFIG_FILE`] inside the
/// project directory the system reports, or inside the current directory if
/// it reports none.
pub fn default_config_path() -> (path: PathBuf)
    ensures
        exists|found: Option<PathBuf>|
            path_bytes(path) == joined_bytes(#[trigger] base_directory(found), CONFIG_FILE@),
{
    let dir = project_dir();
    config_path_in(&dir)
}

/// Default location of the token file: [`AUTH_FILE`] inside the project
/// directory the system reports, or inside the current directory if it
/// reports none.
pub fn default_auth_path() -> (path: PathBuf)
    ensures
        exists|found: Option<PathBuf>|
            path_bytes(path) == joined_bytes(#[trigger] base_directory(found), AUTH_FILE@),
{
    let dir = project_dir();
    auth_path_in(&dir)
}

} // verus!
