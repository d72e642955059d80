//! Where the application keeps its files: `~/.nanowhisper/`.
use vstd::prelude::*;

use crate::text::{join_path, path_join, path_style_of, PathStyle};

verus! {

/// The name of the data directory inside the home directory.
pub open spec fn data_dir_name() -> Seq<char> {
    ".nanowhisper"@
}

/// What was found as the user's home directory.
#[derive(Debug)]
pub enum HomeDir {
    /// The home directory, whose path is valid Unicode.
    Found(String),
    /// A home directory whose path is not valid Unicode, which this library
    /// cannot hold as text.
    NotUnicode,
    /// No home directory could be determined.
    Missing,
}

/// Why the data directory cannot be named.
#[derive(Debug, Clone, Copy, PartialEq, Eq, Structural)]
pub enum DataDirError {
    /// No home directory could be determined.
    NoHome,
    /// The home directory's path is not valid Unicode.
    NotUnicode,
}

/// `dirs::home_dir`: the user's home directory, read from the environment,
/// with its path converted to text by `OsString::into_string` (no path is
/// altered; one that is not valid Unicode is reported as such). It depends
/// on the environment, so nothing is claimed of the result.
#[verifier::external_body]
fn home_dir() -> HomeDir {
    match dirs::home_dir() {
        Some(p) => match p.into_os_string().into_string() {
            Ok(s) => HomeDir::Found(s),
            Err(_) => HomeDir::NotUnicode,
        },
        None => HomeDir::Missing,
    }
}

/// `std::path::MAIN_SEPARATOR`, the separator of path components on the
/// platform this runs on. It depends on the platform, so nothing is claimed.
#[verifier::external_body]
fn main_separator() -> char {
    std::path::MAIN_SEPARATOR
}

/// The path style of the platform this runs on.
pub fn path_style() -> (style: PathStyle) {
    path_style_of(main_separator())
}

/// The data directory for what was found as the home directory, with paths
/// written in `style`.
pub fn data_dir_for(home: HomeDir, style: PathStyle) -> (r: Result<String, DataDirError>)
    ensures
        match home {
            HomeDir::Found(h) => r matches Ok(d) && d@ == path_join(h@, data_dir_name(), style),
            HomeDir::NotUnicode => r == Err::<String, DataDirError>(DataDirError::NotUnicode),
            HomeDir::Missing => r == Err::<String, DataDirError>(DataDirError::NoHome),
        },
{
    match home {
        HomeDir::Found(h) => Ok(data_dir_in(h.as_str(), style)),
        HomeDir::NotUnicode => Err(DataDirError::NotUnicode),
        HomeDir::Missing => Err(DataDirError::NoHome),
    }
}

/// The data directory inside the home directory `home`.
pub fn data_dir_in(home: &str, style: PathStyle) -> (r: String)
    ensures
        r@ == path_join(home@, data_dir_name(), style),
{
    let name = ".nanowhisper";
    proof {
        reveal_strlit(".nanowhisper");
    }
    join_path(home, name, style)
}

/// `~/.nanowhisper/`; an error when the home directory cannot be
/// determined or is not valid Unicode.
pub fn data_dir() -> (r: Result<String, DataDirError>)
    ensures
        r matches Ok(d) ==> exists|home: Seq<char>, style: PathStyle|
            d@ == path_join(home, data_dir_name(), style),
{
    data_dir_for(home_dir(), path_style())
}

} // verus!
