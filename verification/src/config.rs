//! The daemon's configuration.
use vstd::prelude::*;
use vstd::string::StringExecFns;

verus! {

/// The daemon's configuration, read from `config.toml` beside the daemon.
#[derive(Debug, Clone, PartialEq, Eq)]
pub struct Config {
    /// Where the settings program is; `None` if unknown.
    pub gui_path: Option<String>,
}

/// What `std::path::Path::parent` gives for a path: the path without its last
/// component, `None` for a path that ends in a root or prefix or is empty.
pub uninterp spec fn path_parent(path: Seq<char>) -> Option<Seq<char>>;

/// What `std::path::Path::join` gives for a base path and a relative name.
pub uninterp spec fn path_join(base: Seq<char>, name: Seq<char>) -> Seq<char>;

/// `Path::parent` on `path`, taken as text; the result is named by
/// `path_parent` (the parent of a text path is a part of it, so no character
/// is lost in the conversion back to text).
#[verifier::external_body]
fn parent_of(path: &str) -> (r: Option<String>)
    ensures
        match r {
            Some(dir) => path_parent(path@) == Some(dir@),
            None => path_parent(path@) is None,
        },
{
    match std::path::Path::new(path).parent() {
        Some(dir) => Some(dir.to_string_lossy().into_owned()),
        None => None,
    }
}

/// `Path::join` on two text paths; the result is named by `path_join`.
#[verifier::external_body]
fn joined(base: &str, name: &str) -> (r: String)
    ensures
        r@ == path_join(base@, name@),
{
    std::path::Path::new(base).join(name).to_string_lossy().into_owned()
}

/// The file name of the settings program: `deskwarp-gui` followed by the
/// platform's executable suffix (`.exe` on Windows, nothing elsewhere).
pub open spec fn gui_file_name(exe_suffix: Seq<char>) -> Seq<char> {
    "deskwarp-gui"@ + exe_suffix
}

/// Where the settings program is expected: beside the daemon's executable
/// `daemon_exe`, whether or not it is there (so that the config file shows the
/// intent); `None` when the executable's path has no parent directory.
pub fn gui_path_beside(daemon_exe: &str, exe_suffix: &str) -> (r: Option<String>)
    ensures
        match path_parent(daemon_exe@) {
            Some(dir) => r matches Some(p) && p@ == path_join(dir, gui_file_name(exe_suffix@)),
            None => r is None,
        },
{
    match parent_of(daemon_exe) {
        Some(dir) => {
            let name = String::from_str("deskwarp-gui").concat(exe_suffix);
            Some(joined(dir.as_str(), name.as_str()))
        },
        None => None,
    }
}

} // verus!
