//! An example of the server's configuration, for a vault at another place.
use vstd::prelude::*;
use vstd::string::StringExecFns;

verus! {

/// The address the note server listens on.
pub const SERVER_URL: &'static str = "0.0.0.0:7272";

/// The path of the note under the home directory `home`.
pub fn file_path(home: &str) -> (path: String)
    ensures
        path@ == home@ + "/obsidian/vault/path/TODO.md"@,
{
    let mut path = String::from_str(home);
    path.append("/obsidian/vault/path/TODO.md");
    path
}

} // verus!
