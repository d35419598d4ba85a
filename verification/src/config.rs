//! Where the note server listens, and where it finds the note.
use vstd::prelude::*;
use vstd::string::StringExecFns;

verus! {

/// The address the note server listens on.
pub const SERVER_URL: &'static str = "0.0.0.0:7272";

/// The path of the note under the home directory `home`.
pub fn file_path(home: &str) -> (path: String)
    ensures
        path@ == home@ + "/obsidian/fuz-vault/General/TODO.md"@,
{
    let mut path = String::from_str(home);
    path.append("/obsidian/fuz-vault/General/TODO.md");
    path
}

} // verus!
