//! The user's home directory, found by the `dirs` crate.

use vstd::prelude::*;

verus! {

/// Asks `dirs::home_dir` for the user's home directory and gives its path
/// as text. What comes back depends on the user and the environment, so
/// nothing is stated of it.
#[verifier::external_body]
pub(crate) fn home_dir() -> (home: Option<String>) {
    dirs::home_dir().map(|path| path.to_string_lossy().into_owned())
}

} // verus!
