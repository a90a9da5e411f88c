//! The user's home directory, as `dirs` finds it.

use vstd::prelude::*;

verus! {

/// Calls `dirs::home_dir` and hands out the path as a string, or `None`
/// where there is no home directory or its path is not valid Unicode. What
/// comes back depends on the user and the machine, so nothing is claimed of
/// it.
#[verifier::external_body]
pub(crate) fn home_directory() -> Option<String> {
    dirs::home_dir()?.to_str().map(|path| path.to_owned())
}

} // verus!
