//! Discovery of external executables on the search path.

use vstd::prelude::*;

verus! {

/// Look up an executable by name on the search path.
///
/// Relies on `which::which`: it scans the directories of `PATH` for an
/// executable file of that name and returns its path, or an error when none
/// is found. The outcome depends on the machine's environment, so nothing
/// more is promised of it; callers state what holds for either outcome.
#[verifier::external_body]
pub(crate) fn find_executable(name: &str) -> (r: Option<String>) {
    match which::which(name) {
        Ok(p) => Some(p.to_string_lossy().into_owned()),
        Err(_) => None,
    }
}

} // verus!
