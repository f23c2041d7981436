//! The process-wide configuration: the workspace root.

use vstd::prelude::*;

verus! {

/// The configured workspace root: every clone destination is nested under
/// `repository_directory`, by host and then by path.
pub struct Circumstances {
    pub repository_directory: String,
}

impl Circumstances {
    /// A configuration rooted at the given directory.
    pub fn new(repository_directory: String) -> (r: Circumstances)
        ensures
            r.repository_directory@ == repository_directory@,
    {
        Circumstances { repository_directory }
    }
}

} // verus!
