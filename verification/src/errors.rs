use vstd::prelude::*;

verus! {

/// The failures this layer can surface. Absence — a missing path queried
/// without a request to create it, or no enclosing repository — is reported
/// through `Option`, never through one of these.
#[derive(Clone, Copy, Debug, PartialEq, Eq, Structural)]
pub enum RepoError {
    /// A path expected to name a directory names a file instead.
    NotADirectory,
    /// The initialization target's control directory is present and non-empty.
    RepositoryAlreadyExists,
    /// A skeleton-creation step failed after the preconditions had passed.
    InitializationFailed,
    /// Canonicalization or ancestor traversal failed.
    PathResolutionError,
    /// An I/O or compression failure while persisting content.
    WriteFailed,
}

impl RepoError {
    /// A short name for the failure, for callers that need to report it.
    pub fn describe(&self) -> (s: String)
        ensures
            s@.len() > 0,
    {
        proof {
            reveal_strlit("not a directory");
            reveal_strlit("repository already exists");
            reveal_strlit("initialization failed");
            reveal_strlit("path resolution error");
            reveal_strlit("write failed");
        }
        match self {
            RepoError::NotADirectory => String::from_str("not a directory"),
            RepoError::RepositoryAlreadyExists => String::from_str("repository already exists"),
            RepoError::InitializationFailed => String::from_str("initialization failed"),
            RepoError::PathResolutionError => String::from_str("path resolution error"),
            RepoError::WriteFailed => String::from_str("write failed"),
        }
    }
}

} // verus!
