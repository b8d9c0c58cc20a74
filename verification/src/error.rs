//! What can go wrong: a backend that fails on a repository it found, and an
//! override that cannot be read as its type.

use vstd::prelude::*;

verus! {

/// Error class that libgit2 gives to failures of the repository itself.
pub const CLASS_REPOSITORY: i32 = 6;

/// Error code that libgit2 gives where what was asked for does not exist.
pub const CODE_NOT_FOUND: i32 = -3;

/// A query failed on a repository that exists: damaged data, a refused
/// permission, a reference that cannot be read. `class` and `code` are
/// libgit2's numbers for the failure.
#[derive(Debug, PartialEq)]
pub struct BackendError {
    pub class: i32,
    pub code: i32,
    pub message: String,
}

impl BackendError {
    /// Whether the error says that no repository was found. That outcome
    /// is benign: the queries report it as "unavailable", not as a failure.
    pub open spec fn is_repository_not_found(&self) -> bool {
        self.class == CLASS_REPOSITORY && self.code == CODE_NOT_FOUND
    }

    /// Tells "no repository was found" from every other failure.
    pub fn repository_not_found(&self) -> (b: bool)
        ensures
            b == self.is_repository_not_found(),
    {
        self.class == CLASS_REPOSITORY && self.code == CODE_NOT_FOUND
    }
}

/// An override was supplied for a value, and its text is not of the
/// value's type.
#[derive(Debug, PartialEq)]
pub struct OverrideFormatError {
    /// Name of the overridden value.
    pub name: String,
    /// The text that was supplied.
    pub value: String,
}

} // verus!
