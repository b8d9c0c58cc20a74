//! The interface between the resolver and a repository backend.

use std::path::Path;
use vstd::prelude::*;
use crate::error::BackendError;
use crate::record::{Description, Head};

verus! {

/// `std::path::Path`: handed on to the backend as it is.
#[verifier::external_type_specification]
#[verifier::external_body]
pub struct ExPath(Path);

/// A way to query the repository that holds a path. Both queries take any
/// path inside the work tree, not only its root, and answer `Ok(None)`
/// where no repository is found at or above it.
///
/// A backend either reports every other failure as an error, or reports
/// every failure as `Ok(None)`; it does not mix the two.
pub trait Backend {
    /// The reference HEAD points to, and the commit hash in full and
    /// abbreviated. The reference is absent where HEAD is detached or its
    /// name is no valid text.
    fn head(&self, path: &Path) -> Result<Option<Head>, BackendError>;

    /// The describe string of HEAD, and whether a tracked file was
    /// changed.
    fn describe(&self, path: &Path) -> Result<Option<Description>, BackendError>;
}

/// What a query contributes to the record: its answer, or nothing where it
/// was unavailable or failed.
pub open spec fn answer_of<T>(outcome: Result<Option<T>, BackendError>) -> Option<T> {
    match outcome {
        Ok(Some(t)) => Some(t),
        _ => None,
    }
}

/// Turns the outcome of a query into what it contributes to the record. A
/// failed query contributes nothing, and keeps no other value from being
/// resolved.
pub fn available<T>(outcome: Result<Option<T>, BackendError>) -> (r: Option<T>)
    ensures
        r == answer_of(outcome),
{
    match outcome {
        Ok(Some(t)) => Some(t),
        _ => None,
    }
}

} // verus!
