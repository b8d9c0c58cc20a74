//! The calls into gitoxide, through the `gix` crate. Nothing here is
//! proved: each function makes one call and hands back what it returned,
//! names and ids written out as text. What they return depends on the
//! repository on disk, so nothing is promised of it, but that the full id
//! of a commit has forty digits of lowercase hexadecimal, and that its
//! abbreviated id starts it and has four digits or more.

use std::path::Path;
use vstd::prelude::*;
use crate::text::{abbreviates, is_full_hash};

verus! {

/// `gix::Repository`: an open repository.
#[verifier::external_type_specification]
#[verifier::external_body]
pub struct ExGixRepository(gix::Repository);

/// `gix::Error`: a failure that gitoxide reports.
#[verifier::external_type_specification]
#[verifier::external_body]
pub struct ExGixError(gix::Error);

/// `gix::Commit`: a commit of a repository.
#[verifier::external_type_specification]
#[verifier::external_body]
pub struct ExGixCommit<'repo>(gix::Commit<'repo>);

/// `gix::discover`: opens the repository at or above `directory`.
#[verifier::external_body]
pub(crate) fn discover(directory: &Path) -> Result<gix::Repository, gix::Error> {
    gix::discover(directory)
}

/// `Repository::head_name`: the full name of the reference that HEAD
/// points to, absent where HEAD is detached. The name is handed on byte
/// for byte.
#[verifier::external_body]
pub(crate) fn head_name(repo: &gix::Repository) -> Result<Option<Vec<u8>>, gix::Error> {
    repo.head_name().map(|name| name.map(|name| name.as_bstr().to_vec()))
}

/// `Repository::head_commit`: the commit that HEAD leads to.
#[verifier::external_body]
pub(crate) fn head_commit<'repo>(repo: &'repo gix::Repository) -> Result<
    gix::Commit<'repo>,
    gix::Error,
> {
    repo.head_commit()
}

/// `Commit::describe` and the `format` of what it gives: the commit
/// described by the nearest annotated tag, or by its abbreviated id where
/// no such tag is reachable.
#[verifier::external_body]
pub(crate) fn describe_format(commit: &gix::Commit<'_>) -> Result<String, gix::Error> {
    commit.describe().format().map(|format| format.to_string())
}

/// `Commit::id`, written out in hexadecimal, and `Id::shorten` of that id,
/// written out likewise.
///
/// The first is the full id: forty digits of lowercase hexadecimal, the
/// ids being SHA-1, the one kind that gitoxide is built with here. The
/// second is its abbreviation: gitoxide keeps the leading digits of the
/// same id, as many as make it unambiguous in the repository and never
/// fewer than four. So an abbreviated id that could be made starts the full
/// id and has four digits or more. How long it is, and whether it can be
/// made, depends on the repository.
#[verifier::external_body]
pub(crate) fn commit_ids(commit: &gix::Commit<'_>) -> (ids: (String, Result<String, gix::Error>))
    ensures
        is_full_hash(ids.0@),
        ids.1 matches Ok(short) ==> abbreviates(short@, ids.0@),
{
    let id = commit.id();
    (id.to_string(), id.shorten().map(|prefix| prefix.to_string()))
}

} // verus!
