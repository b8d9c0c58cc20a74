//! The calls into libgit2, through the `git2` crate. Nothing here is
//! proved: each function makes one call and hands back what it returned.
//! What a call returns depends on the repository on disk, so nothing is
//! promised of it, with two exceptions. A status list is fixed once it is
//! made: its length and its entries are stated over `status_flags`, and
//! the options it was asked for with over `lists_ignored` and
//! `lists_untracked`. And
//! the full id of a commit has forty digits of lowercase hexadecimal, and
//! its abbreviated id starts it and has four digits or more, whatever the
//! repository holds.
//!
//! No call is made here that can panic on what a repository holds. The
//! describe string is such a call, so it is not asked for here: who needs
//! it asks libgit2 and hands the answer to `git::description_outcome`.

use git2::{Commit, Reference, Repository, StatusOptions, Statuses};
use std::path::Path;
use vstd::prelude::*;
use crate::text::{abbreviates, is_full_hash};

verus! {

/// `git2::Repository`: an open repository.
#[verifier::external_type_specification]
#[verifier::external_body]
pub struct ExRepository(Repository);

/// `git2::Error`: a failure that libgit2 reports.
#[verifier::external_type_specification]
#[verifier::external_body]
pub struct ExGitError(git2::Error);

/// `git2::Reference`: a reference of a repository.
#[verifier::external_type_specification]
#[verifier::external_body]
pub struct ExReference<'repo>(Reference<'repo>);

/// `git2::Commit`: a commit of a repository.
#[verifier::external_type_specification]
#[verifier::external_body]
pub struct ExCommit<'repo>(Commit<'repo>);

/// `git2::Statuses`: the list of entries that a status query found. It
/// is fixed once made.
#[verifier::external_type_specification]
#[verifier::external_body]
pub struct ExStatuses<'repo>(Statuses<'repo>);

/// The status flags of the entries of a status list, in the list's order,
/// as `StatusEntry::status` gives them.
pub uninterp spec fn status_flags(statuses: Statuses<'_>) -> Seq<u32>;

/// Whether a status list was asked for with ignored files.
pub uninterp spec fn lists_ignored(statuses: Statuses<'_>) -> bool;

/// Whether a status list was asked for with untracked files.
pub uninterp spec fn lists_untracked(statuses: Statuses<'_>) -> bool;

/// `Repository::discover`: opens the repository at or above `path`.
#[verifier::external_body]
pub(crate) fn discover(path: &Path) -> Result<Repository, git2::Error> {
    Repository::discover(path)
}

/// `Repository::head`: the reference that HEAD resolves to.
#[verifier::external_body]
pub(crate) fn head<'repo>(repo: &'repo Repository) -> Result<Reference<'repo>, git2::Error> {
    repo.head()
}

/// `Repository::head_detached`: whether HEAD points at a commit directly.
#[verifier::external_body]
pub(crate) fn head_detached(repo: &Repository) -> Result<bool, git2::Error> {
    repo.head_detached()
}

/// `Reference::name`: the full name of the reference, absent where it is
/// not valid UTF-8.
#[verifier::external_body]
pub(crate) fn reference_name(reference: &Reference<'_>) -> Option<String> {
    reference.name().map(str::to_string)
}

/// `Reference::peel_to_commit`: the commit that the reference leads to.
#[verifier::external_body]
pub(crate) fn peel_to_commit<'repo>(reference: &Reference<'repo>) -> Result<
    Commit<'repo>,
    git2::Error,
> {
    reference.peel_to_commit()
}

/// `Commit::id`, written out in hexadecimal, and `Object::short_id` of the
/// same commit, as text where `Buf::as_str` finds it valid UTF-8.
///
/// The first is the full id: forty digits of lowercase hexadecimal. The
/// second is its abbreviation: libgit2 writes out the leading digits of
/// the same id, as many as make it unambiguous in the repository and never
/// fewer than four. Digits are valid UTF-8. So an abbreviated id that could
/// be made is there, starts the full id and has four digits or more. How
/// long it is, and whether it can be made, depends on the repository.
#[verifier::external_body]
pub(crate) fn commit_ids(commit: Commit<'_>) -> (ids: (
    String,
    Result<Option<String>, git2::Error>,
))
    ensures
        is_full_hash(ids.0@),
        ids.1 matches Ok(short) ==> short matches Some(s) && abbreviates(s@, ids.0@),
{
    let id = commit.id().to_string();
    let short = commit.into_object().short_id();
    (id, short.map(|buf| buf.as_str().map(str::to_string)))
}

/// `Error::raw_class`: libgit2's number for the class of the error.
#[verifier::external_body]
pub(crate) fn error_class(error: &git2::Error) -> i32 {
    error.raw_class() as i32
}

/// `Error::raw_code`: libgit2's number for the error code.
#[verifier::external_body]
pub(crate) fn error_code(error: &git2::Error) -> i32 {
    error.raw_code() as i32
}

/// `Error::message`: the text of the error.
#[verifier::external_body]
pub(crate) fn error_message(error: &git2::Error) -> String {
    error.message().to_string()
}

/// `Repository::statuses`, with options made by `StatusOptions::new`,
/// `include_ignored` and `include_untracked`: the status entries of index
/// and work tree.
///
/// libgit2 keeps the options that a list was asked for with in the list.
/// So a list that is returned tells whether ignored files and whether
/// untracked files were asked for, and that is as the arguments say. Which
/// entries it holds depends on the repository.
#[verifier::external_body]
pub(crate) fn statuses_listing<'repo>(repo: &'repo Repository, ignored: bool, untracked: bool) -> (r:
    Result<Statuses<'repo>, git2::Error>)
    ensures
        r matches Ok(list) ==> lists_ignored(list) == ignored && lists_untracked(list)
            == untracked,
{
    let mut options = StatusOptions::new();
    options.include_ignored(ignored).include_untracked(untracked);
    repo.statuses(Some(&mut options))
}

/// `Statuses::len`: the number of entries of the list.
#[verifier::external_body]
pub(crate) fn statuses_len(statuses: &Statuses<'_>) -> (n: usize)
    ensures
        n == status_flags(*statuses).len(),
{
    statuses.len()
}

/// `Statuses::get` and `StatusEntry::status`: the flags of the entry at
/// `index`, which must be within the list.
#[verifier::external_body]
pub(crate) fn status_at(statuses: &Statuses<'_>, index: usize) -> (flags: u32)
    requires
        index < status_flags(*statuses).len(),
    ensures
        flags == status_flags(*statuses)[index as int],
{
    statuses.get(index).unwrap().status().bits()
}

} // verus!
