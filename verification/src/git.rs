//! The queries on libgit2. They report "no repository found" as
//! unavailable and every other failure as an error.
//!
//! A query first asks libgit2 its questions, in a fixed order and up to the
//! first that fails, and then decides on the answers. The deciding is
//! `head_outcome` and `description_outcome`, which take the answers as
//! plain values.
//!
//! The query of HEAD is asked and decided here. The describe query is only
//! decided here: `git2` panics on a describe string that is not valid
//! UTF-8, and no function of this library panics. So the describe string
//! is asked for outside of it, and the answers are handed to
//! `description_outcome`.

use git2::{Repository, Statuses};
use std::path::Path;
use vstd::prelude::*;
use crate::error::BackendError;
use crate::git_calls::{
    commit_ids, discover, error_class, error_code, error_message, head, head_detached,
    lists_ignored, lists_untracked, peel_to_commit, reference_name, status_at, status_flags,
    statuses_len, statuses_listing,
};
use crate::record::{Description, Head};
use crate::status::{any_changed, is_dirty_among};
use crate::text::{abbreviates, is_full_hash};

verus! {

/// How the questions of a query were answered.
pub enum Answers<T> {
    /// No repository could be opened at or above the path.
    NotOpened(BackendError),
    /// A repository was opened, and a question about it failed.
    Failed(BackendError),
    /// Every question was answered.
    Found(T),
}

/// What libgit2 knows of HEAD.
pub struct HeadFacts {
    /// Whether HEAD points at a commit directly.
    pub detached: bool,
    /// Full name of the reference that HEAD resolves to, where it is valid
    /// UTF-8. For a detached HEAD that reference is HEAD itself.
    pub name: Option<String>,
    /// Id of the commit that the reference leads to, in hexadecimal.
    pub id: String,
    /// Abbreviated id of that commit, where it is valid UTF-8.
    pub short: Option<String>,
}

impl HeadFacts {
    /// Whether the id is a full hash, and the abbreviated id is there and
    /// abbreviates it.
    pub open spec fn short_abbreviates_id(&self) -> bool {
        &&& is_full_hash(self.id@)
        &&& self.short matches Some(short) && abbreviates(short@, self.id@)
    }
}

/// Whether the hashes of an answer about HEAD are well formed: the full
/// hash has forty digits of lowercase hexadecimal, and the abbreviated
/// hash starts it and has four digits or more.
pub open spec fn short_abbreviates_full(found: Head) -> bool {
    is_full_hash(found.1@) && abbreviates(found.2@, found.1@)
}

/// What libgit2 knows of the description of HEAD and of the work tree.
pub struct DescribeFacts {
    /// The describe string.
    pub tag: String,
    /// The status flags of the tracked entries of index and work tree.
    pub flags: Vec<u32>,
}

/// Decides what the query of HEAD returns.
///
/// Where no repository could be opened, the query is unavailable if none
/// was found, and has failed otherwise. A failed question is the query's
/// failure. Else the branch is the name of the reference unless HEAD is
/// detached, and a missing abbreviated id is the empty text.
pub fn head_outcome(answers: Answers<HeadFacts>) -> (r: Result<Option<Head>, BackendError>)
    ensures
        match answers {
            Answers::NotOpened(e) => if e.is_repository_not_found() {
                r == Ok::<Option<Head>, BackendError>(None)
            } else {
                r == Err::<Option<Head>, BackendError>(e)
            },
            Answers::Failed(e) => r == Err::<Option<Head>, BackendError>(e),
            Answers::Found(facts) => {
                &&& r matches Ok(Some(found))
                &&& found.0 == if facts.detached {
                    None
                } else {
                    facts.name
                }
                &&& found.1 == facts.id
                &&& found.2@ == match facts.short {
                    Some(s) => s@,
                    None => Seq::<char>::empty(),
                }
            },
        },
{
    match answers {
        Answers::NotOpened(e) => if e.repository_not_found() {
            Ok(None)
        } else {
            Err(e)
        },
        Answers::Failed(e) => Err(e),
        Answers::Found(facts) => {
            let branch = if facts.detached {
                None
            } else {
                facts.name
            };
            let short = match facts.short {
                Some(s) => s,
                None => String::new(),
            };
            Ok(Some((branch, facts.id, short)))
        },
    }
}

/// Decides what the describe query returns, from what libgit2 answered:
/// the describe string of HEAD by the nearest tag, or by the commit id
/// where no tag is reachable, and the status flags of the tracked entries
/// of index and work tree, ignored and untracked files left out.
///
/// Where no repository could be opened, the query is unavailable if none
/// was found, and has failed otherwise. A failed question is the query's
/// failure. Else the repository is dirty exactly if a tracked entry is not
/// current.
pub fn description_outcome(answers: Answers<DescribeFacts>) -> (r: Result<
    Option<Description>,
    BackendError,
>)
    ensures
        match answers {
            Answers::NotOpened(e) => if e.is_repository_not_found() {
                r == Ok::<Option<Description>, BackendError>(None)
            } else {
                r == Err::<Option<Description>, BackendError>(e)
            },
            Answers::Failed(e) => r == Err::<Option<Description>, BackendError>(e),
            Answers::Found(facts) => {
                &&& r matches Ok(Some(found))
                &&& found.0 == facts.tag
                &&& found.1 == any_changed(facts.flags@)
            },
        },
{
    match answers {
        Answers::NotOpened(e) => if e.repository_not_found() {
            Ok(None)
        } else {
            Err(e)
        },
        Answers::Failed(e) => Err(e),
        Answers::Found(facts) => {
            let dirty = is_dirty_among(&facts.flags);
            Ok(Some((facts.tag, dirty)))
        },
    }
}

/// Class, code and message of a libgit2 error.
pub fn backend_error(error: &git2::Error) -> BackendError {
    BackendError {
        class: error_class(error),
        code: error_code(error),
        message: error_message(error),
    }
}

/// Reads the status flags of every entry of the list.
fn flags_of(list: &Statuses<'_>) -> (flags: Vec<u32>)
    ensures
        flags@ == status_flags(*list),
{
    let n: usize = statuses_len(list);
    let mut flags: Vec<u32> = Vec::new();
    let mut i: usize = 0;
    while i < n
        invariant
            n == status_flags(*list).len(),
            i <= n,
            flags@ == status_flags(*list).take(i as int),
        decreases n - i,
    {
        flags.push(status_at(list, i));
        i += 1;
    }
    flags
}

/// Whether `flags` are the status flags of the entries of a list that was
/// asked for without ignored and without untracked files.
pub open spec fn of_tracked_entries(flags: Seq<u32>) -> bool {
    exists|list: Statuses<'_>|
        flags == #[trigger] status_flags(list) && !lists_ignored(list) && !lists_untracked(list)
}

/// The status flags of the tracked entries of index and work tree: the
/// list is asked for without ignored and without untracked files, and
/// the flags of all its entries are read, in its order.
pub fn tracked_flags(repo: &Repository) -> (r: Result<Vec<u32>, git2::Error>)
    ensures
        r matches Ok(flags) ==> of_tracked_entries(flags@),
{
    match statuses_listing(repo, false, false) {
        Ok(list) => Ok(flags_of(&list)),
        Err(e) => Err(e),
    }
}

/// Asks libgit2 about HEAD: the reference, whether it is detached, the
/// commit it leads to, and the abbreviated id of that commit. Whatever
/// the repository holds, the id is a full hash, and the abbreviated id is
/// there and abbreviates it.
fn head_facts(repo: &Repository) -> (r: Result<HeadFacts, git2::Error>)
    ensures
        r matches Ok(facts) ==> facts.short_abbreviates_id(),
{
    let reference = match head(repo) {
        Ok(reference) => reference,
        Err(e) => return Err(e),
    };
    let detached = match head_detached(repo) {
        Ok(detached) => detached,
        Err(e) => return Err(e),
    };
    let name = reference_name(&reference);
    let commit = match peel_to_commit(&reference) {
        Ok(commit) => commit,
        Err(e) => return Err(e),
    };
    let (id, short) = commit_ids(commit);
    match short {
        Ok(short) => Ok(HeadFacts { detached, name, id, short }),
        Err(e) => Err(e),
    }
}

/// The reference that HEAD points to, the commit hash of HEAD and its
/// abbreviated form. The reference is absent where HEAD is detached or its
/// name is not valid UTF-8.
///
/// `Ok(None)` where no repository is found at or above `root`; an error
/// where one is found and libgit2 fails on it. The result is
/// `head_outcome` of what libgit2 answers, and that is decided by the
/// repository on disk. Whatever it holds, the full hash of an answer has
/// forty digits of lowercase hexadecimal, and the abbreviated hash starts
/// it and has four digits or more.
pub fn get_repo_head(root: &Path) -> (r: Result<Option<Head>, BackendError>)
    ensures
        r matches Ok(Some(found)) ==> short_abbreviates_full(found),
{
    let answers = match discover(root) {
        Ok(repo) => match head_facts(&repo) {
            Ok(facts) => Answers::Found(facts),
            Err(e) => Answers::Failed(backend_error(&e)),
        },
        Err(e) => Answers::NotOpened(backend_error(&e)),
    };
    head_outcome(answers)
}

} // verus!
