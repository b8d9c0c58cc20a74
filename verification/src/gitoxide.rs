//! The backend on gitoxide. It reports every failure as unavailable.
//! Dirtiness is still asked of libgit2.

use std::path::Path;
use vstd::prelude::*;
use crate::backend::Backend;
use crate::error::BackendError;
use crate::git::{of_tracked_entries, short_abbreviates_full, tracked_flags};
use crate::git_calls;
use crate::gix_calls::{commit_ids, describe_format, discover, head_commit, head_name};
use crate::status::{any_changed, is_dirty_among};
use crate::std_calls::string_from_utf8;
use vstd::utf8::{encode_utf8, valid_utf8};
use crate::record::{
    Description, DescriptionView, Head, HeadView, RepoInfo, RepoInfoView, opt_description_view,
    opt_head_view,
};
use crate::resolve::SHORT_HASH_LEN;
use crate::text::{abbreviates, first_chars, is_full_hash, leading, opt_text};

verus! {

/// The backend on gitoxide.
pub struct Gitoxide;

/// What is learned of the commit that HEAD leads to.
pub struct HeadCommit {
    /// Full commit hash.
    pub id: String,
    /// Abbreviated commit hash, where it could be made.
    pub short: Option<String>,
    /// Describe string, where the commit could be described.
    pub tag: Option<String>,
    /// Whether a tracked file was changed, where it could be found out.
    pub dirty: Option<bool>,
}

impl RepoInfoView {
    /// Whether the hashes of the record are well formed: the full hash,
    /// where there is one, has forty digits of lowercase hexadecimal; and
    /// the abbreviated hash, where there is one, starts the full hash and
    /// has four digits or more.
    pub open spec fn short_abbreviates_full(self) -> bool {
        &&& self.commit_id matches Some(full) ==> is_full_hash(full)
        &&& self.commit_id_short matches Some(short) ==> (self.commit_id matches Some(full)
            && abbreviates(short, full))
    }

    /// Whether the record holds nothing about a commit.
    pub open spec fn has_no_commit(self) -> bool {
        self.tag is None && self.dirty is None && self.commit_id is None
            && self.commit_id_short is None
    }

    /// The answer about HEAD that the record holds: there is one where
    /// the full hash is known. Its abbreviated hash is that of the record,
    /// or the start of the full hash where the record has none.
    pub open spec fn head(self) -> Option<HeadView> {
        match self.commit_id {
            Some(commit) => Some(
                HeadView {
                    branch: self.branch,
                    commit,
                    commit_short: match self.commit_id_short {
                        Some(short) => short,
                        None => leading(commit, SHORT_HASH_LEN as nat),
                    },
                },
            ),
            None => None,
        }
    }

    /// The describe answer that the record holds: there is one where the
    /// describe string and the dirtiness are known.
    pub open spec fn description(self) -> Option<DescriptionView> {
        match (self.tag, self.dirty) {
            (Some(tag), Some(dirty)) => Some(DescriptionView { tag, dirty }),
            _ => None,
        }
    }
}

impl RepoInfo {
    /// The record for HEAD on `branch` and leading to `commit`. Without a
    /// commit, as on a branch yet to be born, only the branch is known.
    pub fn from_head(branch: Option<String>, commit: Option<HeadCommit>) -> (info: RepoInfo)
        ensures
            info@.branch == opt_text(branch),
            commit is None ==> info@.has_no_commit(),
            commit matches Some(c) ==> {
                &&& info@.tag == opt_text(c.tag)
                &&& info@.dirty == c.dirty
                &&& info@.commit_id == Some(c.id@)
                &&& info@.commit_id_short == opt_text(c.short)
            },
    {
        match commit {
            Some(c) => RepoInfo {
                branch,
                tag: c.tag,
                dirty: c.dirty,
                commit_id: Some(c.id),
                commit_id_short: c.short,
            },
            None => RepoInfo {
                branch,
                tag: None,
                dirty: None,
                commit_id: None,
                commit_id_short: None,
            },
        }
    }

    /// The answer about HEAD that the record holds.
    pub fn into_head(self) -> (head: Option<Head>)
        ensures
            opt_head_view(head) == self@.head(),
    {
        match self.commit_id {
            Some(commit) => {
                let commit_short = match self.commit_id_short {
                    Some(short) => short,
                    None => first_chars(commit.as_str(), SHORT_HASH_LEN),
                };
                Some((self.branch, commit, commit_short))
            },
            None => None,
        }
    }

    /// The describe answer that the record holds.
    pub fn into_description(self) -> (description: Option<Description>)
        ensures
            opt_description_view(description) == self@.description(),
    {
        match (self.tag, self.dirty) {
            (Some(tag), Some(dirty)) => Some((tag, dirty)),
            _ => None,
        }
    }
}

/// The branch that a reference name stands for. There is none where there
/// is no name, as with a detached HEAD, and none where the name is not
/// valid UTF-8; else it is the name as text.
pub fn branch_of(name: Option<Vec<u8>>) -> (branch: Option<String>)
    ensures
        branch is Some <==> (name matches Some(bytes) && valid_utf8(bytes@)),
        branch matches Some(text) ==> name matches Some(bytes) && encode_utf8(text@) == bytes@,
{
    match name {
        None => None,
        Some(bytes) => match string_from_utf8(bytes) {
            Ok(text) => Some(text),
            Err(_) => None,
        },
    }
}

/// Decides dirtiness from what libgit2 answered: the status flags of the
/// tracked entries, or nothing where no repository was found or its status
/// could not be read. There is an answer exactly where there are flags, and
/// it is that some entry is not current.
pub fn dirty_outcome(read: Option<Vec<u32>>) -> (r: Option<bool>)
    ensures
        read is None <==> r is None,
        read matches Some(flags) ==> r == Some(any_changed(flags@)),
{
    match read {
        Some(flags) => Some(is_dirty_among(&flags)),
        None => None,
    }
}

/// Decides the record from what gitoxide answered: the branch and what is
/// known of the commit, or nothing where no repository was found or HEAD
/// could not be read. There is a record exactly where there is an answer.
pub fn info_outcome(read: Option<(Option<String>, Option<HeadCommit>)>) -> (r: Option<RepoInfo>)
    ensures
        read is None <==> r is None,
        read matches Some(found) ==> {
            &&& r matches Some(info)
            &&& info@.branch == opt_text(found.0)
            &&& found.1 is None ==> info@.has_no_commit()
            &&& found.1 matches Some(c) ==> {
                &&& info@.tag == opt_text(c.tag)
                &&& info@.dirty == c.dirty
                &&& info@.commit_id == Some(c.id@)
                &&& info@.commit_id_short == opt_text(c.short)
            }
        },
{
    match read {
        Some((branch, commit)) => Some(RepoInfo::from_head(branch, commit)),
        None => None,
    }
}

/// Whether a tracked file of the repository that holds `manifest_location`
/// differs from its committed state. `None` where no repository is found
/// or its status cannot be read.
///
/// The answer is `dirty_outcome` of what libgit2 answers. Whatever the
/// repository holds, an answer is that some entry is not current, of a
/// status list that was asked for without ignored and without untracked
/// files.
pub fn is_dirty(manifest_location: &Path) -> (r: Option<bool>)
    ensures
        r matches Some(dirty) ==> exists|flags: Seq<u32>|
            #[trigger] of_tracked_entries(flags) && dirty == any_changed(flags),
{
    let read = match git_calls::discover(manifest_location) {
        Ok(repo) => match tracked_flags(&repo) {
            Ok(flags) => Some(flags),
            Err(_) => None,
        },
        Err(_) => None,
    };
    dirty_outcome(read)
}

/// Everything that is known of the repository that holds
/// `manifest_location`. `None` where no repository is found, or HEAD
/// cannot be read.
///
/// The record is `info_outcome` of what gitoxide answers, and that is
/// decided by the repository on disk. Whatever it holds, a record either
/// has the full commit hash, or holds nothing but the branch; the full
/// hash has forty digits of lowercase hexadecimal, and an abbreviated hash
/// starts it and has four digits or more.
pub fn get_repo_info(manifest_location: &Path) -> (r: Option<RepoInfo>)
    ensures
        r matches Some(info) ==> info@.commit_id is Some || info@.has_no_commit(),
        r matches Some(info) ==> info@.short_abbreviates_full(),
{
    let read = match discover(manifest_location) {
        Err(_) => None,
        Ok(repo) => match head_name(&repo) {
            Err(_) => None,
            Ok(name) => {
                let branch = branch_of(name);
                let commit = match head_commit(&repo) {
                    Ok(commit) => {
                        let tag = describe_format(&commit).ok();
                        let dirty = is_dirty(manifest_location);
                        let (id, short) = commit_ids(&commit);
                        Some(HeadCommit { tag, dirty, id, short: short.ok() })
                    },
                    Err(_) => None,
                };
                Some((branch, commit))
            },
        },
    };
    info_outcome(read)
}

impl Backend for Gitoxide {
    fn head(&self, path: &Path) -> (r: Result<Option<Head>, BackendError>)
        ensures
            r is Ok,
            r matches Ok(Some(found)) ==> short_abbreviates_full(found),
    {
        match get_repo_info(path) {
            Some(info) => Ok(info.into_head()),
            None => Ok(None),
        }
    }

    fn describe(&self, path: &Path) -> (r: Result<Option<Description>, BackendError>)
        ensures
            r is Ok,
    {
        match get_repo_info(path) {
            Some(info) => Ok(info.into_description()),
            None => Ok(None),
        }
    }
}

} // verus!
