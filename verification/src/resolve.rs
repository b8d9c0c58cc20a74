//! The precedence rules: how the values a caller supplies are completed
//! with what a backend answers.
//!
//! The rules are stated on the views, as spec functions of `RepoInfoView`;
//! each executable function computes one of them. At their heart is the
//! field-wise merge of two records, of which the first has precedence.

use std::path::Path;
use vstd::prelude::*;
use crate::backend::{available, Backend};
use crate::record::{
    Description, DescriptionView, Head, HeadView, RepoInfo, RepoInfoView, description_view,
    head_view, opt_description_view, opt_head_view,
};
use crate::text::{first_chars, leading};

verus! {

/// Number of characters of a commit hash that stand for it where no
/// abbreviated hash is known.
pub const SHORT_HASH_LEN: usize = 8;

impl RepoInfoView {
    /// Whether a value is missing that only a query of HEAD can supply.
    pub open spec fn needs_head(self) -> bool {
        self.branch is None || self.commit_id is None || self.commit_id_short is None
    }

    /// Whether a value is missing that only a describe query can supply.
    pub open spec fn needs_describe(self) -> bool {
        self.tag is None || self.dirty is None
    }

    /// The field-wise merge of two records, of which `self` has
    /// precedence: each value is that of `self` where it has one, and that
    /// of `other` where it has none.
    pub open spec fn merge(self, other: RepoInfoView) -> RepoInfoView {
        RepoInfoView {
            branch: if self.branch is Some {
                self.branch
            } else {
                other.branch
            },
            tag: if self.tag is Some {
                self.tag
            } else {
                other.tag
            },
            dirty: if self.dirty is Some {
                self.dirty
            } else {
                other.dirty
            },
            commit_id: if self.commit_id is Some {
                self.commit_id
            } else {
                other.commit_id
            },
            commit_id_short: if self.commit_id_short is Some {
                self.commit_id_short
            } else {
                other.commit_id_short
            },
        }
    }

    /// The record that holds an answer about HEAD and nothing else.
    pub open spec fn of_head(head: HeadView) -> RepoInfoView {
        RepoInfoView {
            branch: head.branch,
            tag: None,
            dirty: None,
            commit_id: Some(head.commit),
            commit_id_short: Some(head.commit_short),
        }
    }

    /// The record that holds a describe answer and nothing else.
    pub open spec fn of_description(description: DescriptionView) -> RepoInfoView {
        RepoInfoView {
            branch: None,
            tag: Some(description.tag),
            dirty: Some(description.dirty),
            commit_id: None,
            commit_id_short: None,
        }
    }

    /// The record with each missing HEAD value taken from `head`. A value
    /// that is present stays.
    pub open spec fn fill_head(self, head: Option<HeadView>) -> RepoInfoView {
        match head {
            None => self,
            Some(h) => self.merge(RepoInfoView::of_head(h)),
        }
    }

    /// The record with each missing describe value taken from
    /// `description`. A value that is present stays.
    pub open spec fn fill_describe(self, description: Option<DescriptionView>) -> RepoInfoView {
        match description {
            None => self,
            Some(d) => self.merge(RepoInfoView::of_description(d)),
        }
    }

    /// The record with a missing abbreviated hash taken from the start of
    /// the full hash, where that is known.
    pub open spec fn derive_short(self) -> RepoInfoView {
        match (self.commit_id, self.commit_id_short) {
            (Some(id), None) => RepoInfoView {
                commit_id_short: Some(leading(id, SHORT_HASH_LEN as nat)),
                ..self
            },
            _ => self,
        }
    }
}

/// The resolved record: the overrides, completed from the answer about
/// HEAD, then from the describe answer, then by deriving the abbreviated
/// hash. `None` stands for a backend that had no answer.
pub open spec fn resolved(
    overrides: RepoInfoView,
    head: Option<HeadView>,
    description: Option<DescriptionView>,
) -> RepoInfoView {
    overrides.fill_head(head).fill_describe(description).derive_short()
}

impl RepoInfo {
    /// Whether HEAD has to be queried to complete this record.
    pub fn needs_head(&self) -> (b: bool)
        ensures
            b == self@.needs_head(),
    {
        self.branch.is_none() || self.commit_id.is_none() || self.commit_id_short.is_none()
    }

    /// Whether a describe query is needed to complete this record.
    pub fn needs_describe(&self) -> (b: bool)
        ensures
            b == self@.needs_describe(),
    {
        self.tag.is_none() || self.dirty.is_none()
    }

    /// Merges two records field by field. Each value is that of `self`
    /// where it has one, and that of `other` where it has none.
    pub fn merge(self, other: RepoInfo) -> (r: RepoInfo)
        ensures
            r@ == self@.merge(other@),
    {
        RepoInfo {
            branch: if self.branch.is_some() {
                self.branch
            } else {
                other.branch
            },
            tag: if self.tag.is_some() {
                self.tag
            } else {
                other.tag
            },
            dirty: if self.dirty.is_some() {
                self.dirty
            } else {
                other.dirty
            },
            commit_id: if self.commit_id.is_some() {
                self.commit_id
            } else {
                other.commit_id
            },
            commit_id_short: if self.commit_id_short.is_some() {
                self.commit_id_short
            } else {
                other.commit_id_short
            },
        }
    }

    /// The record that holds an answer about HEAD and nothing else.
    pub fn of_head(head: Head) -> (r: RepoInfo)
        ensures
            r@ == RepoInfoView::of_head(head_view(head)),
    {
        let (branch, commit, commit_short) = head;
        RepoInfo {
            branch,
            tag: None,
            dirty: None,
            commit_id: Some(commit),
            commit_id_short: Some(commit_short),
        }
    }

    /// The record that holds a describe answer and nothing else.
    pub fn of_description(description: Description) -> (r: RepoInfo)
        ensures
            r@ == RepoInfoView::of_description(description_view(description)),
    {
        let (tag, dirty) = description;
        RepoInfo {
            branch: None,
            tag: Some(tag),
            dirty: Some(dirty),
            commit_id: None,
            commit_id_short: None,
        }
    }

    /// Takes each missing HEAD value from `head`.
    pub fn fill_head(self, head: Option<Head>) -> (r: RepoInfo)
        ensures
            r@ == self@.fill_head(opt_head_view(head)),
    {
        match head {
            None => self,
            Some(found) => self.merge(RepoInfo::of_head(found)),
        }
    }

    /// Takes each missing describe value from `description`.
    pub fn fill_describe(self, description: Option<Description>) -> (r: RepoInfo)
        ensures
            r@ == self@.fill_describe(opt_description_view(description)),
    {
        match description {
            None => self,
            Some(found) => self.merge(RepoInfo::of_description(found)),
        }
    }

    /// Derives a missing abbreviated hash from the full hash.
    pub fn derive_short(self) -> (r: RepoInfo)
        ensures
            r@ == self@.derive_short(),
    {
        if self.commit_id_short.is_some() {
            return self;
        }
        let derived = match &self.commit_id {
            Some(id) => Some(first_chars(id.as_str(), SHORT_HASH_LEN)),
            None => None,
        };
        RepoInfo {
            branch: self.branch,
            tag: self.tag,
            dirty: self.dirty,
            commit_id: self.commit_id,
            commit_id_short: derived,
        }
    }
}

/// Completes `overrides` from what the backend answered. `None` stands for
/// a query that was not made or had no answer.
pub fn resolve_with(overrides: RepoInfo, head: Option<Head>, description: Option<Description>) -> (info:
    RepoInfo)
    ensures
        info@ == resolved(overrides@, opt_head_view(head), opt_description_view(description)),
{
    overrides.fill_head(head).fill_describe(description).derive_short()
}

/// Resolves the record for the repository that holds `path`: starts from
/// `overrides` and asks `backend` for what is missing. A query whose values
/// are all overridden is not made. A query that fails contributes nothing
/// and does not keep the rest from being resolved.
///
/// Whatever the backend answers, the result is `resolved` of the overrides
/// and some pair of answers; so every override stands, and a record with a
/// full hash has an abbreviated one. Where every value is overridden the
/// backend is not asked and the result is the overrides.
pub fn resolve<B: Backend>(backend: &B, path: &Path, overrides: RepoInfo) -> (info: RepoInfo)
    ensures
        exists|head: Option<HeadView>, description: Option<DescriptionView>|
            info@ == #[trigger] resolved(overrides@, head, description),
        overrides@.branch is Some ==> info@.branch == overrides@.branch,
        overrides@.tag is Some ==> info@.tag == overrides@.tag,
        overrides@.dirty is Some ==> info@.dirty == overrides@.dirty,
        overrides@.commit_id is Some ==> info@.commit_id == overrides@.commit_id,
        overrides@.commit_id_short is Some ==> info@.commit_id_short
            == overrides@.commit_id_short,
        info@.commit_id is Some ==> info@.commit_id_short is Some,
        !overrides@.needs_head() && !overrides@.needs_describe() ==> info@ == overrides@,
{
    let head = if overrides.needs_head() {
        available(backend.head(path))
    } else {
        None
    };
    let description = if overrides.needs_describe() {
        available(backend.describe(path))
    } else {
        None
    };
    resolve_with(overrides, head, description)
}

} // verus!
