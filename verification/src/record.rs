//! The resolved record, the answers of a backend, and their mathematical
//! views.

use vstd::prelude::*;
use crate::text::opt_text;

verus! {

/// What is known of the repository. An absent field is unknown or
/// unavailable; it is never an error.
#[derive(Debug, PartialEq)]
pub struct RepoInfo {
    /// Full name of the reference HEAD points to, such as
    /// `refs/heads/main`; absent where HEAD is detached or the name is no
    /// valid text.
    pub branch: Option<String>,
    /// Describe string: the nearest tag, or an abbreviated commit hash
    /// where no tag is reachable.
    pub tag: Option<String>,
    /// Whether a tracked file differs from its committed state.
    pub dirty: Option<bool>,
    /// Full commit hash of HEAD.
    pub commit_id: Option<String>,
    /// Abbreviated commit hash of HEAD.
    pub commit_id_short: Option<String>,
}

/// A `RepoInfo` with its texts as sequences of characters.
pub struct RepoInfoView {
    pub branch: Option<Seq<char>>,
    pub tag: Option<Seq<char>>,
    pub dirty: Option<bool>,
    pub commit_id: Option<Seq<char>>,
    pub commit_id_short: Option<Seq<char>>,
}

impl RepoInfoView {
    /// The record of which nothing is known.
    pub open spec fn empty() -> RepoInfoView {
        RepoInfoView {
            branch: None,
            tag: None,
            dirty: None,
            commit_id: None,
            commit_id_short: None,
        }
    }
}

impl View for RepoInfo {
    type V = RepoInfoView;

    open spec fn view(&self) -> RepoInfoView {
        RepoInfoView {
            branch: opt_text(self.branch),
            tag: opt_text(self.tag),
            dirty: self.dirty,
            commit_id: opt_text(self.commit_id),
            commit_id_short: opt_text(self.commit_id_short),
        }
    }
}

impl Default for RepoInfo {
    /// The record of which nothing is known.
    fn default() -> (r: RepoInfo)
        ensures
            r@ == RepoInfoView::empty(),
    {
        RepoInfo { branch: None, tag: None, dirty: None, commit_id: None, commit_id_short: None }
    }
}

/// What a backend answers about HEAD: the name of the reference it points
/// to (if any), the full commit hash and the abbreviated one.
pub type Head = (Option<String>, String, String);

/// What a backend answers about the work tree: the describe string, and
/// whether a tracked file was changed.
pub type Description = (String, bool);

/// A `Head` with its texts as sequences of characters.
pub struct HeadView {
    pub branch: Option<Seq<char>>,
    pub commit: Seq<char>,
    pub commit_short: Seq<char>,
}

/// A `Description` with its text as a sequence of characters.
pub struct DescriptionView {
    pub tag: Seq<char>,
    pub dirty: bool,
}

/// The view of an answer about HEAD.
pub open spec fn head_view(h: Head) -> HeadView {
    HeadView { branch: opt_text(h.0), commit: h.1@, commit_short: h.2@ }
}

/// The view of a describe answer.
pub open spec fn description_view(d: Description) -> DescriptionView {
    DescriptionView { tag: d.0@, dirty: d.1 }
}

/// The view of an answer about HEAD, where there is one.
pub open spec fn opt_head_view(h: Option<Head>) -> Option<HeadView> {
    match h {
        Some(h) => Some(head_view(h)),
        None => None,
    }
}

/// The view of a describe answer, where there is one.
pub open spec fn opt_description_view(d: Option<Description>) -> Option<DescriptionView> {
    match d {
        Some(d) => Some(description_view(d)),
        None => None,
    }
}

} // verus!
