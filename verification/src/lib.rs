//! Resolves the identity of the version-control repository that holds a
//! project's source: the reference HEAD points to, a describe string, the
//! commit hash in full and abbreviated, and whether tracked files were
//! changed.
//!
//! Every value may be overridden by the caller. What is not overridden is
//! asked of a repository backend, and an override always wins over what the
//! backend answers.
//!
//! - `record`: the resolved record and the answers of a backend.
//! - `overrides`: from the texts that were supplied to overrides.
//! - `resolve`: the precedence rules and the resolver.
//! - `laws`: what holds of every resolution.
//! - `backend`: the interface to a repository backend.
//! - `git`: the queries on libgit2, of which the describe query is decided
//!   here and asked by the caller; `gitoxide`: the backend on gitoxide;
//!   `git_calls`, `gix_calls`, `std_calls`: their calls into the outside
//!   libraries and into std, which are believed, not proved.
//! - `status`: dirty detection.
//! - `variables`, `version`: the resolved values as they are written.

pub mod backend;
pub mod error;
pub mod git;
pub mod git_calls;
pub mod gitoxide;
pub mod gix_calls;
pub mod laws;
pub mod overrides;
pub mod record;
pub mod resolve;
pub mod status;
pub mod std_calls;
pub mod text;
pub mod variables;
pub mod version;

pub use crate::backend::Backend;
pub use crate::error::{BackendError, OverrideFormatError};
pub use crate::record::{Description, DescriptionView, Head, HeadView, RepoInfo, RepoInfoView};
