//! What holds of every resolution, whatever the backend answers.

use vstd::prelude::*;
use crate::record::{DescriptionView, HeadView, RepoInfoView};
use crate::resolve::{resolved, SHORT_HASH_LEN};
use crate::text::leading;
use crate::variables::Field;

verus! {

/// Each value of the resolved record, field by field: the override where
/// there is one, else the backend's answer where there is one, else
/// nothing. The abbreviated hash falls back on the start of the resolved
/// full hash.
pub proof fn law_resolved_fields(
    overrides: RepoInfoView,
    head: Option<HeadView>,
    description: Option<DescriptionView>,
)
    ensures
        ({
            let r = resolved(overrides, head, description);
            &&& r.branch == if overrides.branch is Some {
                overrides.branch
            } else if head is Some {
                head->0.branch
            } else {
                None
            }
            &&& r.tag == if overrides.tag is Some {
                overrides.tag
            } else if description is Some {
                Some(description->0.tag)
            } else {
                None
            }
            &&& r.dirty == if overrides.dirty is Some {
                overrides.dirty
            } else if description is Some {
                Some(description->0.dirty)
            } else {
                None
            }
            &&& r.commit_id == if overrides.commit_id is Some {
                overrides.commit_id
            } else if head is Some {
                Some(head->0.commit)
            } else {
                None
            }
            &&& r.commit_id_short == if overrides.commit_id_short is Some {
                overrides.commit_id_short
            } else if head is Some {
                Some(head->0.commit_short)
            } else if r.commit_id is Some {
                Some(leading(r.commit_id->0, SHORT_HASH_LEN as nat))
            } else {
                None
            }
        }),
{
}

/// The merge is field-wise: each value of the merged record depends on
/// that value of the two records and on no other. So one value can be
/// overridden alone, and the backend supplies the rest.
pub proof fn law_merge_is_field_wise(first: RepoInfoView, second: RepoInfoView)
    ensures
        first.merge(second).branch == if first.branch is Some {
            first.branch
        } else {
            second.branch
        },
        first.merge(second).tag == if first.tag is Some {
            first.tag
        } else {
            second.tag
        },
        first.merge(second).dirty == if first.dirty is Some {
            first.dirty
        } else {
            second.dirty
        },
        first.merge(second).commit_id == if first.commit_id is Some {
            first.commit_id
        } else {
            second.commit_id
        },
        first.merge(second).commit_id_short == if first.commit_id_short is Some {
            first.commit_id_short
        } else {
            second.commit_id_short
        },
        first.merge(RepoInfoView::empty()) == first,
        RepoInfoView::empty().merge(second) == second,
{
}

/// Resolving is merging: the resolved record is the overrides merged over
/// what the backend answered about HEAD and what it answered to describe,
/// with the abbreviated hash derived at the end.
pub proof fn law_resolved_is_merged(
    overrides: RepoInfoView,
    head: HeadView,
    description: DescriptionView,
)
    ensures
        resolved(overrides, Some(head), Some(description)) == overrides.merge(
            RepoInfoView::of_head(head).merge(RepoInfoView::of_description(description)),
        ).derive_short(),
        resolved(overrides, Some(head), None) == overrides.merge(
            RepoInfoView::of_head(head),
        ).derive_short(),
        resolved(overrides, None, Some(description)) == overrides.merge(
            RepoInfoView::of_description(description),
        ).derive_short(),
{
}

/// An override wins: a value that the caller supplied is the resolved
/// value, whatever the backend answers.
pub proof fn law_override_wins(
    overrides: RepoInfoView,
    head: Option<HeadView>,
    description: Option<DescriptionView>,
)
    ensures
        overrides.branch is Some ==> resolved(overrides, head, description).branch
            == overrides.branch,
        overrides.tag is Some ==> resolved(overrides, head, description).tag == overrides.tag,
        overrides.dirty is Some ==> resolved(overrides, head, description).dirty
            == overrides.dirty,
        overrides.commit_id is Some ==> resolved(overrides, head, description).commit_id
            == overrides.commit_id,
        overrides.commit_id_short is Some ==> resolved(
            overrides,
            head,
            description,
        ).commit_id_short == overrides.commit_id_short,
{
}

/// An overridden full hash without an overridden abbreviated hash: the
/// resolved abbreviated hash is the first eight characters of the
/// override. This holds where the backend has no answer about HEAD, or
/// answers with those eight characters; any other abbreviated hash that it
/// answers with fills the missing value before one is derived.
pub proof fn law_short_hash_from_override(
    overrides: RepoInfoView,
    head: Option<HeadView>,
    description: Option<DescriptionView>,
)
    requires
        overrides.commit_id is Some,
        overrides.commit_id_short is None,
        head is Some ==> head->0.commit_short == leading(
            overrides.commit_id->0,
            SHORT_HASH_LEN as nat,
        ),
    ensures
        resolved(overrides, head, description).commit_id_short == Some(
            leading(overrides.commit_id->0, SHORT_HASH_LEN as nat),
        ),
{
}

/// An abbreviated hash that was derived starts the full hash, and has
/// eight characters where the full hash has as many.
pub proof fn law_derived_short_hash_is_prefix(record: RepoInfoView)
    requires
        record.commit_id is Some,
        record.commit_id_short is None,
    ensures
        record.derive_short().commit_id == record.commit_id,
        record.derive_short().commit_id_short is Some,
        record.derive_short().commit_id_short->0.is_prefix_of(record.commit_id->0),
        record.derive_short().commit_id_short->0.len() == if record.commit_id->0.len()
            <= SHORT_HASH_LEN {
            record.commit_id->0.len()
        } else {
            SHORT_HASH_LEN as nat
        },
{
}

/// A resolved record with a full hash has an abbreviated hash too.
pub proof fn law_short_hash_present(
    overrides: RepoInfoView,
    head: Option<HeadView>,
    description: Option<DescriptionView>,
)
    ensures
        resolved(overrides, head, description).commit_id is Some ==> resolved(
            overrides,
            head,
            description,
        ).commit_id_short is Some,
{
}

/// Without a repository both queries are unavailable, and the resolved
/// record holds the overrides and nothing else, but for an abbreviated hash
/// derived from an overridden full hash.
pub proof fn law_no_repository(overrides: RepoInfoView)
    ensures
        resolved(overrides, None, None) == overrides.derive_short(),
        resolved(overrides, None, None).branch == overrides.branch,
        resolved(overrides, None, None).tag == overrides.tag,
        resolved(overrides, None, None).dirty == overrides.dirty,
        resolved(overrides, None, None).commit_id == overrides.commit_id,
        resolved(RepoInfoView::empty(), None, None) == RepoInfoView::empty(),
{
}

/// A query whose every value is overridden changes nothing, so it can be
/// left out.
pub proof fn law_skipped_query(
    overrides: RepoInfoView,
    head: Option<HeadView>,
    description: Option<DescriptionView>,
)
    ensures
        !overrides.needs_head() ==> resolved(overrides, head, description) == resolved(
            overrides,
            None,
            description,
        ),
        !overrides.needs_describe() ==> resolved(overrides, head, description) == resolved(
            overrides,
            head,
            None,
        ),
        !overrides.needs_head() && !overrides.needs_describe() ==> resolved(
            overrides,
            head,
            description,
        ) == overrides,
{
}

/// A record that holds a commit, its describe string and its dirtiness is
/// restored from the two answers that it holds: resolving them without
/// overrides gives the record again, its abbreviated hash derived where it
/// had none.
pub proof fn law_answers_restore_record(record: RepoInfoView)
    requires
        record.commit_id is Some,
        record.tag is Some,
        record.dirty is Some,
    ensures
        resolved(RepoInfoView::empty(), record.head(), record.description())
            == record.derive_short(),
{
}

/// The five values go by five different names, so an override can be
/// supplied for each of them alone.
pub proof fn law_names_are_distinct(a: Field, b: Field)
    requires
        a != b,
    ensures
        a.name_text() != b.name_text(),
{
    reveal_strlit("GIT_VERSION");
    reveal_strlit("GIT_DIRTY");
    reveal_strlit("GIT_HEAD_REF");
    reveal_strlit("GIT_COMMIT_HASH");
    reveal_strlit("GIT_COMMIT_HASH_SHORT");
    assert(Field::Version.name_text().len() == 11);
    assert(Field::Dirty.name_text().len() == 9);
    assert(Field::HeadRef.name_text().len() == 12);
    assert(Field::CommitHash.name_text().len() == 15);
    assert(Field::CommitHashShort.name_text().len() == 21);
}

} // verus!
