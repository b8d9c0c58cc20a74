//! Dirty detection over the status flags of a repository's entries.

use vstd::prelude::*;

verus! {

/// The status of an entry that does not differ from its committed state.
pub const STATUS_CURRENT: u32 = 0;

/// Whether some entry is not current. A repository is dirty exactly when
/// this holds of the entries of its tracked files.
pub open spec fn any_changed(flags: Seq<u32>) -> bool {
    exists|i: int| 0 <= i < flags.len() && flags[i] != STATUS_CURRENT
}

/// Decides dirtiness from the status flags of the tracked entries.
pub fn is_dirty_among(flags: &Vec<u32>) -> (dirty: bool)
    ensures
        dirty == any_changed(flags@),
{
    let mut i: usize = 0;
    while i < flags.len()
        invariant
            i <= flags.len(),
            forall|j: int| 0 <= j < i ==> flags[j] == STATUS_CURRENT,
        decreases flags.len() - i,
    {
        if flags[i] != STATUS_CURRENT {
            return true;
        }
        i += 1;
    }
    false
}

} // verus!
