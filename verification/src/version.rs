//! From the overrides as they were supplied to the values as they are
//! written: the whole of a resolution but for reading the overrides and
//! writing the result.

use std::path::Path;
use vstd::prelude::*;
use crate::backend::Backend;
use crate::error::OverrideFormatError;
use crate::overrides::{overrides_of, parse_overrides, RawOverrides};
use crate::record::{DescriptionView, HeadView};
use crate::resolve::{resolve, resolved};
use crate::variables::{variables, written_as, Variable};

verus! {

/// Resolves the repository that holds `manifest_location`, starting from
/// the overrides that were supplied, and hands back the five values ready
/// to be written.
///
/// It fails exactly where something was supplied that cannot be read as
/// its type, and then before the backend is asked anything; the error
/// names the first such value. Else the values are those of the record
/// resolved from the overrides and what the backend answers.
pub fn git_version<B: Backend>(backend: &B, manifest_location: &Path, raw: RawOverrides) -> (r:
    Result<Vec<Variable>, OverrideFormatError>)
    ensures
        r is Ok <==> raw.first_fault() is None,
        r matches Ok(vars) ==> exists|head: Option<HeadView>, description: Option<DescriptionView>|
            written_as(vars@, #[trigger] resolved(overrides_of(raw), head, description)),
        r matches Err(e) ==> raw.first_fault() matches Some(field) && e.name@ == field.name_text()
            && Some(e.value@) == raw.fault(field),
{
    match parse_overrides(raw) {
        Ok(overrides) => {
            let info = resolve(backend, manifest_location, overrides);
            Ok(variables(&info))
        },
        Err(e) => Err(e),
    }
}

} // verus!
