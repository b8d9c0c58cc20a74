//! Overrides: values that the caller supplies in place of what a backend
//! would answer. They arrive as texts; the texts of the text values pass
//! through, the text of the dirty flag is parsed strictly. That nothing
//! was supplied is the normal case. What was supplied and cannot be read
//! as its type is an error, and is never passed over.

use vstd::prelude::*;
use vstd::string::*;
use crate::error::OverrideFormatError;
use crate::record::{RepoInfo, RepoInfoView};
use crate::variables::Field;

verus! {

/// What was found under the name of a value.
pub enum Supplied {
    /// Nothing: the value is not overridden.
    Nothing,
    /// A text.
    Text(String),
    /// Something that is no valid text, shown as far as it can be.
    NotText(String),
}

/// What was found under the names of the five values.
pub struct RawOverrides {
    pub branch: Supplied,
    pub tag: Supplied,
    pub dirty: Supplied,
    pub commit_id: Supplied,
    pub commit_id_short: Supplied,
}

/// The flag that a text stands for: `true` and `false` are flags, written
/// exactly so, and nothing else is.
pub open spec fn flag_of(text: Seq<char>) -> Option<bool> {
    if text == seq!['t', 'r', 'u', 'e'] {
        Some(true)
    } else if text == seq!['f', 'a', 'l', 's', 'e'] {
        Some(false)
    } else {
        None
    }
}

/// The flag that an optional text stands for, where there is a text.
pub open spec fn opt_flag_of(text: Option<Seq<char>>) -> Option<bool> {
    match text {
        Some(t) => flag_of(t),
        None => None,
    }
}

impl Supplied {
    /// The text that was supplied, where a text was.
    pub open spec fn text(self) -> Option<Seq<char>> {
        match self {
            Supplied::Text(t) => Some(t@),
            _ => None,
        }
    }

    /// What keeps this from being a text value: what was supplied and is
    /// no text.
    pub open spec fn text_fault(self) -> Option<Seq<char>> {
        match self {
            Supplied::NotText(shown) => Some(shown@),
            _ => None,
        }
    }

    /// What keeps this from being a flag: what was supplied and is no
    /// text, or a text that is no flag.
    pub open spec fn flag_fault(self) -> Option<Seq<char>> {
        match self {
            Supplied::Nothing => None,
            Supplied::Text(t) => if flag_of(t@) is None {
                Some(t@)
            } else {
                None
            },
            Supplied::NotText(shown) => Some(shown@),
        }
    }
}

impl RawOverrides {
    /// What was supplied for a value.
    pub open spec fn supplied(self, field: Field) -> Supplied {
        match field {
            Field::Version => self.tag,
            Field::Dirty => self.dirty,
            Field::HeadRef => self.branch,
            Field::CommitHash => self.commit_id,
            Field::CommitHashShort => self.commit_id_short,
        }
    }

    /// What was supplied for a value and cannot be read as its type.
    pub open spec fn fault(self, field: Field) -> Option<Seq<char>> {
        match field {
            Field::Dirty => self.dirty.flag_fault(),
            _ => self.supplied(field).text_fault(),
        }
    }

    /// The first value, in the order of the values, for which something
    /// was supplied that cannot be read as its type.
    pub open spec fn first_fault(self) -> Option<Field> {
        if self.fault(Field::Version) is Some {
            Some(Field::Version)
        } else if self.fault(Field::Dirty) is Some {
            Some(Field::Dirty)
        } else if self.fault(Field::HeadRef) is Some {
            Some(Field::HeadRef)
        } else if self.fault(Field::CommitHash) is Some {
            Some(Field::CommitHash)
        } else if self.fault(Field::CommitHashShort) is Some {
            Some(Field::CommitHashShort)
        } else {
            None
        }
    }
}

/// The overrides that stand for what was supplied, where all of it can be
/// read.
pub open spec fn overrides_of(raw: RawOverrides) -> RepoInfoView {
    RepoInfoView {
        branch: raw.branch.text(),
        tag: raw.tag.text(),
        dirty: opt_flag_of(raw.dirty.text()),
        commit_id: raw.commit_id.text(),
        commit_id_short: raw.commit_id_short.text(),
    }
}

/// Reads a text as a flag.
pub fn parse_flag(text: &str) -> (flag: Option<bool>)
    ensures
        flag == flag_of(text@),
{
    let n: usize = text.unicode_len();
    if n == 4 && text.get_char(0) == 't' && text.get_char(1) == 'r' && text.get_char(2) == 'u'
        && text.get_char(3) == 'e' {
        assert(text@ =~= seq!['t', 'r', 'u', 'e']);
        Some(true)
    } else if n == 5 && text.get_char(0) == 'f' && text.get_char(1) == 'a' && text.get_char(2)
        == 'l' && text.get_char(3) == 's' && text.get_char(4) == 'e' {
        assert(text@ =~= seq!['f', 'a', 'l', 's', 'e']);
        Some(false)
    } else {
        None
    }
}

/// Reads what was supplied for a text value: the text passes through,
/// nothing is no override, and what is no text is an error that names the
/// value.
pub fn text_override(field: Field, supplied: Supplied) -> (r: Result<
    Option<String>,
    OverrideFormatError,
>)
    ensures
        r is Ok <==> supplied.text_fault() is None,
        r matches Ok(text) ==> match supplied {
            Supplied::Text(t) => text == Some(t),
            _ => text is None,
        },
        r matches Err(e) ==> e.name@ == field.name_text() && Some(e.value@)
            == supplied.text_fault(),
{
    match supplied {
        Supplied::Nothing => Ok(None),
        Supplied::Text(text) => Ok(Some(text)),
        Supplied::NotText(shown) => Err(
            OverrideFormatError { name: field.name().to_owned(), value: shown },
        ),
    }
}

/// Reads what was supplied for the dirty flag: `true` and `false` are
/// flags, nothing is no override, and all else is an error that names the
/// flag.
pub fn flag_override(supplied: Supplied) -> (r: Result<Option<bool>, OverrideFormatError>)
    ensures
        r is Ok <==> supplied.flag_fault() is None,
        r matches Ok(flag) ==> flag == opt_flag_of(supplied.text()),
        r matches Err(e) ==> e.name@ == Field::Dirty.name_text() && Some(e.value@)
            == supplied.flag_fault(),
{
    match supplied {
        Supplied::Nothing => Ok(None),
        Supplied::Text(text) => match parse_flag(text.as_str()) {
            Some(flag) => Ok(Some(flag)),
            None => Err(OverrideFormatError { name: Field::Dirty.name().to_owned(), value: text }),
        },
        Supplied::NotText(shown) => Err(
            OverrideFormatError { name: Field::Dirty.name().to_owned(), value: shown },
        ),
    }
}

/// Turns what was supplied into overrides. It fails exactly where
/// something was supplied that cannot be read as its type: what is no
/// text, or a text for the dirty flag that is no flag. The error names the
/// first such value, in the order of the values, and holds what was
/// supplied for it.
pub fn parse_overrides(raw: RawOverrides) -> (r: Result<RepoInfo, OverrideFormatError>)
    ensures
        r is Ok <==> raw.first_fault() is None,
        r matches Ok(overrides) ==> overrides@ == overrides_of(raw),
        r matches Err(e) ==> raw.first_fault() matches Some(field) && e.name@ == field.name_text()
            && Some(e.value@) == raw.fault(field),
{
    let tag = match text_override(Field::Version, raw.tag) {
        Ok(tag) => tag,
        Err(e) => return Err(e),
    };
    let dirty = match flag_override(raw.dirty) {
        Ok(dirty) => dirty,
        Err(e) => return Err(e),
    };
    let branch = match text_override(Field::HeadRef, raw.branch) {
        Ok(branch) => branch,
        Err(e) => return Err(e),
    };
    let commit_id = match text_override(Field::CommitHash, raw.commit_id) {
        Ok(commit_id) => commit_id,
        Err(e) => return Err(e),
    };
    let commit_id_short = match text_override(Field::CommitHashShort, raw.commit_id_short) {
        Ok(commit_id_short) => commit_id_short,
        Err(e) => return Err(e),
    };
    Ok(RepoInfo { branch, tag, dirty, commit_id, commit_id_short })
}

} // verus!
