//! The five named values that a resolved record is handed on as, each with
//! its name, its type, its value written as an expression of that type,
//! and its documentation.

use vstd::prelude::*;
use vstd::string::*;
use crate::record::{RepoInfo, RepoInfoView};
use crate::text::opt_text;

verus! {

/// The values of a record, in the order in which they are handed on.
#[derive(Clone, Copy, Debug, PartialEq, Eq)]
pub enum Field {
    /// The describe string.
    Version,
    /// Whether tracked files were changed.
    Dirty,
    /// The reference that HEAD points to.
    HeadRef,
    /// The full commit hash.
    CommitHash,
    /// The abbreviated commit hash.
    CommitHashShort,
}

/// Documentation of the describe string.
pub const DOC_VERSION: &'static str =
    "If the crate was compiled from within a git-repository, `GIT_VERSION` contains HEAD's tag. The short commit id is used if HEAD is not tagged.";

/// Documentation of the dirty flag.
pub const DOC_DIRTY: &'static str = "If the repository had dirty/staged files.";

/// Documentation of the reference of HEAD.
pub const DOC_HEAD_REF: &'static str =
    "If the crate was compiled from within a git-repository, `GIT_HEAD_REF` contains full name to the reference pointed to by HEAD (e.g.: `refs/heads/master`). If HEAD is detached or the branch name is not valid UTF-8 `None` will be stored.\n";

/// Documentation of the full commit hash.
pub const DOC_COMMIT_HASH: &'static str =
    "If the crate was compiled from within a git-repository, `GIT_COMMIT_HASH` contains HEAD's full commit SHA-1 hash.";

/// Documentation of the abbreviated commit hash.
pub const DOC_COMMIT_HASH_SHORT: &'static str =
    "If the crate was compiled from within a git-repository, `GIT_COMMIT_HASH_SHORT` contains HEAD's short commit SHA-1 hash.";

/// One named value, ready to be written.
pub struct Variable {
    /// The name of the value.
    pub name: &'static str,
    /// The type of the value, as it is written.
    pub datatype: &'static str,
    /// The value, written as an expression of that type.
    pub value: String,
    /// What the value means.
    pub doc: &'static str,
}

/// How an optional text is written: `None`, or `Some("..")` around the
/// text.
pub open spec fn option_str_text(o: Option<Seq<char>>) -> Seq<char> {
    match o {
        Some(s) => "Some(\""@ + s + "\")"@,
        None => "None"@,
    }
}

/// How an optional flag is written.
pub open spec fn option_bool_text(o: Option<bool>) -> Seq<char> {
    match o {
        Some(true) => "Some(true)"@,
        Some(false) => "Some(false)"@,
        None => "None"@,
    }
}

impl Field {
    /// The field at a position of the order in which the values are
    /// handed on.
    pub open spec fn at(i: int) -> Field {
        if i == 0 {
            Field::Version
        } else if i == 1 {
            Field::Dirty
        } else if i == 2 {
            Field::HeadRef
        } else if i == 3 {
            Field::CommitHash
        } else {
            Field::CommitHashShort
        }
    }

    /// The name under which the value is handed on, and under which an
    /// override for it is supplied.
    pub open spec fn name_text(self) -> Seq<char> {
        match self {
            Field::Version => "GIT_VERSION"@,
            Field::Dirty => "GIT_DIRTY"@,
            Field::HeadRef => "GIT_HEAD_REF"@,
            Field::CommitHash => "GIT_COMMIT_HASH"@,
            Field::CommitHashShort => "GIT_COMMIT_HASH_SHORT"@,
        }
    }

    /// The type of the value as it is written.
    pub open spec fn datatype_text(self) -> Seq<char> {
        match self {
            Field::Dirty => "Option<bool>"@,
            _ => "Option<&str>"@,
        }
    }

    /// What the value means, for a reader of what is written.
    pub open spec fn doc_text(self) -> Seq<char> {
        match self {
            Field::Version => DOC_VERSION@,
            Field::Dirty => DOC_DIRTY@,
            Field::HeadRef => DOC_HEAD_REF@,
            Field::CommitHash => DOC_COMMIT_HASH@,
            Field::CommitHashShort => DOC_COMMIT_HASH_SHORT@,
        }
    }

    /// The value of the field in a record, as it is written.
    pub open spec fn value_text(self, info: RepoInfoView) -> Seq<char> {
        match self {
            Field::Version => option_str_text(info.tag),
            Field::Dirty => option_bool_text(info.dirty),
            Field::HeadRef => option_str_text(info.branch),
            Field::CommitHash => option_str_text(info.commit_id),
            Field::CommitHashShort => option_str_text(info.commit_id_short),
        }
    }

    /// The name under which the value is handed on, and under which an
    /// override for it is supplied.
    pub fn name(self) -> (s: &'static str)
        ensures
            s@ == self.name_text(),
    {
        match self {
            Field::Version => "GIT_VERSION",
            Field::Dirty => "GIT_DIRTY",
            Field::HeadRef => "GIT_HEAD_REF",
            Field::CommitHash => "GIT_COMMIT_HASH",
            Field::CommitHashShort => "GIT_COMMIT_HASH_SHORT",
        }
    }

    /// The type of the value as it is written.
    pub fn datatype(self) -> (s: &'static str)
        ensures
            s@ == self.datatype_text(),
    {
        match self {
            Field::Dirty => "Option<bool>",
            _ => "Option<&str>",
        }
    }

    /// What the value means, for a reader of what is written.
    pub fn doc(self) -> (s: &'static str)
        ensures
            s@ == self.doc_text(),
    {
        match self {
            Field::Version => DOC_VERSION,
            Field::Dirty => DOC_DIRTY,
            Field::HeadRef => DOC_HEAD_REF,
            Field::CommitHash => DOC_COMMIT_HASH,
            Field::CommitHashShort => DOC_COMMIT_HASH_SHORT,
        }
    }
}

/// Writes an optional text as an expression: `None`, or `Some("..")`
/// around the text.
pub fn fmt_option_str(o: &Option<String>) -> (r: String)
    ensures
        r@ == option_str_text(opt_text(*o)),
{
    match o {
        Some(s) => {
            let mut r = "Some(\"".to_owned();
            r.append(s.as_str());
            r.append("\")");
            r
        },
        None => "None".to_owned(),
    }
}

/// Writes an optional flag as an expression.
pub fn fmt_option_bool(o: Option<bool>) -> (r: &'static str)
    ensures
        r@ == option_bool_text(o),
{
    match o {
        Some(true) => "Some(true)",
        Some(false) => "Some(false)",
        None => "None",
    }
}

/// Whether `vars` are the five values of `info`, in the order in which
/// they are handed on, each with its name, type, value and documentation.
pub open spec fn written_as(vars: Seq<Variable>, info: RepoInfoView) -> bool {
    &&& vars.len() == 5
    &&& forall|i: int|
        0 <= i < 5 ==> {
            &&& (#[trigger] vars[i]).name@ == Field::at(i).name_text()
            &&& vars[i].datatype@ == Field::at(i).datatype_text()
            &&& vars[i].value@ == Field::at(i).value_text(info)
            &&& vars[i].doc@ == Field::at(i).doc_text()
        }
}

/// One value of the record, ready to be written.
pub fn variable(field: Field, info: &RepoInfo) -> (v: Variable)
    ensures
        v.name@ == field.name_text(),
        v.datatype@ == field.datatype_text(),
        v.value@ == field.value_text(info@),
        v.doc@ == field.doc_text(),
{
    let value = match field {
        Field::Version => fmt_option_str(&info.tag),
        Field::Dirty => fmt_option_bool(info.dirty).to_owned(),
        Field::HeadRef => fmt_option_str(&info.branch),
        Field::CommitHash => fmt_option_str(&info.commit_id),
        Field::CommitHashShort => fmt_option_str(&info.commit_id_short),
    };
    Variable { name: field.name(), datatype: field.datatype(), value, doc: field.doc() }
}

/// The five values of the record in the order in which they are handed
/// on: describe string, dirty flag, reference of HEAD, full hash,
/// abbreviated hash.
pub fn variables(info: &RepoInfo) -> (vars: Vec<Variable>)
    ensures
        written_as(vars@, info@),
{
    let mut vars: Vec<Variable> = Vec::new();
    vars.push(variable(Field::Version, info));
    vars.push(variable(Field::Dirty, info));
    vars.push(variable(Field::HeadRef, info));
    vars.push(variable(Field::CommitHash, info));
    vars.push(variable(Field::CommitHashShort, info));
    vars
}

} // verus!
