//! Where settings come from: a file, raw JSON text, or a structured object.

use vstd::prelude::*;
use vstd::std_specs::convert::FromSpecImpl;
use std::path::{Path, PathBuf};
use crate::object::SettingsObject;

verus! {

/// `std::path::PathBuf`, carried as an opaque value.
#[verifier::external_type_specification]
#[verifier::external_body]
pub struct ExPathBuf(PathBuf);

/// `std::path::Path`, carried as an opaque value.
#[verifier::external_type_specification]
#[verifier::external_body]
pub struct ExPath(Path);

/// `Clone` for `PathBuf`: the copy is the same path.
pub assume_specification[ <PathBuf as Clone>::clone ](path: &PathBuf) -> (r: PathBuf)
    ensures
        r == *path,
;

/// The owned path that `Path::to_path_buf` makes of `path`: the same path.
pub uninterp spec fn owned_path(path: &Path) -> PathBuf;

/// `Path::to_path_buf`: an owned copy of the path.
#[verifier::external_body]
fn to_path_buf(path: &Path) -> (r: PathBuf)
    ensures
        r == owned_path(path),
{
    path.to_path_buf()
}

/// Settings for the command-line tool, in one of three forms.
///
/// A path and a structured object convert into it with `from`. Raw JSON
/// text does not: it is given as `Settings::Json` by name, and nothing here
/// looks at the text.
#[derive(Debug, Clone)]
pub enum Settings {
    /// Path to a settings JSON file. The file is not looked for.
    Path(PathBuf),
    /// Raw JSON text, not yet parsed.
    Json(String),
    /// Structured settings.
    Object(SettingsObject),
}

impl From<PathBuf> for Settings {
    /// The path form, holding `path` as it is.
    fn from(path: PathBuf) -> (r: Settings)
        ensures
            r == Settings::Path(path),
    {
        Settings::Path(path)
    }
}

impl FromSpecImpl<PathBuf> for Settings {
    open spec fn obeys_from_spec() -> bool {
        true
    }

    open spec fn from_spec(path: PathBuf) -> Settings {
        Settings::Path(path)
    }
}

impl From<&Path> for Settings {
    /// The path form, holding an owned copy of `path`.
    fn from(path: &Path) -> (r: Settings)
        ensures
            r == Settings::Path(owned_path(path)),
    {
        Settings::Path(to_path_buf(path))
    }
}

impl FromSpecImpl<&Path> for Settings {
    open spec fn obeys_from_spec() -> bool {
        true
    }

    open spec fn from_spec(path: &Path) -> Settings {
        Settings::Path(owned_path(path))
    }
}

impl From<SettingsObject> for Settings {
    /// The structured form, holding `obj` as it is.
    fn from(obj: SettingsObject) -> (r: Settings)
        ensures
            r == Settings::Object(obj),
    {
        Settings::Object(obj)
    }
}

impl FromSpecImpl<SettingsObject> for Settings {
    open spec fn obeys_from_spec() -> bool {
        true
    }

    open spec fn from_spec(obj: SettingsObject) -> Settings {
        Settings::Object(obj)
    }
}

} // verus!
