//! The errors of reading settings.

use vstd::prelude::*;

verus! {

/// Why a settings value could not be read.
#[derive(Debug, Clone, Copy, PartialEq, Eq, Structural)]
pub enum SettingsError {
    /// The text is not one well-formed JSON value.
    Syntax,
    /// The JSON value does not have the shape of the settings type: it is no
    /// object, or a known key holds a value of the wrong type.
    Schema,
}

} // verus!
