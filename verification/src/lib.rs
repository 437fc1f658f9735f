//! Settings schema for the sandboxing behaviour of a command-line tool:
//! the forms a settings value can take, the structured sandbox policy, and
//! the mapping between that policy and its JSON object.
//!
//! The types hold what they are given; nothing here checks a path, a port or
//! a command name. Encoding omits absent fields, writes camel-case keys
//! (the ignored violations keep their field names) and puts the additional
//! entries of a [`SettingsObject`] beside the `sandbox` key. Decoding reads
//! it all back, and the round trip is proved.

pub mod error;
pub mod fields;
pub mod json;
pub mod network;
pub mod object;
pub mod sandbox;
pub mod source;
pub mod violations;

pub use crate::error::SettingsError;
pub use crate::network::{SandboxNetworkConfig, SandboxNetworkConfigBuilder};
pub use crate::object::{SettingsObject, SettingsObjectBuilder};
pub use crate::sandbox::{SandboxSettings, SandboxSettingsBuilder};
pub use crate::source::Settings;
pub use crate::violations::{SandboxIgnoreViolations, SandboxIgnoreViolationsBuilder};
