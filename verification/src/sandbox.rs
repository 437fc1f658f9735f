//! The sandbox policy for bash commands.

use vstd::prelude::*;
use crate::error::SettingsError;
use crate::fields::{bool_field, get_bool, get_strings, holds_bool, holds_strings, lemma_bool_reads_back, lemma_strings_read_back, put_bool, put_strings, slot, strings_field, written, Field};
use crate::json::{json_shape, map_entries, map_get, value_object, JsonEntries, JsonShape};
use crate::network::{get_network, holds_network, lemma_network_reads_back, network_field, put_network, NetworkConfigView, SandboxNetworkConfig};
use crate::violations::{get_violations, holds_violations, lemma_violations_read_back, put_violations, violations_field, IgnoreViolationsView, SandboxIgnoreViolations};

verus! {

/// Key of [`SandboxSettings::enabled`].
pub const ENABLED: &'static str = "enabled";

/// Key of [`SandboxSettings::auto_allow_bash_if_sandboxed`].
pub const AUTO_ALLOW_BASH_IF_SANDBOXED: &'static str = "autoAllowBashIfSandboxed";

/// Key of [`SandboxSettings::excluded_commands`].
pub const EXCLUDED_COMMANDS: &'static str = "excludedCommands";

/// Key of [`SandboxSettings::allow_unsandboxed_commands`].
pub const ALLOW_UNSANDBOXED_COMMANDS: &'static str = "allowUnsandboxedCommands";

/// Key of [`SandboxSettings::network`].
pub const NETWORK: &'static str = "network";

/// Key of [`SandboxSettings::ignore_violations`].
pub const IGNORE_VIOLATIONS: &'static str = "ignoreViolations";

/// Key of [`SandboxSettings::enable_weaker_nested_sandbox`].
pub const ENABLE_WEAKER_NESTED_SANDBOX: &'static str = "enableWeakerNestedSandbox";

/// Sandbox settings: how bash commands are isolated from the filesystem and
/// the network.
///
/// Filesystem and network restrictions themselves are permission rules, not
/// part of these settings. Every field is optional; the default named with a
/// field is the one applied by whoever reads the settings, and is not stored
/// here.
#[derive(Debug, Clone)]
pub struct SandboxSettings {
    /// Enable bash sandboxing (macOS and Linux only). Default: false.
    pub enabled: Option<bool>,
    /// Auto-approve bash commands when sandboxed. Default: true.
    pub auto_allow_bash_if_sandboxed: Option<bool>,
    /// Commands that run outside the sandbox, such as `git` or `docker`.
    pub excluded_commands: Option<Vec<String>>,
    /// Allow commands to bypass the sandbox on request. When false, every
    /// command runs sandboxed or is one of the excluded commands. Default:
    /// true.
    pub allow_unsandboxed_commands: Option<bool>,
    /// Network configuration for the sandbox.
    pub network: Option<SandboxNetworkConfig>,
    /// Violations to ignore.
    pub ignore_violations: Option<SandboxIgnoreViolations>,
    /// Enable a weaker sandbox for unprivileged container environments
    /// (Linux only). Reduces security. Default: false.
    pub enable_weaker_nested_sandbox: Option<bool>,
}

/// Sandbox settings as a mathematical value.
pub struct SandboxSettingsView {
    pub enabled: Option<bool>,
    pub auto_allow_bash_if_sandboxed: Option<bool>,
    pub excluded_commands: Option<Seq<Seq<char>>>,
    pub allow_unsandboxed_commands: Option<bool>,
    pub network: Option<NetworkConfigView>,
    pub ignore_violations: Option<IgnoreViolationsView>,
    pub enable_weaker_nested_sandbox: Option<bool>,
}

impl SandboxSettingsView {
    /// The settings with every field absent.
    pub open spec fn unset() -> SandboxSettingsView {
        SandboxSettingsView {
            enabled: None,
            auto_allow_bash_if_sandboxed: None,
            excluded_commands: None,
            allow_unsandboxed_commands: None,
            network: None,
            ignore_violations: None,
            enable_weaker_nested_sandbox: None,
        }
    }
}

/// The view of an optional network configuration.
pub open spec fn network_view(x: Option<SandboxNetworkConfig>) -> Option<NetworkConfigView> {
    match x {
        Some(c) => Some(c@),
        None => None,
    }
}

/// The view of optional ignored violations.
pub open spec fn violations_view(x: Option<SandboxIgnoreViolations>) -> Option<IgnoreViolationsView> {
    match x {
        Some(c) => Some(c@),
        None => None,
    }
}

impl View for SandboxSettings {
    type V = SandboxSettingsView;

    open spec fn view(&self) -> SandboxSettingsView {
        SandboxSettingsView {
            enabled: self.enabled,
            auto_allow_bash_if_sandboxed: self.auto_allow_bash_if_sandboxed,
            excluded_commands: self.excluded_commands.deep_view(),
            allow_unsandboxed_commands: self.allow_unsandboxed_commands,
            network: network_view(self.network),
            ignore_violations: violations_view(self.ignore_violations),
            enable_weaker_nested_sandbox: self.enable_weaker_nested_sandbox,
        }
    }
}

/// `k` is one of the keys of the sandbox settings.
pub open spec fn sandbox_key(k: Seq<char>) -> bool {
    ||| k == ENABLED@
    ||| k == AUTO_ALLOW_BASH_IF_SANDBOXED@
    ||| k == EXCLUDED_COMMANDS@
    ||| k == ALLOW_UNSANDBOXED_COMMANDS@
    ||| k == NETWORK@
    ||| k == IGNORE_VIOLATIONS@
    ||| k == ENABLE_WEAKER_NESTED_SANDBOX@
}

/// The entries `m` are those of the settings `c`: each present field under
/// its key, and no other key.
pub open spec fn sandbox_entries(m: JsonEntries, c: SandboxSettingsView) -> bool {
    &&& holds_bool(m, ENABLED@, c.enabled)
    &&& holds_bool(m, AUTO_ALLOW_BASH_IF_SANDBOXED@, c.auto_allow_bash_if_sandboxed)
    &&& holds_strings(m, EXCLUDED_COMMANDS@, c.excluded_commands)
    &&& holds_bool(m, ALLOW_UNSANDBOXED_COMMANDS@, c.allow_unsandboxed_commands)
    &&& holds_network(m, NETWORK@, c.network)
    &&& holds_violations(m, IGNORE_VIOLATIONS@, c.ignore_violations)
    &&& holds_bool(m, ENABLE_WEAKER_NESTED_SANDBOX@, c.enable_weaker_nested_sandbox)
    &&& forall|k: Seq<char>| m.contains_key(k) ==> sandbox_key(k)
}

/// `v` is the JSON object that stands for the settings `c`.
pub open spec fn encodes_sandbox(v: serde_json::Value, c: SandboxSettingsView) -> bool {
    &&& json_shape(v) matches JsonShape::Object(m)
    &&& sandbox_entries(m, c)
}

/// The settings that the entries `m` stand for: each field read under its
/// key, other keys ignored. `None` where a field is invalid.
pub open spec fn sandbox_of_entries(m: JsonEntries) -> Option<SandboxSettingsView> {
    let enabled = bool_field(m, ENABLED@);
    let auto_allow = bool_field(m, AUTO_ALLOW_BASH_IF_SANDBOXED@);
    let excluded = strings_field(m, EXCLUDED_COMMANDS@);
    let unsandboxed = bool_field(m, ALLOW_UNSANDBOXED_COMMANDS@);
    let network = network_field(m, NETWORK@);
    let violations = violations_field(m, IGNORE_VIOLATIONS@);
    let weaker = bool_field(m, ENABLE_WEAKER_NESTED_SANDBOX@);
    if enabled is Invalid || auto_allow is Invalid || excluded is Invalid || unsandboxed is Invalid || network is Invalid
        || violations is Invalid || weaker is Invalid {
        None
    } else {
        Some(
            SandboxSettingsView {
                enabled: enabled.value(),
                auto_allow_bash_if_sandboxed: auto_allow.value(),
                excluded_commands: excluded.value(),
                allow_unsandboxed_commands: unsandboxed.value(),
                network: network.value(),
                ignore_violations: violations.value(),
                enable_weaker_nested_sandbox: weaker.value(),
            },
        )
    }
}

/// The settings that `v` stands for, `None` where `v` is no object or a
/// field is invalid.
pub open spec fn sandbox_of_json(v: serde_json::Value) -> Option<SandboxSettingsView> {
    match json_shape(v) {
        JsonShape::Object(m) => sandbox_of_entries(m),
        _ => None,
    }
}

/// The optional settings `x` are written under `key`: no key where they are
/// absent, their JSON object where they are present.
pub open spec fn holds_sandbox(m: JsonEntries, key: Seq<char>, x: Option<SandboxSettingsView>) -> bool {
    match x {
        Some(c) => m.contains_key(key) && encodes_sandbox(m[key], c),
        None => !m.contains_key(key),
    }
}

/// What reading optional sandbox settings under `key` finds.
pub open spec fn sandbox_field(m: JsonEntries, key: Seq<char>) -> Field<SandboxSettingsView> {
    match slot(m, key) {
        None => Field::Absent,
        Some(v) => match sandbox_of_json(v) {
            Some(c) => Field::Present(c),
            None => Field::Invalid,
        },
    }
}

/// No two keys of the sandbox settings are the same: they differ in length
/// or in one of their first two letters.
pub proof fn lemma_sandbox_keys_differ()
    ensures
        ENABLED@.len() == 7 && ENABLED@[0] == 'e',
        NETWORK@.len() == 7 && NETWORK@[0] == 'n',
        EXCLUDED_COMMANDS@.len() == 16 && EXCLUDED_COMMANDS@[0] == 'e',
        IGNORE_VIOLATIONS@.len() == 16 && IGNORE_VIOLATIONS@[0] == 'i',
        AUTO_ALLOW_BASH_IF_SANDBOXED@.len() == 24 && AUTO_ALLOW_BASH_IF_SANDBOXED@[1] == 'u',
        ALLOW_UNSANDBOXED_COMMANDS@.len() == 24 && ALLOW_UNSANDBOXED_COMMANDS@[1] == 'l',
        ENABLE_WEAKER_NESTED_SANDBOX@.len() == 25,
{
    reveal_strlit("enabled");
    reveal_strlit("network");
    reveal_strlit("excludedCommands");
    reveal_strlit("ignoreViolations");
    reveal_strlit("autoAllowBashIfSandboxed");
    reveal_strlit("allowUnsandboxedCommands");
    reveal_strlit("enableWeakerNestedSandbox");
}

/// Decoding what was encoded gives the settings back.
pub proof fn law_sandbox_round_trip(v: serde_json::Value, c: SandboxSettingsView)
    requires
        encodes_sandbox(v, c),
    ensures
        sandbox_of_json(v) == Some(c),
{
    let m = json_shape(v)->Object_0;
    lemma_bool_reads_back(m, ENABLED@, c.enabled);
    lemma_bool_reads_back(m, AUTO_ALLOW_BASH_IF_SANDBOXED@, c.auto_allow_bash_if_sandboxed);
    lemma_strings_read_back(m, EXCLUDED_COMMANDS@, c.excluded_commands);
    lemma_bool_reads_back(m, ALLOW_UNSANDBOXED_COMMANDS@, c.allow_unsandboxed_commands);
    lemma_network_reads_back(m, NETWORK@, c.network);
    lemma_violations_read_back(m, IGNORE_VIOLATIONS@, c.ignore_violations);
    lemma_bool_reads_back(m, ENABLE_WEAKER_NESTED_SANDBOX@, c.enable_weaker_nested_sandbox);
}

/// Sandbox settings that are written read back as themselves.
pub proof fn lemma_sandbox_reads_back(m: JsonEntries, key: Seq<char>, x: Option<SandboxSettingsView>)
    requires
        holds_sandbox(m, key, x),
    ensures
        sandbox_field(m, key) == Field::of(x),
{
    if let Some(c) = x {
        law_sandbox_round_trip(m[key], c);
    }
}

/// Settings with no field set are encoded as the empty object.
pub proof fn law_unset_sandbox_is_empty_object(v: serde_json::Value)
    requires
        encodes_sandbox(v, SandboxSettingsView::unset()),
    ensures
        json_shape(v) == JsonShape::Object(JsonEntries::empty()),
{
    let m = json_shape(v)->Object_0;
    assert forall|k: Seq<char>| !m.contains_key(k) by {
        if m.contains_key(k) {
            assert(sandbox_key(k));
        }
    }
    assert(m =~= JsonEntries::empty());
}

impl Default for SandboxSettings {
    /// The settings with every field absent.
    fn default() -> (r: Self)
        ensures
            r@ == SandboxSettingsView::unset(),
    {
        SandboxSettings {
            enabled: None,
            auto_allow_bash_if_sandboxed: None,
            excluded_commands: None,
            allow_unsandboxed_commands: None,
            network: None,
            ignore_violations: None,
            enable_weaker_nested_sandbox: None,
        }
    }
}

impl SandboxSettings {
    /// Starts settings with every field absent.
    pub fn builder() -> (r: SandboxSettingsBuilder)
        ensures
            r@ == SandboxSettingsView::unset(),
    {
        SandboxSettingsBuilder { config: SandboxSettings::default() }
    }

    /// The JSON object of these settings: one camel-case key for each present
    /// field, none for an absent one.
    pub fn to_json(&self) -> (r: serde_json::Value)
        ensures
            encodes_sandbox(r, self@),
    {
        let mut m = serde_json::Map::new();
        put_bool(&mut m, ENABLED, self.enabled);
        put_bool(&mut m, AUTO_ALLOW_BASH_IF_SANDBOXED, self.auto_allow_bash_if_sandboxed);
        put_strings(&mut m, EXCLUDED_COMMANDS, &self.excluded_commands);
        put_bool(&mut m, ALLOW_UNSANDBOXED_COMMANDS, self.allow_unsandboxed_commands);
        put_network(&mut m, NETWORK, &self.network);
        put_violations(&mut m, IGNORE_VIOLATIONS, &self.ignore_violations);
        put_bool(&mut m, ENABLE_WEAKER_NESTED_SANDBOX, self.enable_weaker_nested_sandbox);
        proof {
            lemma_sandbox_keys_differ();
        }
        value_object(m)
    }

    /// Reads settings from a JSON object. A missing key or `null` gives an
    /// absent field, keys of other names are ignored, and a value of the
    /// wrong type under a known key is an error.
    pub fn from_json(v: &serde_json::Value) -> (r: Result<SandboxSettings, SettingsError>)
        ensures
            match r {
                Ok(c) => sandbox_of_json(*v) == Some(c@),
                Err(e) => e == SettingsError::Schema && sandbox_of_json(*v) is None,
            },
    {
        let m = match v.as_object() {
            Some(m) => m,
            None => {
                return Err(SettingsError::Schema);
            },
        };
        let enabled = match get_bool(m, ENABLED) {
            Field::Absent => None,
            Field::Present(b) => Some(b),
            Field::Invalid => {
                return Err(SettingsError::Schema);
            },
        };
        let auto_allow_bash_if_sandboxed = match get_bool(m, AUTO_ALLOW_BASH_IF_SANDBOXED) {
            Field::Absent => None,
            Field::Present(b) => Some(b),
            Field::Invalid => {
                return Err(SettingsError::Schema);
            },
        };
        let excluded_commands = match get_strings(m, EXCLUDED_COMMANDS) {
            Field::Absent => None,
            Field::Present(list) => Some(list),
            Field::Invalid => {
                return Err(SettingsError::Schema);
            },
        };
        let allow_unsandboxed_commands = match get_bool(m, ALLOW_UNSANDBOXED_COMMANDS) {
            Field::Absent => None,
            Field::Present(b) => Some(b),
            Field::Invalid => {
                return Err(SettingsError::Schema);
            },
        };
        let network = match get_network(m, NETWORK) {
            Field::Absent => None,
            Field::Present(c) => Some(c),
            Field::Invalid => {
                return Err(SettingsError::Schema);
            },
        };
        let ignore_violations = match get_violations(m, IGNORE_VIOLATIONS) {
            Field::Absent => None,
            Field::Present(c) => Some(c),
            Field::Invalid => {
                return Err(SettingsError::Schema);
            },
        };
        let enable_weaker_nested_sandbox = match get_bool(m, ENABLE_WEAKER_NESTED_SANDBOX) {
            Field::Absent => None,
            Field::Present(b) => Some(b),
            Field::Invalid => {
                return Err(SettingsError::Schema);
            },
        };
        Ok(
            SandboxSettings {
                enabled,
                auto_allow_bash_if_sandboxed,
                excluded_commands,
                allow_unsandboxed_commands,
                network,
                ignore_violations,
                enable_weaker_nested_sandbox,
            },
        )
    }
}

/// Writes the optional sandbox settings `x` under `key`.
pub(crate) fn put_sandbox(m: &mut serde_json::Map<String, serde_json::Value>, key: &str, x: &Option<SandboxSettings>)
    ensures
        written(map_entries(*old(m)), map_entries(*final(m)), key@, x is Some),
        x matches Some(c) ==> encodes_sandbox(map_entries(*final(m))[key@], c@),
{
    if let Some(c) = x {
        let _ = m.insert(key.to_string(), c.to_json());
    }
}

/// Reads the optional sandbox settings under `key`.
pub(crate) fn get_sandbox(m: &serde_json::Map<String, serde_json::Value>, key: &str) -> (r: Field<SandboxSettings>)
    ensures
        match r {
            Field::Absent => sandbox_field(map_entries(*m), key@) is Absent,
            Field::Present(c) => sandbox_field(map_entries(*m), key@) == Field::Present(c@),
            Field::Invalid => sandbox_field(map_entries(*m), key@) is Invalid,
        },
{
    match map_get(m, key) {
        None => Field::Absent,
        Some(v) => if v.is_null() {
            Field::Absent
        } else {
            match SandboxSettings::from_json(v) {
                Ok(c) => Field::Present(c),
                Err(_) => Field::Invalid,
            }
        },
    }
}

/// Sandbox settings under construction.
pub struct SandboxSettingsBuilder {
    config: SandboxSettings,
}

impl View for SandboxSettingsBuilder {
    type V = SandboxSettingsView;

    closed spec fn view(&self) -> SandboxSettingsView {
        self.config@
    }
}

impl SandboxSettingsBuilder {
    /// Sets whether bash sandboxing is enabled.
    pub fn enabled(self, enabled: bool) -> (r: Self)
        ensures
            r@ == (SandboxSettingsView { enabled: Some(enabled), ..self@ }),
    {
        let mut config = self.config;
        config.enabled = Some(enabled);
        SandboxSettingsBuilder { config }
    }

    /// Sets whether sandboxed bash commands are approved automatically.
    pub fn auto_allow_bash_if_sandboxed(self, allow: bool) -> (r: Self)
        ensures
            r@ == (SandboxSettingsView { auto_allow_bash_if_sandboxed: Some(allow), ..self@ }),
    {
        let mut config = self.config;
        config.auto_allow_bash_if_sandboxed = Some(allow);
        SandboxSettingsBuilder { config }
    }

    /// Sets the commands that run outside the sandbox.
    pub fn excluded_commands(self, commands: Vec<String>) -> (r: Self)
        ensures
            r@ == (SandboxSettingsView { excluded_commands: Some(commands.deep_view()), ..self@ }),
    {
        let mut config = self.config;
        config.excluded_commands = Some(commands);
        SandboxSettingsBuilder { config }
    }

    /// Sets whether commands may bypass the sandbox on request.
    pub fn allow_unsandboxed_commands(self, allow: bool) -> (r: Self)
        ensures
            r@ == (SandboxSettingsView { allow_unsandboxed_commands: Some(allow), ..self@ }),
    {
        let mut config = self.config;
        config.allow_unsandboxed_commands = Some(allow);
        SandboxSettingsBuilder { config }
    }

    /// Sets the network configuration.
    pub fn network(self, network: SandboxNetworkConfig) -> (r: Self)
        ensures
            r@ == (SandboxSettingsView { network: Some(network@), ..self@ }),
    {
        let mut config = self.config;
        config.network = Some(network);
        SandboxSettingsBuilder { config }
    }

    /// Sets the violations to ignore.
    pub fn ignore_violations(self, violations: SandboxIgnoreViolations) -> (r: Self)
        ensures
            r@ == (SandboxSettingsView { ignore_violations: Some(violations@), ..self@ }),
    {
        let mut config = self.config;
        config.ignore_violations = Some(violations);
        SandboxSettingsBuilder { config }
    }

    /// Sets whether the weaker nested sandbox is enabled.
    pub fn enable_weaker_nested_sandbox(self, enable: bool) -> (r: Self)
        ensures
            r@ == (SandboxSettingsView { enable_weaker_nested_sandbox: Some(enable), ..self@ }),
    {
        let mut config = self.config;
        config.enable_weaker_nested_sandbox = Some(enable);
        SandboxSettingsBuilder { config }
    }

    /// The settings as set so far.
    pub fn build(self) -> (r: SandboxSettings)
        ensures
            r@ == self@,
    {
        self.config
    }
}

} // verus!
