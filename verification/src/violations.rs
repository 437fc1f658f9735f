//! Sandbox violations to ignore.

use vstd::prelude::*;
use crate::error::SettingsError;
use crate::fields::{get_strings, holds_strings, lemma_strings_read_back, put_strings, slot, strings_field, written, Field};
use crate::json::{json_shape, map_entries, map_get, value_object, JsonEntries, JsonShape};

verus! {

/// Key of [`SandboxIgnoreViolations::file`].
pub const FILE: &'static str = "file";

/// Key of [`SandboxIgnoreViolations::network`].
pub const NETWORK: &'static str = "network";

/// Violations to ignore in the sandbox. Its keys are the field names as they
/// stand.
#[derive(Debug, Clone)]
pub struct SandboxIgnoreViolations {
    /// File paths for which violations are ignored.
    pub file: Option<Vec<String>>,
    /// Network hosts for which violations are ignored.
    pub network: Option<Vec<String>>,
}

/// The ignored violations as a mathematical value.
pub struct IgnoreViolationsView {
    pub file: Option<Seq<Seq<char>>>,
    pub network: Option<Seq<Seq<char>>>,
}

impl IgnoreViolationsView {
    /// The value with both lists absent.
    pub open spec fn unset() -> IgnoreViolationsView {
        IgnoreViolationsView { file: None, network: None }
    }
}

impl View for SandboxIgnoreViolations {
    type V = IgnoreViolationsView;

    open spec fn view(&self) -> IgnoreViolationsView {
        IgnoreViolationsView { file: self.file.deep_view(), network: self.network.deep_view() }
    }
}

/// `k` is one of the keys of the ignored violations.
pub open spec fn violations_key(k: Seq<char>) -> bool {
    k == FILE@ || k == NETWORK@
}

/// The entries `m` are those of `c`: each present list under its key, and no
/// other key.
pub open spec fn violations_entries(m: JsonEntries, c: IgnoreViolationsView) -> bool {
    &&& holds_strings(m, FILE@, c.file)
    &&& holds_strings(m, NETWORK@, c.network)
    &&& forall|k: Seq<char>| m.contains_key(k) ==> violations_key(k)
}

/// `v` is the JSON object that stands for `c`.
pub open spec fn encodes_violations(v: serde_json::Value, c: IgnoreViolationsView) -> bool {
    &&& json_shape(v) matches JsonShape::Object(m)
    &&& violations_entries(m, c)
}

/// The ignored violations that the entries `m` stand for: each list read
/// under its key, other keys ignored. `None` where a list is invalid.
pub open spec fn violations_of_entries(m: JsonEntries) -> Option<IgnoreViolationsView> {
    let file = strings_field(m, FILE@);
    let network = strings_field(m, NETWORK@);
    if file is Invalid || network is Invalid {
        None
    } else {
        Some(IgnoreViolationsView { file: file.value(), network: network.value() })
    }
}

/// The ignored violations that `v` stands for, `None` where `v` is no object
/// or a list is invalid.
pub open spec fn violations_of_json(v: serde_json::Value) -> Option<IgnoreViolationsView> {
    match json_shape(v) {
        JsonShape::Object(m) => violations_of_entries(m),
        _ => None,
    }
}

/// The optional value `x` is written under `key`: no key where it is absent,
/// its JSON object where it is present.
pub open spec fn holds_violations(m: JsonEntries, key: Seq<char>, x: Option<IgnoreViolationsView>) -> bool {
    match x {
        Some(c) => m.contains_key(key) && encodes_violations(m[key], c),
        None => !m.contains_key(key),
    }
}

/// What reading optional ignored violations under `key` finds.
pub open spec fn violations_field(m: JsonEntries, key: Seq<char>) -> Field<IgnoreViolationsView> {
    match slot(m, key) {
        None => Field::Absent,
        Some(v) => match violations_of_json(v) {
            Some(c) => Field::Present(c),
            None => Field::Invalid,
        },
    }
}

/// The two keys differ in length, so they are not the same.
pub proof fn lemma_violations_keys_differ()
    ensures
        FILE@.len() == 4,
        NETWORK@.len() == 7,
{
    reveal_strlit("file");
    reveal_strlit("network");
}

/// Decoding what was encoded gives the ignored violations back.
pub proof fn law_violations_round_trip(v: serde_json::Value, c: IgnoreViolationsView)
    requires
        encodes_violations(v, c),
    ensures
        violations_of_json(v) == Some(c),
{
    let m = json_shape(v)->Object_0;
    lemma_strings_read_back(m, FILE@, c.file);
    lemma_strings_read_back(m, NETWORK@, c.network);
}

/// Ignored violations that are written read back as themselves.
pub proof fn lemma_violations_read_back(m: JsonEntries, key: Seq<char>, x: Option<IgnoreViolationsView>)
    requires
        holds_violations(m, key, x),
    ensures
        violations_field(m, key) == Field::of(x),
{
    if let Some(c) = x {
        law_violations_round_trip(m[key], c);
    }
}

impl Default for SandboxIgnoreViolations {
    /// The value with both lists absent.
    fn default() -> (r: Self)
        ensures
            r@ == IgnoreViolationsView::unset(),
    {
        SandboxIgnoreViolations { file: None, network: None }
    }
}

impl SandboxIgnoreViolations {
    /// Starts a value with both lists absent.
    pub fn builder() -> (r: SandboxIgnoreViolationsBuilder)
        ensures
            r@ == IgnoreViolationsView::unset(),
    {
        SandboxIgnoreViolationsBuilder { config: SandboxIgnoreViolations::default() }
    }

    /// The JSON object of this value: one key for each present list, none
    /// for an absent one.
    pub fn to_json(&self) -> (r: serde_json::Value)
        ensures
            encodes_violations(r, self@),
    {
        let mut m = serde_json::Map::new();
        put_strings(&mut m, FILE, &self.file);
        put_strings(&mut m, NETWORK, &self.network);
        proof {
            lemma_violations_keys_differ();
        }
        value_object(m)
    }

    /// Reads ignored violations from a JSON object. A missing key or `null`
    /// gives an absent list, keys of other names are ignored, and a value
    /// that is no array of strings under a known key is an error.
    pub fn from_json(v: &serde_json::Value) -> (r: Result<SandboxIgnoreViolations, SettingsError>)
        ensures
            match r {
                Ok(c) => violations_of_json(*v) == Some(c@),
                Err(e) => e == SettingsError::Schema && violations_of_json(*v) is None,
            },
    {
        let m = match v.as_object() {
            Some(m) => m,
            None => {
                return Err(SettingsError::Schema);
            },
        };
        let file = match get_strings(m, FILE) {
            Field::Absent => None,
            Field::Present(list) => Some(list),
            Field::Invalid => {
                return Err(SettingsError::Schema);
            },
        };
        let network = match get_strings(m, NETWORK) {
            Field::Absent => None,
            Field::Present(list) => Some(list),
            Field::Invalid => {
                return Err(SettingsError::Schema);
            },
        };
        Ok(SandboxIgnoreViolations { file, network })
    }
}

/// Writes the optional ignored violations `x` under `key`.
pub(crate) fn put_violations(m: &mut serde_json::Map<String, serde_json::Value>, key: &str, x: &Option<SandboxIgnoreViolations>)
    ensures
        written(map_entries(*old(m)), map_entries(*final(m)), key@, x is Some),
        x matches Some(c) ==> encodes_violations(map_entries(*final(m))[key@], c@),
{
    if let Some(c) = x {
        let _ = m.insert(key.to_string(), c.to_json());
    }
}

/// Reads the optional ignored violations under `key`.
pub(crate) fn get_violations(m: &serde_json::Map<String, serde_json::Value>, key: &str) -> (r: Field<SandboxIgnoreViolations>)
    ensures
        match r {
            Field::Absent => violations_field(map_entries(*m), key@) is Absent,
            Field::Present(c) => violations_field(map_entries(*m), key@) == Field::Present(c@),
            Field::Invalid => violations_field(map_entries(*m), key@) is Invalid,
        },
{
    match map_get(m, key) {
        None => Field::Absent,
        Some(v) => if v.is_null() {
            Field::Absent
        } else {
            match SandboxIgnoreViolations::from_json(v) {
                Ok(c) => Field::Present(c),
                Err(_) => Field::Invalid,
            }
        },
    }
}

/// Ignored violations under construction.
pub struct SandboxIgnoreViolationsBuilder {
    config: SandboxIgnoreViolations,
}

impl View for SandboxIgnoreViolationsBuilder {
    type V = IgnoreViolationsView;

    closed spec fn view(&self) -> IgnoreViolationsView {
        self.config@
    }
}

impl SandboxIgnoreViolationsBuilder {
    /// Sets the file paths for which violations are ignored.
    pub fn file(self, paths: Vec<String>) -> (r: Self)
        ensures
            r@ == (IgnoreViolationsView { file: Some(paths.deep_view()), ..self@ }),
    {
        let mut config = self.config;
        config.file = Some(paths);
        SandboxIgnoreViolationsBuilder { config }
    }

    /// Sets the network hosts for which violations are ignored.
    pub fn network(self, hosts: Vec<String>) -> (r: Self)
        ensures
            r@ == (IgnoreViolationsView { network: Some(hosts.deep_view()), ..self@ }),
    {
        let mut config = self.config;
        config.network = Some(hosts);
        SandboxIgnoreViolationsBuilder { config }
    }

    /// The value as set so far.
    pub fn build(self) -> (r: SandboxIgnoreViolations)
        ensures
            r@ == self@,
    {
        self.config
    }
}

} // verus!
