//! The structured settings object: the sandbox policy and, beside it, every
//! other key kept as it came.

use vstd::prelude::*;
use crate::error::SettingsError;
use crate::fields::Field;
use crate::json::{json_shape, json_text, map_entries, map_get, map_remove, parse_json, parsed_json, print_json, value_object, JsonEntries, JsonShape};
use crate::sandbox::{encodes_sandbox, get_sandbox, holds_sandbox, lemma_sandbox_reads_back, put_sandbox, sandbox_field, SandboxSettings, SandboxSettingsView};

verus! {

/// Key of [`SettingsObject::sandbox`].
pub const SANDBOX: &'static str = "sandbox";

/// Structured settings.
#[derive(Debug, Clone)]
pub struct SettingsObject {
    /// Sandbox settings for bash command isolation. Absent means that no
    /// sandbox policy is given.
    pub sandbox: Option<SandboxSettings>,
    /// Additional settings as raw JSON values. In the JSON object they stand
    /// at the same level as `sandbox`, each under its own key.
    pub extra: serde_json::Map<String, serde_json::Value>,
}

/// Structured settings as a mathematical value.
pub struct SettingsObjectView {
    pub sandbox: Option<SandboxSettingsView>,
    pub extra: JsonEntries,
}

impl SettingsObjectView {
    /// The settings without a sandbox policy and without additional entries.
    pub open spec fn unset() -> SettingsObjectView {
        SettingsObjectView { sandbox: None, extra: JsonEntries::empty() }
    }
}

/// The view of optional sandbox settings.
pub open spec fn sandbox_view(x: Option<SandboxSettings>) -> Option<SandboxSettingsView> {
    match x {
        Some(c) => Some(c@),
        None => None,
    }
}

impl View for SettingsObject {
    type V = SettingsObjectView;

    open spec fn view(&self) -> SettingsObjectView {
        SettingsObjectView { sandbox: sandbox_view(self.sandbox), extra: map_entries(self.extra) }
    }
}

/// The entries `m` are those of the settings `o`: the additional entries as
/// they are, and with them the sandbox policy under the key `sandbox`, where
/// it is present and no additional entry already has that key.
pub open spec fn object_entries(m: JsonEntries, o: SettingsObjectView) -> bool {
    if o.sandbox is Some && !o.extra.contains_key(SANDBOX@) {
        &&& m == o.extra.insert(SANDBOX@, m[SANDBOX@])
        &&& encodes_sandbox(m[SANDBOX@], o.sandbox->Some_0)
    } else {
        m == o.extra
    }
}

/// `v` is the JSON object that stands for the settings `o`.
pub open spec fn encodes_object(v: serde_json::Value, o: SettingsObjectView) -> bool {
    &&& json_shape(v) matches JsonShape::Object(m)
    &&& object_entries(m, o)
}

/// The settings that `v` stands for: the sandbox policy read under the key
/// `sandbox`, every other entry kept as an additional one. `None` where `v`
/// is no object or the policy is invalid.
pub open spec fn object_of_json(v: serde_json::Value) -> Option<SettingsObjectView> {
    match json_shape(v) {
        JsonShape::Object(m) => match sandbox_field(m, SANDBOX@) {
            Field::Invalid => None,
            found => Some(SettingsObjectView { sandbox: found.value(), extra: m.remove(SANDBOX@) }),
        },
        _ => None,
    }
}

/// What [`SettingsObject::from_json_str`] returns for a text, given the
/// value that the text parses to.
pub open spec fn object_of_parsed(parsed: Option<serde_json::Value>) -> Result<SettingsObjectView, SettingsError> {
    match parsed {
        None => Err(SettingsError::Syntax),
        Some(v) => match object_of_json(v) {
            Some(o) => Ok(o),
            None => Err(SettingsError::Schema),
        },
    }
}

/// A result of reading, with the settings taken as a mathematical value.
pub open spec fn outcome(r: Result<SettingsObject, SettingsError>) -> Result<SettingsObjectView, SettingsError> {
    match r {
        Ok(o) => Ok(o@),
        Err(e) => Err(e),
    }
}

/// Where the sandbox policy is absent and no additional entry is named
/// `sandbox`, the encoded object has no key `sandbox`.
pub proof fn law_absent_sandbox_is_omitted(v: serde_json::Value, o: SettingsObjectView)
    requires
        encodes_object(v, o),
        o.sandbox is None,
        !o.extra.contains_key(SANDBOX@),
    ensures
        json_shape(v) matches JsonShape::Object(m) && !m.contains_key(SANDBOX@),
{
}

/// Every additional entry stands at the top level of the encoded object,
/// under its own key and with its own value.
pub proof fn law_extra_is_flat(v: serde_json::Value, o: SettingsObjectView, k: Seq<char>)
    requires
        encodes_object(v, o),
        o.extra.contains_key(k),
    ensures
        json_shape(v) matches JsonShape::Object(m) && m.contains_key(k) && m[k] == o.extra[k],
{
}

/// Settings without a policy and without additional entries are encoded as
/// the empty object.
pub proof fn law_unset_object_is_empty_object(v: serde_json::Value)
    requires
        encodes_object(v, SettingsObjectView::unset()),
    ensures
        json_shape(v) == JsonShape::Object(JsonEntries::empty()),
{
}

/// Decoding what was encoded gives the settings back, provided that no
/// additional entry is named `sandbox`.
pub proof fn law_object_round_trip(v: serde_json::Value, o: SettingsObjectView)
    requires
        encodes_object(v, o),
        !o.extra.contains_key(SANDBOX@),
    ensures
        object_of_json(v) == Some(o),
{
    let m = json_shape(v)->Object_0;
    assert(m.remove(SANDBOX@) =~= o.extra);
    assert(holds_sandbox(m, SANDBOX@, o.sandbox));
    lemma_sandbox_reads_back(m, SANDBOX@, o.sandbox);
}

/// Encoding what was decoded from an encoded object gives an object with the
/// same keys, the same additional entries and a sandbox entry that stands
/// for the same policy, provided that no additional entry is named
/// `sandbox`.
pub proof fn law_reencoding_keeps_the_object(first: serde_json::Value, second: serde_json::Value, o: SettingsObjectView)
    requires
        encodes_object(first, o),
        !o.extra.contains_key(SANDBOX@),
        object_of_json(first) matches Some(back) && encodes_object(second, back),
    ensures
        json_shape(first) matches JsonShape::Object(m1) && json_shape(second) matches JsonShape::Object(m2) && {
            &&& m1.dom() == m2.dom()
            &&& m1.remove(SANDBOX@) == m2.remove(SANDBOX@)
            &&& holds_sandbox(m1, SANDBOX@, o.sandbox)
            &&& holds_sandbox(m2, SANDBOX@, o.sandbox)
        },
{
    law_object_round_trip(first, o);
    let m1 = json_shape(first)->Object_0;
    let m2 = json_shape(second)->Object_0;
    assert(m1.remove(SANDBOX@) =~= o.extra);
    assert(m2.remove(SANDBOX@) =~= o.extra);
    assert(m1.dom() =~= m2.dom());
}

impl Default for SettingsObject {
    /// The settings without a sandbox policy and without additional entries.
    fn default() -> (r: Self)
        ensures
            r@ == SettingsObjectView::unset(),
    {
        SettingsObject { sandbox: None, extra: serde_json::Map::new() }
    }
}

impl SettingsObject {
    /// Starts settings without a sandbox policy and without additional
    /// entries.
    pub fn builder() -> (r: SettingsObjectBuilder)
        ensures
            r@ == SettingsObjectView::unset(),
    {
        SettingsObjectBuilder { object: SettingsObject::default() }
    }

    /// The JSON object of these settings: the additional entries at the top
    /// level and the sandbox policy, where present, under `sandbox`. An
    /// additional entry named `sandbox` takes the place of the policy.
    pub fn to_json(&self) -> (r: serde_json::Value)
        ensures
            encodes_object(r, self@),
    {
        let mut m = self.extra.clone();
        if map_get(&m, SANDBOX).is_none() {
            put_sandbox(&mut m, SANDBOX, &self.sandbox);
        }
        value_object(m)
    }

    /// Reads settings from a JSON object. The key `sandbox` gives the
    /// sandbox policy (absent where the key is missing or `null`), and every
    /// other key becomes an additional entry. A value that is no object, or
    /// a policy that does not read, is an error.
    pub fn from_json(v: &serde_json::Value) -> (r: Result<SettingsObject, SettingsError>)
        ensures
            match r {
                Ok(o) => object_of_json(*v) == Some(o@),
                Err(e) => e == SettingsError::Schema && object_of_json(*v) is None,
            },
    {
        let m = match v.as_object() {
            Some(m) => m,
            None => {
                return Err(SettingsError::Schema);
            },
        };
        let sandbox = match get_sandbox(m, SANDBOX) {
            Field::Absent => None,
            Field::Present(c) => Some(c),
            Field::Invalid => {
                return Err(SettingsError::Schema);
            },
        };
        let mut extra = m.clone();
        let _ = map_remove(&mut extra, SANDBOX);
        Ok(SettingsObject { sandbox, extra })
    }

    /// Reads settings from JSON text: text that is not JSON is a syntax
    /// error, and JSON that is not a settings object a schema error.
    pub fn from_json_str(text: &str) -> (r: Result<SettingsObject, SettingsError>)
        ensures
            outcome(r) == object_of_parsed(parsed_json(text@)),
    {
        match parse_json(text) {
            Ok(v) => SettingsObject::from_json(&v),
            Err(_) => Err(SettingsError::Syntax),
        }
    }

    /// The settings as compact JSON text: the text of their JSON object.
    pub fn to_json_string(&self) -> (r: String)
        ensures
            exists|v: serde_json::Value| encodes_object(v, self@) && r@ == json_text(v),
    {
        let v = self.to_json();
        print_json(&v)
    }
}

/// Structured settings under construction.
pub struct SettingsObjectBuilder {
    object: SettingsObject,
}

impl View for SettingsObjectBuilder {
    type V = SettingsObjectView;

    closed spec fn view(&self) -> SettingsObjectView {
        self.object@
    }
}

impl SettingsObjectBuilder {
    /// Sets the sandbox policy.
    pub fn sandbox(self, sandbox: SandboxSettings) -> (r: Self)
        ensures
            r@ == (SettingsObjectView { sandbox: Some(sandbox@), ..self@ }),
    {
        let mut object = self.object;
        object.sandbox = Some(sandbox);
        SettingsObjectBuilder { object }
    }

    /// Sets the additional entries.
    pub fn extra(self, extra: serde_json::Map<String, serde_json::Value>) -> (r: Self)
        ensures
            r@ == (SettingsObjectView { extra: map_entries(extra), ..self@ }),
    {
        let mut object = self.object;
        object.extra = extra;
        SettingsObjectBuilder { object }
    }

    /// The settings as set so far.
    pub fn build(self) -> (r: SettingsObject)
        ensures
            r@ == self@,
    {
        self.object
    }
}

} // verus!
