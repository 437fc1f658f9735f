//! Network exceptions of the sandbox.

use vstd::prelude::*;
use crate::error::SettingsError;
use crate::fields::{bool_field, get_bool, get_port, get_strings, holds_bool, holds_port, holds_strings, lemma_bool_reads_back, lemma_port_reads_back, lemma_strings_read_back, port_field, put_bool, put_port, put_strings, slot, strings_field, written, Field};
use crate::json::{json_shape, map_entries, map_get, value_object, JsonEntries, JsonShape};

verus! {

/// Key of [`SandboxNetworkConfig::allow_unix_sockets`].
pub const ALLOW_UNIX_SOCKETS: &'static str = "allowUnixSockets";

/// Key of [`SandboxNetworkConfig::allow_all_unix_sockets`].
pub const ALLOW_ALL_UNIX_SOCKETS: &'static str = "allowAllUnixSockets";

/// Key of [`SandboxNetworkConfig::allow_local_binding`].
pub const ALLOW_LOCAL_BINDING: &'static str = "allowLocalBinding";

/// Key of [`SandboxNetworkConfig::http_proxy_port`].
pub const HTTP_PROXY_PORT: &'static str = "httpProxyPort";

/// Key of [`SandboxNetworkConfig::socks_proxy_port`].
pub const SOCKS_PROXY_PORT: &'static str = "socksProxyPort";

/// Network configuration for the sandbox. Every field is optional; an absent
/// field leaves the choice to whoever applies the settings.
#[derive(Debug, Clone)]
pub struct SandboxNetworkConfig {
    /// Unix socket paths reachable from inside the sandbox (SSH agents, for
    /// one).
    pub allow_unix_sockets: Option<Vec<String>>,
    /// Allow all Unix sockets. Less secure than the explicit list.
    pub allow_all_unix_sockets: Option<bool>,
    /// Allow binding to localhost ports (macOS only).
    pub allow_local_binding: Option<bool>,
    /// Port of an HTTP proxy that the caller runs.
    pub http_proxy_port: Option<u16>,
    /// Port of a SOCKS5 proxy that the caller runs.
    pub socks_proxy_port: Option<u16>,
}

/// A network configuration as a mathematical value.
pub struct NetworkConfigView {
    pub allow_unix_sockets: Option<Seq<Seq<char>>>,
    pub allow_all_unix_sockets: Option<bool>,
    pub allow_local_binding: Option<bool>,
    pub http_proxy_port: Option<u16>,
    pub socks_proxy_port: Option<u16>,
}

impl NetworkConfigView {
    /// The configuration with every field absent.
    pub open spec fn unset() -> NetworkConfigView {
        NetworkConfigView {
            allow_unix_sockets: None,
            allow_all_unix_sockets: None,
            allow_local_binding: None,
            http_proxy_port: None,
            socks_proxy_port: None,
        }
    }
}

impl View for SandboxNetworkConfig {
    type V = NetworkConfigView;

    open spec fn view(&self) -> NetworkConfigView {
        NetworkConfigView {
            allow_unix_sockets: self.allow_unix_sockets.deep_view(),
            allow_all_unix_sockets: self.allow_all_unix_sockets,
            allow_local_binding: self.allow_local_binding,
            http_proxy_port: self.http_proxy_port,
            socks_proxy_port: self.socks_proxy_port,
        }
    }
}

/// `k` is one of the keys of a network configuration.
pub open spec fn network_key(k: Seq<char>) -> bool {
    ||| k == ALLOW_UNIX_SOCKETS@
    ||| k == ALLOW_ALL_UNIX_SOCKETS@
    ||| k == ALLOW_LOCAL_BINDING@
    ||| k == HTTP_PROXY_PORT@
    ||| k == SOCKS_PROXY_PORT@
}

/// The entries `m` are those of the configuration `c`: each present field
/// under its key, and no other key.
pub open spec fn network_entries(m: JsonEntries, c: NetworkConfigView) -> bool {
    &&& holds_strings(m, ALLOW_UNIX_SOCKETS@, c.allow_unix_sockets)
    &&& holds_bool(m, ALLOW_ALL_UNIX_SOCKETS@, c.allow_all_unix_sockets)
    &&& holds_bool(m, ALLOW_LOCAL_BINDING@, c.allow_local_binding)
    &&& holds_port(m, HTTP_PROXY_PORT@, c.http_proxy_port)
    &&& holds_port(m, SOCKS_PROXY_PORT@, c.socks_proxy_port)
    &&& forall|k: Seq<char>| m.contains_key(k) ==> network_key(k)
}

/// `v` is the JSON object that stands for the configuration `c`.
pub open spec fn encodes_network(v: serde_json::Value, c: NetworkConfigView) -> bool {
    &&& json_shape(v) matches JsonShape::Object(m)
    &&& network_entries(m, c)
}

/// The configuration that the entries `m` stand for: each field read under
/// its key, other keys ignored. `None` where a field is invalid.
pub open spec fn network_of_entries(m: JsonEntries) -> Option<NetworkConfigView> {
    let sockets = strings_field(m, ALLOW_UNIX_SOCKETS@);
    let all_sockets = bool_field(m, ALLOW_ALL_UNIX_SOCKETS@);
    let binding = bool_field(m, ALLOW_LOCAL_BINDING@);
    let http = port_field(m, HTTP_PROXY_PORT@);
    let socks = port_field(m, SOCKS_PROXY_PORT@);
    if sockets is Invalid || all_sockets is Invalid || binding is Invalid || http is Invalid || socks is Invalid {
        None
    } else {
        Some(
            NetworkConfigView {
                allow_unix_sockets: sockets.value(),
                allow_all_unix_sockets: all_sockets.value(),
                allow_local_binding: binding.value(),
                http_proxy_port: http.value(),
                socks_proxy_port: socks.value(),
            },
        )
    }
}

/// The configuration that `v` stands for, `None` where `v` is no object or a
/// field is invalid.
pub open spec fn network_of_json(v: serde_json::Value) -> Option<NetworkConfigView> {
    match json_shape(v) {
        JsonShape::Object(m) => network_of_entries(m),
        _ => None,
    }
}

/// The keys of a network configuration differ in length, so no two of them
/// are the same.
pub proof fn lemma_network_keys_differ()
    ensures
        ALLOW_UNIX_SOCKETS@.len() == 16,
        ALLOW_ALL_UNIX_SOCKETS@.len() == 19,
        ALLOW_LOCAL_BINDING@.len() == 17,
        HTTP_PROXY_PORT@.len() == 13,
        SOCKS_PROXY_PORT@.len() == 14,
{
    reveal_strlit("allowUnixSockets");
    reveal_strlit("allowAllUnixSockets");
    reveal_strlit("allowLocalBinding");
    reveal_strlit("httpProxyPort");
    reveal_strlit("socksProxyPort");
}

/// Decoding what was encoded gives the configuration back.
pub proof fn law_network_round_trip(v: serde_json::Value, c: NetworkConfigView)
    requires
        encodes_network(v, c),
    ensures
        network_of_json(v) == Some(c),
{
    let m = json_shape(v)->Object_0;
    lemma_strings_read_back(m, ALLOW_UNIX_SOCKETS@, c.allow_unix_sockets);
    lemma_bool_reads_back(m, ALLOW_ALL_UNIX_SOCKETS@, c.allow_all_unix_sockets);
    lemma_bool_reads_back(m, ALLOW_LOCAL_BINDING@, c.allow_local_binding);
    lemma_port_reads_back(m, HTTP_PROXY_PORT@, c.http_proxy_port);
    lemma_port_reads_back(m, SOCKS_PROXY_PORT@, c.socks_proxy_port);
}

impl Default for SandboxNetworkConfig {
    /// The configuration with every field absent.
    fn default() -> (r: Self)
        ensures
            r@ == NetworkConfigView::unset(),
    {
        SandboxNetworkConfig {
            allow_unix_sockets: None,
            allow_all_unix_sockets: None,
            allow_local_binding: None,
            http_proxy_port: None,
            socks_proxy_port: None,
        }
    }
}

impl SandboxNetworkConfig {
    /// Starts a configuration with every field absent.
    pub fn builder() -> (r: SandboxNetworkConfigBuilder)
        ensures
            r@ == NetworkConfigView::unset(),
    {
        SandboxNetworkConfigBuilder { config: SandboxNetworkConfig::default() }
    }

    /// The JSON object of this configuration: one camel-case key for each
    /// present field, none for an absent one.
    pub fn to_json(&self) -> (r: serde_json::Value)
        ensures
            encodes_network(r, self@),
    {
        let mut m = serde_json::Map::new();
        put_strings(&mut m, ALLOW_UNIX_SOCKETS, &self.allow_unix_sockets);
        put_bool(&mut m, ALLOW_ALL_UNIX_SOCKETS, self.allow_all_unix_sockets);
        put_bool(&mut m, ALLOW_LOCAL_BINDING, self.allow_local_binding);
        put_port(&mut m, HTTP_PROXY_PORT, self.http_proxy_port);
        put_port(&mut m, SOCKS_PROXY_PORT, self.socks_proxy_port);
        proof {
            lemma_network_keys_differ();
        }
        value_object(m)
    }

    /// Reads a configuration from a JSON object. A missing key or `null`
    /// gives an absent field, keys of other names are ignored, and a value of
    /// the wrong type under a known key is an error.
    pub fn from_json(v: &serde_json::Value) -> (r: Result<SandboxNetworkConfig, SettingsError>)
        ensures
            match r {
                Ok(c) => network_of_json(*v) == Some(c@),
                Err(e) => e == SettingsError::Schema && network_of_json(*v) is None,
            },
    {
        let m = match v.as_object() {
            Some(m) => m,
            None => {
                return Err(SettingsError::Schema);
            },
        };
        let allow_unix_sockets = match get_strings(m, ALLOW_UNIX_SOCKETS) {
            Field::Absent => None,
            Field::Present(list) => Some(list),
            Field::Invalid => {
                return Err(SettingsError::Schema);
            },
        };
        let allow_all_unix_sockets = match get_bool(m, ALLOW_ALL_UNIX_SOCKETS) {
            Field::Absent => None,
            Field::Present(b) => Some(b),
            Field::Invalid => {
                return Err(SettingsError::Schema);
            },
        };
        let allow_local_binding = match get_bool(m, ALLOW_LOCAL_BINDING) {
            Field::Absent => None,
            Field::Present(b) => Some(b),
            Field::Invalid => {
                return Err(SettingsError::Schema);
            },
        };
        let http_proxy_port = match get_port(m, HTTP_PROXY_PORT) {
            Field::Absent => None,
            Field::Present(p) => Some(p),
            Field::Invalid => {
                return Err(SettingsError::Schema);
            },
        };
        let socks_proxy_port = match get_port(m, SOCKS_PROXY_PORT) {
            Field::Absent => None,
            Field::Present(p) => Some(p),
            Field::Invalid => {
                return Err(SettingsError::Schema);
            },
        };
        Ok(
            SandboxNetworkConfig {
                allow_unix_sockets,
                allow_all_unix_sockets,
                allow_local_binding,
                http_proxy_port,
                socks_proxy_port,
            },
        )
    }
}

/// The optional configuration `x` is written under `key`: no key where it is
/// absent, its JSON object where it is present.
pub open spec fn holds_network(m: JsonEntries, key: Seq<char>, x: Option<NetworkConfigView>) -> bool {
    match x {
        Some(c) => m.contains_key(key) && encodes_network(m[key], c),
        None => !m.contains_key(key),
    }
}

/// What reading an optional network configuration under `key` finds.
pub open spec fn network_field(m: JsonEntries, key: Seq<char>) -> Field<NetworkConfigView> {
    match slot(m, key) {
        None => Field::Absent,
        Some(v) => match network_of_json(v) {
            Some(c) => Field::Present(c),
            None => Field::Invalid,
        },
    }
}

/// A network configuration that is written reads back as itself.
pub proof fn lemma_network_reads_back(m: JsonEntries, key: Seq<char>, x: Option<NetworkConfigView>)
    requires
        holds_network(m, key, x),
    ensures
        network_field(m, key) == Field::of(x),
{
    if let Some(c) = x {
        law_network_round_trip(m[key], c);
    }
}

/// Writes the optional network configuration `x` under `key`.
pub(crate) fn put_network(m: &mut serde_json::Map<String, serde_json::Value>, key: &str, x: &Option<SandboxNetworkConfig>)
    ensures
        written(map_entries(*old(m)), map_entries(*final(m)), key@, x is Some),
        x matches Some(c) ==> encodes_network(map_entries(*final(m))[key@], c@),
{
    if let Some(c) = x {
        let _ = m.insert(key.to_string(), c.to_json());
    }
}

/// Reads the optional network configuration under `key`.
pub(crate) fn get_network(m: &serde_json::Map<String, serde_json::Value>, key: &str) -> (r: Field<SandboxNetworkConfig>)
    ensures
        match r {
            Field::Absent => network_field(map_entries(*m), key@) is Absent,
            Field::Present(c) => network_field(map_entries(*m), key@) == Field::Present(c@),
            Field::Invalid => network_field(map_entries(*m), key@) is Invalid,
        },
{
    match map_get(m, key) {
        None => Field::Absent,
        Some(v) => if v.is_null() {
            Field::Absent
        } else {
            match SandboxNetworkConfig::from_json(v) {
                Ok(c) => Field::Present(c),
                Err(_) => Field::Invalid,
            }
        },
    }
}

/// A network configuration under construction.
pub struct SandboxNetworkConfigBuilder {
    config: SandboxNetworkConfig,
}

impl View for SandboxNetworkConfigBuilder {
    type V = NetworkConfigView;

    closed spec fn view(&self) -> NetworkConfigView {
        self.config@
    }
}

impl SandboxNetworkConfigBuilder {
    /// Sets the Unix socket paths reachable from inside the sandbox.
    pub fn allow_unix_sockets(self, paths: Vec<String>) -> (r: Self)
        ensures
            r@ == (NetworkConfigView { allow_unix_sockets: Some(paths.deep_view()), ..self@ }),
    {
        let mut config = self.config;
        config.allow_unix_sockets = Some(paths);
        SandboxNetworkConfigBuilder { config }
    }

    /// Sets whether all Unix sockets are allowed.
    pub fn allow_all_unix_sockets(self, allow: bool) -> (r: Self)
        ensures
            r@ == (NetworkConfigView { allow_all_unix_sockets: Some(allow), ..self@ }),
    {
        let mut config = self.config;
        config.allow_all_unix_sockets = Some(allow);
        SandboxNetworkConfigBuilder { config }
    }

    /// Sets whether binding to localhost ports is allowed.
    pub fn allow_local_binding(self, allow: bool) -> (r: Self)
        ensures
            r@ == (NetworkConfigView { allow_local_binding: Some(allow), ..self@ }),
    {
        let mut config = self.config;
        config.allow_local_binding = Some(allow);
        SandboxNetworkConfigBuilder { config }
    }

    /// Sets the port of the caller's HTTP proxy.
    pub fn http_proxy_port(self, port: u16) -> (r: Self)
        ensures
            r@ == (NetworkConfigView { http_proxy_port: Some(port), ..self@ }),
    {
        let mut config = self.config;
        config.http_proxy_port = Some(port);
        SandboxNetworkConfigBuilder { config }
    }

    /// Sets the port of the caller's SOCKS5 proxy.
    pub fn socks_proxy_port(self, port: u16) -> (r: Self)
        ensures
            r@ == (NetworkConfigView { socks_proxy_port: Some(port), ..self@ }),
    {
        let mut config = self.config;
        config.socks_proxy_port = Some(port);
        SandboxNetworkConfigBuilder { config }
    }

    /// The configuration as set so far.
    pub fn build(self) -> (r: SandboxNetworkConfig)
        ensures
            r@ == self@,
    {
        self.config
    }
}

} // verus!
